use twitchmonitor::events::{handle_event, Incoming};
use twitchmonitor::messages::{Effect, Outgoing, PiPayload};
use twitchmonitor::plugin::PluginState;
use twitchmonitor::settings::{default_btn_action, default_volume, ButtonSettings, ContextType, GlobalSettings};

const MONITOR: &str = "com.dajax.twitchmonitorstreamlink.monitor";
const FOLLOWS: &str = "com.dajax.twitchmonitorstreamlink.followslive";
const INDEX: &str = "com.dajax.twitchmonitorstreamlink.followsindex";

fn incoming(event: &str, action: &str, context: &str) -> Incoming {
    Incoming {
        event: event.to_string(),
        action: action.to_string(),
        context: context.to_string(),
        device: None,
        settings: Some(ButtonSettings::default()),
        global_settings: None,
        cmd: String::new(),
        state_param: None,
    }
}

fn with_user(name: &str) -> ButtonSettings {
    let mut s = ButtonSettings::default();
    s.twitch_username = name.to_string();
    s
}

fn describe(e: &Effect) -> String {
    match e {
        Effect::Send(o) => describe_out(o),
        Effect::PollContext(c) => format!("poll {}", c),
        Effect::PollMonitor(c) => format!("pollMonitor {}", c),
        Effect::StartPollLoop { context, kind } => format!("loop {} {:?}", context, kind),
        Effect::LaunchStreamlink { exe, url } => format!("streamlink {} {}", exe, url),
        Effect::PlaySound { data, volume } => format!("sound {} {}", data, volume),
        Effect::HandleAuthExpired(c) => format!("expired {}", c),
        Effect::SideConnection { uuid, messages } => {
            let m: Vec<String> = messages.iter().map(describe_out).collect();
            format!("side {} [{}]", uuid, m.join("; "))
        },
    }
}

fn describe_out(o: &Outgoing) -> String {
    match o {
            Outgoing::SetImage { context, image } => format!("setImage {} {}", context, image),
            Outgoing::SetTitle { context, title } => format!("setTitle {} {:?}", context, title),
            Outgoing::LogMessage { message } => format!("log {}", message),
            Outgoing::SetGlobalSettings { context, settings } => {
                format!("setGlobalSettings {} token={:?}", context, settings.access_token)
            },
            Outgoing::SendToPropertyInspector { action, context, payload } => {
                let p = match payload {
                    PiPayload::MonitorStatus { display_name, avatar_url, is_live, viewer_count } => {
                        format!("status {} {:?} {} {:?}", display_name, avatar_url, is_live, viewer_count)
                    },
                    PiPayload::FollowsCount { count } => format!("follows {}", count),
                    PiPayload::AuthStatus { kind, error } => format!("auth {:?} {:?}", kind, error),
                    PiPayload::AuthSuccess { authed_display_name, authed_avatar_url } => {
                        format!("success {} {}", authed_display_name, authed_avatar_url)
                    },
                };
                format!("toPI {} {} {}", action, context, p)
            },
            Outgoing::SwitchToProfile { context, device, profile, nested } => {
                format!("switchToProfile {} {:?} {} nested={}", context, device, profile, nested)
            },
            Outgoing::ShowOk { context } => format!("showOk {}", context),
            Outgoing::ShowAlert { context } => format!("showAlert {}", context),
            Outgoing::OpenUrl { url } => format!("openUrl {}", url),
            Outgoing::Register { event, uuid } => format!("register {} {}", event, uuid),
            Outgoing::GetGlobalSettings { context } => format!("getGlobalSettings {}", context),
    }
}

fn run(st: &mut PluginState, m: &Incoming) -> Vec<String> {
    handle_event(st, m).iter().map(describe).collect()
}

fn fresh() -> PluginState {
    PluginState::new("uuid-1".to_string(), vec!["dev-A".to_string()])
}

#[test]
fn defaults_of_a_key() {
    assert_eq!(default_volume(), 80);
    assert_eq!(default_btn_action(), "browser");
    let d = ButtonSettings::default();
    assert_eq!(d.alert_volume, 80);
    assert_eq!(d.button_action, "browser");
    assert!(!d.alert_enabled);
    assert!(d.alert_sound_data.is_none());
    assert_eq!(d.twitch_username, "");
}

#[test]
fn will_appear_registers_a_monitor_key_and_starts_its_loop() {
    let mut st = fresh();
    let mut m = incoming("willAppear", MONITOR, "k1");
    m.settings = Some(with_user("ninja"));
    let out = run(&mut st, &m);
    assert_eq!(
        out,
        vec!["log [TwitchMonitor] willAppear (monitor): k1".to_string(), "loop k1 Monitor".to_string()]
    );
    let i = st.find("k1").unwrap();
    let c = &st.contexts[i].1;
    assert_eq!(c.ctx_type, ContextType::Monitor);
    assert_eq!(c.settings.twitch_username, "ninja");
    assert!(c.device.is_none());
    assert!(c.user_id.is_none() && !c.has_image && c.is_live.is_none());
}

#[test]
fn will_appear_registers_a_follows_key_with_its_device() {
    let mut st = fresh();
    let mut m = incoming("willAppear", FOLLOWS, "f1");
    m.device = Some("dev-B".to_string());
    let out = run(&mut st, &m);
    assert_eq!(out, vec!["log [TwitchMonitor] willAppear (follows): f1".to_string(), "loop f1 Follows".to_string()]);
    let i = st.find("f1").unwrap();
    assert_eq!(st.contexts[i].1.ctx_type, ContextType::Follows);
    assert_eq!(st.contexts[i].1.device.as_deref(), Some("dev-B"));
}

#[test]
fn will_appear_twice_keeps_one_entry_with_fresh_state() {
    let mut st = fresh();
    run(&mut st, &incoming("willAppear", MONITOR, "k1"));
    st.contexts[0].1.has_image = true;
    run(&mut st, &incoming("willAppear", MONITOR, "k1"));
    assert_eq!(st.contexts.len(), 1);
    assert!(!st.contexts[0].1.has_image);
}

#[test]
fn will_disappear_forgets_the_key() {
    let mut st = fresh();
    run(&mut st, &incoming("willAppear", MONITOR, "k1"));
    run(&mut st, &incoming("willAppear", FOLLOWS, "f1"));
    let out = run(&mut st, &incoming("willDisappear", MONITOR, "k1"));
    assert_eq!(out, vec!["log [TwitchMonitor] willDisappear: k1".to_string()]);
    assert!(st.find("k1").is_none());
    assert!(st.find("f1").is_some());
    assert_eq!(st.keys(), vec!["f1".to_string()]);
}

#[test]
fn events_of_other_plugins_are_ignored() {
    let mut st = fresh();
    for ev in ["willAppear", "willDisappear", "didReceiveSettings", "keyDown", "sendToPlugin"] {
        let out = run(&mut st, &incoming(ev, "com.other.plugin", "x"));
        assert!(out.is_empty());
    }
    assert!(st.contexts.is_empty());
    let out = run(&mut st, &incoming("titleParametersDidChange", MONITOR, "k1"));
    assert!(out.is_empty());
}

#[test]
fn devices_connect_and_disconnect() {
    let mut st = fresh();
    let mut m = incoming("deviceDidConnect", "", "");
    m.device = Some("dev-B".to_string());
    let out = run(&mut st, &m);
    assert_eq!(out, vec!["log [TwitchMonitor] deviceDidConnect: dev-B".to_string()]);
    assert_eq!(st.known_devices, vec!["dev-A".to_string(), "dev-B".to_string()]);
    run(&mut st, &m);
    let mut d = incoming("deviceDidDisconnect", "", "");
    d.device = Some("dev-B".to_string());
    assert!(run(&mut st, &d).is_empty());
    assert_eq!(st.known_devices, vec!["dev-A".to_string()]);
    let none = incoming("deviceDidConnect", "", "");
    assert!(run(&mut st, &none).is_empty());
}

#[test]
fn global_settings_replace_and_poll_every_key() {
    let mut st = fresh();
    run(&mut st, &incoming("willAppear", MONITOR, "k1"));
    run(&mut st, &incoming("willAppear", FOLLOWS, "f1"));
    let mut m = incoming("didReceiveGlobalSettings", "", "");
    let mut g = GlobalSettings::empty();
    g.access_token = Some("tok".to_string());
    m.global_settings = Some(g);
    let out = run(&mut st, &m);
    assert_eq!(
        out,
        vec![
            "log [TwitchMonitor] Global settings received — authed=true".to_string(),
            "poll k1".to_string(),
            "poll f1".to_string(),
        ]
    );
    assert_eq!(st.global_settings.access_token.as_deref(), Some("tok"));
    // Settings that do not parse leave the stored ones.
    let m2 = incoming("didReceiveGlobalSettings", "", "");
    let out2 = run(&mut st, &m2);
    assert_eq!(out2[0], "log [TwitchMonitor] Global settings received — authed=true");
    assert_eq!(st.global_settings.access_token.as_deref(), Some("tok"));
}

#[test]
fn new_channel_name_forgets_the_looked_up_channel() {
    let mut st = fresh();
    let mut a = incoming("willAppear", MONITOR, "k1");
    a.settings = Some(with_user("alpha"));
    run(&mut st, &a);
    st.contexts[0].1.user_id = Some("42".to_string());
    st.contexts[0].1.has_image = true;
    st.contexts[0].1.is_live = Some(true);
    let mut m = incoming("didReceiveSettings", MONITOR, "k1");
    m.settings = Some(with_user("beta"));
    let out = run(&mut st, &m);
    assert_eq!(out, vec!["log [TwitchMonitor] didReceiveSettings: k1".to_string(), "poll k1".to_string()]);
    let c = &st.contexts[0].1;
    assert_eq!(c.settings.twitch_username, "beta");
    assert!(c.user_id.is_none() && !c.has_image && c.is_live.is_none());
}

#[test]
fn same_channel_name_keeps_the_looked_up_channel() {
    let mut st = fresh();
    let mut a = incoming("willAppear", MONITOR, "k1");
    a.settings = Some(with_user("alpha"));
    run(&mut st, &a);
    st.contexts[0].1.user_id = Some("42".to_string());
    let mut m = incoming("didReceiveSettings", MONITOR, "k1");
    let mut s = with_user("alpha");
    s.alert_enabled = true;
    m.settings = Some(s);
    run(&mut st, &m);
    assert_eq!(st.contexts[0].1.user_id.as_deref(), Some("42"));
    assert!(st.contexts[0].1.settings.alert_enabled);
}

#[test]
fn key_down_opens_the_channel_in_the_browser() {
    let mut st = fresh();
    let mut a = incoming("willAppear", MONITOR, "k1");
    a.settings = Some(with_user("some one"));
    run(&mut st, &a);
    let out = run(&mut st, &incoming("keyDown", MONITOR, "k1"));
    assert_eq!(out, vec!["openUrl https://twitch.tv/some%20one".to_string()]);
}

#[test]
fn key_down_launches_streamlink() {
    let mut st = fresh();
    let mut a = incoming("willAppear", MONITOR, "k1");
    let mut s = with_user("ninja");
    s.button_action = "streamlink".to_string();
    a.settings = Some(s);
    run(&mut st, &a);
    let out = run(&mut st, &incoming("keyDown", MONITOR, "k1"));
    assert_eq!(
        out,
        vec![
            "log [TwitchMonitor] Launching streamlink: streamlink https://twitch.tv/ninja best".to_string(),
            "streamlink streamlink https://twitch.tv/ninja".to_string(),
        ]
    );
    st.contexts[0].1.settings.streamlink_path = "/opt/sl".to_string();
    let out = run(&mut st, &incoming("keyDown", MONITOR, "k1"));
    assert_eq!(out[1], "streamlink /opt/sl https://twitch.tv/ninja");
}

#[test]
fn key_down_without_channel_does_nothing() {
    let mut st = fresh();
    run(&mut st, &incoming("willAppear", MONITOR, "k1"));
    assert!(run(&mut st, &incoming("keyDown", MONITOR, "k1")).is_empty());
    assert!(run(&mut st, &incoming("keyDown", MONITOR, "unknown")).is_empty());
}

#[test]
fn follows_key_switches_profile() {
    let mut st = fresh();
    let mut a = incoming("willAppear", FOLLOWS, "f1");
    a.device = Some("dev-B".to_string());
    run(&mut st, &a);
    let mut m = incoming("keyDown", FOLLOWS, "f1");
    let mut s = ButtonSettings::default();
    s.target_profile = "  Live Follows ".to_string();
    m.settings = Some(s);
    let out = run(&mut st, &m);
    assert_eq!(
        out,
        vec![
            "log [TwitchMonitor] keyDown(follows): profile=\"Live Follows\" device=Some(\"dev-B\")".to_string(),
            "side opendeck_alternative_elgato_implementation [switchToProfile opendeck_alternative_elgato_implementation Some(\"dev-B\") Live Follows nested=true; switchToProfile opendeck_alternative_elgato_implementation Some(\"dev-B\") Live Follows nested=false]".to_string(),
            "showOk f1".to_string(),
        ]
    );
}

#[test]
fn follows_key_falls_back_to_the_first_known_device() {
    let mut st = fresh();
    let mut m = incoming("keyDown", FOLLOWS, "f9");
    let mut s = ButtonSettings::default();
    s.target_profile = "P".to_string();
    m.settings = Some(s);
    let out = run(&mut st, &m);
    assert!(out[1].starts_with("side opendeck_alternative_elgato_implementation [switchToProfile opendeck_alternative_elgato_implementation Some(\"dev-A\") P nested=true;"));
}

#[test]
fn follows_key_without_profile_shows_an_alert() {
    let mut st = fresh();
    run(&mut st, &incoming("willAppear", FOLLOWS, "f1"));
    let out = run(&mut st, &incoming("keyDown", FOLLOWS, "f1"));
    assert_eq!(out, vec!["showAlert f1".to_string()]);
}

#[test]
fn clear_auth_signs_out_and_tells_every_key() {
    let mut st = fresh();
    run(&mut st, &incoming("willAppear", MONITOR, "k1"));
    run(&mut st, &incoming("willAppear", FOLLOWS, "f1"));
    st.global_settings.access_token = Some("tok".to_string());
    st.global_settings.authed_user_id = Some("7".to_string());
    let mut m = incoming("sendToPlugin", MONITOR, "k1");
    m.cmd = "clearAuth".to_string();
    let out = run(&mut st, &m);
    assert_eq!(
        out,
        vec![
            "setGlobalSettings uuid-1 token=None".to_string(),
            "poll k1".to_string(),
            "poll f1".to_string(),
            format!("toPI {} k1 auth Cleared None", MONITOR),
            format!("toPI {} f1 auth Cleared None", MONITOR),
        ]
    );
    assert!(st.global_settings.access_token.is_none());
    assert!(st.global_settings.authed_user_id.is_none());
}

#[test]
fn auth_flow_messages_are_logged() {
    let mut st = fresh();
    let mut m = incoming("sendToPlugin", FOLLOWS, "f1");
    m.cmd = "startAuth".to_string();
    m.state_param = Some("n.f1".to_string());
    assert_eq!(run(&mut st, &m), vec!["log [TwitchMonitor] Auth flow started for context f1, state=n.f1".to_string()]);
    m.state_param = None;
    assert!(run(&mut st, &m).is_empty());
    m.cmd = "cancelAuth".to_string();
    assert_eq!(run(&mut st, &m), vec!["log [TwitchMonitor] Auth cancelled for context f1".to_string()]);
    m.cmd = "other".to_string();
    assert!(run(&mut st, &m).is_empty());
}

#[test]
fn will_appear_registers_a_live_index_key() {
    let mut st = fresh();
    let mut m = incoming("willAppear", INDEX, "i1");
    let mut s = ButtonSettings::default();
    s.live_index = 3;
    m.settings = Some(s);
    m.device = Some("dev-B".to_string());
    let out = run(&mut st, &m);
    assert_eq!(out, vec!["log [TwitchMonitor] willAppear (live index): i1".to_string(), "loop i1 LiveIndex".to_string()]);
    let i = st.find("i1").unwrap();
    assert_eq!(st.contexts[i].1.ctx_type, ContextType::LiveIndex);
    assert_eq!(st.contexts[i].1.settings.live_index, 3);
    assert!(st.contexts[i].1.device.is_none());
    assert_eq!(ButtonSettings::default().live_index, 1);
    let out = run(&mut st, &incoming("willDisappear", INDEX, "i1"));
    assert_eq!(out, vec!["log [TwitchMonitor] willDisappear: i1".to_string()]);
    assert!(st.find("i1").is_none());
}

#[test]
fn live_index_key_opens_the_channel_in_its_slot() {
    let mut st = fresh();
    run(&mut st, &incoming("willAppear", INDEX, "i1"));
    assert!(run(&mut st, &incoming("keyDown", INDEX, "i1")).is_empty());
    st.contexts[0].1.channel_login = Some("shroud".to_string());
    assert_eq!(run(&mut st, &incoming("keyDown", INDEX, "i1")), vec!["openUrl https://twitch.tv/shroud".to_string()]);
    st.contexts[0].1.settings.button_action = "streamlink".to_string();
    let out = run(&mut st, &incoming("keyDown", INDEX, "i1"));
    assert_eq!(out[1], "streamlink streamlink https://twitch.tv/shroud");
}
