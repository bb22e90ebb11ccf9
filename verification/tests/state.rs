use twitchmonitor::events::{handle_event, Incoming};
use twitchmonitor::messages::{Effect, Outgoing};
use twitchmonitor::oauth::parse_callback;
use twitchmonitor::plugin::PluginState;
use twitchmonitor::poll::{monitor_step, needs_refresh, MonitorPoll, Reply};
use twitchmonitor::settings::{ButtonSettings, ContextState, GlobalSettings};
use twitchmonitor::twitch::TwitchUser;
use twitchmonitor::urlenc::encode;

const MONITOR: &str = "com.dajax.twitchmonitorstreamlink.monitor";

fn incoming(event: &str, action: &str, context: &str) -> Incoming {
    Incoming {
        event: event.to_string(),
        action: action.to_string(),
        context: context.to_string(),
        device: None,
        settings: Some(ButtonSettings::default()),
        global_settings: None,
        cmd: String::new(),
        state_param: None,
    }
}

/// Everything the plugin remembers, written out for comparison.
fn snapshot(st: &PluginState) -> String {
    let g = &st.global_settings;
    let mut s = format!(
        "{} {:?} {:?} {:?} {:?} {:?} {:?} {:?}|",
        st.plugin_uuid,
        g.access_token,
        g.refresh_token,
        g.token_expiry,
        g.authed_display_name,
        g.authed_avatar_url,
        g.authed_user_id,
        st.known_devices
    );
    for (k, c) in &st.contexts {
        s.push_str(&format!(
            "{} {:?} {} {:?} {:?} {:?} {:?} {:?} {:?} {} {:?};",
            k,
            c.ctx_type,
            c.settings.twitch_username,
            c.device,
            c.user_id,
            c.avatar_url,
            c.display_name,
            c.is_live,
            c.viewer_count,
            c.has_image,
            c.follows_count
        ));
    }
    s
}

fn populated() -> PluginState {
    let mut st = PluginState::new("uuid-1".to_string(), vec!["dev-A".to_string()]);
    let mut s = ButtonSettings::default();
    s.twitch_username = "alpha".to_string();
    st.insert("k1".to_string(), ContextState::new_monitor(s));
    st.insert("f1".to_string(), ContextState::new_follows(ButtonSettings::default(), Some("dev-A".to_string())));
    st.global_settings.access_token = Some("tok".to_string());
    st
}

#[test]
fn appearing_and_disappearing_restores_the_state() {
    let mut st = populated();
    let before = snapshot(&st);
    handle_event(&mut st, &incoming("willAppear", MONITOR, "k9"));
    assert_ne!(snapshot(&st), before);
    handle_event(&mut st, &incoming("willDisappear", MONITOR, "k9"));
    assert_eq!(snapshot(&st), before);
}

#[test]
fn pressing_a_key_changes_nothing_remembered() {
    let mut st = populated();
    let before = snapshot(&st);
    handle_event(&mut st, &incoming("keyDown", MONITOR, "k1"));
    assert_eq!(snapshot(&st), before);
}

#[test]
fn other_events_keep_the_shown_keys() {
    let mut st = populated();
    for ev in ["deviceDidConnect", "deviceDidDisconnect", "didReceiveGlobalSettings", "didReceiveSettings", "keyDown", "sendToPlugin"] {
        let mut m = incoming(ev, MONITOR, "k1");
        m.device = Some("dev-B".to_string());
        m.cmd = "clearAuth".to_string();
        handle_event(&mut st, &m);
        assert_eq!(st.keys(), vec!["k1".to_string(), "f1".to_string()]);
    }
}

#[test]
fn a_monitor_poll_leaves_other_keys_and_the_settings_alone() {
    let mut st = populated();
    st.contexts[1].1.follows_count = Some(4);
    let before_f1 = format!("{:?} {:?}", st.contexts[1].1.follows_count, st.contexts[1].1.device);
    let mut p = MonitorPoll::new("k1".to_string());
    let (_, r) = monitor_step(&mut st, &mut p, None);
    assert!(r.is_some());
    let user = TwitchUser { id: "1".to_string(), display_name: "A".to_string(), profile_image_url: "u".to_string() };
    monitor_step(&mut st, &mut p, Some(Reply::User(Ok(user))));
    monitor_step(&mut st, &mut p, Some(Reply::Stream(Ok((true, Some(3))))));
    let (_, r) = monitor_step(&mut st, &mut p, Some(Reply::Image("I".to_string())));
    assert!(r.is_none());
    assert_eq!(format!("{:?} {:?}", st.contexts[1].1.follows_count, st.contexts[1].1.device), before_f1);
    assert_eq!(st.global_settings.access_token.as_deref(), Some("tok"));
    assert_eq!(st.contexts[0].1.user_id.as_deref(), Some("1"));
    // A finished poll asks for nothing and does nothing.
    let (e, r) = monitor_step(&mut st, &mut p, None);
    assert!(e.is_empty() && r.is_none());
}

#[test]
fn merging_settings() {
    let mut g = GlobalSettings::empty();
    g.access_token = Some("a".to_string());
    g.authed_user_id = Some("7".to_string());
    let mut fields = GlobalSettings::empty();
    fields.access_token = Some("b".to_string());
    fields.token_expiry = Some(9);
    g.merge(fields);
    assert_eq!(g.access_token.as_deref(), Some("b"));
    assert_eq!(g.token_expiry, Some(9));
    assert_eq!(g.authed_user_id.as_deref(), Some("7"));
    g.merge(GlobalSettings::empty());
    assert_eq!(g.access_token.as_deref(), Some("b"));
    g.clear();
    assert!(g.access_token.is_none() && g.authed_user_id.is_none() && g.token_expiry.is_none());
}

#[test]
fn saving_and_clearing_the_account_announce_the_settings() {
    let mut st = populated();
    let mut fields = GlobalSettings::empty();
    fields.authed_display_name = Some("Me".to_string());
    let o = st.save_global_auth(fields);
    assert_eq!(st.global_settings.authed_display_name.as_deref(), Some("Me"));
    assert_eq!(st.global_settings.access_token.as_deref(), Some("tok"));
    assert!(matches!(o, Outgoing::SetGlobalSettings { ref context, ref settings }
        if context == "uuid-1" && settings.authed_display_name.as_deref() == Some("Me")));
    let o = st.clear_global_auth();
    assert!(st.global_settings.access_token.is_none());
    assert!(matches!(o, Outgoing::SetGlobalSettings { ref settings, .. } if settings.access_token.is_none()));
    let mut out: Vec<Effect> = Vec::new();
    st.poll_all(&mut out);
    assert_eq!(out.len(), 2);
}

#[test]
fn refresh_once_due_stays_due() {
    let expiry = 10_000_000u64;
    let mut due = false;
    for t in (0..20_000_000u64).step_by(250_000) {
        let now_due = needs_refresh(t, expiry);
        assert!(!due || now_due);
        due = now_due;
    }
    assert!(due);
}

#[test]
fn the_state_parameter_names_the_key() {
    for ctx in ["k1", "ABC DEF", "x/y?z=1&w", "ümlaut"] {
        let req = format!("GET /?code=c&state=nonce123.{} HTTP/1.1\r\n", encode(ctx));
        assert_eq!(parse_callback(&req).context.as_deref(), Some(ctx));
    }
}
