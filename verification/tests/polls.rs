use twitchmonitor::messages::{Effect, Outgoing, PiPayload};
use twitchmonitor::plugin::PluginState;
use twitchmonitor::poll::{
    expired_step, follows_step, monitor_step, needs_refresh, poll_kind, ExpiredPoll, FollowsPoll,
    MonitorPoll, Reply, Request,
};
use twitchmonitor::settings::{ButtonSettings, ContextState, ContextType};
use twitchmonitor::twitch::TwitchUser;

fn describe(e: &Effect) -> String {
    match e {
        Effect::Send(o) => match o {
            Outgoing::SetImage { context, image } => format!("setImage {} {}", context, image),
            Outgoing::SetTitle { context, title } => format!("setTitle {} {:?}", context, title),
            Outgoing::LogMessage { message } => format!("log {}", message),
            Outgoing::SetGlobalSettings { context, settings } => format!(
                "setGlobalSettings {} token={:?} user={:?}",
                context, settings.access_token, settings.authed_user_id
            ),
            Outgoing::SendToPropertyInspector { action, context, payload } => {
                let p = match payload {
                    PiPayload::MonitorStatus { display_name, avatar_url, is_live, viewer_count } => {
                        format!("status {} {:?} {} {:?}", display_name, avatar_url, is_live, viewer_count)
                    },
                    PiPayload::FollowsCount { count } => format!("follows {}", count),
                    PiPayload::AuthStatus { kind, error } => format!("auth {:?} {:?}", kind, error),
                    PiPayload::AuthSuccess { authed_display_name, authed_avatar_url } => {
                        format!("success {} {}", authed_display_name, authed_avatar_url)
                    },
                };
                format!("toPI {} {} {}", action.rsplit('.').next().unwrap_or(""), context, p)
            },
            _ => "other".to_string(),
        },
        Effect::PollContext(c) => format!("poll {}", c),
        Effect::PollMonitor(c) => format!("pollMonitor {}", c),
        Effect::StartPollLoop { context, kind } => format!("loop {} {:?}", context, kind),
        Effect::LaunchStreamlink { exe, url } => format!("streamlink {} {}", exe, url),
        Effect::PlaySound { data, volume } => format!("sound {} {}", data, volume),
        Effect::HandleAuthExpired(c) => format!("expired {}", c),
        Effect::SideConnection { uuid, messages } => format!("side {} {}", uuid, messages.len()),
    }
}

fn request_name(r: &Request) -> String {
    match r {
        Request::Clock => "clock".to_string(),
        Request::RefreshToken => "refresh".to_string(),
        Request::UserInfo { token, login } => format!("user {} {:?}", token, login),
        Request::StreamStatus { token, user_id } => format!("stream {} {}", token, user_id),
        Request::FollowedLiveCount { token, user_id } => format!("followed {} {}", token, user_id),
        Request::Placeholder { is_live } => format!("placeholder {}", is_live),
        Request::RenderKey { avatar_url, is_live, viewer_count } => {
            format!("render {:?} {} {:?}", avatar_url, is_live, viewer_count)
        },
        Request::RenderFollows { count } => format!("renderFollows {}", count),
        Request::LiveStreams { token, user_id } => format!("live {} {}", token, user_id),
        Request::BlankKey => "blank".to_string(),
    }
}

/// Runs a monitor poll to its end, answering each request from `answers`
/// in turn; returns the requests and the effects, in order.
fn run_monitor(st: &mut PluginState, ctx: &str, answers: Vec<Reply>) -> (Vec<String>, Vec<String>) {
    let mut p = MonitorPoll::new(ctx.to_string());
    let mut answers = answers.into_iter();
    let mut reply: Option<Reply> = None;
    let mut reqs = Vec::new();
    let mut effs = Vec::new();
    loop {
        let (e, r) = monitor_step(st, &mut p, reply.take());
        effs.extend(e.iter().map(describe));
        match r {
            Some(req) => {
                reqs.push(request_name(&req));
                reply = answers.next();
                if reply.is_none() {
                    break;
                }
            },
            None => break,
        }
    }
    (reqs, effs)
}

fn run_follows(st: &mut PluginState, ctx: &str, answers: Vec<Reply>) -> (Vec<String>, Vec<String>) {
    let mut p = FollowsPoll::new(ctx.to_string());
    let mut answers = answers.into_iter();
    let mut reply: Option<Reply> = None;
    let mut reqs = Vec::new();
    let mut effs = Vec::new();
    loop {
        let (e, r) = follows_step(st, &mut p, reply.take());
        effs.extend(e.iter().map(describe));
        match r {
            Some(req) => {
                reqs.push(request_name(&req));
                reply = answers.next();
                if reply.is_none() {
                    break;
                }
            },
            None => break,
        }
    }
    (reqs, effs)
}

fn user(id: &str, name: &str, avatar: &str) -> TwitchUser {
    TwitchUser { id: id.to_string(), display_name: name.to_string(), profile_image_url: avatar.to_string() }
}

fn state_with_monitor(name: &str) -> PluginState {
    let mut st = PluginState::new("uuid-1".to_string(), vec![]);
    let mut s = ButtonSettings::default();
    s.twitch_username = name.to_string();
    st.insert("k1".to_string(), ContextState::new_monitor(s));
    st
}

fn strings(v: &[&str]) -> Vec<String> {
    v.iter().map(|s| s.to_string()).collect()
}

#[test]
fn refresh_is_due_five_minutes_before_expiry() {
    assert!(!needs_refresh(1_000_000, 1_300_001));
    assert!(needs_refresh(1_000_002, 1_300_001));
    assert!(!needs_refresh(0, 100));
    assert!(needs_refresh(1, 100));
    assert!(!needs_refresh(5, u64::MAX));
}

#[test]
fn monitor_poll_of_a_missing_key_does_nothing() {
    let mut st = PluginState::new("uuid-1".to_string(), vec![]);
    let (reqs, effs) = run_monitor(&mut st, "k1", vec![]);
    assert!(reqs.is_empty() && effs.is_empty());
}

#[test]
fn monitor_poll_without_token_asks_for_authorisation() {
    let mut st = state_with_monitor("ninja");
    let (reqs, effs) = run_monitor(&mut st, "k1", vec![Reply::Rendered(Ok("PH".to_string()))]);
    assert_eq!(reqs, strings(&["placeholder false"]));
    assert_eq!(effs, strings(&["setImage k1 PH", "setTitle k1 \"Auth\\nRequired\""]));
    // A placeholder that fails to render leaves only the title.
    let (_, effs) = run_monitor(&mut st, "k1", vec![Reply::Rendered(Err("no".to_string()))]);
    assert_eq!(effs, strings(&["setTitle k1 \"Auth\\nRequired\""]));
}

#[test]
fn monitor_poll_without_channel_asks_for_setup() {
    let mut st = state_with_monitor("");
    st.global_settings.access_token = Some("tok".to_string());
    let (_, effs) = run_monitor(&mut st, "k1", vec![Reply::Rendered(Ok("PH".to_string()))]);
    assert_eq!(effs, strings(&["setImage k1 PH", "setTitle k1 \"Setup\\nRequired\""]));
}

#[test]
fn monitor_poll_resolves_the_channel_and_draws_it_live() {
    let mut st = state_with_monitor(" NinJa ");
    st.global_settings.access_token = Some("tok".to_string());
    let (reqs, effs) = run_monitor(
        &mut st,
        "k1",
        vec![
            Reply::User(Ok(user("42", "Ninja", "http://a/p.png"))),
            Reply::Stream(Ok((true, Some(1500)))),
            Reply::Image("IMG".to_string()),
        ],
    );
    assert_eq!(
        reqs,
        strings(&[
            "user tok Some(\"ninja\")",
            "stream tok 42",
            "render Some(\"http://a/p.png\") true Some(1500)",
        ])
    );
    assert_eq!(
        effs,
        strings(&[
            "log [TwitchMonitor] Resolved user: Ninja (42)",
            "setImage k1 IMG",
            "setTitle k1 \"\"",
            "toPI monitor k1 status Ninja Some(\"http://a/p.png\") true Some(1500)",
        ])
    );
    let c = &st.contexts[0].1;
    assert_eq!(c.user_id.as_deref(), Some("42"));
    assert_eq!(c.is_live, Some(true));
    assert_eq!(c.viewer_count, Some(1500));
    assert!(c.has_image);

    // The same status again draws nothing new.
    let (reqs, effs) = run_monitor(&mut st, "k1", vec![Reply::Stream(Ok((true, Some(1500))))]);
    assert_eq!(reqs, strings(&["stream tok 42"]));
    assert_eq!(
        effs,
        strings(&["setTitle k1 \"\"", "toPI monitor k1 status Ninja Some(\"http://a/p.png\") true Some(1500)"])
    );

    // A new viewer count redraws.
    let (reqs, _) = run_monitor(
        &mut st,
        "k1",
        vec![Reply::Stream(Ok((true, Some(1600)))), Reply::Image("IMG2".to_string())],
    );
    assert_eq!(reqs[1], "render Some(\"http://a/p.png\") true Some(1600)");
}

#[test]
fn monitor_poll_alerts_when_the_channel_goes_live() {
    let mut st = state_with_monitor("ninja");
    st.global_settings.access_token = Some("tok".to_string());
    {
        let c = &mut st.contexts[0].1;
        c.user_id = Some("42".to_string());
        c.display_name = Some("Ninja".to_string());
        c.is_live = Some(false);
        c.has_image = true;
        c.settings.alert_enabled = true;
        c.settings.alert_sound_data = Some("data:audio/mpeg;base64,AAAA".to_string());
        c.settings.alert_volume = 35;
    }
    let (_, effs) = run_monitor(
        &mut st,
        "k1",
        vec![Reply::Stream(Ok((true, None))), Reply::Image("IMG".to_string())],
    );
    assert_eq!(effs[0], "sound data:audio/mpeg;base64,AAAA 35");
    assert_eq!(effs[1], "setImage k1 IMG");
    // Live again: no second alert.
    let (_, effs) = run_monitor(&mut st, "k1", vec![Reply::Stream(Ok((true, None)))]);
    assert!(effs.iter().all(|e| !e.starts_with("sound")));
}

#[test]
fn monitor_poll_without_alert_sound_stays_silent() {
    let mut st = state_with_monitor("ninja");
    st.global_settings.access_token = Some("tok".to_string());
    {
        let c = &mut st.contexts[0].1;
        c.user_id = Some("42".to_string());
        c.is_live = Some(false);
        c.settings.alert_enabled = true;
    }
    let (_, effs) = run_monitor(
        &mut st,
        "k1",
        vec![Reply::Stream(Ok((true, None))), Reply::Image("IMG".to_string())],
    );
    assert!(effs.iter().all(|e| !e.starts_with("sound")));
}

#[test]
fn monitor_poll_refreshes_a_token_about_to_expire() {
    let mut st = state_with_monitor("ninja");
    st.global_settings.access_token = Some("tok".to_string());
    st.global_settings.token_expiry = Some(1_000_000);
    st.contexts[0].1.user_id = Some("42".to_string());
    st.contexts[0].1.has_image = true;
    st.contexts[0].1.is_live = Some(false);
    let (reqs, effs) = run_monitor(
        &mut st,
        "k1",
        vec![
            Reply::Now(800_000),
            Reply::Refreshed(Err("Token refresh failed: 400 Bad Request".to_string())),
            Reply::Stream(Ok((false, None))),
        ],
    );
    assert_eq!(reqs, strings(&["clock", "refresh", "stream tok 42"]));
    assert_eq!(effs[0], "log [TwitchMonitor] Proactive token refresh failed: Token refresh failed: 400 Bad Request");
    // Far from the expiry no refresh is asked for.
    let (reqs, _) = run_monitor(&mut st, "k1", vec![Reply::Now(10), Reply::Stream(Ok((false, None)))]);
    assert_eq!(reqs, strings(&["clock", "stream tok 42"]));
}

#[test]
fn monitor_poll_hands_a_refused_token_to_recovery() {
    let mut st = state_with_monitor("ninja");
    st.global_settings.access_token = Some("tok".to_string());
    st.contexts[0].1.user_id = Some("42".to_string());
    let (_, effs) = run_monitor(
        &mut st,
        "k1",
        vec![Reply::Stream(Err("Stream lookup failed: 401 Unauthorized".to_string()))],
    );
    assert_eq!(
        effs,
        strings(&["log [TwitchMonitor] Poll error: Stream lookup failed: 401 Unauthorized", "expired k1"])
    );
    let (_, effs) = run_monitor(&mut st, "k1", vec![Reply::Stream(Err("timeout".to_string()))]);
    assert_eq!(effs, strings(&["log [TwitchMonitor] Poll error: timeout"]));
}

#[test]
fn monitor_poll_stops_when_the_channel_is_unknown() {
    let mut st = state_with_monitor("nobody");
    st.global_settings.access_token = Some("tok".to_string());
    let (_, effs) = run_monitor(&mut st, "k1", vec![Reply::User(Err("User not found: nobody".to_string()))]);
    assert_eq!(effs, strings(&["log [TwitchMonitor] User lookup failed: User not found: nobody"]));
    assert!(st.contexts[0].1.user_id.is_none());
}

#[test]
fn follows_poll_without_token_asks_for_authorisation() {
    let mut st = PluginState::new("uuid-1".to_string(), vec![]);
    st.insert("f1".to_string(), ContextState::new_follows(ButtonSettings::default(), None));
    let (reqs, effs) = run_follows(&mut st, "f1", vec![Reply::Rendered(Ok("PH".to_string()))]);
    assert_eq!(reqs, strings(&["placeholder false"]));
    assert_eq!(effs, strings(&["setImage f1 PH", "setTitle f1 \"Auth\\nRequired\""]));
}

#[test]
fn follows_poll_counts_and_remembers_the_account() {
    let mut st = PluginState::new("uuid-1".to_string(), vec![]);
    st.insert("f1".to_string(), ContextState::new_follows(ButtonSettings::default(), None));
    st.global_settings.access_token = Some("tok".to_string());
    let (reqs, effs) = run_follows(
        &mut st,
        "f1",
        vec![
            Reply::User(Ok(user("7", "Me", "http://me"))),
            Reply::Count(Ok(3)),
            Reply::Image("F3".to_string()),
        ],
    );
    assert_eq!(reqs, strings(&["user tok None", "followed tok 7", "renderFollows 3"]));
    assert_eq!(
        effs,
        strings(&[
            "setGlobalSettings uuid-1 token=Some(\"tok\") user=Some(\"7\")",
            "setImage f1 F3",
            "setTitle f1 \"\"",
            "log [TwitchMonitor] Follows live count: 3",
            "toPI followslive f1 follows 3",
        ])
    );
    assert_eq!(st.global_settings.authed_user_id.as_deref(), Some("7"));
    assert_eq!(st.global_settings.authed_display_name.as_deref(), Some("Me"));
    assert_eq!(st.contexts[0].1.follows_count, Some(3));
}

#[test]
fn follows_poll_reports_a_missing_scope() {
    let mut st = PluginState::new("uuid-1".to_string(), vec![]);
    st.insert("f1".to_string(), ContextState::new_follows(ButtonSettings::default(), None));
    st.global_settings.access_token = Some("tok".to_string());
    st.global_settings.authed_user_id = Some("7".to_string());
    let e = "SCOPE_ERROR: user:read:follows scope required — please reconnect".to_string();
    let (_, effs) = run_follows(&mut st, "f1", vec![Reply::Count(Err(e))]);
    assert_eq!(
        effs,
        strings(&[
            "log [TwitchMonitor] Follows poll error: SCOPE_ERROR: user:read:follows scope required — please reconnect",
            "toPI followslive f1 auth ScopeError Some(\"Please reconnect your Twitch account to grant the follows permission.\")",
            "setTitle f1 \"Re-Auth\"",
        ])
    );
}

#[test]
fn follows_poll_retries_after_a_refused_token() {
    let mut st = PluginState::new("uuid-1".to_string(), vec![]);
    st.insert("f1".to_string(), ContextState::new_follows(ButtonSettings::default(), None));
    st.global_settings.access_token = Some("tok".to_string());
    st.global_settings.authed_user_id = Some("7".to_string());
    let e = "Followed streams lookup failed: 401 Unauthorized".to_string();
    let (reqs, effs) = run_follows(
        &mut st,
        "f1",
        vec![
            Reply::Count(Err(e)),
            Reply::Refreshed(Ok("tok2".to_string())),
            Reply::Count(Ok(2)),
            Reply::Image("F2".to_string()),
        ],
    );
    assert_eq!(reqs, strings(&["followed tok 7", "refresh", "followed tok 7", "renderFollows 2"]));
    assert_eq!(
        effs,
        strings(&[
            "log [TwitchMonitor] Follows poll error: Followed streams lookup failed: 401 Unauthorized",
            "setImage f1 F2",
            "setTitle f1 \"\"",
        ])
    );
}

#[test]
fn follows_poll_signs_out_when_the_refresh_fails() {
    let mut st = PluginState::new("uuid-1".to_string(), vec![]);
    st.insert("f1".to_string(), ContextState::new_follows(ButtonSettings::default(), None));
    st.global_settings.access_token = Some("tok".to_string());
    st.global_settings.authed_user_id = Some("7".to_string());
    let e = "Followed streams lookup failed: 401 Unauthorized".to_string();
    let (_, effs) = run_follows(
        &mut st,
        "f1",
        vec![Reply::Count(Err(e)), Reply::Refreshed(Err("No refresh token".to_string()))],
    );
    assert_eq!(
        effs,
        strings(&[
            "log [TwitchMonitor] Follows poll error: Followed streams lookup failed: 401 Unauthorized",
            "setGlobalSettings uuid-1 token=None user=None",
            "toPI monitor f1 auth Expired Some(\"Session expired — please reconnect your Twitch account.\")",
            "setTitle f1 \"Error\"",
        ])
    );
    assert!(st.global_settings.access_token.is_none());
}

#[test]
fn follows_poll_shows_other_errors() {
    let mut st = PluginState::new("uuid-1".to_string(), vec![]);
    st.insert("f1".to_string(), ContextState::new_follows(ButtonSettings::default(), None));
    st.global_settings.access_token = Some("tok".to_string());
    st.global_settings.authed_user_id = Some("7".to_string());
    let (_, effs) = run_follows(&mut st, "f1", vec![Reply::Count(Err("timeout".to_string()))]);
    assert_eq!(effs, strings(&["log [TwitchMonitor] Follows poll error: timeout", "setTitle f1 \"Error\""]));
}

#[test]
fn recovery_polls_again_after_a_refresh() {
    let mut st = state_with_monitor("ninja");
    let mut p = ExpiredPoll::new("k1".to_string());
    let (e, r) = expired_step(&mut st, &mut p, None);
    assert!(e.is_empty());
    assert_eq!(request_name(&r.unwrap()), "refresh");
    let (e, r) = expired_step(&mut st, &mut p, Some(Reply::Refreshed(Ok("t".to_string()))));
    assert!(r.is_none());
    assert_eq!(e.iter().map(describe).collect::<Vec<_>>(), strings(&["pollMonitor k1"]));
}

#[test]
fn recovery_signs_out_when_the_refresh_fails() {
    let mut st = state_with_monitor("ninja");
    st.global_settings.access_token = Some("tok".to_string());
    let mut p = ExpiredPoll::new("k1".to_string());
    expired_step(&mut st, &mut p, None);
    let (e, r) = expired_step(&mut st, &mut p, Some(Reply::Refreshed(Err("bad".to_string()))));
    assert_eq!(
        e.iter().map(describe).collect::<Vec<_>>(),
        strings(&[
            "log [TwitchMonitor] Token refresh failed: bad",
            "setGlobalSettings uuid-1 token=None user=None",
            "toPI monitor k1 auth Expired Some(\"Session expired — please reconnect your Twitch account.\")",
        ])
    );
    assert_eq!(request_name(&r.unwrap()), "placeholder false");
    let (e, r) = expired_step(&mut st, &mut p, Some(Reply::Rendered(Ok("PH".to_string()))));
    assert!(r.is_none());
    assert_eq!(
        e.iter().map(describe).collect::<Vec<_>>(),
        strings(&["setImage k1 PH", "setTitle k1 \"Auth\\nRequired\""])
    );
    assert!(st.global_settings.access_token.is_none());
}

#[test]
fn poll_kind_names_the_key_kind() {
    let mut st = state_with_monitor("x");
    st.insert("f1".to_string(), ContextState::new_follows(ButtonSettings::default(), None));
    assert_eq!(poll_kind(&st, "k1"), Some(ContextType::Monitor));
    assert_eq!(poll_kind(&st, "f1"), Some(ContextType::Follows));
    assert_eq!(poll_kind(&st, "zz"), None);
}
