use twitchmonitor::clock::now_ms;
use twitchmonitor::kick::{channel_status, channel_url, check_channel_response, user_agent};
use twitchmonitor::messages::{Effect, Outgoing, PiPayload};
use twitchmonitor::oauth::{
    callback_outcome, callback_outcome_bytes, exchange_failed, parse_callback, redirect_uri,
};
use twitchmonitor::plugin::PluginState;
use twitchmonitor::settings::{ButtonSettings, ContextState, GlobalSettings};
use twitchmonitor::startup::{get_arg, startup_messages, ws_url};
use twitchmonitor::twitch::{
    bearer, check_status, exchange_finish, exchange_form, first_user, followed_error,
    is_success, refresh_finish, refresh_form, status_error, status_text, stream_status,
    streams_url, token_url, users_url, FollowedPager, TokenResponse, TwitchUser,
};

fn user(id: &str, name: &str, avatar: &str) -> TwitchUser {
    TwitchUser { id: id.to_string(), display_name: name.to_string(), profile_image_url: avatar.to_string() }
}

fn log_text(e: &Effect) -> Option<String> {
    match e {
        Effect::Send(Outgoing::LogMessage { message }) => Some(message.clone()),
        _ => None,
    }
}

#[test]
fn helix_urls_and_headers() {
    assert_eq!(users_url(Some("ninja")), "https://api.twitch.tv/helix/users?login=ninja");
    assert_eq!(users_url(None), "https://api.twitch.tv/helix/users");
    assert_eq!(streams_url("42"), "https://api.twitch.tv/helix/streams?user_id=42");
    assert_eq!(bearer("abc"), "Bearer abc");
    assert_eq!(token_url(), "https://id.twitch.tv/oauth2/token");
}

#[test]
fn status_lines_read_like_the_http_crate() {
    assert_eq!(status_text(401), "401 Unauthorized");
    assert_eq!(status_text(404), "404 Not Found");
    assert_eq!(status_text(599), "599 <unknown status code>");
    assert_eq!(status_error("Stream lookup failed", 500), "Stream lookup failed: 500 Internal Server Error");
    assert!(is_success(200) && is_success(299) && !is_success(300) && !is_success(199));
    assert!(check_status("User lookup failed", 204).is_ok());
    assert_eq!(check_status("User lookup failed", 401).unwrap_err(), "User lookup failed: 401 Unauthorized");
}

#[test]
fn first_user_or_not_found() {
    let u = first_user(vec![user("1", "A", "a"), user("2", "B", "b")], Some("a")).unwrap();
    assert_eq!(u.id, "1");
    assert_eq!(first_user(vec![], Some("ghost")).err().as_deref(), Some("User not found: ghost"));
    assert_eq!(first_user(vec![], None).err().as_deref(), Some("User not found: (authed user)"));
}

#[test]
fn stream_status_from_the_listed_streams() {
    assert_eq!(stream_status(&vec![]), (false, None));
    assert_eq!(stream_status(&vec![1234, 5]), (true, Some(1234)));
}

#[test]
fn followed_pages_until_the_last_or_five_hundred() {
    let mut p = FollowedPager::new();
    assert!(p.more());
    assert_eq!(p.url("7"), "https://api.twitch.tv/helix/streams/followed?user_id=7&first=100");
    p.add_page(100, Some("c1".to_string()));
    assert!(p.more());
    assert_eq!(p.url("7"), "https://api.twitch.tv/helix/streams/followed?user_id=7&first=100&after=c1");
    for _ in 0..4 {
        assert!(p.can_add(100));
        p.add_page(100, Some("cN".to_string()));
    }
    assert_eq!(p.total, 500);
    assert!(!p.more());
    let mut q = FollowedPager::new();
    q.add_page(3, None);
    assert!(!q.more());
    assert_eq!(q.total, 3);
    let mut full = FollowedPager::new();
    full.add_page((u32::MAX - 1) as usize, Some("x".to_string()));
    assert!(!full.can_add(2));
}

#[test]
fn followed_errors() {
    assert_eq!(
        followed_error(401, "Missing SCOPE user:read:follows"),
        "SCOPE_ERROR: user:read:follows scope required — please reconnect"
    );
    assert_eq!(followed_error(401, "invalid token"), "Followed streams lookup failed: 401 Unauthorized");
    assert_eq!(followed_error(403, "scope"), "Followed streams lookup failed: 403 Forbidden");
}

#[test]
fn token_forms() {
    let mut g = GlobalSettings::empty();
    assert_eq!(refresh_form(&g).unwrap_err(), "No refresh token — user must re-authenticate");
    g.refresh_token = Some("r1".to_string());
    let f = refresh_form(&g).unwrap();
    let keys: Vec<&str> = f.iter().map(|p| p.0.as_str()).collect();
    assert_eq!(keys, vec!["grant_type", "refresh_token", "client_id", "client_secret"]);
    assert_eq!(f[0].1, "refresh_token");
    assert_eq!(f[1].1, "r1");
    assert_eq!(f[2].1, "wq0kudroby7abstyx6ihak1suxog1r");
    let e = exchange_form("CODE", &redirect_uri());
    let keys: Vec<&str> = e.iter().map(|p| p.0.as_str()).collect();
    assert_eq!(keys, vec!["client_id", "client_secret", "code", "grant_type", "redirect_uri"]);
    assert_eq!(e[2].1, "CODE");
    assert_eq!(e[3].1, "authorization_code");
    assert_eq!(e[4].1, "http://localhost:7878");
}

#[test]
fn refresh_stores_the_new_token_and_keeps_the_account() {
    let mut st = PluginState::new("uuid-1".to_string(), vec![]);
    st.global_settings.access_token = Some("old".to_string());
    st.global_settings.refresh_token = Some("r1".to_string());
    st.global_settings.authed_user_id = Some("7".to_string());
    let tok = TokenResponse { access_token: "new".to_string(), refresh_token: None, expires_in: 3600 };
    let (access, effs) = refresh_finish(&mut st, tok, "r1", 1_000);
    assert_eq!(access, "new");
    assert_eq!(st.global_settings.access_token.as_deref(), Some("new"));
    assert_eq!(st.global_settings.refresh_token.as_deref(), Some("r1"));
    assert_eq!(st.global_settings.token_expiry, Some(3_601_000));
    assert_eq!(st.global_settings.authed_user_id.as_deref(), Some("7"));
    assert_eq!(effs.len(), 2);
    assert!(matches!(&effs[0], Effect::Send(Outgoing::SetGlobalSettings { context, settings })
        if context == "uuid-1" && settings.access_token.as_deref() == Some("new")));
    assert_eq!(log_text(&effs[1]).unwrap(), "[TwitchMonitor] Token refreshed (global)");
    let tok2 = TokenResponse { access_token: "n2".to_string(), refresh_token: Some("r2".to_string()), expires_in: 1 };
    refresh_finish(&mut st, tok2, "r1", 0);
    assert_eq!(st.global_settings.refresh_token.as_deref(), Some("r2"));
}

#[test]
fn authorisation_stores_the_account_and_polls_every_key() {
    let mut st = PluginState::new("uuid-1".to_string(), vec![]);
    st.insert("k1".to_string(), ContextState::new_monitor(ButtonSettings::default()));
    let tok = TokenResponse { access_token: "a".to_string(), refresh_token: Some("r".to_string()), expires_in: 10 };
    let effs = exchange_finish(&mut st, tok, &user("7", "Me", "http://me"), 5);
    let g = &st.global_settings;
    assert_eq!(g.access_token.as_deref(), Some("a"));
    assert_eq!(g.refresh_token.as_deref(), Some("r"));
    assert_eq!(g.token_expiry, Some(10_005));
    assert_eq!(g.authed_user_id.as_deref(), Some("7"));
    assert_eq!(g.authed_display_name.as_deref(), Some("Me"));
    assert_eq!(g.authed_avatar_url.as_deref(), Some("http://me"));
    assert_eq!(effs.len(), 4);
    assert!(matches!(&effs[1], Effect::PollContext(c) if c == "k1"));
    assert!(matches!(&effs[2], Effect::Send(Outgoing::SendToPropertyInspector { context, payload: PiPayload::AuthSuccess { authed_display_name, .. }, .. })
        if context == "k1" && authed_display_name == "Me"));
    assert_eq!(log_text(&effs[3]).unwrap(), "[TwitchMonitor] OAuth success — authenticated as Me");
}

#[test]
fn kick_channel_lookup() {
    assert_eq!(channel_url("  XQc "), "https://kick.com/api/v2/channels/xqc");
    assert!(user_agent().starts_with("Mozilla/5.0 (Windows NT 10.0; Win64; x64)"));
    assert!(check_channel_response(200, "x").is_ok());
    assert_eq!(check_channel_response(404, " Who ").unwrap_err(), "Channel not found:  Who ");
    assert_eq!(check_channel_response(503, "x").unwrap_err(), "Kick lookup failed: 503 Service Unavailable");
    let live = channel_status("xqc".to_string(), Some("http://pic".to_string()), Some(Some(9000)));
    assert!(live.is_live);
    assert_eq!(live.viewer_count, Some(9000));
    assert_eq!(live.avatar_url.as_deref(), Some("http://pic"));
    let live_no_count = channel_status("a".to_string(), None, Some(None));
    assert!(live_no_count.is_live && live_no_count.viewer_count.is_none());
    let off = channel_status("b".to_string(), None, None);
    assert!(!off.is_live && off.viewer_count.is_none());
    assert_eq!(off.display_name, "b");
}

#[test]
fn callback_request_is_parsed() {
    let c = parse_callback("GET /?code=abc&state=n0nce.ctx%20one&scope=x HTTP/1.1\r\nHost: localhost\r\n\r\n");
    assert!(c.path_ok);
    assert_eq!(c.code.as_deref(), Some("abc"));
    assert_eq!(c.context.as_deref(), Some("ctx one"));
    assert!(c.error.is_none());
    // The last of repeated parameters counts; a state without `.` names no key.
    let d = parse_callback("GET /?code=1&code=2&state=nodot HTTP/1.1");
    assert_eq!(d.code.as_deref(), Some("2"));
    assert!(d.context.is_none());
    let e = parse_callback("GET /favicon.ico HTTP/1.1");
    assert!(!e.path_ok);
    let f = parse_callback("POST /?code=1 HTTP/1.1");
    assert!(f.path_ok);
    assert!(f.code.is_none());
}

#[test]
fn callback_success_page_and_exchange() {
    let o = callback_outcome("GET /?code=abc&state=n.k%2F1 HTTP/1.1\r\n\r\n");
    assert!(o.response.starts_with("HTTP/1.1 200 OK\r\nContent-Type: text/html; charset=utf-8\r\nContent-Length: "));
    assert!(o.response.contains("Connected to Twitch!"));
    assert!(o.effects.is_empty());
    assert_eq!(o.exchange, Some(("abc".to_string(), "k/1".to_string())));
    let body_start = o.response.find("\r\n\r\n").unwrap() + 4;
    let len: usize = o.response["HTTP/1.1 200 OK\r\nContent-Type: text/html; charset=utf-8\r\nContent-Length: ".len()..]
        .split("\r\n")
        .next()
        .unwrap()
        .parse()
        .unwrap();
    assert_eq!(len, o.response.len() - body_start);
}

#[test]
fn callback_failure_page_and_report() {
    let o = callback_outcome("GET /?error=access_denied&state=n.k1 HTTP/1.1\r\n\r\n");
    assert!(o.response.contains("Authorization failed"));
    assert!(o.exchange.is_none());
    assert_eq!(o.effects.len(), 2);
    assert_eq!(
        log_text(&o.effects[0]).unwrap(),
        "[TwitchMonitor] OAuth callback missing data — code=false context=true error=Some(\"access_denied\")"
    );
    assert!(matches!(&o.effects[1], Effect::Send(Outgoing::SendToPropertyInspector { context, payload: PiPayload::AuthStatus { error, .. }, .. })
        if context == "k1" && error.as_deref() == Some("access_denied")));
    let q = callback_outcome("GET /?code=abc HTTP/1.1\r\n\r\n");
    assert_eq!(q.effects.len(), 1);
    assert!(log_text(&q.effects[0]).is_some());
    let r = callback_outcome("GET /other HTTP/1.1\r\n\r\n");
    assert_eq!(r.response, "HTTP/1.1 404 Not Found\r\nContent-Length: 0\r\n\r\n");
    assert!(r.effects.is_empty() && r.exchange.is_none());
}

#[test]
fn callback_from_raw_bytes_tolerates_bad_utf8() {
    let mut raw = b"GET /?code=z&state=n.k1 HTTP/1.1\r\n".to_vec();
    raw.extend_from_slice(&[0xff, 0xfe, b'\r', b'\n']);
    let o = callback_outcome_bytes(&raw);
    assert_eq!(o.exchange, Some(("z".to_string(), "k1".to_string())));
    let bad_state = callback_outcome_bytes(b"GET /?code=z&state=n.k\xff1 HTTP/1.1\r\n");
    assert_eq!(bad_state.exchange, Some(("z".to_string(), "k\u{ef}\u{bf}\u{bd}1".to_string())));
}

#[test]
fn failed_exchange_is_reported() {
    let effs = exchange_failed("k1", "Token exchange failed: 400 Bad Request");
    assert_eq!(log_text(&effs[0]).unwrap(), "[TwitchMonitor] OAuth callback error: Token exchange failed: 400 Bad Request");
    assert!(matches!(&effs[1], Effect::Send(Outgoing::SendToPropertyInspector { context, .. }) if context == "k1"));
}

#[test]
fn command_line_and_start_up() {
    let args: Vec<String> = ["plugin", "-port", "28196", "-pluginUUID", "U", "-registerEvent", "registerPlugin", "-info"]
        .iter()
        .map(|s| s.to_string())
        .collect();
    assert_eq!(get_arg(&args, "-port").as_deref(), Some("28196"));
    assert_eq!(get_arg(&args, "-pluginUUID").as_deref(), Some("U"));
    assert_eq!(get_arg(&args, "-info"), None);
    assert_eq!(get_arg(&args, "-missing"), None);
    assert_eq!(ws_url("28196"), "ws://127.0.0.1:28196");
    let m = startup_messages("registerPlugin", "U");
    assert_eq!(m.len(), 3);
    assert!(matches!(&m[0], Effect::Send(Outgoing::Register { event, uuid }) if event == "registerPlugin" && uuid == "U"));
    assert!(matches!(&m[1], Effect::Send(Outgoing::GetGlobalSettings { context }) if context == "U"));
    assert_eq!(log_text(&m[2]).unwrap(), "[TwitchMonitor] Plugin connected — UUID=U");
}

#[test]
fn the_clock_reads_the_present() {
    // Any time after September 2020 and before the year 2200.
    let t = now_ms();
    assert!(t > 1_600_000_000_000);
    assert!(t < 7_258_118_400_000);
}
