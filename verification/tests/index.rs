use twitchmonitor::creds::decode_cred;
use twitchmonitor::images::{black_key, decode_key_image, key_layers, KeyLayer};
use twitchmonitor::index::{index_step, pick_slot, IndexPoll};
use twitchmonitor::messages::{Effect, Outgoing};
use twitchmonitor::plugin::PluginState;
use twitchmonitor::poll::{Reply, Request};
use twitchmonitor::raster::{blank, fill_rounded_rect, Rgba8};
use twitchmonitor::settings::{ButtonSettings, ContextState};
use twitchmonitor::twitch::{first_results, FollowedPager, LiveStream, TwitchUser};

fn stream(id: &str, viewers: u32) -> LiveStream {
    LiveStream {
        user_id: id.to_string(),
        user_login: format!("login{}", id),
        user_name: format!("Name{}", id),
        viewer_count: viewers,
    }
}

fn describe(e: &Effect) -> String {
    match e {
        Effect::Send(Outgoing::SetImage { context, image }) => format!("setImage {} {}", context, image),
        Effect::Send(Outgoing::SetTitle { context, title }) => format!("setTitle {} {:?}", context, title),
        Effect::Send(Outgoing::LogMessage { message }) => format!("log {}", message),
        Effect::Send(Outgoing::SetGlobalSettings { context, .. }) => format!("setGlobalSettings {}", context),
        Effect::PlaySound { data, volume } => format!("sound {} {}", data, volume),
        _ => "other".to_string(),
    }
}

fn request_name(r: &Request) -> String {
    match r {
        Request::Clock => "clock".to_string(),
        Request::RefreshToken => "refresh".to_string(),
        Request::UserInfo { token, login } => format!("user {} {:?}", token, login),
        Request::LiveStreams { token, user_id } => format!("live {} {}", token, user_id),
        Request::Placeholder { is_live } => format!("placeholder {}", is_live),
        Request::RenderKey { avatar_url, is_live, viewer_count } => {
            format!("render {:?} {} {:?}", avatar_url, is_live, viewer_count)
        },
        Request::BlankKey => "blank".to_string(),
        _ => "other".to_string(),
    }
}

fn run_index(st: &mut PluginState, ctx: &str, answers: Vec<Reply>) -> (Vec<String>, Vec<String>) {
    let mut p = IndexPoll::new(ctx.to_string());
    let mut answers = answers.into_iter();
    let mut reply: Option<Reply> = None;
    let mut reqs = Vec::new();
    let mut effs = Vec::new();
    loop {
        let (e, r) = index_step(st, &mut p, reply.take());
        effs.extend(e.iter().map(describe));
        match r {
            Some(req) => {
                reqs.push(request_name(&req));
                reply = answers.next();
                if reply.is_none() {
                    break;
                }
            },
            None => break,
        }
    }
    (reqs, effs)
}

fn index_state(slot: u32) -> PluginState {
    let mut st = PluginState::new("uuid-1".to_string(), vec![]);
    let mut s = ButtonSettings::default();
    s.live_index = slot;
    st.insert("i1".to_string(), ContextState::new_live_index(s));
    st.global_settings.access_token = Some("tok".to_string());
    st.global_settings.authed_user_id = Some("7".to_string());
    st
}

fn strings(v: &[&str]) -> Vec<String> {
    v.iter().map(|s| s.to_string()).collect()
}

#[test]
fn slots_follow_viewer_order() {
    let list = vec![stream("a", 50), stream("b", 900), stream("c", 50), stream("d", 300)];
    assert_eq!(pick_slot(&list, 1), Some(1));
    assert_eq!(pick_slot(&list, 2), Some(3));
    assert_eq!(pick_slot(&list, 3), Some(0));
    assert_eq!(pick_slot(&list, 4), Some(2));
    assert_eq!(pick_slot(&list, 5), None);
    assert_eq!(pick_slot(&list, 0), None);
    assert_eq!(pick_slot(&vec![], 1), None);
}

#[test]
fn live_index_poll_shows_the_channel_in_its_slot() {
    let mut st = index_state(2);
    let (reqs, effs) = run_index(
        &mut st,
        "i1",
        vec![
            Reply::Live(Ok(vec![stream("a", 10), stream("b", 99), stream("c", 40)])),
            Reply::User(Ok(TwitchUser {
                id: "c".to_string(),
                display_name: "Namec".to_string(),
                profile_image_url: "http://c".to_string(),
            })),
            Reply::Image("IMG".to_string()),
        ],
    );
    assert_eq!(
        reqs,
        strings(&["live tok 7", "user tok Some(\"loginc\")", "render Some(\"http://c\") true Some(40)"])
    );
    assert_eq!(effs, strings(&["setImage i1 IMG", "setTitle i1 \"\""]));
    let c = &st.contexts[0].1;
    assert_eq!(c.channel_login.as_deref(), Some("loginc"));
    assert_eq!(c.user_id.as_deref(), Some("c"));
    assert_eq!(c.viewer_count, Some(40));
    assert!(c.has_image);
}

#[test]
fn live_index_poll_shows_black_for_an_empty_slot() {
    let mut st = index_state(4);
    st.contexts[0].1.channel_login = Some("old".to_string());
    let (reqs, effs) = run_index(
        &mut st,
        "i1",
        vec![Reply::Live(Ok(vec![stream("a", 10)])), Reply::Rendered(Ok("BLACK".to_string()))],
    );
    assert_eq!(reqs, strings(&["live tok 7", "blank"]));
    assert_eq!(effs, strings(&["setImage i1 BLACK", "setTitle i1 \"\""]));
    assert!(st.contexts[0].1.channel_login.is_none());
}

#[test]
fn live_index_poll_alerts_when_a_new_channel_takes_the_slot() {
    let mut st = index_state(1);
    {
        let c = &mut st.contexts[0].1;
        c.user_id = Some("a".to_string());
        c.has_image = true;
        c.settings.alert_enabled = true;
        c.settings.alert_sound_data = Some("SND".to_string());
    }
    let user = TwitchUser { id: "b".to_string(), display_name: "B".to_string(), profile_image_url: "u".to_string() };
    let (_, effs) = run_index(
        &mut st,
        "i1",
        vec![Reply::Live(Ok(vec![stream("b", 5)])), Reply::User(Ok(user)), Reply::Image("I".to_string())],
    );
    assert_eq!(effs[0], "sound SND 80");
    // The same channel again: no alert.
    let user = TwitchUser { id: "b".to_string(), display_name: "B".to_string(), profile_image_url: "u".to_string() };
    let (_, effs) = run_index(
        &mut st,
        "i1",
        vec![Reply::Live(Ok(vec![stream("b", 6)])), Reply::User(Ok(user)), Reply::Image("I".to_string())],
    );
    assert!(effs.iter().all(|e| !e.starts_with("sound")));
}

#[test]
fn live_index_poll_without_token_asks_for_authorisation() {
    let mut st = index_state(1);
    st.global_settings.access_token = None;
    let (reqs, effs) = run_index(&mut st, "i1", vec![Reply::Rendered(Ok("PH".to_string()))]);
    assert_eq!(reqs, strings(&["placeholder false"]));
    assert_eq!(effs, strings(&["setImage i1 PH", "setTitle i1 \"Auth\\nRequired\""]));
}

#[test]
fn live_index_poll_reports_errors() {
    let mut st = index_state(1);
    let (_, effs) = run_index(&mut st, "i1", vec![Reply::Live(Err("timeout".to_string()))]);
    assert_eq!(effs, strings(&["log [TwitchMonitor] Live index poll error: timeout", "setTitle i1 \"Error\""]));
}

#[test]
fn black_key_is_solid_black() {
    let img = decode_key_image(&black_key().unwrap()).unwrap();
    assert_eq!((img.width, img.height), (144, 144));
    assert!(img.pixels.iter().all(|p| *p == Rgba8 { r: 0, g: 0, b: 0, a: 255 }));
}

#[test]
fn key_layers_for_live_and_offline() {
    assert_eq!(key_layers(true, Some(12)), vec![KeyLayer::LiveBadge, KeyLayer::ViewerCount(12)]);
    assert_eq!(key_layers(true, None), vec![KeyLayer::LiveBadge]);
    assert!(key_layers(false, Some(12)).is_empty());
}

#[test]
fn decode_cred_undoes_the_obfuscation() {
    let key = b"sdplug1n";
    for secret in ["hello world", "a", "wq0kudroby7abstyx6ihak1suxog1r"] {
        let csv: Vec<String> =
            secret.bytes().enumerate().map(|(i, b)| format!("{:02x}", b ^ key[i % 8])).collect();
        assert_eq!(decode_cred(&csv.join(",")), secret);
    }
}

#[test]
fn rounded_rect_reaching_past_i32_paints_nothing() {
    let mut img = blank(8, 8);
    fill_rounded_rect(&mut img, 2_147_483_600, 0, 100, 4, 0, Rgba8 { r: 1, g: 1, b: 1, a: 1 });
    assert!(img.pixels.iter().all(|p| *p == Rgba8 { r: 0, g: 0, b: 0, a: 0 }));
    fill_rounded_rect(&mut img, 0, 2_147_483_640, 4, 10, 0, Rgba8 { r: 1, g: 1, b: 1, a: 1 });
    assert!(img.pixels.iter().all(|p| *p == Rgba8 { r: 0, g: 0, b: 0, a: 0 }));
}

#[test]
fn followed_count_stops_at_five_hundred() {
    let mut p = FollowedPager::new();
    for (len, cursor) in [(100usize, true), (100, true), (100, true), (100, true), (99, true), (100, false)] {
        assert!(p.more());
        p.add_page(len, if cursor { Some("c".to_string()) } else { None });
    }
    assert!(!p.more());
    assert_eq!(p.total, 599);
    assert_eq!(p.count(), 500);
    let mut q = FollowedPager::new();
    q.add_page(42, None);
    assert_eq!(q.count(), 42);
}

#[test]
fn live_listing_keeps_the_first_five_hundred() {
    let many: Vec<LiveStream> = (0..599u32).map(|i| stream(&i.to_string(), i)).collect();
    let kept = first_results(many);
    assert_eq!(kept.len(), 500);
    assert_eq!(kept[499].user_id, "499");
    assert_eq!(first_results(vec![stream("a", 1)]).len(), 1);
}

#[test]
fn rounded_rect_is_mirror_symmetric() {
    let (x, y, w, h, r) = (10u32, 20u32, 46u32, 24u32, 5u32);
    let mut img = blank(80, 60);
    fill_rounded_rect(&mut img, x, y, w, h, r, Rgba8 { r: 9, g: 9, b: 9, a: 9 });
    let at = |px: u32, py: u32| img.pixels[(py * 80 + px) as usize];
    for py in y..y + h {
        for px in x..x + w {
            assert_eq!(at(px, py), at(2 * x + w - 1 - px, py));
            assert_eq!(at(px, py), at(px, 2 * y + h - 1 - py));
        }
    }
}
