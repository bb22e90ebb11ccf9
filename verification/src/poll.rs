//! The background polls of a key, as step machines.
//!
//! A poll alternates between decisions and outside work (reading the clock,
//! calling the Twitch API, rendering an image).  Each `*_step` function
//! takes the poll's progress and the answer to its last request, updates
//! the shared state, lists the effects to carry out and names the next
//! request; the surrounding program performs the request and calls the step
//! again with the answer, until no request is named.
use vstd::prelude::*;
use crate::messages::{
    emit, emit_send, effects_view, follows_action, follows_action_str, log, log_view,
    plugin_action, plugin_action_str, set_image, set_title, AuthStatusKind, Effect, EffectView,
    Outgoing, OutgoingView, PiPayload, PiPayloadView,
};
use crate::plugin::{
    broadcast_view, ctx_keys, has_ctx, lemma_lookup_set, lookup, set_ctx, PluginState, PluginView,
};
use crate::settings::{
    copy_opt, empty_global, merge_spec, opt_str, ContextState, ContextStateView, ContextType,
    GlobalSettings, GlobalSettingsView,
};
use crate::strs::{
    concat2, contains, contains_spec, res_str, decimal, owned, push_decimal, push_str, to_lowercase, trim,
    trim_spec, unicode_lowercase,
};
use crate::twitch::{streams_view, LiveStream, LiveStreamView, TwitchUser, TwitchUserView};

verus! {

// ── Requests and replies ───────────────────────────────────────────────────

/// Outside work that a poll asks for.
pub enum Request {
    /// The current time in milliseconds since the Unix epoch.
    Clock,
    /// Refresh the access token (the whole refresh exchange).
    RefreshToken,
    /// Look a user up by login name, or the authenticated user.
    UserInfo { token: String, login: Option<String> },
    /// A user's live status.
    StreamStatus { token: String, user_id: String },
    /// How many followed channels are live.
    FollowedLiveCount { token: String, user_id: String },
    /// The placeholder image.
    Placeholder { is_live: bool },
    /// A monitor key's image: the avatar (or placeholder), with the LIVE badge
    /// and the viewer count when live.
    RenderKey { avatar_url: Option<String>, is_live: bool, viewer_count: Option<u32> },
    /// The follows counter's image.
    RenderFollows { count: u32 },
    /// The live streams of the channels a user follows.
    LiveStreams { token: String, user_id: String },
    /// The solid black image of an empty slot.
    BlankKey,
}

/// The view of `Request`.
pub enum RequestView {
    Clock,
    RefreshToken,
    UserInfo { token: Seq<char>, login: Option<Seq<char>> },
    StreamStatus { token: Seq<char>, user_id: Seq<char> },
    FollowedLiveCount { token: Seq<char>, user_id: Seq<char> },
    Placeholder { is_live: bool },
    RenderKey { avatar_url: Option<Seq<char>>, is_live: bool, viewer_count: Option<u32> },
    RenderFollows { count: u32 },
    LiveStreams { token: Seq<char>, user_id: Seq<char> },
    BlankKey,
}

impl View for Request {
    type V = RequestView;

    open spec fn view(&self) -> RequestView {
        match self {
            Request::Clock => RequestView::Clock,
            Request::RefreshToken => RequestView::RefreshToken,
            Request::UserInfo { token, login } => RequestView::UserInfo {
                token: token@,
                login: opt_str(*login),
            },
            Request::StreamStatus { token, user_id } => RequestView::StreamStatus {
                token: token@,
                user_id: user_id@,
            },
            Request::FollowedLiveCount { token, user_id } => RequestView::FollowedLiveCount {
                token: token@,
                user_id: user_id@,
            },
            Request::Placeholder { is_live } => RequestView::Placeholder { is_live: *is_live },
            Request::RenderKey { avatar_url, is_live, viewer_count } => RequestView::RenderKey {
                avatar_url: opt_str(*avatar_url),
                is_live: *is_live,
                viewer_count: *viewer_count,
            },
            Request::RenderFollows { count } => RequestView::RenderFollows { count: *count },
            Request::LiveStreams { token, user_id } => RequestView::LiveStreams {
                token: token@,
                user_id: user_id@,
            },
            Request::BlankKey => RequestView::BlankKey,
        }
    }
}

/// The answer to a request.
pub enum Reply {
    /// To `Clock`.
    Now(u64),
    /// To `RefreshToken`: the new access token or the error.
    Refreshed(Result<String, String>),
    /// To `UserInfo`.
    User(Result<TwitchUser, String>),
    /// To `StreamStatus`: whether live, and the viewer count.
    Stream(Result<(bool, Option<u32>), String>),
    /// To `FollowedLiveCount`.
    Count(Result<u32, String>),
    /// To `Placeholder`.
    Rendered(Result<String, String>),
    /// To `RenderKey` and `RenderFollows` (empty where rendering failed).
    Image(String),
    /// To `LiveStreams`.
    Live(Result<Vec<LiveStream>, String>),
}

/// The view of `Reply`.
pub enum ReplyView {
    Now(u64),
    Refreshed(Result<Seq<char>, Seq<char>>),
    User(Result<TwitchUserView, Seq<char>>),
    Stream(Result<(bool, Option<u32>), Seq<char>>),
    Count(Result<u32, Seq<char>>),
    Rendered(Result<Seq<char>, Seq<char>>),
    Image(Seq<char>),
    Live(Result<Seq<LiveStreamView>, Seq<char>>),
}

impl View for Reply {
    type V = ReplyView;

    open spec fn view(&self) -> ReplyView {
        match self {
            Reply::Now(n) => ReplyView::Now(*n),
            Reply::Refreshed(r) => ReplyView::Refreshed(res_str(*r)),
            Reply::User(r) => ReplyView::User(
                match r {
                    Ok(u) => Ok(u@),
                    Err(e) => Err(e@),
                },
            ),
            Reply::Stream(r) => ReplyView::Stream(
                match r {
                    Ok(v) => Ok(*v),
                    Err(e) => Err(e@),
                },
            ),
            Reply::Count(r) => ReplyView::Count(
                match r {
                    Ok(v) => Ok(*v),
                    Err(e) => Err(e@),
                },
            ),
            Reply::Rendered(r) => ReplyView::Rendered(res_str(*r)),
            Reply::Image(s) => ReplyView::Image(s@),
            Reply::Live(r) => ReplyView::Live(
                match r {
                    Ok(v) => Ok(streams_view(v@)),
                    Err(e) => Err(e@),
                },
            ),
        }
    }
}

/// The view of an optional reply.
pub open spec fn opt_reply(r: Option<Reply>) -> Option<ReplyView> {
    match r {
        Some(x) => Some(x@),
        None => None,
    }
}

/// The view of an optional request.
pub open spec fn opt_request(r: Option<Request>) -> Option<RequestView> {
    match r {
        Some(x) => Some(x@),
        None => None,
    }
}

/// The outcome of one step of a poll.
pub struct Step<P> {
    pub state: PluginView,
    pub poll: P,
    pub effects: Seq<EffectView>,
    pub request: Option<RequestView>,
}

/// `a - b`, or 0 where `b` is larger.
pub open spec fn saturating_sub(a: u64, b: u64) -> u64 {
    if a >= b {
        (a - b) as u64
    } else {
        0
    }
}

/// Whether the token should be refreshed before use: from five minutes
/// before it expires.
pub open spec fn refresh_due(now_ms: u64, expiry: u64) -> bool {
    now_ms > saturating_sub(expiry, 300000)
}

/// Whether the token should be refreshed before use.
pub fn needs_refresh(now_ms: u64, expiry: u64) -> (r: bool)
    ensures
        r == refresh_due(now_ms, expiry),
{
    now_ms > expiry.saturating_sub(300000)
}

/// A `setImage` effect where a render succeeded, then the title.
pub open spec fn placeholder_effects(
    context: Seq<char>,
    res: Result<Seq<char>, Seq<char>>,
    title: Seq<char>,
) -> Seq<EffectView> {
    match res {
        Ok(img) => seq![
            EffectView::Send(OutgoingView::SetImage { context, image: img }),
            EffectView::Send(OutgoingView::SetTitle { context, title }),
        ],
        Err(_) => seq![EffectView::Send(OutgoingView::SetTitle { context, title })],
    }
}

pub(crate) fn placeholder_effects_exec(context: &str, res: &Result<String, String>, title: &str) -> (out: Vec<
    Effect,
>)
    ensures
        effects_view(out@) == placeholder_effects(context@, res_str(*res), title@),
{
    let mut out: Vec<Effect> = Vec::new();
    match res {
        Ok(img) => {
            emit_send(&mut out, set_image(context, img.as_str()));
        },
        Err(_) => {},
    }
    emit_send(&mut out, set_title(context, title));
    assert(effects_view(out@) =~= placeholder_effects(context@, res_str(*res), title@));
    out
}

// ── The channel-monitor poll ───────────────────────────────────────────────

/// Where a channel-monitor poll stands.
#[derive(Clone, Copy, Debug, PartialEq, Eq, Structural)]
pub enum MonitorPhase {
    Start,
    AwaitPlaceholder,
    AwaitClock,
    AwaitRefresh,
    AwaitUser,
    AwaitStatus,
    AwaitImage,
    Done,
}

/// A channel-monitor poll of one key, with what it read at the start.
pub struct MonitorPoll {
    pub context: String,
    pub phase: MonitorPhase,
    /// The title shown after the placeholder.
    pub title: String,
    pub username: String,
    pub prev_live: Option<bool>,
    pub prev_viewer: Option<u32>,
    pub user_id: Option<String>,
    pub avatar_url: Option<String>,
    pub display_name: Option<String>,
    pub has_image: bool,
    /// The token expiry being checked.
    pub expiry: u64,
    pub token: String,
    pub is_live: bool,
    pub viewer_count: Option<u32>,
}

/// The view of `MonitorPoll`.
pub struct MonitorView {
    pub context: Seq<char>,
    pub phase: MonitorPhase,
    pub title: Seq<char>,
    pub username: Seq<char>,
    pub prev_live: Option<bool>,
    pub prev_viewer: Option<u32>,
    pub user_id: Option<Seq<char>>,
    pub avatar_url: Option<Seq<char>>,
    pub display_name: Option<Seq<char>>,
    pub has_image: bool,
    pub expiry: u64,
    pub token: Seq<char>,
    pub is_live: bool,
    pub viewer_count: Option<u32>,
}

impl View for MonitorPoll {
    type V = MonitorView;

    open spec fn view(&self) -> MonitorView {
        MonitorView {
            context: self.context@,
            phase: self.phase,
            title: self.title@,
            username: self.username@,
            prev_live: self.prev_live,
            prev_viewer: self.prev_viewer,
            user_id: opt_str(self.user_id),
            avatar_url: opt_str(self.avatar_url),
            display_name: opt_str(self.display_name),
            has_image: self.has_image,
            expiry: self.expiry,
            token: self.token@,
            is_live: self.is_live,
            viewer_count: self.viewer_count,
        }
    }
}

impl MonitorPoll {
    /// A poll of key `context` that has not started.
    pub fn new(context: String) -> (r: MonitorPoll)
        ensures
            r@.context == context@,
            r@.phase == MonitorPhase::Start,
    {
        MonitorPoll {
            context,
            phase: MonitorPhase::Start,
            title: String::new(),
            username: String::new(),
            prev_live: None,
            prev_viewer: None,
            user_id: None,
            avatar_url: None,
            display_name: None,
            has_image: false,
            expiry: 0,
            token: String::new(),
            is_live: false,
            viewer_count: None,
        }
    }
}

/// The poll, finished.
pub open spec fn m_done(p: MonitorView) -> MonitorView {
    MonitorView { phase: MonitorPhase::Done, ..p }
}

/// Once the token is settled: look the channel up if it is not known yet,
/// otherwise ask for its live status; stop without a token.
pub open spec fn monitor_resolve(s: PluginView, p: MonitorView, effects: Seq<EffectView>) -> Step<
    MonitorView,
> {
    match s.global.access_token {
        None => Step { state: s, poll: m_done(p), effects, request: None },
        Some(t) => match p.user_id {
            None => Step {
                state: s,
                poll: MonitorView { phase: MonitorPhase::AwaitUser, token: t, ..p },
                effects,
                request: Some(
                    RequestView::UserInfo {
                        token: t,
                        login: Some(unicode_lowercase(trim_spec(p.username))),
                    },
                ),
            },
            Some(uid) => Step {
                state: s,
                poll: MonitorView { phase: MonitorPhase::AwaitStatus, token: t, ..p },
                effects,
                request: Some(RequestView::StreamStatus { token: t, user_id: uid }),
            },
        },
    }
}

/// The start of a monitor poll: a key that is gone stops; without a token or
/// a channel the placeholder is shown with a title; otherwise the key's
/// state is read and the token's expiry checked.
pub open spec fn monitor_start(s: PluginView, p: MonitorView) -> Step<MonitorView> {
    match lookup(s.contexts, p.context) {
        None => Step { state: s, poll: m_done(p), effects: Seq::empty(), request: None },
        Some(c) => if s.global.access_token is None {
            Step {
                state: s,
                poll: MonitorView {
                    phase: MonitorPhase::AwaitPlaceholder,
                    title: "Auth\nRequired"@,
                    ..p
                },
                effects: Seq::empty(),
                request: Some(RequestView::Placeholder { is_live: false }),
            }
        } else if c.settings.twitch_username.len() == 0 {
            Step {
                state: s,
                poll: MonitorView {
                    phase: MonitorPhase::AwaitPlaceholder,
                    title: "Setup\nRequired"@,
                    ..p
                },
                effects: Seq::empty(),
                request: Some(RequestView::Placeholder { is_live: false }),
            }
        } else {
            let q = MonitorView {
                username: c.settings.twitch_username,
                prev_live: c.is_live,
                prev_viewer: c.viewer_count,
                user_id: c.user_id,
                avatar_url: c.avatar_url,
                display_name: c.display_name,
                has_image: c.has_image,
                ..p
            };
            match s.global.token_expiry {
                Some(e) => Step {
                    state: s,
                    poll: MonitorView { phase: MonitorPhase::AwaitClock, expiry: e, ..q },
                    effects: Seq::empty(),
                    request: Some(RequestView::Clock),
                },
                None => monitor_resolve(s, q, Seq::empty()),
            }
        },
    }
}

/// The closing messages of a monitor poll: no title, and the status for the
/// property inspector.
pub open spec fn monitor_finish(p: MonitorView) -> Seq<EffectView> {
    seq![
        EffectView::Send(OutgoingView::SetTitle { context: p.context, title: Seq::empty() }),
        EffectView::Send(
            OutgoingView::SendToPropertyInspector {
                action: plugin_action(),
                context: p.context,
                payload: PiPayloadView::MonitorStatus {
                    display_name: match p.display_name {
                        Some(d) => d,
                        None => p.username,
                    },
                    avatar_url: p.avatar_url,
                    is_live: p.is_live,
                    viewer_count: p.viewer_count,
                },
            },
        ),
    ]
}

/// The alert for a channel that went from offline to live, where the key
/// has alerts on and a sound.
pub open spec fn monitor_alert(s: PluginView, p: MonitorView, live: bool) -> Seq<EffectView> {
    if live && p.prev_live == Some(false) {
        match lookup(s.contexts, p.context) {
            Some(c) => match c.settings.alert_sound_data {
                Some(d) => if c.settings.alert_enabled {
                    seq![EffectView::PlaySound { data: d, volume: c.settings.alert_volume }]
                } else {
                    Seq::empty()
                },
                None => Seq::empty(),
            },
            None => Seq::empty(),
        }
    } else {
        Seq::empty()
    }
}

/// Whether the key's image has to be drawn again: the live status changed
/// (or was unknown), there is no image yet, or a live channel's viewer
/// count changed.
pub open spec fn needs_redraw(
    live: bool,
    prev_live: Option<bool>,
    has_image: bool,
    viewers: Option<u32>,
    prev_viewers: Option<u32>,
) -> bool {
    live != (match prev_live {
        Some(b) => b,
        None => !live,
    }) || !has_image || (live && viewers != prev_viewers)
}

/// One step of a channel-monitor poll.
pub open spec fn monitor_step_spec(s: PluginView, p: MonitorView, r: Option<ReplyView>) -> Step<
    MonitorView,
> {
    let stop = Step { state: s, poll: m_done(p), effects: Seq::empty(), request: None };
    match p.phase {
        MonitorPhase::Start => monitor_start(s, p),
        MonitorPhase::AwaitPlaceholder => match r {
            Some(ReplyView::Rendered(res)) => Step {
                state: s,
                poll: m_done(p),
                effects: placeholder_effects(p.context, res, p.title),
                request: None,
            },
            _ => stop,
        },
        MonitorPhase::AwaitClock => match r {
            Some(ReplyView::Now(now)) => if refresh_due(now, p.expiry) {
                Step {
                    state: s,
                    poll: MonitorView { phase: MonitorPhase::AwaitRefresh, ..p },
                    effects: Seq::empty(),
                    request: Some(RequestView::RefreshToken),
                }
            } else {
                monitor_resolve(s, p, Seq::empty())
            },
            _ => stop,
        },
        MonitorPhase::AwaitRefresh => match r {
            Some(ReplyView::Refreshed(res)) => monitor_resolve(
                s,
                p,
                match res {
                    Ok(_) => Seq::empty(),
                    Err(e) => seq![
                        EffectView::Send(log_view("Proactive token refresh failed: "@ + e)),
                    ],
                },
            ),
            _ => stop,
        },
        MonitorPhase::AwaitUser => match r {
            Some(ReplyView::User(Ok(u))) => Step {
                state: PluginView {
                    contexts: match lookup(s.contexts, p.context) {
                        Some(c) => set_ctx(
                            s.contexts,
                            p.context,
                            ContextStateView {
                                user_id: Some(u.id),
                                avatar_url: Some(u.profile_image_url),
                                display_name: Some(u.display_name),
                                ..c
                            },
                        ),
                        None => s.contexts,
                    },
                    ..s
                },
                poll: MonitorView {
                    phase: MonitorPhase::AwaitStatus,
                    user_id: Some(u.id),
                    avatar_url: Some(u.profile_image_url),
                    display_name: Some(u.display_name),
                    ..p
                },
                effects: seq![
                    EffectView::Send(
                        log_view("Resolved user: "@ + u.display_name + " ("@ + u.id + ")"@),
                    ),
                ],
                request: Some(RequestView::StreamStatus { token: p.token, user_id: u.id }),
            },
            Some(ReplyView::User(Err(e))) => Step {
                state: s,
                poll: m_done(p),
                effects: seq![EffectView::Send(log_view("User lookup failed: "@ + e))],
                request: None,
            },
            _ => stop,
        },
        MonitorPhase::AwaitStatus => match r {
            Some(ReplyView::Stream(Err(e))) => Step {
                state: s,
                poll: m_done(p),
                effects: seq![EffectView::Send(log_view("Poll error: "@ + e))] + if contains_spec(
                    e,
                    "401"@,
                ) {
                    seq![EffectView::HandleAuthExpired(p.context)]
                } else {
                    Seq::empty()
                },
                request: None,
            },
            Some(ReplyView::Stream(Ok((live, viewers)))) => {
                let q = MonitorView { is_live: live, viewer_count: viewers, ..p };
                let alert = monitor_alert(s, p, live);
                if needs_redraw(live, p.prev_live, p.has_image, viewers, p.prev_viewer) {
                    Step {
                        state: s,
                        poll: MonitorView { phase: MonitorPhase::AwaitImage, ..q },
                        effects: alert,
                        request: Some(
                            RequestView::RenderKey {
                                avatar_url: p.avatar_url,
                                is_live: live,
                                viewer_count: viewers,
                            },
                        ),
                    }
                } else {
                    Step { state: s, poll: m_done(q), effects: alert + monitor_finish(q), request: None }
                }
            },
            _ => stop,
        },
        MonitorPhase::AwaitImage => match r {
            Some(ReplyView::Image(img)) => Step {
                state: PluginView {
                    contexts: match lookup(s.contexts, p.context) {
                        Some(c) => set_ctx(
                            s.contexts,
                            p.context,
                            ContextStateView {
                                is_live: Some(p.is_live),
                                viewer_count: p.viewer_count,
                                has_image: true,
                                ..c
                            },
                        ),
                        None => s.contexts,
                    },
                    ..s
                },
                poll: m_done(p),
                effects: seq![
                    EffectView::Send(OutgoingView::SetImage { context: p.context, image: img }),
                ] + monitor_finish(p),
                request: None,
            },
            _ => stop,
        },
        MonitorPhase::Done => stop,
    }
}

/// The outcome of an executable step: what the step's spec says of the poll,
/// the effects and the request.
pub open spec fn monitor_matches(
    sp: Step<MonitorView>,
    p: MonitorView,
    effects: Seq<EffectView>,
    request: Option<RequestView>,
) -> bool {
    sp.poll == p && sp.effects == effects && sp.request == request
}

fn finish_monitor(p: &MonitorPoll, out: &mut Vec<Effect>)
    ensures
        effects_view(final(out)@) == effects_view(old(out)@) + monitor_finish(p@),
{
    let ghost before = effects_view(out@);
    proof {
        reveal_strlit("");
        assert(""@ =~= Seq::<char>::empty());
    }
    emit_send(out, set_title(p.context.as_str(), ""));
    let name = match &p.display_name {
        Some(d) => d.clone(),
        None => p.username.clone(),
    };
    emit_send(
        out,
        Outgoing::SendToPropertyInspector {
            action: plugin_action_str(),
            context: p.context.clone(),
            payload: PiPayload::MonitorStatus {
                display_name: name,
                avatar_url: copy_opt(&p.avatar_url),
                is_live: p.is_live,
                viewer_count: p.viewer_count,
            },
        },
    );
    assert(effects_view(out@) =~= before + monitor_finish(p@));
}

fn monitor_resolve_exec(st: &PluginState, p: &mut MonitorPoll, effects: Vec<Effect>) -> (r: (
    Vec<Effect>,
    Option<Request>,
))
    ensures
        monitor_matches(
            monitor_resolve(st@, old(p)@, effects_view(effects@)),
            final(p)@,
            effects_view(r.0@),
            opt_request(r.1),
        ),
        monitor_resolve(st@, old(p)@, effects_view(effects@)).state == st@,
{
    match &st.global_settings.access_token {
        None => {
            p.phase = MonitorPhase::Done;
            (effects, None)
        },
        Some(t) => {
            p.token = t.clone();
            match &p.user_id {
                None => {
                    p.phase = MonitorPhase::AwaitUser;
                    let trimmed = trim(p.username.as_str());
                    let login = to_lowercase(trimmed.as_str());
                    (effects, Some(Request::UserInfo { token: t.clone(), login: Some(login) }))
                },
                Some(uid) => {
                    let uid = uid.clone();
                    p.phase = MonitorPhase::AwaitStatus;
                    (effects, Some(Request::StreamStatus { token: t.clone(), user_id: uid }))
                },
            }
        },
    }
}

fn monitor_start_exec(st: &PluginState, p: &mut MonitorPoll) -> (r: (Vec<Effect>, Option<Request>))
    requires
        st@.wf(),
    ensures
        monitor_matches(monitor_start(st@, old(p)@), final(p)@, effects_view(r.0@), opt_request(r.1)),
        monitor_start(st@, old(p)@).state == st@,
{
    let empty: Vec<Effect> = Vec::new();
    assert(effects_view(empty@) =~= Seq::<EffectView>::empty());
    match st.find(p.context.as_str()) {
        None => {
            p.phase = MonitorPhase::Done;
            (empty, None)
        },
        Some(i) => {
            let c = &st.contexts[i].1;
            assert(lookup(st@.contexts, p.context@) == Some(c@));
            if st.global_settings.access_token.is_none() {
                p.phase = MonitorPhase::AwaitPlaceholder;
                p.title = owned("Auth\nRequired");
                return (empty, Some(Request::Placeholder { is_live: false }));
            }
            if c.settings.twitch_username.as_str().is_empty() {
                p.phase = MonitorPhase::AwaitPlaceholder;
                p.title = owned("Setup\nRequired");
                return (empty, Some(Request::Placeholder { is_live: false }));
            }
            p.username = c.settings.twitch_username.clone();
            p.prev_live = c.is_live;
            p.prev_viewer = c.viewer_count;
            p.user_id = copy_opt(&c.user_id);
            p.avatar_url = copy_opt(&c.avatar_url);
            p.display_name = copy_opt(&c.display_name);
            p.has_image = c.has_image;
            match st.global_settings.token_expiry {
                Some(e) => {
                    p.expiry = e;
                    p.phase = MonitorPhase::AwaitClock;
                    (empty, Some(Request::Clock))
                },
                None => monitor_resolve_exec(st, p, empty),
            }
        },
    }
}

/// Records the looked-up channel in key `context`'s state, where the key is
/// still shown.
fn monitor_record_user(st: &mut PluginState, context: &str, u: &TwitchUser)
    requires
        old(st)@.wf(),
    ensures
        final(st)@.wf(),
        final(st)@ == (PluginView {
            contexts: match lookup(old(st)@.contexts, context@) {
                Some(c) => set_ctx(
                    old(st)@.contexts,
                    context@,
                    ContextStateView {
                        user_id: Some(u@.id),
                        avatar_url: Some(u@.profile_image_url),
                        display_name: Some(u@.display_name),
                        ..c
                    },
                ),
                None => old(st)@.contexts,
            },
            ..old(st)@
        }),
{
    match st.find(context) {
        Some(i) => {
            let mut c = st.contexts[i].1.duplicate();
            c.user_id = Some(u.id.clone());
            c.avatar_url = Some(u.profile_image_url.clone());
            c.display_name = Some(u.display_name.clone());
            st.replace_at(i, c);
        },
        None => {},
    }
}

/// Records the status that key `context` now shows, where the key is still
/// shown.
fn monitor_record_image(st: &mut PluginState, context: &str, is_live: bool, viewers: Option<u32>)
    requires
        old(st)@.wf(),
    ensures
        final(st)@.wf(),
        final(st)@ == (PluginView {
            contexts: match lookup(old(st)@.contexts, context@) {
                Some(c) => set_ctx(
                    old(st)@.contexts,
                    context@,
                    ContextStateView {
                        is_live: Some(is_live),
                        viewer_count: viewers,
                        has_image: true,
                        ..c
                    },
                ),
                None => old(st)@.contexts,
            },
            ..old(st)@
        }),
{
    match st.find(context) {
        Some(i) => {
            let mut c = st.contexts[i].1.duplicate();
            c.is_live = Some(is_live);
            c.viewer_count = viewers;
            c.has_image = true;
            st.replace_at(i, c);
        },
        None => {},
    }
}

fn monitor_alert_exec(st: &PluginState, p: &MonitorPoll, live: bool) -> (out: Vec<Effect>)
    requires
        st@.wf(),
    ensures
        effects_view(out@) == monitor_alert(st@, p@, live),
{
    let mut out: Vec<Effect> = Vec::new();
    if live && p.prev_live == Some(false) {
        match st.find(p.context.as_str()) {
            Some(i) => {
                let c = &st.contexts[i].1;
                match &c.settings.alert_sound_data {
                    Some(d) => {
                        if c.settings.alert_enabled {
                            emit(
                                &mut out,
                                Effect::PlaySound { data: d.clone(), volume: c.settings.alert_volume },
                            );
                        }
                    },
                    None => {},
                }
            },
            None => {},
        }
    }
    assert(effects_view(out@) =~= monitor_alert(st@, p@, live));
    out
}

/// One step of a channel-monitor poll: given the answer to the previous
/// request (none at the start), updates the shared state and the poll, and
/// returns the effects to carry out and the next request, if any.
#[verifier::rlimit(60)]
pub fn monitor_step(st: &mut PluginState, p: &mut MonitorPoll, r: Option<Reply>) -> (out: (
    Vec<Effect>,
    Option<Request>,
))
    requires
        old(st)@.wf(),
    ensures
        final(st)@.wf(),
        ({
            let sp = monitor_step_spec(old(st)@, old(p)@, opt_reply(r));
            &&& final(st)@ == sp.state
            &&& monitor_matches(sp, final(p)@, effects_view(out.0@), opt_request(out.1))
        }),
{
    let empty: Vec<Effect> = Vec::new();
    assert(effects_view(empty@) =~= Seq::<EffectView>::empty());
    match p.phase {
        MonitorPhase::Start => monitor_start_exec(st, p),
        MonitorPhase::AwaitPlaceholder => match r {
            Some(Reply::Rendered(res)) => {
                let out = placeholder_effects_exec(p.context.as_str(), &res, p.title.as_str());
                p.phase = MonitorPhase::Done;
                (out, None)
            },
            _ => {
                p.phase = MonitorPhase::Done;
                (empty, None)
            },
        },
        MonitorPhase::AwaitClock => match r {
            Some(Reply::Now(now)) => {
                if needs_refresh(now, p.expiry) {
                    p.phase = MonitorPhase::AwaitRefresh;
                    (empty, Some(Request::RefreshToken))
                } else {
                    monitor_resolve_exec(st, p, empty)
                }
            },
            _ => {
                p.phase = MonitorPhase::Done;
                (empty, None)
            },
        },
        MonitorPhase::AwaitRefresh => match r {
            Some(Reply::Refreshed(res)) => {
                let mut eff: Vec<Effect> = Vec::new();
                match &res {
                    Ok(_) => {},
                    Err(e) => {
                        let text = concat2("Proactive token refresh failed: ", e.as_str());
                        emit_send(&mut eff, log(text.as_str()));
                    },
                }
                assert(effects_view(eff@) =~= match res_str(res) {
                    Ok(_) => Seq::<EffectView>::empty(),
                    Err(e) => seq![
                        EffectView::Send(log_view("Proactive token refresh failed: "@ + e)),
                    ],
                });
                monitor_resolve_exec(st, p, eff)
            },
            _ => {
                p.phase = MonitorPhase::Done;
                (empty, None)
            },
        },
        MonitorPhase::AwaitUser => match r {
            Some(Reply::User(Ok(u))) => {
                monitor_record_user(st, p.context.as_str(), &u);
                let mut eff: Vec<Effect> = Vec::new();
                let mut text = concat2("Resolved user: ", u.display_name.as_str());
                push_str(&mut text, " (");
                push_str(&mut text, u.id.as_str());
                push_str(&mut text, ")");
                emit_send(&mut eff, log(text.as_str()));
                p.phase = MonitorPhase::AwaitStatus;
                p.user_id = Some(u.id.clone());
                p.avatar_url = Some(u.profile_image_url.clone());
                p.display_name = Some(u.display_name.clone());
                let req = Request::StreamStatus { token: p.token.clone(), user_id: u.id };
                assert(effects_view(eff@) =~= seq![
                    EffectView::Send(
                        log_view("Resolved user: "@ + u@.display_name + " ("@ + u@.id + ")"@),
                    ),
                ]);
                (eff, Some(req))
            },
            Some(Reply::User(Err(e))) => {
                let mut eff: Vec<Effect> = Vec::new();
                let text = concat2("User lookup failed: ", e.as_str());
                emit_send(&mut eff, log(text.as_str()));
                p.phase = MonitorPhase::Done;
                assert(effects_view(eff@) =~= seq![
                    EffectView::Send(log_view("User lookup failed: "@ + e@)),
                ]);
                (eff, None)
            },
            _ => {
                p.phase = MonitorPhase::Done;
                (empty, None)
            },
        },
        MonitorPhase::AwaitStatus => match r {
            Some(Reply::Stream(Err(e))) => {
                let mut eff: Vec<Effect> = Vec::new();
                let text = concat2("Poll error: ", e.as_str());
                emit_send(&mut eff, log(text.as_str()));
                if contains(e.as_str(), "401") {
                    emit(&mut eff, Effect::HandleAuthExpired(p.context.clone()));
                }
                p.phase = MonitorPhase::Done;
                assert(effects_view(eff@) =~= seq![
                    EffectView::Send(log_view("Poll error: "@ + e@)),
                ] + if contains_spec(e@, "401"@) {
                    seq![EffectView::HandleAuthExpired(old(p)@.context)]
                } else {
                    Seq::<EffectView>::empty()
                });
                (eff, None)
            },
            Some(Reply::Stream(Ok((live, viewers)))) => {
                let mut eff = monitor_alert_exec(st, p, live);
                let redraw = live != (match p.prev_live {
                    Some(b) => b,
                    None => !live,
                }) || !p.has_image || (live && viewers != p.prev_viewer);
                p.is_live = live;
                p.viewer_count = viewers;
                if redraw {
                    p.phase = MonitorPhase::AwaitImage;
                    let req = Request::RenderKey {
                        avatar_url: copy_opt(&p.avatar_url),
                        is_live: live,
                        viewer_count: viewers,
                    };
                    (eff, Some(req))
                } else {
                    p.phase = MonitorPhase::Done;
                    finish_monitor(p, &mut eff);
                    (eff, None)
                }
            },
            _ => {
                p.phase = MonitorPhase::Done;
                (empty, None)
            },
        },
        MonitorPhase::AwaitImage => match r {
            Some(Reply::Image(img)) => {
                let mut eff: Vec<Effect> = Vec::new();
                emit_send(&mut eff, set_image(p.context.as_str(), img.as_str()));
                monitor_record_image(st, p.context.as_str(), p.is_live, p.viewer_count);
                p.phase = MonitorPhase::Done;
                finish_monitor(p, &mut eff);
                (eff, None)
            },
            _ => {
                p.phase = MonitorPhase::Done;
                (empty, None)
            },
        },
        MonitorPhase::Done => (empty, None),
    }
}

// ── The follows-counter poll ───────────────────────────────────────────────

/// Where a follows-counter poll stands.
#[derive(Clone, Copy, Debug, PartialEq, Eq, Structural)]
pub enum FollowsPhase {
    Start,
    AwaitPlaceholder,
    AwaitUser,
    AwaitClock,
    AwaitRefresh,
    AwaitCount,
    AwaitImage,
    AwaitRetryRefresh,
    AwaitRetryCount,
    AwaitRetryImage,
    Done,
}

/// A follows-counter poll of one key.
pub struct FollowsPoll {
    pub context: String,
    pub phase: FollowsPhase,
    /// The authenticated user's ID.
    pub uid: String,
    /// The token expiry being checked.
    pub expiry: u64,
    /// The count being drawn.
    pub count: u32,
}

/// The view of `FollowsPoll`.
pub struct FollowsView {
    pub context: Seq<char>,
    pub phase: FollowsPhase,
    pub uid: Seq<char>,
    pub expiry: u64,
    pub count: u32,
}

impl View for FollowsPoll {
    type V = FollowsView;

    open spec fn view(&self) -> FollowsView {
        FollowsView {
            context: self.context@,
            phase: self.phase,
            uid: self.uid@,
            expiry: self.expiry,
            count: self.count,
        }
    }
}

impl FollowsPoll {
    /// A poll of key `context` that has not started.
    pub fn new(context: String) -> (r: FollowsPoll)
        ensures
            r@.context == context@,
            r@.phase == FollowsPhase::Start,
    {
        FollowsPoll { context, phase: FollowsPhase::Start, uid: String::new(), expiry: 0, count: 0 }
    }
}

/// The poll, finished.
pub open spec fn f_done(p: FollowsView) -> FollowsView {
    FollowsView { phase: FollowsPhase::Done, ..p }
}

/// The message telling a key that the stored session expired.
pub open spec fn expired_payload() -> PiPayloadView {
    PiPayloadView::AuthStatus {
        kind: AuthStatusKind::Expired,
        error: Some("Session expired — please reconnect your Twitch account."@),
    }
}

/// The access token, or empty.
pub open spec fn token_or_empty(g: GlobalSettingsView) -> Seq<char> {
    match g.access_token {
        Some(t) => t,
        None => Seq::empty(),
    }
}

/// Ask for the count with the current token.
pub open spec fn follows_fetch(s: PluginView, p: FollowsView, effects: Seq<EffectView>) -> Step<
    FollowsView,
> {
    Step {
        state: s,
        poll: FollowsView { phase: FollowsPhase::AwaitCount, ..p },
        effects,
        request: Some(
            RequestView::FollowedLiveCount { token: token_or_empty(s.global), user_id: p.uid },
        ),
    }
}

/// Check the token's expiry (if one is stored) before asking for the count.
pub open spec fn follows_check(s: PluginView, p: FollowsView, effects: Seq<EffectView>) -> Step<
    FollowsView,
> {
    match s.global.token_expiry {
        Some(e) => Step {
            state: s,
            poll: FollowsView { phase: FollowsPhase::AwaitClock, expiry: e, ..p },
            effects,
            request: Some(RequestView::Clock),
        },
        None => follows_fetch(s, p, effects),
    }
}

/// A refused session: the account is forgotten, every key is told, and the
/// key shows `Error`.
pub open spec fn follows_expire(s: PluginView, p: FollowsView) -> Step<FollowsView> {
    Step {
        state: PluginView { global: empty_global(), ..s },
        poll: f_done(p),
        effects: seq![
            EffectView::Send(
                OutgoingView::SetGlobalSettings { context: s.uuid, settings: empty_global() },
            ),
        ] + broadcast_view(ctx_keys(s.contexts), expired_payload()) + seq![
            EffectView::Send(OutgoingView::SetTitle { context: p.context, title: "Error"@ }),
        ],
        request: None,
    }
}

/// One step of a follows-counter poll.
pub open spec fn follows_step_spec(s: PluginView, p: FollowsView, r: Option<ReplyView>) -> Step<
    FollowsView,
> {
    let stop = Step { state: s, poll: f_done(p), effects: Seq::empty(), request: None };
    match p.phase {
        FollowsPhase::Start => match s.global.access_token {
            None => Step {
                state: s,
                poll: FollowsView { phase: FollowsPhase::AwaitPlaceholder, ..p },
                effects: Seq::empty(),
                request: Some(RequestView::Placeholder { is_live: false }),
            },
            Some(t) => match s.global.authed_user_id {
                Some(id) => follows_check(s, FollowsView { uid: id, ..p }, Seq::empty()),
                None => Step {
                    state: s,
                    poll: FollowsView { phase: FollowsPhase::AwaitUser, ..p },
                    effects: Seq::empty(),
                    request: Some(RequestView::UserInfo { token: t, login: None }),
                },
            },
        },
        FollowsPhase::AwaitPlaceholder => match r {
            Some(ReplyView::Rendered(res)) => Step {
                state: s,
                poll: f_done(p),
                effects: placeholder_effects(p.context, res, "Auth\nRequired"@),
                request: None,
            },
            _ => stop,
        },
        FollowsPhase::AwaitUser => match r {
            Some(ReplyView::User(Ok(u))) => {
                let g = merge_spec(
                    s.global,
                    GlobalSettingsView {
                        authed_user_id: Some(u.id),
                        authed_display_name: Some(u.display_name),
                        ..empty_global()
                    },
                );
                let s2 = PluginView { global: g, ..s };
                follows_check(
                    s2,
                    FollowsView { uid: u.id, ..p },
                    seq![
                        EffectView::Send(
                            OutgoingView::SetGlobalSettings { context: s.uuid, settings: g },
                        ),
                    ],
                )
            },
            Some(ReplyView::User(Err(e))) => Step {
                state: s,
                poll: f_done(p),
                effects: seq![
                    EffectView::Send(log_view("Could not resolve authed user ID: "@ + e)),
                    EffectView::Send(
                        OutgoingView::SetTitle { context: p.context, title: "Auth\nRequired"@ },
                    ),
                ],
                request: None,
            },
            _ => stop,
        },
        FollowsPhase::AwaitClock => match r {
            Some(ReplyView::Now(now)) => if refresh_due(now, p.expiry) {
                Step {
                    state: s,
                    poll: FollowsView { phase: FollowsPhase::AwaitRefresh, ..p },
                    effects: Seq::empty(),
                    request: Some(RequestView::RefreshToken),
                }
            } else {
                follows_fetch(s, p, Seq::empty())
            },
            _ => stop,
        },
        FollowsPhase::AwaitRefresh => match r {
            Some(ReplyView::Refreshed(_)) => follows_fetch(s, p, Seq::empty()),
            _ => stop,
        },
        FollowsPhase::AwaitCount => match r {
            Some(ReplyView::Count(Ok(n))) => Step {
                state: PluginView {
                    contexts: match lookup(s.contexts, p.context) {
                        Some(c) => set_ctx(
                            s.contexts,
                            p.context,
                            ContextStateView { follows_count: Some(n), ..c },
                        ),
                        None => s.contexts,
                    },
                    ..s
                },
                poll: FollowsView { phase: FollowsPhase::AwaitImage, count: n, ..p },
                effects: Seq::empty(),
                request: Some(RequestView::RenderFollows { count: n }),
            },
            Some(ReplyView::Count(Err(e))) => {
                let logged = seq![EffectView::Send(log_view("Follows poll error: "@ + e))];
                if contains_spec(e, "SCOPE_ERROR"@) {
                    Step {
                        state: s,
                        poll: f_done(p),
                        effects: logged + seq![
                            EffectView::Send(
                                OutgoingView::SendToPropertyInspector {
                                    action: follows_action(),
                                    context: p.context,
                                    payload: PiPayloadView::AuthStatus {
                                        kind: AuthStatusKind::ScopeError,
                                        error: Some(
                                            "Please reconnect your Twitch account to grant the follows permission."@,
                                        ),
                                    },
                                },
                            ),
                            EffectView::Send(
                                OutgoingView::SetTitle { context: p.context, title: "Re-Auth"@ },
                            ),
                        ],
                        request: None,
                    }
                } else if contains_spec(e, "401"@) {
                    Step {
                        state: s,
                        poll: FollowsView { phase: FollowsPhase::AwaitRetryRefresh, ..p },
                        effects: logged,
                        request: Some(RequestView::RefreshToken),
                    }
                } else {
                    Step {
                        state: s,
                        poll: f_done(p),
                        effects: logged + seq![
                            EffectView::Send(
                                OutgoingView::SetTitle { context: p.context, title: "Error"@ },
                            ),
                        ],
                        request: None,
                    }
                }
            },
            _ => stop,
        },
        FollowsPhase::AwaitImage => match r {
            Some(ReplyView::Image(img)) => Step {
                state: s,
                poll: f_done(p),
                effects: seq![
                    EffectView::Send(OutgoingView::SetImage { context: p.context, image: img }),
                    EffectView::Send(OutgoingView::SetTitle { context: p.context, title: Seq::empty() }),
                    EffectView::Send(log_view("Follows live count: "@ + decimal(p.count as nat))),
                    EffectView::Send(
                        OutgoingView::SendToPropertyInspector {
                            action: follows_action(),
                            context: p.context,
                            payload: PiPayloadView::FollowsCount { count: p.count },
                        },
                    ),
                ],
                request: None,
            },
            _ => stop,
        },
        FollowsPhase::AwaitRetryRefresh => match r {
            Some(ReplyView::Refreshed(Ok(_))) => Step {
                state: s,
                poll: FollowsView { phase: FollowsPhase::AwaitRetryCount, ..p },
                effects: Seq::empty(),
                request: Some(
                    RequestView::FollowedLiveCount { token: token_or_empty(s.global), user_id: p.uid },
                ),
            },
            Some(ReplyView::Refreshed(Err(_))) => follows_expire(s, p),
            _ => stop,
        },
        FollowsPhase::AwaitRetryCount => match r {
            Some(ReplyView::Count(Ok(n))) => Step {
                state: s,
                poll: FollowsView { phase: FollowsPhase::AwaitRetryImage, count: n, ..p },
                effects: Seq::empty(),
                request: Some(RequestView::RenderFollows { count: n }),
            },
            Some(ReplyView::Count(Err(_))) => follows_expire(s, p),
            _ => stop,
        },
        FollowsPhase::AwaitRetryImage => match r {
            Some(ReplyView::Image(img)) => Step {
                state: s,
                poll: f_done(p),
                effects: seq![
                    EffectView::Send(OutgoingView::SetImage { context: p.context, image: img }),
                    EffectView::Send(OutgoingView::SetTitle { context: p.context, title: Seq::empty() }),
                ],
                request: None,
            },
            _ => stop,
        },
        FollowsPhase::Done => stop,
    }
}

/// What an executable follows step returns matches the spec.
pub open spec fn follows_matches(
    sp: Step<FollowsView>,
    p: FollowsView,
    effects: Seq<EffectView>,
    request: Option<RequestView>,
) -> bool {
    sp.poll == p && sp.effects == effects && sp.request == request
}

pub(crate) fn token_or_empty_exec(g: &GlobalSettings) -> (r: String)
    ensures
        r@ == token_or_empty(g@),
{
    match &g.access_token {
        Some(t) => t.clone(),
        None => String::new(),
    }
}

fn follows_fetch_exec(st: &PluginState, p: &mut FollowsPoll, effects: Vec<Effect>) -> (r: (
    Vec<Effect>,
    Option<Request>,
))
    ensures
        follows_matches(
            follows_fetch(st@, old(p)@, effects_view(effects@)),
            final(p)@,
            effects_view(r.0@),
            opt_request(r.1),
        ),
{
    p.phase = FollowsPhase::AwaitCount;
    let req = Request::FollowedLiveCount {
        token: token_or_empty_exec(&st.global_settings),
        user_id: p.uid.clone(),
    };
    (effects, Some(req))
}

fn follows_check_exec(st: &PluginState, p: &mut FollowsPoll, effects: Vec<Effect>) -> (r: (
    Vec<Effect>,
    Option<Request>,
))
    ensures
        follows_matches(
            follows_check(st@, old(p)@, effects_view(effects@)),
            final(p)@,
            effects_view(r.0@),
            opt_request(r.1),
        ),
        follows_check(st@, old(p)@, effects_view(effects@)).state == st@,
{
    match st.global_settings.token_expiry {
        Some(e) => {
            p.expiry = e;
            p.phase = FollowsPhase::AwaitClock;
            (effects, Some(Request::Clock))
        },
        None => follows_fetch_exec(st, p, effects),
    }
}

fn follows_expire_exec(st: &mut PluginState, p: &mut FollowsPoll) -> (r: (
    Vec<Effect>,
    Option<Request>,
))
    requires
        old(st)@.wf(),
    ensures
        final(st)@.wf(),
        final(st)@ == follows_expire(old(st)@, old(p)@).state,
        follows_matches(follows_expire(old(st)@, old(p)@), final(p)@, effects_view(r.0@), opt_request(r.1)),
{
    let mut eff: Vec<Effect> = Vec::new();
    let o = st.clear_global_auth();
    emit_send(&mut eff, o);
    st.broadcast_auth_status(
        &PiPayload::AuthStatus {
            kind: AuthStatusKind::Expired,
            error: Some(owned("Session expired — please reconnect your Twitch account.")),
        },
        &mut eff,
    );
    emit_send(&mut eff, set_title(p.context.as_str(), "Error"));
    p.phase = FollowsPhase::Done;
    assert(effects_view(eff@) =~= follows_expire(old(st)@, old(p)@).effects);
    (eff, None)
}

/// One step of a follows-counter poll: given the answer to the previous
/// request (none at the start), updates the shared state and the poll, and
/// returns the effects to carry out and the next request, if any.
#[verifier::rlimit(60)]
pub fn follows_step(st: &mut PluginState, p: &mut FollowsPoll, r: Option<Reply>) -> (out: (
    Vec<Effect>,
    Option<Request>,
))
    requires
        old(st)@.wf(),
    ensures
        final(st)@.wf(),
        ({
            let sp = follows_step_spec(old(st)@, old(p)@, opt_reply(r));
            &&& final(st)@ == sp.state
            &&& follows_matches(sp, final(p)@, effects_view(out.0@), opt_request(out.1))
        }),
{
    let empty: Vec<Effect> = Vec::new();
    assert(effects_view(empty@) =~= Seq::<EffectView>::empty());
    match p.phase {
        FollowsPhase::Start => match &st.global_settings.access_token {
            None => {
                p.phase = FollowsPhase::AwaitPlaceholder;
                (empty, Some(Request::Placeholder { is_live: false }))
            },
            Some(t) => match &st.global_settings.authed_user_id {
                Some(id) => {
                    p.uid = id.clone();
                    follows_check_exec(st, p, empty)
                },
                None => {
                    p.phase = FollowsPhase::AwaitUser;
                    (empty, Some(Request::UserInfo { token: t.clone(), login: None }))
                },
            },
        },
        FollowsPhase::AwaitPlaceholder => match r {
            Some(Reply::Rendered(res)) => {
                let out = placeholder_effects_exec(p.context.as_str(), &res, "Auth\nRequired");
                p.phase = FollowsPhase::Done;
                (out, None)
            },
            _ => {
                p.phase = FollowsPhase::Done;
                (empty, None)
            },
        },
        FollowsPhase::AwaitUser => match r {
            Some(Reply::User(Ok(u))) => {
                let fields = GlobalSettings {
                    access_token: None,
                    refresh_token: None,
                    token_expiry: None,
                    authed_display_name: Some(u.display_name.clone()),
                    authed_avatar_url: None,
                    authed_user_id: Some(u.id.clone()),
                };
                let o = st.save_global_auth(fields);
                let mut eff: Vec<Effect> = Vec::new();
                emit_send(&mut eff, o);
                p.uid = u.id;
                follows_check_exec(st, p, eff)
            },
            Some(Reply::User(Err(e))) => {
                let mut eff: Vec<Effect> = Vec::new();
                let text = concat2("Could not resolve authed user ID: ", e.as_str());
                emit_send(&mut eff, log(text.as_str()));
                emit_send(&mut eff, set_title(p.context.as_str(), "Auth\nRequired"));
                p.phase = FollowsPhase::Done;
                assert(effects_view(eff@) =~= follows_step_spec(old(st)@, old(p)@, opt_reply(r)).effects);
                (eff, None)
            },
            _ => {
                p.phase = FollowsPhase::Done;
                (empty, None)
            },
        },
        FollowsPhase::AwaitClock => match r {
            Some(Reply::Now(now)) => {
                if needs_refresh(now, p.expiry) {
                    p.phase = FollowsPhase::AwaitRefresh;
                    (empty, Some(Request::RefreshToken))
                } else {
                    follows_fetch_exec(st, p, empty)
                }
            },
            _ => {
                p.phase = FollowsPhase::Done;
                (empty, None)
            },
        },
        FollowsPhase::AwaitRefresh => match r {
            Some(Reply::Refreshed(_)) => follows_fetch_exec(st, p, empty),
            _ => {
                p.phase = FollowsPhase::Done;
                (empty, None)
            },
        },
        FollowsPhase::AwaitCount => match r {
            Some(Reply::Count(Ok(n))) => {
                match st.find(p.context.as_str()) {
                    Some(i) => {
                        let mut c = st.contexts[i].1.duplicate();
                        c.follows_count = Some(n);
                        st.replace_at(i, c);
                    },
                    None => {},
                }
                p.phase = FollowsPhase::AwaitImage;
                p.count = n;
                (empty, Some(Request::RenderFollows { count: n }))
            },
            Some(Reply::Count(Err(e))) => {
                let mut eff: Vec<Effect> = Vec::new();
                let text = concat2("Follows poll error: ", e.as_str());
                emit_send(&mut eff, log(text.as_str()));
                if contains(e.as_str(), "SCOPE_ERROR") {
                    emit_send(
                        &mut eff,
                        Outgoing::SendToPropertyInspector {
                            action: follows_action_str(),
                            context: p.context.clone(),
                            payload: PiPayload::AuthStatus {
                                kind: AuthStatusKind::ScopeError,
                                error: Some(
                                    owned(
                                        "Please reconnect your Twitch account to grant the follows permission.",
                                    ),
                                ),
                            },
                        },
                    );
                    emit_send(&mut eff, set_title(p.context.as_str(), "Re-Auth"));
                    p.phase = FollowsPhase::Done;
                    assert(effects_view(eff@) =~= follows_step_spec(old(st)@, old(p)@, opt_reply(r)).effects);
                    (eff, None)
                } else if contains(e.as_str(), "401") {
                    p.phase = FollowsPhase::AwaitRetryRefresh;
                    assert(effects_view(eff@) =~= follows_step_spec(old(st)@, old(p)@, opt_reply(r)).effects);
                    (eff, Some(Request::RefreshToken))
                } else {
                    emit_send(&mut eff, set_title(p.context.as_str(), "Error"));
                    p.phase = FollowsPhase::Done;
                    assert(effects_view(eff@) =~= follows_step_spec(old(st)@, old(p)@, opt_reply(r)).effects);
                    (eff, None)
                }
            },
            _ => {
                p.phase = FollowsPhase::Done;
                (empty, None)
            },
        },
        FollowsPhase::AwaitImage => match r {
            Some(Reply::Image(img)) => {
                let mut eff: Vec<Effect> = Vec::new();
                proof {
                    reveal_strlit("");
                    assert(""@ =~= Seq::<char>::empty());
                }
                emit_send(&mut eff, set_image(p.context.as_str(), img.as_str()));
                emit_send(&mut eff, set_title(p.context.as_str(), ""));
                let mut text = owned("Follows live count: ");
                push_decimal(&mut text, p.count as u64);
                emit_send(&mut eff, log(text.as_str()));
                emit_send(
                    &mut eff,
                    Outgoing::SendToPropertyInspector {
                        action: follows_action_str(),
                        context: p.context.clone(),
                        payload: PiPayload::FollowsCount { count: p.count },
                    },
                );
                p.phase = FollowsPhase::Done;
                assert(effects_view(eff@) =~= follows_step_spec(old(st)@, old(p)@, opt_reply(r)).effects);
                (eff, None)
            },
            _ => {
                p.phase = FollowsPhase::Done;
                (empty, None)
            },
        },
        FollowsPhase::AwaitRetryRefresh => match r {
            Some(Reply::Refreshed(Ok(_))) => {
                p.phase = FollowsPhase::AwaitRetryCount;
                let req = Request::FollowedLiveCount {
                    token: token_or_empty_exec(&st.global_settings),
                    user_id: p.uid.clone(),
                };
                (empty, Some(req))
            },
            Some(Reply::Refreshed(Err(_))) => follows_expire_exec(st, p),
            _ => {
                p.phase = FollowsPhase::Done;
                (empty, None)
            },
        },
        FollowsPhase::AwaitRetryCount => match r {
            Some(Reply::Count(Ok(n))) => {
                p.phase = FollowsPhase::AwaitRetryImage;
                p.count = n;
                (empty, Some(Request::RenderFollows { count: n }))
            },
            Some(Reply::Count(Err(_))) => follows_expire_exec(st, p),
            _ => {
                p.phase = FollowsPhase::Done;
                (empty, None)
            },
        },
        FollowsPhase::AwaitRetryImage => match r {
            Some(Reply::Image(img)) => {
                let mut eff: Vec<Effect> = Vec::new();
                proof {
                    reveal_strlit("");
                    assert(""@ =~= Seq::<char>::empty());
                }
                emit_send(&mut eff, set_image(p.context.as_str(), img.as_str()));
                emit_send(&mut eff, set_title(p.context.as_str(), ""));
                p.phase = FollowsPhase::Done;
                assert(effects_view(eff@) =~= follows_step_spec(old(st)@, old(p)@, opt_reply(r)).effects);
                (eff, None)
            },
            _ => {
                p.phase = FollowsPhase::Done;
                (empty, None)
            },
        },
        FollowsPhase::Done => (empty, None),
    }
}

// ── Recovering from a refused token ────────────────────────────────────────

/// Where the recovery of a monitor key whose token was refused stands.
#[derive(Clone, Copy, Debug, PartialEq, Eq, Structural)]
pub enum ExpiredPhase {
    Start,
    AwaitRefresh,
    AwaitPlaceholder,
    Done,
}

/// The recovery of key `context` after its token was refused.
pub struct ExpiredPoll {
    pub context: String,
    pub phase: ExpiredPhase,
}

/// The view of `ExpiredPoll`.
pub struct ExpiredView {
    pub context: Seq<char>,
    pub phase: ExpiredPhase,
}

impl View for ExpiredPoll {
    type V = ExpiredView;

    open spec fn view(&self) -> ExpiredView {
        ExpiredView { context: self.context@, phase: self.phase }
    }
}

impl ExpiredPoll {
    /// A recovery of key `context` that has not started.
    pub fn new(context: String) -> (r: ExpiredPoll)
        ensures
            r@.context == context@,
            r@.phase == ExpiredPhase::Start,
    {
        ExpiredPoll { context, phase: ExpiredPhase::Start }
    }
}

/// One step of the recovery: refresh the token; on success poll the key
/// again, otherwise forget the account, tell every key, and show the
/// placeholder with `Auth Required`.
pub open spec fn expired_step_spec(s: PluginView, p: ExpiredView, r: Option<ReplyView>) -> Step<
    ExpiredView,
> {
    let done = ExpiredView { phase: ExpiredPhase::Done, ..p };
    let stop = Step { state: s, poll: done, effects: Seq::empty(), request: None };
    match p.phase {
        ExpiredPhase::Start => Step {
            state: s,
            poll: ExpiredView { phase: ExpiredPhase::AwaitRefresh, ..p },
            effects: Seq::empty(),
            request: Some(RequestView::RefreshToken),
        },
        ExpiredPhase::AwaitRefresh => match r {
            Some(ReplyView::Refreshed(Ok(_))) => Step {
                state: s,
                poll: done,
                effects: seq![EffectView::PollMonitor(p.context)],
                request: None,
            },
            Some(ReplyView::Refreshed(Err(e))) => Step {
                state: PluginView { global: empty_global(), ..s },
                poll: ExpiredView { phase: ExpiredPhase::AwaitPlaceholder, ..p },
                effects: seq![
                    EffectView::Send(log_view("Token refresh failed: "@ + e)),
                    EffectView::Send(
                        OutgoingView::SetGlobalSettings { context: s.uuid, settings: empty_global() },
                    ),
                ] + broadcast_view(ctx_keys(s.contexts), expired_payload()),
                request: Some(RequestView::Placeholder { is_live: false }),
            },
            _ => stop,
        },
        ExpiredPhase::AwaitPlaceholder => match r {
            Some(ReplyView::Rendered(res)) => Step {
                state: s,
                poll: done,
                effects: placeholder_effects(p.context, res, "Auth\nRequired"@),
                request: None,
            },
            _ => stop,
        },
        ExpiredPhase::Done => stop,
    }
}

/// One step of the recovery of a monitor key whose token was refused.
pub fn expired_step(st: &mut PluginState, p: &mut ExpiredPoll, r: Option<Reply>) -> (out: (
    Vec<Effect>,
    Option<Request>,
))
    requires
        old(st)@.wf(),
    ensures
        final(st)@.wf(),
        ({
            let sp = expired_step_spec(old(st)@, old(p)@, opt_reply(r));
            &&& final(st)@ == sp.state
            &&& final(p)@ == sp.poll
            &&& effects_view(out.0@) == sp.effects
            &&& opt_request(out.1) == sp.request
        }),
{
    let empty: Vec<Effect> = Vec::new();
    assert(effects_view(empty@) =~= Seq::<EffectView>::empty());
    match p.phase {
        ExpiredPhase::Start => {
            p.phase = ExpiredPhase::AwaitRefresh;
            (empty, Some(Request::RefreshToken))
        },
        ExpiredPhase::AwaitRefresh => match r {
            Some(Reply::Refreshed(Ok(_))) => {
                let mut eff: Vec<Effect> = Vec::new();
                emit(&mut eff, Effect::PollMonitor(p.context.clone()));
                p.phase = ExpiredPhase::Done;
                assert(effects_view(eff@) =~= seq![EffectView::PollMonitor(old(p)@.context)]);
                (eff, None)
            },
            Some(Reply::Refreshed(Err(e))) => {
                let mut eff: Vec<Effect> = Vec::new();
                let text = concat2("Token refresh failed: ", e.as_str());
                emit_send(&mut eff, log(text.as_str()));
                let o = st.clear_global_auth();
                emit_send(&mut eff, o);
                st.broadcast_auth_status(
                    &PiPayload::AuthStatus {
                        kind: AuthStatusKind::Expired,
                        error: Some(owned("Session expired — please reconnect your Twitch account.")),
                    },
                    &mut eff,
                );
                p.phase = ExpiredPhase::AwaitPlaceholder;
                assert(effects_view(eff@) =~= expired_step_spec(old(st)@, old(p)@, opt_reply(r)).effects);
                (eff, Some(Request::Placeholder { is_live: false }))
            },
            _ => {
                p.phase = ExpiredPhase::Done;
                (empty, None)
            },
        },
        ExpiredPhase::AwaitPlaceholder => match r {
            Some(Reply::Rendered(res)) => {
                let out = placeholder_effects_exec(p.context.as_str(), &res, "Auth\nRequired");
                p.phase = ExpiredPhase::Done;
                (out, None)
            },
            _ => {
                p.phase = ExpiredPhase::Done;
                (empty, None)
            },
        },
        ExpiredPhase::Done => (empty, None),
    }
}

/// Which poll a key runs: the monitor poll or the follows poll, or none for
/// a key that is not shown.
pub fn poll_kind(st: &PluginState, context: &str) -> (r: Option<ContextType>)
    requires
        st@.wf(),
    ensures
        r == (match lookup(st@.contexts, context@) {
            Some(c) => Some(c.ctx_type),
            None => None,
        }),
{
    match st.find(context) {
        Some(i) => Some(st.contexts[i].1.ctx_type),
        None => None,
    }
}


// ── Laws ───────────────────────────────────────────────────────────────────

/// Once the refresh is due it stays due as time goes on.
pub proof fn lemma_refresh_due_monotone(t1: u64, t2: u64, expiry: u64)
    requires
        t1 <= t2,
        refresh_due(t1, expiry),
    ensures
        refresh_due(t2, expiry),
{
}

/// A key whose live status and viewer count are what it already shows is
/// not drawn again.
pub proof fn lemma_unchanged_status_no_redraw(live: bool, viewers: Option<u32>)
    ensures
        !needs_redraw(live, Some(live), true, viewers, viewers),
{
}

/// A change of live status, in either direction, always redraws the key,
/// whatever it showed and whatever the viewer counts.
pub proof fn lemma_status_change_redraws(
    live: bool,
    has_image: bool,
    viewers: Option<u32>,
    prev_viewers: Option<u32>,
)
    ensures
        needs_redraw(live, Some(!live), has_image, viewers, prev_viewers),
{
}

/// When a poll finds the channel's live status changed from what the key
/// last showed, the key is drawn again for the new status (the full-colour
/// avatar with its badge when live, the grey one when offline), and once the
/// image comes back it is set on the key and the key's state records the
/// new status.
pub proof fn lemma_status_change_redraws_key(
    s: PluginView,
    p: MonitorView,
    live: bool,
    viewers: Option<u32>,
    img: Seq<char>,
)
    requires
        s.wf(),
        p.phase == MonitorPhase::AwaitStatus,
        p.prev_live == Some(!live),
    ensures
        ({
            let sp = monitor_step_spec(s, p, Some(ReplyView::Stream(Ok((live, viewers)))));
            let sp2 = monitor_step_spec(sp.state, sp.poll, Some(ReplyView::Image(img)));
            &&& sp.request == Some(
                RequestView::RenderKey { avatar_url: p.avatar_url, is_live: live, viewer_count: viewers },
            )
            &&& sp.poll.phase == MonitorPhase::AwaitImage
            &&& sp2.effects[0] == EffectView::Send(
                OutgoingView::SetImage { context: p.context, image: img },
            )
            &&& (lookup(s.contexts, p.context) is Some ==> (lookup(sp2.state.contexts, p.context)
                matches Some(c) && c.is_live == Some(live) && c.viewer_count == viewers
                && c.has_image))
        }),
{
    let sp = monitor_step_spec(s, p, Some(ReplyView::Stream(Ok((live, viewers)))));
    lemma_status_change_redraws(live, p.has_image, viewers, p.prev_viewer);
    assert(sp.state == s);
    match lookup(s.contexts, p.context) {
        Some(c) => {
            lemma_lookup_set(
                s.contexts,
                p.context,
                ContextStateView { is_live: Some(live), viewer_count: viewers, has_image: true, ..c },
                p.context,
            );
        },
        None => {},
    }
}

/// A live channel whose viewer count changed is drawn again, and so is a
/// key with no image yet.
pub proof fn lemma_viewers_or_missing_image_redraws(
    live: bool,
    prev_live: Option<bool>,
    has_image: bool,
    viewers: Option<u32>,
    prev_viewers: Option<u32>,
)
    ensures
        live && viewers != prev_viewers ==> needs_redraw(live, prev_live, has_image, viewers, prev_viewers),
        !has_image ==> needs_redraw(live, prev_live, has_image, viewers, prev_viewers),
{
}

/// A monitor poll of a set-up, signed-in key with a stored expiry first asks
/// for the clock; where the token expires within five minutes of the time
/// it gets back, it next asks for a refresh, and otherwise goes on to the
/// channel with the current token.
pub proof fn lemma_monitor_refreshes_when_due(s: PluginView, p: MonitorView, now: u64)
    requires
        p.phase == MonitorPhase::Start,
        lookup(s.contexts, p.context) matches Some(c) && c.settings.twitch_username.len() > 0,
        s.global.access_token is Some,
        s.global.token_expiry is Some,
    ensures
        ({
            let c = lookup(s.contexts, p.context)->0;
            let t = s.global.access_token->0;
            let e = s.global.token_expiry->0;
            let sp = monitor_step_spec(s, p, None);
            let sp2 = monitor_step_spec(sp.state, sp.poll, Some(ReplyView::Now(now)));
            &&& sp.request == Some(RequestView::Clock)
            &&& sp.poll.expiry == e
            &&& refresh_due(now, e) ==> sp2.request == Some(RequestView::RefreshToken)
            &&& (!refresh_due(now, e) && c.user_id is Some) ==> sp2.request == Some(
                RequestView::StreamStatus { token: t, user_id: c.user_id->0 },
            )
            &&& (!refresh_due(now, e) && c.user_id is None) ==> (sp2.request matches Some(
                RequestView::UserInfo { token, .. },
            ) && token == t)
        }),
{
}

/// How far a monitor poll has come.
pub open spec fn monitor_rank(ph: MonitorPhase) -> nat {
    match ph {
        MonitorPhase::Start => 0,
        MonitorPhase::AwaitPlaceholder => 1,
        MonitorPhase::AwaitClock => 1,
        MonitorPhase::AwaitRefresh => 2,
        MonitorPhase::AwaitUser => 3,
        MonitorPhase::AwaitStatus => 4,
        MonitorPhase::AwaitImage => 5,
        MonitorPhase::Done => 6,
    }
}

/// A monitor poll always finishes: each step of an unfinished poll moves it
/// further, and a step asks for outside work exactly when the poll is not
/// finished.
pub proof fn lemma_monitor_step_progresses(s: PluginView, p: MonitorView, r: Option<ReplyView>)
    ensures
        p.phase != MonitorPhase::Done ==> monitor_rank(monitor_step_spec(s, p, r).poll.phase)
            > monitor_rank(p.phase),
        monitor_step_spec(s, p, r).request is Some <==> monitor_step_spec(s, p, r).poll.phase
            != MonitorPhase::Done,
{
}

/// A monitor poll touches nothing but its own key: the stored settings, the
/// devices, which keys are shown and every other key's state stay as they
/// were.
pub proof fn lemma_monitor_step_local(
    s: PluginView,
    p: MonitorView,
    r: Option<ReplyView>,
    other: Seq<char>,
)
    requires
        s.wf(),
        other != p.context,
    ensures
        ({
            let t = monitor_step_spec(s, p, r).state;
            &&& t.wf()
            &&& t.uuid == s.uuid
            &&& t.global == s.global
            &&& t.devices == s.devices
            &&& ctx_keys(t.contexts) == ctx_keys(s.contexts)
            &&& lookup(t.contexts, other) == lookup(s.contexts, other)
        }),
{
    match lookup(s.contexts, p.context) {
        Some(c) => {
            match r {
                Some(ReplyView::User(Ok(u))) => {
                    lemma_lookup_set(
                        s.contexts,
                        p.context,
                        ContextStateView {
                            user_id: Some(u.id),
                            avatar_url: Some(u.profile_image_url),
                            display_name: Some(u.display_name),
                            ..c
                        },
                        other,
                    );
                },
                _ => {},
            }
            lemma_lookup_set(
                s.contexts,
                p.context,
                ContextStateView {
                    is_live: Some(p.is_live),
                    viewer_count: p.viewer_count,
                    has_image: true,
                    ..c
                },
                other,
            );
        },
        None => {},
    }
}

/// How far a follows poll has come.
pub open spec fn follows_rank(ph: FollowsPhase) -> nat {
    match ph {
        FollowsPhase::Start => 0,
        FollowsPhase::AwaitPlaceholder => 1,
        FollowsPhase::AwaitUser => 1,
        FollowsPhase::AwaitClock => 2,
        FollowsPhase::AwaitRefresh => 3,
        FollowsPhase::AwaitCount => 4,
        FollowsPhase::AwaitImage => 5,
        FollowsPhase::AwaitRetryRefresh => 5,
        FollowsPhase::AwaitRetryCount => 6,
        FollowsPhase::AwaitRetryImage => 7,
        FollowsPhase::Done => 8,
    }
}

/// A follows poll of a signed-in key with a stored expiry first asks for
/// the clock; where the token expires within five minutes of the time it
/// gets back, it next asks for a refresh, and otherwise for the count.
pub proof fn lemma_follows_refreshes_when_due(s: PluginView, p: FollowsView, now: u64)
    requires
        p.phase == FollowsPhase::Start,
        s.global.access_token is Some,
        s.global.authed_user_id is Some,
        s.global.token_expiry is Some,
    ensures
        ({
            let e = s.global.token_expiry->0;
            let sp = follows_step_spec(s, p, None);
            let sp2 = follows_step_spec(sp.state, sp.poll, Some(ReplyView::Now(now)));
            &&& sp.request == Some(RequestView::Clock)
            &&& sp.poll.expiry == e
            &&& refresh_due(now, e) ==> sp2.request == Some(RequestView::RefreshToken)
            &&& !refresh_due(now, e) ==> sp2.request == Some(
                RequestView::FollowedLiveCount {
                    token: s.global.access_token->0,
                    user_id: s.global.authed_user_id->0,
                },
            )
        }),
{
}

/// A follows poll always finishes: each step of an unfinished poll moves it
/// further, and a step asks for outside work exactly when the poll is not
/// finished.
pub proof fn lemma_follows_step_progresses(s: PluginView, p: FollowsView, r: Option<ReplyView>)
    ensures
        p.phase != FollowsPhase::Done ==> follows_rank(follows_step_spec(s, p, r).poll.phase)
            > follows_rank(p.phase),
        follows_step_spec(s, p, r).request is Some <==> follows_step_spec(s, p, r).poll.phase
            != FollowsPhase::Done,
{
}

/// A follows poll changes no other key and shows no other keys; it keeps
/// the stored access token or, when the session is refused, signs out.
pub proof fn lemma_follows_step_local(
    s: PluginView,
    p: FollowsView,
    r: Option<ReplyView>,
    other: Seq<char>,
)
    requires
        s.wf(),
        other != p.context,
    ensures
        ({
            let t = follows_step_spec(s, p, r).state;
            &&& t.wf()
            &&& t.uuid == s.uuid
            &&& t.devices == s.devices
            &&& ctx_keys(t.contexts) == ctx_keys(s.contexts)
            &&& lookup(t.contexts, other) == lookup(s.contexts, other)
            &&& (t.global.access_token == s.global.access_token || t.global == empty_global())
        }),
{
    match lookup(s.contexts, p.context) {
        Some(c) => {
            match r {
                Some(ReplyView::Count(Ok(n))) => {
                    lemma_lookup_set(
                        s.contexts,
                        p.context,
                        ContextStateView { follows_count: Some(n), ..c },
                        other,
                    );
                },
                _ => {},
            }
        },
        None => {},
    }
}

/// How far a recovery has come.
pub open spec fn expired_rank(ph: ExpiredPhase) -> nat {
    match ph {
        ExpiredPhase::Start => 0,
        ExpiredPhase::AwaitRefresh => 1,
        ExpiredPhase::AwaitPlaceholder => 2,
        ExpiredPhase::Done => 3,
    }
}

/// A recovery always finishes, asks for work exactly while unfinished,
/// changes no key, and either keeps the stored settings or signs out.
pub proof fn lemma_expired_step_progresses(s: PluginView, p: ExpiredView, r: Option<ReplyView>)
    ensures
        ({
            let sp = expired_step_spec(s, p, r);
            &&& p.phase != ExpiredPhase::Done ==> expired_rank(sp.poll.phase) > expired_rank(p.phase)
            &&& (sp.request is Some <==> sp.poll.phase != ExpiredPhase::Done)
            &&& sp.state.contexts == s.contexts
            &&& sp.state.devices == s.devices
            &&& (sp.state.global == s.global || sp.state.global == empty_global())
        }),
{
}


/// The alert sound plays only when a poll finds the channel live after it
/// was last seen offline, on a key whose alert is switched on; it is the
/// key's own sound at the key's own volume.
pub proof fn lemma_alert_only_on_going_live(s: PluginView, p: MonitorView, r: Option<ReplyView>, i: int)
    requires
        0 <= i < monitor_step_spec(s, p, r).effects.len(),
        monitor_step_spec(s, p, r).effects[i] is PlaySound,
    ensures
        p.phase == MonitorPhase::AwaitStatus,
        p.prev_live == Some(false),
        r matches Some(ReplyView::Stream(Ok((live, _)))) && live,
        lookup(s.contexts, p.context) matches Some(c) && c.settings.alert_enabled
            && c.settings.alert_sound_data is Some && monitor_step_spec(s, p, r).effects[i] == (
        EffectView::PlaySound {
            data: c.settings.alert_sound_data->0,
            volume: c.settings.alert_volume,
        }),
{
    let effs = monitor_step_spec(s, p, r).effects;
    match p.phase {
        MonitorPhase::AwaitStatus => {
            match r {
                Some(ReplyView::Stream(Ok((live, viewers)))) => {
                    let q = MonitorView { is_live: live, viewer_count: viewers, ..p };
                    let alert = monitor_alert(s, p, live);
                    let fin = monitor_finish(q);
                    if !(live && p.prev_live == Some(false)) {
                        assert(alert =~= Seq::<EffectView>::empty());
                        if !needs_redraw(live, p.prev_live, p.has_image, viewers, p.prev_viewer) {
                            assert(effs =~= fin);
                        }
                    } else if !needs_redraw(live, p.prev_live, p.has_image, viewers, p.prev_viewer) {
                        assert(effs == alert + fin);
                        if i >= alert.len() {
                            assert(effs[i] == fin[i - alert.len()]);
                        }
                        assert(effs[i] == alert[i]);
                    }
                },
                Some(ReplyView::Stream(Err(e))) => {
                    if i >= 1 {
                        assert(effs[i] == (if contains_spec(e, "401"@) {
                            seq![EffectView::HandleAuthExpired(p.context)]
                        } else {
                            Seq::empty()
                        })[i - 1]);
                    }
                },
                _ => {},
            }
        },
        MonitorPhase::AwaitImage => {
            match r {
                Some(ReplyView::Image(img)) => {
                    if i >= 1 {
                        assert(effs[i] == monitor_finish(p)[i - 1]);
                    }
                },
                _ => {},
            }
        },
        MonitorPhase::AwaitPlaceholder => {
            match r {
                Some(ReplyView::Rendered(res)) => {
                    assert(effs == placeholder_effects(p.context, res, p.title));
                },
                _ => {},
            }
        },
        _ => {},
    }
}

} // verus!
