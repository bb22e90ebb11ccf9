//! The live-channel-by-index key: it shows the live followed channel at a
//! given place when the followed live channels are ordered by viewer count
//! (most watched first), and a solid black image when fewer are live.
use vstd::prelude::*;
use crate::messages::{
    emit, emit_send, effects_view, log, log_view, set_image, set_title, Effect, EffectView,
    Outgoing, OutgoingView,
};
use crate::plugin::{lemma_lookup_set, lookup, set_ctx, PluginState, PluginView};
use crate::poll::{
    needs_refresh, opt_reply, opt_request, placeholder_effects, placeholder_effects_exec,
    refresh_due, token_or_empty, token_or_empty_exec, Reply, ReplyView, Request, RequestView,
    Step,
};
use crate::settings::{
    copy_opt, empty_global, merge_spec, opt_str, ContextStateView, GlobalSettings, GlobalSettingsView,
};
use crate::strs::concat2;
use crate::twitch::{streams_view, LiveStream, LiveStreamView};

verus! {

// ── The slot ───────────────────────────────────────────────────────────────

/// Whether stream `j` comes before stream `i` in viewer order: it has more
/// viewers, or as many and is listed earlier.
pub open spec fn ranks_before(s: Seq<LiveStreamView>, j: int, i: int) -> bool {
    s[j].viewer_count > s[i].viewer_count || (s[j].viewer_count == s[i].viewer_count && j < i)
}

/// How many of the first `k` streams come before stream `i`.
pub open spec fn before_count(s: Seq<LiveStreamView>, i: int, k: int) -> nat
    decreases k,
{
    if k <= 0 {
        0
    } else {
        before_count(s, i, k - 1) + if ranks_before(s, k - 1, i) {
            1nat
        } else {
            0nat
        }
    }
}

/// Stream `i`'s place in viewer order, counting from 0.
pub open spec fn viewer_rank(s: Seq<LiveStreamView>, i: int) -> nat {
    before_count(s, i, s.len() as int)
}

/// The first position from `k` on whose place in viewer order is `r`.
pub open spec fn first_with_rank(s: Seq<LiveStreamView>, r: nat, k: int) -> Option<int>
    decreases s.len() - k,
{
    if k < 0 || k >= s.len() {
        None
    } else if viewer_rank(s, k) == r {
        Some(k)
    } else {
        first_with_rank(s, r, k + 1)
    }
}

/// The stream in slot `n` (counting from 1): the one at place `n - 1` in
/// viewer order, if there is one.
pub open spec fn slot_stream(s: Seq<LiveStreamView>, n: u32) -> Option<LiveStreamView> {
    if n == 0 {
        None
    } else {
        match first_with_rank(s, (n - 1) as nat, 0) {
            Some(i) => Some(s[i]),
            None => None,
        }
    }
}

/// The position of the stream in slot `n`.
pub fn pick_slot(streams: &Vec<LiveStream>, n: u32) -> (r: Option<usize>)
    ensures
        match r {
            Some(i) => i < streams@.len() && slot_stream(streams_view(streams@), n) == Some(
                streams_view(streams@)[i as int],
            ),
            None => slot_stream(streams_view(streams@), n) is None,
        },
{
    let ghost s = streams_view(streams@);
    if n == 0 {
        return None;
    }
    let want: u64 = (n - 1) as u64;
    let len = streams.len();
    let mut i: usize = 0;
    while i < len
        invariant
            len == streams@.len(),
            s == streams_view(streams@),
            n > 0,
            want == n - 1,
            i <= len,
            first_with_rank(s, want as nat, 0) == first_with_rank(s, want as nat, i as int),
        decreases len - i,
    {
        let vi = streams[i].viewer_count;
        let mut c: u64 = 0;
        let mut j: usize = 0;
        while j < len
            invariant
                len == streams@.len(),
                s == streams_view(streams@),
                i < len,
                vi == s[i as int].viewer_count,
                j <= len,
                c == before_count(s, i as int, j as int),
                c <= j,
            decreases len - j,
        {
            let vj = streams[j].viewer_count;
            assert(s[j as int].viewer_count == vj);
            if vj > vi || (vj == vi && j < i) {
                c = c + 1;
            }
            j = j + 1;
        }
        if c == want {
            return Some(i);
        }
        i = i + 1;
    }
    None
}

// ── The poll ───────────────────────────────────────────────────────────────

/// Where a live-channel-by-index poll stands.
#[derive(Clone, Copy, Debug, PartialEq, Eq, Structural)]
pub enum IndexPhase {
    Start,
    AwaitPlaceholder,
    AwaitUser,
    AwaitClock,
    AwaitRefresh,
    AwaitList,
    AwaitChannel,
    AwaitImage,
    AwaitBlank,
    Done,
}

/// A live-channel-by-index poll of one key.
pub struct IndexPoll {
    pub context: String,
    pub phase: IndexPhase,
    /// The authenticated user's ID.
    pub uid: String,
    /// The token expiry being checked.
    pub expiry: u64,
    /// The slot shown, counting from 1.
    pub index: u32,
    /// The channel the key showed before this poll.
    pub prev_user_id: Option<String>,
    /// Whether the key had an image before this poll.
    pub had_image: bool,
    /// The stream found in the slot.
    pub found: Option<LiveStream>,
}

/// The view of `IndexPoll`.
pub struct IndexView {
    pub context: Seq<char>,
    pub phase: IndexPhase,
    pub uid: Seq<char>,
    pub expiry: u64,
    pub index: u32,
    pub prev_user_id: Option<Seq<char>>,
    pub had_image: bool,
    pub found: Option<LiveStreamView>,
}

impl View for IndexPoll {
    type V = IndexView;

    open spec fn view(&self) -> IndexView {
        IndexView {
            context: self.context@,
            phase: self.phase,
            uid: self.uid@,
            expiry: self.expiry,
            index: self.index,
            prev_user_id: opt_str(self.prev_user_id),
            had_image: self.had_image,
            found: match self.found {
                Some(x) => Some(x@),
                None => None,
            },
        }
    }
}

impl IndexPoll {
    /// A poll of key `context` that has not started.
    pub fn new(context: String) -> (r: IndexPoll)
        ensures
            r@.context == context@,
            r@.phase == IndexPhase::Start,
    {
        IndexPoll {
            context,
            phase: IndexPhase::Start,
            uid: String::new(),
            expiry: 0,
            index: 0,
            prev_user_id: None,
            had_image: false,
            found: None,
        }
    }
}

/// The poll, finished.
pub open spec fn i_done(p: IndexView) -> IndexView {
    IndexView { phase: IndexPhase::Done, ..p }
}

/// Ask for the followed live streams with the current token.
pub open spec fn index_fetch(s: PluginView, p: IndexView, effects: Seq<EffectView>) -> Step<
    IndexView,
> {
    Step {
        state: s,
        poll: IndexView { phase: IndexPhase::AwaitList, ..p },
        effects,
        request: Some(RequestView::LiveStreams { token: token_or_empty(s.global), user_id: p.uid }),
    }
}

/// Check the token's expiry (if one is stored) before asking for the list.
pub open spec fn index_check(s: PluginView, p: IndexView, effects: Seq<EffectView>) -> Step<
    IndexView,
> {
    match s.global.token_expiry {
        Some(e) => Step {
            state: s,
            poll: IndexView { phase: IndexPhase::AwaitClock, expiry: e, ..p },
            effects,
            request: Some(RequestView::Clock),
        },
        None => index_fetch(s, p, effects),
    }
}

/// Key `context`'s state set by `f`, where the key is still shown.
pub open spec fn update_key(
    s: PluginView,
    context: Seq<char>,
    f: spec_fn(ContextStateView) -> ContextStateView,
) -> PluginView {
    PluginView {
        contexts: match lookup(s.contexts, context) {
            Some(c) => set_ctx(s.contexts, context, f(c)),
            None => s.contexts,
        },
        ..s
    }
}

/// A key state showing `found` (or, with none, an empty slot).
pub open spec fn show_channel(
    found: Option<LiveStreamView>,
    avatar: Option<Seq<char>>,
) -> spec_fn(ContextStateView) -> ContextStateView {
    |c: ContextStateView|
        match found {
            Some(x) => ContextStateView {
                user_id: Some(x.user_id),
                channel_login: Some(x.user_login),
                display_name: Some(x.user_name),
                avatar_url: avatar,
                is_live: Some(true),
                viewer_count: Some(x.viewer_count),
                ..c
            },
            None => ContextStateView {
                user_id: None,
                channel_login: None,
                display_name: None,
                avatar_url: None,
                is_live: Some(false),
                viewer_count: None,
                ..c
            },
        }
}

/// A key state whose image has been drawn.
pub open spec fn drawn() -> spec_fn(ContextStateView) -> ContextStateView {
    |c: ContextStateView| ContextStateView { has_image: true, ..c }
}

/// The alert for a channel that newly took the slot of a key that already
/// showed something, where the key has alerts on and a sound.
pub open spec fn index_alert(s: PluginView, p: IndexView, x: LiveStreamView) -> Seq<EffectView> {
    if p.had_image && p.prev_user_id != Some(x.user_id) {
        match lookup(s.contexts, p.context) {
            Some(c) => match c.settings.alert_sound_data {
                Some(d) => if c.settings.alert_enabled {
                    seq![EffectView::PlaySound { data: d, volume: c.settings.alert_volume }]
                } else {
                    Seq::empty()
                },
                None => Seq::empty(),
            },
            None => Seq::empty(),
        }
    } else {
        Seq::empty()
    }
}

/// One step of a live-channel-by-index poll.
pub open spec fn index_step_spec(s: PluginView, p: IndexView, r: Option<ReplyView>) -> Step<
    IndexView,
> {
    let stop = Step { state: s, poll: i_done(p), effects: Seq::empty(), request: None };
    match p.phase {
        IndexPhase::Start => match lookup(s.contexts, p.context) {
            None => stop,
            Some(c) => match s.global.access_token {
                None => Step {
                    state: s,
                    poll: IndexView { phase: IndexPhase::AwaitPlaceholder, ..p },
                    effects: Seq::empty(),
                    request: Some(RequestView::Placeholder { is_live: false }),
                },
                Some(t) => {
                    let q = IndexView {
                        index: c.settings.live_index,
                        prev_user_id: c.user_id,
                        had_image: c.has_image,
                        ..p
                    };
                    match s.global.authed_user_id {
                        Some(id) => index_check(s, IndexView { uid: id, ..q }, Seq::empty()),
                        None => Step {
                            state: s,
                            poll: IndexView { phase: IndexPhase::AwaitUser, ..q },
                            effects: Seq::empty(),
                            request: Some(RequestView::UserInfo { token: t, login: None }),
                        },
                    }
                },
            },
        },
        IndexPhase::AwaitPlaceholder => match r {
            Some(ReplyView::Rendered(res)) => Step {
                state: s,
                poll: i_done(p),
                effects: placeholder_effects(p.context, res, "Auth\nRequired"@),
                request: None,
            },
            _ => stop,
        },
        IndexPhase::AwaitUser => match r {
            Some(ReplyView::User(Ok(u))) => {
                let g = merge_spec(
                    s.global,
                    GlobalSettingsView {
                        authed_user_id: Some(u.id),
                        authed_display_name: Some(u.display_name),
                        ..empty_global()
                    },
                );
                let s2 = PluginView { global: g, ..s };
                index_check(
                    s2,
                    IndexView { uid: u.id, ..p },
                    seq![
                        EffectView::Send(
                            OutgoingView::SetGlobalSettings { context: s.uuid, settings: g },
                        ),
                    ],
                )
            },
            Some(ReplyView::User(Err(e))) => Step {
                state: s,
                poll: i_done(p),
                effects: seq![
                    EffectView::Send(log_view("Could not resolve authed user ID: "@ + e)),
                    EffectView::Send(
                        OutgoingView::SetTitle { context: p.context, title: "Auth\nRequired"@ },
                    ),
                ],
                request: None,
            },
            _ => stop,
        },
        IndexPhase::AwaitClock => match r {
            Some(ReplyView::Now(now)) => if refresh_due(now, p.expiry) {
                Step {
                    state: s,
                    poll: IndexView { phase: IndexPhase::AwaitRefresh, ..p },
                    effects: Seq::empty(),
                    request: Some(RequestView::RefreshToken),
                }
            } else {
                index_fetch(s, p, Seq::empty())
            },
            _ => stop,
        },
        IndexPhase::AwaitRefresh => match r {
            Some(ReplyView::Refreshed(_)) => index_fetch(s, p, Seq::empty()),
            _ => stop,
        },
        IndexPhase::AwaitList => match r {
            Some(ReplyView::Live(Ok(list))) => match slot_stream(list, p.index) {
                Some(x) => Step {
                    state: s,
                    poll: IndexView { phase: IndexPhase::AwaitChannel, found: Some(x), ..p },
                    effects: Seq::empty(),
                    request: Some(
                        RequestView::UserInfo {
                            token: token_or_empty(s.global),
                            login: Some(x.user_login),
                        },
                    ),
                },
                None => Step {
                    state: update_key(s, p.context, show_channel(None, None)),
                    poll: IndexView { phase: IndexPhase::AwaitBlank, found: None, ..p },
                    effects: Seq::empty(),
                    request: Some(RequestView::BlankKey),
                },
            },
            Some(ReplyView::Live(Err(e))) => Step {
                state: s,
                poll: i_done(p),
                effects: seq![
                    EffectView::Send(log_view("Live index poll error: "@ + e)),
                    EffectView::Send(OutgoingView::SetTitle { context: p.context, title: "Error"@ }),
                ],
                request: None,
            },
            _ => stop,
        },
        IndexPhase::AwaitChannel => match (r, p.found) {
            (Some(ReplyView::User(res)), Some(x)) => {
                let avatar = match res {
                    Ok(u) => Some(u.profile_image_url),
                    Err(_) => None,
                };
                Step {
                    state: update_key(s, p.context, show_channel(Some(x), avatar)),
                    poll: IndexView { phase: IndexPhase::AwaitImage, ..p },
                    effects: index_alert(s, p, x),
                    request: Some(
                        RequestView::RenderKey {
                            avatar_url: avatar,
                            is_live: true,
                            viewer_count: Some(x.viewer_count),
                        },
                    ),
                }
            },
            _ => stop,
        },
        IndexPhase::AwaitImage => match r {
            Some(ReplyView::Image(img)) => Step {
                state: update_key(s, p.context, drawn()),
                poll: i_done(p),
                effects: seq![
                    EffectView::Send(OutgoingView::SetImage { context: p.context, image: img }),
                    EffectView::Send(OutgoingView::SetTitle { context: p.context, title: Seq::empty() }),
                ],
                request: None,
            },
            _ => stop,
        },
        IndexPhase::AwaitBlank => match r {
            Some(ReplyView::Rendered(res)) => Step {
                state: update_key(s, p.context, drawn()),
                poll: i_done(p),
                effects: placeholder_effects(p.context, res, Seq::empty()),
                request: None,
            },
            _ => stop,
        },
        IndexPhase::Done => stop,
    }
}

/// What an executable step returns matches the spec.
pub open spec fn index_matches(
    sp: Step<IndexView>,
    p: IndexView,
    effects: Seq<EffectView>,
    request: Option<RequestView>,
) -> bool {
    sp.poll == p && sp.effects == effects && sp.request == request
}


/// The view of an optional stream.
pub open spec fn opt_stream(o: Option<LiveStream>) -> Option<LiveStreamView> {
    match o {
        Some(x) => Some(x@),
        None => None,
    }
}

fn copy_stream(x: &LiveStream) -> (r: LiveStream)
    ensures
        r@ == x@,
{
    LiveStream {
        user_id: x.user_id.clone(),
        user_login: x.user_login.clone(),
        user_name: x.user_name.clone(),
        viewer_count: x.viewer_count,
    }
}

/// Shows `found` (or an empty slot) in key `context`'s state, where the key
/// is still shown.
fn record_channel(st: &mut PluginState, context: &str, found: &Option<LiveStream>, avatar: &Option<String>)
    requires
        old(st)@.wf(),
    ensures
        final(st)@.wf(),
        final(st)@ == update_key(old(st)@, context@, show_channel(opt_stream(*found), opt_str(*avatar))),
{
    match st.find(context) {
        Some(i) => {
            let mut c = st.contexts[i].1.duplicate();
            match found {
                Some(x) => {
                    c.user_id = Some(x.user_id.clone());
                    c.channel_login = Some(x.user_login.clone());
                    c.display_name = Some(x.user_name.clone());
                    c.avatar_url = copy_opt(avatar);
                    c.is_live = Some(true);
                    c.viewer_count = Some(x.viewer_count);
                },
                None => {
                    c.user_id = None;
                    c.channel_login = None;
                    c.display_name = None;
                    c.avatar_url = None;
                    c.is_live = Some(false);
                    c.viewer_count = None;
                },
            }
            st.replace_at(i, c);
        },
        None => {},
    }
}

/// Marks key `context`'s image as drawn, where the key is still shown.
fn record_drawn(st: &mut PluginState, context: &str)
    requires
        old(st)@.wf(),
    ensures
        final(st)@.wf(),
        final(st)@ == update_key(old(st)@, context@, drawn()),
{
    match st.find(context) {
        Some(i) => {
            let mut c = st.contexts[i].1.duplicate();
            c.has_image = true;
            st.replace_at(i, c);
        },
        None => {},
    }
}

fn index_fetch_exec(st: &PluginState, p: &mut IndexPoll, effects: Vec<Effect>) -> (r: (
    Vec<Effect>,
    Option<Request>,
))
    ensures
        index_matches(
            index_fetch(st@, old(p)@, effects_view(effects@)),
            final(p)@,
            effects_view(r.0@),
            opt_request(r.1),
        ),
{
    p.phase = IndexPhase::AwaitList;
    let req = Request::LiveStreams {
        token: token_or_empty_exec(&st.global_settings),
        user_id: p.uid.clone(),
    };
    (effects, Some(req))
}

fn index_check_exec(st: &PluginState, p: &mut IndexPoll, effects: Vec<Effect>) -> (r: (
    Vec<Effect>,
    Option<Request>,
))
    ensures
        index_matches(
            index_check(st@, old(p)@, effects_view(effects@)),
            final(p)@,
            effects_view(r.0@),
            opt_request(r.1),
        ),
        index_check(st@, old(p)@, effects_view(effects@)).state == st@,
{
    match st.global_settings.token_expiry {
        Some(e) => {
            p.expiry = e;
            p.phase = IndexPhase::AwaitClock;
            (effects, Some(Request::Clock))
        },
        None => index_fetch_exec(st, p, effects),
    }
}

fn index_alert_exec(st: &PluginState, p: &IndexPoll, x: &LiveStream) -> (out: Vec<Effect>)
    requires
        st@.wf(),
    ensures
        effects_view(out@) == index_alert(st@, p@, x@),
{
    let mut out: Vec<Effect> = Vec::new();
    let same = match &p.prev_user_id {
        Some(u) => crate::strs::str_eq(u.as_str(), x.user_id.as_str()),
        None => false,
    };
    if p.had_image && !same {
        match st.find(p.context.as_str()) {
            Some(i) => {
                let c = &st.contexts[i].1;
                match &c.settings.alert_sound_data {
                    Some(d) => {
                        if c.settings.alert_enabled {
                            emit(
                                &mut out,
                                Effect::PlaySound { data: d.clone(), volume: c.settings.alert_volume },
                            );
                        }
                    },
                    None => {},
                }
            },
            None => {},
        }
    }
    assert(effects_view(out@) =~= index_alert(st@, p@, x@));
    out
}

/// One step of a live-channel-by-index poll: given the answer to the
/// previous request (none at the start), updates the shared state and the
/// poll, and returns the effects to carry out and the next request, if any.
#[verifier::rlimit(60)]
pub fn index_step(st: &mut PluginState, p: &mut IndexPoll, r: Option<Reply>) -> (out: (
    Vec<Effect>,
    Option<Request>,
))
    requires
        old(st)@.wf(),
    ensures
        final(st)@.wf(),
        ({
            let sp = index_step_spec(old(st)@, old(p)@, opt_reply(r));
            &&& final(st)@ == sp.state
            &&& index_matches(sp, final(p)@, effects_view(out.0@), opt_request(out.1))
        }),
{
    let empty: Vec<Effect> = Vec::new();
    assert(effects_view(empty@) =~= Seq::<EffectView>::empty());
    match p.phase {
        IndexPhase::Start => {
            let i = match st.find(p.context.as_str()) {
                Some(i) => i,
                None => {
                    p.phase = IndexPhase::Done;
                    return (empty, None);
                },
            };
            assert(lookup(st@.contexts, p.context@) == Some(st.contexts@[i as int].1@));
            match &st.global_settings.access_token {
                None => {
                    p.phase = IndexPhase::AwaitPlaceholder;
                    (empty, Some(Request::Placeholder { is_live: false }))
                },
                Some(t) => {
                    let c = &st.contexts[i].1;
                    p.index = c.settings.live_index;
                    p.prev_user_id = copy_opt(&c.user_id);
                    p.had_image = c.has_image;
                    match &st.global_settings.authed_user_id {
                        Some(id) => {
                            p.uid = id.clone();
                            index_check_exec(st, p, empty)
                        },
                        None => {
                            p.phase = IndexPhase::AwaitUser;
                            (empty, Some(Request::UserInfo { token: t.clone(), login: None }))
                        },
                    }
                },
            }
        },
        IndexPhase::AwaitPlaceholder => match r {
            Some(Reply::Rendered(res)) => {
                let out = placeholder_effects_exec(p.context.as_str(), &res, "Auth\nRequired");
                p.phase = IndexPhase::Done;
                (out, None)
            },
            _ => {
                p.phase = IndexPhase::Done;
                (empty, None)
            },
        },
        IndexPhase::AwaitUser => match r {
            Some(Reply::User(Ok(u))) => {
                let fields = GlobalSettings {
                    access_token: None,
                    refresh_token: None,
                    token_expiry: None,
                    authed_display_name: Some(u.display_name.clone()),
                    authed_avatar_url: None,
                    authed_user_id: Some(u.id.clone()),
                };
                let o = st.save_global_auth(fields);
                let mut eff: Vec<Effect> = Vec::new();
                emit_send(&mut eff, o);
                p.uid = u.id;
                index_check_exec(st, p, eff)
            },
            Some(Reply::User(Err(e))) => {
                let mut eff: Vec<Effect> = Vec::new();
                let text = concat2("Could not resolve authed user ID: ", e.as_str());
                emit_send(&mut eff, log(text.as_str()));
                emit_send(&mut eff, set_title(p.context.as_str(), "Auth\nRequired"));
                p.phase = IndexPhase::Done;
                assert(effects_view(eff@) =~= index_step_spec(old(st)@, old(p)@, opt_reply(r)).effects);
                (eff, None)
            },
            _ => {
                p.phase = IndexPhase::Done;
                (empty, None)
            },
        },
        IndexPhase::AwaitClock => match r {
            Some(Reply::Now(now)) => {
                if needs_refresh(now, p.expiry) {
                    p.phase = IndexPhase::AwaitRefresh;
                    (empty, Some(Request::RefreshToken))
                } else {
                    index_fetch_exec(st, p, empty)
                }
            },
            _ => {
                p.phase = IndexPhase::Done;
                (empty, None)
            },
        },
        IndexPhase::AwaitRefresh => match r {
            Some(Reply::Refreshed(_)) => index_fetch_exec(st, p, empty),
            _ => {
                p.phase = IndexPhase::Done;
                (empty, None)
            },
        },
        IndexPhase::AwaitList => match r {
            Some(Reply::Live(Ok(list))) => {
                match pick_slot(&list, p.index) {
                    Some(k) => {
                        let x = copy_stream(&list[k]);
                        let login = x.user_login.clone();
                        p.found = Some(x);
                        p.phase = IndexPhase::AwaitChannel;
                        let req = Request::UserInfo {
                            token: token_or_empty_exec(&st.global_settings),
                            login: Some(login),
                        };
                        (empty, Some(req))
                    },
                    None => {
                        record_channel(st, p.context.as_str(), &None, &None);
                        p.found = None;
                        p.phase = IndexPhase::AwaitBlank;
                        (empty, Some(Request::BlankKey))
                    },
                }
            },
            Some(Reply::Live(Err(e))) => {
                let mut eff: Vec<Effect> = Vec::new();
                let text = concat2("Live index poll error: ", e.as_str());
                emit_send(&mut eff, log(text.as_str()));
                emit_send(&mut eff, set_title(p.context.as_str(), "Error"));
                p.phase = IndexPhase::Done;
                assert(effects_view(eff@) =~= index_step_spec(old(st)@, old(p)@, opt_reply(r)).effects);
                (eff, None)
            },
            _ => {
                p.phase = IndexPhase::Done;
                (empty, None)
            },
        },
        IndexPhase::AwaitChannel => {
            let x = match &p.found {
                Some(x) => copy_stream(x),
                None => {
                    p.phase = IndexPhase::Done;
                    return (empty, None);
                },
            };
            match r {
                Some(Reply::User(res)) => {
                    let avatar = match res {
                        Ok(u) => Some(u.profile_image_url),
                        Err(_) => None,
                    };
                    let eff = index_alert_exec(st, p, &x);
                    let vc = x.viewer_count;
                    record_channel(st, p.context.as_str(), &Some(x), &avatar);
                    p.phase = IndexPhase::AwaitImage;
                    (eff, Some(Request::RenderKey { avatar_url: avatar, is_live: true, viewer_count: Some(vc) }))
                },
                _ => {
                    p.phase = IndexPhase::Done;
                    (empty, None)
                },
            }
        },
        IndexPhase::AwaitImage => match r {
            Some(Reply::Image(img)) => {
                record_drawn(st, p.context.as_str());
                let mut eff: Vec<Effect> = Vec::new();
                proof {
                    reveal_strlit("");
                    assert(""@ =~= Seq::<char>::empty());
                }
                emit_send(&mut eff, set_image(p.context.as_str(), img.as_str()));
                emit_send(&mut eff, set_title(p.context.as_str(), ""));
                p.phase = IndexPhase::Done;
                assert(effects_view(eff@) =~= index_step_spec(old(st)@, old(p)@, opt_reply(r)).effects);
                (eff, None)
            },
            _ => {
                p.phase = IndexPhase::Done;
                (empty, None)
            },
        },
        IndexPhase::AwaitBlank => match r {
            Some(Reply::Rendered(res)) => {
                record_drawn(st, p.context.as_str());
                proof {
                    reveal_strlit("");
                    assert(""@ =~= Seq::<char>::empty());
                }
                let out = placeholder_effects_exec(p.context.as_str(), &res, "");
                p.phase = IndexPhase::Done;
                (out, None)
            },
            _ => {
                p.phase = IndexPhase::Done;
                (empty, None)
            },
        },
        IndexPhase::Done => (empty, None),
    }
}


// ── Laws ───────────────────────────────────────────────────────────────────

/// Stream `i` is not counted before itself, so at most `k - 1` of the first
/// `k` streams come before a stream among them.
proof fn lemma_before_count_bound(s: Seq<LiveStreamView>, i: int, k: int)
    requires
        0 <= k <= s.len(),
    ensures
        before_count(s, i, k) <= k,
        0 <= i < k ==> before_count(s, i, k) < k,
    decreases k,
{
    if k > 0 {
        lemma_before_count_bound(s, i, k - 1);
    }
}

/// No first match at or after position `k` for a rank that no stream has.
proof fn lemma_no_rank(s: Seq<LiveStreamView>, r: nat, k: int)
    requires
        r >= s.len(),
        k >= 0,
    ensures
        first_with_rank(s, r, k) is None,
    decreases s.len() - k,
{
    if k < s.len() {
        lemma_before_count_bound(s, k, s.len() as int);
        lemma_no_rank(s, r, k + 1);
    }
}

/// A slot past the number of live followed channels (or slot 0) is empty,
/// so the key shows the black image.
pub proof fn lemma_slot_past_the_end_is_empty(s: Seq<LiveStreamView>, n: u32)
    requires
        n == 0 || n > s.len(),
    ensures
        slot_stream(s, n) is None,
{
    if n > 0 {
        lemma_no_rank(s, (n - 1) as nat, 0);
    }
}

/// How far a live-channel-by-index poll has come.
pub open spec fn index_rank(ph: IndexPhase) -> nat {
    match ph {
        IndexPhase::Start => 0,
        IndexPhase::AwaitPlaceholder => 1,
        IndexPhase::AwaitUser => 1,
        IndexPhase::AwaitClock => 2,
        IndexPhase::AwaitRefresh => 3,
        IndexPhase::AwaitList => 4,
        IndexPhase::AwaitChannel => 5,
        IndexPhase::AwaitBlank => 5,
        IndexPhase::AwaitImage => 6,
        IndexPhase::Done => 7,
    }
}

/// A live-channel-by-index poll always finishes: each step of an unfinished
/// poll moves it further, and a step asks for outside work exactly when the
/// poll is not finished.
pub proof fn lemma_index_step_progresses(s: PluginView, p: IndexView, r: Option<ReplyView>)
    ensures
        p.phase != IndexPhase::Done ==> index_rank(index_step_spec(s, p, r).poll.phase)
            > index_rank(p.phase),
        index_step_spec(s, p, r).request is Some <==> index_step_spec(s, p, r).poll.phase
            != IndexPhase::Done,
{
}

/// A live-channel-by-index poll changes no other key and shows no other
/// keys, and never changes the stored access token.
pub proof fn lemma_index_step_local(s: PluginView, p: IndexView, r: Option<ReplyView>, other: Seq<char>)
    requires
        s.wf(),
        other != p.context,
    ensures
        ({
            let t = index_step_spec(s, p, r).state;
            &&& t.wf()
            &&& t.uuid == s.uuid
            &&& t.devices == s.devices
            &&& crate::plugin::ctx_keys(t.contexts) == crate::plugin::ctx_keys(s.contexts)
            &&& lookup(t.contexts, other) == lookup(s.contexts, other)
            &&& t.global.access_token == s.global.access_token
        }),
{
    match lookup(s.contexts, p.context) {
        Some(c) => {
            lemma_lookup_set(s.contexts, p.context, show_channel(None, None)(c), other);
            lemma_lookup_set(s.contexts, p.context, drawn()(c), other);
            match (r, p.found) {
                (Some(ReplyView::User(res)), Some(x)) => {
                    let avatar = match res {
                        Ok(u) => Some(u.profile_image_url),
                        Err(_) => None,
                    };
                    lemma_lookup_set(s.contexts, p.context, show_channel(Some(x), avatar)(c), other);
                },
                _ => {},
            }
        },
        None => {},
    }
}


/// A poll reads the key it starts on: its slot, the channel it shows and
/// whether it has an image yet.
pub proof fn lemma_index_start_reads_key(s: PluginView, p: IndexView)
    requires
        p.phase == IndexPhase::Start,
        lookup(s.contexts, p.context) is Some,
        s.global.access_token is Some,
    ensures
        ({
            let c = lookup(s.contexts, p.context)->0;
            let q = index_step_spec(s, p, None).poll;
            &&& q.index == c.settings.live_index
            &&& q.prev_user_id == c.user_id
            &&& q.had_image == c.has_image
        }),
{
}

/// The alert sound plays only when the user's channel in the slot differs
/// from the one the key already showed with an image, on a key whose alert
/// is switched on; it is the key's own sound at the key's own volume. A key
/// drawn for the first time never plays it.
pub proof fn lemma_index_alert_only_for_new_channel(
    s: PluginView,
    p: IndexView,
    r: Option<ReplyView>,
    i: int,
)
    requires
        0 <= i < index_step_spec(s, p, r).effects.len(),
        index_step_spec(s, p, r).effects[i] is PlaySound,
    ensures
        p.phase == IndexPhase::AwaitChannel,
        p.had_image,
        p.found matches Some(x) && p.prev_user_id != Some(x.user_id),
        lookup(s.contexts, p.context) matches Some(c) && c.settings.alert_enabled
            && c.settings.alert_sound_data is Some && index_step_spec(s, p, r).effects[i] == (
        EffectView::PlaySound {
            data: c.settings.alert_sound_data->0,
            volume: c.settings.alert_volume,
        }),
{
    let effs = index_step_spec(s, p, r).effects;
    match p.phase {
        IndexPhase::AwaitPlaceholder => {
            match r {
                Some(ReplyView::Rendered(res)) => {
                    assert(effs == placeholder_effects(p.context, res, "Auth\nRequired"@));
                },
                _ => {},
            }
        },
        IndexPhase::AwaitBlank => {
            match r {
                Some(ReplyView::Rendered(res)) => {
                    assert(effs == placeholder_effects(p.context, res, Seq::empty()));
                },
                _ => {},
            }
        },
        _ => {},
    }
}

/// A key that already showed a channel, whose alert is on and has a sound,
/// plays that sound when another channel takes its slot.
pub proof fn lemma_index_alert_for_new_channel(
    s: PluginView,
    p: IndexView,
    u: Result<crate::twitch::TwitchUserView, Seq<char>>,
    x: LiveStreamView,
)
    requires
        p.phase == IndexPhase::AwaitChannel,
        p.found == Some(x),
        p.had_image,
        p.prev_user_id != Some(x.user_id),
        lookup(s.contexts, p.context) matches Some(c) && c.settings.alert_enabled
            && c.settings.alert_sound_data is Some,
    ensures
        ({
            let c = lookup(s.contexts, p.context)->0;
            index_step_spec(s, p, Some(ReplyView::User(u))).effects == seq![
                EffectView::PlaySound {
                    data: c.settings.alert_sound_data->0,
                    volume: c.settings.alert_volume,
                },
            ]
        }),
{
}

/// The followed live streams are asked for only once the token's expiry
/// has been checked: after the clock showed that no refresh is due, after
/// a refresh, or where no expiry is stored.
pub proof fn lemma_index_list_after_expiry_check(s: PluginView, p: IndexView, r: Option<ReplyView>)
    requires
        index_step_spec(s, p, r).request matches Some(RequestView::LiveStreams { .. }),
    ensures
        ({
            ||| (r matches Some(ReplyView::Now(now)) && p.phase == IndexPhase::AwaitClock
                && !refresh_due(now, p.expiry))
            ||| (r matches Some(ReplyView::Refreshed(_)) && p.phase == IndexPhase::AwaitRefresh)
            ||| ((p.phase == IndexPhase::Start || p.phase == IndexPhase::AwaitUser)
                && s.global.token_expiry is None)
        }),
{
}

/// A poll of a signed-in key with a stored expiry first asks for the clock;
/// where the token expires within five minutes of the time it gets back, it
/// next asks for a refresh, and otherwise for the followed live streams.
pub proof fn lemma_index_refreshes_when_due(s: PluginView, p: IndexView, now: u64)
    requires
        p.phase == IndexPhase::Start,
        lookup(s.contexts, p.context) is Some,
        s.global.access_token is Some,
        s.global.authed_user_id is Some,
        s.global.token_expiry is Some,
    ensures
        ({
            let sp = index_step_spec(s, p, None);
            let sp2 = index_step_spec(sp.state, sp.poll, Some(ReplyView::Now(now)));
            &&& sp.request == Some(RequestView::Clock)
            &&& sp.poll.expiry == s.global.token_expiry->0
            &&& refresh_due(now, s.global.token_expiry->0) ==> sp2.request == Some(
                RequestView::RefreshToken,
            )
            &&& !refresh_due(now, s.global.token_expiry->0) ==> sp2.request == Some(
                RequestView::LiveStreams {
                    token: s.global.access_token->0,
                    user_id: s.global.authed_user_id->0,
                },
            )
        }),
{
}

/// Once the user's ID has been looked up, a poll with a stored expiry asks
/// for the clock before anything else.
pub proof fn lemma_index_checks_clock_after_user(
    s: PluginView,
    p: IndexView,
    u: crate::twitch::TwitchUserView,
)
    requires
        p.phase == IndexPhase::AwaitUser,
        s.global.token_expiry is Some,
    ensures
        index_step_spec(s, p, Some(ReplyView::User(Ok(u)))).request == Some(RequestView::Clock),
        index_step_spec(s, p, Some(ReplyView::User(Ok(u)))).poll.expiry == s.global.token_expiry->0,
{
}

/// A stream that comes before another is counted before it at least as
/// often as every stream that comes before the first, plus once for itself.
proof fn lemma_count_mono(s: Seq<LiveStreamView>, i: int, j: int, k: int)
    requires
        0 <= k <= s.len(),
        0 <= i < s.len(),
        0 <= j < s.len(),
        ranks_before(s, j, i),
    ensures
        before_count(s, j, k) + (if j < k {
            1int
        } else {
            0int
        }) <= before_count(s, i, k),
    decreases k,
{
    if k > 0 {
        lemma_count_mono(s, i, j, k - 1);
    }
}

/// Different streams have different places in viewer order.
proof fn lemma_rank_injective(s: Seq<LiveStreamView>, i: int, j: int)
    requires
        0 <= i < s.len(),
        0 <= j < s.len(),
        i != j,
    ensures
        viewer_rank(s, i) != viewer_rank(s, j),
{
    if ranks_before(s, j, i) {
        lemma_count_mono(s, i, j, s.len() as int);
    } else {
        assert(ranks_before(s, i, j));
        lemma_count_mono(s, j, i, s.len() as int);
    }
}

/// The first position from `k` on with place `r` is found wherever some
/// position from `k` on has that place, and it has that place.
proof fn lemma_first_with_rank(s: Seq<LiveStreamView>, r: nat, k: int, w: int)
    requires
        0 <= k <= w < s.len(),
        viewer_rank(s, w) == r,
    ensures
        first_with_rank(s, r, k) matches Some(i) && 0 <= i < s.len() && viewer_rank(s, i) == r,
    decreases w - k,
{
    if viewer_rank(s, k) != r {
        lemma_first_with_rank(s, r, k + 1, w);
    }
}

/// Every slot from 1 to the number of live followed channels holds a
/// channel: the one that exactly `n - 1` others come before in viewer order
/// (more viewers, or as many and listed earlier).
pub proof fn lemma_slot_is_nth(s: Seq<LiveStreamView>, n: u32)
    requires
        1 <= n <= s.len(),
    ensures
        exists|i: int|
            0 <= i < s.len() && viewer_rank(s, i) == n - 1 && slot_stream(s, n) == Some(
                #[trigger] s[i],
            ),
{
    let len = s.len() as int;
    let a = vstd::set_lib::set_int_range(0, len);
    let f = |i: int| viewer_rank(s, i) as int;
    let b = a.map(f);
    vstd::set_lib::lemma_int_range(0, len);
    assert(vstd::relations::injective_on(f, a)) by {
        assert forall|x1: int, x2: int|
            a.contains(x1) && a.contains(x2) && #[trigger] f(x1) == #[trigger] f(x2) implies x1
            == x2 by {
            if x1 != x2 {
                lemma_rank_injective(s, x1, x2);
            }
        }
    }
    vstd::set_lib::lemma_map_size(a, b, f);
    assert(b.subset_of(a)) by {
        assert forall|y: int| b.contains(y) implies a.contains(y) by {
            let x = choose|x: int| a.contains(x) && f(x) == y;
            lemma_before_count_bound(s, x, len);
        }
    }
    vstd::set_lib::lemma_subset_equality(b, a);
    let r = (n - 1) as int;
    assert(a.contains(r));
    assert(b.contains(r));
    let w = choose|x: int| a.contains(x) && f(x) == r;
    lemma_first_with_rank(s, (n - 1) as nat, 0, w);
    let i = first_with_rank(s, (n - 1) as nat, 0)->0;
    assert(slot_stream(s, n) == Some(s[i]));
}

/// The slots go down in viewer count: slot `n` has at least as many
/// viewers as slot `n + 1`, and slot 1 has at least as many as any live
/// followed channel.
pub proof fn lemma_slots_by_viewer_count(s: Seq<LiveStreamView>, n: u32, j: int)
    requires
        1 <= n < u32::MAX,
        n < s.len(),
        0 <= j < s.len(),
    ensures
        slot_stream(s, n)->0.viewer_count >= slot_stream(s, (n + 1) as u32)->0.viewer_count,
        s[j].viewer_count <= slot_stream(s, 1)->0.viewer_count,
{
    let len = s.len() as int;
    lemma_slot_is_nth(s, n);
    lemma_slot_is_nth(s, (n + 1) as u32);
    lemma_slot_is_nth(s, 1);
    let a = choose|i: int|
        0 <= i < s.len() && viewer_rank(s, i) == n - 1 && slot_stream(s, n) == Some(#[trigger] s[i]);
    let b = choose|i: int|
        0 <= i < s.len() && viewer_rank(s, i) == n && slot_stream(s, (n + 1) as u32) == Some(
            #[trigger] s[i],
        );
    let t = choose|i: int|
        0 <= i < s.len() && viewer_rank(s, i) == 0 && slot_stream(s, 1) == Some(#[trigger] s[i]);
    if s[b].viewer_count > s[a].viewer_count {
        lemma_count_mono(s, a, b, len);
    }
    if s[j].viewer_count > s[t].viewer_count {
        lemma_count_mono(s, t, j, len);
    }
}

/// A poll shows the slot's channel: with fewer live followed channels than
/// the slot's number it clears the key's channel and asks for the black
/// image; otherwise it looks up the channel in the slot and, once that is
/// answered, records it on the key and draws it live with its viewer count.
pub proof fn lemma_index_shows_slot(
    s: PluginView,
    p: IndexView,
    list: Seq<LiveStreamView>,
    u: Result<crate::twitch::TwitchUserView, Seq<char>>,
)
    requires
        s.wf(),
        p.phase == IndexPhase::AwaitList,
        lookup(s.contexts, p.context) is Some,
    ensures
        ({
            let sp = index_step_spec(s, p, Some(ReplyView::Live(Ok(list))));
            let sp2 = index_step_spec(sp.state, sp.poll, Some(ReplyView::User(u)));
            let avatar = match u {
                Ok(v) => Some(v.profile_image_url),
                Err(_) => None,
            };
            &&& (p.index == 0 || p.index > list.len()) ==> sp.request == Some(RequestView::BlankKey)
                && (lookup(sp.state.contexts, p.context) matches Some(c) && c.user_id is None
                && c.is_live == Some(false))
            &&& (1 <= p.index <= list.len()) ==> (slot_stream(list, p.index) matches Some(x)
                && sp.request == Some(
                RequestView::UserInfo { token: token_or_empty(s.global), login: Some(x.user_login) },
            ) && sp2.request == Some(
                RequestView::RenderKey {
                    avatar_url: avatar,
                    is_live: true,
                    viewer_count: Some(x.viewer_count),
                },
            ) && (lookup(sp2.state.contexts, p.context) matches Some(c) && c.user_id == Some(
                x.user_id,
            ) && c.is_live == Some(true) && c.viewer_count == Some(x.viewer_count)))
        }),
{
    let c = lookup(s.contexts, p.context)->0;
    if p.index == 0 || p.index > list.len() {
        lemma_slot_past_the_end_is_empty(list, p.index);
        lemma_lookup_set(s.contexts, p.context, show_channel(None, None)(c), p.context);
    } else {
        lemma_slot_is_nth(list, p.index);
        let x = slot_stream(list, p.index)->0;
        let avatar = match u {
            Ok(v) => Some(v.profile_image_url),
            Err(_) => None,
        };
        lemma_lookup_set(s.contexts, p.context, show_channel(Some(x), avatar)(c), p.context);
    }
}

} // verus!
