//! What the plugin does with each event the StreamDock host sends.
use vstd::prelude::*;
use crate::messages::{
    emit, emit_send, effects_view, follows_action, follows_action_str, index_action, log, log_view,
    outgoing_view, plugin_action, plugin_action_str, switcher_uuid, switcher_uuid_str, AuthStatusKind, Effect, EffectView, Outgoing, OutgoingView,
    PiPayload, PiPayloadView,
};
use crate::plugin::{
    broadcast_view, ctx_index, ctx_keys, has_ctx, insert_ctx, lemma_lookup_insert,
    lemma_lookup_insert_other, lemma_lookup_remove, lemma_lookup_set, lookup, poll_all_view,
    remove_ctx, set_ctx, strings_view, PluginState, PluginView,
};
use crate::settings::{
    copy_opt, default_button, empty_global, fresh_context, opt_str, ButtonSettings,
    ButtonSettingsView, ContextState, ContextStateView, ContextType, GlobalSettings,
    GlobalSettingsView,
};
use crate::strs::{concat2, debug_str, owned, push_str, str_debug, str_eq, trim, trim_spec};
use crate::urlenc::{encode, encode_spec};

verus! {

/// One event from the host, with the fields the plugin reads.
pub struct Incoming {
    /// `event`, or empty where it is missing or not a string.
    pub event: String,
    /// `action`, or empty.
    pub action: String,
    /// `context`, or empty.
    pub context: String,
    /// `device`, where it is a string.
    pub device: Option<String>,
    /// `payload.settings` read as key settings (an empty object where it is
    /// missing); `None` where it does not read as key settings.
    pub settings: Option<ButtonSettings>,
    /// `payload.settings` read as global settings; `None` where it does not.
    pub global_settings: Option<GlobalSettings>,
    /// `payload.cmd`, or empty.
    pub cmd: String,
    /// `payload.state`, where it is a string.
    pub state_param: Option<String>,
}

/// The view of `Incoming`.
pub struct IncomingView {
    pub event: Seq<char>,
    pub action: Seq<char>,
    pub context: Seq<char>,
    pub device: Option<Seq<char>>,
    pub settings: Option<ButtonSettingsView>,
    pub global_settings: Option<GlobalSettingsView>,
    pub cmd: Seq<char>,
    pub state_param: Option<Seq<char>>,
}

impl View for Incoming {
    type V = IncomingView;

    open spec fn view(&self) -> IncomingView {
        IncomingView {
            event: self.event@,
            action: self.action@,
            context: self.context@,
            device: opt_str(self.device),
            settings: match self.settings {
                Some(s) => Some(s@),
                None => None,
            },
            global_settings: match self.global_settings {
                Some(g) => Some(g@),
                None => None,
            },
            cmd: self.cmd@,
            state_param: opt_str(self.state_param),
        }
    }
}

/// How a `bool` is written.
pub open spec fn bool_text(b: bool) -> Seq<char> {
    if b {
        "true"@
    } else {
        "false"@
    }
}

/// How `{:?}` writes an optional string.
pub open spec fn opt_debug(o: Option<Seq<char>>) -> Seq<char> {
    match o {
        Some(s) => "Some("@ + str_debug(s) + ")"@,
        None => "None"@,
    }
}

/// Whether an action UUID is one of this plugin's keys.
pub open spec fn is_ours(a: Seq<char>) -> bool {
    a == plugin_action() || a == follows_action() || a == index_action()
}

/// The Twitch page of a channel.
pub open spec fn twitch_url(username: Seq<char>) -> Seq<char> {
    "https://twitch.tv/"@ + encode_spec(username)
}

/// The key settings carried by an event, or the defaults.
pub open spec fn settings_or_default(m: IncomingView) -> ButtonSettingsView {
    match m.settings {
        Some(s) => s,
        None => default_button(),
    }
}

/// A monitor key's state with the looked-up channel and status forgotten.
pub open spec fn forget_channel(st: ContextStateView) -> ContextStateView {
    ContextStateView {
        user_id: None,
        avatar_url: None,
        display_name: None,
        has_image: false,
        is_live: None,
        viewer_count: None,
        ..st
    }
}

// ── The events, one by one ─────────────────────────────────────────────────

/// `deviceDidConnect`: the device is remembered.
pub open spec fn device_connect_spec(s: PluginView, m: IncomingView) -> (PluginView, Seq<EffectView>) {
    match m.device {
        Some(d) => (
            PluginView { devices: s.devices.push(d), ..s },
            seq![EffectView::Send(log_view("deviceDidConnect: "@ + d))],
        ),
        None => (s, Seq::empty()),
    }
}

/// The test for "is not `d`".
pub open spec fn differs_from(d: Seq<char>) -> spec_fn(Seq<char>) -> bool {
    |x: Seq<char>| x != d
}

/// `deviceDidDisconnect`: the device is forgotten.
pub open spec fn device_disconnect_spec(s: PluginView, m: IncomingView) -> (
    PluginView,
    Seq<EffectView>,
) {
    match m.device {
        Some(d) => (
            PluginView { devices: s.devices.filter(differs_from(d)), ..s },
            Seq::empty(),
        ),
        None => (s, Seq::empty()),
    }
}

/// `didReceiveGlobalSettings`: the settings replace the stored ones where
/// they read as global settings, and every key is polled again.
pub open spec fn global_settings_spec(s: PluginView, m: IncomingView) -> (
    PluginView,
    Seq<EffectView>,
) {
    let g = match m.global_settings {
        Some(g) => g,
        None => s.global,
    };
    (
        PluginView { global: g, ..s },
        seq![
            EffectView::Send(
                log_view(
                    "Global settings received — authed="@ + bool_text(g.access_token is Some),
                ),
            ),
        ] + poll_all_view(ctx_keys(s.contexts)),
    )
}

/// `willAppear`: a key of ours is (re)registered with fresh state and its
/// poll loop is started.
pub open spec fn will_appear_spec(s: PluginView, m: IncomingView) -> (PluginView, Seq<EffectView>) {
    let settings = settings_or_default(m);
    if m.action == plugin_action() {
        (
            PluginView {
                contexts: insert_ctx(
                    s.contexts,
                    m.context,
                    fresh_context(ContextType::Monitor, settings, None),
                ),
                ..s
            },
            seq![
                EffectView::Send(log_view("willAppear (monitor): "@ + m.context)),
                EffectView::StartPollLoop { context: m.context, kind: ContextType::Monitor },
            ],
        )
    } else if m.action == follows_action() {
        (
            PluginView {
                contexts: insert_ctx(
                    s.contexts,
                    m.context,
                    fresh_context(ContextType::Follows, settings, m.device),
                ),
                ..s
            },
            seq![
                EffectView::Send(log_view("willAppear (follows): "@ + m.context)),
                EffectView::StartPollLoop { context: m.context, kind: ContextType::Follows },
            ],
        )
    } else if m.action == index_action() {
        (
            PluginView {
                contexts: insert_ctx(
                    s.contexts,
                    m.context,
                    fresh_context(ContextType::LiveIndex, settings, None),
                ),
                ..s
            },
            seq![
                EffectView::Send(log_view("willAppear (live index): "@ + m.context)),
                EffectView::StartPollLoop { context: m.context, kind: ContextType::LiveIndex },
            ],
        )
    } else {
        (s, Seq::empty())
    }
}

/// `willDisappear`: a key of ours is forgotten, which also ends its poll loop.
pub open spec fn will_disappear_spec(s: PluginView, m: IncomingView) -> (
    PluginView,
    Seq<EffectView>,
) {
    if is_ours(m.action) {
        (
            PluginView { contexts: remove_ctx(s.contexts, m.context), ..s },
            seq![EffectView::Send(log_view("willDisappear: "@ + m.context))],
        )
    } else {
        (s, Seq::empty())
    }
}

/// `didReceiveSettings`: the key's settings are replaced (a monitor key
/// whose channel changed forgets what it had looked up) and the key is
/// polled.
pub open spec fn did_receive_settings_spec(s: PluginView, m: IncomingView) -> (
    PluginView,
    Seq<EffectView>,
) {
    if !is_ours(m.action) {
        (s, Seq::empty())
    } else {
        let new_settings = settings_or_default(m);
        let contexts = match lookup(s.contexts, m.context) {
            Some(st) => {
                let reset = st.settings.twitch_username != new_settings.twitch_username && m.action
                    == plugin_action();
                let st2 = if reset {
                    forget_channel(st)
                } else {
                    st
                };
                set_ctx(s.contexts, m.context, ContextStateView { settings: new_settings, ..st2 })
            },
            None => s.contexts,
        };
        (
            PluginView { contexts, ..s },
            seq![
                EffectView::Send(log_view("didReceiveSettings: "@ + m.context)),
                EffectView::PollContext(m.context),
            ],
        )
    }
}

/// The device a follows key switches: its own, else the event's, else the
/// first known device.
pub open spec fn follows_device(s: PluginView, m: IncomingView) -> Option<Seq<char>> {
    let own = match lookup(s.contexts, m.context) {
        Some(st) => st.device,
        None => None,
    };
    if own is Some {
        own
    } else if m.device is Some {
        m.device
    } else if s.devices.len() > 0 {
        Some(s.devices[0])
    } else {
        None
    }
}

/// The profile switch, in both forms that hosts read (the profile inside
/// `payload`, and at the top level), for a connection registered as the
/// profile switcher.
pub open spec fn switch_messages(device: Option<Seq<char>>, profile: Seq<char>) -> Seq<OutgoingView> {
    seq![
        OutgoingView::SwitchToProfile { context: switcher_uuid(), device, profile, nested: true },
        OutgoingView::SwitchToProfile { context: switcher_uuid(), device, profile, nested: false },
    ]
}

/// What pressing a key that shows `username`'s channel does: open it in
/// the browser, or start Streamlink on it when the key is set up so.
pub open spec fn open_channel(settings: ButtonSettingsView, username: Seq<char>) -> Seq<EffectView> {
    if settings.button_action == "streamlink"@ {
        let exe = if settings.streamlink_path.len() == 0 {
            "streamlink"@
        } else {
            settings.streamlink_path
        };
        let url = twitch_url(username);
        seq![
            EffectView::Send(log_view("Launching streamlink: "@ + exe + " "@ + url + " best"@)),
            EffectView::LaunchStreamlink { exe, url },
        ]
    } else {
        seq![EffectView::Send(OutgoingView::OpenUrl { url: twitch_url(username) })]
    }
}

/// `keyDown`: a follows key switches to its target profile over a second,
/// short-lived connection registered as the profile switcher (or shows an
/// alert without a profile); a monitor key opens its channel, and a
/// live-channel-by-index key the channel in its slot, in the browser or in
/// Streamlink.
pub open spec fn key_down_spec(s: PluginView, m: IncomingView) -> Seq<EffectView> {
    if m.action == follows_action() {
        let settings = match m.settings {
            Some(x) => x,
            None => match lookup(s.contexts, m.context) {
                Some(st) => st.settings,
                None => default_button(),
            },
        };
        let profile = trim_spec(settings.target_profile);
        let device = follows_device(s, m);
        if profile.len() > 0 {
            seq![
                EffectView::Send(
                    log_view(
                        "keyDown(follows): profile="@ + str_debug(profile) + " device="@
                            + opt_debug(device),
                    ),
                ),
                EffectView::SideConnection {
                    uuid: switcher_uuid(),
                    messages: switch_messages(device, profile),
                },
                EffectView::Send(OutgoingView::ShowOk { context: m.context }),
            ]
        } else {
            seq![EffectView::Send(OutgoingView::ShowAlert { context: m.context })]
        }
    } else if m.action == plugin_action() {
        match lookup(s.contexts, m.context) {
            None => Seq::empty(),
            Some(st) => {
                let username = st.settings.twitch_username;
                if username.len() == 0 {
                    Seq::empty()
                } else {
                    open_channel(st.settings, username)
                }
            },
        }
    } else if m.action == index_action() {
        match lookup(s.contexts, m.context) {
            Some(st) => match st.channel_login {
                Some(login) => open_channel(st.settings, login),
                None => Seq::empty(),
            },
            None => Seq::empty(),
        }
    } else {
        Seq::empty()
    }
}

/// `sendToPlugin`: the authorisation commands from a property inspector.
/// `clearAuth` forgets the account, polls every key and tells every key.
pub open spec fn send_to_plugin_spec(s: PluginView, m: IncomingView) -> (
    PluginView,
    Seq<EffectView>,
) {
    if !is_ours(m.action) {
        (s, Seq::empty())
    } else if m.cmd == "startAuth"@ {
        match m.state_param {
            Some(p) => (
                s,
                seq![
                    EffectView::Send(
                        log_view(
                            "Auth flow started for context "@ + m.context + ", state="@ + p,
                        ),
                    ),
                ],
            ),
            None => (s, Seq::empty()),
        }
    } else if m.cmd == "cancelAuth"@ {
        (s, seq![EffectView::Send(log_view("Auth cancelled for context "@ + m.context))])
    } else if m.cmd == "clearAuth"@ {
        (
            PluginView { global: empty_global(), ..s },
            seq![
                EffectView::Send(
                    OutgoingView::SetGlobalSettings { context: s.uuid, settings: empty_global() },
                ),
            ] + poll_all_view(ctx_keys(s.contexts)) + broadcast_view(
                ctx_keys(s.contexts),
                PiPayloadView::AuthStatus { kind: AuthStatusKind::Cleared, error: None },
            ),
        )
    } else {
        (s, Seq::empty())
    }
}

/// What the plugin does with one event: the next state and the effects.
pub open spec fn handle_event_spec(s: PluginView, m: IncomingView) -> (PluginView, Seq<EffectView>) {
    if m.event == "deviceDidConnect"@ {
        device_connect_spec(s, m)
    } else if m.event == "deviceDidDisconnect"@ {
        device_disconnect_spec(s, m)
    } else if m.event == "didReceiveGlobalSettings"@ {
        global_settings_spec(s, m)
    } else if m.event == "willAppear"@ {
        will_appear_spec(s, m)
    } else if m.event == "willDisappear"@ {
        will_disappear_spec(s, m)
    } else if m.event == "didReceiveSettings"@ {
        did_receive_settings_spec(s, m)
    } else if m.event == "keyDown"@ {
        (s, key_down_spec(s, m))
    } else if m.event == "sendToPlugin"@ {
        send_to_plugin_spec(s, m)
    } else {
        (s, Seq::empty())
    }
}

// ── The executable handlers ────────────────────────────────────────────────

fn settings_or_default_exec(m: &Incoming) -> (r: ButtonSettings)
    ensures
        r@ == settings_or_default(m@),
{
    match &m.settings {
        Some(x) => x.duplicate(),
        None => ButtonSettings::default(),
    }
}

fn on_device_connect(st: &mut PluginState, m: &Incoming) -> (out: Vec<Effect>)
    requires
        old(st)@.wf(),
    ensures
        (final(st)@, effects_view(out@)) == device_connect_spec(old(st)@, m@),
        final(st)@.wf(),
{
    let mut out: Vec<Effect> = Vec::new();
    match &m.device {
        Some(d) => {
            st.known_devices.push(d.clone());
            let text = concat2("deviceDidConnect: ", d.as_str());
            emit_send(&mut out, log(text.as_str()));
            assert(st@.devices =~= old(st)@.devices.push(d@));
            assert(effects_view(out@) =~= seq![
                EffectView::Send(log_view("deviceDidConnect: "@ + d@)),
            ]);
        },
        None => {
            assert(effects_view(out@) =~= Seq::<EffectView>::empty());
        },
    }
    out
}

fn on_device_disconnect(st: &mut PluginState, m: &Incoming) -> (out: Vec<Effect>)
    requires
        old(st)@.wf(),
    ensures
        (final(st)@, effects_view(out@)) == device_disconnect_spec(old(st)@, m@),
        final(st)@.wf(),
{
    let out: Vec<Effect> = Vec::new();
    assert(effects_view(out@) =~= Seq::<EffectView>::empty());
    match &m.device {
        Some(d) => {
            let ghost pred = differs_from(d@);
            let ghost all = strings_view(st.known_devices@);
            let mut kept: Vec<String> = Vec::new();
            let mut i: usize = 0;
            while i < st.known_devices.len()
                invariant
                    i <= st.known_devices@.len(),
                    all == strings_view(st.known_devices@),
                    pred == differs_from(d@),
                    strings_view(kept@) == all.take(i as int).filter(pred),
                decreases st.known_devices@.len() - i,
            {
                let ghost prev = kept@;
                proof {
                    assert(all.take(i + 1) =~= all.take(i as int).push(all[i as int]));
                    all.take(i as int).lemma_filter_push(all[i as int], pred);
                }
                if !str_eq(st.known_devices[i].as_str(), d.as_str()) {
                    kept.push(st.known_devices[i].clone());
                    assert(strings_view(kept@) =~= strings_view(prev).push(all[i as int]));
                }
                i = i + 1;
            }
            assert(all.take(st.known_devices@.len() as int) =~= all);
            st.known_devices = kept;
        },
        None => {},
    }
    out
}

fn on_global_settings(st: &mut PluginState, m: &Incoming) -> (out: Vec<Effect>)
    requires
        old(st)@.wf(),
    ensures
        (final(st)@, effects_view(out@)) == global_settings_spec(old(st)@, m@),
        final(st)@.wf(),
{
    match &m.global_settings {
        Some(g) => {
            st.global_settings = g.duplicate();
        },
        None => {},
    }
    let authed = st.global_settings.access_token.is_some();
    let text = if authed {
        owned("Global settings received — authed=true")
    } else {
        owned("Global settings received — authed=false")
    };
    proof {
        assert("Global settings received — authed="@ + "true"@ =~= "Global settings received — authed=true"@) by {
            reveal_strlit("Global settings received — authed=");
            reveal_strlit("true");
            reveal_strlit("Global settings received — authed=true");
        }
        assert("Global settings received — authed="@ + "false"@ =~= "Global settings received — authed=false"@) by {
            reveal_strlit("Global settings received — authed=");
            reveal_strlit("false");
            reveal_strlit("Global settings received — authed=false");
        }
    }
    let mut out: Vec<Effect> = Vec::new();
    emit_send(&mut out, log(text.as_str()));
    st.poll_all(&mut out);
    out
}

fn on_will_appear(st: &mut PluginState, m: &Incoming) -> (out: Vec<Effect>)
    requires
        old(st)@.wf(),
    ensures
        (final(st)@, effects_view(out@)) == will_appear_spec(old(st)@, m@),
        final(st)@.wf(),
{
    let settings = settings_or_default_exec(m);
    let mut out: Vec<Effect> = Vec::new();
    if str_eq(m.action.as_str(), "com.dajax.twitchmonitorstreamlink.monitor") {
        let text = concat2("willAppear (monitor): ", m.context.as_str());
        emit_send(&mut out, log(text.as_str()));
        st.insert(m.context.clone(), ContextState::new_monitor(settings));
        emit(
            &mut out,
            Effect::StartPollLoop { context: m.context.clone(), kind: ContextType::Monitor },
        );
        assert(effects_view(out@) =~= will_appear_spec(old(st)@, m@).1);
    } else if str_eq(m.action.as_str(), "com.dajax.twitchmonitorstreamlink.followslive") {
        let text = concat2("willAppear (follows): ", m.context.as_str());
        emit_send(&mut out, log(text.as_str()));
        st.insert(m.context.clone(), ContextState::new_follows(settings, copy_opt(&m.device)));
        emit(
            &mut out,
            Effect::StartPollLoop { context: m.context.clone(), kind: ContextType::Follows },
        );
        assert(effects_view(out@) =~= will_appear_spec(old(st)@, m@).1);
    } else if str_eq(m.action.as_str(), "com.dajax.twitchmonitorstreamlink.followsindex") {
        let text = concat2("willAppear (live index): ", m.context.as_str());
        emit_send(&mut out, log(text.as_str()));
        st.insert(m.context.clone(), ContextState::new_live_index(settings));
        emit(
            &mut out,
            Effect::StartPollLoop { context: m.context.clone(), kind: ContextType::LiveIndex },
        );
        assert(effects_view(out@) =~= will_appear_spec(old(st)@, m@).1);
    } else {
        assert(effects_view(out@) =~= Seq::<EffectView>::empty());
    }
    out
}

fn is_ours_exec(a: &str) -> (r: bool)
    ensures
        r == is_ours(a@),
{
    str_eq(a, "com.dajax.twitchmonitorstreamlink.monitor") || str_eq(
        a,
        "com.dajax.twitchmonitorstreamlink.followslive",
    ) || str_eq(a, "com.dajax.twitchmonitorstreamlink.followsindex")
}

fn on_will_disappear(st: &mut PluginState, m: &Incoming) -> (out: Vec<Effect>)
    requires
        old(st)@.wf(),
    ensures
        (final(st)@, effects_view(out@)) == will_disappear_spec(old(st)@, m@),
        final(st)@.wf(),
{
    let mut out: Vec<Effect> = Vec::new();
    if is_ours_exec(m.action.as_str()) {
        let text = concat2("willDisappear: ", m.context.as_str());
        emit_send(&mut out, log(text.as_str()));
        st.remove(m.context.as_str());
        assert(effects_view(out@) =~= will_disappear_spec(old(st)@, m@).1);
    } else {
        assert(effects_view(out@) =~= Seq::<EffectView>::empty());
    }
    out
}

fn on_did_receive_settings(st: &mut PluginState, m: &Incoming) -> (out: Vec<Effect>)
    requires
        old(st)@.wf(),
    ensures
        (final(st)@, effects_view(out@)) == did_receive_settings_spec(old(st)@, m@),
        final(st)@.wf(),
{
    let mut out: Vec<Effect> = Vec::new();
    if !is_ours_exec(m.action.as_str()) {
        assert(effects_view(out@) =~= Seq::<EffectView>::empty());
        return out;
    }
    let new_settings = settings_or_default_exec(m);
    let text = concat2("didReceiveSettings: ", m.context.as_str());
    emit_send(&mut out, log(text.as_str()));
    match st.find(m.context.as_str()) {
        Some(i) => {
            let old_state = st.contexts[i].1.duplicate();
            let reset = !str_eq(
                old_state.settings.twitch_username.as_str(),
                new_settings.twitch_username.as_str(),
            ) && str_eq(m.action.as_str(), "com.dajax.twitchmonitorstreamlink.monitor");
            let mut next = old_state;
            if reset {
                next.user_id = None;
                next.avatar_url = None;
                next.display_name = None;
                next.has_image = false;
                next.is_live = None;
                next.viewer_count = None;
            }
            next.settings = new_settings;
            st.replace_at(i, next);
        },
        None => {},
    }
    emit(&mut out, Effect::PollContext(m.context.clone()));
    assert(effects_view(out@) =~= did_receive_settings_spec(old(st)@, m@).1);
    out
}

fn opt_debug_exec(o: &Option<String>) -> (r: String)
    ensures
        r@ == opt_debug(opt_str(*o)),
{
    match o {
        Some(s) => {
            let mut r = owned("Some(");
            let d = debug_str(s.as_str());
            push_str(&mut r, d.as_str());
            push_str(&mut r, ")");
            r
        },
        None => owned("None"),
    }
}

fn open_channel_exec(settings: &ButtonSettings, username: &str) -> (out: Vec<Effect>)
    ensures
        effects_view(out@) == open_channel(settings@, username@),
{
    let mut out: Vec<Effect> = Vec::new();
    let mut url = owned("https://twitch.tv/");
    let enc = encode(username);
    push_str(&mut url, enc.as_str());
    if str_eq(settings.button_action.as_str(), "streamlink") {
        let exe = if settings.streamlink_path.as_str().is_empty() {
            owned("streamlink")
        } else {
            settings.streamlink_path.clone()
        };
        let mut text = owned("Launching streamlink: ");
        push_str(&mut text, exe.as_str());
        push_str(&mut text, " ");
        push_str(&mut text, url.as_str());
        push_str(&mut text, " best");
        emit_send(&mut out, log(text.as_str()));
        emit(&mut out, Effect::LaunchStreamlink { exe, url });
    } else {
        emit_send(&mut out, Outgoing::OpenUrl { url });
    }
    assert(effects_view(out@) =~= open_channel(settings@, username@));
    out
}

#[verifier::rlimit(40)]
fn on_key_down(st: &PluginState, m: &Incoming) -> (out: Vec<Effect>)
    requires
        st@.wf(),
    ensures
        effects_view(out@) == key_down_spec(st@, m@),
{
    let mut out: Vec<Effect> = Vec::new();
    if str_eq(m.action.as_str(), "com.dajax.twitchmonitorstreamlink.followslive") {
        let idx = st.find(m.context.as_str());
        let settings = match &m.settings {
            Some(x) => x.duplicate(),
            None => match idx {
                Some(i) => st.contexts[i].1.settings.duplicate(),
                None => ButtonSettings::default(),
            },
        };
        let profile = trim(settings.target_profile.as_str());
        let own = match idx {
            Some(i) => copy_opt(&st.contexts[i].1.device),
            None => None,
        };
        let device = if own.is_some() {
            own
        } else if m.device.is_some() {
            copy_opt(&m.device)
        } else if st.known_devices.len() > 0 {
            Some(st.known_devices[0].clone())
        } else {
            None
        };
        assert(opt_str(device) == follows_device(st@, m@));
        if !profile.as_str().is_empty() {
            let mut text = owned("keyDown(follows): profile=");
            let pd = debug_str(profile.as_str());
            push_str(&mut text, pd.as_str());
            push_str(&mut text, " device=");
            let dd = opt_debug_exec(&device);
            push_str(&mut text, dd.as_str());
            emit_send(&mut out, log(text.as_str()));
            let mut messages: Vec<Outgoing> = Vec::new();
            messages.push(
                Outgoing::SwitchToProfile {
                    context: switcher_uuid_str(),
                    device: copy_opt(&device),
                    profile: profile.clone(),
                    nested: true,
                },
            );
            messages.push(
                Outgoing::SwitchToProfile {
                    context: switcher_uuid_str(),
                    device: copy_opt(&device),
                    profile: profile.clone(),
                    nested: false,
                },
            );
            assert(outgoing_view(messages@) =~= switch_messages(opt_str(device), profile@));
            emit(&mut out, Effect::SideConnection { uuid: switcher_uuid_str(), messages });
            emit_send(&mut out, Outgoing::ShowOk { context: m.context.clone() });
            assert(effects_view(out@) =~= key_down_spec(st@, m@));
        } else {
            emit_send(&mut out, Outgoing::ShowAlert { context: m.context.clone() });
            assert(effects_view(out@) =~= key_down_spec(st@, m@));
        }
        return out;
    }
    if str_eq(m.action.as_str(), "com.dajax.twitchmonitorstreamlink.followsindex") {
        proof {
            lemma_names_differ();
            reveal_strlit("com.dajax.twitchmonitorstreamlink.followsindex");
        }
        match st.find(m.context.as_str()) {
            Some(i) => {
                let c = &st.contexts[i].1;
                assert(lookup(st@.contexts, m.context@) == Some(c@));
                match &c.channel_login {
                    Some(login) => {
                        return open_channel_exec(&c.settings, login.as_str());
                    },
                    None => {},
                }
            },
            None => {},
        }
        assert(effects_view(out@) =~= key_down_spec(st@, m@));
        return out;
    }
    if !str_eq(m.action.as_str(), "com.dajax.twitchmonitorstreamlink.monitor") {
        assert(effects_view(out@) =~= Seq::<EffectView>::empty());
        return out;
    }
    let i = match st.find(m.context.as_str()) {
        Some(i) => i,
        None => {
            assert(effects_view(out@) =~= Seq::<EffectView>::empty());
            return out;
        },
    };
    let s = &st.contexts[i].1.settings;
    if s.twitch_username.as_str().is_empty() {
        assert(effects_view(out@) =~= Seq::<EffectView>::empty());
        return out;
    }
    let out = open_channel_exec(s, s.twitch_username.as_str());
    out
}

fn on_send_to_plugin(st: &mut PluginState, m: &Incoming) -> (out: Vec<Effect>)
    requires
        old(st)@.wf(),
    ensures
        (final(st)@, effects_view(out@)) == send_to_plugin_spec(old(st)@, m@),
        final(st)@.wf(),
{
    let mut out: Vec<Effect> = Vec::new();
    if !is_ours_exec(m.action.as_str()) {
        assert(effects_view(out@) =~= Seq::<EffectView>::empty());
        return out;
    }
    if str_eq(m.cmd.as_str(), "startAuth") {
        match &m.state_param {
            Some(p) => {
                let mut text = owned("Auth flow started for context ");
                push_str(&mut text, m.context.as_str());
                push_str(&mut text, ", state=");
                push_str(&mut text, p.as_str());
                emit_send(&mut out, log(text.as_str()));
            },
            None => {},
        }
        assert(effects_view(out@) =~= send_to_plugin_spec(old(st)@, m@).1);
    } else if str_eq(m.cmd.as_str(), "cancelAuth") {
        let text = concat2("Auth cancelled for context ", m.context.as_str());
        emit_send(&mut out, log(text.as_str()));
        assert(effects_view(out@) =~= send_to_plugin_spec(old(st)@, m@).1);
    } else if str_eq(m.cmd.as_str(), "clearAuth") {
        let o = st.clear_global_auth();
        emit_send(&mut out, o);
        let ghost after_clear = effects_view(out@);
        st.poll_all(&mut out);
        let ghost after_polls = effects_view(out@);
        st.broadcast_auth_status(
            &PiPayload::AuthStatus { kind: AuthStatusKind::Cleared, error: None },
            &mut out,
        );
        assert(effects_view(out@) =~= send_to_plugin_spec(old(st)@, m@).1);
    } else {
        assert(effects_view(out@) =~= Seq::<EffectView>::empty());
    }
    out
}

/// Updates the plugin state for one host event and lists what to do, in
/// order.
pub fn handle_event(st: &mut PluginState, m: &Incoming) -> (out: Vec<Effect>)
    requires
        old(st)@.wf(),
    ensures
        (final(st)@, effects_view(out@)) == handle_event_spec(old(st)@, m@),
        final(st)@.wf(),
{
    let e = m.event.as_str();
    if str_eq(e, "deviceDidConnect") {
        on_device_connect(st, m)
    } else if str_eq(e, "deviceDidDisconnect") {
        on_device_disconnect(st, m)
    } else if str_eq(e, "didReceiveGlobalSettings") {
        on_global_settings(st, m)
    } else if str_eq(e, "willAppear") {
        on_will_appear(st, m)
    } else if str_eq(e, "willDisappear") {
        on_will_disappear(st, m)
    } else if str_eq(e, "didReceiveSettings") {
        on_did_receive_settings(st, m)
    } else if str_eq(e, "keyDown") {
        on_key_down(st, m)
    } else if str_eq(e, "sendToPlugin") {
        on_send_to_plugin(st, m)
    } else {
        let out: Vec<Effect> = Vec::new();
        assert(effects_view(out@) =~= Seq::<EffectView>::empty());
        out
    }
}


// ── Laws ───────────────────────────────────────────────────────────────────

/// The event names the plugin acts on.
pub open spec fn known_event(e: Seq<char>) -> bool {
    e == "deviceDidConnect"@ || e == "deviceDidDisconnect"@ || e == "didReceiveGlobalSettings"@
        || e == "willAppear"@ || e == "willDisappear"@ || e == "didReceiveSettings"@ || e
        == "keyDown"@ || e == "sendToPlugin"@
}

/// The event names, and the two action UUIDs, are all different.
proof fn lemma_names_differ()
    ensures
        plugin_action() != follows_action(),
        plugin_action() != index_action(),
        follows_action() != index_action(),
        "deviceDidConnect"@ != "deviceDidDisconnect"@,
        "deviceDidConnect"@ != "didReceiveGlobalSettings"@,
        "deviceDidConnect"@ != "willAppear"@,
        "deviceDidConnect"@ != "willDisappear"@,
        "deviceDidConnect"@ != "didReceiveSettings"@,
        "deviceDidConnect"@ != "keyDown"@,
        "deviceDidConnect"@ != "sendToPlugin"@,
        "deviceDidDisconnect"@ != "didReceiveGlobalSettings"@,
        "deviceDidDisconnect"@ != "willAppear"@,
        "deviceDidDisconnect"@ != "willDisappear"@,
        "deviceDidDisconnect"@ != "didReceiveSettings"@,
        "deviceDidDisconnect"@ != "keyDown"@,
        "deviceDidDisconnect"@ != "sendToPlugin"@,
        "didReceiveGlobalSettings"@ != "willAppear"@,
        "didReceiveGlobalSettings"@ != "willDisappear"@,
        "didReceiveGlobalSettings"@ != "didReceiveSettings"@,
        "didReceiveGlobalSettings"@ != "keyDown"@,
        "didReceiveGlobalSettings"@ != "sendToPlugin"@,
        "willAppear"@ != "willDisappear"@,
        "willAppear"@ != "didReceiveSettings"@,
        "willAppear"@ != "keyDown"@,
        "willAppear"@ != "sendToPlugin"@,
        "willDisappear"@ != "didReceiveSettings"@,
        "willDisappear"@ != "keyDown"@,
        "willDisappear"@ != "sendToPlugin"@,
        "didReceiveSettings"@ != "keyDown"@,
        "didReceiveSettings"@ != "sendToPlugin"@,
        "keyDown"@ != "sendToPlugin"@,
{
    reveal_strlit("com.dajax.twitchmonitorstreamlink.monitor");
    reveal_strlit("com.dajax.twitchmonitorstreamlink.followslive");
    reveal_strlit("com.dajax.twitchmonitorstreamlink.followsindex");
    reveal_strlit("deviceDidConnect");
    reveal_strlit("deviceDidDisconnect");
    reveal_strlit("didReceiveGlobalSettings");
    reveal_strlit("willAppear");
    reveal_strlit("willDisappear");
    reveal_strlit("didReceiveSettings");
    reveal_strlit("keyDown");
    reveal_strlit("sendToPlugin");
    assert(plugin_action().len() != follows_action().len());
    assert(plugin_action().len() != index_action().len());
    assert(follows_action().len() != index_action().len());
    assert("deviceDidConnect"@[9] != "deviceDidDisconnect"@[9]);
    assert("willAppear"@[4] != "willDisappear"@[4]);
    assert("didReceiveGlobalSettings"@[10] != "didReceiveSettings"@[10]);
    assert("keyDown"@.len() == 7);
    assert("deviceDidConnect"@.len() == 16);
    assert("deviceDidDisconnect"@.len() == 19);
}

/// The kind of key an action UUID of ours names.
pub open spec fn action_kind(a: Seq<char>) -> ContextType {
    if a == plugin_action() {
        ContextType::Monitor
    } else if a == follows_action() {
        ContextType::Follows
    } else {
        ContextType::LiveIndex
    }
}

/// A key of ours that appears is shown with fresh state: its kind, the
/// event's settings (the defaults where it has none) and, for a follows
/// key, the event's device.  No other key's state changes.
pub proof fn lemma_will_appear_registers(s: PluginView, m: IncomingView, other: Seq<char>)
    requires
        s.wf(),
        m.event == "willAppear"@,
        is_ours(m.action),
        other != m.context,
    ensures
        handle_event_spec(s, m).0.wf(),
        lookup(handle_event_spec(s, m).0.contexts, m.context) == Some(
            fresh_context(
                action_kind(m.action),
                settings_or_default(m),
                if m.action == follows_action() {
                    m.device
                } else {
                    None
                },
            ),
        ),
        lookup(handle_event_spec(s, m).0.contexts, other) == lookup(s.contexts, other),
{
    lemma_names_differ();
    let kind = action_kind(m.action);
    let dev = if m.action == follows_action() {
        m.device
    } else {
        None
    };
    let v = fresh_context(kind, settings_or_default(m), dev);
    lemma_lookup_insert(s.contexts, m.context, v);
    lemma_lookup_insert_other(s.contexts, m.context, v, other);
}

/// A key of ours that disappears is no longer shown.
pub proof fn lemma_will_disappear_forgets(s: PluginView, m: IncomingView)
    requires
        s.wf(),
        m.event == "willDisappear"@,
        is_ours(m.action),
    ensures
        handle_event_spec(s, m).0.wf(),
        lookup(handle_event_spec(s, m).0.contexts, m.context) is None,
{
    lemma_names_differ();
    lemma_lookup_remove(s.contexts, m.context);
}

/// A key that was not shown, appears and then disappears leaves the plugin
/// state exactly as it was.
pub proof fn lemma_appear_then_disappear(s: PluginView, a: IncomingView, d: IncomingView)
    requires
        s.wf(),
        a.event == "willAppear"@,
        d.event == "willDisappear"@,
        is_ours(a.action),
        is_ours(d.action),
        d.context == a.context,
        !has_ctx(s.contexts, a.context),
    ensures
        handle_event_spec(handle_event_spec(s, a).0, d).0 == s,
{
    lemma_names_differ();
    let kind = action_kind(a.action);
    let dev = if a.action == follows_action() {
        a.device
    } else {
        None
    };
    let v = fresh_context(kind, settings_or_default(a), dev);
    let c = s.contexts;
    let c1 = insert_ctx(c, a.context, v);
    assert(c1 == c.push((a.context, v)));
    lemma_lookup_insert(c, a.context, v);
    let n = c.len() as int;
    assert(c1[n].0 == a.context);
    assert(has_ctx(c1, a.context));
    let j = ctx_index(c1, a.context);
    if j != n {
        assert(c1[j] == c[j]);
        assert(has_ctx(c, a.context));
    }
    assert(remove_ctx(c1, a.context) =~= c);
}

/// Events for keys of other plugins change nothing and do nothing.
pub proof fn lemma_foreign_keys_ignored(s: PluginView, m: IncomingView)
    requires
        !is_ours(m.action),
        m.event == "willAppear"@ || m.event == "willDisappear"@ || m.event
            == "didReceiveSettings"@ || m.event == "keyDown"@ || m.event == "sendToPlugin"@,
    ensures
        handle_event_spec(s, m) == (s, Seq::<EffectView>::empty()),
{
    lemma_names_differ();
}

/// Events that the plugin does not know change nothing and do nothing.
pub proof fn lemma_unknown_events_ignored(s: PluginView, m: IncomingView)
    requires
        !known_event(m.event),
    ensures
        handle_event_spec(s, m) == (s, Seq::<EffectView>::empty()),
{
}

/// Pressing a key changes nothing that the plugin remembers.
pub proof fn lemma_key_down_keeps_state(s: PluginView, m: IncomingView)
    requires
        m.event == "keyDown"@,
    ensures
        handle_event_spec(s, m).0 == s,
{
    lemma_names_differ();
}

/// Only keys appearing and disappearing change which keys are shown, and
/// no event shows a key twice.
pub proof fn lemma_keys_change_only_on_appear_disappear(s: PluginView, m: IncomingView)
    requires
        s.wf(),
        m.event != "willAppear"@,
        m.event != "willDisappear"@,
    ensures
        handle_event_spec(s, m).0.wf(),
        ctx_keys(handle_event_spec(s, m).0.contexts) == ctx_keys(s.contexts),
{
    lemma_names_differ();
    if m.event == "didReceiveSettings"@ && is_ours(m.action) {
        match lookup(s.contexts, m.context) {
            Some(st) => {
                let new_settings = settings_or_default(m);
                let reset = st.settings.twitch_username != new_settings.twitch_username && m.action
                    == plugin_action();
                let st2 = if reset {
                    forget_channel(st)
                } else {
                    st
                };
                lemma_lookup_set(
                    s.contexts,
                    m.context,
                    ContextStateView { settings: new_settings, ..st2 },
                    m.context,
                );
            },
            None => {},
        }
    }
}

/// A device that disconnects is no longer known.
pub proof fn lemma_device_disconnect_forgets(s: PluginView, m: IncomingView, d: Seq<char>)
    requires
        m.event == "deviceDidDisconnect"@,
        m.device == Some(d),
    ensures
        !handle_event_spec(s, m).0.devices.contains(d),
{
    lemma_names_differ();
    let t = handle_event_spec(s, m).0.devices;
    assert(t == s.devices.filter(differs_from(d)));
    if t.contains(d) {
        let i = choose|i: int| 0 <= i < t.len() && t[i] == d;
        broadcast use vstd::seq_lib::group_filter_ensures;
        assert(differs_from(d)(t[i]));
    }
}

/// Clearing the authorisation signs out: the stored settings become empty,
/// the keys stay as they are, and every key is polled again.
pub proof fn lemma_clear_auth_signs_out(s: PluginView, m: IncomingView, k: Seq<char>)
    requires
        m.event == "sendToPlugin"@,
        is_ours(m.action),
        m.cmd == "clearAuth"@,
        has_ctx(s.contexts, k),
    ensures
        handle_event_spec(s, m).0 == (PluginView { global: empty_global(), ..s }),
        handle_event_spec(s, m).1.contains(EffectView::PollContext(k)),
{
    lemma_names_differ();
    reveal_strlit("startAuth");
    reveal_strlit("cancelAuth");
    reveal_strlit("clearAuth");
    assert("clearAuth"@ != "startAuth"@) by {
        assert("clearAuth"@[1] != "startAuth"@[1]);
    }
    assert("clearAuth"@ != "cancelAuth"@) by {
        assert("clearAuth"@[1] != "cancelAuth"@[1]);
    }
    let i = ctx_index(s.contexts, k);
    let effs = handle_event_spec(s, m).1;
    assert(ctx_keys(s.contexts)[i] == k);
    assert(effs[1 + i] == EffectView::PollContext(k));
}

/// New settings for a shown key of ours replace its settings and keep its
/// kind and device; a monitor key whose channel changes forgets the channel
/// it had looked up and the status it had shown.
pub proof fn lemma_settings_replace(s: PluginView, m: IncomingView, st: ContextStateView)
    requires
        s.wf(),
        m.event == "didReceiveSettings"@,
        is_ours(m.action),
        lookup(s.contexts, m.context) == Some(st),
    ensures
        ({
            let t = lookup(handle_event_spec(s, m).0.contexts, m.context);
            &&& t is Some
            &&& t->0.settings == settings_or_default(m)
            &&& t->0.ctx_type == st.ctx_type
            &&& t->0.device == st.device
            &&& (m.action == plugin_action() && st.settings.twitch_username
                != settings_or_default(m).twitch_username) ==> (t->0.user_id is None
                && !t->0.has_image && t->0.is_live is None && t->0.viewer_count is None)
        }),
{
    lemma_names_differ();
    let new_settings = settings_or_default(m);
    let reset = st.settings.twitch_username != new_settings.twitch_username && m.action
        == plugin_action();
    let st2 = if reset {
        forget_channel(st)
    } else {
        st
    };
    assert(has_ctx(s.contexts, m.context));
    lemma_lookup_set(s.contexts, m.context, ContextStateView { settings: new_settings, ..st2 }, m.context);
}

} // verus!
