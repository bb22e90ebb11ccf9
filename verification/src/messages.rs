//! What the plugin asks its host to do: messages for the StreamDock
//! WebSocket and the other effects (background polls, launching a player,
//! playing a sound) that the surrounding program carries out.
use vstd::prelude::*;
use crate::settings::{opt_str, ContextType, GlobalSettings, GlobalSettingsView};
use crate::strs::{owned, push_str};

verus! {

/// The action UUID of the channel-monitor key.
pub open spec fn plugin_action() -> Seq<char> {
    "com.dajax.twitchmonitorstreamlink.monitor"@
}

/// The action UUID of the follows-counter key.
pub open spec fn follows_action() -> Seq<char> {
    "com.dajax.twitchmonitorstreamlink.followslive"@
}

/// The action UUID of the live-channel-by-index key.
pub open spec fn index_action() -> Seq<char> {
    "com.dajax.twitchmonitorstreamlink.followsindex"@
}

/// The plugin UUID that OpenDeck lets switch profiles, under which the
/// profile switch is sent on a connection of its own.
pub open spec fn switcher_uuid() -> Seq<char> {
    "opendeck_alternative_elgato_implementation"@
}

/// The action UUID of the channel-monitor key.
pub fn plugin_action_str() -> (s: String)
    ensures
        s@ == plugin_action(),
{
    owned("com.dajax.twitchmonitorstreamlink.monitor")
}

/// The action UUID of the follows-counter key.
pub fn follows_action_str() -> (s: String)
    ensures
        s@ == follows_action(),
{
    owned("com.dajax.twitchmonitorstreamlink.followslive")
}

/// The action UUID of the live-channel-by-index key.
pub fn index_action_str() -> (s: String)
    ensures
        s@ == index_action(),
{
    owned("com.dajax.twitchmonitorstreamlink.followsindex")
}

/// The plugin UUID under which profiles are switched.
pub fn switcher_uuid_str() -> (s: String)
    ensures
        s@ == switcher_uuid(),
{
    owned("opendeck_alternative_elgato_implementation")
}

/// The value of `authStatus` in an authentication report.
#[derive(Clone, Copy, Debug, PartialEq, Eq, Structural)]
pub enum AuthStatusKind {
    /// `expired`
    Expired,
    /// `scope_error`
    ScopeError,
    /// `error`
    Error,
    /// `cleared`
    Cleared,
}

/// The payload of a message to a key's property inspector.
pub enum PiPayload {
    /// The channel shown by a monitor key.
    MonitorStatus {
        display_name: String,
        avatar_url: Option<String>,
        is_live: bool,
        viewer_count: Option<u32>,
    },
    /// How many followed channels are live.
    FollowsCount { count: u32 },
    /// An authentication report, with `authError` where there is one.
    AuthStatus { kind: AuthStatusKind, error: Option<String> },
    /// A successful authorisation, with the account's name and avatar.
    AuthSuccess { authed_display_name: String, authed_avatar_url: String },
}

/// The view of `PiPayload`.
pub enum PiPayloadView {
    MonitorStatus {
        display_name: Seq<char>,
        avatar_url: Option<Seq<char>>,
        is_live: bool,
        viewer_count: Option<u32>,
    },
    FollowsCount { count: u32 },
    AuthStatus { kind: AuthStatusKind, error: Option<Seq<char>> },
    AuthSuccess { authed_display_name: Seq<char>, authed_avatar_url: Seq<char> },
}

impl View for PiPayload {
    type V = PiPayloadView;

    open spec fn view(&self) -> PiPayloadView {
        match self {
            PiPayload::MonitorStatus { display_name, avatar_url, is_live, viewer_count } =>
                PiPayloadView::MonitorStatus {
                display_name: display_name@,
                avatar_url: opt_str(*avatar_url),
                is_live: *is_live,
                viewer_count: *viewer_count,
            },
            PiPayload::FollowsCount { count } => PiPayloadView::FollowsCount { count: *count },
            PiPayload::AuthStatus { kind, error } => PiPayloadView::AuthStatus {
                kind: *kind,
                error: opt_str(*error),
            },
            PiPayload::AuthSuccess { authed_display_name, authed_avatar_url } =>
                PiPayloadView::AuthSuccess {
                authed_display_name: authed_display_name@,
                authed_avatar_url: authed_avatar_url@,
            },
        }
    }
}

/// A message for the StreamDock WebSocket.
pub enum Outgoing {
    /// `setImage` with a base64 PNG data URI.
    SetImage { context: String, image: String },
    /// `setTitle`.
    SetTitle { context: String, title: String },
    /// `logMessage`; the message already carries the plugin's prefix.
    LogMessage { message: String },
    /// `setGlobalSettings` with the full global settings.
    SetGlobalSettings { context: String, settings: GlobalSettings },
    /// `sendToPropertyInspector`.
    SendToPropertyInspector { action: String, context: String, payload: PiPayload },
    /// `switchToProfile`, with the profile inside `payload` (`nested`) or at
    /// the top level.
    SwitchToProfile { context: String, device: Option<String>, profile: String, nested: bool },
    /// `showOk`.
    ShowOk { context: String },
    /// `showAlert`.
    ShowAlert { context: String },
    /// `openUrl`.
    OpenUrl { url: String },
    /// The registration message, sent under the event name given on the
    /// command line.
    Register { event: String, uuid: String },
    /// `getGlobalSettings`.
    GetGlobalSettings { context: String },
}

/// The view of `Outgoing`.
pub enum OutgoingView {
    SetImage { context: Seq<char>, image: Seq<char> },
    SetTitle { context: Seq<char>, title: Seq<char> },
    LogMessage { message: Seq<char> },
    SetGlobalSettings { context: Seq<char>, settings: GlobalSettingsView },
    SendToPropertyInspector { action: Seq<char>, context: Seq<char>, payload: PiPayloadView },
    SwitchToProfile {
        context: Seq<char>,
        device: Option<Seq<char>>,
        profile: Seq<char>,
        nested: bool,
    },
    ShowOk { context: Seq<char> },
    ShowAlert { context: Seq<char> },
    OpenUrl { url: Seq<char> },
    Register { event: Seq<char>, uuid: Seq<char> },
    GetGlobalSettings { context: Seq<char> },
}

impl View for Outgoing {
    type V = OutgoingView;

    open spec fn view(&self) -> OutgoingView {
        match self {
            Outgoing::SetImage { context, image } => OutgoingView::SetImage {
                context: context@,
                image: image@,
            },
            Outgoing::SetTitle { context, title } => OutgoingView::SetTitle {
                context: context@,
                title: title@,
            },
            Outgoing::LogMessage { message } => OutgoingView::LogMessage { message: message@ },
            Outgoing::SetGlobalSettings { context, settings } => OutgoingView::SetGlobalSettings {
                context: context@,
                settings: settings@,
            },
            Outgoing::SendToPropertyInspector { action, context, payload } =>
                OutgoingView::SendToPropertyInspector {
                action: action@,
                context: context@,
                payload: payload@,
            },
            Outgoing::SwitchToProfile { context, device, profile, nested } =>
                OutgoingView::SwitchToProfile {
                context: context@,
                device: opt_str(*device),
                profile: profile@,
                nested: *nested,
            },
            Outgoing::ShowOk { context } => OutgoingView::ShowOk { context: context@ },
            Outgoing::ShowAlert { context } => OutgoingView::ShowAlert { context: context@ },
            Outgoing::OpenUrl { url } => OutgoingView::OpenUrl { url: url@ },
            Outgoing::Register { event, uuid } => OutgoingView::Register {
                event: event@,
                uuid: uuid@,
            },
            Outgoing::GetGlobalSettings { context } => OutgoingView::GetGlobalSettings {
                context: context@,
            },
        }
    }
}

/// Something the surrounding program does on the plugin's behalf.
pub enum Effect {
    /// Send a message on the WebSocket.
    Send(Outgoing),
    /// Run one poll of the key, whatever its kind.
    PollContext(String),
    /// Run one channel-monitor poll of the key.
    PollMonitor(String),
    /// Start the once-a-minute poll loop of a newly shown key.
    StartPollLoop { context: String, kind: ContextType },
    /// Start Streamlink on a channel URL with the `best` quality.
    LaunchStreamlink { exe: String, url: String },
    /// Play an alert sound given as a data URI, at a volume in percent.
    PlaySound { data: String, volume: u8 },
    /// Try to recover a monitor key whose token was refused.
    HandleAuthExpired(String),
    /// Open a second WebSocket connection to the host, register it under
    /// plugin UUID `uuid` (with the same registration event), send
    /// `messages` on it in order, and close it again; the plugin's own
    /// connection is not touched.
    SideConnection { uuid: String, messages: Vec<Outgoing> },
}

/// The view of `Effect`.
pub enum EffectView {
    Send(OutgoingView),
    PollContext(Seq<char>),
    PollMonitor(Seq<char>),
    StartPollLoop { context: Seq<char>, kind: ContextType },
    LaunchStreamlink { exe: Seq<char>, url: Seq<char> },
    PlaySound { data: Seq<char>, volume: u8 },
    HandleAuthExpired(Seq<char>),
    SideConnection { uuid: Seq<char>, messages: Seq<OutgoingView> },
}

impl View for Effect {
    type V = EffectView;

    open spec fn view(&self) -> EffectView {
        match self {
            Effect::Send(o) => EffectView::Send(o@),
            Effect::PollContext(c) => EffectView::PollContext(c@),
            Effect::PollMonitor(c) => EffectView::PollMonitor(c@),
            Effect::StartPollLoop { context, kind } => EffectView::StartPollLoop {
                context: context@,
                kind: *kind,
            },
            Effect::LaunchStreamlink { exe, url } => EffectView::LaunchStreamlink {
                exe: exe@,
                url: url@,
            },
            Effect::PlaySound { data, volume } => EffectView::PlaySound {
                data: data@,
                volume: *volume,
            },
            Effect::HandleAuthExpired(c) => EffectView::HandleAuthExpired(c@),
            Effect::SideConnection { uuid, messages } => EffectView::SideConnection {
                uuid: uuid@,
                messages: outgoing_view(messages@),
            },
        }
    }
}

/// The views of a list of messages.
pub open spec fn outgoing_view(v: Seq<Outgoing>) -> Seq<OutgoingView> {
    v.map_values(|o: Outgoing| o@)
}

/// The views of a list of effects.
pub open spec fn effects_view(v: Seq<Effect>) -> Seq<EffectView> {
    v.map_values(|e: Effect| e@)
}

/// Appends an effect to a list, keeping `effects_view` in step.
pub fn emit(out: &mut Vec<Effect>, e: Effect)
    ensures
        effects_view(final(out)@) == effects_view(old(out)@).push(e@),
{
    out.push(e);
    assert(effects_view(out@) =~= effects_view(old(out)@).push(e@));
}

/// Appends a WebSocket message to a list of effects.
pub fn emit_send(out: &mut Vec<Effect>, o: Outgoing)
    ensures
        effects_view(final(out)@) == effects_view(old(out)@).push(EffectView::Send(o@)),
{
    emit(out, Effect::Send(o));
}

/// The prefix of every log message.
pub open spec fn log_prefix() -> Seq<char> {
    "[TwitchMonitor] "@
}

/// A `logMessage` carrying `text` after the plugin's prefix.
pub open spec fn log_view(text: Seq<char>) -> OutgoingView {
    OutgoingView::LogMessage { message: log_prefix() + text }
}

/// A `logMessage` carrying `text` after the plugin's prefix.
pub fn log(text: &str) -> (o: Outgoing)
    ensures
        o@ == log_view(text@),
{
    let mut message = owned("[TwitchMonitor] ");
    push_str(&mut message, text);
    Outgoing::LogMessage { message }
}

/// A `setImage` for a key.
pub fn set_image(context: &str, image: &str) -> (o: Outgoing)
    ensures
        o@ == (OutgoingView::SetImage { context: context@, image: image@ }),
{
    Outgoing::SetImage { context: owned(context), image: owned(image) }
}

/// A `setTitle` for a key.
pub fn set_title(context: &str, title: &str) -> (o: Outgoing)
    ensures
        o@ == (OutgoingView::SetTitle { context: context@, title: title@ }),
{
    Outgoing::SetTitle { context: owned(context), title: owned(title) }
}

} // verus!
