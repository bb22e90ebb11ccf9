//! The plugin's settings: the global (account) settings shared by every key,
//! the per-key settings from the property inspector, and the state kept for
//! each key on the device.
use vstd::prelude::*;
use crate::strs::owned;

verus! {

/// The view of an optional string.
pub open spec fn opt_str(o: Option<String>) -> Option<Seq<char>> {
    match o {
        Some(s) => Some(s@),
        None => None,
    }
}

/// A copy of an optional string.
pub fn copy_opt(o: &Option<String>) -> (r: Option<String>)
    ensures
        opt_str(r) == opt_str(*o),
{
    match o {
        Some(s) => Some(s.clone()),
        None => None,
    }
}

// ── Global settings ────────────────────────────────────────────────────────

/// The account settings stored in the plugin's global settings.
pub struct GlobalSettings {
    pub access_token: Option<String>,
    pub refresh_token: Option<String>,
    /// When the access token expires, in milliseconds since the Unix epoch.
    pub token_expiry: Option<u64>,
    pub authed_display_name: Option<String>,
    pub authed_avatar_url: Option<String>,
    pub authed_user_id: Option<String>,
}

/// The view of `GlobalSettings`.
pub struct GlobalSettingsView {
    pub access_token: Option<Seq<char>>,
    pub refresh_token: Option<Seq<char>>,
    pub token_expiry: Option<u64>,
    pub authed_display_name: Option<Seq<char>>,
    pub authed_avatar_url: Option<Seq<char>>,
    pub authed_user_id: Option<Seq<char>>,
}

impl View for GlobalSettings {
    type V = GlobalSettingsView;

    open spec fn view(&self) -> GlobalSettingsView {
        GlobalSettingsView {
            access_token: opt_str(self.access_token),
            refresh_token: opt_str(self.refresh_token),
            token_expiry: self.token_expiry,
            authed_display_name: opt_str(self.authed_display_name),
            authed_avatar_url: opt_str(self.authed_avatar_url),
            authed_user_id: opt_str(self.authed_user_id),
        }
    }
}

/// Global settings with nothing set.
pub open spec fn empty_global() -> GlobalSettingsView {
    GlobalSettingsView {
        access_token: None,
        refresh_token: None,
        token_expiry: None,
        authed_display_name: None,
        authed_avatar_url: None,
        authed_user_id: None,
    }
}

/// The field of `update` where it is set, otherwise the field of `base`.
pub open spec fn prefer<T>(base: Option<T>, update: Option<T>) -> Option<T> {
    match update {
        Some(v) => Some(v),
        None => base,
    }
}

/// `base` with every field that `fields` sets replaced by that value.
pub open spec fn merge_spec(base: GlobalSettingsView, fields: GlobalSettingsView) -> GlobalSettingsView {
    GlobalSettingsView {
        access_token: prefer(base.access_token, fields.access_token),
        refresh_token: prefer(base.refresh_token, fields.refresh_token),
        token_expiry: prefer(base.token_expiry, fields.token_expiry),
        authed_display_name: prefer(base.authed_display_name, fields.authed_display_name),
        authed_avatar_url: prefer(base.authed_avatar_url, fields.authed_avatar_url),
        authed_user_id: prefer(base.authed_user_id, fields.authed_user_id),
    }
}

impl Default for GlobalSettings {
    fn default() -> (r: GlobalSettings)
        ensures
            r@ == empty_global(),
    {
        GlobalSettings {
            access_token: None,
            refresh_token: None,
            token_expiry: None,
            authed_display_name: None,
            authed_avatar_url: None,
            authed_user_id: None,
        }
    }
}

impl GlobalSettings {
    /// Global settings with nothing set.
    pub fn empty() -> (r: GlobalSettings)
        ensures
            r@ == empty_global(),
    {
        GlobalSettings {
            access_token: None,
            refresh_token: None,
            token_expiry: None,
            authed_display_name: None,
            authed_avatar_url: None,
            authed_user_id: None,
        }
    }

    /// A copy of these settings.
    pub fn duplicate(&self) -> (r: GlobalSettings)
        ensures
            r@ == self@,
    {
        GlobalSettings {
            access_token: copy_opt(&self.access_token),
            refresh_token: copy_opt(&self.refresh_token),
            token_expiry: self.token_expiry,
            authed_display_name: copy_opt(&self.authed_display_name),
            authed_avatar_url: copy_opt(&self.authed_avatar_url),
            authed_user_id: copy_opt(&self.authed_user_id),
        }
    }

    /// Overwrites every field that `fields` sets, leaving the others.
    pub fn merge(&mut self, fields: GlobalSettings)
        ensures
            final(self)@ == merge_spec(old(self)@, fields@),
    {
        if let Some(v) = fields.access_token {
            self.access_token = Some(v);
        }
        if let Some(v) = fields.refresh_token {
            self.refresh_token = Some(v);
        }
        if let Some(v) = fields.token_expiry {
            self.token_expiry = Some(v);
        }
        if let Some(v) = fields.authed_display_name {
            self.authed_display_name = Some(v);
        }
        if let Some(v) = fields.authed_avatar_url {
            self.authed_avatar_url = Some(v);
        }
        if let Some(v) = fields.authed_user_id {
            self.authed_user_id = Some(v);
        }
    }

    /// Forgets every account field.
    pub fn clear(&mut self)
        ensures
            final(self)@ == empty_global(),
    {
        self.access_token = None;
        self.refresh_token = None;
        self.token_expiry = None;
        self.authed_display_name = None;
        self.authed_avatar_url = None;
        self.authed_user_id = None;
    }
}

/// Merging settings that set nothing leaves settings as they are.
pub proof fn lemma_merge_empty(base: GlobalSettingsView)
    ensures
        merge_spec(base, empty_global()) == base,
{
}

/// Merging the same fields twice is the same as merging them once.
pub proof fn lemma_merge_idempotent(base: GlobalSettingsView, fields: GlobalSettingsView)
    ensures
        merge_spec(merge_spec(base, fields), fields) == merge_spec(base, fields),
{
}

/// Merging into cleared settings gives exactly the merged fields.
pub proof fn lemma_merge_after_clear(fields: GlobalSettingsView)
    ensures
        merge_spec(empty_global(), fields) == fields,
{
}

/// A later merge wins over an earlier one on every field it sets.
pub proof fn lemma_merge_compose(
    base: GlobalSettingsView,
    f1: GlobalSettingsView,
    f2: GlobalSettingsView,
)
    ensures
        merge_spec(merge_spec(base, f1), f2) == merge_spec(base, merge_spec(f1, f2)),
{
}

// ── Button settings ────────────────────────────────────────────────────────

/// The settings of one key, as edited in the property inspector.
pub struct ButtonSettings {
    pub twitch_username: String,
    pub alert_enabled: bool,
    /// The alert sound as a data URI.
    pub alert_sound_data: Option<String>,
    pub alert_sound_name: String,
    /// Alert volume in percent.
    pub alert_volume: u8,
    /// `browser` or `streamlink`.
    pub button_action: String,
    pub streamlink_path: String,
    /// The device profile that the follows counter switches to.
    pub target_profile: String,
    /// Which live followed channel a live-channel-by-index key shows,
    /// counting from 1 for the most watched.
    pub live_index: u32,
}

/// The view of `ButtonSettings`.
pub struct ButtonSettingsView {
    pub twitch_username: Seq<char>,
    pub alert_enabled: bool,
    pub alert_sound_data: Option<Seq<char>>,
    pub alert_sound_name: Seq<char>,
    pub alert_volume: u8,
    pub button_action: Seq<char>,
    pub streamlink_path: Seq<char>,
    pub target_profile: Seq<char>,
    pub live_index: u32,
}

impl View for ButtonSettings {
    type V = ButtonSettingsView;

    open spec fn view(&self) -> ButtonSettingsView {
        ButtonSettingsView {
            twitch_username: self.twitch_username@,
            alert_enabled: self.alert_enabled,
            alert_sound_data: opt_str(self.alert_sound_data),
            alert_sound_name: self.alert_sound_name@,
            alert_volume: self.alert_volume,
            button_action: self.button_action@,
            streamlink_path: self.streamlink_path@,
            target_profile: self.target_profile@,
            live_index: self.live_index,
        }
    }
}

/// The settings of a key that has none stored: no channel, no alert at
/// 80 %, opening the browser on a press.
pub open spec fn default_button() -> ButtonSettingsView {
    ButtonSettingsView {
        twitch_username: Seq::empty(),
        alert_enabled: false,
        alert_sound_data: None,
        alert_sound_name: Seq::empty(),
        alert_volume: 80,
        button_action: "browser"@,
        streamlink_path: Seq::empty(),
        target_profile: Seq::empty(),
        live_index: 1,
    }
}

/// The alert volume of a key with none stored, in percent.
pub fn default_volume() -> (v: u8)
    ensures
        v == 80,
{
    80
}

/// The press action of a key with none stored.
pub fn default_btn_action() -> (s: String)
    ensures
        s@ == "browser"@,
{
    owned("browser")
}

/// The slot of a live-channel-by-index key with none stored: the most
/// watched live followed channel.
pub fn default_live_index() -> (n: u32)
    ensures
        n == 1,
{
    1
}

impl Default for ButtonSettings {
    fn default() -> (r: ButtonSettings)
        ensures
            r@ == default_button(),
    {
        ButtonSettings {
            twitch_username: String::new(),
            alert_enabled: false,
            alert_sound_data: None,
            alert_sound_name: String::new(),
            alert_volume: default_volume(),
            button_action: default_btn_action(),
            streamlink_path: String::new(),
            target_profile: String::new(),
            live_index: default_live_index(),
        }
    }
}

impl ButtonSettings {
    /// A copy of these settings.
    pub fn duplicate(&self) -> (r: ButtonSettings)
        ensures
            r@ == self@,
    {
        ButtonSettings {
            twitch_username: self.twitch_username.clone(),
            alert_enabled: self.alert_enabled,
            alert_sound_data: copy_opt(&self.alert_sound_data),
            alert_sound_name: self.alert_sound_name.clone(),
            alert_volume: self.alert_volume,
            button_action: self.button_action.clone(),
            streamlink_path: self.streamlink_path.clone(),
            target_profile: self.target_profile.clone(),
            live_index: self.live_index,
        }
    }
}

// ── Per-key state ──────────────────────────────────────────────────────────

/// The kinds of key the plugin drives.
#[derive(Clone, Copy, Debug, PartialEq, Eq, Structural)]
pub enum ContextType {
    /// Shows one channel's live status.
    Monitor,
    /// Shows how many followed channels are live.
    Follows,
    /// Shows the live followed channel at a given place by viewer count.
    LiveIndex,
}

/// What the plugin knows about one key on the device.
pub struct ContextState {
    pub ctx_type: ContextType,
    pub settings: ButtonSettings,
    pub device: Option<String>,
    // Monitor fields
    pub user_id: Option<String>,
    pub avatar_url: Option<String>,
    pub display_name: Option<String>,
    pub is_live: Option<bool>,
    pub viewer_count: Option<u32>,
    pub has_image: bool,
    // Follows fields
    pub follows_count: Option<u32>,
    // Live-channel-by-index fields: the login of the channel in the slot
    pub channel_login: Option<String>,
}

/// The view of `ContextState`.
pub struct ContextStateView {
    pub ctx_type: ContextType,
    pub settings: ButtonSettingsView,
    pub device: Option<Seq<char>>,
    pub user_id: Option<Seq<char>>,
    pub avatar_url: Option<Seq<char>>,
    pub display_name: Option<Seq<char>>,
    pub is_live: Option<bool>,
    pub viewer_count: Option<u32>,
    pub has_image: bool,
    pub follows_count: Option<u32>,
    pub channel_login: Option<Seq<char>>,
}

impl View for ContextState {
    type V = ContextStateView;

    open spec fn view(&self) -> ContextStateView {
        ContextStateView {
            ctx_type: self.ctx_type,
            settings: self.settings@,
            device: opt_str(self.device),
            user_id: opt_str(self.user_id),
            avatar_url: opt_str(self.avatar_url),
            display_name: opt_str(self.display_name),
            is_live: self.is_live,
            viewer_count: self.viewer_count,
            has_image: self.has_image,
            follows_count: self.follows_count,
            channel_login: opt_str(self.channel_login),
        }
    }
}

/// A freshly shown key of the given kind: nothing looked up yet, no image.
pub open spec fn fresh_context(
    ctx_type: ContextType,
    settings: ButtonSettingsView,
    device: Option<Seq<char>>,
) -> ContextStateView {
    ContextStateView {
        ctx_type,
        settings,
        device,
        user_id: None,
        avatar_url: None,
        display_name: None,
        is_live: None,
        viewer_count: None,
        has_image: false,
        follows_count: None,
        channel_login: None,
    }
}

impl ContextState {
    /// A copy of this state.
    pub fn duplicate(&self) -> (r: ContextState)
        ensures
            r@ == self@,
    {
        ContextState {
            ctx_type: self.ctx_type,
            settings: self.settings.duplicate(),
            device: copy_opt(&self.device),
            user_id: copy_opt(&self.user_id),
            avatar_url: copy_opt(&self.avatar_url),
            display_name: copy_opt(&self.display_name),
            is_live: self.is_live,
            viewer_count: self.viewer_count,
            has_image: self.has_image,
            follows_count: self.follows_count,
            channel_login: copy_opt(&self.channel_login),
        }
    }

    /// The state of a newly shown channel-monitor key.
    pub fn new_monitor(settings: ButtonSettings) -> (r: ContextState)
        ensures
            r@ == fresh_context(ContextType::Monitor, settings@, None),
    {
        ContextState {
            ctx_type: ContextType::Monitor,
            settings,
            device: None,
            user_id: None,
            avatar_url: None,
            display_name: None,
            is_live: None,
            viewer_count: None,
            has_image: false,
            follows_count: None,
            channel_login: None,
        }
    }

    /// The state of a newly shown live-channel-by-index key.
    pub fn new_live_index(settings: ButtonSettings) -> (r: ContextState)
        ensures
            r@ == fresh_context(ContextType::LiveIndex, settings@, None),
    {
        ContextState {
            ctx_type: ContextType::LiveIndex,
            settings,
            device: None,
            user_id: None,
            avatar_url: None,
            display_name: None,
            is_live: None,
            viewer_count: None,
            has_image: false,
            follows_count: None,
            channel_login: None,
        }
    }

    /// The state of a newly shown follows-counter key on `device`.
    pub fn new_follows(settings: ButtonSettings, device: Option<String>) -> (r: ContextState)
        ensures
            r@ == fresh_context(ContextType::Follows, settings@, opt_str(device)),
    {
        ContextState {
            ctx_type: ContextType::Follows,
            settings,
            device,
            user_id: None,
            avatar_url: None,
            display_name: None,
            is_live: None,
            viewer_count: None,
            has_image: false,
            follows_count: None,
            channel_login: None,
        }
    }
}

} // verus!
