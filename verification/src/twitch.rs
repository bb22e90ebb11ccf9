//! The Twitch Helix API client's decisions: which URLs and forms to send,
//! how HTTP statuses and bodies become results, how pages are counted, and
//! how a token response updates the stored account.
use vstd::prelude::*;
use crate::creds::{client_id, client_secret, decode_cred_spec};
use crate::messages::{
    emit, emit_send, effects_view, log, log_view, AuthStatusKind, Effect, EffectView, Outgoing,
    OutgoingView, PiPayload, PiPayloadView,
};
use crate::plugin::{broadcast_view, ctx_keys, poll_all_view, PluginState, PluginView};
use crate::settings::{merge_spec, opt_str, GlobalSettings, GlobalSettingsView};
use crate::strs::{
    concat2, contains, contains_spec, decimal, owned, push_decimal, push_str, to_lowercase,
    unicode_lowercase,
};

verus! {

// ── Users ──────────────────────────────────────────────────────────────────

/// A Twitch user as the Helix `users` endpoint describes it.
pub struct TwitchUser {
    pub id: String,
    pub display_name: String,
    pub profile_image_url: String,
}

/// The view of `TwitchUser`.
pub struct TwitchUserView {
    pub id: Seq<char>,
    pub display_name: Seq<char>,
    pub profile_image_url: Seq<char>,
}

impl View for TwitchUser {
    type V = TwitchUserView;

    open spec fn view(&self) -> TwitchUserView {
        TwitchUserView {
            id: self.id@,
            display_name: self.display_name@,
            profile_image_url: self.profile_image_url@,
        }
    }
}

impl TwitchUser {
    /// A copy of this user.
    pub fn duplicate(&self) -> (r: TwitchUser)
        ensures
            r@ == self@,
    {
        TwitchUser {
            id: self.id.clone(),
            display_name: self.display_name.clone(),
            profile_image_url: self.profile_image_url.clone(),
        }
    }
}

/// The `users` URL: by login name, or the authenticated user.
pub open spec fn users_url_spec(login: Option<Seq<char>>) -> Seq<char> {
    match login {
        Some(l) => "https://api.twitch.tv/helix/users?login="@ + l,
        None => "https://api.twitch.tv/helix/users"@,
    }
}

/// The `users` URL for a login name (inserted as it is), or for the
/// authenticated user.
pub fn users_url(login: Option<&str>) -> (r: String)
    ensures
        r@ == users_url_spec(match login {
            Some(l) => Some(l@),
            None => None,
        }),
{
    match login {
        Some(l) => concat2("https://api.twitch.tv/helix/users?login=", l),
        None => owned("https://api.twitch.tv/helix/users"),
    }
}

/// The `Authorization` header value for a token.
pub fn bearer(token: &str) -> (r: String)
    ensures
        r@ == "Bearer "@ + token@,
{
    concat2("Bearer ", token)
}

/// The user a lookup returns: the first one listed, or an error naming the
/// login (or the authenticated user) when none is.
pub open spec fn first_user_spec(users: Seq<TwitchUserView>, login: Option<Seq<char>>) -> Result<
    TwitchUserView,
    Seq<char>,
> {
    if users.len() > 0 {
        Ok(users[0])
    } else {
        Err(
            "User not found: "@ + match login {
                Some(l) => l,
                None => "(authed user)"@,
            },
        )
    }
}

/// The views of a list of users.
pub open spec fn users_view(v: Seq<TwitchUser>) -> Seq<TwitchUserView> {
    v.map_values(|u: TwitchUser| u@)
}

/// The view of an optional string slice.
pub open spec fn opt_slice(o: Option<&str>) -> Option<Seq<char>> {
    match o {
        Some(l) => Some(l@),
        None => None,
    }
}

/// The first user listed, or the "not found" error.
pub fn first_user(users: Vec<TwitchUser>, login: Option<&str>) -> (r: Result<TwitchUser, String>)
    ensures
        match r {
            Ok(u) => first_user_spec(users_view(users@), opt_slice(login)) == Ok::<
                TwitchUserView,
                Seq<char>,
            >(u@),
            Err(e) => first_user_spec(users_view(users@), opt_slice(login)) == Err::<
                TwitchUserView,
                Seq<char>,
            >(e@),
        },
{
    if users.len() > 0 {
        assert(users_view(users@).len() == users@.len());
        assert(users_view(users@)[0] == users@[0]@);
        Ok(users[0].duplicate())
    } else {
        match login {
            Some(l) => Err(concat2("User not found: ", l)),
            None => {
                proof {
                    reveal_strlit("User not found: ");
                    reveal_strlit("(authed user)");
                    reveal_strlit("User not found: (authed user)");
                    assert("User not found: "@ + "(authed user)"@ =~= "User not found: (authed user)"@);
                }
                Err(owned("User not found: (authed user)"))
            },
        }
    }
}

// ── HTTP statuses ──────────────────────────────────────────────────────────

/// Whether a status is a success (200 to 299).
pub open spec fn is_success_spec(code: u16) -> bool {
    200 <= code <= 299
}

/// Whether a status is a success (200 to 299).
pub fn is_success(code: u16) -> (r: bool)
    ensures
        r == is_success_spec(code),
{
    200 <= code && code <= 299
}

/// The canonical reason phrase that the `http` crate's status-code table
/// holds for a code, where it holds one.
pub uninterp spec fn canonical_reason(code: u16) -> Option<Seq<char>>;

/// How reqwest's `StatusCode` is written with `{}`: the number, a space,
/// and the canonical reason or `<unknown status code>`.
pub open spec fn status_text_spec(code: u16) -> Seq<char> {
    decimal(code as nat) + " "@ + match canonical_reason(code) {
        Some(r) => r,
        None => "<unknown status code>"@,
    }
}

/// reqwest's (the `http` crate's) `StatusCode::canonical_reason` for the
/// status `code` (converted with `StatusCode::from_u16`, which accepts every
/// code from 100 to 999); the phrase comes from the table of registered
/// statuses and is named by `canonical_reason`.
#[verifier::external_body]
fn reason_phrase(code: u16) -> (r: Option<String>)
    requires
        100 <= code <= 999,
    ensures
        opt_str(r) == canonical_reason(code),
{
    reqwest::StatusCode::from_u16(code).ok().and_then(|s| s.canonical_reason()).map(
        |p| p.to_string(),
    )
}

/// The status as `{}` writes it: `401 Unauthorized`.
pub fn status_text(code: u16) -> (r: String)
    requires
        100 <= code <= 999,
    ensures
        r@ == status_text_spec(code),
{
    let mut r = String::new();
    push_decimal(&mut r, code as u64);
    push_str(&mut r, " ");
    match reason_phrase(code) {
        Some(p) => push_str(&mut r, p.as_str()),
        None => push_str(&mut r, "<unknown status code>"),
    }
    r
}

/// The error for an unsuccessful response: `prefix`, a colon, and the status.
pub fn status_error(prefix: &str, code: u16) -> (r: String)
    requires
        100 <= code <= 999,
    ensures
        r@ == prefix@ + ": "@ + status_text_spec(code),
{
    let mut r = concat2(prefix, ": ");
    let t = status_text(code);
    push_str(&mut r, t.as_str());
    r
}

/// `Ok` for a success, otherwise the error `prefix: <status>`.
pub fn check_status(prefix: &str, code: u16) -> (r: Result<(), String>)
    requires
        100 <= code <= 999,
    ensures
        r is Ok <==> is_success_spec(code),
        r matches Err(e) ==> e@ == prefix@ + ": "@ + status_text_spec(code),
{
    if is_success(code) {
        Ok(())
    } else {
        Err(status_error(prefix, code))
    }
}

// ── Streams ────────────────────────────────────────────────────────────────

/// The `streams` URL for one user.
pub fn streams_url(user_id: &str) -> (r: String)
    ensures
        r@ == "https://api.twitch.tv/helix/streams?user_id="@ + user_id@,
{
    concat2("https://api.twitch.tv/helix/streams?user_id=", user_id)
}

/// A user's live status from the viewer counts of the streams listed for
/// them: live with the first stream's count, or offline.
pub fn stream_status(viewer_counts: &Vec<u32>) -> (r: (bool, Option<u32>))
    ensures
        r == (if viewer_counts@.len() > 0 {
            (true, Some(viewer_counts@[0]))
        } else {
            (false, None::<u32>)
        }),
{
    if viewer_counts.len() > 0 {
        (true, Some(viewer_counts[0]))
    } else {
        (false, None)
    }
}

// ── Followed live channels ─────────────────────────────────────────────────

/// The `streams/followed` URL for a page.
pub open spec fn followed_url_spec(user_id: Seq<char>, cursor: Option<Seq<char>>) -> Seq<char> {
    "https://api.twitch.tv/helix/streams/followed?user_id="@ + user_id + "&first=100"@ + match cursor {
        Some(c) => "&after="@ + c,
        None => Seq::empty(),
    }
}

/// The most live followed channels that the count pages through.
pub open spec fn followed_limit() -> u32 {
    500
}

/// A live stream of a followed channel, as `streams/followed` lists it.
pub struct LiveStream {
    pub user_id: String,
    pub user_login: String,
    pub user_name: String,
    pub viewer_count: u32,
}

/// The view of `LiveStream`.
pub struct LiveStreamView {
    pub user_id: Seq<char>,
    pub user_login: Seq<char>,
    pub user_name: Seq<char>,
    pub viewer_count: u32,
}

impl View for LiveStream {
    type V = LiveStreamView;

    open spec fn view(&self) -> LiveStreamView {
        LiveStreamView {
            user_id: self.user_id@,
            user_login: self.user_login@,
            user_name: self.user_name@,
            viewer_count: self.viewer_count,
        }
    }
}

/// The views of a list of streams.
pub open spec fn streams_view(v: Seq<LiveStream>) -> Seq<LiveStreamView> {
    v.map_values(|x: LiveStream| x@)
}

/// Counting the live followed channels page by page.
pub struct FollowedPager {
    /// Channels counted so far.
    pub total: u32,
    /// Where the next page starts, if there is one.
    pub cursor: Option<String>,
    /// Whether a page has been counted.
    pub started: bool,
}

impl FollowedPager {
    /// A count that has seen no page yet.
    pub fn new() -> (r: FollowedPager)
        ensures
            r.total == 0,
            r.cursor is None,
            !r.started,
    {
        FollowedPager { total: 0, cursor: None, started: false }
    }

    /// Whether another page has to be fetched: before the first page, and
    /// afterwards while there is a cursor and fewer than 500 were counted.
    pub open spec fn wants_more(&self) -> bool {
        !self.started || (self.cursor is Some && self.total < followed_limit())
    }

    /// Whether another page has to be fetched.
    pub fn more(&self) -> (r: bool)
        ensures
            r == self.wants_more(),
    {
        !self.started || (self.cursor.is_some() && self.total < 500)
    }

    /// The URL of the next page for `user_id`.
    pub fn url(&self, user_id: &str) -> (r: String)
        ensures
            r@ == followed_url_spec(user_id@, opt_str(self.cursor)),
    {
        let mut r = concat2("https://api.twitch.tv/helix/streams/followed?user_id=", user_id);
        push_str(&mut r, "&first=100");
        match &self.cursor {
            Some(c) => {
                push_str(&mut r, "&after=");
                push_str(&mut r, c.as_str());
            },
            None => {},
        }
        r
    }

    /// Whether a page of `page_len` channels can be added without the
    /// count overflowing.
    pub open spec fn fits(&self, page_len: usize) -> bool {
        self.total + (page_len as u32) <= u32::MAX
    }

    /// Whether a page of `page_len` channels can be added.
    pub fn can_add(&self, page_len: usize) -> (r: bool)
        ensures
            r == self.fits(page_len),
    {
        (page_len as u32) <= u32::MAX - self.total
    }

    /// The count reported: what was counted, at most 500.
    pub open spec fn reported(&self) -> u32 {
        if self.total > followed_limit() {
            followed_limit()
        } else {
            self.total
        }
    }

    /// The number of live followed channels, counting at most 500.
    pub fn count(&self) -> (r: u32)
        ensures
            r == self.reported(),
    {
        if self.total > 500 {
            500
        } else {
            self.total
        }
    }

    /// Counts a page of `page_len` channels and keeps its cursor.
    pub fn add_page(&mut self, page_len: usize, cursor: Option<String>)
        requires
            old(self).fits(page_len),
        ensures
            final(self).total == old(self).total + (page_len as u32),
            opt_str(final(self).cursor) == opt_str(cursor),
            final(self).started,
    {
        self.total = self.total + page_len as u32;
        self.cursor = cursor;
        self.started = true;
    }
}

/// Counting stops after the last page, and once 500 live channels have been
/// counted; the count reported never passes 500.
pub proof fn lemma_pager_stops(p: FollowedPager)
    requires
        p.started,
        p.cursor is None || p.total >= 500,
    ensures
        !p.wants_more(),
        p.reported() <= 500,
        p.total >= 500 ==> p.reported() == 500,
{
}

/// The live streams that a paged listing reports: the first 500.
pub open spec fn first_results_spec(v: Seq<LiveStreamView>) -> Seq<LiveStreamView> {
    if v.len() > 500 {
        v.take(500)
    } else {
        v
    }
}

/// The first 500 of the listed live streams.
pub fn first_results(v: Vec<LiveStream>) -> (r: Vec<LiveStream>)
    ensures
        streams_view(r@) == first_results_spec(streams_view(v@)),
{
    let ghost orig = v@;
    let mut v = v;
    if v.len() > 500 {
        v.truncate(500);
        assert(streams_view(v@) =~= streams_view(orig).take(500));
    }
    v
}

/// The error for an unsuccessful `streams/followed` response: a refused
/// token whose body mentions the scope asks for re-authorisation.
pub open spec fn followed_error_spec(code: u16, body: Seq<char>) -> Seq<char> {
    if code == 401 && contains_spec(unicode_lowercase(body), "scope"@) {
        "SCOPE_ERROR: user:read:follows scope required — please reconnect"@
    } else {
        "Followed streams lookup failed: "@ + status_text_spec(code)
    }
}

/// The error for an unsuccessful `streams/followed` response with `body`.
pub fn followed_error(code: u16, body: &str) -> (r: String)
    requires
        100 <= code <= 999,
    ensures
        r@ == followed_error_spec(code, body@),
{
    let lower = to_lowercase(body);
    if code == 401 && contains(lower.as_str(), "scope") {
        owned("SCOPE_ERROR: user:read:follows scope required — please reconnect")
    } else {
        proof {
            reveal_strlit("Followed streams lookup failed");
            reveal_strlit(": ");
            reveal_strlit("Followed streams lookup failed: ");
            assert("Followed streams lookup failed"@ + ": "@ =~= "Followed streams lookup failed: "@);
        }
        status_error("Followed streams lookup failed", code)
    }
}

// ── Tokens ─────────────────────────────────────────────────────────────────

/// The token endpoint's answer.
pub struct TokenResponse {
    pub access_token: String,
    pub refresh_token: Option<String>,
    /// Seconds until the access token expires.
    pub expires_in: u64,
}

/// The form fields of a request, in order.
pub open spec fn form_view(f: Seq<(String, String)>) -> Seq<(Seq<char>, Seq<char>)> {
    f.map_values(|p: (String, String)| (p.0@, p.1@))
}

/// The URL of Twitch's token endpoint.
pub fn token_url() -> (r: String)
    ensures
        r@ == "https://id.twitch.tv/oauth2/token"@,
{
    owned("https://id.twitch.tv/oauth2/token")
}

fn field(k: &str, v: &str) -> (r: (String, String))
    ensures
        r.0@ == k@,
        r.1@ == v@,
{
    (owned(k), owned(v))
}

/// The client-ID credential, decoded.
pub open spec fn client_id_spec() -> Seq<char> {
    decode_cred_spec(
        "04,15,40,07,00,03,43,01,11,1d,47,0d,17,14,45,17,0b,52,19,04,14,0c,00,1d,06,1c,1f,0b,44,15"@,
    )
}

/// The client-secret credential, decoded.
pub open spec fn client_secret_spec() -> Seq<char> {
    decode_cred_spec(
        "4b,51,40,04,1e,0b,57,19,45,54,13,0e,4c,0c,07,5f,40,0e,16,03,00,56,55,03,43,0a,47,5c,18,17"@,
    )
}

/// The form that trades the stored refresh token for a new access token,
/// or the error when no refresh token is stored.
pub open spec fn refresh_form_spec(g: GlobalSettingsView) -> Result<
    Seq<(Seq<char>, Seq<char>)>,
    Seq<char>,
> {
    match g.refresh_token {
        None => Err("No refresh token — user must re-authenticate"@),
        Some(r) => Ok(
            seq![
                ("grant_type"@, "refresh_token"@),
                ("refresh_token"@, r),
                ("client_id"@, client_id_spec()),
                ("client_secret"@, client_secret_spec()),
            ],
        ),
    }
}

/// The refresh form for the stored settings.
pub fn refresh_form(g: &GlobalSettings) -> (r: Result<Vec<(String, String)>, String>)
    ensures
        match r {
            Ok(f) => refresh_form_spec(g@) == Ok::<Seq<(Seq<char>, Seq<char>)>, Seq<char>>(
                form_view(f@),
            ),
            Err(e) => refresh_form_spec(g@) == Err::<Seq<(Seq<char>, Seq<char>)>, Seq<char>>(e@),
        },
{
    match &g.refresh_token {
        None => Err(owned("No refresh token — user must re-authenticate")),
        Some(r) => {
            let mut f: Vec<(String, String)> = Vec::new();
            f.push(field("grant_type", "refresh_token"));
            f.push(field("refresh_token", r.as_str()));
            let cid = client_id();
            f.push(field("client_id", cid.as_str()));
            let csec = client_secret();
            f.push(field("client_secret", csec.as_str()));
            assert(form_view(f@) =~= refresh_form_spec(g@)->Ok_0);
            Ok(f)
        },
    }
}

/// The form that trades an authorisation code for tokens.
pub open spec fn exchange_form_spec(code: Seq<char>, redirect_uri: Seq<char>) -> Seq<
    (Seq<char>, Seq<char>),
> {
    seq![
        ("client_id"@, client_id_spec()),
        ("client_secret"@, client_secret_spec()),
        ("code"@, code),
        ("grant_type"@, "authorization_code"@),
        ("redirect_uri"@, redirect_uri),
    ]
}

/// The code-exchange form.
pub fn exchange_form(code: &str, redirect_uri: &str) -> (r: Vec<(String, String)>)
    ensures
        form_view(r@) == exchange_form_spec(code@, redirect_uri@),
{
    let mut f: Vec<(String, String)> = Vec::new();
    let cid = client_id();
    f.push(field("client_id", cid.as_str()));
    let csec = client_secret();
    f.push(field("client_secret", csec.as_str()));
    f.push(field("code", code));
    f.push(field("grant_type", "authorization_code"));
    f.push(field("redirect_uri", redirect_uri));
    assert(form_view(f@) =~= exchange_form_spec(code@, redirect_uri@));
    f
}

/// When a token that lives `expires_in` seconds from `now_ms` expires.
pub open spec fn expiry_spec(now_ms: u64, expires_in: u64) -> int {
    now_ms + expires_in * 1000
}

/// The settings fields that a refresh stores: the new access token, the
/// new refresh token (or the one used), and the expiry.
pub open spec fn refreshed_fields(
    access: Seq<char>,
    new_refresh: Option<Seq<char>>,
    used_refresh: Seq<char>,
    expiry: u64,
) -> GlobalSettingsView {
    GlobalSettingsView {
        access_token: Some(access),
        refresh_token: Some(
            match new_refresh {
                Some(r) => r,
                None => used_refresh,
            },
        ),
        token_expiry: Some(expiry),
        authed_display_name: None,
        authed_avatar_url: None,
        authed_user_id: None,
    }
}

/// A refresh stores the new access token and its expiry, keeps a refresh
/// token (the new one, else the one used), and leaves the signed-in account
/// as it was.
pub proof fn lemma_refresh_keeps_account(
    g: GlobalSettingsView,
    access: Seq<char>,
    new_refresh: Option<Seq<char>>,
    used_refresh: Seq<char>,
    expiry: u64,
)
    ensures
        ({
            let h = merge_spec(g, refreshed_fields(access, new_refresh, used_refresh, expiry));
            &&& h.access_token == Some(access)
            &&& h.token_expiry == Some(expiry)
            &&& h.refresh_token == Some(
                match new_refresh {
                    Some(r) => r,
                    None => used_refresh,
                },
            )
            &&& h.authed_user_id == g.authed_user_id
            &&& h.authed_display_name == g.authed_display_name
            &&& h.authed_avatar_url == g.authed_avatar_url
        }),
{
}

/// Stores a refreshed token and says so: the settings are merged and
/// announced, a log line follows, and the new access token is returned.
pub fn refresh_finish(
    st: &mut PluginState,
    tok: TokenResponse,
    used_refresh: &str,
    now_ms: u64,
) -> (r: (String, Vec<Effect>))
    requires
        expiry_spec(now_ms, tok.expires_in) <= u64::MAX,
    ensures
        final(st)@ == (PluginView {
            global: merge_spec(
                old(st)@.global,
                refreshed_fields(
                    tok.access_token@,
                    opt_str(tok.refresh_token),
                    used_refresh@,
                    expiry_spec(now_ms, tok.expires_in) as u64,
                ),
            ),
            ..old(st)@
        }),
        r.0@ == tok.access_token@,
        effects_view(r.1@) == seq![
            EffectView::Send(
                OutgoingView::SetGlobalSettings { context: old(st)@.uuid, settings: final(st)@.global },
            ),
            EffectView::Send(log_view("Token refreshed (global)"@)),
        ],
{
    let access = tok.access_token.clone();
    let new_refresh = match tok.refresh_token {
        Some(r) => r,
        None => owned(used_refresh),
    };
    let fields = GlobalSettings {
        access_token: Some(tok.access_token),
        refresh_token: Some(new_refresh),
        token_expiry: Some(now_ms + tok.expires_in * 1000),
        authed_display_name: None,
        authed_avatar_url: None,
        authed_user_id: None,
    };
    let o = st.save_global_auth(fields);
    let mut out: Vec<Effect> = Vec::new();
    emit_send(&mut out, o);
    emit_send(&mut out, log("Token refreshed (global)"));
    assert(effects_view(out@) =~= seq![
        EffectView::Send(
            OutgoingView::SetGlobalSettings { context: old(st)@.uuid, settings: st@.global },
        ),
        EffectView::Send(log_view("Token refreshed (global)"@)),
    ]);
    (access, out)
}

/// The settings fields that a completed authorisation stores.
pub open spec fn authorised_fields(
    access: Seq<char>,
    refresh: Option<Seq<char>>,
    expiry: u64,
    user: TwitchUserView,
) -> GlobalSettingsView {
    GlobalSettingsView {
        access_token: Some(access),
        refresh_token: refresh,
        token_expiry: Some(expiry),
        authed_display_name: Some(user.display_name),
        authed_avatar_url: Some(user.profile_image_url),
        authed_user_id: Some(user.id),
    }
}

/// What a completed authorisation does after the code exchange: it stores
/// the tokens and the account, polls every key, tells every key, and logs.
pub open spec fn exchange_effects(s: PluginView, g: GlobalSettingsView, user: TwitchUserView) -> Seq<
    EffectView,
> {
    seq![EffectView::Send(OutgoingView::SetGlobalSettings { context: s.uuid, settings: g })]
        + poll_all_view(ctx_keys(s.contexts)) + broadcast_view(
        ctx_keys(s.contexts),
        PiPayloadView::AuthSuccess {
            authed_display_name: user.display_name,
            authed_avatar_url: user.profile_image_url,
        },
    ) + seq![EffectView::Send(log_view("OAuth success — authenticated as "@ + user.display_name))]
}

/// Stores the tokens and account of a completed authorisation.
pub fn exchange_finish(
    st: &mut PluginState,
    tok: TokenResponse,
    user: &TwitchUser,
    now_ms: u64,
) -> (out: Vec<Effect>)
    requires
        expiry_spec(now_ms, tok.expires_in) <= u64::MAX,
    ensures
        final(st)@ == (PluginView {
            global: merge_spec(
                old(st)@.global,
                authorised_fields(
                    tok.access_token@,
                    opt_str(tok.refresh_token),
                    expiry_spec(now_ms, tok.expires_in) as u64,
                    user@,
                ),
            ),
            ..old(st)@
        }),
        effects_view(out@) == exchange_effects(old(st)@, final(st)@.global, user@),
{
    let fields = GlobalSettings {
        access_token: Some(tok.access_token),
        refresh_token: tok.refresh_token,
        token_expiry: Some(now_ms + tok.expires_in * 1000),
        authed_display_name: Some(user.display_name.clone()),
        authed_avatar_url: Some(user.profile_image_url.clone()),
        authed_user_id: Some(user.id.clone()),
    };
    let o = st.save_global_auth(fields);
    let mut out: Vec<Effect> = Vec::new();
    emit_send(&mut out, o);
    st.poll_all(&mut out);
    st.broadcast_auth_status(
        &PiPayload::AuthSuccess {
            authed_display_name: user.display_name.clone(),
            authed_avatar_url: user.profile_image_url.clone(),
        },
        &mut out,
    );
    let text = concat2("OAuth success — authenticated as ", user.display_name.as_str());
    emit_send(&mut out, log(text.as_str()));
    assert(effects_view(out@) =~= exchange_effects(old(st)@, st@.global, user@));
    out
}

} // verus!
