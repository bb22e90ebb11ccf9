//! Kick.com channel status from the public (unauthenticated) channel-info
//! endpoint: the request and how its answer becomes a status.
use vstd::prelude::*;
use crate::settings::opt_str;
use crate::strs::{concat2, owned, push_str, to_lowercase, trim, trim_spec, unicode_lowercase};
use crate::twitch::{is_success_spec, status_text, status_text_spec};

verus! {

/// Live status snapshot for a Kick channel.
pub struct KickStatus {
    pub display_name: String,
    pub avatar_url: Option<String>,
    pub is_live: bool,
    pub viewer_count: Option<u32>,
}

/// The view of `KickStatus`.
pub struct KickStatusView {
    pub display_name: Seq<char>,
    pub avatar_url: Option<Seq<char>>,
    pub is_live: bool,
    pub viewer_count: Option<u32>,
}

impl View for KickStatus {
    type V = KickStatusView;

    open spec fn view(&self) -> KickStatusView {
        KickStatusView {
            display_name: self.display_name@,
            avatar_url: opt_str(self.avatar_url),
            is_live: self.is_live,
            viewer_count: self.viewer_count,
        }
    }
}

/// The channel-info URL for a channel slug (trimmed, lower-cased).
pub fn channel_url(slug: &str) -> (r: String)
    ensures
        r@ == "https://kick.com/api/v2/channels/"@ + unicode_lowercase(trim_spec(slug@)),
{
    let t = trim(slug);
    let l = to_lowercase(t.as_str());
    concat2("https://kick.com/api/v2/channels/", l.as_str())
}

/// The desktop browser user agent sent to Kick, whose endpoint turns away
/// obvious bot clients.
pub fn user_agent() -> (r: String)
    ensures
        r@ == "Mozilla/5.0 (Windows NT 10.0; Win64; x64) AppleWebKit/537.36 (KHTML, like Gecko) Chrome/124.0 Safari/537.36"@,
{
    owned(
        "Mozilla/5.0 (Windows NT 10.0; Win64; x64) AppleWebKit/537.36 (KHTML, like Gecko) Chrome/124.0 Safari/537.36",
    )
}

/// What a channel-info status means: 404 is an unknown channel, any other
/// failure is reported with the status, a success goes on to the body.
pub open spec fn kick_check_spec(code: u16, slug: Seq<char>) -> Result<(), Seq<char>> {
    if code == 404 {
        Err("Channel not found: "@ + slug)
    } else if !is_success_spec(code) {
        Err("Kick lookup failed: "@ + status_text_spec(code))
    } else {
        Ok(())
    }
}

/// The error, if any, for a channel-info response status.
pub fn check_channel_response(code: u16, slug: &str) -> (r: Result<(), String>)
    requires
        100 <= code <= 999,
    ensures
        match r {
            Ok(()) => kick_check_spec(code, slug@) is Ok,
            Err(e) => kick_check_spec(code, slug@) == Err::<(), Seq<char>>(e@),
        },
{
    if code == 404 {
        return Err(concat2("Channel not found: ", slug));
    }
    if !(200 <= code && code <= 299) {
        let mut e = owned("Kick lookup failed: ");
        let t = status_text(code);
        push_str(&mut e, t.as_str());
        return Err(e);
    }
    Ok(())
}

/// A channel's status from its info: live while a livestream is listed,
/// with that stream's viewer count (where given).
pub fn channel_status(
    username: String,
    profile_pic: Option<String>,
    livestream: Option<Option<u32>>,
) -> (r: KickStatus)
    ensures
        r@ == (KickStatusView {
            display_name: username@,
            avatar_url: opt_str(profile_pic),
            is_live: livestream is Some,
            viewer_count: match livestream {
                Some(v) => v,
                None => None,
            },
        }),
{
    let (is_live, viewer_count) = match livestream {
        Some(v) => (true, v),
        None => (false, None),
    };
    KickStatus { display_name: username, avatar_url: profile_pic, is_live, viewer_count }
}

} // verus!
