//! The alert sound of a monitor key: the MP3 bytes carried in the key's
//! settings as a base64 data URI.
use vstd::prelude::*;
use crate::images::{base64_decode, base64_decoded, res_bytes};
use crate::strs::{after_char, find_char, string_of, to_chars};

verus! {

/// The base64 part of a data URI: everything after the first comma, or the
/// whole text where it has none.
pub open spec fn sound_payload(uri: Seq<char>) -> Seq<char> {
    match after_char(uri, ',') {
        Some(rest) => rest,
        None => uri,
    }
}

/// The base64 part of a data URI (see `sound_payload`).
pub fn sound_payload_of(data_uri: &str) -> (r: String)
    ensures
        r@ == sound_payload(data_uri@),
{
    let v = to_chars(data_uri);
    let n = v.len();
    let i = find_char(&v, 0, n, ',');
    assert(v@.subrange(0, n as int) =~= v@);
    if i < n {
        let rest = string_of(&v, i + 1, n);
        rest
    } else {
        let all = string_of(&v, 0, n);
        assert(all@ =~= data_uri@);
        all
    }
}

/// The MP3 bytes of an alert sound given as a base64 data URI: the base64
/// part decoded with the standard engine, or the decoder's error.
pub fn sound_bytes(data_uri: &str) -> (r: Result<Vec<u8>, String>)
    ensures
        res_bytes(r) == base64_decoded(sound_payload(data_uri@)),
{
    let payload = sound_payload_of(data_uri);
    base64_decode(payload.as_str())
}

} // verus!
