//! Percent-encoding of usernames in URLs, and percent-decoding of the OAuth
//! `state` parameter.
use vstd::prelude::*;
use vstd::utf8::{encode_utf8, is_ascii_chars, is_ascii_chars_encode_utf8};
use crate::strs::{digit_char, hex_upper, hex_value, hex_digit_value, parse_hex_u8, parse_hex_u8_spec, push_char, push_hex_upper, to_chars};

verus! {

/// The characters that `encode` leaves as they are: ASCII letters and
/// digits, `-`, `_`, `.` and `~`.
pub open spec fn unreserved(c: char) -> bool {
    ('a' <= c <= 'z') || ('A' <= c <= 'Z') || ('0' <= c <= '9') || c == '-' || c == '_' || c
        == '.' || c == '~'
}

/// Hexadecimal digits padded with a leading zero to at least two.
pub open spec fn pad2(h: Seq<char>) -> Seq<char> {
    if h.len() < 2 {
        seq!['0'].add(h)
    } else {
        h
    }
}

/// What one character becomes: itself if unreserved, otherwise `%`
/// followed by its code point in upper-case hexadecimal, at least two digits.
pub open spec fn encode_char(c: char) -> Seq<char> {
    if unreserved(c) {
        seq![c]
    } else {
        seq!['%'].add(pad2(hex_upper((c as u32) as nat)))
    }
}

/// The percent-encoding of a whole string, character by character.
pub open spec fn encode_spec(s: Seq<char>) -> Seq<char>
    decreases s.len(),
{
    if s.len() == 0 {
        Seq::empty()
    } else {
        encode_char(s[0]).add(encode_spec(s.drop_first()))
    }
}

proof fn lemma_encode_push(s: Seq<char>, c: char)
    ensures
        encode_spec(s.push(c)) == encode_spec(s).add(encode_char(c)),
    decreases s.len(),
{
    if s.len() == 0 {
        assert(s.push(c).drop_first() =~= Seq::<char>::empty());
        assert(encode_spec(s.push(c).drop_first()) == Seq::<char>::empty());
        assert(encode_spec(s) == Seq::<char>::empty());
        assert(encode_spec(s.push(c)) =~= encode_char(c));
    } else {
        assert(s.push(c).drop_first() =~= s.drop_first().push(c));
        lemma_encode_push(s.drop_first(), c);
        assert(encode_spec(s.push(c)) =~= encode_spec(s).add(encode_char(c)));
    }
}

fn is_unreserved(c: char) -> (r: bool)
    ensures
        r == unreserved(c),
{
    ('a' <= c && c <= 'z') || ('A' <= c && c <= 'Z') || ('0' <= c && c <= '9') || c == '-' || c
        == '_' || c == '.' || c == '~'
}

/// Simple percent-encoding for Twitch usernames in URLs: unreserved
/// characters stay, every other character becomes `%` and its code point in
/// upper-case hexadecimal (two digits at least).
pub fn encode(s: &str) -> (r: String)
    ensures
        r@ == encode_spec(s@),
{
    let v = to_chars(s);
    let mut out = String::new();
    let mut i: usize = 0;
    while i < v.len()
        invariant
            i <= v@.len(),
            out@ == encode_spec(v@.take(i as int)),
        decreases v@.len() - i,
    {
        let c = v[i];
        let ghost before = out@;
        if is_unreserved(c) {
            push_char(&mut out, c);
        } else {
            push_char(&mut out, '%');
            let u = c as u32;
            if u < 16 {
                push_char(&mut out, '0');
            }
            let ghost mid = out@;
            push_hex_upper(&mut out, u as u64);
            proof {
                let h = hex_upper((c as u32) as nat);
                assert(u as u64 as nat == (c as u32) as nat);
                if u < 16 {
                    assert(h.len() == 1);
                    assert(pad2(h) =~= seq!['0'].add(h));
                    assert(mid =~= before.push('%').push('0'));
                } else {
                    lemma_hex_upper_len_ge2(u as nat);
                    assert(pad2(h) == h);
                    assert(mid =~= before.push('%'));
                }
                assert(encode_char(c) == seq!['%'].add(pad2(h)));
            }
        }
        proof {
            assert(out@ =~= before.add(encode_char(c)));
            lemma_encode_push(v@.take(i as int), c);
            assert(v@.take(i + 1) =~= v@.take(i as int).push(c));
        }
        i = i + 1;
    }
    assert(v@.take(v@.len() as int) =~= v@);
    out
}

proof fn lemma_hex_upper_len_ge2(n: nat)
    requires
        n >= 16,
    ensures
        hex_upper(n).len() >= 2,
    decreases n,
{
    if n / 16 >= 16 {
        lemma_hex_upper_len_ge2(n / 16);
    } else {
        assert(hex_upper(n / 16).len() == 1);
    }
}

// ── Decoding ───────────────────────────────────────────────────────────────

/// What the two bytes after a `%` decode to: the byte that
/// `u8::from_str_radix` reads from them, if it reads one.
pub open spec fn hex_pair(b1: u8, b2: u8) -> Option<u8> {
    parse_hex_u8_spec(seq![b1 as char, b2 as char])
}

/// Percent-decoding of a byte string: `%` followed by two more bytes that
/// form a hexadecimal byte becomes that byte's character, `+` becomes a
/// space, and every other byte becomes the character with its value.
pub open spec fn percent_decode_spec(b: Seq<u8>) -> Seq<char>
    decreases b.len(),
{
    if b.len() == 0 {
        Seq::empty()
    } else if b[0] == 37u8 && b.len() > 2 && hex_pair(b[1], b[2]) is Some {
        seq![(hex_pair(b[1], b[2]).unwrap() as char)].add(
            percent_decode_spec(b.subrange(3, b.len() as int)),
        )
    } else if b[0] == 43u8 {
        seq![' '].add(percent_decode_spec(b.drop_first()))
    } else {
        seq![(b[0] as char)].add(percent_decode_spec(b.drop_first()))
    }
}

/// Decodes `%XX` escapes and `+` in an OAuth `state` parameter, working on
/// the UTF-8 bytes of `s`; each byte that is not part of an escape becomes
/// the character with the byte's value.
pub fn percent_decode(s: &str) -> (r: String)
    ensures
        r@ == percent_decode_spec(encode_utf8(s@)),
{
    let bytes = s.as_bytes();
    let n = bytes.len();
    let mut out = String::new();
    let mut i: usize = 0;
    assert(bytes@.subrange(0, n as int) =~= bytes@);
    assert(out@.add(percent_decode_spec(bytes@)) =~= percent_decode_spec(bytes@));
    while i < n
        invariant
            n == bytes@.len(),
            bytes@ == encode_utf8(s@),
            i <= n,
            out@.add(percent_decode_spec(bytes@.subrange(i as int, n as int)))
                == percent_decode_spec(bytes@),
        decreases n - i,
    {
        let ghost rest = bytes@.subrange(i as int, n as int);
        let b = bytes[i];
        if b == 37u8 && n - i > 2 {
            let pair: [char; 2] = [bytes[i + 1] as char, bytes[i + 2] as char];
            assert(pair@ =~= seq![rest[1] as char, rest[2] as char]);
            assert(pair@.subrange(0, 2) == pair@);
            match parse_hex_u8(&pair, 0, 2) {
                Some(x) => {
                    push_char(&mut out, x as char);
                    proof {
                        assert(rest.subrange(3, rest.len() as int) =~= bytes@.subrange(
                            i + 3,
                            n as int,
                        ));
                        assert(out@.add(percent_decode_spec(bytes@.subrange(i + 3, n as int)))
                            =~= out@.drop_last().add(percent_decode_spec(rest)));
                    }
                    i = i + 3;
                    continue ;
                },
                None => {},
            }
        } else if b == 43u8 {
            push_char(&mut out, ' ');
            proof {
                assert(rest.drop_first() =~= bytes@.subrange(i + 1, n as int));
                assert(out@.add(percent_decode_spec(bytes@.subrange(i + 1, n as int)))
                    =~= out@.drop_last().add(percent_decode_spec(rest)));
            }
            i = i + 1;
            continue ;
        }
        push_char(&mut out, b as char);
        proof {
            assert(rest.drop_first() =~= bytes@.subrange(i + 1, n as int));
            assert(out@.add(percent_decode_spec(bytes@.subrange(i + 1, n as int)))
                =~= out@.drop_last().add(percent_decode_spec(rest)));
        }
        i = i + 1;
    }
    assert(bytes@.subrange(n as int, n as int) =~= Seq::<u8>::empty());
    assert(out@.add(Seq::<char>::empty()) =~= out@);
    out
}

// ── The two directions together ────────────────────────────────────────────

/// Whether every character of `s` is at most U+00FF.
pub open spec fn latin1(s: Seq<char>) -> bool {
    forall|i: int| 0 <= i < s.len() ==> (#[trigger] s[i] as u32) <= 0xff
}

proof fn lemma_encode_char_ascii(c: char)
    requires
        (c as u32) <= 0xff,
    ensures
        is_ascii_chars(encode_char(c)),
        encode_char(c).len() == 1 || encode_char(c).len() == 3,
{
    let u = (c as u32) as nat;
    if !unreserved(c) {
        assert(hex_upper(u / 16) == seq![digit_char(u / 16)]);
    }
}

proof fn lemma_encode_ascii(s: Seq<char>)
    requires
        latin1(s),
    ensures
        is_ascii_chars(encode_spec(s)),
    decreases s.len(),
{
    if s.len() > 0 {
        assert(latin1(s.drop_first())) by {
            assert forall|i: int| 0 <= i < s.drop_first().len() implies (#[trigger] s.drop_first()[i]
                as u32) <= 0xff by {
                assert(s.drop_first()[i] == s[i + 1]);
            }
        }
        assert((s[0] as u32) <= 0xff);
        lemma_encode_char_ascii(s[0]);
        lemma_encode_ascii(s.drop_first());
        let e = encode_spec(s);
        assert forall|i: int| 0 <= i < e.len() implies '\0' <= #[trigger] e[i] <= '\u{7f}' by {
            if i < encode_char(s[0]).len() {
                assert(e[i] == encode_char(s[0])[i]);
            } else {
                assert(e[i] == encode_spec(s.drop_first())[i - encode_char(s[0]).len()]);
            }
        }
    }
}

/// The bytes of an ASCII character sequence, one per character.
pub open spec fn ascii_bytes(s: Seq<char>) -> Seq<u8> {
    Seq::new(s.len(), |i: int| s[i] as u8)
}

proof fn lemma_digit_value(k: nat)
    requires
        k < 16,
    ensures
        hex_digit_value(digit_char(k)) == Some(k),
        (digit_char(k) as u32) < 128,
        ((digit_char(k) as u8) as char) == digit_char(k),
{
}

proof fn lemma_byte_char(c: char)
    requires
        (c as u32) < 256,
    ensures
        ((c as u8) as char) == c,
{
}

proof fn lemma_hex_pair_of_escape(c: char)
    requires
        (c as u32) <= 0xff,
        !unreserved(c),
    ensures
        ({
            let e = encode_char(c);
            hex_pair(e[1] as u8, e[2] as u8) == Some(c as u8)
        }),
{
    let u = (c as u32) as nat;
    let e = encode_char(c);
    let d = seq![e[1] as u8 as char, e[2] as u8 as char];
    reveal_with_fuel(hex_value, 3);
    if u < 16 {
        lemma_digit_value(0);
        lemma_digit_value(u);
        assert(hex_upper(u) == seq![digit_char(u)]);
        assert(e =~= seq!['%', '0', digit_char(u)]);
        assert(d =~= seq![digit_char(0), digit_char(u)]);
        assert(d.drop_last() =~= seq![digit_char(0)]);
        assert(seq![digit_char(0)].drop_last() =~= Seq::<char>::empty());
        assert(hex_value(d) == u);
    } else {
        lemma_digit_value(u / 16);
        lemma_digit_value(u % 16);
        assert(hex_upper(u / 16) == seq![digit_char(u / 16)]);
        assert(e =~= seq!['%', digit_char(u / 16), digit_char(u % 16)]);
        assert(d =~= seq![digit_char(u / 16), digit_char(u % 16)]);
        assert(d.drop_last() =~= seq![digit_char(u / 16)]);
        assert(seq![digit_char(u / 16)].drop_last() =~= Seq::<char>::empty());
        assert(hex_value(d) == u);
    }
    assert(hex_digit_value(d[0]) is Some);
    assert(hex_digit_value(d[1]) is Some);
}

proof fn lemma_decode_encode_ascii(s: Seq<char>)
    requires
        latin1(s),
    ensures
        percent_decode_spec(ascii_bytes(encode_spec(s))) == s,
    decreases s.len(),
{
    if s.len() > 0 {
        let c = s[0];
        let t = s.drop_first();
        assert(latin1(t)) by {
            assert forall|i: int| 0 <= i < t.len() implies (#[trigger] t[i] as u32) <= 0xff by {
                assert(t[i] == s[i + 1]);
            }
        }
        assert((c as u32) <= 0xff);
        lemma_decode_encode_ascii(t);
        lemma_encode_char_ascii(c);
        let ec = encode_char(c);
        let b = ascii_bytes(encode_spec(s));
        let bt = ascii_bytes(encode_spec(t));
        assert(encode_spec(s) == ec.add(encode_spec(t)));
        assert(b =~= ascii_bytes(ec).add(bt));
        lemma_byte_char(c);
        if unreserved(c) {
            assert(b[0] == c as u8);
            assert(b.drop_first() =~= bt);
            assert(percent_decode_spec(b) =~= seq![c].add(t));
        } else {
            lemma_hex_pair_of_escape(c);
            assert(b[0] == 37u8);
            assert(b[1] == ec[1] as u8);
            assert(b[2] == ec[2] as u8);
            assert(b.subrange(3, b.len() as int) =~= bt);
            assert(percent_decode_spec(b) =~= seq![c].add(t));
        }
        assert(s =~= seq![c].add(t));
    }
}

/// Percent-decoding undoes `encode` on every string whose characters are
/// at most U+00FF (the escapes carry two hexadecimal digits, so a character
/// beyond U+00FF does not come back).
pub proof fn lemma_percent_decode_inverts_encode(s: Seq<char>)
    requires
        latin1(s),
    ensures
        percent_decode_spec(encode_utf8(encode_spec(s))) == s,
{
    lemma_encode_ascii(s);
    let e = encode_spec(s);
    is_ascii_chars_encode_utf8(e);
    assert(encode_utf8(e) =~= ascii_bytes(e));
    lemma_decode_encode_ascii(s);
}

} // verus!
