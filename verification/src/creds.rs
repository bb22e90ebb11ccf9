//! The application credentials, stored XOR-obfuscated as comma-separated
//! hexadecimal bytes.
use vstd::prelude::*;
use crate::strs::{
    all_hex, hex_digit_value, hex_value, parse_hex_u8, parse_hex_u8_spec, push_char, split_spec,
    to_chars, trim_end_spec, trim_range, trim_spec, trim_start_spec,
};

verus! {

/// The repeating XOR key, the bytes of `sdplug1n`.
pub open spec fn cred_key() -> Seq<u8> {
    seq![0x73u8, 0x64u8, 0x70u8, 0x6cu8, 0x75u8, 0x67u8, 0x31u8, 0x6eu8]
}

/// The byte written by one comma-separated piece: the piece, trimmed, read
/// as a hexadecimal byte, or 0 where it is not one.
pub open spec fn cred_byte(piece: Seq<char>) -> u8 {
    match parse_hex_u8_spec(trim_spec(piece)) {
        Some(b) => b,
        None => 0,
    }
}

/// The character that the `i`-th piece decodes to.
pub open spec fn cred_char(piece: Seq<char>, i: int) -> char {
    ((cred_byte(piece) ^ cred_key()[i % 8]) as u8) as char
}

/// The characters that a sequence of pieces decodes to.
pub open spec fn cred_chars(pieces: Seq<Seq<char>>) -> Seq<char> {
    Seq::new(pieces.len(), |j: int| cred_char(pieces[j], j))
}

/// What an obfuscated credential decodes to: one character per
/// comma-separated piece.
pub open spec fn decode_cred_spec(hex_csv: Seq<char>) -> Seq<char> {
    cred_chars(split_spec(hex_csv, ','))
}

fn key_byte(i: usize) -> (b: u8)
    ensures
        b == cred_key()[i as int % 8],
{
    let k: [u8; 8] = [0x73, 0x64, 0x70, 0x6c, 0x75, 0x67, 0x31, 0x6e];
    assert(k@ == cred_key());
    k[i % 8]
}

/// Decodes a credential written as comma-separated hexadecimal bytes, each
/// XORed with the repeating key `sdplug1n`.  A piece that is not a
/// hexadecimal byte counts as 0.
#[verifier::loop_isolation(false)]
pub fn decode_cred(hex_csv: &str) -> (r: String)
    ensures
        r@ == decode_cred_spec(hex_csv@),
{
    let v = to_chars(hex_csv);
    let mut out = String::new();
    let mut start: usize = 0;
    let mut count: usize = 0;
    let ghost mut pieces: Seq<Seq<char>> = Seq::empty();
    let mut k: usize = 0;
    assert(v@.take(0) == Seq::<char>::empty());
    assert(v@.subrange(0, 0) == Seq::<char>::empty());
    assert(split_spec(Seq::<char>::empty(), ',') == pieces.push(Seq::<char>::empty()));
    while k < v.len()
        invariant
            v@ == hex_csv@,
            start <= k <= v@.len(),
            count == pieces.len(),
            count <= k,
            split_spec(v@.take(k as int), ',') == pieces.push(v@.subrange(start as int, k as int)),
            out@ == cred_chars(pieces),
        decreases v@.len() - k,
    {
        assert(v@.take(k + 1).drop_last() == v@.take(k as int));
        assert(v@.take(k + 1).last() == v@[k as int]);
        if v[k] == ',' {
            let (a, b) = trim_range(&v, start, k);
            let byte = match parse_hex_u8(&v, a, b) {
                Some(x) => x,
                None => 0,
            };
            let c = (byte ^ key_byte(count)) as char;
            push_char(&mut out, c);
            proof {
                let piece = v@.subrange(start as int, k as int);
                assert(cred_char(piece, count as int) == c);
                assert(cred_chars(pieces.push(piece)) =~= cred_chars(pieces).push(c));
                pieces = pieces.push(piece);
                assert(v@.subrange(k + 1, k + 1) =~= Seq::<char>::empty());
            }
            start = k + 1;
            count = count + 1;
        } else {
            proof {
                let init = pieces.push(v@.subrange(start as int, k as int));
                assert(v@.subrange(start as int, k + 1) =~= v@.subrange(start as int, k as int).push(
                    v@[k as int],
                ));
                assert(init.update(init.len() - 1, init.last().push(v@[k as int])) =~= pieces.push(
                    v@.subrange(start as int, k + 1),
                ));
            }
        }
        k = k + 1;
    }
    assert(v@.take(v@.len() as int) == v@);
    let (a, b) = trim_range(&v, start, v.len());
    let byte = match parse_hex_u8(&v, a, b) {
        Some(x) => x,
        None => 0,
    };
    let c = (byte ^ key_byte(count)) as char;
    push_char(&mut out, c);
    proof {
        let piece = v@.subrange(start as int, v@.len() as int);
        assert(cred_char(piece, count as int) == c);
        assert(cred_chars(pieces.push(piece)) =~= cred_chars(pieces).push(c));
    }
    out
}

/// The Twitch application's client ID.
pub fn client_id() -> (r: String)
    ensures
        r@ == decode_cred_spec(
            "04,15,40,07,00,03,43,01,11,1d,47,0d,17,14,45,17,0b,52,19,04,14,0c,00,1d,06,1c,1f,0b,44,15"@,
        ),
{
    decode_cred(
        "04,15,40,07,00,03,43,01,11,1d,47,0d,17,14,45,17,0b,52,19,04,14,0c,00,1d,06,1c,1f,0b,44,15",
    )
}

/// The Twitch application's client secret.
pub fn client_secret() -> (r: String)
    ensures
        r@ == decode_cred_spec(
            "4b,51,40,04,1e,0b,57,19,45,54,13,0e,4c,0c,07,5f,40,0e,16,03,00,56,55,03,43,0a,47,5c,18,17"@,
        ),
{
    decode_cred(
        "4b,51,40,04,1e,0b,57,19,45,54,13,0e,4c,0c,07,5f,40,0e,16,03,00,56,55,03,43,0a,47,5c,18,17",
    )
}


// ── Writing a credential, and reading it back ──────────────────────────────

/// The lower-case hexadecimal digit of `d` (below 16).
pub open spec fn lower_hex_digit(d: nat) -> char {
    if d < 10 {
        ((48 + d) as u32) as char
    } else {
        ((87 + d) as u32) as char
    }
}

/// A byte as two lower-case hexadecimal digits (`{:02x}`).
pub open spec fn hex2(v: u8) -> Seq<char> {
    seq![lower_hex_digit(v as nat / 16), lower_hex_digit(v as nat % 16)]
}

/// The obfuscated form of `b`: each byte XORed with the repeating key,
/// written as two hexadecimal digits, the pieces joined by commas.
pub open spec fn cred_encode(b: Seq<u8>) -> Seq<char>
    decreases b.len(),
{
    if b.len() == 0 {
        Seq::empty()
    } else if b.len() == 1 {
        hex2(b[0] ^ cred_key()[0])
    } else {
        cred_encode(b.drop_last()) + seq![','] + hex2(b.last() ^ cred_key()[(b.len() - 1) % 8])
    }
}

/// Splitting text without the separator gives the text itself.
proof fn lemma_split_whole(t: Seq<char>, sep: char)
    requires
        !t.contains(sep),
    ensures
        split_spec(t, sep) == seq![t],
    decreases t.len(),
{
    if t.len() > 0 {
        let d = t.drop_last();
        assert(!d.contains(sep)) by {
            if d.contains(sep) {
                let i = choose|i: int| 0 <= i < d.len() && d[i] == sep;
                assert(t[i] == sep);
            }
        }
        lemma_split_whole(d, sep);
        assert(t.last() != sep) by {
            assert(t[t.len() - 1] == t.last());
        }
        assert(d.push(t.last()) =~= t);
        assert(split_spec(t, sep) == seq![d].update(0, d.push(t.last())));
        assert(seq![d].update(0, d.push(t.last())) =~= seq![t]);
    } else {
        assert(t =~= Seq::<char>::empty());
    }
}

/// Splitting `a`, the separator and then `t` without the separator adds `t`
/// as the last piece.
proof fn lemma_split_after_sep(a: Seq<char>, t: Seq<char>, sep: char)
    requires
        !t.contains(sep),
    ensures
        split_spec(a + seq![sep] + t, sep) == split_spec(a, sep).push(t),
    decreases t.len(),
{
    let s = a + seq![sep] + t;
    if t.len() == 0 {
        assert(s.drop_last() =~= a);
        assert(s.last() == sep);
        assert(t =~= Seq::<char>::empty());
        assert(split_spec(s, sep) == split_spec(a, sep).push(Seq::<char>::empty()));
    } else {
        let d = t.drop_last();
        assert(!d.contains(sep)) by {
            if d.contains(sep) {
                let i = choose|i: int| 0 <= i < d.len() && d[i] == sep;
                assert(t[i] == sep);
            }
        }
        lemma_split_after_sep(a, d, sep);
        assert(s.drop_last() =~= a + seq![sep] + d);
        assert(s.last() == t.last());
        assert(t.last() != sep) by {
            assert(t[t.len() - 1] == t.last());
        }
        assert(d.push(t.last()) =~= t);
        let init = split_spec(a, sep).push(d);
        assert(split_spec(s, sep) == init.update(init.len() - 1, init.last().push(s.last())));
        assert(split_spec(a, sep).push(d).update(
            split_spec(a, sep).push(d).len() - 1,
            d.push(t.last()),
        ) =~= split_spec(a, sep).push(t));
    }
}

/// The obfuscated form splits into one two-digit piece per byte.
proof fn lemma_encode_pieces(b: Seq<u8>)
    requires
        b.len() >= 1,
    ensures
        split_spec(cred_encode(b), ',') == Seq::new(
            b.len(),
            |i: int| hex2(b[i] ^ cred_key()[i % 8]),
        ),
    decreases b.len(),
{
    let want = Seq::new(b.len(), |i: int| hex2(b[i] ^ cred_key()[i % 8]));
    if b.len() == 1 {
        let h = hex2(b[0] ^ cred_key()[0]);
        assert(!h.contains(',')) by {
            if h.contains(',') {
                let i = choose|i: int| 0 <= i < h.len() && h[i] == ',';
                assert(i == 0 || i == 1);
            }
        }
        lemma_split_whole(h, ',');
        assert(seq![h] =~= want);
    } else {
        let n = b.len() - 1;
        let h = hex2(b.last() ^ cred_key()[n % 8]);
        assert(!h.contains(',')) by {
            if h.contains(',') {
                let i = choose|i: int| 0 <= i < h.len() && h[i] == ',';
                assert(i == 0 || i == 1);
            }
        }
        lemma_encode_pieces(b.drop_last());
        lemma_split_after_sep(cred_encode(b.drop_last()), h, ',');
        assert(Seq::new(b.drop_last().len(), |i: int| hex2(b.drop_last()[i] ^ cred_key()[i % 8])).push(h)
            =~= want);
    }
}

/// A two-digit piece reads back as its byte.
proof fn lemma_hex2_reads_back(v: u8)
    ensures
        cred_byte(hex2(v)) == v,
{
    let h = hex2(v);
    let hi = v as nat / 16;
    let lo = v as nat % 16;
    assert(hex_digit_value(lower_hex_digit(hi)) == Some(hi));
    assert(hex_digit_value(lower_hex_digit(lo)) == Some(lo));
    assert(trim_start_spec(h) == h);
    assert(trim_end_spec(h) == h);
    assert(all_hex(h));
    assert(h.drop_last() =~= seq![lower_hex_digit(hi)]);
    assert(seq![lower_hex_digit(hi)].drop_last() =~= Seq::<char>::empty());
    reveal_with_fuel(hex_value, 3);
    assert(hex_value(seq![lower_hex_digit(hi)]) == hi);
    assert(hex_value(h) == hi * 16 + lo);
}

/// Reading back the obfuscated form of a non-empty byte string gives its
/// bytes as characters: decoding undoes the XOR obfuscation.
pub proof fn lemma_decode_cred_round_trip(b: Seq<u8>)
    requires
        b.len() >= 1,
    ensures
        decode_cred_spec(cred_encode(b)) == b.map_values(|x: u8| x as char),
{
    lemma_encode_pieces(b);
    let pieces = split_spec(cred_encode(b), ',');
    assert forall|j: int| 0 <= j < b.len() implies cred_char(pieces[j], j) == b[j] as char by {
        let k: u8 = cred_key()[j % 8];
        let bj: u8 = b[j];
        let v: u8 = bj ^ k;
        lemma_hex2_reads_back(v);
        assert((v ^ k) == bj) by (bit_vector)
            requires
                v == bj ^ k,
        ;
    }
    assert(cred_chars(pieces) =~= b.map_values(|x: u8| x as char));
}

} // verus!
