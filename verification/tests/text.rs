use twitchmonitor::creds::{client_id, client_secret, decode_cred};
use twitchmonitor::strs::{contains, trim, u64_to_string};
use twitchmonitor::urlenc::{encode, percent_decode};
use twitchmonitor::viewers::format_viewer_count;

/// The label as the key drawing code computes it, in double precision.
fn label_by_float(n: u32) -> String {
    if n >= 1_000_000 {
        let v = n as f64 / 1_000_000.0;
        if v.fract() == 0.0 {
            format!("{:.0}M", v)
        } else {
            format!("{:.1}M", v)
        }
    } else if n >= 1_000 {
        let v = n as f64 / 1_000.0;
        if v.fract() == 0.0 {
            format!("{:.0}K", v)
        } else {
            format!("{:.1}K", v)
        }
    } else {
        n.to_string()
    }
}

#[test]
fn viewer_count_small_numbers_are_plain() {
    assert_eq!(format_viewer_count(0), "0");
    assert_eq!(format_viewer_count(7), "7");
    assert_eq!(format_viewer_count(999), "999");
}

#[test]
fn viewer_count_thousands() {
    assert_eq!(format_viewer_count(1000), "1K");
    assert_eq!(format_viewer_count(1500), "1.5K");
    assert_eq!(format_viewer_count(1999), "2.0K");
    assert_eq!(format_viewer_count(12345), "12.3K");
    assert_eq!(format_viewer_count(999_999), "1000.0K");
}

#[test]
fn viewer_count_half_tenths_follow_the_double() {
    // 1.25 is exact in binary and goes to the even tenth; 1.35 is stored a
    // little above and goes up.
    assert_eq!(format_viewer_count(1250), "1.2K");
    assert_eq!(format_viewer_count(1350), "1.4K");
    assert_eq!(format_viewer_count(1050), "1.1K");
    assert_eq!(format_viewer_count(2250), "2.2K");
}

#[test]
fn viewer_count_millions() {
    assert_eq!(format_viewer_count(1_000_000), "1M");
    assert_eq!(format_viewer_count(1_200_000), "1.2M");
    assert_eq!(format_viewer_count(2_050_000), "2.0M");
    assert_eq!(format_viewer_count(u32::MAX), "4295.0M");
}

#[test]
fn viewer_count_matches_double_precision_everywhere_sampled() {
    for n in 0..=1_100_000u32 {
        assert_eq!(format_viewer_count(n), label_by_float(n), "n = {}", n);
    }
    let mut n: u64 = 1_100_000;
    while n <= u32::MAX as u64 {
        let m = n as u32;
        assert_eq!(format_viewer_count(m), label_by_float(m), "n = {}", m);
        n += 4_099;
    }
    for k in 1u32..4295 {
        for tail in [50_000u32, 150_000, 250_000, 350_000, 450_000, 550_000, 650_000, 750_000, 850_000, 950_000] {
            let m = (k as u64) * 1_000_000 + tail as u64;
            if m <= u32::MAX as u64 {
                let m = m as u32;
                assert_eq!(format_viewer_count(m), label_by_float(m), "n = {}", m);
            }
        }
    }
}

#[test]
fn client_id_decodes_to_the_known_id() {
    assert_eq!(client_id(), "wq0kudroby7abstyx6ihak1suxog1r");
}

#[test]
fn client_secret_is_the_decoded_credential() {
    let s = client_secret();
    assert_eq!(s.chars().count(), 30);
    assert_eq!(
        s,
        decode_cred("4b,51,40,04,1e,0b,57,19,45,54,13,0e,4c,0c,07,5f,40,0e,16,03,00,56,55,03,43,0a,47,5c,18,17")
    );
}

#[test]
fn decode_cred_reads_each_field_leniently() {
    // Unreadable fields count as 0, fields are trimmed, `+f` is 15 and a
    // value above 255 is unreadable.
    assert_eq!(decode_cred("zz, 41 ,+f,100"), "s%\u{7f}l");
    assert_eq!(decode_cred(""), "s");
    assert_eq!(decode_cred("00,00,00,00,00,00,00,00,00"), "sdplug1ns");
}

#[test]
fn encode_keeps_unreserved_and_escapes_the_rest() {
    assert_eq!(encode("abc-XYZ_09.~"), "abc-XYZ_09.~");
    assert_eq!(encode("a b"), "a%20b");
    assert_eq!(encode("é"), "%E9");
    assert_eq!(encode("😀"), "%1F600");
    assert_eq!(encode("/?&="), "%2F%3F%26%3D");
}

#[test]
fn percent_decode_reads_escapes_and_plus() {
    assert_eq!(percent_decode("a%20b"), "a b");
    assert_eq!(percent_decode("a+b"), "a b");
    assert_eq!(percent_decode("%41%4a%4A"), "AJJ");
    assert_eq!(percent_decode("%zz"), "%zz");
    assert_eq!(percent_decode("%4"), "%4");
    assert_eq!(percent_decode("%41"), "A");
    assert_eq!(percent_decode("%E9"), "é");
    assert_eq!(percent_decode("%+f"), "\u{f}");
    assert_eq!(percent_decode("é"), "\u{c3}\u{a9}");
}

#[test]
fn percent_decode_undoes_encode_for_latin1() {
    for s in ["context-1", "a b+c", "ABC123/xyz?q=1&r=2", "ümlaut ß", "%%%"] {
        assert_eq!(percent_decode(&encode(s)), s);
    }
}

#[test]
fn text_helpers() {
    assert_eq!(trim("  a b \t\n"), "a b");
    assert_eq!(trim(""), "");
    assert!(contains("Stream lookup failed: 401 Unauthorized", "401"));
    assert!(!contains("abc", "abd"));
    assert!(contains("abc", ""));
    assert_eq!(u64_to_string(0), "0");
    assert_eq!(u64_to_string(18_446_744_073_709_551_615), "18446744073709551615");
}
