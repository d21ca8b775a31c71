use sysmetrics::util::{
    bytes_before, bytes_end_with, copy_until_nul, get_sysctl_str, string_without_nuls, sysctl_str,
    text_before, text_until_nul, trim_trailing_nuls, truncate_at_nul,
};

#[test]
fn sysctl_str_stops_at_the_first_nul() {
    assert_eq!(sysctl_str(b"FreeBSD\0".to_vec()), Some("FreeBSD".to_string()));
    assert_eq!(sysctl_str(b"12.2-STABLE\0garbage\0".to_vec()), Some("12.2-STABLE".to_string()));
    assert_eq!(sysctl_str(b"host".to_vec()), Some("host".to_string()));
    assert_eq!(sysctl_str(Vec::new()), Some(String::new()));
    assert_eq!(sysctl_str(b"\0\0".to_vec()), Some(String::new()));
    assert_eq!(sysctl_str("h\u{f4}te\0".as_bytes().to_vec()), Some("h\u{f4}te".to_string()));
}

#[test]
fn sysctl_str_rejects_what_is_not_utf8() {
    assert_eq!(sysctl_str(vec![0xff, 0x00]), None);
    assert_eq!(sysctl_str(vec![b'a', 0xc3]), None);
    // what follows the first NUL does not count
    assert_eq!(sysctl_str(vec![b'a', 0x00, 0xff]), Some("a".to_string()));
}

#[test]
fn get_sysctl_str_trims_trailing_nuls() {
    assert_eq!(get_sysctl_str(b"GenuineIntel\0".to_vec()), "GenuineIntel");
    assert_eq!(get_sysctl_str(b"GenuineIntel\0\0\0".to_vec()), "GenuineIntel");
    assert_eq!(get_sysctl_str(b"a\0b\0".to_vec()), "a\0b");
    assert_eq!(get_sysctl_str(b"plain".to_vec()), "plain");
    assert_eq!(get_sysctl_str(Vec::new()), "");
    assert_eq!(get_sysctl_str(vec![0, 0, 0]), "");
    assert_eq!(get_sysctl_str(vec![0xff, 0xfe, 0]), "");
}

#[test]
fn buffers_are_cut_in_place() {
    let mut b = b"abc\0def\0\0".to_vec();
    trim_trailing_nuls(&mut b);
    assert_eq!(b, b"abc\0def".to_vec());
    truncate_at_nul(&mut b);
    assert_eq!(b, b"abc".to_vec());
    truncate_at_nul(&mut b);
    assert_eq!(b, b"abc".to_vec());
    trim_trailing_nuls(&mut b);
    assert_eq!(b, b"abc".to_vec());
}

#[test]
fn order_of_byte_strings() {
    assert!(bytes_before(b"", b"a"));
    assert!(!bytes_before(b"", b""));
    assert!(!bytes_before(b"a", b""));
    assert!(bytes_before(b"a", b"b"));
    assert!(!bytes_before(b"b", b"a"));
    assert!(bytes_before(b"ab", b"abc"));
    assert!(!bytes_before(b"abc", b"ab"));
    assert!(!bytes_before(b"abc", b"abc"));
    assert!(bytes_before(b"abc", b"abd"));
    assert!(bytes_before(b"Z", b"a"));
    assert!(bytes_before(&[0x7f], &[0x80]));
    assert!(bytes_before(b"az", b"b"));
}

#[test]
fn order_of_texts_is_that_of_str() {
    let words = ["", "a", "ab", "b", "B", "\u{e9}", "e", "z", "\u{1f600}", "ab\u{0}", "\u{ffff}"];
    for a in words {
        for b in words {
            assert_eq!(text_before(a, b), a < b, "{:?} {:?}", a, b);
        }
    }
}

#[test]
fn suffixes() {
    assert!(bytes_end_with(b"/usr/bin/false", b"/false"));
    assert!(bytes_end_with(b"/false", b"/false"));
    assert!(!bytes_end_with(b"false", b"/false"));
    assert!(!bytes_end_with(b"/false/", b"/false"));
    assert!(!bytes_end_with(b"/falsd", b"/false"));
    assert!(!bytes_end_with(b"/galse", b"/false"));
    assert!(bytes_end_with(b"abc", b""));
    assert!(bytes_end_with(b"", b""));
    assert!(!bytes_end_with(b"", b"a"));
}

#[test]
fn text_of_single_byte_characters() {
    assert_eq!(string_without_nuls(b"FreeBSD 12.2\0\0\0"), "FreeBSD 12.2");
    assert_eq!(string_without_nuls(b"a\0b\0c"), "abc");
    assert_eq!(string_without_nuls(&[0xe9, 0x00, 0x41]), "\u{e9}A");
    assert_eq!(string_without_nuls(b""), "");
    assert_eq!(string_without_nuls(&[0, 0]), "");
}

#[test]
fn copies_stop_at_the_first_nul() {
    assert_eq!(copy_until_nul(b"abc\0def"), b"abc".to_vec());
    assert_eq!(copy_until_nul(b"abc"), b"abc".to_vec());
    assert_eq!(copy_until_nul(b"\0"), Vec::<u8>::new());
    assert_eq!(copy_until_nul(b""), Vec::<u8>::new());
    assert_eq!(text_until_nul(b"/usr/home\0\0"), "/usr/home");
    assert_eq!(text_until_nul(&[0x80, 0x00]), "");
}
