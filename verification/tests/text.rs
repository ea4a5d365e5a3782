use smoothie::text::{chars_of, parse_u64, strip_verbatim_marker};

#[test]
fn parse_plain_numbers() {
    assert_eq!(parse_u64("0"), Some(0));
    assert_eq!(parse_u64("123"), Some(123));
    assert_eq!(parse_u64("+7"), Some(7));
    assert_eq!(parse_u64("007"), Some(7));
    assert_eq!(parse_u64("18446744073709551615"), Some(u64::MAX));
}

#[test]
fn parse_rejects_what_std_rejects() {
    for s in ["", "+", "-", "-1", "12a", " 1", "18446744073709551616", "99999999999999999999", "٣"] {
        assert_eq!(parse_u64(s), None, "{s:?}");
        assert!(s.parse::<u64>().is_err());
    }
}

#[test]
fn verbatim_marker_is_removed() {
    assert_eq!(strip_verbatim_marker(r"\\?\C:\videos\a.mp4"), r"C:\videos\a.mp4");
    assert_eq!(strip_verbatim_marker(r"C:\videos\a.mp4"), r"C:\videos\a.mp4");
    assert_eq!(strip_verbatim_marker(r"a\\?\b\\?\c"), "abc");
    assert_eq!(strip_verbatim_marker(r"\\?"), r"\\?");
    let p = r"x\\\?\\?\y";
    assert_eq!(strip_verbatim_marker(p), p.replace("\\\\?\\", ""));
}

#[test]
fn chars_in_order() {
    assert_eq!(chars_of("aé!"), vec!['a', 'é', '!']);
}
