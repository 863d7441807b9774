use merco_llmproxy::frames::{same_bytes, split_lines, starts_with};
use merco_llmproxy::http::status_is_success;
use merco_llmproxy::text::{clone_opt_string, clone_strings, decimal_string, str_eq};

#[test]
fn decimal_numerals() {
    assert_eq!(decimal_string(0), "0");
    assert_eq!(decimal_string(7), "7");
    assert_eq!(decimal_string(10), "10");
    assert_eq!(decimal_string(429), "429");
    assert_eq!(decimal_string(65535), "65535");
    assert_eq!(decimal_string(u64::MAX), "18446744073709551615");
}

#[test]
fn string_equality() {
    assert!(str_eq("", ""));
    assert!(str_eq("tool_calls", "tool_calls"));
    assert!(!str_eq("tool_calls", "tool_call"));
    assert!(!str_eq("a", "b"));
}

#[test]
fn copies_hold_the_same() {
    assert_eq!(clone_opt_string(&None), None);
    assert_eq!(clone_opt_string(&Some("x".to_string())), Some("x".to_string()));
    let names = vec!["a".to_string(), "b".to_string()];
    assert_eq!(clone_strings(&names), names);
    assert_eq!(clone_strings(&Vec::new()), Vec::<String>::new());
}

#[test]
fn lines_are_the_stretches_between_newlines() {
    assert_eq!(split_lines(b""), vec![&b""[..]]);
    assert_eq!(split_lines(b"abc"), vec![&b"abc"[..]]);
    assert_eq!(split_lines(b"a\nb"), vec![&b"a"[..], &b"b"[..]]);
    assert_eq!(split_lines(b"a\n"), vec![&b"a"[..], &b""[..]]);
    assert_eq!(split_lines(b"\n\nx\n"), vec![&b""[..], &b""[..], &b"x"[..], &b""[..]]);
}

#[test]
fn split_lines_agrees_with_the_standard_split() {
    let samples: Vec<&[u8]> = vec![b"", b"\n", b"data: 1\n\ndata: 2\n", b"no newline", b"\r\n\n"];
    for sample in samples {
        let expected: Vec<&[u8]> = sample.split(|&b| b == b'\n').collect();
        assert_eq!(split_lines(sample), expected);
    }
}

#[test]
fn prefixes_and_equality_of_bytes() {
    assert!(starts_with(b"data: x", b"data: "));
    assert!(starts_with(b"data: ", b"data: "));
    assert!(starts_with(b"anything", b""));
    assert!(!starts_with(b"data:", b"data: "));
    assert!(!starts_with(b"Data: x", b"data: "));
    assert!(same_bytes(b"[DONE]", b"[DONE]"));
    assert!(!same_bytes(b"[DONE]", b"[DONE] "));
    assert!(!same_bytes(b"[DONE]", b"[done]"));
    assert!(same_bytes(b"", b""));
}

#[test]
fn success_is_the_two_hundreds() {
    assert!(!status_is_success(199));
    assert!(status_is_success(200));
    assert!(status_is_success(204));
    assert!(status_is_success(299));
    assert!(!status_is_success(300));
    assert!(!status_is_success(429));
    assert!(!status_is_success(500));
    assert!(!status_is_success(0));
}
