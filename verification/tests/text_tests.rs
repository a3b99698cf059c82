use woody::text::{
    i64_to_string, parse_i64, parse_u32, parse_u64, split_lines, split_once, split_tokens, str_eq,
    trim, u32_to_string, u64_to_string,
};

#[test]
fn format_u64_basics() {
    assert_eq!(u64_to_string(0), "0");
    assert_eq!(u64_to_string(7), "7");
    assert_eq!(u64_to_string(120), "120");
    assert_eq!(u64_to_string(50_000_000), "50000000");
    assert_eq!(u64_to_string(u64::MAX), "18446744073709551615");
}

#[test]
fn format_u32_and_i64() {
    assert_eq!(u32_to_string(0), "0");
    assert_eq!(u32_to_string(u32::MAX), "4294967295");
    assert_eq!(i64_to_string(0), "0");
    assert_eq!(i64_to_string(-1), "-1");
    assert_eq!(i64_to_string(50_000), "50000");
    assert_eq!(i64_to_string(i64::MIN), "-9223372036854775808");
    assert_eq!(i64_to_string(i64::MAX), "9223372036854775807");
}

#[test]
fn parse_u64_well_formed() {
    assert_eq!(parse_u64("0"), Some(0));
    assert_eq!(parse_u64("123"), Some(123));
    assert_eq!(parse_u64("+123"), Some(123));
    assert_eq!(parse_u64("007"), Some(7));
    assert_eq!(parse_u64("18446744073709551615"), Some(u64::MAX));
}

#[test]
fn parse_u64_rejects() {
    assert_eq!(parse_u64(""), None);
    assert_eq!(parse_u64("+"), None);
    assert_eq!(parse_u64("-1"), None);
    assert_eq!(parse_u64("12x"), None);
    assert_eq!(parse_u64(" 12"), None);
    assert_eq!(parse_u64("18446744073709551616"), None);
    assert_eq!(parse_u64("99999999999999999999999"), None);
}

#[test]
fn parse_u32_bounds() {
    assert_eq!(parse_u32("4294967295"), Some(u32::MAX));
    assert_eq!(parse_u32("4294967296"), None);
    assert_eq!(parse_u32("12"), Some(12));
}

#[test]
fn parse_i64_signs_and_bounds() {
    assert_eq!(parse_i64("50000"), Some(50_000));
    assert_eq!(parse_i64("-1"), Some(-1));
    assert_eq!(parse_i64("+42"), Some(42));
    assert_eq!(parse_i64("-9223372036854775808"), Some(i64::MIN));
    assert_eq!(parse_i64("9223372036854775807"), Some(i64::MAX));
    assert_eq!(parse_i64("9223372036854775808"), None);
    assert_eq!(parse_i64("-9223372036854775809"), None);
    assert_eq!(parse_i64(""), None);
    assert_eq!(parse_i64("-"), None);
}

#[test]
fn trim_whitespace() {
    assert_eq!(trim("  42\n"), "42");
    assert_eq!(trim("\t max \r\n"), "max");
    assert_eq!(trim(""), "");
    assert_eq!(trim("   "), "");
    assert_eq!(trim("inner space kept"), "inner space kept");
}

#[test]
fn lines_like_std() {
    let cases = [
        "",
        "a",
        "a\n",
        "a\nb",
        "a\r\nb\r",
        "\n",
        "a\n\n",
        "oom_kill 3\nusage 9\n",
    ];
    for s in cases {
        let got = split_lines(s);
        let want: Vec<&str> = s.lines().collect();
        assert_eq!(got.len(), want.len(), "line count for {:?}", s);
        for (g, w) in got.iter().zip(want.iter()) {
            assert_eq!(g, w, "line mismatch for {:?}", s);
        }
    }
}

#[test]
fn split_once_first_occurrence() {
    assert_eq!(split_once("oom_kill 3", ' '), Some(("oom_kill", "3")));
    assert_eq!(split_once("a b c", ' '), Some(("a", "b c")));
    assert_eq!(split_once("nospace", ' '), None);
    assert_eq!(split_once(":x", ':'), Some(("", "x")));
}

#[test]
fn tokens_like_split_whitespace() {
    let cases = ["", "  ", "max 100000", "  50000   100000  ", "one"];
    for s in cases {
        let got = split_tokens(s);
        let want: Vec<&str> = s.split_whitespace().collect();
        assert_eq!(got.len(), want.len(), "token count for {:?}", s);
        for (g, w) in got.iter().zip(want.iter()) {
            assert_eq!(g, w, "token mismatch for {:?}", s);
        }
    }
}

#[test]
fn str_eq_by_contents() {
    assert!(str_eq("max", "max"));
    assert!(!str_eq("max", "Max"));
    assert!(str_eq("", ""));
}
