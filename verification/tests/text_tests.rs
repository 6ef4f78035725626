use node_metrics::text::{i32_decimal, split_at_char, str_equal, trim_slashes, u64_decimal};

#[test]
fn str_equal_compares_characters() {
    assert!(str_equal("docker", "docker"));
    assert!(!str_equal("docker", "dockers"));
    assert!(!str_equal("docker", "Docker"));
    assert!(str_equal("", ""));
    assert!(str_equal("héllo", "héllo"));
}

#[test]
fn u64_decimal_renders_digits() {
    assert_eq!(u64_decimal(0), "0");
    assert_eq!(u64_decimal(7), "7");
    assert_eq!(u64_decimal(10), "10");
    assert_eq!(u64_decimal(8086), "8086");
    assert_eq!(u64_decimal(u64::MAX), "18446744073709551615");
}

#[test]
fn i32_decimal_renders_sign() {
    assert_eq!(i32_decimal(0), "0");
    assert_eq!(i32_decimal(8086), "8086");
    assert_eq!(i32_decimal(-1), "-1");
    assert_eq!(i32_decimal(-40), "-40");
    assert_eq!(i32_decimal(i32::MIN), i32::MIN.to_string());
    assert_eq!(i32_decimal(i32::MAX), i32::MAX.to_string());
}

#[test]
fn split_at_char_matches_str_split() {
    for s in ["", "docker", "docker,host", ",", "a,,b,", ",x"] {
        let expected: Vec<String> = s.split(',').map(|p| p.to_string()).collect();
        assert_eq!(split_at_char(s, ','), expected);
    }
}

#[test]
fn split_at_char_empty_gives_one_empty_piece() {
    assert_eq!(split_at_char("", ','), vec![String::new()]);
}

#[test]
fn trim_slashes_matches_trim_start_matches() {
    for s in ["/web", "//web", "web", "", "/", "/a/b"] {
        assert_eq!(trim_slashes(s), s.trim_start_matches("/"));
    }
    assert_eq!(trim_slashes("/nginx"), "nginx");
}
