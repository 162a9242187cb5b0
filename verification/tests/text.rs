use fireup::argv::{argv0, argv3};
use fireup::text::{
    after_first, after_last, before_first, before_last, contains, ends_with, found_at, glue,
    hex_byte, join, join2, join3, join4, join5, last_position, nth_word, parse_u32, position,
    replace, same, split, starts_with, strip_prefix, strip_suffix, trim, trim_end_matches,
    trim_start_matches, u64_to_string,
};

fn strings(items: &[&str]) -> Vec<String> {
    items.iter().map(|s| s.to_string()).collect()
}

#[test]
fn joins_concatenate_in_order() {
    assert_eq!(join2("a", "b"), "ab");
    assert_eq!(join3("/tmp/firecracker-", "vm", ".sock"), "/tmp/firecracker-vm.sock");
    assert_eq!(join4("a", "", "c", "d"), "acd");
    assert_eq!(join5("1", "2", "3", "4", "5"), "12345");
    assert_eq!(glue(&strings(&["x", "", "yz"])), "xyz");
    assert_eq!(glue(&strings(&[])), "");
}

#[test]
fn argv_builds_owned_arguments() {
    assert_eq!(argv0(), Vec::<String>::new());
    assert_eq!(argv3("-d", "out", "in"), strings(&["-d", "out", "in"]));
}

#[test]
fn same_compares_whole_texts() {
    assert!(same("", ""));
    assert!(same("tap0", "tap0"));
    assert!(!same("tap0", "tap"));
    assert!(!same("tap", "tap0"));
    assert!(!same("tap0", "tap1"));
    assert!(same("é✓", "é✓"));
}

#[test]
fn prefix_suffix_and_search_agree_with_std() {
    let cases = [
        ("REQUEST aa:bb 172.16.0.2 x", "REQUEST"),
        ("REQUEST", "REQUEST aa"),
        ("", ""),
        ("abc", ""),
        ("vmlinux: Linux kernel x86 boot executable bzImage, version", "bzImage"),
        ("abcabc", "cab"),
        ("abc", "abd"),
        ("duplicate column name: ip_address", "duplicate column name: ip_address"),
    ];
    for (s, p) in cases {
        assert_eq!(starts_with(s, p), s.starts_with(p), "starts_with {s:?} {p:?}");
        assert_eq!(ends_with(s, p), s.ends_with(p), "ends_with {s:?} {p:?}");
        assert_eq!(contains(s, p), s.contains(p), "contains {s:?} {p:?}");
    }
    assert!(found_at("abcabc", 3, "abc"));
    assert!(!found_at("abcabc", 4, "abc"));
    assert!(found_at("abc", 3, ""));
    assert!(!found_at("abc", 4, ""));
}

#[test]
fn strip_removes_exactly_one_affix() {
    assert_eq!(strip_prefix("ubuntu-24.04.squashfs", "ubuntu-"), Some("24.04.squashfs".to_string()));
    assert_eq!(strip_prefix("debian", "ubuntu-"), None);
    assert_eq!(strip_suffix("24.04.squashfs", ".squashfs"), Some("24.04".to_string()));
    assert_eq!(strip_suffix("5.10.223", ".squashfs"), None);
    assert_eq!(strip_suffix("x", "xx"), None);
    assert_eq!(strip_prefix("xx", "x"), Some("x".to_string()));
}

#[test]
fn trim_removes_surrounding_white_space_only() {
    for s in ["", "   ", " a b ", "\n\tx86_64\n", "y", "\u{a0}yes\u{3000}", " 1\r\n", "a \u{85}"] {
        assert_eq!(trim(s), s.trim(), "trim {s:?}");
    }
}

#[test]
fn segments_cut_at_first_and_last_separator() {
    assert_eq!(after_last("/tmp/firecracker-a.sock", '/'), "firecracker-a.sock");
    assert_eq!(after_last("plain", '/'), "plain");
    assert_eq!(after_last("dir/", '/'), "");
    assert_eq!(before_first("vm1:/etc/hosts", ':'), "vm1");
    assert_eq!(before_first("nocolon", ':'), "nocolon");
    assert_eq!(after_first("vm1:/etc:/x", ':'), Some("/etc:/x".to_string()));
    assert_eq!(after_first("nocolon", ':'), None);
    assert_eq!(after_first("end:", ':'), Some(String::new()));
    assert_eq!(before_last("v1.13.1", '.'), "v1.13");
    assert_eq!(before_last("v1", '.'), "v1");
    assert_eq!(before_last(".x", '.'), "");
}

#[test]
fn replace_agrees_with_std_for_non_empty_patterns() {
    let cases = [
        ("firecracker-my-vm.sock", "firecracker-", ""),
        ("my-vm.sock", ".sock", ""),
        ("aaaa", "aa", "b"),
        ("abc", "x", "y"),
        ("", "x", "y"),
        ("a.sock.sock", ".sock", "!"),
        ("ababab", "aba", "-"),
    ];
    for (s, from, to) in cases {
        assert_eq!(replace(s, from, to), s.replace(from, to), "replace {s:?} {from:?} {to:?}");
    }
    assert_eq!(replace("abc", "", "x"), "abc");
}

#[test]
fn trim_matches_strip_repeated_copies() {
    let cases = [
        ("/tmp/firecracker-vm.sock", "/tmp/firecracker-"),
        ("taptap7", "tap"),
        ("tap", "tap"),
        ("xtap", "tap"),
        ("", "tap"),
        ("vm.sock.sock", ".sock"),
        ("vm.sockx", ".sock"),
    ];
    for (s, p) in cases {
        assert_eq!(trim_start_matches(s, p), s.trim_start_matches(p), "start {s:?} {p:?}");
        assert_eq!(trim_end_matches(s, p), s.trim_end_matches(p), "end {s:?} {p:?}");
    }
}

#[test]
fn split_and_join_agree_with_std() {
    for s in ["", "a", "a,b", ",a,,b,", "ssh-ed25519 AAA a,ssh-rsa BBB b", ",,"] {
        let expected: Vec<String> = s.split(',').map(|p| p.to_string()).collect();
        assert_eq!(split(s, ','), expected, "split {s:?}");
        assert_eq!(join(&expected, ","), s, "join {s:?}");
    }
    assert_eq!(join(&strings(&["k1", "k2"]), "\n"), "k1\nk2");
    assert_eq!(join(&strings(&[]), "\n"), "");
    assert_eq!(join(&strings(&["only"]), "\n"), "only");
}

#[test]
fn nth_word_agrees_with_split_whitespace() {
    for s in ["REQUEST aa:bb:cc 172.16.0.2 LEASED", "  a \t b\n", "", "   ", "one", "a b"] {
        for n in 0..5usize {
            assert_eq!(
                nth_word(s, n),
                s.split_whitespace().nth(n).map(|w| w.to_string()),
                "word {n} of {s:?}"
            );
        }
    }
}

#[test]
fn decimal_and_hex_rendering() {
    for n in [0u64, 1, 9, 10, 11, 99, 100, 512, 2048, 65535, 4294967295, u64::MAX] {
        assert_eq!(u64_to_string(n), n.to_string());
    }
    for b in 0..=255u8 {
        assert_eq!(hex_byte(b), format!("{:02X}", b));
    }
}

#[test]
fn parse_u32_agrees_with_std() {
    for s in [
        "", "0", "7", "007", "+5", "+", "-1", "12a", "a12", " 1", "1 ", "4294967295", "4294967296",
        "99999999999999999999999999", "++1", "+0", "١٢", "1_0",
    ] {
        assert_eq!(parse_u32(s), s.parse::<u32>().ok(), "parse {s:?}");
    }
}

#[test]
fn positions_of_a_character() {
    assert_eq!(position("a/b/c", '/', 0), 1);
    assert_eq!(position("a/b/c", '/', 2), 3);
    assert_eq!(position("abc", '/', 0), 3);
    assert_eq!(position("", '/', 0), 0);
    assert_eq!(last_position("a/b/c", '/'), 4);
    assert_eq!(last_position("/abc", '/'), 1);
    assert_eq!(last_position("abc", '/'), 0);
    assert_eq!(last_position("", '/'), 0);
}
