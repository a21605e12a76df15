use codex_cli::text::{char_is_digit, char_is_space, join, decimal, str_eq, trim};
use codex_cli::version::{extract_version_number, normalize_tag};

#[test]
fn version_after_tool_name() {
    assert_eq!(extract_version_number("codex v1.2.3"), "1.2.3");
    assert_eq!(extract_version_number("codex 1.0.0"), "1.0.0");
    assert_eq!(extract_version_number("codex-cli 0.42.1 (build 7)"), "0.42.1");
}

#[test]
fn version_alone() {
    assert_eq!(extract_version_number("1.0.0"), "1.0.0");
    assert_eq!(extract_version_number("v1.0.0"), "1.0.0");
    assert_eq!(extract_version_number("  2.5  "), "2.5");
}

#[test]
fn line_without_version_comes_back_unchanged() {
    assert_eq!(extract_version_number("no version here"), "no version here");
    assert_eq!(extract_version_number(""), "");
    assert_eq!(extract_version_number("   "), "   ");
    assert_eq!(extract_version_number(" v v. 12 .5 "), " v v. 12 .5 ");
}

#[test]
fn only_one_leading_v_of_a_word_is_dropped() {
    assert_eq!(extract_version_number("vv1.2.3"), "vv1.2.3");
    assert_eq!(extract_version_number("tool vvv3.4.5-beta"), "tool vvv3.4.5-beta");
    assert_eq!(extract_version_number("vv1.2 3.4"), "3.4");
    assert_eq!(extract_version_number("vv1.2 v3.4 5.6"), "3.4");
}

#[test]
fn v_inside_a_word_stays() {
    assert_eq!(extract_version_number("1.0v2"), "1.0v2");
    assert_eq!(extract_version_number("rev 1.v.2"), "1.v.2");
}

#[test]
fn first_qualifying_word_wins() {
    assert_eq!(extract_version_number("v1.0 2.0"), "1.0");
    assert_eq!(extract_version_number("7 8.9 10.11"), "8.9");
    assert_eq!(extract_version_number("x1.0 .5 v.1 3.0"), "3.0");
}

#[test]
fn words_are_split_at_any_whitespace() {
    assert_eq!(extract_version_number("codex\t1.2.3\nnext"), "1.2.3");
    assert_eq!(extract_version_number("codex\u{a0}4.5.6"), "4.5.6");
    assert_eq!(extract_version_number("codex\u{3000}7.8\u{2003}tail"), "7.8");
}

#[test]
fn only_ascii_digits_begin_a_version() {
    // U+0661 is a decimal digit, but not an ASCII one.
    assert_eq!(extract_version_number("\u{661}.2"), "\u{661}.2");
}

#[test]
fn extraction_agrees_with_the_standard_library() {
    let lines = [
        "codex v1.2.3",
        "v v1 1. .1 v.1 1.1",
        "a\u{85}b 3.x",
        "vvv",
        "vv1.2 v3.4",
        "v9.9.9\r\n",
        "\u{1680}0.0",
        "é 1.é",
    ];
    for line in lines {
        let mut expected = line.to_string();
        for word in line.split_whitespace() {
            let rest = word.strip_prefix('v').unwrap_or(word);
            if rest.chars().next().map(|c| c.is_ascii_digit()).unwrap_or(false)
                && rest.contains('.')
            {
                expected = rest.to_string();
                break;
            }
        }
        assert_eq!(extract_version_number(line), expected, "{:?}", line);
    }
}

#[test]
fn tag_loses_one_leading_v() {
    assert_eq!(normalize_tag("v2.0.0"), "2.0.0");
    assert_eq!(normalize_tag("2.0.0"), "2.0.0");
    assert_eq!(normalize_tag("vv2"), "v2");
    assert_eq!(normalize_tag("v"), "");
    assert_eq!(normalize_tag(""), "");
    assert_eq!(normalize_tag("rust-v1.0"), "rust-v1.0");
}

#[test]
fn normalizing_twice_changes_nothing_more() {
    for tag in ["v2.0.0", "2.0.0", "", "v", "release-1"] {
        let once = normalize_tag(tag);
        assert_eq!(normalize_tag(&once), once);
    }
}

#[test]
fn whitespace_is_what_the_standard_library_says() {
    let mut code: u32 = 0;
    while code <= 0x10FFFF {
        if let Some(c) = char::from_u32(code) {
            assert_eq!(char_is_space(c), c.is_whitespace(), "U+{:04X}", code);
            assert_eq!(char_is_digit(c), c.is_ascii_digit(), "U+{:04X}", code);
        }
        code += 1;
    }
}

#[test]
fn trim_drops_whitespace_at_both_ends() {
    assert_eq!(trim("  codex 1.0 \n"), "codex 1.0");
    assert_eq!(trim("codex"), "codex");
    assert_eq!(trim(" \t\r\n"), "");
    assert_eq!(trim(""), "");
    assert_eq!(trim("\u{2003}a b\u{a0}"), "a b");
    for s in ["x ", " x", " é ", "\u{85}\u{85}", "a\u{3000}b "] {
        assert_eq!(trim(s), s.trim());
    }
}

#[test]
fn decimal_writes_numbers_as_usual() {
    assert_eq!(decimal(0), "0");
    assert_eq!(decimal(7), "7");
    assert_eq!(decimal(10), "10");
    assert_eq!(decimal(404), "404");
    assert_eq!(decimal(1234567890), "1234567890");
    assert_eq!(decimal(u64::MAX), "18446744073709551615");
}

#[test]
fn strings_compare_and_join() {
    assert!(str_eq("macos", "macos"));
    assert!(!str_eq("macos", "macOS"));
    assert!(!str_eq("linux", "linux "));
    assert!(str_eq("", ""));
    assert_eq!(join("codex-", "x86_64"), "codex-x86_64");
    assert_eq!(join("", ""), "");
}
