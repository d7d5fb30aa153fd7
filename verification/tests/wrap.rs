use drone::text::{is_white, join, trim_end};
use drone::wrap::{pack, reg_lines, reg_tokens, wrap, LINE_CAP};

fn strings(items: &[&str]) -> Vec<String> {
    items.iter().map(|item| item.to_string()).collect()
}

#[test]
fn three_short_tokens_share_one_line() {
    assert_eq!(wrap(&strings(&["!A;", "!B;", "!C;"])), vec!["    !A; !B; !C;"]);
}

#[test]
fn no_tokens_give_no_lines() {
    assert_eq!(wrap(&Vec::new()), Vec::<String>::new());
    assert_eq!(pack(&Vec::new()), Vec::<Vec<String>>::new());
    assert_eq!(reg_lines(&[]), "");
}

#[test]
fn one_token_gives_one_line() {
    assert_eq!(wrap(&strings(&["!A;"])), vec!["    !A;"]);
}

#[test]
fn the_cap_is_96() {
    assert_eq!(LINE_CAP, 96);
}

#[test]
fn a_line_may_be_exactly_as_wide_as_the_cap() {
    let first = "a".repeat(47);
    let second = "b".repeat(48);
    let lines = wrap(&vec![first.clone(), second.clone()]);
    assert_eq!(lines, vec![format!("    {} {}", first, second)]);
    assert_eq!(lines[0].len() - 4, 96);
}

#[test]
fn the_break_comes_at_the_first_token_that_would_exceed_the_cap() {
    let first = "a".repeat(47);
    let second = "b".repeat(49);
    let lines = wrap(&vec![first.clone(), second.clone(), "c".to_string()]);
    assert_eq!(lines, vec![format!("    {}", first), format!("    {} c", second)]);
}

#[test]
fn the_break_is_neither_early_nor_late() {
    let items: Vec<String> = (0..40).map(|i| format!("!reg_number_{:02};", i)).collect();
    let groups = pack(&items);
    let flat: Vec<String> = groups.iter().flatten().cloned().collect();
    assert_eq!(flat, items);
    for (k, group) in groups.iter().enumerate() {
        assert!(!group.is_empty());
        let width = group.iter().map(|t| t.len()).sum::<usize>() + group.len() - 1;
        assert!(width <= 96);
        if k + 1 < groups.len() {
            assert!(width + 1 + groups[k + 1][0].len() > 96);
        }
    }
    // Each token is 15 wide: six make 95, seven make 111.
    assert_eq!(groups.len(), 7);
    assert!(groups[..6].iter().all(|group| group.len() == 6));
    assert_eq!(groups[6].len(), 4);
}

#[test]
fn a_token_wider_than_the_cap_stands_alone() {
    let wide = "w".repeat(120);
    let lines = wrap(&vec!["!A;".to_string(), wide.clone(), "!B;".to_string()]);
    assert_eq!(lines, vec!["    !A;".to_string(), format!("    {}", wide), "    !B;".to_string()]);
}

#[test]
fn a_token_of_95_takes_no_companion() {
    let wide = "w".repeat(95);
    let lines = wrap(&vec![wide.clone(), "x".to_string()]);
    assert_eq!(lines, vec![format!("    {}", wide), "    x".to_string()]);
    let narrower = "w".repeat(94);
    let lines = wrap(&vec![narrower.clone(), "x".to_string()]);
    assert_eq!(lines, vec![format!("    {} x", narrower)]);
}

#[test]
fn width_counts_characters() {
    let first = "\u{e9}".repeat(47);
    let second = "\u{e9}".repeat(48);
    let lines = wrap(&vec![first.clone(), second.clone()]);
    assert_eq!(lines, vec![format!("    {} {}", first, second)]);
}

#[test]
fn tokens_are_formed_from_registers() {
    assert_eq!(reg_tokens(&["scb_ccr", "mpu_type"]), vec!["!scb_ccr;", "!mpu_type;"]);
    assert_eq!(reg_tokens(&[]), Vec::<String>::new());
    assert_eq!(reg_tokens(&[""]), vec!["!;"]);
}

#[test]
fn register_lines_are_joined_by_line_feeds() {
    assert_eq!(reg_lines(&["a", "b"]), "    !a; !b;");
    let regs: Vec<&'static str> = vec!["uarte0_ns_tasks_startrx"; 8];
    let text = reg_lines(&regs);
    let lines: Vec<&str> = text.split('\n').collect();
    // A token is 25 wide: three make 77, four make 103.
    assert_eq!(lines.len(), 3);
    assert_eq!(
        lines[0],
        "    !uarte0_ns_tasks_startrx; !uarte0_ns_tasks_startrx; !uarte0_ns_tasks_startrx;"
    );
    assert_eq!(lines[2], "    !uarte0_ns_tasks_startrx; !uarte0_ns_tasks_startrx;");
    assert!(!text.ends_with('\n'));
}

#[test]
fn wrapping_twice_gives_the_same_lines() {
    let items: Vec<String> = (0..30).map(|i| format!("!r{};", i * 7919)).collect();
    assert_eq!(wrap(&items), wrap(&items));
}

#[test]
fn join_puts_the_separator_between_neighbours() {
    assert_eq!(join(&strings(&[]), ", "), "");
    assert_eq!(join(&strings(&["a"]), ", "), "a");
    assert_eq!(join(&strings(&["a", "b", "c"]), ", "), "a, b, c");
    assert_eq!(join(&strings(&["", ""]), "-"), "-");
}

#[test]
fn trim_end_drops_trailing_white_space_only() {
    assert_eq!(trim_end("size = 1\n\n  \t"), "size = 1");
    assert_eq!(trim_end("  a b  "), "  a b");
    assert_eq!(trim_end(""), "");
    assert_eq!(trim_end(" \n"), "");
    assert_eq!(trim_end("a\u{a0}\u{2003}"), "a");
    assert_eq!(trim_end("abc"), "abc");
}

#[test]
fn white_space_is_the_unicode_property() {
    let white = [
        '\u{9}', '\u{a}', '\u{b}', '\u{c}', '\u{d}', '\u{20}', '\u{85}', '\u{a0}', '\u{1680}',
        '\u{2000}', '\u{2001}', '\u{2005}', '\u{200a}', '\u{2028}', '\u{2029}', '\u{202f}',
        '\u{205f}', '\u{3000}',
    ];
    for c in white {
        assert_eq!(trim_end(&format!("x{}", c)), "x", "{:?}", c);
    }
    let other = [
        '\u{8}', '\u{e}', '\u{1f}', '\u{21}', '\u{84}', '\u{86}', '\u{9f}', '\u{a1}', '\u{180e}',
        '\u{1fff}', '\u{200b}', '\u{2027}', '\u{202a}', '\u{2060}', '\u{3001}', '\u{feff}',
    ];
    for c in other {
        let text = format!("x{}", c);
        assert_eq!(trim_end(&text), text, "{:?}", c);
    }
}

#[test]
fn white_space_is_what_std_takes_for_it() {
    for code in 0..=0x11_0000u32 {
        if let Some(c) = char::from_u32(code) {
            assert_eq!(is_white(c), c.is_whitespace(), "{:?}", c);
        }
    }
}
