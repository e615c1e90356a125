//! The fallback-chain machinery itself.

use fetchit::chain::resolve;
use fetchit::lines::count_nonempty_lines;
use fetchit::lines::split_char;
use fetchit::text::replace_pattern;

fn chars(s: &str) -> Vec<char> {
    s.chars().collect()
}

fn string_of(v: &[char]) -> String {
    v.iter().collect()
}

#[test]
fn first_valid_step_wins() {
    // The first two probes failed (one outright, one with an empty value);
    // the third holds the answer, the fourth never matters.
    let steps = vec![
        None,
        Some(String::new()),
        Some(String::from("value")),
        Some(String::from("later")),
    ];
    assert_eq!(resolve(&steps), "value");
}

#[test]
fn exhausted_chain_degrades_to_sentinel() {
    assert_eq!(resolve(&Vec::new()), "Unknown");
    assert_eq!(resolve(&vec![None, None, Some(String::new())]), "Unknown");
}

#[test]
fn single_success_is_position_independent() {
    // Wherever the one valid step stands, the chain resolves to it.
    for n in 0..4 {
        let mut steps: Vec<Option<String>> = vec![None, None, None, None];
        steps[n] = Some(String::from("only"));
        assert_eq!(resolve(&steps), "only");
    }
}

#[test]
fn replacement_is_leftmost_and_non_overlapping() {
    let out = replace_pattern(&chars("aaa"), &chars("aa"), &chars("b"));
    assert_eq!(string_of(&out), "ba");
    let out = replace_pattern(&chars("up up and away"), &chars("up "), &chars(""));
    assert_eq!(string_of(&out), "and away");
}

#[test]
fn split_keeps_empty_segments() {
    let segs = split_char(&chars("a\n\nb\n"), '\n');
    let segs: Vec<String> = segs.iter().map(|s| string_of(s)).collect();
    assert_eq!(segs, vec!["a", "", "b", ""]);
}

#[test]
fn counting_skips_empty_lines() {
    assert_eq!(count_nonempty_lines(&chars("a\n\nb\n")), 2);
    assert_eq!(count_nonempty_lines(&chars("")), 0);
    assert_eq!(count_nonempty_lines(&chars("\n\n\n")), 0);
    assert_eq!(count_nonempty_lines(&chars("no newline at end")), 1);
}
