use manifold_domination::decimal::parse_whole;
use manifold_domination::messages::{
    analyzing_message, bet_failed_message, excerpt_message, low_liquidity_message,
    order_message, placed_message, push_amount, push_edge, push_percent, push_reasoning,
    small_edge_message, started_message,
};
use manifold_domination::text::{
    chars_of, head_of, joined, push_decimal, same_text, spells, string_of, strip_prefix, trim,
};
use manifold_domination::trade::Side;
use manifold_domination::units::{Amount, Probability};

fn amount(thousandths: u64) -> String {
    let mut s = String::new();
    push_amount(&mut s, Amount { thousandths });
    s
}

fn percent(millionths: u32) -> String {
    let mut s = String::new();
    push_percent(&mut s, Probability { millionths });
    s
}

fn edge(size: u32) -> String {
    let mut s = String::new();
    push_edge(&mut s, size);
    s
}

fn decimal(n: u64) -> String {
    let mut s = String::from("n=");
    push_decimal(&mut s, n);
    s
}

#[test]
fn numbers_are_written_in_decimal() {
    assert_eq!(decimal(0), "n=0");
    assert_eq!(decimal(7), "n=7");
    assert_eq!(decimal(10), "n=10");
    assert_eq!(decimal(1_090), "n=1090");
    assert_eq!(decimal(u64::MAX), "n=18446744073709551615");
}

#[test]
fn amounts_are_written_in_whole_units() {
    assert_eq!(amount(0), "M$0");
    assert_eq!(amount(499), "M$0");
    assert_eq!(amount(500), "M$1");
    assert_eq!(amount(1_499), "M$1");
    assert_eq!(amount(1_500), "M$2");
    assert_eq!(amount(10_000), "M$10");
    assert_eq!(amount(2_500_500), "M$2501");
    assert_eq!(amount(u64::MAX), "M$18446744073709552");
}

#[test]
fn probabilities_are_written_in_whole_percent() {
    assert_eq!(percent(0), "0%");
    assert_eq!(percent(4_999), "0%");
    assert_eq!(percent(5_000), "1%");
    assert_eq!(percent(654_999), "65%");
    assert_eq!(percent(655_000), "66%");
    assert_eq!(percent(1_000_000), "100%");
    assert_eq!(percent(u32::MAX), "429497%");
}

#[test]
fn edges_are_written_in_tenths_of_a_percent() {
    assert_eq!(edge(0), "0.0%");
    assert_eq!(edge(499), "0.0%");
    assert_eq!(edge(500), "0.1%");
    assert_eq!(edge(70_000), "7.0%");
    assert_eq!(edge(37_500), "3.8%");
    assert_eq!(edge(99_499), "9.9%");
    assert_eq!(edge(99_500), "10.0%");
    assert_eq!(edge(1_000_000), "100.0%");
}

#[test]
fn empty_reasoning_is_replaced() {
    let mut s = String::from("| ");
    push_reasoning(&mut s, "");
    assert_eq!(s, "| No reasoning provided");
    let mut s = String::from("| ");
    push_reasoning(&mut s, " ");
    assert_eq!(s, "|  ");
}

#[test]
fn lines_of_the_log() {
    assert_eq!(
        started_message(
            Amount { thousandths: 10_000 },
            Amount { thousandths: 25_000 },
            Probability { millionths: 100_000 },
            Amount { thousandths: 100_000 },
        ),
        "Bot started (M$10/new, M$25/reversion, 10% min edge, M$100 min liquidity)"
    );
    assert_eq!(
        low_liquidity_message(Amount { thousandths: 50_000 }, "Q?"),
        "Skipping low-liquidity market (M$50): \"Q?\""
    );
    assert_eq!(
        analyzing_message(Amount { thousandths: 1_000 }, "Q?"),
        "Analyzing market (bet-triggered, M$1 liq): \"Q?\""
    );
    assert_eq!(
        small_edge_message(
            false,
            "Q?",
            Probability { millionths: 470_000 },
            Probability { millionths: 400_000 },
            70_000,
            Probability { millionths: 100_000 },
            "why",
        ),
        "[Q?] 47% (market 40%), edge 7.0% < 10% min - skipping | why"
    );
    assert_eq!(
        order_message(
            true,
            "Q?",
            Probability { millionths: 200_000 },
            Probability { millionths: 500_000 },
            Side::No,
            "",
        ),
        "[bet-triggered] [Q?] 20% (market 50%) -> NO limit@20% | No reasoning provided"
    );
    assert_eq!(
        placed_message(
            false,
            "YES",
            Amount { thousandths: 10_000 },
            "Q?",
            Probability { millionths: 990_000 },
            Amount { thousandths: 0 },
        ),
        "BET PLACED: YES M$10 on \"Q?\" limit@99% (filled M$0)"
    );
    assert_eq!(bet_failed_message("Q?", "no"), "Failed to place bet on \"Q?\": no");
}

#[test]
fn excerpt_holds_three_hundred_characters() {
    let text = "a".repeat(300);
    assert_eq!(excerpt_message(&text), format!("xAI response: {}", text));
    let longer = "a".repeat(301);
    assert_eq!(excerpt_message(&longer), format!("xAI response: {}", text));
    assert_eq!(excerpt_message(""), "xAI response: ");
    assert_eq!(head_of("héllo", 2), "hé");
    assert_eq!(head_of("héllo", 0), "");
    assert_eq!(head_of("héllo", 9), "héllo");
}

#[test]
fn text_is_taken_apart_and_put_together() {
    let chars = chars_of("  \tREASONING: x y \r");
    assert_eq!(chars.len(), 19);
    let line = trim(&chars);
    assert_eq!(string_of(line), "REASONING: x y");
    let rest = strip_prefix(line, "REASONING:").unwrap();
    assert_eq!(string_of(rest), " x y");
    assert!(strip_prefix(line, "REASONING;").is_none());
    assert!(strip_prefix(line, "REASONING: x y z").is_none());
    assert_eq!(string_of(strip_prefix(line, "").unwrap()), "REASONING: x y");
    assert_eq!(string_of(trim(&chars_of(" \t\r "))), "");
    assert_eq!(string_of(trim(&chars_of(""))), "");
    assert_eq!(string_of(trim(&chars_of("\nx\n"))), "\nx\n");
    assert!(spells(&chars_of("SKIP"), "SKIP"));
    assert!(!spells(&chars_of("SKIP "), "SKIP"));
    assert!(same_text("é", "é"));
    assert!(!same_text("e", "é"));
    assert_eq!(joined(&chars_of("ab"), &chars_of("cd")), chars_of("abcd"));
    assert_eq!(string_of(&chars_of("grüße")), "grüße");
}

#[test]
fn written_numbers_are_read_back() {
    for n in [0u64, 1, 9, 10, 99, 100, 1_234_567_890, u64::MAX - 1, u64::MAX] {
        let mut s = String::new();
        push_decimal(&mut s, n);
        assert_eq!(parse_whole(&chars_of(&s)), Some(n), "{}", s);
    }
    assert_eq!(parse_whole(&chars_of("007")), Some(7));
    assert_eq!(parse_whole(&chars_of("")), None);
    assert_eq!(parse_whole(&chars_of("+7")), None);
    assert_eq!(parse_whole(&chars_of("7 ")), None);
}
