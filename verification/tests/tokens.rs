use walle_core::token::{digit, push_decimal, render_token};
use walle_core::BotMapInner;

#[test]
fn tokens_are_decimal_text() {
    assert_eq!(render_token(0), "0");
    assert_eq!(render_token(7), "7");
    assert_eq!(render_token(10), "10");
    assert_eq!(render_token(1905), "1905");
    assert_eq!(render_token(u64::MAX), "18446744073709551615");
    for n in [0u64, 9, 10, 99, 100, 12345678901234567890] {
        assert_eq!(render_token(n), n.to_string());
    }
}

#[test]
fn digits_and_appending() {
    assert_eq!(digit(0), '0');
    assert_eq!(digit(5), '5');
    assert_eq!(digit(9), '9');
    let mut text = String::from("echo-");
    push_decimal(407, &mut text);
    assert_eq!(text, "echo-407");
}

#[test]
fn minted_tokens_are_pairwise_distinct() {
    let mut bots = BotMapInner::new();
    let mut seen = std::collections::HashSet::new();
    for n in 0..2000u64 {
        let token = bots.next_seg();
        assert_eq!(token, n.to_string());
        assert!(seen.insert(token));
    }
    assert_eq!(seen.len(), 2000);
}
