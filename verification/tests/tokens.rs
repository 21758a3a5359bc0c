use smartauth::token::{create_token, generate_pending_code, spell};

const TOKEN_SYMBOLS: &str = "ABCDEFGHIJKLMNOPQRSTUVWXYZabcdefghijklmnopqrstuvwxyz0123456789";
const CODE_SYMBOLS: &str = "ABCDEFGHIJKLMNOPQRSTUVWXYZabcdefghijklmnopqrstuvwxyz0123456789)(*&^%$#@!~";

#[test]
fn token_has_length_64_from_alphabet() {
    let token = create_token();
    assert_eq!(token.chars().count(), 64);
    assert!(token.chars().all(|c| TOKEN_SYMBOLS.contains(c)));
}

#[test]
fn pending_code_has_length_10_from_alphabet() {
    let code = generate_pending_code();
    assert_eq!(code.chars().count(), 10);
    assert!(code.chars().all(|c| CODE_SYMBOLS.contains(c)));
}

#[test]
fn ten_thousand_tokens_are_distinct() {
    let mut seen = std::collections::HashSet::new();
    for _ in 0..10_000 {
        let token = create_token();
        assert_eq!(token.len(), 64);
        assert!(token.chars().all(|c| TOKEN_SYMBOLS.contains(c)));
        assert!(seen.insert(token));
    }
    assert_eq!(seen.len(), 10_000);
}

#[test]
fn spell_picks_symbols_by_index() {
    let text = spell("abc", &vec![2, 0, 1, 1]);
    assert_eq!(text, "cabb");
    assert_eq!(spell(TOKEN_SYMBOLS, &vec![0, 25, 26, 51, 52, 61]), "AZaz09");
    assert_eq!(spell("abc", &vec![]), "");
}
