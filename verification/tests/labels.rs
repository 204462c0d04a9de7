use peridot_windows::label::{
    allocate, base_label, is_label_character, resolve_label, sanitize_label, DEFAULT_GAME_LABEL,
};
use peridot_windows::text::append_decimal;

#[test]
fn sanitize_keeps_label_characters() {
    assert_eq!(sanitize_label("Game_01-x"), "Game_01-x");
}

#[test]
fn sanitize_replaces_everything_else_by_a_hyphen() {
    assert_eq!(sanitize_label("my game!"), "my-game-");
    assert_eq!(sanitize_label("a/b.c"), "a-b-c");
    assert_eq!(sanitize_label("é✓"), "--");
}

#[test]
fn sanitize_keeps_length_and_order() {
    let raw = "x y z";
    let safe = sanitize_label(raw);
    assert_eq!(safe.chars().count(), raw.chars().count());
    assert_eq!(safe, "x-y-z");
}

#[test]
fn sanitize_of_nothing_is_nothing() {
    assert_eq!(sanitize_label(""), "");
}

#[test]
fn sanitize_twice_is_sanitize_once() {
    let once = sanitize_label("späce & tab\t");
    let twice = sanitize_label(&once);
    assert_eq!(once, twice);
}

#[test]
fn base_label_defaults_when_nothing_is_requested() {
    assert_eq!(DEFAULT_GAME_LABEL, "game-webview");
    assert_eq!(base_label(None), "game-webview");
    assert_eq!(base_label(Some("")), "game-webview");
}

#[test]
fn base_label_is_the_request_made_safe() {
    assert_eq!(base_label(Some("arena 7")), "arena-7");
    assert_eq!(base_label(Some("???")), "---");
}

#[test]
fn free_label_is_kept() {
    assert_eq!(resolve_label(String::from("arena"), false, 1234), "arena");
}

#[test]
fn busy_label_gets_the_token_after_a_hyphen() {
    assert_eq!(resolve_label(String::from("arena"), true, 1234), "arena-1234");
    assert_eq!(resolve_label(String::from("arena"), true, 0), "arena-0");
    assert_eq!(resolve_label(String::from("arena"), true, 10), "arena-10");
    assert_eq!(
        resolve_label(String::from("game-webview"), true, 1_761_624_000_123),
        "game-webview-1761624000123"
    );
    assert_eq!(
        resolve_label(String::from("g"), true, u128::MAX),
        "g-340282366920938463463374607431768211455"
    );
}

#[test]
fn busy_label_differs_from_its_base() {
    let label = resolve_label(String::from("game-webview"), true, 7);
    assert_ne!(label, "game-webview");
    assert!(label.starts_with("game-webview-"));
}

#[test]
fn allocate_returns_the_default_when_it_is_free() {
    assert_eq!(allocate(None, |_: &str| false, 99), "game-webview");
    assert_eq!(allocate(Some(""), |_: &str| false, 99), "game-webview");
}

#[test]
fn allocate_asks_about_the_base_label() {
    let label = allocate(Some("arena 7"), |probe: &str| probe == "arena-7", 5);
    assert_eq!(label, "arena-7-5");
    let label = allocate(Some("arena 7"), |probe: &str| probe == "arena 7", 5);
    assert_eq!(label, "arena-7");
}

#[test]
fn allocate_on_a_busy_label_appends_the_token() {
    let label = allocate(None, |_: &str| true, 1_700_000_000_000);
    assert_eq!(label, "game-webview-1700000000000");
    assert_ne!(label, "game-webview");
    assert!(label.starts_with("game-webview-"));
}

#[test]
fn label_class_is_ascii_letters_digits_hyphen_and_underscore() {
    for c in ['a', 'z', 'A', 'Z', '0', '9', '-', '_'] {
        assert!(is_label_character(c), "{c:?}");
    }
    for c in [' ', '.', '/', ':', '@', '[', '`', '{', 'é', '\u{2013}', '\n'] {
        assert!(!is_label_character(c), "{c:?}");
    }
}

#[test]
fn decimal_numerals_have_no_leading_zero() {
    let mut out = String::from("n=");
    append_decimal(&mut out, 0);
    assert_eq!(out, "n=0");
    append_decimal(&mut out, 7);
    append_decimal(&mut out, 1_000_000);
    assert_eq!(out, "n=071000000");
}
