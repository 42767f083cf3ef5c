use rusty::{entry, greet, Effect, GREETING, HELLO};

#[test]
fn greet_asks_for_one_alert_with_the_greeting() {
    assert_eq!(greet(), Effect::Alert(String::from("Hello, wasm-game-of-life!")));
}

#[test]
fn entry_asks_for_one_line_with_the_hello() {
    assert_eq!(entry(), Effect::PrintLine(String::from("Hello, world!")));
}

#[test]
fn the_texts_are_exact_to_the_character() {
    assert_eq!(GREETING, "Hello, wasm-game-of-life!");
    assert_eq!(GREETING.len(), 25);
    assert_eq!(HELLO, "Hello, world!");
    assert_eq!(HELLO.len(), 13);
}

#[test]
fn greet_hands_on_the_greeting_and_entry_the_hello() {
    match greet() {
        Effect::Alert(text) => assert_eq!(text, GREETING),
        Effect::PrintLine(_) => panic!("greet must not print"),
    }
    match entry() {
        Effect::PrintLine(text) => assert_eq!(text, HELLO),
        Effect::Alert(_) => panic!("entry must not call the host"),
    }
}

#[test]
fn the_line_carries_no_line_break_of_its_own() {
    match entry() {
        Effect::PrintLine(text) => assert!(!text.contains('\n')),
        Effect::Alert(_) => panic!("entry must not call the host"),
    }
}

#[test]
fn greet_gives_the_same_effect_on_every_call() {
    let first = greet();
    let second = greet();
    let third = greet();
    assert_eq!(first, second);
    assert_eq!(second, third);
}

#[test]
fn entry_gives_the_same_effect_on_every_call() {
    let first = entry();
    let second = entry();
    assert_eq!(first, second);
}

#[test]
fn greet_and_entry_have_nothing_in_common() {
    assert_ne!(greet(), entry());
    assert!(matches!(greet(), Effect::Alert(_)));
    assert!(matches!(entry(), Effect::PrintLine(_)));
}
