use thaime::engine::{classify, Action, KeyClass, ThaiEngine};

#[test]
fn enter_is_passed_through() {
    let engine = ThaiEngine::new();
    assert_eq!(engine.decide(65293, 0, 0), Action::PassThrough);
    assert!(!engine.process_key_event(65293, 0, 0));
}

#[test]
fn printable_key_is_passed_through() {
    let engine = ThaiEngine::new();
    assert_eq!(engine.decide(97, 0, 0), Action::PassThrough);
    assert!(!engine.process_key_event(97, 0, 0));
}

#[test]
fn modified_printable_key_is_passed_through() {
    let engine = ThaiEngine::new();
    assert_eq!(engine.decide(97, 38, 0x4), Action::PassThrough);
    assert_eq!(engine.decide(97, 38, 0x8), Action::PassThrough);
    assert!(!engine.process_key_event(97, 38, 0xc));
}

#[test]
fn out_of_range_event_is_passed_through() {
    let engine = ThaiEngine::new();
    assert_eq!(engine.decide(u32::MAX, u32::MAX, u32::MAX), Action::PassThrough);
    assert!(!engine.process_key_event(u32::MAX, u32::MAX, u32::MAX));
    assert!(!engine.process_key_event(0, 0, 0));
}

#[test]
fn keys_are_classified() {
    assert_eq!(classify(32, 0), KeyClass::Printable);
    assert_eq!(classify(126, 0x1), KeyClass::Printable);
    assert_eq!(classify(97, 0x4), KeyClass::ModifiedPrintable);
    assert_eq!(classify(97, 0x8), KeyClass::ModifiedPrintable);
    assert_eq!(classify(97, 0x93), KeyClass::Printable);
    assert_eq!(classify(65288, 0), KeyClass::BackSpace);
    assert_eq!(classify(65293, 0), KeyClass::Enter);
    assert_eq!(classify(65307, 0), KeyClass::Escape);
    assert_eq!(classify(65289, 0), KeyClass::Tab);
    assert_eq!(classify(31, 0), KeyClass::Other);
    assert_eq!(classify(127, 0), KeyClass::Other);
    assert_eq!(classify(65293, 0x4), KeyClass::Enter);
    assert_eq!(classify(u32::MAX, u32::MAX), KeyClass::Other);
}

#[test]
fn no_modifier_is_none() {
    let engine = ThaiEngine::new();
    assert_eq!(engine.describe_modifiers(0), "none");
}

#[test]
fn unrecognised_modifier_bits_are_none() {
    let engine = ThaiEngine::new();
    assert_eq!(engine.describe_modifiers(0x20), "none");
    assert_eq!(engine.describe_modifiers(0x40 | 0x100 | 0x8000_0000), "none");
}

#[test]
fn single_modifiers_are_named() {
    let engine = ThaiEngine::new();
    assert_eq!(engine.describe_modifiers(0x1), "Shift");
    assert_eq!(engine.describe_modifiers(0x2), "CapsLock");
    assert_eq!(engine.describe_modifiers(0x4), "Ctrl");
    assert_eq!(engine.describe_modifiers(0x8), "Alt");
    assert_eq!(engine.describe_modifiers(0x10), "NumLock");
    assert_eq!(engine.describe_modifiers(0x80), "Meta");
}

#[test]
fn modifiers_are_joined_in_order() {
    let engine = ThaiEngine::new();
    assert_eq!(engine.describe_modifiers(0x5), "Shift+Ctrl");
    assert_eq!(engine.describe_modifiers(0x88), "Alt+Meta");
    assert_eq!(
        engine.describe_modifiers(0x9f),
        "Shift+CapsLock+Ctrl+Alt+NumLock+Meta"
    );
    assert_eq!(
        engine.describe_modifiers(u32::MAX),
        "Shift+CapsLock+Ctrl+Alt+NumLock+Meta"
    );
}

#[test]
fn printable_keys_are_shown_in_quotes() {
    let engine = ThaiEngine::new();
    assert_eq!(engine.describe_key(97), "'a'");
    assert_eq!(engine.describe_key(32), "' '");
    assert_eq!(engine.describe_key(126), "'~'");
    assert_eq!(engine.describe_key(39), "'''");
}

#[test]
fn other_keys_are_shown_as_numbers() {
    let engine = ThaiEngine::new();
    assert_eq!(engine.describe_key(0), "<0>");
    assert_eq!(engine.describe_key(31), "<31>");
    assert_eq!(engine.describe_key(127), "<127>");
    assert_eq!(engine.describe_key(65293), "<65293>");
    assert_eq!(engine.describe_key(u32::MAX), "<4294967295>");
}

#[test]
fn summary_of_a_printable_key() {
    let engine = ThaiEngine::new();
    assert_eq!(
        engine.key_event_summary(97, 38, 0),
        "ThaiEngine: Key event: keyval=97 'a' keycode=38, modifiers=0 (none)"
    );
}

#[test]
fn summary_of_a_control_key_with_modifiers() {
    let engine = ThaiEngine::new();
    assert_eq!(
        engine.key_event_summary(65293, 36, 5),
        "ThaiEngine: Key event: keyval=65293 <65293> keycode=36, modifiers=5 (Shift+Ctrl)"
    );
}

#[test]
fn handling_notes_follow_the_class() {
    let engine = ThaiEngine::new();
    assert_eq!(engine.handling_note(97, 0), "Handling printable key: 'a'");
    assert_eq!(engine.handling_note(97, 0x1), "Handling printable key: 'a'");
    assert_eq!(engine.handling_note(97, 0x4), "Passing through modified key: 'a'");
    assert_eq!(engine.handling_note(65, 0x8), "Passing through modified key: 'A'");
    assert_eq!(engine.handling_note(65288, 0), "Handling BackSpace");
    assert_eq!(engine.handling_note(65293, 0), "Handling Enter");
    assert_eq!(engine.handling_note(65307, 0), "Handling Escape");
    assert_eq!(engine.handling_note(65289, 0), "Handling Tab");
    assert_eq!(
        engine.handling_note(1234567, 0),
        "Passing through special key: keyval=1234567"
    );
}
