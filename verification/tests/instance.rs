use std::sync::Arc;
use thaime::engine::ThaiEngine;
use thaime::ibus::{IBusThaiEngine, Lifecycle};

fn new_instance() -> IBusThaiEngine {
    IBusThaiEngine::new(Arc::new(ThaiEngine::new()))
}

#[test]
fn new_instance_is_disabled_and_empty() {
    let instance = new_instance();
    assert_eq!(instance.lifecycle(), Lifecycle::Disabled);
    assert!(!instance.is_enabled());
    assert!(!instance.is_focused());
    assert_eq!(instance.composition_buffer(), "");
    assert_eq!(instance.cursor_offset(), 0);
}

#[test]
fn enable_puts_a_disabled_instance_into_use() {
    let mut instance = new_instance();
    instance.enable();
    assert_eq!(instance.lifecycle(), Lifecycle::EnabledUnfocused);
    assert!(instance.is_enabled());
    assert!(!instance.is_focused());
}

#[test]
fn enable_twice_is_enable_once() {
    let mut once = new_instance();
    once.enable();
    let mut twice = new_instance();
    twice.enable();
    twice.enable();
    assert_eq!(twice.lifecycle(), once.lifecycle());
    assert_eq!(twice.composition_buffer(), once.composition_buffer());
    assert_eq!(twice.cursor_offset(), once.cursor_offset());
}

#[test]
fn enable_keeps_the_focus_of_an_enabled_instance() {
    let mut instance = new_instance();
    instance.enable();
    instance.focus_in();
    instance.enable();
    assert_eq!(instance.lifecycle(), Lifecycle::EnabledFocused);
}

#[test]
fn disable_from_any_state() {
    let mut instance = new_instance();
    instance.disable();
    assert_eq!(instance.lifecycle(), Lifecycle::Disabled);
    instance.enable();
    instance.disable();
    assert_eq!(instance.lifecycle(), Lifecycle::Disabled);
    instance.enable();
    instance.focus_in();
    instance.disable();
    assert_eq!(instance.lifecycle(), Lifecycle::Disabled);
}

#[test]
fn disable_twice_is_disable_once() {
    let mut once = new_instance();
    once.enable();
    once.focus_in();
    once.disable();
    let mut twice = new_instance();
    twice.enable();
    twice.focus_in();
    twice.disable();
    twice.disable();
    assert_eq!(twice.lifecycle(), once.lifecycle());
    assert_eq!(twice.lifecycle(), Lifecycle::Disabled);
    assert_eq!(twice.composition_buffer(), once.composition_buffer());
    assert_eq!(twice.cursor_offset(), once.cursor_offset());
}

#[test]
fn focus_moves_between_the_enabled_states() {
    let mut instance = new_instance();
    instance.enable();
    instance.focus_in();
    assert_eq!(instance.lifecycle(), Lifecycle::EnabledFocused);
    assert!(instance.is_focused());
    instance.focus_in();
    assert_eq!(instance.lifecycle(), Lifecycle::EnabledFocused);
    instance.focus_out();
    assert_eq!(instance.lifecycle(), Lifecycle::EnabledUnfocused);
    instance.focus_out();
    assert_eq!(instance.lifecycle(), Lifecycle::EnabledUnfocused);
}

#[test]
fn a_disabled_instance_does_not_gain_the_focus() {
    let mut instance = new_instance();
    instance.focus_in();
    assert_eq!(instance.lifecycle(), Lifecycle::Disabled);
    instance.focus_out();
    assert_eq!(instance.lifecycle(), Lifecycle::Disabled);
}

#[test]
fn focus_out_then_focus_in_leaves_an_empty_composition() {
    let mut instance = new_instance();
    instance.enable();
    instance.focus_in();
    instance.focus_out();
    instance.focus_in();
    assert_eq!(instance.composition_buffer(), "");
    assert_eq!(instance.cursor_offset(), 0);
    assert_eq!(instance.lifecycle(), Lifecycle::EnabledFocused);
}

#[test]
fn reset_keeps_the_lifecycle() {
    let mut instance = new_instance();
    instance.reset();
    assert_eq!(instance.lifecycle(), Lifecycle::Disabled);
    instance.enable();
    instance.reset();
    assert_eq!(instance.lifecycle(), Lifecycle::EnabledUnfocused);
    instance.focus_in();
    instance.reset();
    assert_eq!(instance.lifecycle(), Lifecycle::EnabledFocused);
    assert_eq!(instance.composition_buffer(), "");
    assert_eq!(instance.cursor_offset(), 0);
}

#[test]
fn enabled_and_focused_instance_passes_enter_and_letters_through() {
    let mut instance = new_instance();
    instance.enable();
    instance.focus_in();
    assert!(!instance.process_key_event(65293, 0, 0));
    assert!(!instance.process_key_event(97, 0, 0));
}

#[test]
fn a_disabled_instance_rejects_key_events() {
    let instance = new_instance();
    assert!(!instance.process_key_event(97, 0, 0));
    assert!(!instance.process_key_event(65293, 0, 0));
    assert!(instance.trace_key_event(97, 0, 0).is_none());
    assert_eq!(instance.lifecycle(), Lifecycle::Disabled);
    assert_eq!(instance.composition_buffer(), "");
}

#[test]
fn any_key_event_is_answered() {
    let mut instance = new_instance();
    assert!(!instance.process_key_event(u32::MAX, u32::MAX, u32::MAX));
    instance.enable();
    assert!(!instance.process_key_event(u32::MAX, u32::MAX, u32::MAX));
    assert!(!instance.process_key_event(0, 0, 0));
    instance.focus_in();
    assert!(!instance.process_key_event(0x110000, 70000, 0xdead_beef));
}

#[test]
fn an_enabled_instance_traces_key_events() {
    let mut instance = new_instance();
    instance.enable();
    let trace = instance.trace_key_event(97, 38, 1).unwrap();
    assert_eq!(
        trace.summary,
        "ThaiEngine: Key event: keyval=97 'a' keycode=38, modifiers=1 (Shift)"
    );
    assert_eq!(trace.handling, "Handling printable key: 'a'");
    let trace = instance.trace_key_event(65307, 9, 0).unwrap();
    assert_eq!(
        trace.summary,
        "ThaiEngine: Key event: keyval=65307 <65307> keycode=9, modifiers=0 (none)"
    );
    assert_eq!(trace.handling, "Handling Escape");
}

#[test]
fn acknowledged_calls_change_nothing() {
    let mut instance = new_instance();
    instance.enable();
    instance.focus_in();
    instance.set_cursor_location(10, 20, 2, 16);
    instance.set_surrounding_text("hello", 5, 5);
    instance.set_content_type(0, 0);
    instance.page_up();
    instance.page_down();
    instance.cursor_up();
    instance.cursor_down();
    instance.property_activate("InputMode", 1);
    assert_eq!(instance.lifecycle(), Lifecycle::EnabledFocused);
    assert_eq!(instance.composition_buffer(), "");
    assert_eq!(instance.cursor_offset(), 0);
}

#[test]
fn key_events_are_answered_in_every_state() {
    let key_codes = [
        0u32, 1, 31, 32, 48, 65, 97, 126, 127, 255, 65288, 65289, 65293, 65307, 65535, 0x0e01,
        0x7fff_ffff, u32::MAX,
    ];
    let scan_codes = [0u32, 1, 36, 255, 70000, u32::MAX];
    let mut instance = new_instance();
    for round in 0..3 {
        for &key_code in key_codes.iter() {
            for &scan_code in scan_codes.iter() {
                for modifier_mask in 0..=0xffu32 {
                    assert!(!instance.process_key_event(key_code, scan_code, modifier_mask));
                }
                assert!(!instance.process_key_event(key_code, scan_code, u32::MAX));
            }
        }
        if round == 0 {
            instance.enable();
        } else {
            instance.focus_in();
        }
    }
    assert_eq!(instance.lifecycle(), Lifecycle::EnabledFocused);
}
