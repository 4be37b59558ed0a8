use std::collections::HashMap;
use thaime::descriptor::{
    create_component_description, ComponentDescriptor, EngineDescriptor, IBusComponent,
};
use zvariant::Value;

fn expected_engine() -> HashMap<String, Value<'static>> {
    let mut engine = HashMap::new();
    engine.insert("name".to_string(), Value::from("thaime-rust"));
    engine.insert("longname".to_string(), Value::from("Thai (thaime-rust)"));
    engine.insert(
        "description".to_string(),
        Value::from("Thai Input Method Engine (Rust)"),
    );
    engine.insert("language".to_string(), Value::from("th"));
    engine.insert("license".to_string(), Value::from("GPL-3.0-or-later"));
    engine.insert(
        "author".to_string(),
        Value::from("mimocha <chawit.leosrisook@outlook.com>"),
    );
    engine.insert("icon".to_string(), Value::from(""));
    engine.insert("layout".to_string(), Value::from("th"));
    engine.insert("rank".to_string(), Value::from(99u32));
    engine
}

fn expected_component() -> Value<'static> {
    let mut component = HashMap::new();
    component.insert(
        "name".to_string(),
        Value::from("org.freedesktop.IBus.ThaimaRust"),
    );
    component.insert("description".to_string(), Value::from("Thaime Rust Engine"));
    component.insert("version".to_string(), Value::from("0.1.0"));
    component.insert("license".to_string(), Value::from("GPL-3.0-or-later"));
    component.insert(
        "author".to_string(),
        Value::from("mimocha <chawit.leosrisook@outlook.com>"),
    );
    component.insert(
        "exec".to_string(),
        Value::from("/usr/local/bin/thaime --ibus"),
    );
    component.insert("textdomain".to_string(), Value::from("thaime"));
    let engines = vec![Value::from(expected_engine())];
    component.insert("engines".to_string(), Value::from(engines));
    Value::from(component)
}

#[test]
fn engine_description_holds_the_thaime_engine() {
    let engine = EngineDescriptor::thaime();
    assert_eq!(engine.engine_name, "thaime-rust");
    assert_eq!(engine.display_name, "Thai (thaime-rust)");
    assert_eq!(engine.description, "Thai Input Method Engine (Rust)");
    assert_eq!(engine.language_code, "th");
    assert_eq!(engine.license, "GPL-3.0-or-later");
    assert_eq!(engine.author, "mimocha <chawit.leosrisook@outlook.com>");
    assert_eq!(engine.icon_ref, "");
    assert_eq!(engine.keyboard_layout, "th");
    assert_eq!(engine.rank, 99);
}

#[test]
fn component_description_holds_the_service_and_its_engine() {
    let component = ComponentDescriptor::thaime();
    assert_eq!(component.service_name, "org.freedesktop.IBus.ThaimaRust");
    assert_eq!(component.description, "Thaime Rust Engine");
    assert_eq!(component.version, "0.1.0");
    assert_eq!(component.license, "GPL-3.0-or-later");
    assert_eq!(component.author, "mimocha <chawit.leosrisook@outlook.com>");
    assert_eq!(component.exec_path, "/usr/local/bin/thaime --ibus");
    assert_eq!(component.text_domain, "thaime");
    assert_eq!(component.engines, vec![EngineDescriptor::thaime()]);
}

#[test]
fn engine_variant_is_a_dictionary_of_its_fields() {
    let value = EngineDescriptor::thaime().to_value();
    assert_eq!(value, Value::from(expected_engine()));
}

#[test]
fn engine_variant_follows_the_description() {
    let mut engine = EngineDescriptor::thaime();
    engine.engine_name = "other".to_string();
    engine.rank = 7;
    let mut expected = expected_engine();
    expected.insert("name".to_string(), Value::from("other"));
    expected.insert("rank".to_string(), Value::from(7u32));
    assert_eq!(engine.to_value(), Value::from(expected));
    assert_ne!(engine.to_value(), Value::from(expected_engine()));
}

#[test]
fn component_variant_is_what_the_daemon_takes() {
    assert_eq!(create_component_description(), expected_component());
    assert_eq!(ComponentDescriptor::thaime().to_value(), expected_component());
}

#[test]
fn component_variant_lists_every_engine() {
    let mut component = ComponentDescriptor::thaime();
    component.engines.push(EngineDescriptor::thaime());
    let value = component.to_value();
    assert_ne!(value, expected_component());
    let mut none = ComponentDescriptor::thaime();
    none.engines.clear();
    assert_ne!(none.to_value(), expected_component());
    assert_ne!(none.to_value(), value);
}

#[test]
fn component_variant_has_the_signature_of_a_dictionary_of_variants() {
    let value = create_component_description();
    assert_eq!(value.value_signature().to_string(), "a{sv}");
}

#[test]
fn listed_engines_are_the_thaime_engine() {
    let engines = IBusComponent.get_engines();
    assert_eq!(
        engines,
        vec![(
            "thaime-rust".to_string(),
            "Thai (thaime-rust)".to_string(),
            "Thai Input Method Engine (Rust)".to_string(),
            "th".to_string(),
            "GPL-3.0-or-later".to_string(),
            "mimocha <chawit.leosrisook@outlook.com>".to_string(),
            "".to_string(),
            "th".to_string(),
            99u32,
        )]
    );
}
