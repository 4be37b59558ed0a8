use thaime::address::{
    daemon_address, engine_address, factory_address, DAEMON_PATH, ENGINE_PATH_BASE, FACTORY_PATH,
};
use zvariant::ObjectPath;

#[test]
fn factory_address_is_the_well_known_path() {
    let address = factory_address();
    assert_eq!(address.as_str(), "/org/freedesktop/IBus/Factory");
    assert_eq!(address.as_str(), FACTORY_PATH);
}

#[test]
fn daemon_address_is_the_well_known_path() {
    let address = daemon_address();
    assert_eq!(address.as_str(), "/org/freedesktop/IBus");
    assert_eq!(address.as_str(), DAEMON_PATH);
}

#[test]
fn engine_addresses_end_in_the_number() {
    assert_eq!(
        engine_address(0).as_str(),
        "/org/freedesktop/IBus/Engine/ThaimeRust/0"
    );
    assert_eq!(
        engine_address(42).as_str(),
        "/org/freedesktop/IBus/Engine/ThaimeRust/42"
    );
    assert_eq!(
        engine_address(u32::MAX).as_str(),
        "/org/freedesktop/IBus/Engine/ThaimeRust/4294967295"
    );
}

#[test]
fn engine_addresses_stand_under_the_base() {
    let address = engine_address(7);
    assert_eq!(address.as_str(), format!("{}/{}", ENGINE_PATH_BASE, 7));
}

#[test]
fn engine_addresses_differ_with_the_number() {
    assert_ne!(engine_address(1), engine_address(10));
    assert_ne!(engine_address(0), engine_address(1));
    assert_eq!(engine_address(3), engine_address(3));
}

#[test]
fn addresses_are_what_the_bus_library_parses() {
    let parsed = ObjectPath::try_from("/org/freedesktop/IBus/Engine/ThaimeRust/5").unwrap();
    assert_eq!(engine_address(5), parsed);
    let parsed = ObjectPath::try_from("/org/freedesktop/IBus/Factory").unwrap();
    assert_eq!(factory_address(), parsed);
}

#[test]
fn the_bus_library_follows_the_path_grammar() {
    assert!(ObjectPath::try_from("/").is_ok());
    assert!(ObjectPath::try_from("/a_b/C9").is_ok());
    assert!(ObjectPath::try_from("").is_err());
    assert!(ObjectPath::try_from("a/b").is_err());
    assert!(ObjectPath::try_from("/a//b").is_err());
    assert!(ObjectPath::try_from("/a/b/").is_err());
    assert!(ObjectPath::try_from("//").is_err());
    assert!(ObjectPath::try_from("/a.b").is_err());
    assert!(ObjectPath::try_from("/a-b").is_err());
    assert!(ObjectPath::try_from("/a b").is_err());
    assert!(ObjectPath::try_from("/\u{e01}").is_err());
}
