//! Bus object addresses: the grammar of an object path, the well-known
//! addresses of the factory and of the daemon, and the addresses that engine
//! instances get.

use crate::text::{decimal, decimal_text, lemma_decimal_digits, lemma_decimal_injective};
use vstd::pervasive::unreached;
use vstd::prelude::*;
use vstd::string::StringExecFns;
use zvariant::ObjectPath;

verus! {

/// The object path type of `zvariant`. Nothing of its inside is visible
/// here; `path_text` names the text that a path holds.
#[verifier::external_type_specification]
#[verifier::external_body]
pub struct ExObjectPath<'a>(zvariant::ObjectPath<'a>);

/// The error type of `zvariant`.
#[verifier::external_type_specification]
#[verifier::external_body]
pub struct ExVariantError(zvariant::Error);

/// The text that an object path holds.
pub uninterp spec fn path_text(path: ObjectPath<'static>) -> Seq<char>;

/// A character that may stand in an object path: an ASCII letter or digit,
/// an underscore, or the slash that separates the path's elements.
pub open spec fn is_path_char(c: char) -> bool {
    ('a' <= c <= 'z') || ('A' <= c <= 'Z') || ('0' <= c <= '9') || c == '_' || c == '/'
}

/// The grammar of an object path: it starts with a slash, holds only path
/// characters, has no two slashes in a row, and does not end in a slash
/// unless it is the root path `/`.
pub open spec fn valid_object_path(text: Seq<char>) -> bool {
    &&& text.len() >= 1
    &&& text[0] == '/'
    &&& forall|i: int| 0 <= i < text.len() ==> is_path_char(#[trigger] text[i])
    &&& forall|i: int| 0 < i < text.len() ==> !(text[i - 1] == '/' && #[trigger] text[i] == '/')
    &&& text.len() > 1 ==> text.last() != '/'
}

/// `ObjectPath::try_from` of `zvariant`, for an owned string. It accepts
/// exactly the texts that follow the grammar of an object path, and the path
/// it returns holds the text it was given. (It reads the text byte by byte;
/// a character outside ASCII has no byte that the grammar allows.)
#[verifier::external_body]
fn parse_object_path(text: String) -> (parsed: Result<ObjectPath<'static>, zvariant::Error>)
    ensures
        parsed is Ok <==> valid_object_path(text@),
        parsed matches Ok(path) ==> path_text(path) == text@,
{
    ObjectPath::try_from(text)
}

/// The well-known address of the factory.
pub const FACTORY_PATH: &'static str = "/org/freedesktop/IBus/Factory";

/// The address of the object of the input framework's daemon.
pub const DAEMON_PATH: &'static str = "/org/freedesktop/IBus";

/// The address under which the engine instances are exported.
pub const ENGINE_PATH_BASE: &'static str = "/org/freedesktop/IBus/Engine/ThaimeRust";

/// The text of the address of the engine instance with the given number:
/// the base address, a slash and the number in decimal.
pub open spec fn engine_path_text(id: nat) -> Seq<char> {
    ENGINE_PATH_BASE@ + "/"@ + decimal(id)
}

/// The factory's address follows the grammar of an object path.
pub proof fn lemma_factory_path_valid()
    ensures
        valid_object_path(FACTORY_PATH@),
{
    reveal_strlit("/org/freedesktop/IBus/Factory");
}

/// The daemon's address follows the grammar of an object path.
pub proof fn lemma_daemon_path_valid()
    ensures
        valid_object_path(DAEMON_PATH@),
{
    reveal_strlit("/org/freedesktop/IBus");
}

/// Every engine address follows the grammar of an object path.
pub proof fn lemma_engine_path_valid(id: nat)
    ensures
        valid_object_path(engine_path_text(id)),
{
    reveal_strlit("/org/freedesktop/IBus/Engine/ThaimeRust");
    reveal_strlit("/");
    lemma_decimal_digits(id);
    let base = ENGINE_PATH_BASE@;
    let text = engine_path_text(id);
    assert(valid_object_path(base));
    assert forall|i: int| 0 <= i < text.len() implies is_path_char(#[trigger] text[i]) by {
        if i < base.len() {
            assert(text[i] == base[i]);
        } else if i == base.len() {
        } else {
            assert(text[i] == decimal(id)[i - base.len() - 1]);
        }
    }
    assert forall|i: int| 0 < i < text.len() implies !(text[i - 1] == '/' && #[trigger] text[i]
        == '/') by {
        if i < base.len() {
            assert(text[i] == base[i]);
            assert(text[i - 1] == base[i - 1]);
        } else if i == base.len() {
            assert(text[i - 1] == base.last());
        } else {
            assert(text[i] == decimal(id)[i - base.len() - 1]);
        }
    }
    assert(text.last() == decimal(id).last());
}

/// Engine instances with different numbers have different addresses.
pub proof fn lemma_engine_paths_distinct(a: nat, b: nat)
    requires
        a != b,
    ensures
        engine_path_text(a) != engine_path_text(b),
{
    let prefix = ENGINE_PATH_BASE@ + "/"@;
    assert((prefix + decimal(a)).skip(prefix.len() as int) == decimal(a));
    assert((prefix + decimal(b)).skip(prefix.len() as int) == decimal(b));
    if decimal(a) == decimal(b) {
        lemma_decimal_injective(a, b);
    }
}

/// The well-known address of the factory, as an object path.
pub fn factory_address() -> (path: ObjectPath<'static>)
    ensures
        path_text(path) == FACTORY_PATH@,
{
    proof {
        lemma_factory_path_valid();
    }
    match parse_object_path(FACTORY_PATH.to_owned()) {
        Ok(path) => path,
        Err(_) => unreached(),
    }
}

/// The address of the daemon's object, as an object path.
pub fn daemon_address() -> (path: ObjectPath<'static>)
    ensures
        path_text(path) == DAEMON_PATH@,
{
    proof {
        lemma_daemon_path_valid();
    }
    match parse_object_path(DAEMON_PATH.to_owned()) {
        Ok(path) => path,
        Err(_) => unreached(),
    }
}

/// The address of the engine instance with the given number.
pub fn engine_address(id: u32) -> (path: ObjectPath<'static>)
    ensures
        path_text(path) == engine_path_text(id as nat),
{
    let mut text = ENGINE_PATH_BASE.to_owned();
    text.append("/");
    text.append(decimal_text(id).as_str());
    proof {
        lemma_engine_path_valid(id as nat);
    }
    match parse_object_path(text) {
        Ok(path) => path,
        Err(_) => unreached(),
    }
}

} // verus!
