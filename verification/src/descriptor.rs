//! What the service says of itself: the description of the engine, the
//! description of the component that serves it, and the form in which the
//! input framework's daemon takes them.

use crate::factory::ENGINE_NAME;
use std::collections::HashMap;
use vstd::prelude::*;
use zvariant::Value;

verus! {

/// The variant type of `zvariant`. Nothing of its inside is visible here;
/// `content` names what a variant holds.
#[verifier::external_type_specification]
#[verifier::external_body]
pub struct ExValue<'a>(zvariant::Value<'a>);

/// What a variant holds, as a mathematical value.
pub enum Content {
    /// A string.
    Text(Seq<char>),
    /// An unsigned 32-bit number.
    Number(u32),
    /// An array of variants.
    List(Seq<Content>),
    /// A dictionary from strings to variants.
    Dict(Map<Seq<char>, Content>),
}

/// What a variant holds. An item of an array or of a dictionary, which
/// `zvariant` wraps in a variant of its own, counts as what it wraps.
pub uninterp spec fn content(value: Value<'static>) -> Content;

/// What each variant of a list holds.
spec fn contents(items: Seq<Value<'static>>) -> Seq<Content> {
    items.map_values(|item: Value<'static>| content(item))
}

/// No two entries have the same key.
spec fn keys_distinct(entries: Seq<(String, Value<'static>)>) -> bool {
    forall|i: int, j: int|
        0 <= i < j < entries.len() ==> (#[trigger] entries[i]).0@ != (#[trigger] entries[j]).0@
}

/// The dictionary that holds the entries: each key with what its variant
/// holds.
spec fn entries_map(entries: Seq<(String, Value<'static>)>) -> Map<Seq<char>, Content>
    decreases entries.len(),
{
    if entries.len() == 0 {
        Map::empty()
    } else {
        entries_map(entries.drop_last()).insert(entries.last().0@, content(entries.last().1))
    }
}

/// `Value::from` of `zvariant`, for a string: the variant holds the text.
#[verifier::external_body]
fn text_value(text: &str) -> (value: Value<'static>)
    ensures
        content(value) == Content::Text(text@),
{
    Value::from(text.to_owned())
}

/// `Value::from` of `zvariant`, for a `u32`: the variant holds the number.
#[verifier::external_body]
fn number_value(number: u32) -> (value: Value<'static>)
    ensures
        content(value) == Content::Number(number),
{
    Value::from(number)
}

/// `Value::from` of `zvariant`, for a vector of variants: the variant holds
/// an array of the items in their order.
#[verifier::external_body]
fn array_value(items: Vec<Value<'static>>) -> (value: Value<'static>)
    ensures
        content(value) == Content::List(contents(items@)),
{
    Value::from(items)
}

/// `Value::from` of `zvariant`, for a hash map from strings to variants,
/// which is made of the entries here. Where no two entries have the same
/// key, the variant holds a dictionary with exactly these entries.
#[verifier::external_body]
fn dict_value(entries: Vec<(String, Value<'static>)>) -> (value: Value<'static>)
    requires
        keys_distinct(entries@),
    ensures
        content(value) == Content::Dict(entries_map(entries@)),
{
    Value::from(entries.into_iter().collect::<HashMap<String, Value<'static>>>())
}

/// The keys of the entries.
spec fn entry_keys(entries: Seq<(String, Value<'static>)>) -> Set<Seq<char>> {
    Set::new(
        |key: Seq<char>|
            exists|i: int| 0 <= i < entries.len() && (#[trigger] entries[i]).0@ == key,
    )
}

/// Adds an entry under a key that no entry has yet.
fn put(entries: &mut Vec<(String, Value<'static>)>, key: &str, value: Value<'static>)
    requires
        keys_distinct(old(entries)@),
        !entry_keys(old(entries)@).contains(key@),
    ensures
        keys_distinct(final(entries)@),
        entry_keys(final(entries)@) == entry_keys(old(entries)@).insert(key@),
        entries_map(final(entries)@) == entries_map(old(entries)@).insert(key@, content(value)),
{
    let ghost before = entries@;
    entries.push((key.to_owned(), value));
    proof {
        let after = entries@;
        assert(after.drop_last() == before);
        assert(after.last().0@ == key@);
        assert forall|i: int, j: int| 0 <= i < j < after.len() implies (#[trigger] after[i]).0@ != (
        #[trigger] after[j]).0@ by {
            if j == before.len() {
                assert(after[i] == before[i]);
            } else {
                assert(after[i] == before[i]);
                assert(after[j] == before[j]);
            }
        }
        assert forall|k: Seq<char>| entry_keys(after).contains(k) == entry_keys(before).insert(
            key@,
        ).contains(k) by {
            if entry_keys(after).contains(k) {
                let i = choose|i: int| 0 <= i < after.len() && (#[trigger] after[i]).0@ == k;
                if i < before.len() {
                    assert(after[i] == before[i]);
                }
            }
            if entry_keys(before).contains(k) {
                let i = choose|i: int| 0 <= i < before.len() && (#[trigger] before[i]).0@ == k;
                assert(after[i] == before[i]);
            }
            if k == key@ {
                assert(after[before.len() as int].0@ == k);
            }
        }
        assert(entry_keys(after) =~= entry_keys(before).insert(key@));
    }
}

/// The description of an engine.
#[derive(Debug, PartialEq, Eq)]
pub struct EngineDescriptor {
    /// The name by which the input framework asks for the engine.
    pub engine_name: String,
    /// The name shown to the user.
    pub display_name: String,
    pub description: String,
    /// The code of the language that the engine writes.
    pub language_code: String,
    pub license: String,
    pub author: String,
    /// The engine's icon; empty where it has none.
    pub icon_ref: String,
    /// The keyboard layout that the engine expects.
    pub keyboard_layout: String,
    /// The engine's priority among the engines of its language.
    pub rank: u32,
}

/// An engine description as a mathematical value.
pub struct EngineRecord {
    pub engine_name: Seq<char>,
    pub display_name: Seq<char>,
    pub description: Seq<char>,
    pub language_code: Seq<char>,
    pub license: Seq<char>,
    pub author: Seq<char>,
    pub icon_ref: Seq<char>,
    pub keyboard_layout: Seq<char>,
    pub rank: u32,
}

impl View for EngineDescriptor {
    type V = EngineRecord;

    open spec fn view(&self) -> EngineRecord {
        EngineRecord {
            engine_name: self.engine_name@,
            display_name: self.display_name@,
            description: self.description@,
            language_code: self.language_code@,
            license: self.license@,
            author: self.author@,
            icon_ref: self.icon_ref@,
            keyboard_layout: self.keyboard_layout@,
            rank: self.rank,
        }
    }
}

/// The description of the component: the service and the engines it serves.
#[derive(Debug, PartialEq, Eq)]
pub struct ComponentDescriptor {
    /// The name that the service claims on the bus.
    pub service_name: String,
    pub description: String,
    pub version: String,
    pub license: String,
    pub author: String,
    /// The command line that starts the service.
    pub exec_path: String,
    pub text_domain: String,
    /// The engines that the service serves, in their order.
    pub engines: Vec<EngineDescriptor>,
}

/// A component description as a mathematical value.
pub struct ComponentRecord {
    pub service_name: Seq<char>,
    pub description: Seq<char>,
    pub version: Seq<char>,
    pub license: Seq<char>,
    pub author: Seq<char>,
    pub exec_path: Seq<char>,
    pub text_domain: Seq<char>,
    pub engines: Seq<EngineRecord>,
}

impl View for ComponentDescriptor {
    type V = ComponentRecord;

    open spec fn view(&self) -> ComponentRecord {
        ComponentRecord {
            service_name: self.service_name@,
            description: self.description@,
            version: self.version@,
            license: self.license@,
            author: self.author@,
            exec_path: self.exec_path@,
            text_domain: self.text_domain@,
            engines: self.engines@.map_values(|engine: EngineDescriptor| engine@),
        }
    }
}

/// The name that the service claims on the bus.
pub const SERVICE_NAME: &'static str = "org.freedesktop.IBus.ThaimaRust";

/// The license of the service and of its engine.
pub const LICENSE: &'static str = "GPL-3.0-or-later";

/// The author of the service and of its engine.
pub const AUTHOR: &'static str = "mimocha <chawit.leosrisook@outlook.com>";

/// The description of the Thaime engine.
pub open spec fn thaime_engine_record() -> EngineRecord {
    EngineRecord {
        engine_name: ENGINE_NAME@,
        display_name: "Thai (thaime-rust)"@,
        description: "Thai Input Method Engine (Rust)"@,
        language_code: "th"@,
        license: LICENSE@,
        author: AUTHOR@,
        icon_ref: ""@,
        keyboard_layout: "th"@,
        rank: 99,
    }
}

/// The description of the Thaime component, with its one engine.
pub open spec fn thaime_component_record() -> ComponentRecord {
    ComponentRecord {
        service_name: SERVICE_NAME@,
        description: "Thaime Rust Engine"@,
        version: "0.1.0"@,
        license: LICENSE@,
        author: AUTHOR@,
        exec_path: "/usr/local/bin/thaime --ibus"@,
        text_domain: "thaime"@,
        engines: seq![thaime_engine_record()],
    }
}

/// What the variant of an engine description holds: a dictionary with one
/// entry for each field, under the key that the daemon expects.
pub open spec fn engine_content(engine: EngineRecord) -> Content {
    Content::Dict(
        map![
            "name"@ => Content::Text(engine.engine_name),
            "longname"@ => Content::Text(engine.display_name),
            "description"@ => Content::Text(engine.description),
            "language"@ => Content::Text(engine.language_code),
            "license"@ => Content::Text(engine.license),
            "author"@ => Content::Text(engine.author),
            "icon"@ => Content::Text(engine.icon_ref),
            "layout"@ => Content::Text(engine.keyboard_layout),
            "rank"@ => Content::Number(engine.rank),
        ],
    )
}

/// What the variant of a component description holds: a dictionary with one
/// entry for each field, under the key that the daemon expects, and with
/// the engines as an array of their own dictionaries.
pub open spec fn component_content(component: ComponentRecord) -> Content {
    Content::Dict(
        map![
            "name"@ => Content::Text(component.service_name),
            "description"@ => Content::Text(component.description),
            "version"@ => Content::Text(component.version),
            "license"@ => Content::Text(component.license),
            "author"@ => Content::Text(component.author),
            "exec"@ => Content::Text(component.exec_path),
            "textdomain"@ => Content::Text(component.text_domain),
            "engines"@ => Content::List(
                component.engines.map_values(|engine: EngineRecord| engine_content(engine)),
            ),
        ],
    )
}

/// The keys of an engine's dictionary are all different.
proof fn lemma_engine_keys()
    ensures
        "longname"@ != "name"@,
        "description"@ != "name"@,
        "description"@ != "longname"@,
        "language"@ != "name"@,
        "language"@ != "longname"@,
        "language"@ != "description"@,
        "license"@ != "name"@,
        "license"@ != "longname"@,
        "license"@ != "description"@,
        "license"@ != "language"@,
        "author"@ != "name"@,
        "author"@ != "longname"@,
        "author"@ != "description"@,
        "author"@ != "language"@,
        "author"@ != "license"@,
        "icon"@ != "name"@,
        "icon"@ != "longname"@,
        "icon"@ != "description"@,
        "icon"@ != "language"@,
        "icon"@ != "license"@,
        "icon"@ != "author"@,
        "layout"@ != "name"@,
        "layout"@ != "longname"@,
        "layout"@ != "description"@,
        "layout"@ != "language"@,
        "layout"@ != "license"@,
        "layout"@ != "author"@,
        "layout"@ != "icon"@,
        "rank"@ != "name"@,
        "rank"@ != "longname"@,
        "rank"@ != "description"@,
        "rank"@ != "language"@,
        "rank"@ != "license"@,
        "rank"@ != "author"@,
        "rank"@ != "icon"@,
        "rank"@ != "layout"@,
{
    reveal_strlit("name");
    reveal_strlit("longname");
    reveal_strlit("description");
    reveal_strlit("language");
    reveal_strlit("license");
    reveal_strlit("author");
    reveal_strlit("icon");
    reveal_strlit("layout");
    reveal_strlit("rank");
    assert("name"@.len() == 4 && "icon"@.len() == 4 && "rank"@.len() == 4);
    assert("longname"@.len() == 8 && "language"@.len() == 8);
    assert("author"@.len() == 6 && "layout"@.len() == 6);
    assert("description"@.len() == 11 && "license"@.len() == 7);
    assert("name"@[0] != "icon"@[0]);
    assert("name"@[0] != "rank"@[0]);
    assert("icon"@[0] != "rank"@[0]);
    assert("author"@[0] != "layout"@[0]);
    assert("language"@[1] != "longname"@[1]);
}

/// The keys of a component's dictionary are all different.
proof fn lemma_component_keys()
    ensures
        "description"@ != "name"@,
        "version"@ != "name"@,
        "version"@ != "description"@,
        "license"@ != "name"@,
        "license"@ != "description"@,
        "license"@ != "version"@,
        "author"@ != "name"@,
        "author"@ != "description"@,
        "author"@ != "version"@,
        "author"@ != "license"@,
        "exec"@ != "name"@,
        "exec"@ != "description"@,
        "exec"@ != "version"@,
        "exec"@ != "license"@,
        "exec"@ != "author"@,
        "textdomain"@ != "name"@,
        "textdomain"@ != "description"@,
        "textdomain"@ != "version"@,
        "textdomain"@ != "license"@,
        "textdomain"@ != "author"@,
        "textdomain"@ != "exec"@,
        "engines"@ != "name"@,
        "engines"@ != "description"@,
        "engines"@ != "version"@,
        "engines"@ != "license"@,
        "engines"@ != "author"@,
        "engines"@ != "exec"@,
        "engines"@ != "textdomain"@,
{
    reveal_strlit("name");
    reveal_strlit("description");
    reveal_strlit("version");
    reveal_strlit("license");
    reveal_strlit("author");
    reveal_strlit("exec");
    reveal_strlit("textdomain");
    reveal_strlit("engines");
    assert("name"@.len() == 4 && "exec"@.len() == 4);
    assert("version"@.len() == 7 && "license"@.len() == 7 && "engines"@.len() == 7);
    assert("description"@.len() == 11 && "author"@.len() == 6 && "textdomain"@.len() == 10);
    assert("name"@[0] != "exec"@[0]);
    assert("version"@[0] != "license"@[0]);
    assert("version"@[0] != "engines"@[0]);
    assert("license"@[0] != "engines"@[0]);
}

impl EngineDescriptor {
    /// The description of the Thaime engine.
    pub fn thaime() -> (engine: Self)
        ensures
            engine@ == thaime_engine_record(),
    {
        EngineDescriptor {
            engine_name: ENGINE_NAME.to_owned(),
            display_name: "Thai (thaime-rust)".to_owned(),
            description: "Thai Input Method Engine (Rust)".to_owned(),
            language_code: "th".to_owned(),
            license: LICENSE.to_owned(),
            author: AUTHOR.to_owned(),
            icon_ref: "".to_owned(),
            keyboard_layout: "th".to_owned(),
            rank: 99,
        }
    }

    /// The variant that carries the description to the daemon.
    pub fn to_value(&self) -> (value: Value<'static>)
        ensures
            content(value) == engine_content(self@),
    {
        proof {
            lemma_engine_keys();
        }
        let mut entries: Vec<(String, Value<'static>)> = Vec::new();
        assert(entry_keys(entries@) =~= Set::empty());
        put(&mut entries, "name", text_value(self.engine_name.as_str()));
        put(&mut entries, "longname", text_value(self.display_name.as_str()));
        put(&mut entries, "description", text_value(self.description.as_str()));
        put(&mut entries, "language", text_value(self.language_code.as_str()));
        put(&mut entries, "license", text_value(self.license.as_str()));
        put(&mut entries, "author", text_value(self.author.as_str()));
        put(&mut entries, "icon", text_value(self.icon_ref.as_str()));
        put(&mut entries, "layout", text_value(self.keyboard_layout.as_str()));
        put(&mut entries, "rank", number_value(self.rank));
        dict_value(entries)
    }
}

impl ComponentDescriptor {
    /// The description of the Thaime component.
    pub fn thaime() -> (component: Self)
        ensures
            component@ == thaime_component_record(),
    {
        let mut engines: Vec<EngineDescriptor> = Vec::new();
        engines.push(EngineDescriptor::thaime());
        let component = ComponentDescriptor {
            service_name: SERVICE_NAME.to_owned(),
            description: "Thaime Rust Engine".to_owned(),
            version: "0.1.0".to_owned(),
            license: LICENSE.to_owned(),
            author: AUTHOR.to_owned(),
            exec_path: "/usr/local/bin/thaime --ibus".to_owned(),
            text_domain: "thaime".to_owned(),
            engines,
        };
        proof {
            assert(component@.engines =~= seq![thaime_engine_record()]);
        }
        component
    }

    /// The variant that carries the description to the daemon.
    pub fn to_value(&self) -> (value: Value<'static>)
        ensures
            content(value) == component_content(self@),
    {
        let mut items: Vec<Value<'static>> = Vec::new();
        let mut i: usize = 0;
        while i < self.engines.len()
            invariant
                i <= self.engines.len(),
                contents(items@) == self@.engines.take(i as int).map_values(
                    |engine: EngineRecord| engine_content(engine),
                ),
            decreases self.engines.len() - i,
        {
            let item = self.engines[i].to_value();
            proof {
                let done = self@.engines.take(i as int);
                let next = self@.engines.take(i + 1);
                assert(next == done.push(self.engines[i as int]@));
                assert(contents(items@.push(item)) =~= contents(items@).push(content(item)));
                assert(next.map_values(|engine: EngineRecord| engine_content(engine))
                    =~= done.map_values(|engine: EngineRecord| engine_content(engine)).push(
                    content(item),
                ));
            }
            items.push(item);
            i = i + 1;
        }
        proof {
            assert(self@.engines.take(i as int) == self@.engines);
            lemma_component_keys();
        }
        let mut entries: Vec<(String, Value<'static>)> = Vec::new();
        assert(entry_keys(entries@) =~= Set::empty());
        put(&mut entries, "name", text_value(self.service_name.as_str()));
        put(&mut entries, "description", text_value(self.description.as_str()));
        put(&mut entries, "version", text_value(self.version.as_str()));
        put(&mut entries, "license", text_value(self.license.as_str()));
        put(&mut entries, "author", text_value(self.author.as_str()));
        put(&mut entries, "exec", text_value(self.exec_path.as_str()));
        put(&mut entries, "textdomain", text_value(self.text_domain.as_str()));
        put(&mut entries, "engines", array_value(items));
        dict_value(entries)
    }
}

/// The description of the Thaime component in the form that the daemon
/// takes.
pub fn create_component_description() -> (value: Value<'static>)
    ensures
        content(value) == component_content(thaime_component_record()),
{
    ComponentDescriptor::thaime().to_value()
}

/// One engine as the framework lists it: name, long name, description,
/// language, license, author, icon, layout and rank.
pub type EngineEntry = (String, String, String, String, String, String, String, String, u32);

/// The mathematical value of an engine entry.
pub open spec fn entry_record(entry: EngineEntry) -> EngineRecord {
    EngineRecord {
        engine_name: entry.0@,
        display_name: entry.1@,
        description: entry.2@,
        language_code: entry.3@,
        license: entry.4@,
        author: entry.5@,
        icon_ref: entry.6@,
        keyboard_layout: entry.7@,
        rank: entry.8,
    }
}

/// The component as the input framework sees it when it asks which engines
/// the service offers.
#[derive(Clone, Copy, Debug)]
pub struct IBusComponent;

impl IBusComponent {
    /// The engines that the service offers: the Thaime engine alone.
    pub fn get_engines(&self) -> (engines: Vec<EngineEntry>)
        ensures
            engines@.map_values(|entry: EngineEntry| entry_record(entry)) == seq![
                thaime_engine_record(),
            ],
    {
        let engine = EngineDescriptor::thaime();
        let mut engines: Vec<EngineEntry> = Vec::new();
        engines.push(
            (
                engine.engine_name,
                engine.display_name,
                engine.description,
                engine.language_code,
                engine.license,
                engine.author,
                engine.icon_ref,
                engine.keyboard_layout,
                engine.rank,
            ),
        );
        proof {
            assert(engines@.map_values(|entry: EngineEntry| entry_record(entry)) =~= seq![
                thaime_engine_record(),
            ]);
        }
        engines
    }
}

} // verus!
