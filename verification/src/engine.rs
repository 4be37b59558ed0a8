//! The engine core: a stateless decision from a key event to an action.

use crate::text::{decimal, decimal_text};
use vstd::prelude::*;
use vstd::string::StringExecFns;

verus! {

/// What the engine does with a key event.
#[derive(Clone, Copy, Debug, PartialEq, Eq, Structural)]
pub enum Action {
    /// The engine handled the event; the host must not process it further.
    Consumed,
    /// The event is handed back to the host unmodified.
    PassThrough,
}

/// Modifier bit: Shift.
pub const SHIFT_MASK: u32 = 0x1;

/// Modifier bit: CapsLock.
pub const CAPS_LOCK_MASK: u32 = 0x2;

/// Modifier bit: Ctrl.
pub const CONTROL_MASK: u32 = 0x4;

/// Modifier bit: Alt.
pub const ALT_MASK: u32 = 0x8;

/// Modifier bit: NumLock.
pub const NUM_LOCK_MASK: u32 = 0x10;

/// Modifier bit: Meta.
pub const META_MASK: u32 = 0x80;

/// Key code of BackSpace.
pub const KEY_BACKSPACE: u32 = 65288;

/// Key code of Tab.
pub const KEY_TAB: u32 = 65289;

/// Key code of Return.
pub const KEY_RETURN: u32 = 65293;

/// Key code of Escape.
pub const KEY_ESCAPE: u32 = 65307;

/// How the engine classifies a key event before it decides.
#[derive(Clone, Copy, Debug, PartialEq, Eq, Structural)]
pub enum KeyClass {
    /// A printable ASCII code with neither Ctrl nor Alt held.
    Printable,
    /// A printable ASCII code with Ctrl or Alt held.
    ModifiedPrintable,
    BackSpace,
    Enter,
    Escape,
    Tab,
    /// Any other code.
    Other,
}

/// The key code lies in the printable ASCII range.
pub open spec fn is_printable(key_code: u32) -> bool {
    32 <= key_code <= 126
}

/// Ctrl or Alt is held.
pub open spec fn has_control_or_alt(modifier_mask: u32) -> bool {
    modifier_mask & CONTROL_MASK != 0 || modifier_mask & ALT_MASK != 0
}

/// The class of a key event.
pub open spec fn key_class(key_code: u32, modifier_mask: u32) -> KeyClass {
    if is_printable(key_code) {
        if has_control_or_alt(modifier_mask) {
            KeyClass::ModifiedPrintable
        } else {
            KeyClass::Printable
        }
    } else if key_code == KEY_BACKSPACE {
        KeyClass::BackSpace
    } else if key_code == KEY_RETURN {
        KeyClass::Enter
    } else if key_code == KEY_ESCAPE {
        KeyClass::Escape
    } else if key_code == KEY_TAB {
        KeyClass::Tab
    } else {
        KeyClass::Other
    }
}

/// The action that the engine's policy assigns to a class of keys.
///
/// The engine core composes nothing yet, so no composition is ever in
/// progress when it decides, and it has no use for any key: every class is
/// handed back to the host, and no input is lost.
pub open spec fn class_action(class: KeyClass) -> Action {
    match class {
        KeyClass::Printable => Action::PassThrough,
        KeyClass::ModifiedPrintable => Action::PassThrough,
        KeyClass::BackSpace => Action::PassThrough,
        KeyClass::Enter => Action::PassThrough,
        KeyClass::Escape => Action::PassThrough,
        KeyClass::Tab => Action::PassThrough,
        KeyClass::Other => Action::PassThrough,
    }
}

/// The engine's decision for a key event: the action of the event's class.
/// The scan code plays no part in it.
pub open spec fn decision(key_code: u32, scan_code: u32, modifier_mask: u32) -> Action {
    class_action(key_class(key_code, modifier_mask))
}

/// Classifies a key event.
pub fn classify(key_code: u32, modifier_mask: u32) -> (class: KeyClass)
    ensures
        class == key_class(key_code, modifier_mask),
{
    if 32 <= key_code && key_code <= 126 {
        if modifier_mask & CONTROL_MASK != 0 || modifier_mask & ALT_MASK != 0 {
            KeyClass::ModifiedPrintable
        } else {
            KeyClass::Printable
        }
    } else if key_code == KEY_BACKSPACE {
        KeyClass::BackSpace
    } else if key_code == KEY_RETURN {
        KeyClass::Enter
    } else if key_code == KEY_ESCAPE {
        KeyClass::Escape
    } else if key_code == KEY_TAB {
        KeyClass::Tab
    } else {
        KeyClass::Other
    }
}

/// The names of one modifier bit: its name if the bit is set, else nothing.
pub open spec fn flag_name(modifier_mask: u32, bit: u32, name: Seq<char>) -> Seq<Seq<char>> {
    if modifier_mask & bit != 0 {
        seq![name]
    } else {
        Seq::empty()
    }
}

/// The names of the recognised modifier bits that are set, in the order
/// Shift, CapsLock, Ctrl, Alt, NumLock, Meta.
pub open spec fn modifier_names(modifier_mask: u32) -> Seq<Seq<char>> {
    flag_name(modifier_mask, SHIFT_MASK, "Shift"@) + flag_name(
        modifier_mask,
        CAPS_LOCK_MASK,
        "CapsLock"@,
    ) + flag_name(modifier_mask, CONTROL_MASK, "Ctrl"@) + flag_name(modifier_mask, ALT_MASK, "Alt"@)
        + flag_name(modifier_mask, NUM_LOCK_MASK, "NumLock"@) + flag_name(
        modifier_mask,
        META_MASK,
        "Meta"@,
    )
}

/// The parts written one after another, with `separator` between neighbours.
pub open spec fn joined(parts: Seq<Seq<char>>, separator: Seq<char>) -> Seq<char>
    decreases parts.len(),
{
    if parts.len() == 0 {
        Seq::empty()
    } else if parts.len() == 1 {
        parts[0]
    } else {
        joined(parts.drop_last(), separator) + separator + parts.last()
    }
}

/// The text that describes a modifier mask: the names of its recognised
/// bits joined by `+`, or `none` where no recognised bit is set.
pub open spec fn modifiers_text(modifier_mask: u32) -> Seq<char> {
    if modifier_names(modifier_mask).len() == 0 {
        "none"@
    } else {
        joined(modifier_names(modifier_mask), "+"@)
    }
}

/// The text that shows a key code: the character between single quotes for
/// a printable code, the decimal code between angle brackets for any other.
pub open spec fn key_label(key_code: u32) -> Seq<char> {
    if is_printable(key_code) {
        seq!['\'', key_code as char, '\'']
    } else {
        "<"@ + decimal(key_code as nat) + ">"@
    }
}

/// The one-line summary of a key event.
pub open spec fn summary_text(key_code: u32, scan_code: u32, modifier_mask: u32) -> Seq<char> {
    "ThaiEngine: Key event: keyval="@ + decimal(key_code as nat) + " "@ + key_label(key_code)
        + " keycode="@ + decimal(scan_code as nat) + ", modifiers="@ + decimal(
        modifier_mask as nat,
    ) + " ("@ + modifiers_text(modifier_mask) + ")"@
}

/// The line that says how a key event is treated.
pub open spec fn handling_text(key_code: u32, modifier_mask: u32) -> Seq<char> {
    match key_class(key_code, modifier_mask) {
        KeyClass::Printable => "Handling printable key: "@ + key_label(key_code),
        KeyClass::ModifiedPrintable => "Passing through modified key: "@ + key_label(key_code),
        KeyClass::BackSpace => "Handling BackSpace"@,
        KeyClass::Enter => "Handling Enter"@,
        KeyClass::Escape => "Handling Escape"@,
        KeyClass::Tab => "Handling Tab"@,
        KeyClass::Other => "Passing through special key: keyval="@ + decimal(key_code as nat),
    }
}

/// The texts of a list of string slices.
spec fn texts(parts: Seq<&'static str>) -> Seq<Seq<char>> {
    parts.map_values(|part: &'static str| part@)
}

/// Writes the parts one after another, with `separator` between neighbours.
fn join(parts: &Vec<&'static str>, separator: &str) -> (text: String)
    ensures
        text@ == joined(texts(parts@), separator@),
{
    let mut text = String::new();
    let mut i: usize = 0;
    while i < parts.len()
        invariant
            i <= parts.len(),
            text@ == joined(texts(parts@).take(i as int), separator@),
        decreases parts.len() - i,
    {
        proof {
            let done = texts(parts@).take(i as int);
            let next = texts(parts@).take(i + 1);
            assert(next.drop_last() == done);
            assert(next.last() == parts@[i as int]@);
            if i == 0 {
                assert(text@ + parts@[0]@ == next[0]);
            }
        }
        if i > 0 {
            text.append(separator);
        }
        text.append(parts[i]);
        i = i + 1;
    }
    proof {
        assert(texts(parts@).take(i as int) == texts(parts@));
    }
    text
}

/// The engine core. It holds no state: a decision depends on the key event
/// alone.
#[derive(Debug)]
pub struct ThaiEngine {}

impl ThaiEngine {
    /// A new engine core.
    pub fn new() -> (engine: Self) {
        ThaiEngine {}
    }

    /// Decides what to do with a key event. Every code has a decision; no
    /// event is ever consumed.
    pub fn decide(&self, key_code: u32, scan_code: u32, modifier_mask: u32) -> (action: Action)
        ensures
            action == decision(key_code, scan_code, modifier_mask),
            action == Action::PassThrough,
    {
        match classify(key_code, modifier_mask) {
            KeyClass::Printable => Action::PassThrough,
            KeyClass::ModifiedPrintable => Action::PassThrough,
            KeyClass::BackSpace => Action::PassThrough,
            KeyClass::Enter => Action::PassThrough,
            KeyClass::Escape => Action::PassThrough,
            KeyClass::Tab => Action::PassThrough,
            KeyClass::Other => Action::PassThrough,
        }
    }

    /// Whether the engine consumed the key event: it did if and only if its
    /// decision is to consume, which it never is.
    pub fn process_key_event(&self, key_code: u32, scan_code: u32, modifier_mask: u32) -> (consumed:
        bool)
        ensures
            consumed == (decision(key_code, scan_code, modifier_mask) == Action::Consumed),
            !consumed,
    {
        match self.decide(key_code, scan_code, modifier_mask) {
            Action::Consumed => true,
            Action::PassThrough => false,
        }
    }

    /// Describes a modifier mask by the names of its recognised bits.
    pub fn describe_modifiers(&self, modifier_mask: u32) -> (text: String)
        ensures
            text@ == modifiers_text(modifier_mask),
    {
        let mut parts: Vec<&'static str> = Vec::new();
        if modifier_mask & SHIFT_MASK != 0 {
            parts.push("Shift");
        }
        let ghost shift = texts(parts@);
        if modifier_mask & CAPS_LOCK_MASK != 0 {
            parts.push("CapsLock");
        }
        let ghost caps = texts(parts@);
        if modifier_mask & CONTROL_MASK != 0 {
            parts.push("Ctrl");
        }
        let ghost control = texts(parts@);
        if modifier_mask & ALT_MASK != 0 {
            parts.push("Alt");
        }
        let ghost alt = texts(parts@);
        if modifier_mask & NUM_LOCK_MASK != 0 {
            parts.push("NumLock");
        }
        let ghost num = texts(parts@);
        if modifier_mask & META_MASK != 0 {
            parts.push("Meta");
        }
        proof {
            assert(shift == flag_name(modifier_mask, SHIFT_MASK, "Shift"@));
            assert(caps == shift + flag_name(modifier_mask, CAPS_LOCK_MASK, "CapsLock"@));
            assert(control == caps + flag_name(modifier_mask, CONTROL_MASK, "Ctrl"@));
            assert(alt == control + flag_name(modifier_mask, ALT_MASK, "Alt"@));
            assert(num == alt + flag_name(modifier_mask, NUM_LOCK_MASK, "NumLock"@));
            assert(texts(parts@) == num + flag_name(modifier_mask, META_MASK, "Meta"@));
            assert(texts(parts@) == modifier_names(modifier_mask));
        }
        if parts.len() == 0 {
            "none".to_owned()
        } else {
            join(&parts, "+")
        }
    }

    /// Shows a key code as text.
    pub fn describe_key(&self, key_code: u32) -> (text: String)
        ensures
            text@ == key_label(key_code),
    {
        if 32 <= key_code && key_code <= 126 {
            let mut text = String::new();
            text.push('\'');
            text.push((key_code as u8) as char);
            text.push('\'');
            text
        } else {
            let mut text = "<".to_owned();
            text.append(decimal_text(key_code).as_str());
            text.append(">");
            text
        }
    }

    /// The one-line summary of a key event, for the host's diagnostics.
    pub fn key_event_summary(&self, key_code: u32, scan_code: u32, modifier_mask: u32) -> (text:
        String)
        ensures
            text@ == summary_text(key_code, scan_code, modifier_mask),
    {
        let mut text = "ThaiEngine: Key event: keyval=".to_owned();
        text.append(decimal_text(key_code).as_str());
        text.append(" ");
        text.append(self.describe_key(key_code).as_str());
        text.append(" keycode=");
        text.append(decimal_text(scan_code).as_str());
        text.append(", modifiers=");
        text.append(decimal_text(modifier_mask).as_str());
        text.append(" (");
        text.append(self.describe_modifiers(modifier_mask).as_str());
        text.append(")");
        text
    }

    /// The line that says how a key event is treated, for the host's
    /// diagnostics.
    pub fn handling_note(&self, key_code: u32, modifier_mask: u32) -> (text: String)
        ensures
            text@ == handling_text(key_code, modifier_mask),
    {
        match classify(key_code, modifier_mask) {
            KeyClass::Printable => {
                let mut text = "Handling printable key: ".to_owned();
                text.append(self.describe_key(key_code).as_str());
                text
            },
            KeyClass::ModifiedPrintable => {
                let mut text = "Passing through modified key: ".to_owned();
                text.append(self.describe_key(key_code).as_str());
                text
            },
            KeyClass::BackSpace => "Handling BackSpace".to_owned(),
            KeyClass::Enter => "Handling Enter".to_owned(),
            KeyClass::Escape => "Handling Escape".to_owned(),
            KeyClass::Tab => "Handling Tab".to_owned(),
            KeyClass::Other => {
                let mut text = "Passing through special key: keyval=".to_owned();
                text.append(decimal_text(key_code).as_str());
                text
            },
        }
    }
}

} // verus!
