//! The engine instance: one per input session. It owns the session's state
//! and answers the lifecycle calls and key events that the input framework
//! sends to it.

use crate::engine::{decision, handling_text, summary_text, Action, ThaiEngine};
use std::sync::Arc;
use vstd::prelude::*;

verus! {

/// Where an engine instance stands in its life.
#[derive(Clone, Copy, Debug, PartialEq, Eq, Structural)]
pub enum Lifecycle {
    /// The instance takes no key events.
    Disabled,
    /// The instance is in use, and its input context does not have the focus.
    EnabledUnfocused,
    /// The instance is in use, and its input context has the focus.
    EnabledFocused,
}

/// The state of an input session, as a mathematical value.
pub struct Session {
    /// Where the instance stands in its life.
    pub lifecycle: Lifecycle,
    /// The input units composed so far and not yet committed.
    pub composition: Seq<char>,
    /// The cursor's offset in the composition.
    pub cursor: nat,
}

impl Session {
    /// The session of an instance that was just created.
    pub open spec fn fresh() -> Session {
        Session { lifecycle: Lifecycle::Disabled, composition: Seq::empty(), cursor: 0 }
    }

    /// The instance takes key events.
    pub open spec fn enabled(self) -> bool {
        self.lifecycle != Lifecycle::Disabled
    }

    /// The instance's input context has the focus.
    pub open spec fn focused(self) -> bool {
        self.lifecycle == Lifecycle::EnabledFocused
    }

    /// The session with an empty composition and the cursor at its start.
    pub open spec fn cleared(self) -> Session {
        Session { lifecycle: self.lifecycle, composition: Seq::empty(), cursor: 0 }
    }

    /// The session after `enable`: a disabled instance becomes enabled and
    /// unfocused; an enabled one stays as it is.
    pub open spec fn enable(self) -> Session {
        if self.lifecycle == Lifecycle::Disabled {
            Session { lifecycle: Lifecycle::EnabledUnfocused, ..self }
        } else {
            self
        }
    }

    /// The session after `disable`: the instance is disabled, whatever it
    /// was before.
    pub open spec fn disable(self) -> Session {
        Session { lifecycle: Lifecycle::Disabled, ..self }
    }

    /// The session after `focus_in`: an enabled, unfocused instance gains the
    /// focus; any other stays as it is.
    pub open spec fn focus_in(self) -> Session {
        if self.lifecycle == Lifecycle::EnabledUnfocused {
            Session { lifecycle: Lifecycle::EnabledFocused, ..self }
        } else {
            self
        }
    }

    /// The session after `focus_out`: a focused instance loses the focus, and
    /// the composition is dropped in every case.
    pub open spec fn focus_out(self) -> Session {
        if self.lifecycle == Lifecycle::EnabledFocused {
            Session { lifecycle: Lifecycle::EnabledUnfocused, ..self.cleared() }
        } else {
            self.cleared()
        }
    }

    /// The session after `reset`: the composition is dropped, and the
    /// instance stays where it stood in its life.
    pub open spec fn reset(self) -> Session {
        self.cleared()
    }
}

/// Losing the focus and gaining it again leaves an empty composition with the
/// cursor at its start.
pub proof fn lemma_blur_then_focus_clears(session: Session)
    ensures
        session.focus_out().focus_in().composition == Seq::<char>::empty(),
        session.focus_out().focus_in().cursor == 0,
{
}

/// Disabling twice is disabling once.
pub proof fn lemma_disable_idempotent(session: Session)
    ensures
        session.disable().disable() == session.disable(),
{
}

/// Enabling twice is enabling once.
pub proof fn lemma_enable_idempotent(session: Session)
    ensures
        session.enable().enable() == session.enable(),
{
}

/// The two diagnostic lines of a key event that reached the engine core.
#[derive(Debug)]
pub struct KeyEventTrace {
    /// The event in one line.
    pub summary: String,
    /// How the event is treated.
    pub handling: String,
}

/// An engine instance: the object that serves one input session.
#[derive(Debug)]
pub struct IBusThaiEngine {
    engine: Arc<ThaiEngine>,
    preedit_string: String,
    cursor_pos: usize,
    lifecycle: Lifecycle,
}

impl View for IBusThaiEngine {
    type V = Session;

    closed spec fn view(&self) -> Session {
        Session {
            lifecycle: self.lifecycle,
            composition: self.preedit_string@,
            cursor: self.cursor_pos as nat,
        }
    }
}

impl IBusThaiEngine {
    /// A new instance around an engine core: disabled, with nothing composed.
    pub fn new(engine: Arc<ThaiEngine>) -> (instance: Self)
        ensures
            instance@ == Session::fresh(),
    {
        IBusThaiEngine {
            engine,
            preedit_string: String::new(),
            cursor_pos: 0,
            lifecycle: Lifecycle::Disabled,
        }
    }

    /// Where the instance stands in its life.
    pub fn lifecycle(&self) -> (lifecycle: Lifecycle)
        ensures
            lifecycle == self@.lifecycle,
    {
        self.lifecycle
    }

    /// Whether the instance takes key events.
    pub fn is_enabled(&self) -> (enabled: bool)
        ensures
            enabled == self@.enabled(),
    {
        match self.lifecycle {
            Lifecycle::Disabled => false,
            Lifecycle::EnabledUnfocused => true,
            Lifecycle::EnabledFocused => true,
        }
    }

    /// Whether the instance's input context has the focus.
    pub fn is_focused(&self) -> (focused: bool)
        ensures
            focused == self@.focused(),
    {
        match self.lifecycle {
            Lifecycle::Disabled => false,
            Lifecycle::EnabledUnfocused => false,
            Lifecycle::EnabledFocused => true,
        }
    }

    /// The input units composed so far.
    pub fn composition_buffer(&self) -> (text: &str)
        ensures
            text@ == self@.composition,
    {
        self.preedit_string.as_str()
    }

    /// The cursor's offset in the composition.
    pub fn cursor_offset(&self) -> (offset: usize)
        ensures
            offset == self@.cursor,
    {
        self.cursor_pos
    }

    /// Answers a key event: whether the instance consumed it. A disabled
    /// instance rejects the event without asking the engine core.
    pub fn process_key_event(&self, key_code: u32, scan_code: u32, modifier_mask: u32) -> (consumed:
        bool)
        ensures
            consumed == (self@.enabled() && decision(key_code, scan_code, modifier_mask)
                == Action::Consumed),
            !consumed,
    {
        if self.is_enabled() {
            self.engine.process_key_event(key_code, scan_code, modifier_mask)
        } else {
            false
        }
    }

    /// The diagnostic lines of a key event: those of the engine core where the
    /// event reaches it, none where the instance is disabled.
    pub fn trace_key_event(&self, key_code: u32, scan_code: u32, modifier_mask: u32) -> (trace:
        Option<KeyEventTrace>)
        ensures
            (trace is Some) == self@.enabled(),
            trace matches Some(lines) ==> lines.summary@ == summary_text(
                key_code,
                scan_code,
                modifier_mask,
            ) && lines.handling@ == handling_text(key_code, modifier_mask),
    {
        if self.is_enabled() {
            Some(
                KeyEventTrace {
                    summary: self.engine.key_event_summary(key_code, scan_code, modifier_mask),
                    handling: self.engine.handling_note(key_code, modifier_mask),
                },
            )
        } else {
            None
        }
    }

    /// Acknowledges the cursor's place on the screen.
    pub fn set_cursor_location(&self, x: i32, y: i32, w: i32, h: i32) {
    }

    /// Acknowledges the text around the cursor.
    pub fn set_surrounding_text(&self, text: &str, cursor_pos: u32, anchor_pos: u32) {
    }

    /// Acknowledges the purpose and hints of the input field.
    pub fn set_content_type(&self, purpose: u32, hints: u32) {
    }

    /// Drops the composition; the instance stays where it stood in its life.
    pub fn reset(&mut self)
        ensures
            final(self)@ == old(self)@.reset(),
    {
        self.clear();
    }

    /// The input context gained the focus.
    pub fn focus_in(&mut self)
        ensures
            final(self)@ == old(self)@.focus_in(),
    {
        match self.lifecycle {
            Lifecycle::EnabledUnfocused => {
                self.lifecycle = Lifecycle::EnabledFocused;
            },
            Lifecycle::Disabled => {},
            Lifecycle::EnabledFocused => {},
        }
    }

    /// The input context lost the focus: the composition is dropped.
    pub fn focus_out(&mut self)
        ensures
            final(self)@ == old(self)@.focus_out(),
    {
        self.clear();
        match self.lifecycle {
            Lifecycle::EnabledFocused => {
                self.lifecycle = Lifecycle::EnabledUnfocused;
            },
            Lifecycle::Disabled => {},
            Lifecycle::EnabledUnfocused => {},
        }
    }

    /// Puts the instance into use.
    pub fn enable(&mut self)
        ensures
            final(self)@ == old(self)@.enable(),
    {
        match self.lifecycle {
            Lifecycle::Disabled => {
                self.lifecycle = Lifecycle::EnabledUnfocused;
            },
            Lifecycle::EnabledUnfocused => {},
            Lifecycle::EnabledFocused => {},
        }
    }

    /// Takes the instance out of use.
    pub fn disable(&mut self)
        ensures
            final(self)@ == old(self)@.disable(),
    {
        self.lifecycle = Lifecycle::Disabled;
    }

    /// Acknowledges a request for the previous page of candidates.
    pub fn page_up(&self) {
    }

    /// Acknowledges a request for the next page of candidates.
    pub fn page_down(&self) {
    }

    /// Acknowledges a request for the previous candidate.
    pub fn cursor_up(&self) {
    }

    /// Acknowledges a request for the next candidate.
    pub fn cursor_down(&self) {
    }

    /// Acknowledges the activation of a property.
    pub fn property_activate(&self, prop_name: &str, prop_state: u32) {
    }

    fn clear(&mut self)
        ensures
            final(self)@ == old(self)@.cleared(),
    {
        self.preedit_string = String::new();
        self.cursor_pos = 0;
    }
}

} // verus!
