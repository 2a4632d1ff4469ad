//! The shortcut registry: owns the one active hotkey binding and decides how
//! hotkey events reach the overlay.
use vstd::prelude::*;
use crate::chord::{lemma_modifier_order_irrelevant, mod_of, parse_chord, parse_spec, scan, Chord, ChordError};
use crate::key::plain_word;
use crate::overlay::{toggle_spec, OverlayAction, OverlayController, OverlayError, OverlayState};

verus! {

/// The chord bound at startup.
pub const DEFAULT_HOTKEY: &'static str = "Alt+S";

/// Why a binding could not be made.
#[derive(Clone, Copy, Debug, PartialEq, Eq, Structural)]
pub enum HotkeyError {
    /// The chord string is malformed.
    Parse(ChordError),
    /// The system refused to bind the chord.
    Registration,
}

/// Whether a hotkey notification is a press or a release.
#[derive(Clone, Copy, Debug, PartialEq, Eq, Structural)]
pub enum KeyEventState {
    Pressed,
    Released,
}

/// The in-process record of the system-level hotkey listener: at most one
/// chord is active at a time. Its view is the active chord.
pub struct ShortcutRegistry {
    active: Option<Chord>,
}

impl View for ShortcutRegistry {
    type V = Option<Chord>;

    closed spec fn view(&self) -> Option<Chord> {
        self.active
    }
}

impl ShortcutRegistry {
    /// A registry with no binding.
    pub fn new() -> (r: Self)
        ensures
            r@ is None,
    {
        ShortcutRegistry { active: None }
    }

    /// The active chord, if any.
    pub fn active(&self) -> (r: Option<Chord>)
        ensures
            r == self@,
    {
        self.active
    }

    /// Starts a rebind to `chord`. The caller has already removed the system
    /// listener of the previous binding, so the registry is unbound from here
    /// on. On success the parsed chord is returned for the caller to register
    /// with the system and then report through `finish_registration`.
    pub fn rebind(&mut self, chord: &str) -> (r: Result<Chord, HotkeyError>)
        ensures
            (final(self)@, r) == rebind_spec(chord@),
    {
        self.active = None;
        match parse_chord(chord) {
            Ok(c) => Ok(c),
            Err(e) => Err(HotkeyError::Parse(e)),
        }
    }

    /// Records the system's answer to registering `chord`: the chord becomes
    /// active only when the system accepted it.
    pub fn finish_registration(&mut self, chord: Chord, accepted: bool) -> (r: Result<
        (),
        HotkeyError,
    >)
        ensures
            accepted ==> r == Ok::<(), HotkeyError>(()) && final(self)@ == Some(chord),
            !accepted ==> r == Err::<(), HotkeyError>(HotkeyError::Registration)
                && final(self)@ is None,
    {
        if accepted {
            self.active = Some(chord);
            Ok(())
        } else {
            self.active = None;
            Err(HotkeyError::Registration)
        }
    }

    /// Routes a hotkey notification: a press toggles the overlay while a
    /// chord is bound; a release, or any event while unbound (as in the middle
    /// of a rebind), is ignored (`None`).
    pub fn dispatch(
        &self,
        event: KeyEventState,
        overlay: &mut OverlayController,
        window_exists: bool,
    ) -> (r: Option<Result<OverlayAction, OverlayError>>)
        ensures
            event == KeyEventState::Released || self@ is None ==> r is None && final(overlay)@
                == old(overlay)@,
            event == KeyEventState::Pressed && self@ is Some && window_exists ==> r == Some(
                Ok::<OverlayAction, OverlayError>(toggle_spec(old(overlay)@).1),
            ) && final(overlay)@ == toggle_spec(old(overlay)@).0,
            event == KeyEventState::Pressed && self@ is Some && !window_exists ==> r == Some(
                Err::<OverlayAction, OverlayError>(OverlayError::WindowNotFound),
            ) && final(overlay)@ == old(overlay)@,
    {
        if self.active.is_none() {
            return None;
        }
        match event {
            KeyEventState::Pressed => Some(overlay.toggle_overlay(window_exists)),
            KeyEventState::Released => None,
        }
    }
}

/// The binding left by a rebind to `s`, and its result: none stays bound,
/// and the parsed chord or the parse error is returned.
pub open spec fn rebind_spec(s: Seq<char>) -> (Option<Chord>, Result<Chord, HotkeyError>) {
    match parse_spec(s) {
        Ok(c) => (None, Ok(c)),
        Err(e) => (None, Err(HotkeyError::Parse(e))),
    }
}

/// A rebind from any binding to a string that does not parse leaves no
/// binding active, the previous one included, and reports the parse error.
pub proof fn lemma_rebind_invalid_unbinds(s: Seq<char>)
    requires
        parse_spec(s) is Err,
    ensures
        rebind_spec(s).0 is None,
        rebind_spec(s).1 == Err::<Chord, HotkeyError>(HotkeyError::Parse(parse_spec(s)->Err_0)),
{
}

/// Rebinding to a chord string and to the same string with two modifiers
/// listed in the other order gives the same outcome, and so, once the system
/// accepts the chord, the same single binding.
pub proof fn lemma_rebind_modifier_order(p: Seq<char>, w1: Seq<char>, w2: Seq<char>, rest: Seq<char>)
    requires
        scan(p).tok == Seq::<char>::empty(),
        plain_word(w1),
        plain_word(w2),
        mod_of(w1) is Some,
        mod_of(w2) is Some,
    ensures
        rebind_spec(p + w1.push('+') + w2.push('+') + rest) == rebind_spec(
            p + w2.push('+') + w1.push('+') + rest,
        ),
{
    lemma_modifier_order_irrelevant(p, w1, w2, rest);
}

} // verus!
