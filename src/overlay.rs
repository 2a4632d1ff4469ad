//! The overlay visibility controller: a two-state machine that decides which
//! window operations to perform.
use vstd::prelude::*;

verus! {

/// Whether the overlay window is shown.
#[derive(Clone, Copy, Debug, PartialEq, Eq, Structural)]
pub enum OverlayState {
    Hidden,
    Visible,
}

/// The window operation that a transition asks for.
#[derive(Clone, Copy, Debug, PartialEq, Eq, Structural)]
pub enum OverlayAction {
    /// Show the window, then request input focus for it.
    ShowAndFocus,
    Hide,
    /// Nothing to do: the window is already in the asked-for state.
    Nothing,
}

/// An overlay operation that could not be carried out.
#[derive(Clone, Copy, Debug, PartialEq, Eq, Structural)]
pub enum OverlayError {
    /// The overlay window does not exist (not yet created, or destroyed).
    WindowNotFound,
}

/// The next state and the action of a toggle.
pub open spec fn toggle_spec(s: OverlayState) -> (OverlayState, OverlayAction) {
    match s {
        OverlayState::Hidden => (OverlayState::Visible, OverlayAction::ShowAndFocus),
        OverlayState::Visible => (OverlayState::Hidden, OverlayAction::Hide),
    }
}

/// Owns the overlay's visibility state; starts hidden. The state changes
/// only through the operations below.
pub struct OverlayController {
    state: OverlayState,
}

impl View for OverlayController {
    type V = OverlayState;

    closed spec fn view(&self) -> OverlayState {
        self.state
    }
}

impl OverlayController {
    pub fn new() -> (r: Self)
        ensures
            r@ == OverlayState::Hidden,
    {
        OverlayController { state: OverlayState::Hidden }
    }

    /// The current visibility.
    pub fn state(&self) -> (r: OverlayState)
        ensures
            r == self@,
    {
        self.state
    }

    /// Records that showing the window failed after a transition asked for
    /// it: the overlay is hidden again. A failure to focus after a
    /// successful show is not reported here, and leaves the overlay visible.
    pub fn show_failed(&mut self)
        ensures
            final(self)@ == OverlayState::Hidden,
    {
        self.state = OverlayState::Hidden;
    }

    /// Flips the visibility. Fails, changing nothing, when the window is missing.
    pub fn toggle_overlay(&mut self, window_exists: bool) -> (r: Result<OverlayAction, OverlayError>)
        ensures
            !window_exists ==> r == Err::<OverlayAction, OverlayError>(
                OverlayError::WindowNotFound,
            ) && final(self)@ == old(self)@,
            window_exists ==> r == Ok::<OverlayAction, OverlayError>(
                toggle_spec(old(self)@).1,
            ) && final(self)@ == toggle_spec(old(self)@).0,
    {
        if !window_exists {
            return Err(OverlayError::WindowNotFound);
        }
        match self.state {
            OverlayState::Hidden => {
                self.state = OverlayState::Visible;
                Ok(OverlayAction::ShowAndFocus)
            },
            OverlayState::Visible => {
                self.state = OverlayState::Hidden;
                Ok(OverlayAction::Hide)
            },
        }
    }

    /// Makes the overlay visible; a no-op success when it already is.
    pub fn show_overlay(&mut self, window_exists: bool) -> (r: Result<OverlayAction, OverlayError>)
        ensures
            !window_exists ==> r == Err::<OverlayAction, OverlayError>(
                OverlayError::WindowNotFound,
            ) && final(self)@ == old(self)@,
            window_exists ==> final(self)@ == OverlayState::Visible,
            window_exists && old(self)@ == OverlayState::Hidden ==> r == Ok::<
                OverlayAction,
                OverlayError,
            >(OverlayAction::ShowAndFocus),
            window_exists && old(self)@ == OverlayState::Visible ==> r == Ok::<
                OverlayAction,
                OverlayError,
            >(OverlayAction::Nothing),
    {
        if !window_exists {
            return Err(OverlayError::WindowNotFound);
        }
        match self.state {
            OverlayState::Hidden => {
                self.state = OverlayState::Visible;
                Ok(OverlayAction::ShowAndFocus)
            },
            OverlayState::Visible => Ok(OverlayAction::Nothing),
        }
    }

    /// Hides the overlay; a no-op success when it already is hidden.
    pub fn hide_overlay(&mut self, window_exists: bool) -> (r: Result<OverlayAction, OverlayError>)
        ensures
            !window_exists ==> r == Err::<OverlayAction, OverlayError>(
                OverlayError::WindowNotFound,
            ) && final(self)@ == old(self)@,
            window_exists ==> final(self)@ == OverlayState::Hidden,
            window_exists && old(self)@ == OverlayState::Visible ==> r == Ok::<
                OverlayAction,
                OverlayError,
            >(OverlayAction::Hide),
            window_exists && old(self)@ == OverlayState::Hidden ==> r == Ok::<
                OverlayAction,
                OverlayError,
            >(OverlayAction::Nothing),
    {
        if !window_exists {
            return Err(OverlayError::WindowNotFound);
        }
        match self.state {
            OverlayState::Visible => {
                self.state = OverlayState::Hidden;
                Ok(OverlayAction::Hide)
            },
            OverlayState::Hidden => Ok(OverlayAction::Nothing),
        }
    }
}

/// Two toggles from hidden come back to hidden, by exactly one show with
/// focus followed by one hide.
pub proof fn lemma_toggle_twice_from_hidden()
    ensures
        toggle_spec(toggle_spec(OverlayState::Hidden).0).0 == OverlayState::Hidden,
        toggle_spec(OverlayState::Hidden).1 == OverlayAction::ShowAndFocus,
        toggle_spec(toggle_spec(OverlayState::Hidden).0).1 == OverlayAction::Hide,
{
}

} // verus!
