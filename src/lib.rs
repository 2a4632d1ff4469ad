//! Hotkey-driven overlay control and Unicode text injection.
use vstd::prelude::*;

pub mod chord;
pub mod injection;
pub mod key;
pub mod overlay;
pub mod registry;

verus! {

} // verus!
