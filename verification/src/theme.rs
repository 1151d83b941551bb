//! The roles that text and buttons play on screen.

use vstd::prelude::*;

verus! {

/// How prominent a piece of text is, or what it signals.
#[derive(Debug, Clone, Copy, PartialEq, Eq, Structural)]
pub enum Tone {
    Primary,
    Secondary,
    Tertiary,
    Disabled,
    Success,
    Warning,
    Failure,
}

} // verus!
