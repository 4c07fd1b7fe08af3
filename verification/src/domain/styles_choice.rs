use vstd::prelude::*;

verus! {

/// Global styles set up in the new project after its UI integration.
///
/// `NoStyles` leaves the styles that Angular CLI generated untouched; it is the
/// only setup offered, so the styles stage of a run never starts.
#[derive(Debug, Clone, Copy, PartialEq, Eq, Structural)]
pub enum StylesChoice {
    NoStyles,
}

} // verus!
