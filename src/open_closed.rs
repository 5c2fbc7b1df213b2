use vstd::prelude::*;

verus! {

/// The ambient phase of an enclosing disclosure, which a dialog may consult
/// to decide whether it starts open when no explicit flag is given.
#[derive(Clone, Copy, Debug, PartialEq, Eq, Structural)]
pub enum State {
    Open,
    Closed,
    Closing,
    Opening,
}

/// Whether a dialog is open: the explicit flag when one is given, otherwise
/// whether the ambient state (if any) is `Open`.
pub open spec fn resolved_open(explicit: Option<bool>, ambient: Option<State>) -> bool {
    match explicit {
        Some(b) => b,
        None => ambient == Some(State::Open),
    }
}

/// Decides the dialog's open flag from an optional explicit value and an
/// optional ambient state.
pub fn resolve_open(explicit: Option<bool>, ambient: Option<State>) -> (r: bool)
    ensures
        r == resolved_open(explicit, ambient),
{
    match explicit {
        Some(b) => b,
        None => match ambient {
            Some(State::Open) => true,
            _ => false,
        },
    }
}

} // verus!
