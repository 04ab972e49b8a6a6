//! Action selection policy: which kind of synthetic input one scheduler
//! cycle produces, given the two capability toggles.

use vstd::prelude::*;
use crate::sampling::random_u64_in;

verus! {

/// The four possible outcomes of one scheduler cycle.
#[derive(Clone, Copy, Debug, PartialEq, Eq)]
pub enum ActionKind {
    /// Move the cursor along a synthesized path.
    MoveCursor,
    /// Press and release the left mouse button once.
    Click,
    /// Type the next chunk of the configured text.
    Type,
    /// Do nothing: both capabilities are off.
    NoOp,
}

/// Chooses the action for one cycle.
///
/// With both toggles off nothing is synthesized at all. With only the
/// keyboard on the choice is forced to typing, so a keyboard-only
/// configuration keeps its typing cadence. With only clicks on the
/// choice is a uniform two-way draw between moving and clicking, and
/// with both on a uniform three-way draw over all actions.
pub fn select_action(enable_clicks: bool, enable_keyboard: bool) -> (r: ActionKind)
    ensures
        (r == ActionKind::NoOp) <==> (!enable_clicks && !enable_keyboard),
        (enable_keyboard && !enable_clicks) ==> r == ActionKind::Type,
        r == ActionKind::Type ==> enable_keyboard,
        r == ActionKind::MoveCursor ==> enable_clicks,
        r == ActionKind::Click ==> enable_clicks,
{
    if !enable_clicks && !enable_keyboard {
        ActionKind::NoOp
    } else if enable_keyboard && !enable_clicks {
        ActionKind::Type
    } else if enable_clicks && !enable_keyboard {
        let draw = random_u64_in(0, 1);
        if draw == 0 {
            ActionKind::MoveCursor
        } else {
            ActionKind::Click
        }
    } else {
        let draw = random_u64_in(0, 2);
        if draw == 0 {
            ActionKind::MoveCursor
        } else if draw == 1 {
            ActionKind::Click
        } else {
            ActionKind::Type
        }
    }
}

} // verus!
