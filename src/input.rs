use vstd::prelude::*;

use crate::camera::CameraMovement;

verus! {

/// Which of the keys that steer the camera are held down in this frame.
#[derive(Clone, Copy, Debug, PartialEq, Eq, Structural)]
pub struct KeyStates {
    pub escape: bool,
    pub w: bool,
    pub s: bool,
    pub a: bool,
    pub d: bool,
}

/// What the render loop does for one frame of keyboard state.
#[derive(Debug)]
pub struct KeyboardActions {
    /// Whether the window is asked to close.
    pub close: bool,
    /// The moves to apply, in this order.
    pub movements: Vec<CameraMovement>,
}

/// `[m]` where the key is held, else nothing.
pub open spec fn move_if(held: bool, m: CameraMovement) -> Seq<CameraMovement> {
    if held {
        seq![m]
    } else {
        Seq::empty()
    }
}

/// The moves that held keys ask for: W forward, S backward, A left, D right,
/// in that order.
pub open spec fn spec_movements(k: KeyStates) -> Seq<CameraMovement> {
    move_if(k.w, CameraMovement::Forward) + move_if(k.s, CameraMovement::Backward) + move_if(
        k.a,
        CameraMovement::Left,
    ) + move_if(k.d, CameraMovement::Right)
}

/// Turns the keys held in one frame into the actions of that frame: Escape
/// closes the window, and each held movement key yields one move.
pub fn keyboard_actions(keys: KeyStates) -> (r: KeyboardActions)
    ensures
        r.close == keys.escape,
        r.movements@ == spec_movements(keys),
{
    let mut movements: Vec<CameraMovement> = Vec::new();
    if keys.w {
        movements.push(CameraMovement::Forward);
    }
    if keys.s {
        movements.push(CameraMovement::Backward);
    }
    if keys.a {
        movements.push(CameraMovement::Left);
    }
    if keys.d {
        movements.push(CameraMovement::Right);
    }
    assert(movements@ =~= spec_movements(keys));
    KeyboardActions { close: keys.escape, movements }
}

} // verus!
