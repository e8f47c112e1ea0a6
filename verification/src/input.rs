//! Input aggregation: held directional keys, virtual-joystick axis events
//! and UI button press states merge into one per-tick frame.

use vstd::prelude::*;
use crate::fixed::SCALE;
use crate::vecfx::{v2_below, v2_sum, v2_zero, Vec2Fx, V2};

verus! {

/// A frame never carries more joystick events than this; the mailbox is
/// drained every tick.
pub const JOY_EVENTS_MAX: usize = 512;

/// The identifier of the one on-screen joystick this demo listens to.
#[derive(Clone, Copy, PartialEq, Eq, Structural, Debug)]
pub enum JoystickControllerID {
    MoveJoystick,
}

/// One reported joystick axis event.
#[derive(Clone, Copy, PartialEq, Eq, Structural, Debug)]
pub struct JoystickEvent {
    pub id: JoystickControllerID,
    pub axis: Vec2Fx,
}

/// Which of the four directional bindings are held this tick.
#[derive(Clone, Copy, PartialEq, Eq, Structural, Debug)]
pub struct KeysHeld {
    pub forward: bool,
    pub back: bool,
    pub left: bool,
    pub right: bool,
}

/// The merged per-tick input: a pre-normalization movement vector and the
/// two discrete action triggers.
#[derive(Clone, Copy, PartialEq, Eq, Structural, Debug)]
pub struct InputFrame {
    pub move_vec: Vec2Fx,
    pub dash_requested: bool,
    pub jump_requested: bool,
}

/// An input condition true only on the tick the underlying state turns on.
pub fn edge_trigger(previous: bool, current: bool) -> (r: bool)
    ensures
        r == (current && !previous),
{
    current && !previous
}

/// The additive keyboard contribution: one unit per held binding,
/// forward along +Y, right along +X, without renormalization.
pub open spec fn keyboard_vec(keys: KeysHeld) -> V2 {
    V2 {
        x: (if keys.right {
            SCALE as int
        } else {
            0
        }) - (if keys.left {
            SCALE as int
        } else {
            0
        }),
        y: (if keys.forward {
            SCALE as int
        } else {
            0
        }) - (if keys.back {
            SCALE as int
        } else {
            0
        }),
    }
}

/// The sum of the axis vectors of the movement-joystick events.
pub open spec fn joystick_total(events: Seq<JoystickEvent>) -> V2
    decreases events.len(),
{
    if events.len() == 0 {
        v2_zero()
    } else {
        v2_sum(joystick_total(events.drop_last()), events.last().axis@)
    }
}

/// What the merged frame must hold: the movement vector is the keyboard
/// contribution plus every joystick axis, and each action trigger is the
/// key edge OR-combined with the button press state.
pub open spec fn aggregated(
    frame: InputFrame,
    keys: KeysHeld,
    events: Seq<JoystickEvent>,
    dash_key_edge: bool,
    dash_button_pressed: bool,
    jump_key_edge: bool,
    jump_button_pressed: bool,
) -> bool {
    &&& frame.move_vec@ == v2_sum(keyboard_vec(keys), joystick_total(events))
    &&& frame.dash_requested == (dash_key_edge || dash_button_pressed)
    &&& frame.jump_requested == (jump_key_edge || jump_button_pressed)
}

/// Merge keyboard state, joystick events and button press states into one
/// per-tick frame. No normalization happens here. Two opposing held keys
/// cancel to zero. A pure read: nothing is consumed or mutated.
pub fn aggregate_input(
    keys: KeysHeld,
    joystick_events: &Vec<JoystickEvent>,
    dash_key_edge: bool,
    dash_button_pressed: bool,
    jump_key_edge: bool,
    jump_button_pressed: bool,
) -> (frame: InputFrame)
    requires
        joystick_events@.len() <= JOY_EVENTS_MAX,
        forall|i: int|
            0 <= i < joystick_events@.len() ==> v2_below(
                #[trigger] joystick_events@[i].axis@,
                SCALE as int,
            ),
    ensures
        aggregated(
            frame,
            keys,
            joystick_events@,
            dash_key_edge,
            dash_button_pressed,
            jump_key_edge,
            jump_button_pressed,
        ),
        v2_below(frame.move_vec@, 2 * SCALE + SCALE * joystick_events@.len()),
{
    let kx: i64 = (if keys.right {
        SCALE
    } else {
        0
    }) - (if keys.left {
        SCALE
    } else {
        0
    });
    let ky: i64 = (if keys.forward {
        SCALE
    } else {
        0
    }) - (if keys.back {
        SCALE
    } else {
        0
    });
    let mut total = Vec2Fx::new(kx, ky);
    let mut i: usize = 0;
    proof {
        assert(joystick_events@.take(0int) =~= Seq::<JoystickEvent>::empty());
    }
    while i < joystick_events.len()
        invariant
            0 <= i <= joystick_events@.len(),
            joystick_events@.len() <= JOY_EVENTS_MAX,
            forall|k: int|
                0 <= k < joystick_events@.len() ==> v2_below(
                    #[trigger] joystick_events@[k].axis@,
                    SCALE as int,
                ),
            total@ == v2_sum(keyboard_vec(keys), joystick_total(joystick_events@.take(i as int))),
            v2_below(total@, 2 * SCALE + SCALE * i),
        decreases joystick_events@.len() - i,
    {
        let ev = joystick_events[i];
        match ev.id {
            JoystickControllerID::MoveJoystick => {
                total = total.plus(ev.axis);
            },
        }
        proof {
            let t = joystick_events@.take(i as int + 1);
            assert(t.drop_last() =~= joystick_events@.take(i as int));
            assert(t.last() == joystick_events@[i as int]);
        }
        i = i + 1;
    }
    proof {
        assert(joystick_events@.take(joystick_events@.len() as int) =~= joystick_events@);
    }
    InputFrame {
        move_vec: total,
        dash_requested: dash_key_edge || dash_button_pressed,
        jump_requested: jump_key_edge || jump_button_pressed,
    }
}

} // verus!
