//! Input mapping and the frame-loop decision core.
//!
//! Platform events arrive as plain values; mapping a key to a camera
//! operation is a pure function from event to action, and consuming an
//! action yields the next loop state (`Running` or `Quitting`).  All
//! polling, key decoding and drawing stays outside; this module only
//! decides.

use crate::camera::{
    in_cam_range, moved_coord, rotated_camera, rotation_applies, Camera, Rotation, STEP_MAX,
};
use vstd::prelude::*;

verus! {

/// A key the renderer reacts to.
#[derive(Clone, Copy, Debug, PartialEq, Eq, Structural)]
pub enum Key {
    Left,
    Right,
    Up,
    Down,
    Other,
}

/// A platform event, reduced to what the loop decides on.
#[derive(Clone, Copy, Debug, PartialEq, Eq, Structural)]
pub enum ControlEvent {
    Quit,
    KeyDown(Key),
    Other,
}

/// What one event asks of the camera.
#[derive(Clone, Copy, Debug, PartialEq, Eq, Structural)]
pub enum Action {
    RotateLeft,
    RotateRight,
    MoveForward,
    MoveBackward,
    Quit,
    NoOp,
}

/// Whether the outer loop keeps running.
#[derive(Clone, Copy, Debug, PartialEq, Eq, Structural)]
pub enum ControlState {
    Running,
    Quitting,
}

/// The fixed key binding: arrows rotate and move, a quit event quits,
/// everything else does nothing.
pub open spec fn action_for_spec(event: ControlEvent) -> Action {
    match event {
        ControlEvent::Quit => Action::Quit,
        ControlEvent::KeyDown(Key::Left) => Action::RotateLeft,
        ControlEvent::KeyDown(Key::Right) => Action::RotateRight,
        ControlEvent::KeyDown(Key::Up) => Action::MoveForward,
        ControlEvent::KeyDown(Key::Down) => Action::MoveBackward,
        ControlEvent::KeyDown(Key::Other) => Action::NoOp,
        ControlEvent::Other => Action::NoOp,
    }
}

/// Maps one polled event to the action it requests.
pub fn action_for(event: ControlEvent) -> (r: Action)
    ensures
        r == action_for_spec(event),
{
    match event {
        ControlEvent::Quit => Action::Quit,
        ControlEvent::KeyDown(Key::Left) => Action::RotateLeft,
        ControlEvent::KeyDown(Key::Right) => Action::RotateRight,
        ControlEvent::KeyDown(Key::Up) => Action::MoveForward,
        ControlEvent::KeyDown(Key::Down) => Action::MoveBackward,
        ControlEvent::KeyDown(Key::Other) => Action::NoOp,
        ControlEvent::Other => Action::NoOp,
    }
}

/// Consumes one action: mutates the camera as the action asks (with
/// the left rotation for a left turn, its mirror for a right turn, and
/// `step` scaled units of motion) and reports whether the loop keeps
/// running.  Only a quit action stops the loop; a camera mutation whose
/// exact result would leave the representable range leaves the camera
/// unchanged, exactly as the mutation operations themselves do.
pub fn apply_action(
    cam: &mut Camera,
    action: Action,
    rot_left: &Rotation,
    rot_right: &Rotation,
    step: i64,
) -> (r: ControlState)
    requires
        old(cam).wf(),
        rot_left.wf(),
        rot_right.wf(),
        0 <= step <= STEP_MAX,
    ensures
        final(cam).wf(),
        r is Quitting <==> action is Quit,
        action is Quit || action is NoOp ==> *final(cam) == *old(cam),
        action is MoveForward ==> final(cam).direction == old(cam).direction
            && final(cam).view_plane == old(cam).view_plane && (if (in_cam_range(
            moved_coord(old(cam).position.x as int, old(cam).direction.x as int, step as int),
        ) && in_cam_range(
            moved_coord(old(cam).position.y as int, old(cam).direction.y as int, step as int),
        )) {
            final(cam).position.x == moved_coord(
                old(cam).position.x as int,
                old(cam).direction.x as int,
                step as int,
            ) && final(cam).position.y == moved_coord(
                old(cam).position.y as int,
                old(cam).direction.y as int,
                step as int,
            )
        } else {
            *final(cam) == *old(cam)
        }),
        action is MoveBackward ==> final(cam).direction == old(cam).direction
            && final(cam).view_plane == old(cam).view_plane && (if (in_cam_range(
            moved_coord(old(cam).position.x as int, old(cam).direction.x as int, -(step as int)),
        ) && in_cam_range(
            moved_coord(old(cam).position.y as int, old(cam).direction.y as int, -(step as int)),
        )) {
            final(cam).position.x == moved_coord(
                old(cam).position.x as int,
                old(cam).direction.x as int,
                -(step as int),
            ) && final(cam).position.y == moved_coord(
                old(cam).position.y as int,
                old(cam).direction.y as int,
                -(step as int),
            )
        } else {
            *final(cam) == *old(cam)
        }),
        action is RotateLeft ==> final(cam).position == old(cam).position && (if rotation_applies(
            *old(cam),
            *rot_left,
        ) {
            *final(cam) == rotated_camera(*old(cam), *rot_left)
        } else {
            *final(cam) == *old(cam)
        }),
        action is RotateRight ==> final(cam).position == old(cam).position && (if rotation_applies(
            *old(cam),
            *rot_right,
        ) {
            *final(cam) == rotated_camera(*old(cam), *rot_right)
        } else {
            *final(cam) == *old(cam)
        }),
    {
    match action {
        Action::Quit => ControlState::Quitting,
        Action::NoOp => ControlState::Running,
        Action::MoveForward => {
            let _moved: bool = cam.move_forward(step);
            ControlState::Running
        },
        Action::MoveBackward => {
            let _moved: bool = cam.move_backward(step);
            ControlState::Running
        },
        Action::RotateLeft => {
            let _turned: bool = cam.rotate(rot_left);
            ControlState::Running
        },
        Action::RotateRight => {
            let _turned: bool = cam.rotate(rot_right);
            ControlState::Running
        },
    }
}

} // verus!
