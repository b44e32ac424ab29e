use vstd::prelude::*;
use crate::codes::{ABS_RX, ABS_RY, ABS_RZ, ABS_X, ABS_Y, ABS_Z};
use crate::event::{axis_report, synced_report_bytes, EV_ABS};
use crate::layout::Hand;

verus! {

/// What a controller is doing. The left controller is a throttle, the
/// right one a joystick; each is either grabbed or not. A grabbed
/// throttle remembers the controller's position in the previous frame
/// (`P`), a grabbed stick the controller's orientation when it was
/// grabbed (`O`).
#[derive(Clone, Copy, Debug)]
pub enum Operation<P, O> {
    Throttle(P),
    Stick(O),
    NoThrottle,
    NoStick,
}

/// What to do with the virtual HOTAS in a frame.
#[derive(Clone, Copy, Debug)]
pub enum HandAction<P, O> {
    /// Nothing.
    Idle,
    /// The throttle was grabbed; the throttle does not move yet.
    ThrottleGrabbed,
    /// The throttle was let go; it stays where it is.
    ThrottleReleased,
    /// Move the throttle by how far the controller moved forward or back
    /// since the position `from`.
    MoveThrottle { from: P },
    /// The stick was grabbed; the stick does not move yet.
    StickGrabbed,
    /// The stick was let go: center its axes.
    CenterStick,
    /// Deflect the stick by the controller's rotation since `start`.
    DeflectStick { start: O },
}

/// The next operation and the action of a frame, given whether the grip is
/// held and where the controller is and how it is turned.
pub open spec fn operation_step<P, O>(op: Operation<P, O>, grip_active: bool, position: P, orientation: O) -> (Operation<P, O>, HandAction<P, O>) {
    match op {
        Operation::NoThrottle => if grip_active {
            (Operation::Throttle(position), HandAction::ThrottleGrabbed)
        } else {
            (Operation::NoThrottle, HandAction::Idle)
        },
        Operation::Throttle(last) => if !grip_active {
            (Operation::NoThrottle, HandAction::ThrottleReleased)
        } else {
            (Operation::Throttle(position), HandAction::MoveThrottle { from: last })
        },
        Operation::NoStick => if grip_active {
            (Operation::Stick(orientation), HandAction::StickGrabbed)
        } else {
            (Operation::NoStick, HandAction::Idle)
        },
        Operation::Stick(start) => if !grip_active {
            (Operation::NoStick, HandAction::CenterStick)
        } else {
            (Operation::Stick(start), HandAction::DeflectStick { start })
        },
    }
}

/// Whether an operation belongs to the throttle.
pub open spec fn is_throttle<P, O>(op: Operation<P, O>) -> bool {
    op is Throttle || op is NoThrottle
}

/// Whether an operation is grabbed.
pub open spec fn is_grabbed<P, O>(op: Operation<P, O>) -> bool {
    op is Throttle || op is Stick
}

/// One frame of a controller: holding the grip grabs the throttle or the
/// stick, letting go releases it. A held throttle moves with the
/// controller relative to the previous frame; a held stick deflects with
/// the controller's rotation since it was grabbed.
pub fn step<P: Copy, O: Copy>(op: Operation<P, O>, grip_active: bool, position: P, orientation: O) -> (r: (Operation<P, O>, HandAction<P, O>))
    ensures
        r == operation_step(op, grip_active, position, orientation),
{
    match op {
        Operation::NoThrottle => if grip_active {
            (Operation::Throttle(position), HandAction::ThrottleGrabbed)
        } else {
            (Operation::NoThrottle, HandAction::Idle)
        },
        Operation::Throttle(last) => if !grip_active {
            (Operation::NoThrottle, HandAction::ThrottleReleased)
        } else {
            (Operation::Throttle(position), HandAction::MoveThrottle { from: last })
        },
        Operation::NoStick => if grip_active {
            (Operation::Stick(orientation), HandAction::StickGrabbed)
        } else {
            (Operation::NoStick, HandAction::Idle)
        },
        Operation::Stick(start) => if !grip_active {
            (Operation::NoStick, HandAction::CenterStick)
        } else {
            (Operation::Stick(start), HandAction::DeflectStick { start })
        },
    }
}

/// What each controller does when the program starts: the left one is a
/// throttle, the right one a stick, neither grabbed.
pub open spec fn initial_operation<P, O>(hand: Hand) -> Operation<P, O> {
    match hand {
        Hand::Left => Operation::NoThrottle,
        Hand::Right => Operation::NoStick,
    }
}

/// What a controller does when the program starts.
pub fn initial_operation_of<P, O>(hand: Hand) -> (op: Operation<P, O>)
    ensures
        op == initial_operation::<P, O>(hand),
{
    match hand {
        Hand::Left => Operation::NoThrottle,
        Hand::Right => Operation::NoStick,
    }
}

/// A controller stays a throttle or a stick for good; it is grabbed
/// exactly while the grip is held; the stick is centered when, and only
/// when, it is let go, and letting go of the throttle moves nothing.
pub proof fn lemma_step_laws<P, O>(op: Operation<P, O>, grip_active: bool, position: P, orientation: O)
    ensures
        ({
            let (next, action) = operation_step(op, grip_active, position, orientation);
            &&& is_throttle(next) == is_throttle(op)
            &&& is_grabbed(next) == grip_active
            &&& (action is CenterStick <==> (op is Stick && !grip_active))
            &&& (op is Throttle && !grip_active ==> action is ThrottleReleased)
            &&& (action is MoveThrottle ==> op is Throttle && grip_active)
            &&& (action is DeflectStick ==> op is Stick && grip_active)
        }),
{
}

/// Over three gripped frames after a grab, the throttle moves by how far
/// the controller went since the frame before, while the stick deflects
/// relative to where the controller pointed when it was grabbed.
pub proof fn lemma_motion_reference<P, O>(p1: P, o1: O, p2: P, o2: O, p3: P, o3: O)
    ensures
        ({
            let t1 = operation_step(Operation::<P, O>::NoThrottle, true, p1, o1).0;
            let (t2, a2) = operation_step(t1, true, p2, o2);
            let a3 = operation_step(t2, true, p3, o3).1;
            a2 == HandAction::<P, O>::MoveThrottle { from: p1 } && a3
                == HandAction::<P, O>::MoveThrottle { from: p2 }
        }),
        ({
            let s1 = operation_step(Operation::<P, O>::NoStick, true, p1, o1).0;
            let (s2, b2) = operation_step(s1, true, p2, o2);
            let b3 = operation_step(s2, true, p3, o3).1;
            b2 == HandAction::<P, O>::DeflectStick { start: o1 } && b3
                == HandAction::<P, O>::DeflectStick { start: o1 }
        }),
{
}

/// The operation after a run of frames, each giving whether the grip is
/// held and where the controller is and how it is turned.
pub open spec fn run_frames<P, O>(op: Operation<P, O>, frames: Seq<(bool, P, O)>) -> Operation<P, O>
    decreases frames.len(),
{
    if frames.len() == 0 {
        op
    } else {
        run_frames(
            operation_step(op, frames[0].0, frames[0].1, frames[0].2).0,
            frames.drop_first(),
        )
    }
}

/// While the grip stays held, a grabbed stick keeps deflecting relative to
/// the orientation it was grabbed at, however the controller moves.
pub proof fn lemma_held_stick_keeps_grab_orientation<P, O>(start: O, frames: Seq<(bool, P, O)>)
    requires
        forall|i: int| 0 <= i < frames.len() ==> (#[trigger] frames[i]).0,
    ensures
        run_frames(Operation::<P, O>::Stick(start), frames) == Operation::<P, O>::Stick(start),
    decreases frames.len(),
{
    if frames.len() > 0 {
        assert(frames[0].0);
        let rest = frames.drop_first();
        assert forall|i: int| 0 <= i < rest.len() implies (#[trigger] rest[i]).0 by {
            assert(rest[i] == frames[i + 1]);
        }
        lemma_held_stick_keeps_grab_orientation(start, rest);
    }
}

/// While the grip stays held, a grabbed throttle follows the controller:
/// after any frames it remembers the position of the last one.
pub proof fn lemma_held_throttle_follows<P, O>(last: P, frames: Seq<(bool, P, O)>)
    requires
        frames.len() > 0,
        forall|i: int| 0 <= i < frames.len() ==> (#[trigger] frames[i]).0,
    ensures
        run_frames(Operation::<P, O>::Throttle(last), frames) == Operation::<P, O>::Throttle(
            frames.last().1,
        ),
    decreases frames.len(),
{
    assert(frames[0].0);
    let rest = frames.drop_first();
    if rest.len() > 0 {
        assert forall|i: int| 0 <= i < rest.len() implies (#[trigger] rest[i]).0 by {
            assert(rest[i] == frames[i + 1]);
        }
        lemma_held_throttle_follows(frames[0].1, rest);
        assert(rest.last() == frames.last());
    }
}

/// The analog trigger axis of each controller: the left trigger is LT,
/// the right one RT.
pub open spec fn trigger_axis(hand: Hand) -> u16 {
    match hand {
        Hand::Left => ABS_Z,
        Hand::Right => ABS_RZ,
    }
}

/// The axis the throttle drives.
pub const THROTTLE_AXIS: u16 = ABS_RY;

/// The axes the stick drives: roll, pitch and yaw.
pub const STICK_ROLL_AXIS: u16 = ABS_X;

pub const STICK_PITCH_AXIS: u16 = ABS_Y;

pub const STICK_YAW_AXIS: u16 = ABS_RX;

/// The analog trigger axis of a controller.
pub fn trigger_axis_of(hand: Hand) -> (code: u16)
    ensures
        code == trigger_axis(hand),
{
    match hand {
        Hand::Left => ABS_Z,
        Hand::Right => ABS_RZ,
    }
}

/// The middle position of an axis: `AXIS_MIN` plus half of `AXIS_LEVELS`,
/// the position a value of zero is scaled to.
pub const AXIS_CENTER: i32 = 0;

/// The reports that center the stick when it is let go: roll, pitch, then
/// yaw, each to the middle of its range.
pub open spec fn center_stick_report_bytes() -> Seq<Seq<u8>> {
    seq![
        synced_report_bytes(EV_ABS, STICK_ROLL_AXIS, AXIS_CENTER),
        synced_report_bytes(EV_ABS, STICK_PITCH_AXIS, AXIS_CENTER),
        synced_report_bytes(EV_ABS, STICK_YAW_AXIS, AXIS_CENTER),
    ]
}

/// The reports to write for `HandAction::CenterStick`.
pub fn center_stick_reports() -> (r: Vec<Vec<u8>>)
    ensures
        r@.len() == 3,
        forall|i: int| 0 <= i < 3 ==> (#[trigger] r@[i])@ == center_stick_report_bytes()[i],
{
    let mut r: Vec<Vec<u8>> = Vec::new();
    r.push(axis_report(STICK_ROLL_AXIS, AXIS_CENTER));
    r.push(axis_report(STICK_PITCH_AXIS, AXIS_CENTER));
    r.push(axis_report(STICK_YAW_AXIS, AXIS_CENTER));
    r
}

} // verus!
