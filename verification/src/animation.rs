//! Sprite-sheet animation: which frame comes next, and in which direction a
//! ping-pong animation runs.
use vstd::prelude::*;

verus! {

/// Current direction of a ping-pong animation.
#[derive(Clone, Copy, Debug, PartialEq, Eq, Structural)]
pub enum PingPongDirection {
    Forward,
    Backward,
}

/// Describes how to change frames of animation: loop forward, or run back
/// and forth between the first and the last frame.
#[derive(Clone, Copy, Debug, PartialEq, Eq, Structural)]
pub enum AnimationDirection {
    Forward,
    PingPong(PingPongDirection),
}

/// The frame and direction after one animation step on a sheet of
/// `frame_count` frames. The last frame's index is read as a `u32`.
pub open spec fn next_frame_of(index: u32, frame_count: usize, direction: AnimationDirection) -> (
    u32,
    AnimationDirection,
) {
    let last = ((frame_count - 1) as int) as u32;
    match direction {
        AnimationDirection::Forward => (
            ((index + 1) % (frame_count as int)) as u32,
            AnimationDirection::Forward,
        ),
        AnimationDirection::PingPong(PingPongDirection::Forward) => {
            let next = if index < last {
                (index + 1) as u32
            } else {
                index
            };
            (
                next,
                if next == last {
                    AnimationDirection::PingPong(PingPongDirection::Backward)
                } else {
                    AnimationDirection::PingPong(PingPongDirection::Forward)
                },
            )
        },
        AnimationDirection::PingPong(PingPongDirection::Backward) => {
            let next = if index > 0 {
                (index - 1) as u32
            } else {
                index
            };
            (
                next,
                if next == 0 {
                    AnimationDirection::PingPong(PingPongDirection::Forward)
                } else {
                    AnimationDirection::PingPong(PingPongDirection::Backward)
                },
            )
        },
    }
}

/// Advances an animation by one frame on a sheet of `frame_count` frames.
pub fn next_frame(index: u32, frame_count: usize, direction: AnimationDirection) -> (r: (
    u32,
    AnimationDirection,
))
    requires
        frame_count > 0,
    ensures
        r == next_frame_of(index, frame_count, direction),
        direction == AnimationDirection::PingPong(PingPongDirection::Forward) && frame_count
            <= 0x1_0000_0000 && index + 2 < frame_count ==> r.0 == index + 1 && r.1
            == AnimationDirection::PingPong(PingPongDirection::Forward),
        direction == AnimationDirection::PingPong(PingPongDirection::Forward) && frame_count
            <= 0x1_0000_0000 && index + 2 == frame_count ==> r.0 == index + 1 && r.1
            == AnimationDirection::PingPong(PingPongDirection::Backward),
        direction == AnimationDirection::PingPong(PingPongDirection::Backward) && index > 1
            ==> r.0 == index - 1 && r.1 == AnimationDirection::PingPong(PingPongDirection::Backward),
        direction == AnimationDirection::PingPong(PingPongDirection::Backward) && index == 1
            ==> r.0 == 0 && r.1 == AnimationDirection::PingPong(PingPongDirection::Forward),
{
    let last: u32 = #[verifier::truncate] ((frame_count - 1) as u32);
    match direction {
        AnimationDirection::Forward => {
            let next: u64 = (index as u64 + 1) % (frame_count as u64);
            (#[verifier::truncate] (next as u32), AnimationDirection::Forward)
        },
        AnimationDirection::PingPong(PingPongDirection::Forward) => {
            let mut next = index;
            if next < last {
                next = next + 1;
            }
            if next == last {
                (next, AnimationDirection::PingPong(PingPongDirection::Backward))
            } else {
                (next, AnimationDirection::PingPong(PingPongDirection::Forward))
            }
        },
        AnimationDirection::PingPong(PingPongDirection::Backward) => {
            let mut next = index;
            if next > 0 {
                next = next - 1;
            }
            if next == 0 {
                (next, AnimationDirection::PingPong(PingPongDirection::Forward))
            } else {
                (next, AnimationDirection::PingPong(PingPongDirection::Backward))
            }
        },
    }
}

/// Law: on a sheet whose frames a `u32` can index, an animation that starts
/// on a frame of the sheet stays on the sheet.
pub proof fn law_frames_stay_on_sheet(index: u32, frame_count: usize, direction: AnimationDirection)
    requires
        0 < frame_count <= 0x1_0000_0000,
        index < frame_count,
    ensures
        next_frame_of(index, frame_count, direction).0 < frame_count,
{
    assert(((frame_count - 1) as int) as u32 == frame_count - 1);
}

/// Law: a looping animation visits the frames in order and wraps from the
/// last frame to the first.
pub proof fn law_forward_wraps(index: u32, frame_count: usize)
    requires
        0 < frame_count <= 0x1_0000_0000,
        index < frame_count,
    ensures
        next_frame_of(index, frame_count, AnimationDirection::Forward).0 == (if index + 1
            == frame_count {
            0
        } else {
            index + 1
        }),
{
    let n = index as int + 1;
    if n == frame_count {
        vstd::arithmetic::div_mod::lemma_mod_self_0(n);
    } else {
        vstd::arithmetic::div_mod::lemma_small_mod(n as nat, frame_count as nat);
    }
}

/// Law: a ping-pong animation turns around exactly at the ends of the sheet:
/// running forward it reaches the last frame and turns backward, running
/// backward it reaches the first frame and turns forward; in between it moves
/// one frame at a time.
pub proof fn law_ping_pong_turns_at_ends(index: u32, frame_count: usize)
    requires
        1 < frame_count <= 0x1_0000_0000,
        index < frame_count,
    ensures
        index + 1 < frame_count ==> next_frame_of(
            index,
            frame_count,
            AnimationDirection::PingPong(PingPongDirection::Forward),
        ).0 == index + 1,
        index + 2 == frame_count ==> next_frame_of(
            index,
            frame_count,
            AnimationDirection::PingPong(PingPongDirection::Forward),
        ).1 == AnimationDirection::PingPong(PingPongDirection::Backward),
        index > 0 ==> next_frame_of(
            index,
            frame_count,
            AnimationDirection::PingPong(PingPongDirection::Backward),
        ).0 == index - 1,
        index == 1 ==> next_frame_of(
            index,
            frame_count,
            AnimationDirection::PingPong(PingPongDirection::Backward),
        ).1 == AnimationDirection::PingPong(PingPongDirection::Forward),
{
    assert(((frame_count - 1) as int) as u32 == frame_count - 1);
}

/// Law: between the ends of the sheet a ping-pong animation keeps its
/// direction: running forward it goes on while the next frame is not the
/// last one, running backward while the next frame is not the first one.
pub proof fn law_ping_pong_keeps_direction_inside(index: u32, frame_count: usize)
    requires
        1 < frame_count <= 0x1_0000_0000,
        index < frame_count,
    ensures
        index + 2 < frame_count ==> next_frame_of(
            index,
            frame_count,
            AnimationDirection::PingPong(PingPongDirection::Forward),
        ) == (((index + 1) as u32), AnimationDirection::PingPong(PingPongDirection::Forward)),
        index > 1 ==> next_frame_of(
            index,
            frame_count,
            AnimationDirection::PingPong(PingPongDirection::Backward),
        ) == (((index - 1) as u32), AnimationDirection::PingPong(PingPongDirection::Backward)),
{
    assert(((frame_count - 1) as int) as u32 == frame_count - 1);
}

} // verus!
