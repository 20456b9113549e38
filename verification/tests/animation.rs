use thetawave::animation::{next_frame, AnimationDirection, PingPongDirection};

const FWD: AnimationDirection = AnimationDirection::PingPong(PingPongDirection::Forward);
const BWD: AnimationDirection = AnimationDirection::PingPong(PingPongDirection::Backward);

#[test]
fn forward_loops() {
    assert_eq!(next_frame(0, 3, AnimationDirection::Forward), (1, AnimationDirection::Forward));
    assert_eq!(next_frame(2, 3, AnimationDirection::Forward), (0, AnimationDirection::Forward));
    assert_eq!(next_frame(0, 1, AnimationDirection::Forward), (0, AnimationDirection::Forward));
    let expected = ((u32::MAX as u64 + 1) % 5) as u32;
    assert_eq!(next_frame(u32::MAX, 5, AnimationDirection::Forward), (expected, AnimationDirection::Forward));
}

#[test]
fn ping_pong_runs_back_and_forth() {
    assert_eq!(next_frame(0, 3, FWD), (1, FWD));
    assert_eq!(next_frame(1, 3, FWD), (2, BWD));
    assert_eq!(next_frame(2, 3, BWD), (1, BWD));
    assert_eq!(next_frame(1, 3, BWD), (0, FWD));
    // at the ends the index stays and the direction turns
    assert_eq!(next_frame(2, 3, FWD), (2, BWD));
    assert_eq!(next_frame(0, 3, BWD), (0, FWD));
    // a single frame sheet keeps turning on the spot
    assert_eq!(next_frame(0, 1, FWD), (0, BWD));
}
