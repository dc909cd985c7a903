use clock_face::hands::{hand_turn, hand_turns, TimeSteps, Turn, TICKS_PER_TURN};
use clock_face::scene::{sprite_for, texture_path, Anchor, ClockFace, SPRITE_COUNT};
use clock_face::time::ClockTime;
use std::f64::consts::TAU;

fn at(hour12: u32, minute: u32, second: u32, nanosecond: u32) -> ClockTime {
    ClockTime::new(hour12, minute, second, nanosecond).unwrap()
}

fn radians(turn: Turn) -> f64 {
    -TAU * turn.ticks as f64 / TICKS_PER_TURN as f64
}

fn close(a: f64, b: f64) -> bool {
    (a - b).abs() < 1e-9
}

#[test]
fn midnight_all_hands_at_zero() {
    let r = hand_turns(&at(0, 0, 0, 0));
    assert_eq!(r.hour.ticks, 0);
    assert_eq!(r.minute.ticks, 0);
    assert_eq!(r.second.ticks, 0);
}

#[test]
fn three_oclock_hour_hand_quarter_turn() {
    let r = hand_turns(&at(3, 0, 0, 0));
    assert_eq!(r.hour.ticks, TICKS_PER_TURN / 4);
    assert!(close(radians(r.hour), -TAU / 4.0));
    assert_eq!(r.minute.ticks, 0);
    assert_eq!(r.second.ticks, 0);
}

#[test]
fn half_past_hour_is_midway() {
    for h in 0..12u32 {
        let r = hand_turn(TimeSteps::Hour, &at(h, 30, 0, 0));
        assert_eq!(r.ticks * 24, (2 * h as u64 + 1) * TICKS_PER_TURN);
        assert!(close(radians(r), -TAU * (h as f64 + 0.5) / 12.0));
    }
}

#[test]
fn angles_follow_formulas() {
    let (h, m, s, ns) = (7u32, 41u32, 13u32, 250_000_000u32);
    let r = hand_turns(&at(h, m, s, ns));
    let (hf, mf, sf, nf) = (h as f64, m as f64, s as f64, ns as f64);
    assert!(close(radians(r.hour), -TAU * (hf + mf / 60.0) / 12.0));
    assert!(close(radians(r.minute), -TAU * (mf + sf / 60.0) / 60.0));
    assert!(close(radians(r.second), -TAU * (sf + nf / 1e9) / 60.0));
    assert_eq!(r.hour.ticks, (60 * 7 + 41) * 60_000_000_000);
    assert_eq!(r.minute.ticks, (60 * 41 + 13) * 12_000_000_000);
    assert_eq!(r.second.ticks, (13 * 1_000_000_000 + 250_000_000) * 720);
}

#[test]
fn second_hand_approaches_full_turn_then_wraps() {
    let last = hand_turn(TimeSteps::Second, &at(0, 0, 59, 999_999_999));
    assert_eq!(last.ticks + 720, TICKS_PER_TURN);
    assert!(close(radians(last), -TAU));
    let next = hand_turn(TimeSteps::Second, &at(0, 1, 0, 0));
    assert_eq!(next.ticks, 0);
}

#[test]
fn hands_increase_within_their_cycles() {
    let a = hand_turns(&at(4, 10, 20, 5));
    let b = hand_turns(&at(4, 10, 20, 6));
    assert!(a.second.ticks < b.second.ticks);
    let c = hand_turns(&at(4, 10, 21, 0));
    assert!(b.second.ticks < c.second.ticks);
    assert!(b.minute.ticks < c.minute.ticks);
    let d = hand_turns(&at(4, 11, 0, 0));
    assert!(c.hour.ticks < d.hour.ticks);
    let e = hand_turns(&at(11, 59, 59, 999_999_999));
    assert!(e.hour.ticks < TICKS_PER_TURN);
    assert_eq!(e.hour.ticks + 60_000_000_000, TICKS_PER_TURN);
    assert_eq!(e.minute.ticks + 12_000_000_000, TICKS_PER_TURN);
}

#[test]
fn update_twice_is_update_once() {
    let t = at(9, 15, 42, 123_456_789);
    let mut face = ClockFace::new();
    face.update(&t);
    let once: Vec<u64> = face.sprites.iter().map(|s| s.rotation.ticks).collect();
    face.update(&t);
    let twice: Vec<u64> = face.sprites.iter().map(|s| s.rotation.ticks).collect();
    assert_eq!(once, twice);
    let r = hand_turns(&t);
    assert_eq!(once, vec![r.hour.ticks, r.minute.ticks, r.second.ticks, 0]);
}

#[test]
fn update_forgets_earlier_rotations() {
    let t = at(2, 5, 8, 0);
    let mut a = ClockFace::new();
    a.update(&at(10, 50, 30, 1));
    a.update(&t);
    let mut b = ClockFace::new();
    b.update(&t);
    let ra: Vec<u64> = a.sprites.iter().map(|s| s.rotation.ticks).collect();
    let rb: Vec<u64> = b.sprites.iter().map(|s| s.rotation.ticks).collect();
    assert_eq!(ra, rb);
}

#[test]
fn face_holds_four_sprites_before_and_after_updates() {
    let mut face = ClockFace::new();
    assert_eq!(face.sprites.len(), SPRITE_COUNT);
    assert_eq!(SPRITE_COUNT, 4);
    for k in 0..5u32 {
        face.update(&at(k, k, k, k));
        assert_eq!(face.sprites.len(), 4);
    }
    let hands: Vec<Option<TimeSteps>> = face.sprites.iter().map(|s| s.hand).collect();
    assert_eq!(
        hands,
        vec![Some(TimeSteps::Hour), Some(TimeSteps::Minute), Some(TimeSteps::Second), None]
    );
}

#[test]
fn layout_of_each_sprite() {
    let face = ClockFace::new();
    let textures: Vec<&str> = face.sprites.iter().map(|s| s.texture).collect();
    assert_eq!(textures, vec!["hand_hour.png", "hand_minute.png", "hand_second.png", "dial.png"]);
    let depths: Vec<i32> = face.sprites.iter().map(|s| s.depth).collect();
    assert_eq!(depths, vec![1, 2, 3, -1]);
    let scales: Vec<u32> = face.sprites.iter().map(|s| s.scale_percent).collect();
    assert_eq!(scales, vec![10, 10, 10, 25]);
    let anchors: Vec<Anchor> = face.sprites.iter().map(|s| s.anchor).collect();
    assert_eq!(
        anchors,
        vec![Anchor::BottomCenter, Anchor::BottomCenter, Anchor::BottomCenter, Anchor::Center]
    );
    assert!(face.sprites.iter().all(|s| s.rotation.ticks == 0));
}

#[test]
fn dial_never_turns() {
    let mut face = ClockFace::new();
    face.update(&at(6, 30, 30, 500_000_000));
    assert_eq!(face.sprites[3].rotation.ticks, 0);
    assert_eq!(sprite_for(None).texture, "dial.png");
    assert_eq!(texture_path(Some(TimeSteps::Second)), "hand_second.png");
}

#[test]
fn new_rejects_out_of_range_units() {
    assert!(ClockTime::new(12, 0, 0, 0).is_none());
    assert!(ClockTime::new(0, 60, 0, 0).is_none());
    assert!(ClockTime::new(0, 0, 60, 0).is_none());
    assert!(ClockTime::new(0, 0, 0, 1_000_000_000).is_none());
    assert_eq!(ClockTime::new(11, 59, 59, 999_999_999).map(|t| t.hour12), Some(11));
}

#[test]
fn twenty_four_hour_reading_folds_to_twelve() {
    let noon = ClockTime::from_hms_nano(12, 0, 0, 0).unwrap();
    assert_eq!(noon, at(0, 0, 0, 0));
    let evening = ClockTime::from_hms_nano(23, 59, 58, 7).unwrap();
    assert_eq!(evening, at(11, 59, 58, 7));
    assert!(ClockTime::from_hms_nano(24, 0, 0, 0).is_none());
    assert!(ClockTime::from_hms_nano(0, 60, 0, 0).is_none());
    assert!(ClockTime::from_hms_nano(0, 0, 60, 0).is_none());
    assert!(ClockTime::from_hms_nano(0, 0, 0, 2_000_000_000).is_none());
}

#[test]
fn leap_second_holds_at_last_instant() {
    let leap = ClockTime::from_hms_nano(23, 59, 59, 1_500_000_000).unwrap();
    assert_eq!(leap, at(11, 59, 59, 999_999_999));
}

#[test]
fn now_is_within_range() {
    let t = ClockTime::now();
    assert!(t.hour12 < 12 && t.minute < 60 && t.second < 60 && t.nanosecond < 1_000_000_000);
    assert!(ClockTime::new(t.hour12, t.minute, t.second, t.nanosecond).is_some());
}
