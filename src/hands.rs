//! The angle of each hand, as an exact fraction of a full clockwise turn.
//!
//! An angle is held as a whole number of ticks, `TICKS_PER_TURN` to the full
//! turn: one tick is the nanosecond of a 12-hour dial, so every angle the
//! hands can take is a whole number of ticks. In radians, under a standard
//! right-handed rotation about the screen's normal, a turn of `t` ticks is
//! `-τ · t / TICKS_PER_TURN`: the minus sign makes it run clockwise.
use vstd::prelude::*;
use crate::time::ClockTime;

verus! {

/// Ticks in one full turn of a hand.
pub const TICKS_PER_TURN: u64 = 43_200_000_000_000;

/// The unit of time that drives a hand.
#[derive(Clone, Copy, Debug, PartialEq, Eq, Structural)]
pub enum TimeSteps {
    Hour,
    Minute,
    Second,
}

/// A clockwise rotation of `ticks / TICKS_PER_TURN` of a full turn.
#[derive(Clone, Copy, Debug, PartialEq, Eq, Structural)]
pub struct Turn {
    pub ticks: u64,
}

/// A rotation of `ticks` is the fraction `num / den` of a full turn.
pub open spec fn is_fraction(ticks: int, num: int, den: int) -> bool {
    ticks * den == num * TICKS_PER_TURN
}

/// The hour hand's fraction of a turn: `(hour12 + minute / 60) / 12`,
/// written over the denominator 720.
pub open spec fn hour_fraction(t: ClockTime) -> (int, int) {
    (60 * t.hour12 + t.minute, 720)
}

/// The minute hand's fraction of a turn: `(minute + second / 60) / 60`,
/// written over the denominator 3600.
pub open spec fn minute_fraction(t: ClockTime) -> (int, int) {
    (60 * t.minute + t.second, 3600)
}

/// The second hand's fraction of a turn: `(second + nanosecond / 10^9) / 60`,
/// written over the denominator 60 · 10^9.
pub open spec fn second_fraction(t: ClockTime) -> (int, int) {
    (1_000_000_000 * t.second + t.nanosecond, 60_000_000_000)
}

pub open spec fn fraction_of(step: TimeSteps, t: ClockTime) -> (int, int) {
    match step {
        TimeSteps::Hour => hour_fraction(t),
        TimeSteps::Minute => minute_fraction(t),
        TimeSteps::Second => second_fraction(t),
    }
}

/// The rotation, in ticks, of the hand that `step` drives at time `t`.
pub open spec fn hand_ticks(step: TimeSteps, t: ClockTime) -> int {
    fraction_of(step, t).0 * (TICKS_PER_TURN as int / fraction_of(step, t).1)
}

/// The rotation of the hand that `step` drives at time `t`.
pub fn hand_turn(step: TimeSteps, t: &ClockTime) -> (r: Turn)
    requires
        t.wf(),
    ensures
        is_fraction(r.ticks as int, fraction_of(step, *t).0, fraction_of(step, *t).1),
        r.ticks == hand_ticks(step, *t),
        r.ticks < TICKS_PER_TURN,
{
    match step {
        TimeSteps::Hour => Turn { ticks: (60 * t.hour12 as u64 + t.minute as u64) * 60_000_000_000 },
        TimeSteps::Minute => Turn {
            ticks: (60 * t.minute as u64 + t.second as u64) * 12_000_000_000,
        },
        TimeSteps::Second => Turn {
            ticks: (1_000_000_000 * t.second as u64 + t.nanosecond as u64) * 720,
        },
    }
}

/// The rotations of the three hands at one instant.
#[derive(Clone, Copy, Debug, PartialEq, Eq, Structural)]
pub struct HandTurns {
    pub hour: Turn,
    pub minute: Turn,
    pub second: Turn,
}

/// The rotations of all three hands at time `t`, each computed from the
/// same reading.
pub fn hand_turns(t: &ClockTime) -> (r: HandTurns)
    requires
        t.wf(),
    ensures
        r.hour.ticks == hand_ticks(TimeSteps::Hour, *t),
        r.minute.ticks == hand_ticks(TimeSteps::Minute, *t),
        r.second.ticks == hand_ticks(TimeSteps::Second, *t),
{
    HandTurns {
        hour: hand_turn(TimeSteps::Hour, t),
        minute: hand_turn(TimeSteps::Minute, t),
        second: hand_turn(TimeSteps::Second, t),
    }
}

/// The two units that place a hand within its cycle, larger first: hour and
/// minute for the hour hand, minute and second for the minute hand, second
/// and nanosecond for the second hand.
pub open spec fn units_of(step: TimeSteps, t: ClockTime) -> (int, int) {
    match step {
        TimeSteps::Hour => (t.hour12 as int, t.minute as int),
        TimeSteps::Minute => (t.minute as int, t.second as int),
        TimeSteps::Second => (t.second as int, t.nanosecond as int),
    }
}

/// `t1` comes before `t2` within the cycle of the hand that `step` drives.
pub open spec fn earlier_in_cycle(step: TimeSteps, t1: ClockTime, t2: ClockTime) -> bool {
    let (a1, b1) = units_of(step, t1);
    let (a2, b2) = units_of(step, t2);
    a1 < a2 || (a1 == a2 && b1 < b2)
}

/// The rotation, in ticks, that one step of the smaller unit adds to a hand.
pub open spec fn tick_step(step: TimeSteps) -> int {
    match step {
        TimeSteps::Hour => 60_000_000_000,
        TimeSteps::Minute => 12_000_000_000,
        TimeSteps::Second => 720,
    }
}

/// How many steps of the smaller unit make one of the larger.
pub open spec fn minor_range(step: TimeSteps) -> int {
    match step {
        TimeSteps::Hour => 60,
        TimeSteps::Minute => 60,
        TimeSteps::Second => 1_000_000_000,
    }
}

/// The last instant of a hand's cycle: both of its units at their maximum.
pub open spec fn at_cycle_end(step: TimeSteps, t: ClockTime) -> bool {
    match step {
        TimeSteps::Hour => t.hour12 == 11 && t.minute == 59,
        TimeSteps::Minute => t.minute == 59 && t.second == 59,
        TimeSteps::Second => t.second == 59 && t.nanosecond == 999_999_999,
    }
}

/// At half past any hour the hour hand stands at `(hour12 + 1/2) / 12` of a
/// turn, midway between that hour and the next.
pub proof fn lemma_half_past_the_hour(t: ClockTime)
    requires
        t.wf(),
        t.minute == 30,
    ensures
        is_fraction(hand_ticks(TimeSteps::Hour, t), 2 * t.hour12 + 1, 24),
        2 * hand_ticks(TimeSteps::Hour, t) == (60 * t.hour12) * tick_step(TimeSteps::Hour) + (60
            * (t.hour12 + 1)) * tick_step(TimeSteps::Hour),
{
    lemma_turn_steps_and_wraps(TimeSteps::Hour, t);
}

/// Each hand turns clockwise as its units advance: a later instant within a
/// hand's cycle gives it a strictly larger rotation.
pub proof fn lemma_turn_increases(step: TimeSteps, t1: ClockTime, t2: ClockTime)
    requires
        t1.wf(),
        t2.wf(),
        earlier_in_cycle(step, t1, t2),
    ensures
        hand_ticks(step, t1) < hand_ticks(step, t2),
{
    lemma_turn_steps_and_wraps(step, t1);
    lemma_turn_steps_and_wraps(step, t2);
    let (a1, b1) = units_of(step, t1);
    let (a2, b2) = units_of(step, t2);
    let r = minor_range(step);
    let k = tick_step(step);
    assert(0 <= b1 < r && 0 <= b2 < r && k > 0);
    assert(a1 * r + b1 < a2 * r + b2) by (nonlinear_arith)
        requires
            a1 < a2 || (a1 == a2 && b1 < b2),
            0 <= b1 < r,
            0 <= b2 < r,
    ;
    assert((a1 * r + b1) * k < (a2 * r + b2) * k) by (nonlinear_arith)
        requires
            a1 * r + b1 < a2 * r + b2,
            k > 0,
    ;
}

/// A hand advances by the same step for each step of its smaller unit, starts
/// its cycle at no rotation, and stays short of a full turn until the cycle
/// ends: one step after its last instant it would reach a full turn, which is
/// no rotation again.
pub proof fn lemma_turn_steps_and_wraps(step: TimeSteps, t: ClockTime)
    requires
        t.wf(),
    ensures
        hand_ticks(step, t) == (units_of(step, t).0 * minor_range(step) + units_of(step, t).1)
            * tick_step(step),
        0 <= hand_ticks(step, t) < TICKS_PER_TURN,
        hand_ticks(step, t) == 0 <==> units_of(step, t) == (0int, 0int),
        at_cycle_end(step, t) ==> hand_ticks(step, t) + tick_step(step) == TICKS_PER_TURN,
{
}

} // verus!
