//! The clock face: a dial behind three hand sprites, laid out once, of which
//! only the hands' rotations change afterwards.
use vstd::prelude::*;
use crate::hands::{hand_ticks, hand_turn, TimeSteps, Turn};
use crate::time::ClockTime;

verus! {

/// Number of sprites on the face: the dial and three hands.
pub const SPRITE_COUNT: usize = 4;

/// The point of a sprite that its position names and that it rotates about.
#[derive(Clone, Copy, Debug, PartialEq, Eq, Structural)]
pub enum Anchor {
    Center,
    /// The middle of the sprite's base, so that a hand pivots at its foot.
    BottomCenter,
}

/// One sprite of the face. `hand` names the unit that drives it; the dial has
/// none and never turns.
#[derive(Clone, Copy, Debug)]
pub struct Sprite {
    pub texture: &'static str,
    /// Uniform scale on both axes, in hundredths.
    pub scale_percent: u32,
    /// Stacking coordinate: a larger depth is drawn over a smaller one.
    pub depth: i32,
    pub anchor: Anchor,
    pub hand: Option<TimeSteps>,
    pub rotation: Turn,
}

pub open spec fn texture_of(hand: Option<TimeSteps>) -> Seq<char> {
    match hand {
        Some(TimeSteps::Hour) => "hand_hour.png"@,
        Some(TimeSteps::Minute) => "hand_minute.png"@,
        Some(TimeSteps::Second) => "hand_second.png"@,
        None => "dial.png"@,
    }
}

pub open spec fn scale_of(hand: Option<TimeSteps>) -> int {
    match hand {
        Some(_) => 10,
        None => 25,
    }
}

/// The dial lies behind every hand; the hour hand lies under the minute
/// hand, and that under the second hand.
pub open spec fn depth_of(hand: Option<TimeSteps>) -> int {
    match hand {
        Some(TimeSteps::Hour) => 1,
        Some(TimeSteps::Minute) => 2,
        Some(TimeSteps::Second) => 3,
        None => -1,
    }
}

pub open spec fn anchor_of(hand: Option<TimeSteps>) -> Anchor {
    match hand {
        Some(_) => Anchor::BottomCenter,
        None => Anchor::Center,
    }
}

/// The role of each slot of the face, in the order the sprites are made.
pub open spec fn slot_role(i: int) -> Option<TimeSteps> {
    if i == 0 {
        Some(TimeSteps::Hour)
    } else if i == 1 {
        Some(TimeSteps::Minute)
    } else if i == 2 {
        Some(TimeSteps::Second)
    } else {
        None
    }
}

/// `s` is the sprite for `hand`, with its fixed texture, scale, depth and
/// anchor; a dial is never rotated.
pub open spec fn laid_out_as(s: Sprite, hand: Option<TimeSteps>) -> bool {
    &&& s.hand == hand
    &&& s.texture@ == texture_of(hand)
    &&& s.scale_percent == scale_of(hand)
    &&& s.depth == depth_of(hand)
    &&& s.anchor == anchor_of(hand)
    &&& hand is None ==> s.rotation.ticks == 0
}

/// The sprite `s` after an update at time `t`: a hand takes the rotation of
/// its unit at `t`, a dial stays as it is.
pub open spec fn sprite_after(s: Sprite, t: ClockTime) -> Sprite {
    match s.hand {
        Some(step) => Sprite { rotation: Turn { ticks: hand_ticks(step, t) as u64 }, ..s },
        None => s,
    }
}

/// The sprites after an update at time `t`.
pub open spec fn face_after(sprites: Seq<Sprite>, t: ClockTime) -> Seq<Sprite> {
    sprites.map_values(|s: Sprite| sprite_after(s, t))
}

/// The texture path for the sprite of `hand`, or of the dial.
pub fn texture_path(hand: Option<TimeSteps>) -> (r: &'static str)
    ensures
        r@ == texture_of(hand),
{
    match hand {
        Some(TimeSteps::Hour) => "hand_hour.png",
        Some(TimeSteps::Minute) => "hand_minute.png",
        Some(TimeSteps::Second) => "hand_second.png",
        None => "dial.png",
    }
}

/// The unrotated sprite for `hand`, or for the dial.
pub fn sprite_for(hand: Option<TimeSteps>) -> (r: Sprite)
    ensures
        laid_out_as(r, hand),
        r.rotation.ticks == 0,
{
    let (scale_percent, depth, anchor) = match hand {
        Some(TimeSteps::Hour) => (10u32, 1i32, Anchor::BottomCenter),
        Some(TimeSteps::Minute) => (10u32, 2i32, Anchor::BottomCenter),
        Some(TimeSteps::Second) => (10u32, 3i32, Anchor::BottomCenter),
        None => (25u32, -1i32, Anchor::Center),
    };
    Sprite {
        texture: texture_path(hand),
        scale_percent,
        depth,
        anchor,
        hand,
        rotation: Turn { ticks: 0 },
    }
}

/// The sprites of a clock face: the hour, minute and second hands, then the
/// dial.
pub struct ClockFace {
    pub sprites: Vec<Sprite>,
}

impl ClockFace {
    /// Exactly four sprites, each in its slot with its fixed layout.
    pub open spec fn wf(&self) -> bool {
        &&& self.sprites@.len() == SPRITE_COUNT
        &&& forall|i: int| 0 <= i < SPRITE_COUNT ==> laid_out_as(#[trigger] self.sprites@[i], slot_role(i))
    }

    /// A face with every sprite laid out and no hand turned yet.
    pub fn new() -> (r: ClockFace)
        ensures
            r.wf(),
            forall|i: int| 0 <= i < SPRITE_COUNT ==> (#[trigger] r.sprites@[i]).rotation.ticks == 0,
    {
        let mut sprites: Vec<Sprite> = Vec::new();
        sprites.push(sprite_for(Some(TimeSteps::Hour)));
        sprites.push(sprite_for(Some(TimeSteps::Minute)));
        sprites.push(sprite_for(Some(TimeSteps::Second)));
        sprites.push(sprite_for(None));
        ClockFace { sprites }
    }

    /// Sets each hand to its rotation at time `t`, read once for all three.
    /// Nothing else on the face changes, and nothing of the rotations before
    /// the call remains.
    pub fn update(&mut self, t: &ClockTime)
        requires
            old(self).wf(),
            t.wf(),
        ensures
            final(self).wf(),
            final(self).sprites@ == face_after(old(self).sprites@, *t),
    {
        let n = self.sprites.len();
        let mut i: usize = 0;
        while i < n
            invariant
                n == old(self).sprites@.len(),
                self.sprites@.len() == n,
                t.wf(),
                i <= n,
                forall|j: int|
                    0 <= j < i ==> #[trigger] self.sprites@[j] == sprite_after(
                        old(self).sprites@[j],
                        *t,
                    ),
                forall|j: int| i <= j < n ==> #[trigger] self.sprites@[j] == old(self).sprites@[j],
            decreases n - i,
        {
            let s = self.sprites[i];
            match s.hand {
                Some(step) => {
                    let turned = Sprite { rotation: hand_turn(step, t), ..s };
                    self.sprites.set(i, turned);
                },
                None => {},
            }
            i = i + 1;
        }
        assert(self.sprites@ =~= face_after(old(self).sprites@, *t));
    }
}

/// `a` and `b` differ at most in their rotation.
pub open spec fn same_but_rotation(a: Sprite, b: Sprite) -> bool {
    Sprite { rotation: b.rotation, ..a } == b
}

/// Updating twice at the same time gives what updating once gives.
pub proof fn lemma_update_idempotent(sprites: Seq<Sprite>, t: ClockTime)
    ensures
        face_after(face_after(sprites, t), t) == face_after(sprites, t),
{
    assert(face_after(face_after(sprites, t), t) =~= face_after(sprites, t));
}

/// An update keeps no state of its own: two faces that differ only in their
/// rotations are equal after an update at the same time.
pub proof fn lemma_update_forgets_rotations(a: Seq<Sprite>, b: Seq<Sprite>, t: ClockTime)
    requires
        a.len() == b.len(),
        forall|i: int| 0 <= i < a.len() ==> same_but_rotation(#[trigger] a[i], b[i]),
        forall|i: int| 0 <= i < a.len() ==> (#[trigger] a[i]).hand is None ==> a[i].rotation
            == b[i].rotation,
    ensures
        face_after(a, t) == face_after(b, t),
{
    assert(face_after(a, t) =~= face_after(b, t));
}

/// A well-formed face holds exactly four sprites: one for each hand and one
/// for the dial.
pub proof fn lemma_one_sprite_per_role(face: ClockFace, role: Option<TimeSteps>)
    requires
        face.wf(),
    ensures
        face.sprites@.len() == 4,
        exists|i: int|
            0 <= i < 4 && (#[trigger] face.sprites@[i]).hand == role && forall|j: int|
                0 <= j < 4 && (#[trigger] face.sprites@[j]).hand == role ==> j == i,
{
    let i: int = match role {
        Some(TimeSteps::Hour) => 0,
        Some(TimeSteps::Minute) => 1,
        Some(TimeSteps::Second) => 2,
        None => 3,
    };
    assert(laid_out_as(face.sprites@[0], slot_role(0)));
    assert(laid_out_as(face.sprites@[1], slot_role(1)));
    assert(laid_out_as(face.sprites@[2], slot_role(2)));
    assert(laid_out_as(face.sprites@[3], slot_role(3)));
    assert(face.sprites@[i].hand == role);
}

/// On a well-formed face the dial lies behind every hand, and the hour hand
/// under the minute hand under the second hand.
pub proof fn lemma_stacking_order(face: ClockFace)
    requires
        face.wf(),
    ensures
        forall|i: int|
            0 <= i < 4 && (#[trigger] face.sprites@[i]).hand is Some ==> face.sprites@[3].depth
                < face.sprites@[i].depth,
        face.sprites@[0].depth < face.sprites@[1].depth < face.sprites@[2].depth,
{
    assert(laid_out_as(face.sprites@[0], slot_role(0)));
    assert(laid_out_as(face.sprites@[1], slot_role(1)));
    assert(laid_out_as(face.sprites@[2], slot_role(2)));
    assert(laid_out_as(face.sprites@[3], slot_role(3)));
}

} // verus!
