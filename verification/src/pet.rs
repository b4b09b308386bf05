use crate::text::string_of;
use vstd::prelude::*;

verus! {

/// Completed focus sessions needed per level.
pub const PER_LEVEL: u32 = 5;

/// The pet's stage name for a level.
pub fn stage(level: u32) -> (r: &'static str)
    ensures
        level <= 2 ==> r@ == "kitten"@,
        3 <= level <= 5 ==> r@ == "cat"@,
        6 <= level <= 9 ==> r@ == "chonker"@,
        level >= 10 ==> r@ == "legend"@,
{
    if level <= 2 {
        "kitten"
    } else if level <= 5 {
        "cat"
    } else if level <= 9 {
        "chonker"
    } else {
        "legend"
    }
}

pub open spec fn level_of(total: nat) -> nat {
    total / 5 + 1
}

pub open spec fn progress_of(total: nat) -> nat {
    total % 5
}

/// The pet's level (one per five completed focus sessions, from level 1) and the
/// sessions done towards the next level.
pub fn pet_level(total: u32) -> (r: (u32, u32))
    ensures
        r.0 == level_of(total as nat),
        r.1 == progress_of(total as nat),
        r.1 < PER_LEVEL,
{
    (total / PER_LEVEL + 1, total % PER_LEVEL)
}

/// Five more sessions make exactly one more level, with the same progress.
pub proof fn lemma_five_sessions_level_up(total: nat)
    ensures
        level_of(total + 5) == level_of(total) + 1,
        progress_of(total + 5) == progress_of(total),
{
}

/// The progress bar: a filled cell per session done towards the next level.
pub fn progress_bar(progress: u32) -> (r: String)
    ensures
        r@.len() == PER_LEVEL,
        forall|i: int| 0 <= i < PER_LEVEL ==> r@[i] == (if i < progress { '▰' } else { '▱' }),
{
    let mut v: Vec<char> = Vec::new();
    let mut i: u32 = 0;
    while i < PER_LEVEL
        invariant
            i <= PER_LEVEL,
            v@.len() == i,
            forall|j: int| 0 <= j < i ==> v@[j] == (if j < progress { '▰' } else { '▱' }),
        decreases PER_LEVEL - i,
    {
        v.push(if i < progress { '▰' } else { '▱' });
        i = i + 1;
    }
    string_of(&v)
}

/// The pet blinks for three of every thirty frames.
pub fn blinking(frame: u64) -> (r: bool)
    ensures
        r == (frame % 30 < 3),
{
    frame % 30 < 3
}

/// Frames per step of the walk: a pet fed today walks a cell every four frames; a
/// hungry one mopes at half that speed.
pub open spec fn step_frames(fed: bool) -> int {
    if fed { 4 } else { 8 }
}

/// The pet's place after `frame` frames on a strip `span` cells wide, walking back
/// and forth one cell per step.
pub open spec fn pace_spec(frame: int, span: int, fed: bool) -> int {
    let period: int = if span == 0 { 2 } else { 2 * span };
    let ph: int = (frame / step_frames(fed)) % period;
    if ph < span { ph } else { period - ph }
}

/// How far the pet has walked across a strip `span` cells wide: back and forth, one
/// cell per step.
pub fn pace_offset(frame: u64, span: u64, fed: bool) -> (r: u64)
    ensures
        r <= 2 * span + 2,
        r as int == pace_spec(frame as int, span as int, fed),
{
    let period: u128 = if span == 0 { 2 } else { 2 * span as u128 };
    let step: u64 = if fed { 4 } else { 8 };
    let ph: u128 = (frame / step) as u128 % period;
    let r: u128 = if ph < span as u128 { ph } else { period - ph };
    r as u64
}

/// A hungry pet walks half as fast: after twice the frames it stands where a fed one
/// stands, on any strip.
pub proof fn lemma_hungry_half_speed(frame: int, span: int)
    requires
        frame >= 0,
        span >= 0,
    ensures
        (2 * frame) / step_frames(false) == frame / step_frames(true),
        pace_spec(2 * frame, span, false) == pace_spec(frame, span, true),
{
    assert((2 * frame) / 8 == frame / 4) by (nonlinear_arith);
}

/// The look of the pet.
#[derive(Clone, Copy, Debug, PartialEq, Eq, Structural)]
pub enum Skin {
    Comet,
    Toast,
}

impl Skin {
    pub open spec fn following(self) -> Skin {
        match self {
            Skin::Comet => Skin::Toast,
            Skin::Toast => Skin::Comet,
        }
    }

    pub fn label(self) -> (r: &'static str)
        ensures
            self == Skin::Comet ==> r@ == "comet"@,
            self == Skin::Toast ==> r@ == "toast"@,
    {
        match self {
            Skin::Comet => "comet",
            Skin::Toast => "toast",
        }
    }

    /// The next skin in the cycle comet, toast.
    pub fn next(self) -> (r: Skin)
        ensures
            r == self.following(),
    {
        match self {
            Skin::Comet => Skin::Toast,
            Skin::Toast => Skin::Comet,
        }
    }
}

/// How the pet answers the last touch: purring after a pat, startled after a boop.
#[derive(Clone, Copy, Debug, PartialEq, Eq, Structural)]
pub enum Reaction {
    Petted,
    Booped,
}

/// Cycling the skin twice gives back the same skin.
pub proof fn lemma_skin_cycle(s: Skin)
    ensures
        s.following().following() == s,
        s.following() != s,
{
}

} // verus!
