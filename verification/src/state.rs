//! The discrete action state of the controlled character and its horizontal
//! facing.

use vstd::prelude::*;

verus! {

/// The locomotion mode of the controlled character. Exactly one value is
/// authoritative per character at any instant; it is mutated only by the
/// state-machine transition step and read by the animation selector.
///
/// `Setup` is the initial value before the first tick has run; the first tick
/// replaces it with a real mode (`Fall` when airborne, a grounded mode
/// otherwise).
#[derive(Clone, Copy, Debug, PartialEq, Eq, Structural)]
pub enum ActionState {
    Setup,
    Idle,
    Walk,
    Run,
    Jump,
    Fall,
}

/// Horizontal facing of the character. There is no neutral value: facing
/// persists across ticks in which the horizontal translation is zero.
#[derive(Clone, Copy, Debug, PartialEq, Eq, Structural)]
pub enum Facing {
    Left,
    Right,
}

/// The facing after one tick whose horizontal desired translation is `dx`
/// (thousandths of a pixel): the sign of the last nonzero horizontal
/// translation wins, and a zero translation leaves the facing unchanged.
pub open spec fn facing_after_step(f: Facing, dx: int) -> Facing {
    if dx > 0 {
        Facing::Right
    } else if dx < 0 {
        Facing::Left
    } else {
        f
    }
}

/// The facing after a sequence of ticks with horizontal desired translations
/// `dxs`, applied in order, starting from facing `f`.
pub open spec fn facing_after_steps(f: Facing, dxs: Seq<int>) -> Facing
    decreases dxs.len(),
{
    if dxs.len() == 0 {
        f
    } else {
        facing_after_steps(facing_after_step(f, dxs[0]), dxs.drop_first())
    }
}

impl Facing {
    /// Update the facing from this tick's horizontal desired translation.
    pub fn update(&mut self, dx: i64)
        ensures
            *final(self) == facing_after_step(*old(self), dx as int),
    {
        if dx > 0 {
            *self = Facing::Right;
        } else if dx < 0 {
            *self = Facing::Left;
        }
    }

    /// Whether the sprite is mirrored horizontally when drawn with this
    /// facing: art faces right, so only `Left` flips.
    pub fn flips_horizontally(self) -> (r: bool)
        ensures
            r == (self is Left),
    {
        match self {
            Facing::Left => true,
            Facing::Right => false,
        }
    }
}

/// Facing is sticky: over any run of consecutive ticks whose horizontal
/// translation is exactly zero, the facing never changes — it does not decay
/// to a neutral value.
pub proof fn lemma_facing_sticky(f: Facing, dxs: Seq<int>)
    requires
        forall|i: int| 0 <= i < dxs.len() ==> dxs[i] == 0,
    ensures
        facing_after_steps(f, dxs) == f,
    decreases dxs.len(),
{
    if dxs.len() > 0 {
        assert(dxs[0] == 0);
        lemma_facing_sticky(f, dxs.drop_first());
    }
}

} // verus!
