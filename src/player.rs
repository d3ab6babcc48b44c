use vstd::prelude::*;

verus! {

/// Whether the player has touched the ground.
#[derive(Clone, Copy, Debug, PartialEq, Eq, Structural)]
pub struct IsOnGround(pub bool);

impl core::ops::Deref for IsOnGround {
    type Target = bool;

    fn deref(&self) -> (r: &bool)
        ensures
            *r == self.0,
    {
        &self.0
    }
}

impl IsOnGround {
    pub fn set_inner(&mut self, inner: bool)
        ensures
            final(self).0 == inner,
    {
        self.0 = inner;
    }
}

/// Whether the player has used its one dash since it last landed.
#[derive(Clone, Copy, Debug, PartialEq, Eq, Structural)]
pub struct HaveDashed(pub bool);

impl core::ops::Deref for HaveDashed {
    type Target = bool;

    fn deref(&self) -> (r: &bool)
        ensures
            *r == self.0,
    {
        &self.0
    }
}

impl HaveDashed {
    pub fn set_inner(&mut self, inner: bool)
        ensures
            final(self).0 == inner,
    {
        self.0 = inner;
    }
}

/// Flags a freshly spawned player starts with: in the air, dash available.
pub fn spawn_flags() -> (r: (IsOnGround, HaveDashed))
    ensures
        !r.0.0,
        !r.1.0,
{
    (IsOnGround(false), HaveDashed(false))
}

/// What holding the forward key does during one frame.
#[derive(Clone, Copy, Debug, PartialEq, Eq, Structural)]
pub enum ForwardMove {
    /// Nothing happens.
    Stay,
    /// The player slides forward at its move speed.
    Walk,
    /// The player gets one forward impulse in mid-air.
    Dash,
}

/// The move the forward key gives, from the key and the player's flags.
pub open spec fn forward_move_of(pressed: bool, on_ground: bool, dashed: bool) -> ForwardMove {
    if !pressed {
        ForwardMove::Stay
    } else if on_ground {
        ForwardMove::Walk
    } else if !dashed {
        ForwardMove::Dash
    } else {
        ForwardMove::Stay
    }
}

/// A used dash stays used: with the dash flag set, the forward key never
/// dashes, on the ground or in the air, until a landing clears the flag.
pub proof fn lemma_dash_used_up(pressed: bool, on_ground: bool)
    ensures
        forward_move_of(pressed, on_ground, true) != ForwardMove::Dash,
{
}

/// Decides the forward move of one frame; a dash uses up the dash.
pub fn move_forward(pressed: bool, is_on_ground: &IsOnGround, have_dashed: &mut HaveDashed) -> (r:
    ForwardMove)
    ensures
        r == forward_move_of(pressed, is_on_ground.0, old(have_dashed).0),
        final(have_dashed).0 == (old(have_dashed).0 || r == ForwardMove::Dash),
{
    if !pressed {
        ForwardMove::Stay
    } else if is_on_ground.0 {
        ForwardMove::Walk
    } else if !have_dashed.0 {
        have_dashed.set_inner(true);
        ForwardMove::Dash
    } else {
        ForwardMove::Stay
    }
}

/// Updates the flags from the entities the player collides with this frame.
/// The ground flag follows contact with `ground`; a player in the air that
/// touches it lands, and its dash is available again. Returns whether it
/// landed.
pub fn handle_is_ground(
    ground: u64,
    colliding: &Vec<u64>,
    is_on_ground: &mut IsOnGround,
    have_dashed: &mut HaveDashed,
) -> (landed: bool)
    ensures
        landed == (!old(is_on_ground).0 && colliding@.contains(ground)),
        final(is_on_ground).0 == colliding@.contains(ground),
        final(have_dashed).0 == (old(have_dashed).0 && !landed),
{
    let mut touching = false;
    let mut i: usize = 0;
    while i < colliding.len() && !touching
        invariant
            i <= colliding@.len(),
            touching ==> colliding@.contains(ground),
            !touching ==> forall|j: int| 0 <= j < i ==> colliding@[j] != ground,
        decreases colliding@.len() - i,
    {
        if colliding[i] == ground {
            touching = true;
        }
        i = i + 1;
    }
    let landed = !is_on_ground.0 && touching;
    is_on_ground.set_inner(touching);
    if landed {
        have_dashed.set_inner(false);
    }
    landed
}

/// Whether the player jumps this frame: only from the ground.
pub fn handle_jump(pressed: bool, is_on_ground: &IsOnGround) -> (r: bool)
    ensures
        r == (pressed && is_on_ground.0),
{
    pressed && is_on_ground.0
}

/// Quarter turns per second that the turning keys ask for: a quarter turn
/// one way, a quarter turn the other way, or a half turn to look back.
pub fn turn_quarters(left: bool, right: bool, back: bool) -> (r: i8)
    ensures
        r == (if left { -1int } else { 0int }) + (if right { 1int } else { 0int }) + (if back {
            2int
        } else {
            0int
        }),
{
    let mut quarters: i8 = 0;
    if left {
        quarters = quarters - 1;
    }
    if right {
        quarters = quarters + 1;
    }
    if back {
        quarters = quarters + 2;
    }
    quarters
}

} // verus!
