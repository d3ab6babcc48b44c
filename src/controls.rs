use vstd::prelude::*;

verus! {

/// A key of a keyboard event, as far as walking cares.
#[derive(Clone, Copy, Debug, PartialEq, Eq, Structural)]
pub enum Key {
    W,
    A,
    S,
    D,
    /// Any other key.
    Other,
}

/// A step on the ground plane, in units of one frame's walk distance.
#[derive(Clone, Copy, Debug, PartialEq, Eq, Structural)]
pub struct Step {
    pub x: i64,
    pub y: i64,
}

/// Step along x that one key event gives: `W` forward, `S` back.
pub open spec fn step_x(key: Key) -> int {
    match key {
        Key::W => 1,
        Key::S => -1,
        _ => 0,
    }
}

/// Step along y that one key event gives: `D` one way, `A` the other.
pub open spec fn step_y(key: Key) -> int {
    match key {
        Key::D => 1,
        Key::A => -1,
        _ => 0,
    }
}

/// Sum of the x steps of a run of key events.
pub open spec fn total_x(keys: Seq<Key>) -> int
    decreases keys.len(),
{
    if keys.len() == 0 {
        0
    } else {
        total_x(keys.drop_last()) + step_x(keys.last())
    }
}

/// Sum of the y steps of a run of key events.
pub open spec fn total_y(keys: Seq<Key>) -> int
    decreases keys.len(),
{
    if keys.len() == 0 {
        0
    } else {
        total_y(keys.drop_last()) + step_y(keys.last())
    }
}

/// The step that one key event gives.
pub fn key_step(key: Key) -> (r: Step)
    ensures
        r.x == step_x(key),
        r.y == step_y(key),
{
    match key {
        Key::W => Step { x: 1, y: 0 },
        Key::S => Step { x: -1, y: 0 },
        Key::A => Step { x: 0, y: -1 },
        Key::D => Step { x: 0, y: 1 },
        Key::Other => Step { x: 0, y: 0 },
    }
}

proof fn lemma_totals_bounded(keys: Seq<Key>)
    ensures
        -keys.len() <= total_x(keys) <= keys.len(),
        -keys.len() <= total_y(keys) <= keys.len(),
    decreases keys.len(),
{
    if keys.len() > 0 {
        lemma_totals_bounded(keys.drop_last());
    }
}

/// Sum of the steps of the key events read during one frame; each event,
/// press or release, moves the player once.
pub fn net_step(keys: &Vec<Key>) -> (r: Step)
    requires
        keys@.len() <= i64::MAX,
    ensures
        r.x == total_x(keys@),
        r.y == total_y(keys@),
{
    let mut x: i64 = 0;
    let mut y: i64 = 0;
    let mut i: usize = 0;
    while i < keys.len()
        invariant
            i <= keys@.len() <= i64::MAX,
            x == total_x(keys@.subrange(0, i as int)),
            y == total_y(keys@.subrange(0, i as int)),
        decreases keys@.len() - i,
    {
        let step = key_step(keys[i]);
        proof {
            let next = keys@.subrange(0, i + 1);
            assert(next.drop_last() =~= keys@.subrange(0, i as int));
            lemma_totals_bounded(keys@.subrange(0, i as int));
        }
        x = x + step.x;
        y = y + step.y;
        i = i + 1;
    }
    assert(keys@.subrange(0, i as int) =~= keys@);
    Step { x, y }
}

} // verus!
