//! Where a cockroach enters the screen and which way it crawls.
//!
//! A cockroach enters from one of the four screen edges and crawls inward,
//! straight or turned by an eighth of a circle to either side; its heading
//! is therefore always a multiple of 45 degrees, and the overlay draws it
//! with the pre-rendered sprite of the nearest eighth turn.

use vstd::prelude::*;

use rand::rngs::StdRng;
use rand::Rng;

verus! {

#[verifier::external_type_specification]
#[verifier::external_body]
pub struct ExStdRng(StdRng);

#[derive(Debug, Clone, Copy, PartialEq, Eq, Hash, Structural)]
pub enum SpawnEdge {
    Top,
    Right,
    Bottom,
    Left,
}

/// The heading chosen for a cockroach: the edge it enters from and the
/// direction it crawls in, in degrees clockwise from the positive x axis
/// (screen y grows downward).
#[derive(Debug, Clone, Copy, PartialEq, Eq, Structural)]
pub struct Heading {
    pub edge: SpawnEdge,
    pub angle_deg: u32,
}

/// The edge that a side number picks: 0 top, 1 right, 2 bottom, any other left.
pub open spec fn edge_of(side: i32) -> SpawnEdge {
    if side == 0 {
        SpawnEdge::Top
    } else if side == 1 {
        SpawnEdge::Right
    } else if side == 2 {
        SpawnEdge::Bottom
    } else {
        SpawnEdge::Left
    }
}

/// The heading straight into the screen from `edge`.
pub open spec fn base_heading(edge: SpawnEdge) -> int {
    match edge {
        SpawnEdge::Top => 90,
        SpawnEdge::Right => 180,
        SpawnEdge::Bottom => 270,
        SpawnEdge::Left => 0,
    }
}

/// The heading from `edge` turned by `turn` eighths, in `[0, 360)`.
pub open spec fn turned_heading(edge: SpawnEdge, turn: int) -> int {
    (base_heading(edge) + 45 * turn) % 360
}

/// Whether `angle` (degrees, in `[0, 360)`) points from `edge` into the
/// screen: its component across the edge points inward.
pub open spec fn points_inward(edge: SpawnEdge, angle: int) -> bool {
    match edge {
        SpawnEdge::Top => 0 < angle < 180,
        SpawnEdge::Right => 90 < angle < 270,
        SpawnEdge::Bottom => 180 < angle < 360,
        SpawnEdge::Left => 0 <= angle < 90 || 270 < angle < 360,
    }
}

/// The index of the pre-rendered sprite nearest to `angle`: the eighth
/// turn that `angle` rounds to, halves rounding up.
pub open spec fn orientation_of(angle: int) -> int {
    ((angle % 360) * 2 + 45) / 90 % 8
}

/// The heading for side number `side` and turn `turn` (in eighths).
pub fn heading_for(side: i32, turn: i32) -> (h: Heading)
    requires
        -1 <= turn <= 1,
    ensures
        h.edge == edge_of(side),
        h.angle_deg == turned_heading(edge_of(side), turn as int),
{
    let (edge, base): (SpawnEdge, i32) = if side == 0 {
        (SpawnEdge::Top, 90)
    } else if side == 1 {
        (SpawnEdge::Right, 180)
    } else if side == 2 {
        (SpawnEdge::Bottom, 270)
    } else {
        (SpawnEdge::Left, 0)
    };
    let sum: i32 = base + turn * 45;
    let angle: i32 = if sum < 0 {
        sum + 360
    } else if sum >= 360 {
        sum - 360
    } else {
        sum
    };
    Heading { edge, angle_deg: angle as u32 }
}

/// `rand`'s `Rng::gen_range(0..4)` on an `i32`: one of the four side
/// numbers. The crate documents that the result lies in the range (and
/// panics only on an empty one); which number comes depends on the
/// generator's state and is left unsaid.
#[verifier::external_body]
fn random_side(rng: &mut StdRng) -> (side: i32)
    ensures
        0 <= side < 4,
{
    rng.gen_range(0..4)
}

/// `rand`'s `Rng::gen_range(-1..=1)` on an `i32`: a turn of minus one,
/// zero or one eighth. The crate documents that the result lies in the
/// range; which value comes is left unsaid.
#[verifier::external_body]
fn random_turn(rng: &mut StdRng) -> (turn: i32)
    ensures
        -1 <= turn <= 1,
{
    rng.gen_range(-1..=1)
}

/// Picks a random edge and a random turn of at most one eighth from the
/// straight-in heading, drawing the side first and the turn second.
pub fn random_heading(rng: &mut StdRng) -> (h: Heading)
    ensures
        exists|side: i32, turn: i32|
            0 <= side < 4 && -1 <= turn <= 1 && h.edge == edge_of(side) && h.angle_deg
                == turned_heading(edge_of(side), turn as int),
{
    let side = random_side(rng);
    let turn = random_turn(rng);
    heading_for(side, turn)
}

/// The index of the pre-rendered sprite to draw for a cockroach crawling
/// at `angle_deg` degrees.
pub fn orientation_index(angle_deg: u32) -> (i: usize)
    ensures
        i == orientation_of(angle_deg as int),
        i < 8,
{
    (((angle_deg % 360) * 2 + 45) / 90 % 8) as usize
}

/// Every heading that `heading_for` gives is a whole number of eighth
/// turns below a full circle, points from its edge into the screen, and
/// is drawn with the sprite rotated by exactly that many eighths.
pub proof fn headings_are_eighth_turns(side: i32, turn: int)
    requires
        -1 <= turn <= 1,
    ensures
        0 <= turned_heading(edge_of(side), turn) < 360,
        turned_heading(edge_of(side), turn) % 45 == 0,
        points_inward(edge_of(side), turned_heading(edge_of(side), turn)),
        orientation_of(turned_heading(edge_of(side), turn)) * 45 == turned_heading(
            edge_of(side),
            turn,
        ),
{
}

/// The sprite for a heading that is a whole number of eighth turns is the
/// one rotated by that many eighths.
pub proof fn orientation_of_eighth_turn(k: int)
    requires
        0 <= k < 8,
    ensures
        orientation_of(45 * k) == k,
{
}

} // verus!
