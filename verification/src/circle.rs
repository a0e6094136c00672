//! The circular profile: vertices evenly spaced around a circle, walked
//! counter-clockwise from the angle of the square's bottom-left corner.
//!
//! Angles are exact. They are measured in turns (one turn is the full
//! circle), counter-clockwise from the positive x axis, and are given as a
//! fraction `turn_num / turn_den`.

use vstd::prelude::*;

verus! {

/// The angle of the first vertex, in eighths of a turn: three eighths
/// clockwise from the positive x axis, the direction of the corner
/// `(-1, -1)` of the square.
pub const START_EIGHTHS: i64 = -3;

/// The mathematical model of a vertex of the circular profile: the point of
/// the circle at `step / steps` of a turn past the start angle. Its outward
/// normal points along the same angle.
pub struct CirclePoint {
    pub step: nat,
    pub steps: nat,
}

impl CirclePoint {
    /// A point of a walk that goes round once: fewer steps taken than a
    /// full turn holds.
    pub open spec fn wf(self) -> bool {
        self.step < self.steps
    }

    /// The numerator of the angle in turns, over `turn_den`: the start angle
    /// of `-3 / 8` plus `step / steps`.
    pub open spec fn turn_num(self) -> int {
        8 * self.step - 3 * self.steps
    }

    /// The denominator of the angle in turns.
    pub open spec fn turn_den(self) -> int {
        8 * (self.steps as int)
    }

    /// The numerator of the angle in degrees, over `steps`.
    pub open spec fn degrees_num(self) -> int {
        360 * self.step - 135 * self.steps
    }
}

/// A vertex of the circular profile.
///
/// Its angle is the start angle plus `step / steps` of a turn. The position
/// is the point of the circle at that angle and the normal is the unit
/// vector at that angle.
#[derive(Clone, Copy, Debug, PartialEq, Eq, Structural)]
pub struct CircleVertex {
    pub step: u64,
    pub steps: u64,
}

impl View for CircleVertex {
    type V = CirclePoint;

    open spec fn view(&self) -> CirclePoint {
        CirclePoint { step: self.step as nat, steps: self.steps as nat }
    }
}

impl DeepView for CircleVertex {
    type V = CirclePoint;

    open spec fn deep_view(&self) -> CirclePoint {
        self@
    }
}

impl CircleVertex {
    /// The numerator of the angle in turns, over `turn_den`.
    pub fn turn_num(&self) -> (a: i128)
        ensures
            a == self@.turn_num(),
    {
        8 * (self.step as i128) - 3 * (self.steps as i128)
    }

    /// The denominator of the angle in turns.
    pub fn turn_den(&self) -> (d: i128)
        ensures
            d == self@.turn_den(),
    {
        8 * (self.steps as i128)
    }

    /// The numerator of the angle in degrees, over `steps`.
    pub fn degrees_num(&self) -> (a: i128)
        ensures
            a == self@.degrees_num(),
    {
        360 * (self.step as i128) - 135 * (self.steps as i128)
    }
}

/// The circular profile for a segment count `n`: the steps `0, 1, ...,
/// n - 1` of a turn divided in `n`.
pub open spec fn circle_profile(n: nat) -> Seq<CirclePoint> {
    Seq::new(n, |i: int| CirclePoint { step: i as nat, steps: n })
}

/// Lays out the circular profile for `segments` vertices: one vertex per
/// step of a turn divided in `segments`, counter-clockwise from the start
/// angle.
pub fn generate_circle(segments: u64) -> (pts: Vec<CircleVertex>)
    ensures
        pts.deep_view() == circle_profile(segments as nat),
        pts.len() == segments,
        forall|j: int| 0 <= j < pts.len() ==> (#[trigger] pts[j])@.wf(),
{
    let mut pts: Vec<CircleVertex> = Vec::new();
    let mut i: u64 = 0;
    assert(pts.deep_view() =~= circle_profile(segments as nat).take(0));
    while i < segments
        invariant
            i <= segments,
            pts.deep_view() == circle_profile(segments as nat).take(i as int),
        decreases segments - i,
    {
        let ghost prev = pts.deep_view();
        pts.push(CircleVertex { step: i, steps: segments });
        assert(pts.deep_view() =~= prev.push(
            CirclePoint { step: i as nat, steps: segments as nat },
        ));
        assert(pts.deep_view() =~= circle_profile(segments as nat).take(i + 1));
        i += 1;
    }
    assert(circle_profile(segments as nat).take(segments as int) =~= circle_profile(
        segments as nat,
    ));
    assert(pts.deep_view().len() == pts.len());
    assert forall|j: int| 0 <= j < pts.len() implies (#[trigger] pts[j])@.wf() by {
        assert(pts.deep_view()[j] == pts[j]@);
    }
    pts
}

/// The profile has exactly `n` points, each a step of a turn divided in
/// `n`.
pub proof fn lemma_circle_len(n: nat)
    ensures
        circle_profile(n).len() == n,
        forall|i: int|
            0 <= i < n ==> (#[trigger] circle_profile(n)[i]).wf() && circle_profile(n)[i].step == i
                && circle_profile(n)[i].steps == n,
{
}

/// The first point stands at the start angle, three eighths of a turn
/// clockwise from the positive x axis: 135 degrees below it.
pub proof fn lemma_circle_start(n: nat)
    requires
        n >= 1,
    ensures
        8 * circle_profile(n)[0].turn_num() == START_EIGHTHS * circle_profile(n)[0].turn_den(),
        circle_profile(n)[0].degrees_num() == -135 * n,
{
}

/// From each point to the next the angle grows by one `n`-th of a turn, and
/// one such step after the last point comes the first again, a full turn
/// later.
pub proof fn lemma_circle_even_steps(n: nat, i: int)
    requires
        0 <= i < n,
    ensures
        circle_profile(n)[i].turn_den() == 8 * n,
        i + 1 < n ==> circle_profile(n)[i + 1].turn_num() - circle_profile(n)[i].turn_num() == 8,
        i + 1 == n ==> circle_profile(n)[i].turn_num() + 8 == circle_profile(n)[0].turn_num()
            + circle_profile(n)[0].turn_den(),
{
}

/// All the angles lie within one turn from the start angle, so that no two
/// points of the profile share a direction.
pub proof fn lemma_circle_within_turn(n: nat, i: int, j: int)
    requires
        0 <= i < n,
        0 <= j < n,
    ensures
        START_EIGHTHS * circle_profile(n)[i].turn_den() <= 8 * circle_profile(n)[i].turn_num(),
        8 * circle_profile(n)[i].turn_num() < (START_EIGHTHS + 8) * circle_profile(n)[i].turn_den(),
        i != j ==> circle_profile(n)[i].turn_num() != circle_profile(n)[j].turn_num(),
{
}

/// The angle in degrees is the angle in turns times 360.
pub proof fn lemma_degrees(p: CirclePoint)
    ensures
        8 * p.degrees_num() == 360 * p.turn_num(),
{
}

/// Laying out the circle twice for the same count gives the same vertices.
pub proof fn lemma_generate_circle_deterministic(
    segments: u64,
    first: Vec<CircleVertex>,
    second: Vec<CircleVertex>,
)
    requires
        call_ensures(generate_circle, (segments,), first),
        call_ensures(generate_circle, (segments,), second),
    ensures
        first@ == second@,
{
    assert(first.deep_view() == second.deep_view());
    assert(first@.len() == first.deep_view().len());
    assert(second@.len() == second.deep_view().len());
    assert forall|i: int| 0 <= i < first@.len() implies first@[i] == second@[i] by {
        assert(first.deep_view()[i] == first@[i]@);
        assert(second.deep_view()[i] == second@[i]@);
    }
    assert(first@ =~= second@);
}

} // verus!
