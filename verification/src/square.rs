//! The square profile: vertices walked counter-clockwise around a square,
//! the same number on each side, starting at the bottom-left corner.
//!
//! Coordinates are exact. They are given in units of the half extent of the
//! square, so the corners lie at `(-1, -1)`, `(1, -1)`, `(1, 1)` and
//! `(-1, 1)`, and each coordinate of a vertex is a fraction whose
//! denominator is the number of vertices on a side.

use vstd::prelude::*;
use vstd::arithmetic::div_mod::lemma_fundamental_div_mod_converse;

verus! {

/// A side of the square, named as seen from above with the x axis to the
/// right and the y axis upwards. The profile walks them in this order.
#[derive(Clone, Copy, Debug, PartialEq, Eq, Structural)]
pub enum Side {
    Bottom,
    Right,
    Top,
    Left,
}

impl Side {
    /// The place of the side in the walk: 0 for the bottom, then 1, 2, 3.
    pub open spec fn spec_index(self) -> int {
        match self {
            Side::Bottom => 0,
            Side::Right => 1,
            Side::Top => 2,
            Side::Left => 3,
        }
    }

    /// The side at place `k` of the walk, which goes round after the fourth.
    pub open spec fn spec_from_index(k: int) -> Side {
        if k % 4 == 0 {
            Side::Bottom
        } else if k % 4 == 1 {
            Side::Right
        } else if k % 4 == 2 {
            Side::Top
        } else {
            Side::Left
        }
    }

    /// The side that the walk takes after this one.
    pub open spec fn spec_next(self) -> Side {
        match self {
            Side::Bottom => Side::Right,
            Side::Right => Side::Top,
            Side::Top => Side::Left,
            Side::Left => Side::Bottom,
        }
    }

    /// The corner at which the walk enters the side.
    pub open spec fn spec_start_corner(self) -> (int, int) {
        match self {
            Side::Bottom => (-1, -1),
            Side::Right => (1, -1),
            Side::Top => (1, 1),
            Side::Left => (-1, 1),
        }
    }

    /// The corner towards which the walk moves along the side: the start
    /// corner of the next side.
    pub open spec fn spec_end_corner(self) -> (int, int) {
        self.spec_next().spec_start_corner()
    }

    /// The unit vector along which the walk moves on the side.
    pub open spec fn spec_direction(self) -> (int, int) {
        match self {
            Side::Bottom => (1, 0),
            Side::Right => (0, 1),
            Side::Top => (-1, 0),
            Side::Left => (0, -1),
        }
    }

    /// The unit normal of the side that points away from the centre.
    pub open spec fn spec_normal(self) -> (int, int, int) {
        match self {
            Side::Bottom => (0, -1, 0),
            Side::Right => (1, 0, 0),
            Side::Top => (0, 1, 0),
            Side::Left => (-1, 0, 0),
        }
    }

    /// The place of the side in the walk.
    pub fn index(self) -> (k: u8)
        ensures
            k == self.spec_index(),
    {
        match self {
            Side::Bottom => 0,
            Side::Right => 1,
            Side::Top => 2,
            Side::Left => 3,
        }
    }

    /// The side that the walk takes after this one.
    pub fn next(self) -> (s: Side)
        ensures
            s == self.spec_next(),
    {
        match self {
            Side::Bottom => Side::Right,
            Side::Right => Side::Top,
            Side::Top => Side::Left,
            Side::Left => Side::Bottom,
        }
    }

    /// The corner at which the walk enters the side.
    pub fn start_corner(self) -> (c: (i8, i8))
        ensures
            c.0 == self.spec_start_corner().0,
            c.1 == self.spec_start_corner().1,
    {
        match self {
            Side::Bottom => (-1, -1),
            Side::Right => (1, -1),
            Side::Top => (1, 1),
            Side::Left => (-1, 1),
        }
    }

    /// The corner towards which the walk moves along the side.
    pub fn end_corner(self) -> (c: (i8, i8))
        ensures
            c.0 == self.spec_end_corner().0,
            c.1 == self.spec_end_corner().1,
    {
        self.next().start_corner()
    }

    /// The unit vector along which the walk moves on the side.
    pub fn direction(self) -> (d: (i8, i8))
        ensures
            d.0 == self.spec_direction().0,
            d.1 == self.spec_direction().1,
    {
        match self {
            Side::Bottom => (1, 0),
            Side::Right => (0, 1),
            Side::Top => (-1, 0),
            Side::Left => (0, -1),
        }
    }

    /// The unit normal of the side that points away from the centre.
    pub fn normal(self) -> (n: (i8, i8, i8))
        ensures
            n.0 == self.spec_normal().0,
            n.1 == self.spec_normal().1,
            n.2 == self.spec_normal().2,
    {
        match self {
            Side::Bottom => (0, -1, 0),
            Side::Right => (1, 0, 0),
            Side::Top => (0, 1, 0),
            Side::Left => (-1, 0, 0),
        }
    }
}

/// The mathematical model of a vertex of the square profile: the point that
/// lies `step / steps` of the way along `side`, from its start corner
/// towards its end corner.
pub struct SquarePoint {
    pub side: Side,
    pub step: nat,
    pub steps: nat,
}

impl SquarePoint {
    /// A point of a side: strictly before the side's end corner.
    pub open spec fn wf(self) -> bool {
        self.step < self.steps
    }

    /// The x coordinate, multiplied by `steps`: the interpolation
    /// `(1 - t) * start + t * end` with `t = step / steps`.
    pub open spec fn scaled_x(self) -> int {
        (self.steps - self.step) * self.side.spec_start_corner().0 + self.step
            * self.side.spec_end_corner().0
    }

    /// The y coordinate, multiplied by `steps`.
    pub open spec fn scaled_y(self) -> int {
        (self.steps - self.step) * self.side.spec_start_corner().1 + self.step
            * self.side.spec_end_corner().1
    }

    /// The outward unit normal: that of the side, whatever the step.
    pub open spec fn normal(self) -> (int, int, int) {
        self.side.spec_normal()
    }

    /// Whether the point lies exactly on a corner of the square: both
    /// coordinates are at an end of their range.
    pub open spec fn at_corner(self) -> bool {
        &&& self.scaled_x() == self.steps || self.scaled_x() == -(self.steps as int)
        &&& self.scaled_y() == self.steps || self.scaled_y() == -(self.steps as int)
    }
}

/// A vertex of the square profile.
///
/// It lies `step / steps` of the way along `side`, from the side's start
/// corner towards its end corner, and carries the side's outward normal.
#[derive(Clone, Copy, Debug, PartialEq, Eq, Structural)]
pub struct SquareVertex {
    pub side: Side,
    pub step: u64,
    pub steps: u64,
}

impl View for SquareVertex {
    type V = SquarePoint;

    open spec fn view(&self) -> SquarePoint {
        SquarePoint { side: self.side, step: self.step as nat, steps: self.steps as nat }
    }
}

impl DeepView for SquareVertex {
    type V = SquarePoint;

    open spec fn deep_view(&self) -> SquarePoint {
        self@
    }
}

impl SquareVertex {
    /// The x coordinate in units of the half extent, multiplied by `steps`.
    pub fn scaled_x(&self) -> (x: i128)
        ensures
            x == self@.scaled_x(),
    {
        proof {
            lemma_scaled_position(self@);
        }
        let along: i128 = 2 * (self.step as i128) - (self.steps as i128);
        match self.side {
            Side::Bottom => along,
            Side::Right => self.steps as i128,
            Side::Top => -along,
            Side::Left => -(self.steps as i128),
        }
    }

    /// The y coordinate in units of the half extent, multiplied by `steps`.
    pub fn scaled_y(&self) -> (y: i128)
        ensures
            y == self@.scaled_y(),
    {
        proof {
            lemma_scaled_position(self@);
        }
        let along: i128 = 2 * (self.step as i128) - (self.steps as i128);
        match self.side {
            Side::Bottom => -(self.steps as i128),
            Side::Right => along,
            Side::Top => self.steps as i128,
            Side::Left => -along,
        }
    }

    /// The outward unit normal of the vertex.
    pub fn normal(&self) -> (n: (i8, i8, i8))
        ensures
            n.0 == self@.normal().0,
            n.1 == self@.normal().1,
            n.2 == self@.normal().2,
    {
        self.side.normal()
    }

    /// Whether the vertex lies exactly on a corner of the square.
    pub fn is_corner(&self) -> (b: bool)
        ensures
            b == self@.at_corner(),
    {
        let x: i128 = self.scaled_x();
        let y: i128 = self.scaled_y();
        let s: i128 = self.steps as i128;
        (x == s || x == -s) && (y == s || y == -s)
    }
}

/// The points that one side contributes: `steps` of them, at the steps
/// `0, 1, ..., steps - 1`.
pub open spec fn side_points(side: Side, steps: nat) -> Seq<SquarePoint> {
    Seq::new(steps, |i: int| SquarePoint { side, step: i as nat, steps })
}

/// The point at place `j` of the profile for a segment count `n`: the sides
/// take `n / 4` places each, in the order of the walk.
pub open spec fn square_point(n: nat, j: int) -> SquarePoint {
    SquarePoint {
        side: Side::spec_from_index(j / (n / 4) as int),
        step: (j % (n / 4) as int) as nat,
        steps: n / 4,
    }
}

/// The square profile for a segment count `n`: four sides of `n / 4` points
/// each.
pub open spec fn square_profile(n: nat) -> Seq<SquarePoint> {
    Seq::new(4 * (n / 4), |j: int| square_point(n, j))
}

/// The profile is the four sides one after the other.
pub proof fn lemma_profile_is_four_sides(n: nat)
    ensures
        square_profile(n) == side_points(Side::Bottom, n / 4) + side_points(Side::Right, n / 4)
            + side_points(Side::Top, n / 4) + side_points(Side::Left, n / 4),
{
    let per = n / 4;
    let sides = side_points(Side::Bottom, per) + side_points(Side::Right, per) + side_points(
        Side::Top,
        per,
    ) + side_points(Side::Left, per);
    assert(sides.len() == 4 * per);
    assert forall|j: int| 0 <= j < 4 * per implies square_profile(n)[j] == sides[j] by {
        let k: int = if j < per {
            0
        } else if j < 2 * per {
            1
        } else if j < 3 * per {
            2
        } else {
            3
        };
        lemma_fundamental_div_mod_converse(j, per as int, k, j - k * per);
    }
    assert(square_profile(n) =~= sides);
}

/// Appends the vertices of one side to `pts`.
fn push_side(pts: &mut Vec<SquareVertex>, side: Side, steps: u64)
    ensures
        final(pts).deep_view() == old(pts).deep_view() + side_points(side, steps as nat),
{
    let ghost before = pts.deep_view();
    let mut i: u64 = 0;
    assert(pts.deep_view() =~= before + side_points(side, steps as nat).take(0));
    while i < steps
        invariant
            i <= steps,
            pts.deep_view() == before + side_points(side, steps as nat).take(i as int),
        decreases steps - i,
    {
        let ghost prev = pts.deep_view();
        pts.push(SquareVertex { side, step: i, steps });
        assert(pts.deep_view() =~= prev.push(SquarePoint { side, step: i as nat, steps: steps as nat }));
        assert(pts.deep_view() =~= before + side_points(side, steps as nat).take(i + 1));
        i += 1;
    }
    assert(side_points(side, steps as nat).take(steps as int) =~= side_points(side, steps as nat));
}

/// Lays out the square profile for `segments` vertices.
///
/// The four sides get `segments / 4` vertices each, so a count that is a
/// multiple of four gives exactly `segments` vertices. They are walked
/// counter-clockwise from the bottom-left corner, each side from its start
/// corner up to, but not including, its end corner.
pub fn generate_square(segments: u64) -> (pts: Vec<SquareVertex>)
    ensures
        pts.deep_view() == square_profile(segments as nat),
        pts.len() == 4 * (segments / 4),
        segments % 4 == 0 ==> pts.len() == segments,
        forall|j: int| 0 <= j < pts.len() ==> (#[trigger] pts[j])@.wf(),
{
    let per: u64 = segments / 4;
    let mut pts: Vec<SquareVertex> = Vec::new();
    assert(pts.deep_view() =~= Seq::<SquarePoint>::empty());
    push_side(&mut pts, Side::Bottom, per);
    push_side(&mut pts, Side::Right, per);
    push_side(&mut pts, Side::Top, per);
    push_side(&mut pts, Side::Left, per);
    proof {
        lemma_profile_is_four_sides(segments as nat);
        assert(pts.deep_view() =~= square_profile(segments as nat));
        assert(pts.deep_view().len() == pts.len());
        assert forall|j: int| 0 <= j < pts.len() implies (#[trigger] pts[j])@.wf() by {
            lemma_square_point_place(segments as nat, j);
            assert(pts.deep_view()[j] == pts[j]@);
        }
    }
    pts
}

/// The coordinates of a point, side by side: the coordinate across the side
/// is that of the side, and the one along it runs from `-steps` in steps of
/// two.
pub proof fn lemma_scaled_position(p: SquarePoint)
    ensures
        p.side == Side::Bottom ==> p.scaled_x() == 2 * p.step - p.steps && p.scaled_y()
            == -(p.steps as int),
        p.side == Side::Right ==> p.scaled_x() == p.steps && p.scaled_y() == 2 * p.step - p.steps,
        p.side == Side::Top ==> p.scaled_x() == p.steps - 2 * p.step && p.scaled_y() == p.steps,
        p.side == Side::Left ==> p.scaled_x() == -(p.steps as int) && p.scaled_y() == p.steps - 2
            * p.step,
{
    let rest: int = p.steps - p.step;
    let done: int = p.step as int;
    assert(forall|c: int| c == 1 ==> #[trigger] (rest * c) == rest) by (nonlinear_arith);
    assert(forall|c: int| c == -1 ==> #[trigger] (rest * c) == -rest) by (nonlinear_arith);
    assert(forall|c: int| c == 1 ==> #[trigger] (done * c) == done) by (nonlinear_arith);
    assert(forall|c: int| c == -1 ==> #[trigger] (done * c) == -done) by (nonlinear_arith);
}

/// A point of a side lies on a corner exactly when it is the first of its
/// side.
pub proof fn lemma_corner_iff_first_step(p: SquarePoint)
    requires
        p.wf(),
    ensures
        p.at_corner() <==> p.step == 0,
{
    lemma_scaled_position(p);
}

/// The position of a point of the profile, multiplied by the number of
/// points on a side.
pub open spec fn scaled_position(p: SquarePoint) -> (int, int) {
    (p.scaled_x(), p.scaled_y())
}

/// The place after `j` in a closed walk of `len` places.
pub open spec fn next_place(j: int, len: nat) -> int {
    if j + 1 == len {
        0
    } else {
        j + 1
    }
}

/// The profile has as many points as four sides hold, which for a count
/// that is a multiple of four is the count itself.
pub proof fn lemma_square_len(n: nat)
    ensures
        square_profile(n).len() == 4 * (n / 4),
        n % 4 == 0 ==> square_profile(n).len() == n,
{
}

/// The place of a point decides its side and its step: the sides take
/// `n / 4` places each, in the order bottom, right, top, left, and within a
/// side the steps count up from zero.
pub proof fn lemma_square_point_place(n: nat, j: int)
    requires
        0 <= j < 4 * (n / 4),
    ensures
        square_profile(n)[j].wf(),
        square_profile(n)[j].steps == n / 4,
        0 <= square_profile(n)[j].side.spec_index() < 4,
        j == square_profile(n)[j].side.spec_index() * (n / 4) + square_profile(n)[j].step,
{
    let per = (n / 4) as int;
    let k: int = if j < per {
        0
    } else if j < 2 * per {
        1
    } else if j < 3 * per {
        2
    } else {
        3
    };
    lemma_fundamental_div_mod_converse(j, per, k, j - k * per);
}

/// The first point of each side lies exactly on that side's start corner:
/// the corners `(-1, -1)`, `(1, -1)`, `(1, 1)` and `(-1, 1)`, in this order.
pub proof fn lemma_square_corners(n: nat, k: int)
    requires
        n >= 4,
        0 <= k < 4,
    ensures
        k * (n / 4) < square_profile(n).len(),
        square_profile(n)[k * (n / 4)].side == Side::spec_from_index(k),
        square_profile(n)[k * (n / 4)].step == 0,
        square_profile(n)[k * (n / 4)].scaled_x() == (n / 4) * Side::spec_from_index(
            k,
        ).spec_start_corner().0,
        square_profile(n)[k * (n / 4)].scaled_y() == (n / 4) * Side::spec_from_index(
            k,
        ).spec_start_corner().1,
{
    let per = (n / 4) as int;
    let j = k * per;
    assert(j == if k == 0 {
        0
    } else if k == 1 {
        per
    } else if k == 2 {
        2 * per
    } else {
        3 * per
    }) by (nonlinear_arith)
        requires
            0 <= k < 4,
            j == k * per,
    ;
    lemma_fundamental_div_mod_converse(j, per, k, 0);
    let p = square_profile(n)[j];
    lemma_scaled_position(p);
    let side = Side::spec_from_index(k);
    assert(per * side.spec_start_corner().0 == if side.spec_start_corner().0 == 1 {
        per
    } else {
        -per
    }) by (nonlinear_arith)
        requires
            side.spec_start_corner().0 == 1 || side.spec_start_corner().0 == -1,
    ;
    assert(per * side.spec_start_corner().1 == if side.spec_start_corner().1 == 1 {
        per
    } else {
        -per
    }) by (nonlinear_arith)
        requires
            side.spec_start_corner().1 == 1 || side.spec_start_corner().1 == -1,
    ;
}

/// Every point lies on the boundary of the square, on its own side and
/// strictly before the side's end corner: the coordinate across the side is
/// that of the side, and the one along it has not reached the end.
pub proof fn lemma_on_boundary(p: SquarePoint)
    requires
        p.wf(),
    ensures
        -(p.steps as int) <= p.scaled_x() <= p.steps,
        -(p.steps as int) <= p.scaled_y() <= p.steps,
        p.scaled_x() * p.side.spec_normal().0 + p.scaled_y() * p.side.spec_normal().1 == p.steps,
        p.scaled_x() != p.steps * p.side.spec_end_corner().0 || p.scaled_y() != p.steps
            * p.side.spec_end_corner().1,
{
    lemma_scaled_position(p);
    lemma_signed_products(p.scaled_x());
    lemma_signed_products(p.scaled_y());
    lemma_signed_products(p.steps as int);
}

/// Multiplying by a sign or by zero.
proof fn lemma_signed_products(a: int)
    ensures
        forall|c: int| c == 1 ==> #[trigger] (a * c) == a,
        forall|c: int| c == -1 ==> #[trigger] (a * c) == -a,
        forall|c: int| c == 0 ==> #[trigger] (a * c) == 0,
{
    assert(forall|c: int| c == 1 ==> #[trigger] (a * c) == a) by (nonlinear_arith);
    assert(forall|c: int| c == -1 ==> #[trigger] (a * c) == -a) by (nonlinear_arith);
    assert(forall|c: int| c == 0 ==> #[trigger] (a * c) == 0) by (nonlinear_arith);
}

/// The normal of a point is a unit vector along an axis, at a right angle to
/// the direction of its side, and it points away from the centre.
pub proof fn lemma_normal_outward(p: SquarePoint)
    requires
        p.wf(),
    ensures
        p.normal().2 == 0,
        p.normal().0 * p.normal().0 + p.normal().1 * p.normal().1 == 1,
        p.normal().0 == 0 || p.normal().1 == 0,
        p.normal().0 * p.side.spec_direction().0 + p.normal().1 * p.side.spec_direction().1 == 0,
        p.scaled_x() * p.normal().0 + p.scaled_y() * p.normal().1 > 0,
{
    lemma_on_boundary(p);
    lemma_signed_products(p.normal().0);
    lemma_signed_products(p.normal().1);
}

/// No two places of the profile hold the same point of the plane: no corner
/// occurs twice.
pub proof fn lemma_square_distinct(n: nat, i: int, j: int)
    requires
        0 <= i < 4 * (n / 4),
        0 <= j < 4 * (n / 4),
        i != j,
    ensures
        scaled_position(square_profile(n)[i]) != scaled_position(square_profile(n)[j]),
{
    let p = square_profile(n)[i];
    let q = square_profile(n)[j];
    lemma_square_point_place(n, i);
    lemma_square_point_place(n, j);
    lemma_scaled_position(p);
    lemma_scaled_position(q);
    if p.side == q.side {
        assert(p.step != q.step);
    }
}

/// From each place to the next the walk moves by the same amount, two over
/// the number of points on a side, along the side it is on. This holds
/// round the corners and from the last place back to the first, so the
/// polygon is closed and evenly spaced.
pub proof fn lemma_square_even_steps(n: nat, j: int)
    requires
        0 <= j < 4 * (n / 4),
    ensures
        square_profile(n)[next_place(j, 4 * (n / 4))].scaled_x() - square_profile(n)[j].scaled_x()
            == 2 * square_profile(n)[j].side.spec_direction().0,
        square_profile(n)[next_place(j, 4 * (n / 4))].scaled_y() - square_profile(n)[j].scaled_y()
            == 2 * square_profile(n)[j].side.spec_direction().1,
{
    let len = 4 * (n / 4);
    let next = next_place(j, len);
    let p = square_profile(n)[j];
    let q = square_profile(n)[next];
    lemma_square_point_place(n, j);
    lemma_square_point_place(n, next);
    lemma_scaled_position(p);
    lemma_scaled_position(q);
    let per = (n / 4) as int;
    let k = p.side.spec_index();
    if p.step + 1 < per {
        lemma_fundamental_div_mod_converse(next, per, k, (p.step + 1) as int);
    } else if k < 3 {
        lemma_fundamental_div_mod_converse(next, per, k + 1, 0);
    } else {
        assert(next == 0);
        lemma_fundamental_div_mod_converse(next, per, 0, 0);
    }
}

/// The walk is counter-clockwise: seen from the centre, each step turns to
/// the left.
pub proof fn lemma_square_counter_clockwise(n: nat, j: int)
    requires
        0 <= j < 4 * (n / 4),
    ensures
        square_profile(n)[j].scaled_x() * square_profile(n)[next_place(j, 4 * (n / 4))].scaled_y()
            - square_profile(n)[j].scaled_y() * square_profile(n)[next_place(
            j,
            4 * (n / 4),
        )].scaled_x() == 2 * (n / 4),
        2 * (n / 4) > 0,
{
    let len = 4 * (n / 4);
    let p = square_profile(n)[j];
    let q = square_profile(n)[next_place(j, len)];
    lemma_square_point_place(n, j);
    lemma_square_even_steps(n, j);
    lemma_scaled_position(p);
    let x = p.scaled_x();
    let y = p.scaled_y();
    let dx = p.side.spec_direction().0;
    let dy = p.side.spec_direction().1;
    assert(x * (y + 2 * dy) - y * (x + 2 * dx) == 2 * (x * dy - y * dx)) by (nonlinear_arith);
    lemma_signed_products(x);
    lemma_signed_products(y);
}

/// Laying out the square twice for the same count gives the same vertices.
pub proof fn lemma_generate_square_deterministic(
    segments: u64,
    first: Vec<SquareVertex>,
    second: Vec<SquareVertex>,
)
    requires
        call_ensures(generate_square, (segments,), first),
        call_ensures(generate_square, (segments,), second),
    ensures
        first@ == second@,
{
    assert(first.deep_view() == second.deep_view());
    assert(first@.len() == first.deep_view().len());
    assert(second@.len() == second.deep_view().len());
    assert forall|i: int| 0 <= i < first@.len() implies first@[i] == second@[i] by {
        assert(first.deep_view()[i] == first@[i]@);
        assert(second.deep_view()[i] == second@[i]@);
    }
    assert(first@ =~= second@);
}

} // verus!
