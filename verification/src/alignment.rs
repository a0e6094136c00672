//! How the two profiles correspond, place by place.
//!
//! A loft joins the vertex at each place of one profile to the vertex at
//! the same place of the other. The laws here say why the square and the
//! circle laid out for one segment count can be joined that way without
//! twist: they have the same number of places, they start at the same
//! angle, and the vertex at a place of the circle is as far along its
//! quarter arc as the vertex at that place of the square is along its side.

use vstd::prelude::*;
use crate::circle::{circle_profile, START_EIGHTHS};
use crate::segments::valid_segments;
use crate::square::{
    lemma_corner_iff_first_step, lemma_scaled_position, lemma_square_corners,
    lemma_square_point_place, square_profile, Side,
};

verus! {

impl Side {
    /// The angle of the side's start corner as seen from the centre, in
    /// eighths of a turn: -3, -1, 1 and 3 for the four sides in turn.
    pub open spec fn spec_corner_eighths(self) -> int {
        2 * self.spec_index() - 3
    }

    /// Whether the point `(x, y)` lies in the quarter of the plane that the
    /// side faces: between the diagonal through its start corner, which
    /// belongs to the quarter, and the diagonal through its end corner,
    /// which does not.
    pub open spec fn faces(self, x: int, y: int) -> bool {
        match self {
            Side::Bottom => y < 0 && y <= x < -y,
            Side::Right => x > 0 && -x <= y < x,
            Side::Top => y > 0 && -y < x <= y,
            Side::Left => x < 0 && x < y <= -x,
        }
    }

    /// Whether the angle `num / den` turns lies in the quarter turn that the
    /// side faces: from the angle of its start corner, which belongs to it,
    /// up to the angle of its end corner, which does not.
    pub open spec fn faces_angle(self, num: int, den: int) -> bool {
        self.spec_corner_eighths() * den <= 8 * num < (self.spec_corner_eighths() + 2) * den
    }

    /// The angle of the side's start corner, in eighths of a turn.
    pub fn corner_eighths(self) -> (e: i8)
        ensures
            e == self.spec_corner_eighths(),
    {
        match self {
            Side::Bottom => -3,
            Side::Right => -1,
            Side::Top => 1,
            Side::Left => 3,
        }
    }
}

/// The point of the unit diagonals at an odd number of eighths of a turn.
pub open spec fn diagonal(eighths: int) -> (int, int) {
    if eighths % 8 == 1 {
        (1, 1)
    } else if eighths % 8 == 3 {
        (-1, 1)
    } else if eighths % 8 == 5 {
        (-1, -1)
    } else {
        (1, -1)
    }
}

/// The start corner of a side lies on the diagonal at the side's corner
/// angle, and the walk along the sides advances that angle by a quarter
/// turn each time.
pub proof fn lemma_corner_angles(side: Side)
    ensures
        side.spec_start_corner() == diagonal(side.spec_corner_eighths()),
        side.spec_end_corner() == diagonal(side.spec_corner_eighths() + 2),
        side == Side::Bottom ==> side.spec_corner_eighths() == START_EIGHTHS,
        side != Side::Left ==> side.spec_next().spec_corner_eighths() == side.spec_corner_eighths()
            + 2,
{
}

/// The two profiles have the same number of vertices exactly when the
/// segment count is a multiple of four, and then each has as many as the
/// count.
pub proof fn lemma_counts_agree(n: nat)
    ensures
        square_profile(n).len() == circle_profile(n).len() <==> n % 4 == 0,
        valid_segments(n) ==> square_profile(n).len() == n && circle_profile(n).len() == n,
{
}

/// Both profiles start at the same angle: the square at its bottom-left
/// corner, the circle at the direction of that corner.
pub proof fn lemma_start_aligned(n: nat)
    requires
        valid_segments(n),
    ensures
        square_profile(n)[0].side == Side::Bottom,
        square_profile(n)[0].step == 0,
        8 * circle_profile(n)[0].turn_num() == Side::Bottom.spec_corner_eighths() * circle_profile(
            n,
        )[0].turn_den(),
{
    lemma_square_corners(n, 0);
    let e = Side::Bottom.spec_corner_eighths();
    let den = circle_profile(n)[0].turn_den();
    assert(e * den == -3 * den) by (nonlinear_arith)
        requires
            e == -3,
    ;
}

/// At every place the circle is as far along the quarter arc of a side as
/// the square is along that side: with the square at `step / steps` of its
/// side, the angle of the circle is the angle of the side's start corner
/// plus `step / steps` of a quarter turn.
pub proof fn lemma_same_progress(n: nat, j: int)
    requires
        valid_segments(n),
        0 <= j < n,
    ensures
        circle_profile(n)[j].turn_den() == 32 * square_profile(n)[j].steps,
        circle_profile(n)[j].turn_num() == 4 * square_profile(n)[j].side.spec_corner_eighths()
            * square_profile(n)[j].steps + 8 * square_profile(n)[j].step,
{
    lemma_square_point_place(n, j);
    let p = square_profile(n)[j];
    let per = (n / 4) as int;
    let k = p.side.spec_index();
    assert(n == 4 * per);
    assert(4 * ((2 * k - 3) * per) == 8 * (k * per) - 12 * per) by (nonlinear_arith);
    assert(4 * (2 * k - 3) * per == 4 * ((2 * k - 3) * per)) by (nonlinear_arith);
}

/// At every place the two vertices lie in the same quarter of the plane,
/// the one that the square's side faces, so that the twist between them
/// stays under a quarter turn; and where the square stands on a corner the
/// circle stands at the very angle of that corner.
pub proof fn lemma_same_quarter(n: nat, j: int)
    requires
        valid_segments(n),
        0 <= j < n,
    ensures
        square_profile(n)[j].side.faces(
            square_profile(n)[j].scaled_x(),
            square_profile(n)[j].scaled_y(),
        ),
        square_profile(n)[j].side.faces_angle(
            circle_profile(n)[j].turn_num(),
            circle_profile(n)[j].turn_den(),
        ),
        square_profile(n)[j].at_corner() <==> 8 * circle_profile(n)[j].turn_num()
            == square_profile(n)[j].side.spec_corner_eighths() * circle_profile(n)[j].turn_den(),
{
    lemma_square_point_place(n, j);
    lemma_same_progress(n, j);
    let p = square_profile(n)[j];
    let c = circle_profile(n)[j];
    lemma_scaled_position(p);
    lemma_corner_iff_first_step(p);
    let e = p.side.spec_corner_eighths();
    let s = p.steps as int;
    let num = c.turn_num();
    let den = c.turn_den();
    assert(e * den == 32 * (e * s)) by (nonlinear_arith)
        requires
            den == 32 * s,
    ;
    assert((e + 2) * den == 32 * (e * s) + 64 * s) by (nonlinear_arith)
        requires
            den == 32 * s,
    ;
    assert(4 * e * s == 4 * (e * s)) by (nonlinear_arith);
}

} // verus!
