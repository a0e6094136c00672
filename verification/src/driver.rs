//! Planning a loft: from the request for a segment count to the pair of
//! profiles that are to be joined, and the errors that end a run.

use vstd::prelude::*;
use vstd::string::*;
use crate::circle::{circle_profile, generate_circle, CircleVertex};
use crate::segments::{
    is_valid_segments, read_segments, segments_answer, text_bytes, valid_segments, SegmentsError,
};
use crate::square::{generate_square, square_profile, SquareVertex};

verus! {

/// The fewest vertices that a profile can have and still enclose an area.
pub const MIN_PROFILE_VERTICES: usize = 3;

/// Why a run ended without its artifact.
#[derive(Clone, Debug, PartialEq, Eq)]
pub enum LoftError {
    /// The segment count given is not a number.
    Argument,
    /// The segment count is below four or not a multiple of four.
    Domain,
    /// The two profiles could not be joined; the text says why.
    Loft(String),
    /// The artifact could not be written; the text says why.
    Io(String),
}

impl LoftError {
    /// The error that stands for a request that was turned down.
    pub open spec fn spec_from_input(e: SegmentsError) -> LoftError {
        match e {
            SegmentsError::NotANumber => LoftError::Argument,
            SegmentsError::OutOfDomain => LoftError::Domain,
        }
    }

    /// Whether the error is a failure of the run. A request that was turned
    /// down is not: the run then ends cleanly, with nothing done.
    pub open spec fn spec_is_fatal(&self) -> bool {
        self is Loft || self is Io
    }

    /// What the user is told.
    pub open spec fn spec_message(&self) -> Seq<char> {
        match self {
            LoftError::Argument => "Expected segments to be a number"@,
            LoftError::Domain => "Segements must be >= 4 and a multiple of 4"@,
            LoftError::Loft(why) => why@,
            LoftError::Io(why) => why@,
        }
    }

    /// The error that stands for a request that was turned down.
    pub fn from_input(e: SegmentsError) -> (r: LoftError)
        ensures
            r == LoftError::spec_from_input(e),
    {
        match e {
            SegmentsError::NotANumber => LoftError::Argument,
            SegmentsError::OutOfDomain => LoftError::Domain,
        }
    }

    /// Whether the error is a failure of the run.
    pub fn is_fatal(&self) -> (fatal: bool)
        ensures
            fatal == self.spec_is_fatal(),
    {
        match self {
            LoftError::Argument => false,
            LoftError::Domain => false,
            LoftError::Loft(_) => true,
            LoftError::Io(_) => true,
        }
    }

    /// What the user is told.
    pub fn message(&self) -> (text: String)
        ensures
            text@ == self.spec_message(),
    {
        match self {
            LoftError::Argument => String::from_str("Expected segments to be a number"),
            LoftError::Domain => String::from_str("Segements must be >= 4 and a multiple of 4"),
            LoftError::Loft(why) => why.clone(),
            LoftError::Io(why) => why.clone(),
        }
    }
}

/// The two profiles of a loft, laid out for one segment count.
#[derive(Clone, Debug, PartialEq, Eq)]
pub struct LoftPlan {
    /// The segment count that both profiles were laid out for.
    pub segments: u64,
    /// The bottom profile.
    pub square: Vec<SquareVertex>,
    /// The top profile.
    pub circle: Vec<CircleVertex>,
}

impl LoftPlan {
    /// A plan holds the square and the circle of its segment count, which
    /// lies in the domain.
    pub open spec fn wf(&self) -> bool {
        &&& valid_segments(self.segments as nat)
        &&& self.square.deep_view() == square_profile(self.segments as nat)
        &&& self.circle.deep_view() == circle_profile(self.segments as nat)
    }
}

/// Whether two profiles with these numbers of vertices can be joined: each
/// vertex needs a partner, and a profile needs three vertices at least.
pub open spec fn joinable(bottom: nat, top: nat) -> bool {
    bottom == top && bottom >= 3
}

/// What is said of two profiles that cannot be joined.
pub open spec fn pair_fault(bottom: nat, top: nat) -> Seq<char> {
    if bottom != top {
        "both profiles must have the same number of vertices"@
    } else {
        "a profile must have at least three vertices"@
    }
}

/// Lays out both profiles for a segment count, if it lies in the domain.
pub fn plan_for(segments: u64) -> (r: Result<LoftPlan, LoftError>)
    ensures
        valid_segments(segments as nat) ==> (r matches Ok(plan) && plan.segments == segments
            && plan.wf()),
        !valid_segments(segments as nat) ==> r == Err::<LoftPlan, LoftError>(LoftError::Domain),
{
    if is_valid_segments(segments) {
        Ok(
            LoftPlan {
                segments,
                square: generate_square(segments),
                circle: generate_circle(segments),
            },
        )
    } else {
        Err(LoftError::Domain)
    }
}

/// Plans the loft that a request asks for.
///
/// The request is turned down, and nothing is laid out, where its text is
/// not a number or its count lies outside the domain. Otherwise the plan
/// holds both profiles for the count.
pub fn plan_loft(arg: Option<&str>) -> (r: Result<LoftPlan, LoftError>)
    ensures
        match segments_answer(text_bytes(arg)) {
            Ok(n) => r matches Ok(plan) && plan.segments == n && plan.wf(),
            Err(e) => r == Err::<LoftPlan, LoftError>(LoftError::spec_from_input(e)),
        },
{
    match read_segments(arg) {
        Ok(n) => plan_for(n),
        Err(e) => Err(LoftError::from_input(e)),
    }
}

/// Checks that two profiles with these numbers of vertices can be joined.
pub fn check_pair(bottom: usize, top: usize) -> (r: Result<(), LoftError>)
    ensures
        joinable(bottom as nat, top as nat) ==> r is Ok,
        !joinable(bottom as nat, top as nat) ==> (r matches Err(e) && e is Loft
            && e.spec_message() == pair_fault(bottom as nat, top as nat)),
{
    if bottom != top {
        Err(LoftError::Loft(String::from_str("both profiles must have the same number of vertices")))
    } else if bottom < MIN_PROFILE_VERTICES {
        Err(LoftError::Loft(String::from_str("a profile must have at least three vertices")))
    } else {
        Ok(())
    }
}

/// The profiles of a plan can always be joined: they have as many vertices
/// as the segment count says, both of them.
pub proof fn lemma_plan_joinable(plan: LoftPlan)
    requires
        plan.wf(),
    ensures
        plan.square.len() == plan.segments,
        plan.circle.len() == plan.segments,
        joinable(plan.square.len() as nat, plan.circle.len() as nat),
{
    assert(plan.square.deep_view().len() == plan.square.len());
    assert(plan.circle.deep_view().len() == plan.circle.len());
}

} // verus!
