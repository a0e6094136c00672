//! The segment count: how many vertices each profile gets, and which
//! counts can be used.

use vstd::prelude::*;
use vstd::string::*;
use crate::decimal::{parse_u64, parse_u64_spec};

verus! {

/// Number of sides of the square profile.
pub const SIDES: u64 = 4;

/// The segment count that is taken when none is given.
///
/// It is not a multiple of four, so a request without a count is turned
/// down like any other count outside the domain.
pub const DEFAULT_SEGMENTS: u64 = 50;

/// Why a request for a segment count was turned down.
#[derive(Clone, Copy, Debug, PartialEq, Eq, Structural)]
pub enum SegmentsError {
    /// The text given is not an unsigned decimal number that fits.
    NotANumber,
    /// The number is below four or not a multiple of four.
    OutOfDomain,
}

/// Whether `n` vertices can be laid out around a square: at least one per
/// side, and the same number on each of the four sides.
pub open spec fn valid_segments(n: nat) -> bool {
    n >= 4 && n % 4 == 0
}

/// The count that a request asks for: the default where no text is given,
/// else the number that the text denotes, if it denotes one.
pub open spec fn requested_segments(arg: Option<Seq<u8>>) -> Option<u64> {
    match arg {
        None => Some(DEFAULT_SEGMENTS),
        Some(bytes) => parse_u64_spec(bytes),
    }
}

/// The answer to a request: the count where the text denotes one that can
/// be used, else the reason why not.
pub open spec fn segments_answer(arg: Option<Seq<u8>>) -> Result<u64, SegmentsError> {
    match requested_segments(arg) {
        None => Err(SegmentsError::NotANumber),
        Some(n) => if valid_segments(n as nat) {
            Ok(n)
        } else {
            Err(SegmentsError::OutOfDomain)
        },
    }
}

/// The bytes of an optional text.
pub open spec fn text_bytes(arg: Option<&str>) -> Option<Seq<u8>> {
    match arg {
        None => None,
        Some(text) => Some(text.spec_bytes()),
    }
}

/// Tests whether `n` is a usable segment count.
pub fn is_valid_segments(n: u64) -> (ok: bool)
    ensures
        ok == valid_segments(n as nat),
{
    n >= SIDES && n % SIDES == 0
}

/// Checks a segment count against the domain.
pub fn check_segments(n: u64) -> (r: Result<u64, SegmentsError>)
    ensures
        valid_segments(n as nat) ==> r == Ok::<u64, SegmentsError>(n),
        !valid_segments(n as nat) ==> r == Err::<u64, SegmentsError>(SegmentsError::OutOfDomain),
{
    if is_valid_segments(n) {
        Ok(n)
    } else {
        Err(SegmentsError::OutOfDomain)
    }
}

/// Reads the segment count of a request.
///
/// Without a text the default count is taken. A text has to be an unsigned
/// decimal number; whatever count results has to lie in the domain.
pub fn read_segments(arg: Option<&str>) -> (r: Result<u64, SegmentsError>)
    ensures
        r == segments_answer(text_bytes(arg)),
{
    let asked: Option<u64> = match arg {
        None => Some(DEFAULT_SEGMENTS),
        Some(text) => parse_u64(text.as_bytes()),
    };
    match asked {
        None => Err(SegmentsError::NotANumber),
        Some(n) => check_segments(n),
    }
}

/// The default count lies outside the domain: a request without a count is
/// answered with `OutOfDomain`.
pub proof fn lemma_default_out_of_domain()
    ensures
        segments_answer(None) == Err::<u64, SegmentsError>(SegmentsError::OutOfDomain),
{
}

/// Every count that is accepted lies in the domain, and a count outside it
/// is never accepted, whatever text asked for it.
pub proof fn lemma_answer_in_domain(arg: Option<Seq<u8>>)
    ensures
        segments_answer(arg) matches Ok(n) ==> valid_segments(n as nat) && requested_segments(arg)
            == Some(n),
        segments_answer(arg) is Err <==> (requested_segments(arg) matches Some(n)
            ==> !valid_segments(n as nat)),
{
}

} // verus!
