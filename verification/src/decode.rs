//! The two decode stages as the worker sees them, the fallback decoder, and the
//! test that tells a recognized payload from any other text.

use crate::grid::BinaryGrid;
use vstd::prelude::*;
use vstd::string::StrSliceExecFns;

verus! {

/// The decode stage that ran, or produced a payload.
#[derive(Clone, Copy, Debug, PartialEq, Eq, Structural)]
pub enum Stage {
    /// The first attempt on an extracted grid.
    Primary,
    /// The second attempt, on the same grid read as a binary grid.
    Fallback,
}

/// Why a candidate region gave no payload at some step.
#[derive(Clone, Copy, Debug, PartialEq, Eq, Structural)]
pub enum Failure {
    /// No module grid could be extracted from the region.
    Extraction,
    /// The grid was extracted but did not verify as a symbol.
    Verification,
    /// The grid was decoded, but the text is no recognized payload.
    Unrecognized,
}

/// The record of one step that gave no payload.
#[derive(Clone, Copy, Debug, PartialEq, Eq)]
pub struct Diagnostic {
    /// The sequence id of the frame.
    pub frame: i32,
    /// The region, counted in detection order.
    pub region: usize,
    /// The decode stage that gave nothing, or `None` where extraction did.
    pub stage: Option<Stage>,
    /// What went wrong.
    pub failure: Failure,
}

/// The prefix that makes a decoded text a recognized payload.
pub open spec fn recognized_prefix() -> Seq<char> {
    seq!['W', 'I', 'F', 'I', ':']
}

/// Whether `text` is a recognized payload: it starts with `WIFI:`.
pub open spec fn recognized(text: Seq<char>) -> bool {
    recognized_prefix().is_prefix_of(text)
}

/// Tests a decoded text against the recognized-payload prefix.
pub fn is_recognized(text: &str) -> (yes: bool)
    ensures
        yes == recognized(text@),
{
    if text.unicode_len() < 5 {
        return false;
    }
    let yes = text.get_char(0) == 'W' && text.get_char(1) == 'I' && text.get_char(2) == 'F'
        && text.get_char(3) == 'I' && text.get_char(4) == ':';
    proof {
        // The first five characters, one by one, are what the prefix test compares.
        let head = text@.subrange(0, 5);
        assert(head[0] == text@[0] && head[1] == text@[1] && head[2] == text@[2] && head[3]
            == text@[3] && head[4] == text@[4]);
        assert(yes == (head =~= recognized_prefix()));
    }
    yes
}

/// The error type of the `rqrr` decoder, carried through unread.
#[verifier::external_type_specification]
#[verifier::external_body]
pub struct ExDeQRError(rqrr::DeQRError);

/// The text that `rqrr` reads from a binary grid of the given side, `None` where
/// it reports an error. It is a function of the grid alone.
pub uninterp spec fn binary_grid_text(side: int, dark: Seq<bool>) -> Option<Seq<char>>;

/// Calls `rqrr::Grid::decode` on a `rqrr::SimpleGrid` filled from `grid`, module
/// for module, and keeps the text of its result. Claimed: the call succeeds
/// exactly where `binary_grid_text` is `Some`, and then returns that text. The
/// grid is valid, so `rqrr` reads no module outside it.
#[verifier::external_body]
fn rqrr_decode(grid: &BinaryGrid) -> (res: Result<String, rqrr::DeQRError>)
    requires
        grid@.valid(),
    ensures
        res is Ok <==> binary_grid_text(grid@.side, grid@.dark) is Some,
        res matches Ok(text) ==> binary_grid_text(grid@.side, grid@.dark) == Some(text@),
{
    let cells = rqrr::SimpleGrid::from_func(grid.side(), |x, y| grid.is_dark(x, y));
    rqrr::Grid::new(cells).decode().map(|(_, text)| text)
}

/// What the fallback stage makes of a binary grid.
pub open spec fn fallback_outcome(side: int, dark: Seq<bool>) -> Result<Seq<char>, Failure> {
    match binary_grid_text(side, dark) {
        Some(text) => Ok(text),
        None => Err(Failure::Verification),
    }
}

/// The view of a stage's outcome: the text as a sequence of characters.
pub open spec fn outcome_view(outcome: Result<String, Failure>) -> Result<Seq<char>, Failure> {
    match outcome {
        Ok(text) => Ok(text@),
        Err(failure) => Err(failure),
    }
}

/// The fallback stage: decodes a binary grid with the second decoder. Any error
/// of that decoder is a verification failure.
pub fn decode_fallback(grid: &BinaryGrid) -> (outcome: Result<String, Failure>)
    ensures
        outcome_view(outcome) == fallback_outcome(grid@.side, grid@.dark),
{
    proof {
        use_type_invariant(grid);
    }
    match rqrr_decode(grid) {
        Ok(text) => Ok(text),
        Err(_) => Err(Failure::Verification),
    }
}

} // verus!
