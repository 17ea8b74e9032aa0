//! Turning a raw puzzle-source payload into a `Puzzle`.
//!
//! The network and HTML side of puzzle acquisition lives outside this
//! library; what arrives here is the decoded payload: one flat list of cell
//! values per difficulty level. This module validates such a payload at the
//! boundary — exactly 81 values, each in `[0, 9]` — and builds the puzzle
//! from it, so that the core's seed assumptions always hold.

use vstd::prelude::*;

use crate::puzzle::{seeded_by, Puzzle};

verus! {

/// A failure while obtaining or decoding a puzzle from a source.
#[derive(Debug)]
pub struct Error(pub String);

/// A payload that can seed a puzzle: exactly 81 values, each in `[0, 9]`.
pub open spec fn good_seed(s: Seq<u8>) -> bool {
    s.len() == 81 && forall|i: int| 0 <= i < s.len() ==> s[i] <= 9
}

/// The decoded puzzle list for one difficulty level.
pub struct NytimesPuzzleData {
    pub puzzle: Vec<u8>,
}

/// One difficulty level of the source's daily data.
pub struct NytimesLevel {
    pub puzzle_data: NytimesPuzzleData,
}

/// The source's daily data: one puzzle per difficulty level.
pub struct NytimesPuzzles {
    pub easy: NytimesLevel,
    pub medium: NytimesLevel,
    pub hard: NytimesLevel,
}

impl NytimesPuzzles {
    pub fn easy(self) -> (r: Result<Puzzle, Error>)
        ensures
            puzzle_from_result(r, self.easy.puzzle_data.puzzle@),
    {
        Self::puzzle_from(self.easy.puzzle_data.puzzle)
    }

    pub fn medium(self) -> (r: Result<Puzzle, Error>)
        ensures
            puzzle_from_result(r, self.medium.puzzle_data.puzzle@),
    {
        Self::puzzle_from(self.medium.puzzle_data.puzzle)
    }

    pub fn hard(self) -> (r: Result<Puzzle, Error>)
        ensures
            puzzle_from_result(r, self.hard.puzzle_data.puzzle@),
    {
        Self::puzzle_from(self.hard.puzzle_data.puzzle)
    }

    pub fn puzzle_from(input: Vec<u8>) -> (r: Result<Puzzle, Error>)
        ensures
            puzzle_from_result(r, input@),
    {
        if input.len() != 81 {
            return Err(Error("Unexpected number of cells in NYTimes data.".to_string()));
        }

        let mut cells: [u8; 81] = [0; 81];

        for idx in 0..81usize
            invariant
                input@.len() == 81,
                forall|i: int| 0 <= i < idx ==> cells@[i] == input@[i] && input@[i] <= 9,
        {
            let value = input[idx];
            if value > 9 {
                return Err(Error("Unexpected cell value in NYTimes data.".to_string()));
            }
            cells[idx] = value;
        }

        Ok(Puzzle::from(cells))
    }
}

/// What `puzzle_from` returns for a given payload: a puzzle seeded by the
/// payload exactly when the payload is a good seed, an error otherwise.
pub open spec fn puzzle_from_result(r: Result<Puzzle, Error>, input: Seq<u8>) -> bool {
    &&& good_seed(input) ==> (r matches Ok(p) && p@.len() == 81 && forall|i: int|
        0 <= i < 81 ==> seeded_by(#[trigger] p@[i], input[i]))
    &&& !good_seed(input) ==> r is Err
}

} // verus!
