//! The relationship of a commit to the tip of a tracked branch.

use vstd::prelude::*;
use vstd::string::*;
use crate::error::UpstreamError;

verus! {

/// How a commit stands against the tip of a branch, as the upstream service reports it.
#[derive(Clone, Copy, Debug, PartialEq, Eq, Structural)]
pub enum ComparisonOutcome {
    /// The commit and the branch have each gone their own way.
    Diverged,
    /// The commit is ahead of the tip of the branch.
    Ahead,
    /// The tip of the branch is ahead of the commit: the branch contains it.
    Behind,
    /// The commit is the tip of the branch.
    Identical,
}

impl ComparisonOutcome {
    /// Whether this outcome counts as "the commit has reached the branch".
    pub open spec fn reached(self) -> bool {
        self == ComparisonOutcome::Behind || self == ComparisonOutcome::Identical
    }

    /// The status bit of this outcome: 1 when the commit has reached the branch, else 0.
    pub open spec fn bit(self) -> u8 {
        if self.reached() {
            1u8
        } else {
            0u8
        }
    }

    /// The outcome that a status word of the upstream service stands for.
    /// The four words are written in lower case; any other text stands for none.
    pub open spec fn of_status(word: Seq<char>) -> Option<ComparisonOutcome> {
        if word == "diverged"@ {
            Some(ComparisonOutcome::Diverged)
        } else if word == "ahead"@ {
            Some(ComparisonOutcome::Ahead)
        } else if word == "behind"@ {
            Some(ComparisonOutcome::Behind)
        } else if word == "identical"@ {
            Some(ComparisonOutcome::Identical)
        } else {
            None
        }
    }

    /// Computes the status bit of this outcome.
    pub fn to_bit(self) -> (b: u8)
        ensures
            b == self.bit(),
    {
        match self {
            ComparisonOutcome::Behind | ComparisonOutcome::Identical => 1,
            ComparisonOutcome::Diverged | ComparisonOutcome::Ahead => 0,
        }
    }

    /// Decodes a status word of the upstream service.
    pub fn from_status(word: &str) -> (r: Option<ComparisonOutcome>)
        ensures
            r == Self::of_status(word@),
    {
        let word = String::from_str(word);
        if word == String::from_str("diverged") {
            Some(ComparisonOutcome::Diverged)
        } else if word == String::from_str("ahead") {
            Some(ComparisonOutcome::Ahead)
        } else if word == String::from_str("behind") {
            Some(ComparisonOutcome::Behind)
        } else if word == String::from_str("identical") {
            Some(ComparisonOutcome::Identical)
        } else {
            None
        }
    }
}

/// The outcome of comparing the commit against the branch at one position.
#[derive(Clone, Copy, Debug, PartialEq, Eq, Structural)]
pub struct Comparison {
    /// The position of the branch in the registry.
    pub position: usize,
    /// How the commit stands against the tip of that branch.
    pub outcome: ComparisonOutcome,
}

/// What one comparison reported: its outcome, or that it failed.
pub type Report = Result<Comparison, UpstreamError>;

} // verus!
