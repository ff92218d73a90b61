//! The branches that are tracked by default.

use vstd::prelude::*;
use vstd::string::*;

verus! {

/// A branch of the upstream repository that is tracked by default.
#[derive(Clone, Copy, Debug, PartialEq, Eq, Structural)]
pub enum Branch {
    NixosUnstable,
    NixosUnstableSmall,
    NixpkgsUnstable,
    Nixos2211,
    Master,
}

impl Branch {
    /// The place of this branch in a status vector.
    pub open spec fn place(self) -> usize {
        match self {
            Branch::NixosUnstable => 0,
            Branch::Master => 1,
            Branch::NixosUnstableSmall => 2,
            Branch::Nixos2211 => 3,
            Branch::NixpkgsUnstable => 4,
        }
    }

    /// The name of this branch in the upstream repository.
    pub open spec fn label(self) -> Seq<char> {
        match self {
            Branch::NixosUnstable => "nixos-unstable"@,
            Branch::NixpkgsUnstable => "nixpkgs-unstable"@,
            Branch::NixosUnstableSmall => "nixos-unstable-small"@,
            Branch::Master => "master"@,
            Branch::Nixos2211 => "nixos-22.11"@,
        }
    }

    /// Returns the place of this branch in a status vector.
    pub fn position(self) -> (p: usize)
        ensures
            p == self.place(),
    {
        match self {
            Branch::NixosUnstable => 0,
            Branch::Master => 1,
            Branch::NixosUnstableSmall => 2,
            Branch::Nixos2211 => 3,
            Branch::NixpkgsUnstable => 4,
        }
    }

    /// Returns the name of this branch in the upstream repository.
    pub fn name(self) -> (s: String)
        ensures
            s@ == self.label(),
    {
        match self {
            Branch::NixosUnstable => String::from_str("nixos-unstable"),
            Branch::NixpkgsUnstable => String::from_str("nixpkgs-unstable"),
            Branch::NixosUnstableSmall => String::from_str("nixos-unstable-small"),
            Branch::Master => String::from_str("master"),
            Branch::Nixos2211 => String::from_str("nixos-22.11"),
        }
    }
}

/// The number of branches that are tracked by default.
pub const BRANCHES: usize = 5;

/// Some default branch has the place `place`.
pub open spec fn taken(place: int) -> bool {
    exists|b: Branch| #[trigger] b.place() == place
}

/// The places of the default branches are the numbers below `BRANCHES`, each
/// taken by exactly one branch.
pub proof fn lemma_places_dense()
    ensures
        forall|b: Branch| #[trigger] b.place() < BRANCHES,
        forall|a: Branch, b: Branch| #[trigger] a.place() == #[trigger] b.place() ==> a == b,
        forall|p: int| 0 <= p < BRANCHES ==> #[trigger] taken(p),
{
    assert(Branch::NixosUnstable.place() == 0);
    assert(Branch::Master.place() == 1);
    assert(Branch::NixosUnstableSmall.place() == 2);
    assert(Branch::Nixos2211.place() == 3);
    assert(Branch::NixpkgsUnstable.place() == 4);
}

} // verus!
