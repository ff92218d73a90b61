//! The registry of tracked branches: which branch stands at which place of a
//! status vector.

use vstd::prelude::*;
use crate::branch::Branch;

verus! {

/// One tracked branch and its place in a status vector.
#[derive(Clone, Debug, PartialEq, Eq)]
pub struct BranchSlot {
    /// The name of the branch in the upstream repository.
    pub name: String,
    /// The index of the branch's bit in a status vector.
    pub position: usize,
}

/// The ordered set of tracked branches, fixed when it is made.
///
/// The slot at index `i` has position `i`: the positions are the numbers from
/// zero up to the number of slots, each taken once.
#[derive(Debug, PartialEq, Eq)]
pub struct Registry {
    slots: Vec<BranchSlot>,
}

impl View for Registry {
    type V = Seq<Seq<char>>;

    /// The names of the tracked branches, in the order of their positions.
    closed spec fn view(&self) -> Seq<Seq<char>> {
        Seq::new(self.slots@.len(), |i: int| self.slots@[i].name@)
    }
}

impl Registry {
    #[verifier::type_invariant]
    spec fn dense(&self) -> bool {
        forall|i: int| 0 <= i < self.slots@.len() ==> (#[trigger] self.slots@[i]).position == i
    }

    /// Makes the registry of the branches named `names`: the branch named
    /// `names[i]` gets position `i`.
    pub fn new(names: &Vec<String>) -> (registry: Registry)
        ensures
            registry@ == names.deep_view(),
    {
        let mut slots: Vec<BranchSlot> = Vec::new();
        let mut i: usize = 0;
        while i < names.len()
            invariant
                i <= names.len(),
                slots@.len() == i,
                forall|k: int| 0 <= k < i ==> (#[trigger] slots@[k]).position == k,
                forall|k: int| 0 <= k < i ==> (#[trigger] slots@[k]).name@ == names@[k]@,
            decreases names.len() - i,
        {
            slots.push(BranchSlot { name: names[i].clone(), position: i });
            i = i + 1;
        }
        let registry = Registry { slots };
        assert(registry@ =~= names.deep_view());
        registry
    }

    /// Makes the registry of the branches that are tracked by default, each at
    /// its own place.
    pub fn nixpkgs() -> (registry: Registry)
        ensures
            registry@ == seq![
                Branch::NixosUnstable.label(),
                Branch::Master.label(),
                Branch::NixosUnstableSmall.label(),
                Branch::Nixos2211.label(),
                Branch::NixpkgsUnstable.label(),
            ],
            forall|b: Branch| registry@[#[trigger] b.place() as int] == b.label(),
    {
        let mut names: Vec<String> = Vec::new();
        names.push(Branch::NixosUnstable.name());
        names.push(Branch::Master.name());
        names.push(Branch::NixosUnstableSmall.name());
        names.push(Branch::Nixos2211.name());
        names.push(Branch::NixpkgsUnstable.name());
        let registry = Registry::new(&names);
        assert(registry@ =~= seq![
            Branch::NixosUnstable.label(),
            Branch::Master.label(),
            Branch::NixosUnstableSmall.label(),
            Branch::Nixos2211.label(),
            Branch::NixpkgsUnstable.label(),
        ]);
        registry
    }

    /// The number of tracked branches, which is the length of a status vector.
    pub fn len(&self) -> (n: usize)
        ensures
            n == self@.len(),
    {
        self.slots.len()
    }

    /// The slots in the order of their positions.
    pub fn all_slots(&self) -> (slots: &Vec<BranchSlot>)
        ensures
            slots@.len() == self@.len(),
            forall|i: int|
                0 <= i < slots@.len() ==> (#[trigger] slots@[i]).position == i && slots@[i].name@
                    == self@[i],
    {
        proof {
            use_type_invariant(self);
        }
        &self.slots
    }
}

} // verus!
