use nixstats::branch::{Branch, BRANCHES};
use nixstats::registry::{BranchSlot, Registry};

fn default_branches() -> [Branch; 5] {
    [
        Branch::NixosUnstable,
        Branch::NixosUnstableSmall,
        Branch::NixpkgsUnstable,
        Branch::Master,
        Branch::Nixos2211,
    ]
}

#[test]
fn branches_have_their_names() {
    assert_eq!(Branch::NixosUnstable.name(), "nixos-unstable");
    assert_eq!(Branch::NixpkgsUnstable.name(), "nixpkgs-unstable");
    assert_eq!(Branch::NixosUnstableSmall.name(), "nixos-unstable-small");
    assert_eq!(Branch::Master.name(), "master");
    assert_eq!(Branch::Nixos2211.name(), "nixos-22.11");
}

#[test]
fn branches_have_their_positions() {
    assert_eq!(Branch::NixosUnstable.position(), 0);
    assert_eq!(Branch::Master.position(), 1);
    assert_eq!(Branch::NixosUnstableSmall.position(), 2);
    assert_eq!(Branch::Nixos2211.position(), 3);
    assert_eq!(Branch::NixpkgsUnstable.position(), 4);
}

#[test]
fn positions_are_dense_and_taken_once() {
    assert_eq!(BRANCHES, 5);
    let mut taken = [false; 5];
    for branch in default_branches() {
        let position = branch.position();
        assert!(position < BRANCHES);
        assert!(!taken[position]);
        taken[position] = true;
    }
    assert_eq!(taken, [true; 5]);
}

#[test]
fn default_registry_lists_branches_by_position() {
    let registry = Registry::nixpkgs();
    assert_eq!(registry.len(), 5);
    let names: Vec<&str> = registry.all_slots().iter().map(|slot| slot.name.as_str()).collect();
    assert_eq!(
        names,
        vec![
            "nixos-unstable",
            "master",
            "nixos-unstable-small",
            "nixos-22.11",
            "nixpkgs-unstable",
        ]
    );
    for branch in default_branches() {
        let slot = &registry.all_slots()[branch.position()];
        assert_eq!(slot.name, branch.name());
        assert_eq!(slot.position, branch.position());
    }
}

#[test]
fn registry_numbers_names_in_order() {
    let names = vec!["BranchA".to_string(), "BranchB".to_string(), "BranchC".to_string()];
    let registry = Registry::new(&names);
    assert_eq!(registry.len(), 3);
    assert_eq!(
        registry.all_slots(),
        &vec![
            BranchSlot { name: "BranchA".to_string(), position: 0 },
            BranchSlot { name: "BranchB".to_string(), position: 1 },
            BranchSlot { name: "BranchC".to_string(), position: 2 },
        ]
    );
}

#[test]
fn registry_may_be_empty() {
    let registry = Registry::new(&Vec::new());
    assert_eq!(registry.len(), 0);
    assert!(registry.all_slots().is_empty());
}

#[test]
fn registry_keeps_equal_names_apart() {
    let names = vec!["main".to_string(), "main".to_string()];
    let registry = Registry::new(&names);
    assert_eq!(registry.len(), 2);
    assert_eq!(registry.all_slots()[0].position, 0);
    assert_eq!(registry.all_slots()[1].position, 1);
}
