use mirror_sync::change_set::{ChangeSet, DeltaEntry};

fn delta(old: Option<&str>, new: Option<&str>) -> DeltaEntry {
    DeltaEntry { old_path: old.map(|s| s.to_string()), new_path: new.map(|s| s.to_string()) }
}

fn sorted_paths(c: &ChangeSet) -> Vec<String> {
    match c {
        ChangeSet::Full => panic!("expected an incremental change set"),
        ChangeSet::Incremental(v) => {
            let mut v = v.clone();
            v.sort();
            v
        }
    }
}

#[test]
fn added_and_modified_files_are_reported() {
    // C1 holds a.txt and b.txt; C2 modifies a.txt and adds c.txt.
    let deltas = vec![delta(Some("a.txt"), Some("a.txt")), delta(None, Some("c.txt"))];
    let c = ChangeSet::compute(Some(&deltas));
    assert_eq!(sorted_paths(&c), vec!["a.txt".to_string(), "c.txt".to_string()]);
    assert_eq!(c.len(), Some(2));
    assert!(!c.contains(&"b.txt".to_string()));
}

#[test]
fn no_checkpoint_gives_full() {
    let c = ChangeSet::compute(None);
    assert!(c.is_full());
    assert!(matches!(c, ChangeSet::Full));
    assert_eq!(c.len(), None);
}

#[test]
fn full_differs_from_empty_incremental() {
    let full = ChangeSet::compute(None);
    let empty = ChangeSet::compute(Some(&Vec::new()));
    assert!(full.is_full());
    assert!(!empty.is_full());
    assert_eq!(full.len(), None);
    assert_eq!(empty.len(), Some(0));
}

#[test]
fn pure_deletion_is_not_reported() {
    let deltas = vec![delta(Some("b.txt"), None), delta(Some("a.txt"), Some("a.txt"))];
    let c = ChangeSet::from_deltas(&deltas);
    assert!(!c.contains(&"b.txt".to_string()));
    assert!(c.contains(&"a.txt".to_string()));
    assert_eq!(c.len(), Some(1));
}

#[test]
fn repeated_paths_are_reported_once() {
    let deltas = vec![
        delta(Some("a.txt"), Some("a.txt")),
        delta(Some("old.txt"), Some("a.txt")),
        delta(None, Some("d/e.txt")),
    ];
    let c = ChangeSet::from_deltas(&deltas);
    assert_eq!(sorted_paths(&c), vec!["a.txt".to_string(), "d/e.txt".to_string()]);
}

#[test]
fn renamed_file_reports_its_new_path() {
    let deltas = vec![delta(Some("old.txt"), Some("new.txt"))];
    let c = ChangeSet::from_deltas(&deltas);
    assert!(c.contains(&"new.txt".to_string()));
    assert!(!c.contains(&"old.txt".to_string()));
}

#[test]
fn full_contains_no_listed_path() {
    assert!(!ChangeSet::Full.contains(&"a.txt".to_string()));
}
