use rust_bert_binding::handle::{HandleTable, NULL_HANDLE};
use std::cell::Cell;
use std::rc::Rc;

fn built(name: &str) -> Option<String> {
    Some(name.to_string())
}

#[test]
fn null_handle_is_zero() {
    assert_eq!(NULL_HANDLE, 0);
}

#[test]
fn new_table_has_no_handles() {
    let table: HandleTable<String> = HandleTable::new();
    assert_eq!(table.live_count(), 0);
    assert_eq!(table.issued_count(), 0);
    assert!(!table.is_live(0));
    assert!(!table.is_live(1));
}

#[test]
fn create_issues_handles_in_order() {
    let mut table: HandleTable<String> = HandleTable::new();
    assert_eq!(table.create(built("a")), 1);
    assert_eq!(table.create(built("b")), 2);
    assert_eq!(table.create(built("c")), 3);
    assert_eq!(table.live_count(), 3);
    assert_eq!(table.issued_count(), 3);
    assert_eq!(table.get(2), Some(&"b".to_string()));
}

#[test]
fn failed_construction_gives_null_and_no_handle() {
    let mut table: HandleTable<String> = HandleTable::new();
    assert_eq!(table.create(None), NULL_HANDLE);
    assert_eq!(table.live_count(), 0);
    assert_eq!(table.issued_count(), 0);
    assert_eq!(table.create(built("a")), 1);
    assert_eq!(table.create(None), NULL_HANDLE);
    assert_eq!(table.issued_count(), 1);
}

#[test]
fn destroy_of_null_is_a_no_op() {
    let mut table: HandleTable<String> = HandleTable::new();
    let handle = table.create(built("a"));
    assert!(!table.destroy(NULL_HANDLE));
    assert_eq!(table.live_count(), 1);
    assert!(table.is_live(handle));
}

#[test]
fn destroy_releases_a_live_handle_once() {
    let mut table: HandleTable<String> = HandleTable::new();
    let handle = table.create(built("a"));
    assert!(table.destroy(handle));
    assert!(!table.is_live(handle));
    assert_eq!(table.live_count(), 0);
    assert!(!table.destroy(handle));
    assert_eq!(table.live_count(), 0);
    assert_eq!(table.issued_count(), 1);
}

#[test]
fn destroy_of_a_handle_never_issued_is_detected() {
    let mut table: HandleTable<String> = HandleTable::new();
    table.create(built("a"));
    assert!(!table.destroy(2));
    assert!(!table.destroy(usize::MAX));
    assert_eq!(table.live_count(), 1);
}

#[test]
fn handles_are_not_issued_again() {
    let mut table: HandleTable<String> = HandleTable::new();
    let first = table.create(built("a"));
    assert!(table.destroy(first));
    let second = table.create(built("b"));
    assert_ne!(first, second);
    assert_eq!(second, 2);
    assert!(!table.is_live(first));
    assert_eq!(table.get(first), None);
    assert_eq!(table.get(second), Some(&"b".to_string()));
}

#[test]
fn destroy_leaves_other_handles_alone() {
    let mut table: HandleTable<String> = HandleTable::new();
    let a = table.create(built("a"));
    let b = table.create(built("b"));
    let c = table.create(built("c"));
    assert!(table.destroy(b));
    assert_eq!(table.get(a), Some(&"a".to_string()));
    assert_eq!(table.get(b), None);
    assert_eq!(table.get(c), Some(&"c".to_string()));
    assert_eq!(table.live_count(), 2);
}

#[test]
fn with_runs_on_a_live_handle_only() {
    let mut table: HandleTable<String> = HandleTable::new();
    let handle = table.create(built("pipeline"));
    assert_eq!(table.with(handle, |p: &String| p.len()), Some(8));
    assert_eq!(table.with(NULL_HANDLE, |p: &String| p.len()), None);
    assert_eq!(table.with(7, |p: &String| p.len()), None);
    table.destroy(handle);
    assert_eq!(table.with(handle, |p: &String| p.len()), None);
}

#[test]
fn releases_never_exceed_creations() {
    let mut table: HandleTable<u32> = HandleTable::new();
    let mut creations = 0usize;
    let mut releases = 0usize;
    let script: [(bool, usize); 12] = [
        (true, 0),
        (false, 1),
        (false, 1),
        (true, 0),
        (true, 0),
        (false, 5),
        (false, 3),
        (false, 0),
        (true, 0),
        (false, 2),
        (false, 2),
        (false, 4),
    ];
    for (create, handle) in script {
        if create {
            if table.create(Some(7)) != NULL_HANDLE {
                creations += 1;
            }
        } else if table.destroy(handle) {
            releases += 1;
        }
        assert!(releases <= creations);
        assert_eq!(table.live_count(), creations - releases);
        assert_eq!(table.issued_count(), creations);
    }
    assert_eq!(creations, 4);
    assert_eq!(releases, 4);
    assert_eq!(table.live_count(), 0);
}

#[test]
fn well_behaved_caller_leaves_nothing_live() {
    let mut table: HandleTable<u32> = HandleTable::new();
    let handles: Vec<usize> = (0..10).map(|i| table.create(Some(i))).collect();
    assert_eq!(table.live_count(), 10);
    for handle in handles {
        assert!(table.destroy(handle));
    }
    assert_eq!(table.live_count(), 0);
    assert_eq!(table.issued_count(), 10);
}

struct Counted(Rc<Cell<usize>>);

impl Drop for Counted {
    fn drop(&mut self) {
        self.0.set(self.0.get() + 1);
    }
}

#[test]
fn destroy_reclaims_the_pipeline_exactly_once() {
    let reclaimed = Rc::new(Cell::new(0usize));
    let mut table: HandleTable<Counted> = HandleTable::new();
    let first = table.create(Some(Counted(reclaimed.clone())));
    let second = table.create(Some(Counted(reclaimed.clone())));
    assert_eq!(reclaimed.get(), 0);
    assert!(table.destroy(first));
    assert_eq!(reclaimed.get(), 1);
    assert!(!table.destroy(first));
    assert_eq!(reclaimed.get(), 1);
    assert!(!table.destroy(NULL_HANDLE));
    assert_eq!(reclaimed.get(), 1);
    assert!(table.destroy(second));
    assert_eq!(reclaimed.get(), 2);
    assert_eq!(table.live_count(), 0);
}

#[test]
fn pipeline_of_a_failed_create_is_never_stored() {
    let reclaimed = Rc::new(Cell::new(0usize));
    let mut table: HandleTable<Counted> = HandleTable::new();
    assert_eq!(table.create(None), NULL_HANDLE);
    let handle = table.create(Some(Counted(reclaimed.clone())));
    assert_eq!(handle, 1);
    drop(table);
    assert_eq!(reclaimed.get(), 1);
}
