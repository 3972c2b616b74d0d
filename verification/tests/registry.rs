use carf::registry::{without, Registry};
use carf::types::{clone_processes, ProcessInfo};

#[test]
fn a_new_registry_is_empty() {
    let registry = Registry::new();
    assert_eq!(registry.session_count(), 0);
    assert_eq!(registry.script_count(), 0);
    assert_eq!(registry.next_session_id(), 1);
    assert_eq!(registry.next_script_id(), 1);
    assert!(!registry.has_session(1));
    assert!(!registry.has_script(1));
    assert_eq!(registry.session_of(1), None);
    assert_eq!(registry.script_ids(1), Vec::<u64>::new());
    assert_eq!(registry.first_script(1), None);
    assert_eq!(registry.target_of(1), None);
    assert_eq!(registry.session_ids(), Vec::<u64>::new());
}

#[test]
fn without_strikes_every_occurrence() {
    assert_eq!(without(&vec![], 1), Vec::<u64>::new());
    assert_eq!(without(&vec![1, 2, 3], 2), vec![1, 3]);
    assert_eq!(without(&vec![1, 2, 3], 4), vec![1, 2, 3]);
    assert_eq!(without(&vec![5, 1, 5, 2, 5], 5), vec![1, 2]);
    assert_eq!(without(&vec![7], 7), Vec::<u64>::new());
}

#[test]
fn clone_processes_copies_every_entry() {
    let list = vec![
        ProcessInfo { pid: 1, name: "init".to_string() },
        ProcessInfo { pid: 2, name: String::new() },
    ];
    assert_eq!(clone_processes(&list), list);
    assert_eq!(clone_processes(&vec![]), Vec::<ProcessInfo>::new());
    assert_eq!(list[0].clone(), list[0]);
}
