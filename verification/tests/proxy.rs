use taskgraph::model::{EditKind, Error, Task};
use taskgraph::reconcile::reconcile_script;
use taskgraph::yproxy::YDocProxy;
use std::sync::Arc;
use std::sync::atomic::{AtomicUsize, Ordering};
use yrs::{Array as YrsArray, Map as YrsMap, Transact};

fn new_with_fields_populated() -> Task {
    Task {
        id: "id1".to_string(),
        num: "1".to_string(),
        name: "Task 1".to_string(),
        desc: Some("A task description".to_string()),
        children: vec!["id2".to_string(), "id3".to_string()],
        assignee: Some("a@b.c".to_string()),
        reporter: Some("r@b.c".to_string()),
        status: Some("In Progress".to_string()),
        status_time: Some(1),
        url: Some("http://example.com/1".to_string()),
        kind: Some("Task".to_string()),
        estimate: Some(3),
        deadline: Some(4),
        archived: Some(false),
    }
}

#[test]
fn set_and_get_task_succeeds() {
    let ydoc = YDocProxy::new();

    let task = new_with_fields_populated();
    {
        let mut txn = ydoc.transact_mut_with("test").unwrap();
        ydoc.set(&mut txn, &task);

        assert_eq!(ydoc.get(&txn, "id1").unwrap().to_task(&txn).unwrap(), task)
    }

    // Mutate a few fields.
    let task = Task {
        name: "Task 1-edited".to_string(),
        children: vec!["2".to_string(), "3".to_string()],
        estimate: Some(8),
        archived: Some(true),
        ..task
    };
    {
        let mut txn = ydoc.transact_mut_with("test").unwrap();
        ydoc.set(&mut txn, &task);
    }

    let txn = ydoc.transact_mut_with("read").unwrap();
    let y_task = ydoc.get(&txn, "id1").unwrap();
    assert_eq!(y_task.to_task(&txn).unwrap(), task)
}

#[test]
fn set_and_get_only_required_fields_succeeds() {
    let ydoc = YDocProxy::new();

    let task = Task {
        id: "id1".to_string(),
        num: "1".to_string(),
        name: "Task 1".to_string(),
        ..Task::default()
    };
    {
        let mut txn = ydoc.transact_mut_with("test").unwrap();
        ydoc.set(&mut txn, &task);

        assert_eq!(ydoc.get(&txn, "id1").unwrap().to_task(&txn).unwrap(), task)
    }
}

#[test]
fn set_is_full_overwrite_clearing_optionals() {
    let ydoc = YDocProxy::new();
    let task = new_with_fields_populated();
    {
        let mut txn = ydoc.transact_mut_with("test").unwrap();
        ydoc.set(&mut txn, &task);
    }
    let cleared = Task {
        id: "id1".to_string(),
        num: "1".to_string(),
        name: "Task 1".to_string(),
        ..Task::default()
    };
    let mut txn = ydoc.transact_mut_with("test").unwrap();
    ydoc.set(&mut txn, &cleared);
    let read = ydoc.get(&txn, "id1").unwrap().to_task(&txn).unwrap();
    assert_eq!(read, cleared);
    assert_eq!(read.assignee, None);
    assert_eq!(read.desc, None);
}

#[test]
fn next_num_on_empty_graph_is_one() {
    let ydoc = YDocProxy::new();
    let txn = ydoc.transact_mut_with("test").unwrap();
    assert_eq!(ydoc.next_num(&txn).unwrap(), 1);
}

#[test]
fn next_num_is_max_plus_one() {
    let ydoc = YDocProxy::new();
    let mut txn = ydoc.transact_mut_with("test").unwrap();
    for (id, num) in [("a", "1"), ("b", "3"), ("c", "2")] {
        let task = Task {
            id: id.to_string(),
            num: num.to_string(),
            name: id.to_string(),
            ..Task::default()
        };
        ydoc.set(&mut txn, &task);
    }
    assert_eq!(ydoc.next_num(&txn).unwrap(), 4);
}

#[test]
fn next_num_fails_on_non_numeric_num() {
    let ydoc = YDocProxy::new();
    let mut txn = ydoc.transact_mut_with("test").unwrap();
    let task = Task {
        id: "a".to_string(),
        num: "abc".to_string(),
        name: "a".to_string(),
        ..Task::default()
    };
    ydoc.set(&mut txn, &task);
    assert_eq!(ydoc.next_num(&txn), Err(Error::ParseError));
}

#[test]
fn push_child_appends_only_when_absent() {
    let ydoc = YDocProxy::new();
    let mut txn = ydoc.transact_mut_with("test").unwrap();
    let task = Task {
        id: "p".to_string(),
        num: "1".to_string(),
        name: "p".to_string(),
        children: vec!["a".to_string()],
        ..Task::default()
    };
    let y_task = ydoc.set(&mut txn, &task);
    assert_eq!(y_task.push_child(&mut txn, "a").unwrap(), false);
    assert_eq!(y_task.get_children(&txn).unwrap(), vec!["a".to_string()]);
    assert_eq!(y_task.push_child(&mut txn, "b").unwrap(), true);
    assert_eq!(
        y_task.get_children(&txn).unwrap(),
        vec!["a".to_string(), "b".to_string()]
    );
}

#[test]
fn reconciliation_edits_are_minimal() {
    let old = vec!["a".to_string(), "b".to_string(), "c".to_string()];
    let new = vec!["b".to_string(), "c".to_string(), "d".to_string()];
    let ops = reconcile_script(&old, &new);
    // The shared run b,c must be marked equal: no delete or replace may touch
    // old positions 1 and 2, and no insert may break them apart.
    for op in &ops {
        match op.kind {
            EditKind::Delete | EditKind::Replace => {
                assert!(op.old_end <= 1 || op.old_start >= 3);
            }
            _ => {}
        }
    }
    // Only "a" is deleted and only "d" is inserted.
    let deleted: usize = ops
        .iter()
        .filter(|op| matches!(op.kind, EditKind::Delete | EditKind::Replace))
        .map(|op| op.old_end - op.old_start)
        .sum();
    let inserted: usize = ops
        .iter()
        .filter(|op| matches!(op.kind, EditKind::Insert | EditKind::Replace))
        .map(|op| op.new_end - op.new_start)
        .sum();
    assert_eq!(deleted, 1);
    assert_eq!(inserted, 1);
}

#[test]
fn set_children_reconciles_to_target() {
    let ydoc = YDocProxy::new();
    let mut txn = ydoc.transact_mut_with("test").unwrap();
    let task = Task {
        id: "p".to_string(),
        num: "1".to_string(),
        name: "p".to_string(),
        children: vec!["a".to_string(), "b".to_string(), "c".to_string()],
        ..Task::default()
    };
    let y_task = ydoc.set(&mut txn, &task);
    let target = vec!["b".to_string(), "c".to_string(), "d".to_string()];
    y_task.set_children(&mut txn, &target);
    assert_eq!(y_task.get_children(&txn).unwrap(), target);
}

#[test]
fn is_rollup_cases() {
    let ydoc = YDocProxy::new();
    let mut txn = ydoc.transact_mut_with("test").unwrap();
    let rollup = Task {
        id: "r".to_string(),
        num: "1".to_string(),
        name: "r".to_string(),
        kind: Some("Rollup".to_string()),
        ..Task::default()
    };
    let with_children = Task {
        id: "w".to_string(),
        num: "2".to_string(),
        name: "w".to_string(),
        children: vec!["x".to_string()],
        ..Task::default()
    };
    let plain = Task {
        id: "p".to_string(),
        num: "3".to_string(),
        name: "p".to_string(),
        ..Task::default()
    };
    let other_kind_with_children = Task {
        id: "o".to_string(),
        num: "4".to_string(),
        name: "o".to_string(),
        kind: Some("Task".to_string()),
        children: vec!["x".to_string()],
        ..Task::default()
    };
    let other_kind_childless = Task {
        id: "q".to_string(),
        num: "5".to_string(),
        name: "q".to_string(),
        kind: Some("Task".to_string()),
        ..Task::default()
    };
    let r = ydoc.set(&mut txn, &rollup);
    let w = ydoc.set(&mut txn, &with_children);
    let p = ydoc.set(&mut txn, &plain);
    let o = ydoc.set(&mut txn, &other_kind_with_children);
    let q = ydoc.set(&mut txn, &other_kind_childless);
    assert_eq!(r.is_rollup(&txn).unwrap(), true);
    assert_eq!(w.is_rollup(&txn).unwrap(), true);
    assert_eq!(p.is_rollup(&txn).unwrap(), false);
    // The kind decides only when it is the rollup tag: any other kind falls
    // back to the child list.
    assert_eq!(o.is_rollup(&txn).unwrap(), true);
    assert_eq!(q.is_rollup(&txn).unwrap(), false);
}

#[test]
fn is_managed_only_for_managed_kinds() {
    let ydoc = YDocProxy::new();
    let mut txn = ydoc.transact_mut_with("test").unwrap();
    let cases = [
        ("g1", Some("github"), true),
        ("g2", Some("github_pr"), true),
        ("g3", Some("Rollup"), false),
        ("g4", Some("Task"), false),
        ("g5", None, false),
    ];
    for (id, kind, expected) in cases {
        let task = Task {
            id: id.to_string(),
            num: "1".to_string(),
            name: id.to_string(),
            kind: kind.map(|k| k.to_string()),
            ..Task::default()
        };
        let y_task = ydoc.set(&mut txn, &task);
        assert_eq!(y_task.is_managed(&txn).unwrap(), expected, "kind {kind:?}");
    }
}

#[test]
fn get_by_nums_returns_only_found_matches() {
    let ydoc = YDocProxy::new();
    let mut txn = ydoc.transact_mut_with("test").unwrap();
    for (id, num) in [("a", "5"), ("b", "7")] {
        let task = Task {
            id: id.to_string(),
            num: num.to_string(),
            name: id.to_string(),
            ..Task::default()
        };
        ydoc.set(&mut txn, &task);
    }
    let found = ydoc
        .get_by_nums(&txn, &vec!["5".to_string(), "9".to_string()])
        .unwrap();
    assert_eq!(found.len(), 1);
    assert_eq!(found[0].get_num(&txn).unwrap(), "5");
}

#[test]
fn get_missing_task_is_not_found() {
    let ydoc = YDocProxy::new();
    let txn = ydoc.transact_mut_with("test").unwrap();
    assert_eq!(ydoc.get(&txn, "nope").err().unwrap(), Error::NotFound);
}

#[test]
fn to_task_reports_missing_required_field() {
    let doc = yrs::Doc::new();
    let graph = doc.get_or_insert_map("graph");
    let mut txn = doc.transact_mut();
    let node: yrs::MapRef = graph.get_or_init(&mut txn, "x1");
    node.try_update(&mut txn, "id", "x1");
    node.try_update(&mut txn, "num", "9");
    // no name
    let ydoc = YDocProxy::new_from_existing_doc(doc.clone(), &txn).unwrap();
    let y_task = ydoc.get(&txn, "x1").unwrap();
    assert_eq!(y_task.to_task(&txn).err().unwrap(), Error::MissingField);
    assert_eq!(y_task.get_num(&txn).unwrap(), "9");
}

#[test]
fn wrong_variant_is_a_type_mismatch() {
    let doc = yrs::Doc::new();
    let graph = doc.get_or_insert_map("graph");
    let mut txn = doc.transact_mut();
    let node: yrs::MapRef = graph.get_or_init(&mut txn, "x1");
    node.try_update(&mut txn, "id", "x1");
    node.try_update(&mut txn, "num", "9");
    node.try_update(&mut txn, "name", 5i64);
    let ydoc = YDocProxy::new_from_existing_doc(doc.clone(), &txn).unwrap();
    let y_task = ydoc.get(&txn, "x1").unwrap();
    assert_eq!(y_task.get_name(&txn).err().unwrap(), Error::TypeMismatch);
    assert_eq!(y_task.to_task(&txn).err().unwrap(), Error::TypeMismatch);
}

#[test]
fn non_map_graph_entry_is_not_a_node() {
    let doc = yrs::Doc::new();
    let graph = doc.get_or_insert_map("graph");
    let mut txn = doc.transact_mut();
    graph.try_update(&mut txn, "x1", "just a string");
    let ydoc = YDocProxy::new_from_existing_doc(doc.clone(), &txn).unwrap();
    assert_eq!(ydoc.get(&txn, "x1").err().unwrap(), Error::NotANode);
    assert!(ydoc.to_graph(&txn).is_err());
}

#[test]
fn to_graph_returns_every_task() {
    let ydoc = YDocProxy::new();
    let mut txn = ydoc.transact_mut_with("test").unwrap();
    for (id, num) in [("a", "1"), ("b", "2")] {
        let task = Task {
            id: id.to_string(),
            num: num.to_string(),
            name: id.to_string(),
            ..Task::default()
        };
        ydoc.set(&mut txn, &task);
    }
    let graph = ydoc.to_graph(&txn).unwrap();
    assert_eq!(graph.entries.len(), 2);
    let mut ids: Vec<String> = graph.entries.iter().map(|(id, _)| id.clone()).collect();
    ids.sort();
    assert_eq!(ids, vec!["a".to_string(), "b".to_string()]);
    for (id, task) in &graph.entries {
        assert_eq!(&task.id, id);
    }
}

#[test]
fn tasks_lists_every_node() {
    let ydoc = YDocProxy::new();
    let mut txn = ydoc.transact_mut_with("test").unwrap();
    for id in ["a", "b", "c"] {
        let task = Task {
            id: id.to_string(),
            num: "1".to_string(),
            name: id.to_string(),
            ..Task::default()
        };
        ydoc.set(&mut txn, &task);
    }
    let tasks = ydoc.tasks(&txn).unwrap();
    assert_eq!(tasks.len(), 3);
}

#[test]
fn status_time_round_trips_exactly() {
    let ydoc = YDocProxy::new();
    let mut txn = ydoc.transact_mut_with("test").unwrap();
    let task = Task {
        id: "t".to_string(),
        num: "1".to_string(),
        name: "t".to_string(),
        status_time: Some(1700000000123),
        estimate: Some(-7),
        deadline: Some(i64::MAX),
        ..Task::default()
    };
    let y_task = ydoc.set(&mut txn, &task);
    let read = y_task.to_task(&txn).unwrap();
    assert_eq!(read.status_time, Some(1700000000123));
    assert_eq!(read.estimate, Some(-7));
    assert_eq!(read.deadline, Some(i64::MAX));
}

#[test]
fn transact_mut_fails_while_scope_is_active() {
    let ydoc = YDocProxy::new();
    let _txn = ydoc.transact_mut_with("first").unwrap();
    assert_eq!(
        ydoc.transact_mut_with("second").err().unwrap(),
        Error::TransactionUnavailable
    );
}

#[test]
fn observe_graph_fires_on_commit_until_unobserved() {
    let ydoc = YDocProxy::new();
    let count = Arc::new(AtomicUsize::new(0));
    let seen = count.clone();
    ydoc.observe_graph("counter", move |_txn, _event| {
        seen.fetch_add(1, Ordering::SeqCst);
    });
    {
        let mut txn = ydoc.transact_mut_with("w").unwrap();
        let task = Task {
            id: "a".to_string(),
            num: "1".to_string(),
            name: "a".to_string(),
            ..Task::default()
        };
        ydoc.set(&mut txn, &task);
    }
    assert!(count.load(Ordering::SeqCst) >= 1);
    assert!(ydoc.unobserve_graph("counter"));
}

#[test]
fn observe_update_v2_fires_on_commit() {
    let ydoc = YDocProxy::new();
    let count = Arc::new(AtomicUsize::new(0));
    let seen = count.clone();
    ydoc.observe_update_v2("updates", move |_txn, _event| {
        seen.fetch_add(1, Ordering::SeqCst);
    })
    .unwrap();
    {
        let mut txn = ydoc.transact_mut_with("w").unwrap();
        let task = Task {
            id: "a".to_string(),
            num: "1".to_string(),
            name: "a".to_string(),
            ..Task::default()
        };
        ydoc.set(&mut txn, &task);
    }
    assert!(count.load(Ordering::SeqCst) >= 1);
    assert!(ydoc.unobserve_update_v2("updates").unwrap());
}

#[test]
fn observe_deep_graph_fires_on_nested_change() {
    let ydoc = YDocProxy::new();
    {
        let mut txn = ydoc.transact_mut_with("w").unwrap();
        let task = Task {
            id: "a".to_string(),
            num: "1".to_string(),
            name: "a".to_string(),
            ..Task::default()
        };
        ydoc.set(&mut txn, &task);
    }
    let count = Arc::new(AtomicUsize::new(0));
    let seen = count.clone();
    ydoc.observe_deep_graph("deep", move |_txn, _events| {
        seen.fetch_add(1, Ordering::SeqCst);
    });
    {
        let mut txn = ydoc.transact_mut_with("w").unwrap();
        let y_task = ydoc.get(&txn, "a").unwrap();
        y_task.set_name(&mut txn, "renamed");
    }
    assert!(count.load(Ordering::SeqCst) >= 1);
    assert!(ydoc.unobserve_deep_graph("deep"));
}

#[test]
fn graph_lookup_finds_stored_task() {
    let ydoc = YDocProxy::new();
    let mut txn = ydoc.transact_mut_with("test").unwrap();
    let task = Task {
        id: "a".to_string(),
        num: "1".to_string(),
        name: "a".to_string(),
        ..Task::default()
    };
    ydoc.set(&mut txn, &task);
    let graph = ydoc.to_graph(&txn).unwrap();
    assert_eq!(graph.get_task("a").unwrap(), &task);
    assert!(graph.get_task("b").is_none());
}

#[test]
fn set_children_repairs_corrupt_scalar_children() {
    let doc = yrs::Doc::new();
    let graph = doc.get_or_insert_map("graph");
    let mut txn = doc.transact_mut();
    let node: yrs::MapRef = graph.get_or_init(&mut txn, "x1");
    node.try_update(&mut txn, "id", "x1");
    node.try_update(&mut txn, "num", "1");
    node.try_update(&mut txn, "name", "x");
    node.try_update(&mut txn, "children", "corrupt");
    let ydoc = YDocProxy::new_from_existing_doc(doc.clone(), &txn).unwrap();
    let y_task = ydoc.get(&txn, "x1").unwrap();
    assert_eq!(y_task.get_children(&txn).err().unwrap(), Error::TypeMismatch);
    y_task.set_children(&mut txn, &vec!["a".to_string()]);
    assert_eq!(y_task.get_children(&txn).unwrap(), vec!["a".to_string()]);
}

#[test]
fn set_children_repairs_corrupt_list_items() {
    let doc = yrs::Doc::new();
    let graph = doc.get_or_insert_map("graph");
    let mut txn = doc.transact_mut();
    let node: yrs::MapRef = graph.get_or_init(&mut txn, "x1");
    node.try_update(&mut txn, "id", "x1");
    node.try_update(&mut txn, "num", "1");
    node.try_update(&mut txn, "name", "x");
    let arr: yrs::ArrayRef = node.get_or_init(&mut txn, "children");
    arr.push_back(&mut txn, 5i64);
    let ydoc = YDocProxy::new_from_existing_doc(doc.clone(), &txn).unwrap();
    let y_task = ydoc.get(&txn, "x1").unwrap();
    assert_eq!(y_task.get_children(&txn).err().unwrap(), Error::TypeMismatch);
    y_task.set_children(&mut txn, &vec!["a".to_string(), "b".to_string()]);
    assert_eq!(
        y_task.get_children(&txn).unwrap(),
        vec!["a".to_string(), "b".to_string()]
    );
}

#[test]
fn adopt_existing_doc_with_graph_succeeds() {
    let doc = yrs::Doc::new();
    let _root = doc.get_or_insert_map("graph");
    let txn = taskgraph::yproxy::acquire_mutation_scope(&doc, "adopt").unwrap();
    assert!(YDocProxy::new_from_existing_doc(doc.clone(), &txn).is_ok());
}

#[test]
fn adopting_doc_without_graph_fails() {
    let doc = yrs::Doc::new();
    let txn = taskgraph::yproxy::acquire_mutation_scope(&doc, "adopt").unwrap();
    assert_eq!(
        YDocProxy::new_from_existing_doc(doc.clone(), &txn)
            .err()
            .unwrap(),
        Error::MissingField
    );
}
