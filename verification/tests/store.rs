use flow::cli::{run_task_subcommand, CommandOutcome, TaskSubcommand};
use flow::task::{Task, TaskStore};

fn task(id: usize, title: &str, completed: bool) -> Task {
    Task {
        id,
        title: title.to_string(),
        completed,
        created_at: "2024-01-01 00:00:00".to_string(),
    }
}

fn ids(store: &TaskStore) -> Vec<usize> {
    store.tasks.iter().map(|t| t.id).collect()
}

#[test]
fn new_store_keeps_loaded_tasks_or_starts_empty() {
    let store = TaskStore::new(Some(vec![task(3, "a", false), task(7, "b", true)]));
    assert_eq!(ids(&store), vec![3, 7]);
    let empty = TaskStore::new(None);
    assert!(empty.tasks.is_empty());
}

#[test]
fn add_task_takes_next_id_and_trims_title() {
    let mut store = TaskStore::new(Some(vec![task(3, "a", false), task(7, "b", true), task(5, "c", false)]));
    let id = store.add_task("  write report \t\n".to_string());
    assert_eq!(id, 8);
    let last = store.tasks.last().unwrap();
    assert_eq!(last.id, 8);
    assert_eq!(last.title, "write report");
    assert!(!last.completed);
    assert_eq!(store.tasks.len(), 4);
}

#[test]
fn add_task_to_empty_store_starts_at_one() {
    let mut store = TaskStore::new(None);
    assert_eq!(store.add_task("first".to_string()), 1);
    assert_eq!(store.add_task("second".to_string()), 2);
    assert_eq!(ids(&store), vec![1, 2]);
}

#[test]
fn add_task_stamps_creation_time() {
    let mut store = TaskStore::new(None);
    store.add_task("x".to_string());
    let stamp = &store.tasks[0].created_at;
    assert_eq!(stamp.len(), 19);
    assert_eq!(&stamp[4..5], "-");
    assert_eq!(&stamp[10..11], " ");
    assert_eq!(&stamp[13..14], ":");
}

#[test]
fn toggle_flips_first_matching_task_only() {
    let mut store = TaskStore::new(Some(vec![task(1, "a", false), task(2, "b", false), task(2, "c", true)]));
    assert!(store.toggle_task(2));
    assert!(store.tasks[1].completed);
    assert!(store.tasks[2].completed);
    assert!(!store.tasks[0].completed);
    assert!(store.toggle_task(2));
    assert!(!store.tasks[1].completed);
}

#[test]
fn toggle_missing_id_changes_nothing() {
    let mut store = TaskStore::new(Some(vec![task(1, "a", false)]));
    assert!(!store.toggle_task(9));
    assert!(!store.tasks[0].completed);
}

#[test]
fn delete_removes_every_task_with_the_id() {
    let mut store = TaskStore::new(Some(vec![task(1, "a", false), task(2, "b", false), task(3, "c", true), task(2, "d", true)]));
    assert!(store.delete_task(2));
    assert_eq!(ids(&store), vec![1, 3]);
    assert!(!store.delete_task(2));
    assert_eq!(ids(&store), vec![1, 3]);
}

#[test]
fn add_then_delete_restores_the_list() {
    let mut store = TaskStore::new(Some(vec![task(4, "a", false), task(2, "b", true)]));
    let id = store.add_task("temp".to_string());
    assert!(store.delete_task(id));
    assert_eq!(ids(&store), vec![4, 2]);
}

#[test]
fn max_id_and_position() {
    let store = TaskStore::new(Some(vec![task(4, "a", false), task(9, "b", true), task(9, "c", true)]));
    assert_eq!(store.max_id(), 9);
    assert_eq!(store.position_of(9), Some(1));
    assert_eq!(store.position_of(5), None);
    assert_eq!(TaskStore::new(None).max_id(), 0);
}

#[test]
fn subcommands_report_what_they_did() {
    let mut store = TaskStore::new(Some(vec![task(1, "a", false)]));
    let out = run_task_subcommand(&mut store, &TaskSubcommand::Add { title: " b ".to_string() });
    assert_eq!(out, CommandOutcome::Added { id: 2 });
    assert!(out.changed_store());
    assert_eq!(store.tasks[1].title, "b");

    let out = run_task_subcommand(&mut store, &TaskSubcommand::Toggle { id: 2 });
    assert_eq!(out, CommandOutcome::Toggled { id: 2, completed: true });
    let out = run_task_subcommand(&mut store, &TaskSubcommand::Toggle { id: 2 });
    assert_eq!(out, CommandOutcome::Toggled { id: 2, completed: false });

    let out = run_task_subcommand(&mut store, &TaskSubcommand::Toggle { id: 42 });
    assert_eq!(out, CommandOutcome::NotFound { id: 42 });
    assert!(!out.changed_store());

    let out = run_task_subcommand(&mut store, &TaskSubcommand::Delete { id: 1 });
    assert_eq!(out, CommandOutcome::Deleted { id: 1 });
    let out = run_task_subcommand(&mut store, &TaskSubcommand::Delete { id: 1 });
    assert_eq!(out, CommandOutcome::NotFound { id: 1 });

    let out = run_task_subcommand(&mut store, &TaskSubcommand::List);
    assert_eq!(out, CommandOutcome::Listed);
    assert!(!out.changed_store());
    assert_eq!(ids(&store), vec![2]);
}

#[test]
fn tasks_clone_field_by_field() {
    let t = task(5, "copy me", true);
    let c = t.clone();
    assert_eq!((c.id, c.title.as_str(), c.completed, c.created_at.as_str()), (5, "copy me", true, "2024-01-01 00:00:00"));
}

#[test]
fn stamped_task_keeps_the_given_stamp() {
    let mut store = TaskStore::new(Some(vec![task(2, "a", false)]));
    let id = store.add_task_stamped(" b ".to_string(), "2030-05-06 07:08:09".to_string());
    assert_eq!(id, 3);
    let last = store.tasks.last().unwrap();
    assert_eq!((last.id, last.title.as_str(), last.completed, last.created_at.as_str()), (3, "b", false, "2030-05-06 07:08:09"));
}
