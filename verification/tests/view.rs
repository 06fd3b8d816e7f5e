use flow::app::App;
use flow::task::{Task, TaskStore};
use flow::view::{dashboard_stats, selected_task, task_rows, uptime, TaskRow, Uptime};

fn task(id: usize, completed: bool) -> Task {
    Task { id, title: format!("t{}", id), completed, created_at: String::new() }
}

#[test]
fn stats_count_completed_and_pending() {
    let tasks = vec![task(1, true), task(2, false), task(3, true), task(4, false), task(5, false)];
    let s = dashboard_stats(&tasks);
    assert_eq!((s.total, s.completed, s.pending), (5, 2, 3));
    let e = dashboard_stats(&Vec::new());
    assert_eq!((e.total, e.completed, e.pending), (0, 0, 0));
}

#[test]
fn rows_mark_selection_and_completion() {
    let mut app = App::new(TaskStore::new(Some(vec![task(1, true), task(2, false)])));
    app.selected_task_index = 1;
    let rows = task_rows(&app);
    assert_eq!(rows, vec![
        TaskRow { selected: false, completed: true },
        TaskRow { selected: true, completed: false },
    ]);
}

#[test]
fn details_only_for_existing_selection() {
    let mut app = App::new(TaskStore::new(Some(vec![task(1, true), task(2, false)])));
    assert_eq!(selected_task(&app), Some(0));
    app.selected_task_index = 2;
    assert_eq!(selected_task(&app), None);
    let empty = App::new(TaskStore::new(None));
    assert_eq!(selected_task(&empty), None);
}

#[test]
fn uptime_splits_seconds() {
    assert_eq!(uptime(0), Uptime { hours: 0, minutes: 0, seconds: 0 });
    assert_eq!(uptime(3725), Uptime { hours: 1, minutes: 2, seconds: 5 });
    assert_eq!(uptime(90061), Uptime { hours: 25, minutes: 1, seconds: 1 });
    assert_eq!(uptime(-61), Uptime { hours: 0, minutes: -1, seconds: -1 });
}


use flow::clock::Timestamp;
use flow::view::elapsed_seconds;

#[test]
fn elapsed_seconds_counts_whole_seconds_toward_zero() {
    let t = |secs: i64, nanos: u32| Timestamp { secs, nanos };
    assert_eq!(elapsed_seconds(t(1_700_000_000, 0), t(1_700_003_725, 0)), 3725);
    assert_eq!(elapsed_seconds(t(1_700_000_000, 900_000_000), t(1_700_000_001, 100_000_000)), 0);
    assert_eq!(elapsed_seconds(t(1_700_000_000, 100_000_000), t(1_700_000_002, 0)), 1);
    assert_eq!(elapsed_seconds(t(1_700_000_002, 0), t(1_700_000_000, 500_000_000)), -1);
    assert_eq!(elapsed_seconds(t(i64::MAX, 0), t(0, 0)), 0);
}

#[test]
fn uptime_now_of_fresh_app_is_small() {
    let app = App::new(TaskStore::new(None));
    let u = app.uptime_now();
    assert_eq!((u.hours, u.minutes), (0, 0));
    assert!(u.seconds >= 0 && u.seconds < 5);
}
