use cp_progress::{
    App, OperationControl, OperationStats, OperationStatus, PathText, Presenter, StatsChange,
    WorkerEvent, REDRAW_INTERVAL,
};

const MS: u64 = 1_000_000;

fn path(s: &str) -> PathText {
    PathText::new(s.to_string())
}

#[test]
fn fresh_stats_are_empty() {
    let s = OperationStats::new(42);
    assert_eq!(s.files_done, 0);
    assert_eq!(s.bytes_done, 0);
    assert_eq!(*s.files_total.get(), 0);
    assert_eq!(*s.bytes_total.get(), 0);
    assert_eq!(s.current_start, 42);
}

#[test]
fn bytes_done_is_prefix_sum_of_chunks() {
    let mut s = OperationStats::new(0);
    let chunks = [3usize, 0, 17, 5];
    let mut sum = 0usize;
    for c in chunks {
        s.apply(StatsChange::FilesTotal);
        s.apply(StatsChange::Current(path("/a"), c, c, 100));
        sum += c;
        assert_eq!(s.bytes_done, sum);
    }
    assert_eq!(s.bytes_done, 25);
    assert_eq!(s.files_done, 0);
}

#[test]
fn files_done_counts_only_its_events() {
    let mut s = OperationStats::new(0);
    s.apply(StatsChange::FilesDone);
    s.apply(StatsChange::BytesTotal(9));
    s.apply(StatsChange::Current(path("/b"), 4, 4, 9));
    s.apply(StatsChange::FilesDone);
    s.apply(StatsChange::FilesTotal);
    assert_eq!(s.files_done, 2);
    assert_eq!(s.bytes_done, 4);
    assert_eq!(*s.bytes_total.get(), 9);
    assert_eq!(*s.files_total.get(), 1);
    assert_eq!(s.current_done, 4);
    assert_eq!(*s.current_total.get(), 9);
    assert_eq!(s.current_path.get().text, "/b");
}

#[test]
fn counter_overflow_is_refused() {
    let mut s = OperationStats::new(0);
    s.apply(StatsChange::BytesTotal(usize::MAX));
    assert!(!s.fits(&StatsChange::BytesTotal(1)));
    assert!(s.fits(&StatsChange::BytesTotal(0)));
    assert!(s.fits(&StatsChange::FilesDone));
    s.files_done = usize::MAX;
    assert!(!s.fits(&StatsChange::FilesDone));
}

#[test]
fn updates_closer_than_interval_redraw_once() {
    let mut p = Presenter::new(0);
    let mut s = OperationStats::new(0);
    assert!(p.update(&mut s, 100 * MS).is_some());
    assert!(p.update(&mut s, 150 * MS).is_none());
    assert_eq!(p.last_update, 100 * MS);
}

#[test]
fn updates_an_interval_apart_redraw_twice() {
    let mut p = Presenter::new(0);
    let mut s = OperationStats::new(0);
    assert!(p.update(&mut s, 100 * MS).is_some());
    assert!(p.update(&mut s, 100 * MS + REDRAW_INTERVAL).is_some());
    assert!(p.update(&mut s, 100 * MS + REDRAW_INTERVAL + 96 * MS).is_none());
}

#[test]
fn first_update_waits_for_interval_after_start() {
    let mut p = Presenter::new(10 * MS);
    let mut s = OperationStats::new(0);
    assert!(p.update(&mut s, 50 * MS).is_none());
    assert!(p.update(&mut s, 5 * MS).is_none());
    assert!(p.update(&mut s, 107 * MS).is_some());
}

#[test]
fn redraw_reports_new_file_and_totals() {
    let mut p = Presenter::new(0);
    let mut s = OperationStats::new(0);
    s.apply(StatsChange::FilesTotal);
    s.apply(StatsChange::BytesTotal(4096));
    s.apply(StatsChange::Current(path("/src/x"), 2048, 2048, 4096));
    s.current_start = 0;
    let d = p.update(&mut s, 2_000 * MS).unwrap();
    assert_eq!(d.name.as_deref(), Some("/src/x"));
    assert_eq!(d.current_len, Some(4096));
    assert_eq!(d.current_pos, 2048);
    assert_eq!(d.files_len, Some(1));
    assert_eq!(d.files_pos, 0);
    assert_eq!(d.bytes_len, Some(4096));
    assert_eq!(d.bytes_pos, 2048);
    // the new file starts now, so no time has passed on it yet
    assert_eq!(d.current_message, "0B/s");
    assert_eq!(s.current_start, 2_000 * MS);

    let d = p.update(&mut s, 4_000 * MS).unwrap();
    assert_eq!(d.name, None);
    assert_eq!(d.current_len, None);
    assert_eq!(d.files_len, None);
    assert_eq!(d.bytes_len, None);
    assert_eq!(d.current_message, "1.00KB/s");
}

#[test]
fn three_files_end_to_end() {
    let mut app = App::new(0);
    let mut events = vec![
        WorkerEvent::Stat(StatsChange::FilesTotal),
        WorkerEvent::Stat(StatsChange::FilesTotal),
        WorkerEvent::Stat(StatsChange::FilesTotal),
        WorkerEvent::Stat(StatsChange::BytesTotal(10)),
        WorkerEvent::Stat(StatsChange::BytesTotal(20)),
        WorkerEvent::Stat(StatsChange::BytesTotal(30)),
    ];
    for (name, size) in [("/r/a", 10usize), ("/r/b", 20), ("/r/c", 30)] {
        events.push(WorkerEvent::Stat(StatsChange::Current(path(name), size, size, size)));
        events.push(WorkerEvent::Stat(StatsChange::FilesDone));
    }
    let mut now = 0u64;
    for e in events {
        now += 50 * MS;
        assert!(app.accepts(&e));
        let step = app.step(e, now);
        assert_eq!(step.reply, None);
    }
    assert_eq!(app.stats.files_done, 3);
    assert_eq!(app.stats.bytes_done, 60);
    assert_eq!(*app.stats.files_total.get(), 3);
    assert_eq!(*app.stats.bytes_total.get(), 60);
    let line = app.summary(2_000 * MS);
    assert_eq!(line, "copied 3 files (60B) in 2 seconds 30B/s");
    assert!(line.starts_with("copied 3 files (60B) in "));
}

#[test]
fn error_gets_one_skip() {
    let mut app = App::new(0);
    let e = WorkerEvent::Status(OperationStatus::Error("disk full".to_string()));
    assert!(app.accepts(&e));
    let step = app.step(e, 10 * MS);
    assert_eq!(step.reply, Some(OperationControl::Skip));
    assert_eq!(app.error_ask("disk full".to_string()), OperationControl::Skip);
}

#[test]
fn other_events_get_no_reply() {
    let mut app = App::new(0);
    let step = app.step(WorkerEvent::Status(OperationStatus::Other), 200 * MS);
    assert_eq!(step.reply, None);
    assert!(step.redraw.is_some());
    let step = app.step(WorkerEvent::Stat(StatsChange::FilesDone), 210 * MS);
    assert_eq!(step.reply, None);
    assert!(step.redraw.is_none());
    assert_eq!(app.stats.files_done, 1);
}

#[test]
fn summary_of_empty_copy() {
    let app = App::new(5 * MS);
    assert_eq!(app.summary(5 * MS), "copied 0 files (0B) in 0 seconds 0B/s");
}
