use cloudroom::json::{object, Json};
use cloudroom::observability::metrics::{answer, answer_rows, is_fresh, Range};
use cloudroom::observability::system::{
    busy, cpu, dashboard, disk_share, memory_field, memory_used, readings, share, Disk, Share,
    Times,
};
use cloudroom::observability::{rotates, Observability, Signal, CAPACITY, STDERR_CAPACITY};
use cloudroom::runtime::ExitDetails;
use cloudroom::wire::write_json;

fn fault() -> Signal {
    Signal::HistoryFault { operation: "test".to_owned() }
}

fn percent(share: Option<Share>) -> Option<f64> {
    share.map(|s| s.part as f64 * 100.0 / s.whole as f64)
}

#[test]
fn records_are_numbered() {
    let mut o = Observability::new("run".to_owned(), 5);
    assert_eq!(o.record(7, fault()), "run-1");
    assert_eq!(
        o.record(8, Signal::AgentExit {
            session_id: Some("s".to_owned()),
            expected: true,
            reason: "closed".to_owned(),
            exit_code: Some(0),
        }),
        "run-2"
    );
    let batch = o.collect(9, None);
    assert_eq!(
        write_json(&batch[0]),
        "{\"kind\":\"history_fault\",\"operation\":\"test\",\"run_id\":\"run\",\"sequence\":1,\"timestamp_ms\":7}"
    );
    assert_eq!(
        write_json(&batch[1]),
        "{\"exit_code\":0,\"expected\":true,\"kind\":\"agent_exit\",\"reason\":\"closed\",\"run_id\":\"run\",\"sequence\":2,\"session_id\":\"s\",\"timestamp_ms\":8}"
    );
    assert!(o.queue.is_empty());
}

#[test]
fn overload_is_counted_and_nobody_waits() {
    let mut o = Observability::new("run".to_owned(), 0);
    for _ in 0..CAPACITY * 2 {
        o.record(1, fault());
    }
    assert_eq!(o.queue.len(), CAPACITY);
    assert_eq!(o.dropped, CAPACITY as u64);
    assert!(o.sample_due(0));
    let batch = o.collect(2, Some(object().with("cpu_used_percent", Json::Null)));
    assert_eq!(batch.len(), CAPACITY + 2);
    let own = &batch[CAPACITY + 1];
    assert_eq!(own.field_text("kind"), Some("diagnostics"));
    assert_eq!(own.field("dropped").as_u64(), Some(CAPACITY as u64));
    assert_eq!(batch[CAPACITY].field_text("kind"), Some("resources"));
    assert!(!o.sample_due(10_001));
    assert!(o.sample_due(10_002));
}

#[test]
fn outages_keep_the_last_records() {
    let mut o = Observability::new("run".to_owned(), 0);
    for _ in 0..CAPACITY {
        o.record(1, fault());
    }
    let first = o.collect(2, None);
    o.hand_on(first, true);
    o.uploaded(false);
    for _ in 0..10 {
        o.record(3, fault());
    }
    let second = o.collect(4, None);
    o.hand_on(second, false);
    assert_eq!(o.pending.len(), CAPACITY);
    assert_eq!(o.dropped, 10);
    assert_eq!(o.pending[0].field("sequence").as_u64(), Some(11));
    assert_eq!((o.local_write_failures, o.upload_failures), (1, 1));
    o.uploaded(true);
    assert!(o.pending.is_empty());
}

#[test]
fn nothing_is_taken_after_the_end() {
    let mut o = Observability::new("run".to_owned(), 0);
    o.close();
    o.record(1, fault());
    assert_eq!((o.queue.len(), o.dropped), (0, 1));
    assert!(!o.sample_due(1_000_000));
    assert!(!o.prune_due(1_000_000));
    let mut p = Observability::new("run".to_owned(), 0);
    assert!(p.prune_due(0));
    p.pruned(false, 0);
    assert_eq!(p.upload_failures, 1);
    assert!(!p.prune_due(3_599_999));
    assert!(p.prune_due(3_600_000));
}

#[test]
fn files_are_set_aside_when_they_are_full() {
    assert!(!rotates(0, 6, 12));
    assert!(rotates(6, 7, 12));
    assert!(rotates(7, 6, 12));
    assert!(!rotates(6, 6, 12));
    assert!(rotates(u64::MAX, 1, u64::MAX));
}

#[test]
fn processor_times_are_read() {
    let text = "cpu  10 20 30 40 5 6 7 8 9 10\ncpu0 1 2 3\n";
    assert_eq!(cpu(text), Some(Times { total: 126, idle: 45 }));
    assert_eq!(cpu("cpu0 1 2 3 4 5 6 7 8"), None);
    assert_eq!(cpu("cpu 1 2 3 4 5 6 7"), None);
    assert_eq!(cpu("cpu 1 2 3 4 5 6 7 x"), None);
    assert_eq!(cpu(""), None);
    assert_eq!(cpu("cpu 18446744073709551615 1 0 0 0 0 0 0"), None);
    let before = Some(Times { total: 100, idle: 40 });
    let after = Some(Times { total: 200, idle: 65 });
    assert_eq!(busy(after, before), Some(Share { part: 75, whole: 100 }));
    assert_eq!(busy(before, before), None);
    assert_eq!(busy(before, after), None);
    assert_eq!(busy(after, None), None);
}

#[test]
fn memory_is_read() {
    let text = "MemTotal:  16 kB\nMemAvailable: x kB\nMemAvailable: 4 kB\n";
    assert_eq!(memory_field(text, "MemTotal:"), Some(16384));
    assert_eq!(memory_field(text, "MemAvailable:"), Some(4096));
    assert_eq!(memory_field(text, "SwapTotal:"), None);
    assert_eq!(memory_field("MemTotal: 18446744073709551615 kB", "MemTotal:"), None);
    assert_eq!(memory_used(Some(16), Some(4)), Some(12));
    assert_eq!(memory_used(Some(4), Some(16)), None);
    assert_eq!(share(Some(1), Some(0)), None);
    assert_eq!(share(Some(3), Some(2)), None);
}

#[test]
fn disk_percentage_excludes_reserved_blocks() {
    let mut disk = Some(Disk { total_bytes: 80, used_bytes: 77, available_bytes: 0 });
    assert_eq!(percent(disk_share(disk)), Some(100.0));
    disk = Some(Disk { total_bytes: 80, used_bytes: 38, available_bytes: 38 });
    assert_eq!(percent(disk_share(disk)), Some(50.0));
    disk = None;
    assert!(percent(disk_share(disk)).is_none());
}

#[test]
fn the_dashboard_shows_bytes() {
    let disk = Some(Disk { total_bytes: 80, used_bytes: 38, available_bytes: 38 });
    let shown = dashboard(Json::Null, Json::Null, Json::uint(50), Some(1), None, disk);
    assert_eq!(
        write_json(&shown),
        "{\"cpu\":null,\"disk\":50,\"diskAvailableBytes\":38,\"diskTotalBytes\":80,\"memory\":null,\"memoryTotalBytes\":null,\"memoryUsedBytes\":1}"
    );
}

#[test]
fn ranges_begin_where_buckets_do() {
    assert_eq!(Range::Hour.window(), (3_600_000, 30_000));
    assert_eq!(Range::Month.window(), (2_592_000_000, 10_800_000));
    assert_eq!(Range::named(None), Some(Range::Hour));
    assert_eq!(Range::named(Some("7d")), Some(Range::Week));
    assert_eq!(Range::named(Some("8d")), None);
    assert_eq!(Range::Hour.start(3_661_234), 60_000);
    assert_eq!(Range::Day.start(5), 0);
    assert!(is_fresh(100, 30_099));
    assert!(!is_fresh(100, 30_100));
    assert_eq!(
        write_json(&answer(Range::Hour, 3_661_234, vec![Json::Null])),
        "{\"bucketMs\":30000,\"from\":60000,\"points\":[null],\"range\":\"1h\",\"to\":3661234,\"version\":1}"
    );
}

#[test]
fn error_output_is_kept_apart() {
    let mut o = Observability::new("run".to_owned(), 0);
    let mut details = ExitDetails::new();
    details.code = Some(42);
    details.capture(b"SYNTHETIC-PRIVATE");
    for _ in 0..STDERR_CAPACITY * 2 {
        let reason = "harness process exited".to_owned();
        o.agent_exit(1, Some("fixture".to_owned()), false, reason, &details);
    }
    assert_eq!(o.stderr.len(), STDERR_CAPACITY);
    assert_eq!(o.dropped, STDERR_CAPACITY as u64);
    let kept = o.collect_stderr();
    let told = o.collect(2, None);
    assert_eq!(told.len(), STDERR_CAPACITY * 2);
    for (private, public) in kept.iter().zip(&told) {
        assert_eq!(private.field_text("stderr"), Some("SYNTHETIC-PRIVATE"));
        assert_eq!(private.field_text("run_id"), public.field_text("run_id"));
        assert_eq!(private.field("sequence").as_u64(), public.field("sequence").as_u64());
        assert_eq!(public.field("exit_code").as_u64(), Some(42));
        assert!(!write_json(public).contains("SYNTHETIC") && public.get("stderr").is_none());
    }
    assert!(o.collect_stderr().is_empty());
}

#[test]
fn rows_of_the_database_are_points() {
    let rows = vec!["{\"at\":1}".to_owned(), "{\"at\":2}".to_owned()];
    let told = answer_rows(Range::Hour, 7_200_000, &rows).unwrap();
    assert_eq!(write_json(told.field("points")), "[{\"at\":1},{\"at\":2}]");
    assert_eq!(told.field("from").as_u64(), Some(3_600_000));
    assert_eq!(told.field("bucketMs").as_u64(), Some(30_000));
    let rows = vec!["1".to_owned(), "{".to_owned(), "[".to_owned()];
    assert_eq!(
        answer_rows(Range::Day, 5, &rows).unwrap_err().message,
        "EOF while parsing an object at line 1 column 1"
    );
    let none = answer_rows(Range::Week, 5, &Vec::new()).unwrap();
    assert_eq!(write_json(none.field("points")), "[]");
}

#[test]
fn readings_tell_of_machine_and_agents() {
    let disk = Disk { total_bytes: 3, used_bytes: 1, available_bytes: 2 };
    let agents = Json::Object(object().with("working", Json::uint(4)));
    let all = Json::Object(readings(Json::uint(9), Some(8), None, Some(disk), None, agents));
    assert_eq!(
        write_json(&all),
        "{\"agents\":{\"working\":4},\"cpu_used_percent\":9,\"memory_total_bytes\":8,\"memory_used_bytes\":null,\"state_disk\":null,\"workspace_disk\":{\"available_bytes\":2,\"total_bytes\":3,\"used_bytes\":1}}"
    );
}

#[test]
fn any_number_of_records_can_be_handed_on() {
    let mut o = Observability::new("run".to_owned(), 0);
    let many: Vec<Json> = (0..CAPACITY as u64 + 9).map(Json::uint).collect();
    o.hand_on(many, true);
    assert_eq!(o.pending.len(), CAPACITY);
    assert_eq!(o.pending[0].as_u64(), Some(9));
    assert_eq!(o.dropped, 9);
}
