use toggl_timeular::import::{examine, Action, ImportRun, Verdict};
use toggl_timeular::mapping::{ActivityMapper, ActivityMapping};
use toggl_timeular::time::{Instant, Zone};
use toggl_timeular::timeular::{CreateTimeEntryRequest, Note};
use toggl_timeular::toggl::{DateTimeError, TogglTimeEntry};

fn the_zone() -> Zone {
    Zone::parse("Europe/Berlin").expect("the database has Europe/Berlin")
}

fn the_rules() -> ActivityMapper {
    ActivityMapper::new(vec![
        ActivityMapping {
            project: "Acme".to_string(),
            description: Some("Call".to_string()),
            activity_id: "A1".to_string(),
        },
        ActivityMapping {
            project: "Acme".to_string(),
            description: None,
            activity_id: "A2".to_string(),
        },
    ])
}

fn on_new_year(
    project: &str,
    description: &str,
    start_time: &str,
    end_time: &str,
) -> TogglTimeEntry {
    TogglTimeEntry {
        user: "Jo".to_string(),
        email: "jo@example.org".to_string(),
        client: "".to_string(),
        project: project.to_string(),
        task: "".to_string(),
        description: description.to_string(),
        billable: "No".to_string(),
        start_date: "2024-01-01".to_string(),
        start_time: start_time.to_string(),
        end_date: "2024-01-01".to_string(),
        end_time: end_time.to_string(),
        duration: "".to_string(),
        tags: "".to_string(),
        amount: "".to_string(),
    }
}

fn request(
    activity_id: &str,
    started_at: &str,
    stopped_at: &str,
    note: &str,
) -> CreateTimeEntryRequest {
    CreateTimeEntryRequest {
        activity_id: activity_id.to_string(),
        started_at: started_at.to_string(),
        stopped_at: stopped_at.to_string(),
        note: Note { text: note.to_string() },
    }
}

#[test]
fn entry_of_thirty_seconds_is_skipped_whatever_the_rules() {
    let entry = on_new_year("Acme", "Call", "09:00:00", "09:00:30");
    assert_eq!(examine(&entry, &the_zone(), &the_rules()), Ok(Verdict::TooShort));
    assert_eq!(
        examine(&entry, &the_zone(), &ActivityMapper::new(Vec::new())),
        Ok(Verdict::TooShort)
    );
    let unknown = on_new_year("Globex", "Call", "09:00:00", "09:00:30");
    assert_eq!(examine(&unknown, &the_zone(), &the_rules()), Ok(Verdict::TooShort));
}

#[test]
fn skipped_entry_is_neither_counted_nor_kept() {
    for dry_run in [true, false] {
        let mut run = ImportRun::new(dry_run);
        let entry = on_new_year("Globex", "Call", "09:00:00", "09:00:30");
        assert_eq!(
            run.accept(entry.clone(), &the_zone(), &the_rules()),
            Ok(Action::SkipShort(entry))
        );
        assert_eq!(run.imported_count(), 0);
        assert_eq!(run.skipped_count(), 1);
        assert!(!run.has_unmapped());
        assert!(run.unmapped_entries().is_empty());
    }
}

#[test]
fn entry_of_exactly_a_minute_is_too_short() {
    let minute = on_new_year("Acme", "Call", "09:00:00", "09:01:00");
    assert_eq!(examine(&minute, &the_zone(), &the_rules()), Ok(Verdict::TooShort));
    let longer = on_new_year("Acme", "Call", "09:00:00", "09:01:01");
    assert_eq!(
        examine(&longer, &the_zone(), &the_rules()),
        Ok(Verdict::Mapped(request(
            "A1",
            "2024-01-01T08:00:00.000",
            "2024-01-01T08:01:01.000",
            "Call"
        )))
    );
}

#[test]
fn entry_that_ends_before_it_starts_is_too_short() {
    let backwards = on_new_year("Acme", "Call", "10:00:00", "09:00:00");
    assert_eq!(examine(&backwards, &the_zone(), &the_rules()), Ok(Verdict::TooShort));
    let empty = on_new_year("Acme", "Call", "10:00:00", "10:00:00");
    assert_eq!(examine(&empty, &the_zone(), &the_rules()), Ok(Verdict::TooShort));
}

#[test]
fn mapped_entry_becomes_a_request_in_utc() {
    let entry = on_new_year("Acme", "call", "09:00:00", "10:00:00");
    assert_eq!(
        examine(&entry, &the_zone(), &the_rules()),
        Ok(Verdict::Mapped(request(
            "A1",
            "2024-01-01T08:00:00.000",
            "2024-01-01T09:00:00.000",
            "call"
        )))
    );
    let other = on_new_year("Acme", "Email", "00:30:00", "02:00:00");
    assert_eq!(
        examine(&other, &the_zone(), &the_rules()),
        Ok(Verdict::Mapped(request(
            "A2",
            "2023-12-31T23:30:00.000",
            "2024-01-01T01:00:00.000",
            "Email"
        )))
    );
}

#[test]
fn entry_without_a_rule_is_unmapped() {
    let entry = on_new_year("Globex", "Call", "09:00:00", "10:00:00");
    assert_eq!(examine(&entry, &the_zone(), &the_rules()), Ok(Verdict::Unmapped));
}

#[test]
fn unmapped_entry_is_kept_and_not_counted() {
    for dry_run in [true, false] {
        let mut run = ImportRun::new(dry_run);
        let first = on_new_year("Globex", "Call", "09:00:00", "10:00:00");
        let second = on_new_year("Initech", "Mail", "11:00:00", "12:00:00");
        assert_eq!(run.accept(first.clone(), &the_zone(), &the_rules()), Ok(Action::KeepUnmapped));
        assert_eq!(run.accept(second.clone(), &the_zone(), &the_rules()), Ok(Action::KeepUnmapped));
        assert_eq!(run.imported_count(), 0);
        assert_eq!(run.skipped_count(), 0);
        assert!(run.has_unmapped());
        assert_eq!(run.unmapped_entries(), &vec![first, second]);
    }
}

#[test]
fn dry_run_reports_and_never_sends() {
    let mut run = ImportRun::new(true);
    assert!(run.is_dry_run());
    let entry = on_new_year("Acme", "Call", "09:00:00", "10:00:00");
    assert_eq!(
        run.accept(entry, &the_zone(), &the_rules()),
        Ok(Action::Record(request(
            "A1",
            "2024-01-01T08:00:00.000",
            "2024-01-01T09:00:00.000",
            "Call"
        )))
    );
    assert_eq!(run.imported_count(), 1);
    assert!(run.unmapped_entries().is_empty());
}

#[test]
fn real_run_sends_each_mapped_entry() {
    let mut run = ImportRun::new(false);
    assert!(!run.is_dry_run());
    let entry = on_new_year("Acme", "Lunch", "12:00:00", "13:00:00");
    assert_eq!(
        run.accept(entry, &the_zone(), &the_rules()),
        Ok(Action::Submit(request(
            "A2",
            "2024-01-01T11:00:00.000",
            "2024-01-01T12:00:00.000",
            "Lunch"
        )))
    );
    assert_eq!(run.imported_count(), 1);
}

#[test]
fn run_sends_once_for_each_entry_that_is_mapped_and_long_enough() {
    let entries = vec![
        on_new_year("Acme", "Call", "09:00:00", "10:00:00"),
        on_new_year("Acme", "Call", "10:00:00", "10:00:59"),
        on_new_year("Globex", "Call", "10:00:00", "11:00:00"),
        on_new_year("Acme", "Mail", "11:00:00", "11:30:00"),
        on_new_year("Acme", "Mail", "11:30:00", "11:31:00"),
        on_new_year("Acme", "CALL", "13:00:00", "14:00:00"),
    ];
    for dry_run in [true, false] {
        let mut run = ImportRun::new(dry_run);
        let mut sent = Vec::new();
        let mut reported = Vec::new();
        let mut skipped = 0;
        for entry in entries.clone() {
            match run.accept(entry, &the_zone(), &the_rules()).expect("the times are fine") {
                Action::Submit(request) => sent.push(request.activity_id),
                Action::Record(request) => reported.push(request.activity_id),
                Action::SkipShort(_) => skipped += 1,
                Action::KeepUnmapped => {}
            }
        }
        let mapped = vec!["A1".to_string(), "A2".to_string(), "A1".to_string()];
        if dry_run {
            assert!(sent.is_empty());
            assert_eq!(reported, mapped);
        } else {
            assert_eq!(sent, mapped);
            assert!(reported.is_empty());
        }
        assert_eq!(skipped, 2);
        assert_eq!(run.skipped_count(), 2);
        assert_eq!(run.imported_count(), 3);
        assert_eq!(run.unmapped_entries().len(), 1);
        assert_eq!(run.unmapped_entries()[0].project, "Globex");
    }
}

#[test]
fn bad_time_is_an_error_and_leaves_the_run_as_it_was() {
    let mut run = ImportRun::new(false);
    let good = on_new_year("Globex", "Call", "09:00:00", "10:00:00");
    assert_eq!(run.accept(good.clone(), &the_zone(), &the_rules()), Ok(Action::KeepUnmapped));
    let bad_start = on_new_year("Acme", "Call", "9 o'clock", "10:00:00");
    assert_eq!(
        run.accept(bad_start, &the_zone(), &the_rules()),
        Err(DateTimeError::PatternMismatch { text: "2024-01-01 9 o'clock".to_string() })
    );
    let bad_end = on_new_year("Acme", "Call", "09:00:00", "25:00:00");
    assert_eq!(
        run.accept(bad_end, &the_zone(), &the_rules()),
        Err(DateTimeError::PatternMismatch { text: "2024-01-01 25:00:00".to_string() })
    );
    assert_eq!(run.imported_count(), 0);
    assert_eq!(run.skipped_count(), 0);
    assert_eq!(run.unmapped_entries(), &vec![good]);
}

#[test]
fn bad_start_is_reported_before_bad_end() {
    let both = on_new_year("Acme", "Call", "start", "end");
    assert_eq!(
        examine(&both, &the_zone(), &the_rules()),
        Err(DateTimeError::PatternMismatch { text: "2024-01-01 start".to_string() })
    );
}

#[test]
fn bad_time_is_an_error_even_for_an_entry_without_a_rule() {
    let mut entry = on_new_year("Globex", "Call", "09:00:00", "10:00:00");
    entry.end_date = "2024-03-31".to_string();
    entry.end_time = "02:30:00".to_string();
    assert_eq!(
        examine(&entry, &the_zone(), &the_rules()),
        Err(DateTimeError::AmbiguousOrInvalidLocalTime { text: "2024-03-31 02:30:00".to_string() })
    );
}

#[test]
fn verdict_looks_at_the_length_before_the_activity() {
    let start = Instant::from_millis(1_704_096_000_000);
    let half_a_minute = Instant::from_millis(1_704_096_030_000);
    let an_hour = Instant::from_millis(1_704_099_600_000);
    let started = "2024-01-01T08:00:00.000Z";
    let stopped = "2024-01-01T09:00:00.000Z";
    assert_eq!(
        Verdict::of(&start, &half_a_minute, Some("A1".to_string()), started, stopped, "Call"),
        Verdict::TooShort
    );
    assert_eq!(
        Verdict::of(&start, &half_a_minute, None, started, stopped, "Call"),
        Verdict::TooShort
    );
    assert_eq!(Verdict::of(&start, &an_hour, None, started, stopped, "Call"), Verdict::Unmapped);
    assert_eq!(
        Verdict::of(&start, &an_hour, Some("A1".to_string()), started, stopped, "Call"),
        Verdict::Mapped(request("A1", "2024-01-01T08:00:00.000", "2024-01-01T09:00:00.000", "Call"))
    );
}

#[test]
fn record_turns_a_verdict_into_an_action() {
    let entry = on_new_year("Acme", "Call", "09:00:00", "10:00:00");
    let what = request("A1", "2024-01-01T08:00:00.000", "2024-01-01T09:00:00.000", "Call");

    let mut dry = ImportRun::new(true);
    assert_eq!(dry.record(entry.clone(), Verdict::TooShort), Action::SkipShort(entry.clone()));
    assert_eq!(dry.record(entry.clone(), Verdict::Unmapped), Action::KeepUnmapped);
    assert_eq!(
        dry.record(entry.clone(), Verdict::Mapped(what.clone())),
        Action::Record(what.clone())
    );
    assert_eq!(dry.imported_count(), 1);
    assert_eq!(dry.skipped_count(), 1);
    assert_eq!(dry.unmapped_entries(), &vec![entry.clone()]);

    let mut real = ImportRun::new(false);
    assert_eq!(real.record(entry.clone(), Verdict::TooShort), Action::SkipShort(entry.clone()));
    assert_eq!(real.record(entry.clone(), Verdict::Unmapped), Action::KeepUnmapped);
    assert_eq!(
        real.record(entry.clone(), Verdict::Mapped(what.clone())),
        Action::Submit(what.clone())
    );
    assert_eq!(
        real.record(entry.clone(), Verdict::Mapped(what.clone())),
        Action::Submit(what)
    );
    assert_eq!(real.imported_count(), 2);
    assert_eq!(real.skipped_count(), 1);
    assert_eq!(real.unmapped_entries(), &vec![entry]);
}

#[test]
fn new_run_has_seen_nothing() {
    let run = ImportRun::new(true);
    assert!(run.is_dry_run());
    assert_eq!(run.imported_count(), 0);
    assert_eq!(run.skipped_count(), 0);
    assert!(!run.has_unmapped());
    assert!(run.unmapped_entries().is_empty());
    assert!(!ImportRun::new(false).is_dry_run());
}
