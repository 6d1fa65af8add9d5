use glt::DayCommit;
use glt::Date;
use glt::Error;
use glt::Participant;
use glt::Time;
use glt::per_participant;
use glt::total_minutes;

fn record(
    day: u32,
    start: Time,
    end: Option<Time>,
    participants: Vec<(&str, Time)>,
) -> DayCommit {
    DayCommit {
        date: Date(2024, 3, day),
        start_time: start,
        end_time: end,
        message: end.map(|_| "note".to_string()),
        participants: participants
            .into_iter()
            .map(|(name, commit_time)| Participant { commit_time, name: name.to_string() })
            .collect(),
    }
}

#[test]
fn total_hours_sums_sealed_records() {
    let commits = vec![
        record(10, Time(9, 0), Some(Time(18, 0)), vec![]),
        record(11, Time(10, 0), Some(Time(19, 0)), vec![]),
    ];
    // 18 hours in fractional hours is exactly 1080 minutes.
    assert_eq!(total_minutes(&commits).unwrap(), 1080);
}

#[test]
fn a_record_without_an_end_time_contributes_nothing() {
    let commits = vec![
        record(10, Time(9, 0), Some(Time(18, 0)), vec![]),
        record(11, Time(10, 0), None, vec![]),
    ];
    // 9 hours in fractional hours is exactly 540 minutes.
    assert_eq!(total_minutes(&commits).unwrap(), 540);
}

#[test]
fn total_hours_keeps_the_minute_parts() {
    let commits = vec![record(10, Time(9, 30), Some(Time(18, 15)), vec![])];
    assert_eq!(total_minutes(&commits).unwrap(), 8 * 60 + 45);
}

#[test]
fn total_hours_fails_on_an_empty_listing() {
    let commits: Vec<DayCommit> = vec![];
    assert_eq!(total_minutes(&commits).unwrap_err(), Error::EmptyLog);
}

#[test]
fn per_participant_counts_days_and_hours() {
    let commits = vec![
        record(10, Time(8, 0), Some(Time(18, 0)), vec![("Alice", Time(9, 0))]),
        record(11, Time(9, 0), Some(Time(19, 0)), vec![("Alice", Time(10, 0))]),
    ];
    let totals = per_participant(&commits).unwrap();
    assert_eq!(totals.len(), 1);
    assert_eq!(totals[0].name, "Alice");
    assert_eq!(totals[0].days, 2);
    // 18 hours in fractional hours is exactly 1080 minutes.
    assert_eq!(totals[0].minutes, 1080);
}

#[test]
fn per_participant_skips_records_without_an_end_time() {
    let commits = vec![
        record(10, Time(8, 0), Some(Time(18, 0)), vec![("Alice", Time(9, 0))]),
        record(11, Time(9, 0), None, vec![("Alice", Time(10, 0))]),
    ];
    let totals = per_participant(&commits).unwrap();
    assert_eq!(totals[0].days, 1);
    assert_eq!(totals[0].minutes, 540);
}

#[test]
fn per_participant_keeps_first_appearance_order() {
    let commits = vec![
        record(10, Time(8, 0), Some(Time(18, 0)), vec![("Bob", Time(9, 0)), ("Alice", Time(9, 30))]),
        record(11, Time(9, 0), Some(Time(19, 0)), vec![("Alice", Time(10, 0))]),
    ];
    let totals = per_participant(&commits).unwrap();
    assert_eq!(totals.len(), 2);
    assert_eq!(totals[0].name, "Bob");
    assert_eq!(totals[0].days, 1);
    assert_eq!(totals[1].name, "Alice");
    assert_eq!(totals[1].days, 2);
}

#[test]
fn a_join_after_the_end_counts_negative_minutes() {
    let commits = vec![record(10, Time(9, 0), Some(Time(18, 0)), vec![("Late", Time(19, 0))])];
    let totals = per_participant(&commits).unwrap();
    assert_eq!(totals[0].minutes, -60);
}

#[test]
fn per_participant_fails_on_an_empty_listing() {
    let commits: Vec<DayCommit> = vec![];
    assert_eq!(per_participant(&commits).unwrap_err(), Error::EmptyLog);
}
