use glt::Date;
use glt::Error;
use glt::Store;
use glt::Time;

fn names(list: &[&str]) -> Vec<String> {
    list.iter().map(|s| s.to_string()).collect()
}

#[test]
fn begin_succeeds_on_fresh_root() {
    let mut store = Store::new();
    let r = store.create_working_file(Date(2024, 3, 10), Time(9, 0));
    let commit = r.unwrap();
    assert_eq!(commit.date, Date(2024, 3, 10));
    assert_eq!(commit.start_time, Time(9, 0));
    assert!(commit.end_time.is_none());
    assert!(commit.message.is_none());
    assert!(commit.participants.is_empty());
}

#[test]
fn begin_twice_fails_already_open() {
    let mut store = Store::new();
    store.create_working_file(Date(2024, 3, 10), Time(9, 0)).unwrap();
    let r = store.create_working_file(Date(2024, 3, 11), Time(10, 0));
    assert_eq!(r.unwrap_err(), Error::AlreadyOpen);
}

#[test]
fn read_mutate_discard_fail_iff_no_open_session() {
    let mut store = Store::new();
    assert_eq!(store.get_working_commit().unwrap_err(), Error::NoOpenSession);
    assert_eq!(store.add(&names(&["Alice"]), Time(9, 0)).unwrap_err(), Error::NoOpenSession);
    assert_eq!(store.rm(&names(&["Alice"])).unwrap_err(), Error::NoOpenSession);
    assert_eq!(store.remove_working_commit().unwrap_err(), Error::NoOpenSession);
    store.create_working_file(Date(2024, 3, 10), Time(9, 0)).unwrap();
    assert!(store.get_working_commit().is_ok());
    assert!(store.add(&names(&["Alice"]), Time(9, 5)).is_ok());
    assert!(store.rm(&names(&["Alice"])).is_ok());
    assert!(store.remove_working_commit().is_ok());
    assert_eq!(store.get_working_commit().unwrap_err(), Error::NoOpenSession);
}

#[test]
fn adding_a_name_twice_in_one_call_adds_it_once() {
    let mut store = Store::new();
    store.create_working_file(Date(2024, 3, 10), Time(9, 0)).unwrap();
    let added = store.add(&names(&["Alice", "Alice"]), Time(9, 5)).unwrap();
    assert_eq!(added, vec!["Alice".to_string()]);
    let commit = store.get_working_commit().unwrap();
    assert_eq!(commit.participants.len(), 1);
    assert_eq!(commit.participants[0].name, "Alice");
    assert_eq!(commit.participants[0].commit_time, Time(9, 5));
}

#[test]
fn adding_a_present_name_is_skipped_silently() {
    let mut store = Store::new();
    store.create_working_file(Date(2024, 3, 10), Time(9, 0)).unwrap();
    store.add(&names(&["Alice"]), Time(9, 5)).unwrap();
    let added = store.add(&names(&["Alice", "Bob"]), Time(10, 0)).unwrap();
    assert_eq!(added, vec!["Bob".to_string()]);
    let commit = store.get_working_commit().unwrap();
    assert_eq!(commit.participants.len(), 2);
    assert_eq!(commit.participants[0].commit_time, Time(9, 5));
}

#[test]
fn remove_deletes_every_match_and_ignores_absent_names() {
    let mut store = Store::new();
    store.create_working_file(Date(2024, 3, 10), Time(9, 0)).unwrap();
    store.add(&names(&["Alice", "Bob"]), Time(9, 5)).unwrap();
    store.rm(&names(&["Alice"])).unwrap();
    let commit = store.get_working_commit().unwrap();
    assert_eq!(commit.participants.len(), 1);
    assert_eq!(commit.participants[0].name, "Bob");
    assert!(store.rm(&names(&["Nobody"])).is_ok());
    let commit = store.get_working_commit().unwrap();
    assert_eq!(commit.participants.len(), 1);
}

#[test]
fn finalize_closes_the_session_and_files_one_record() {
    let mut store = Store::new();
    store.create_working_file(Date(2024, 3, 10), Time(9, 0)).unwrap();
    let sealed = store.commit_a_day(Time(18, 0), "done".to_string()).unwrap();
    assert_eq!(sealed.end_time, Some(Time(18, 0)));
    assert_eq!(sealed.message, Some("done".to_string()));
    assert_eq!(store.get_working_commit().unwrap_err(), Error::NoOpenSession);
    assert_eq!(store.day_archive.len(), 1);
    let second = store.commit_a_day(Time(19, 0), "again".to_string());
    assert_eq!(second.unwrap_err(), Error::NoOpenSession);
    assert_eq!(store.day_archive.len(), 1);
}

#[test]
fn same_day_of_month_gets_a_numeric_suffix() {
    let mut store = Store::new();
    store.create_working_file(Date(2024, 3, 10), Time(9, 0)).unwrap();
    store.commit_a_day(Time(18, 0), "march".to_string()).unwrap();
    store.create_working_file(Date(2024, 4, 10), Time(9, 0)).unwrap();
    store.commit_a_day(Time(18, 0), "april".to_string()).unwrap();
    assert_eq!(store.day_archive[0].name.to_file_name(), "10.json");
    assert_eq!(store.day_archive[1].name.to_file_name(), "10_1.json");
    store.create_working_file(Date(2024, 5, 10), Time(9, 0)).unwrap();
    store.commit_a_day(Time(18, 0), "may".to_string()).unwrap();
    assert_eq!(store.day_archive[2].name.to_file_name(), "10_2.json");
}

#[test]
fn discard_deletes_the_open_record_without_archiving() {
    let mut store = Store::new();
    store.create_working_file(Date(2024, 3, 10), Time(9, 0)).unwrap();
    store.remove_working_commit().unwrap();
    assert_eq!(store.get_working_commit().unwrap_err(), Error::NoOpenSession);
    assert_eq!(store.day_archive.len(), 0);
}

#[test]
fn archive_month_moves_every_record_under_year_and_month() {
    let mut store = Store::new();
    store.create_working_file(Date(2024, 3, 10), Time(9, 0)).unwrap();
    store.commit_a_day(Time(18, 0), "first".to_string()).unwrap();
    store.create_working_file(Date(2024, 3, 11), Time(10, 0)).unwrap();
    store.commit_a_day(Time(19, 0), "second".to_string()).unwrap();
    let names_before: Vec<String> =
        store.day_archive.iter().map(|e| e.name.to_file_name()).collect();
    store.push_a_month().unwrap();
    assert_eq!(store.day_archive.len(), 0);
    assert_eq!(store.monthly.len(), 2);
    for (i, entry) in store.monthly.iter().enumerate() {
        assert_eq!(entry.year, 2024);
        assert_eq!(entry.month, 3);
        assert_eq!(entry.name.to_file_name(), names_before[i]);
    }
    assert_eq!(store.monthly[0].commit.message, Some("first".to_string()));
    assert_eq!(store.monthly[1].commit.message, Some("second".to_string()));
}

#[test]
fn archive_month_fails_on_an_empty_area() {
    let mut store = Store::new();
    assert_eq!(store.push_a_month().unwrap_err(), Error::EmptyArchive);
}

#[test]
fn listing_fails_only_on_an_empty_area() {
    let mut store = Store::new();
    assert_eq!(store.get_working_directory_commit().unwrap_err(), Error::EmptyLog);
    store.create_working_file(Date(2024, 3, 10), Time(9, 0)).unwrap();
    store.commit_a_day(Time(18, 0), "done".to_string()).unwrap();
    let commits = store.get_working_directory_commit().unwrap();
    assert_eq!(commits.len(), 1);
    assert_eq!(commits[0].message, Some("done".to_string()));
}
