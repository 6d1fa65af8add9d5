use glt::App;
use glt::Command;
use glt::Date;
use glt::Time;
use glt::TimeDiff;
use glt::i64_to_string;
use glt::u64_to_string;

#[test]
fn numbers_render_in_decimal() {
    assert_eq!(u64_to_string(0), "0");
    assert_eq!(u64_to_string(7), "7");
    assert_eq!(u64_to_string(10), "10");
    assert_eq!(u64_to_string(90123), "90123");
    assert_eq!(i64_to_string(-45), "-45");
    assert_eq!(i64_to_string(0), "0");
}

#[test]
fn time_short_strings_are_unpadded() {
    assert_eq!(Time(9, 5).to_short_str(), "9:5");
    assert_eq!(Time(18, 30).to_short_str(), "18:30");
    assert_eq!(TimeDiff(8, 30).to_short_str(), "8:30");
    assert_eq!(TimeDiff(-1, -30).to_short_str(), "-1:-30");
}

#[test]
fn subtraction_works_through_total_minutes() {
    let d = Time(18, 0).sub(&Time(9, 30));
    assert_eq!(d, TimeDiff(8, 30));
    // The minuend's minutes are smaller than the subtrahend's: no
    // underflow, the difference just borrows an hour.
    let d = Time(10, 10).sub(&Time(9, 50));
    assert_eq!(d, TimeDiff(0, 20));
    // A negative difference carries its sign on both parts.
    let d = Time(9, 0).sub(&Time(10, 30));
    assert_eq!(d, TimeDiff(-1, -30));
}

#[test]
fn from_minutes_splits_hours_and_minutes() {
    assert_eq!(TimeDiff::from_minutes(510), TimeDiff(8, 30));
    assert_eq!(TimeDiff::from_minutes(-90), TimeDiff(-1, -30));
    assert_eq!(TimeDiff::from_minutes(0), TimeDiff(0, 0));
}

#[test]
fn commands_parse_by_keyword_prefix() {
    assert_eq!(Command::from_text("init"), Command::Init);
    assert_eq!(Command::from_text("add Alice Bob"), Command::Add);
    assert_eq!(Command::from_text("rm Alice"), Command::Remove);
    assert_eq!(Command::from_text("status"), Command::Status);
    assert_eq!(Command::from_text("commit worked on docs"), Command::Commit);
    assert_eq!(Command::from_text("reset"), Command::Reset);
    assert_eq!(Command::from_text("log"), Command::Log);
    assert_eq!(Command::from_text("push"), Command::Push);
    assert_eq!(Command::from_text("anything else"), Command::Help);
    assert_eq!(Command::from_text(""), Command::Help);
}

#[test]
fn commands_render_their_keyword() {
    assert_eq!(Command::Init.into_str(), "init");
    assert_eq!(Command::Remove.into_str(), "rm");
    assert_eq!(Command::Help.into_str(), "help");
}

#[test]
fn verify_compares_the_verification_token() {
    let app = App {
        verification_token: "SECRET-REDACTED".to_string(),
        api_token: "unused".to_string(),
        data_path: "/tmp/data".to_string(),
    };
    assert!(app.verify("SECRET-REDACTED"));
    assert!(!app.verify("wrong"));
    assert!(!app.verify(""));
}

#[test]
fn dates_have_calendar_fields() {
    let d = Date(2024, 3, 10);
    assert_eq!(d.0, 2024);
    assert_eq!(d.1, 3);
    assert_eq!(d.2, 10);
}
