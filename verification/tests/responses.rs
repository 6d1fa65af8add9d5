use glt::Date;
use glt::Response;
use glt::ResponseType;
use glt::Store;
use glt::Time;
use glt::add_command;
use glt::commit_command;
use glt::help_command;
use glt::init_command;
use glt::log_command;
use glt::push_command;
use glt::reset_command;
use glt::rm_command;
use glt::status_command;

fn names(list: &[&str]) -> Vec<String> {
    list.iter().map(|s| s.to_string()).collect()
}

fn message_text(r: &Response) -> &str {
    match r {
        Response::Message(m) => &m.text,
        Response::AttachedMessage(_) => panic!("expected a plain message"),
    }
}

#[test]
fn init_announces_the_date_in_channel() {
    let mut store = Store::new();
    let r = init_command(&mut store, Date(2024, 3, 10), Time(9, 0));
    match &r {
        Response::Message(m) => {
            assert!(matches!(m.response_type, ResponseType::InChannel));
            assert_eq!(m.text, "2024년 3월 10일 근무 시작!");
            assert!(!m.mrkdwn);
        },
        Response::AttachedMessage(_) => panic!("expected a plain message"),
    }
}

#[test]
fn init_on_an_open_root_is_refused() {
    let mut store = Store::new();
    init_command(&mut store, Date(2024, 3, 10), Time(9, 0));
    let r = init_command(&mut store, Date(2024, 3, 11), Time(9, 0));
    assert_eq!(
        message_text(&r),
        "이미 근무가 시작되었습니다.\n오늘의 근무를 취소하려면 `glt reset`"
    );
}

#[test]
fn add_reports_the_new_names() {
    let mut store = Store::new();
    init_command(&mut store, Date(2024, 3, 10), Time(9, 0));
    let r = add_command(&mut store, &names(&["Alice", "Bob"]), Time(9, 5));
    assert_eq!(message_text(&r), "Alice, Bob 근무자가 추가되었습니다.");
}

#[test]
fn an_empty_request_is_an_invalid_argument() {
    let mut store = Store::new();
    init_command(&mut store, Date(2024, 3, 10), Time(9, 0));
    let r = add_command(&mut store, &names(&[]), Time(9, 5));
    assert_eq!(message_text(&r), "잘못된 인자 사용\n도움말을 보려면 `glt help`");
    let r = rm_command(&mut store, &names(&[]));
    assert_eq!(message_text(&r), "잘못된 인자 사용\n도움말을 보려면 `glt help`");
    let r = commit_command(&mut store, Time(18, 0), String::new());
    assert_eq!(message_text(&r), "잘못된 인자 사용\n도움말을 보려면 `glt help`");
}

#[test]
fn operations_without_a_session_say_so() {
    let mut store = Store::new();
    let r = status_command(&store);
    assert_eq!(
        message_text(&r),
        "근무가 시작되지 않았습니다.\n근무를 시작하려면 `glt init`"
    );
    let r = reset_command(&mut store);
    assert_eq!(
        message_text(&r),
        "근무가 시작되지 않았습니다.\n근무를 시작하려면 `glt init`"
    );
    let r = log_command(&store);
    assert_eq!(
        message_text(&r),
        "근무가 시작되지 않았습니다.\n근무를 시작하려면 `glt init`"
    );
    let r = push_command(&mut store);
    assert_eq!(
        message_text(&r),
        "근무가 시작되지 않았습니다.\n근무를 시작하려면 `glt init`"
    );
}

#[test]
fn status_shows_start_time_and_participants() {
    let mut store = Store::new();
    init_command(&mut store, Date(2024, 3, 10), Time(9, 0));
    add_command(&mut store, &names(&["Alice"]), Time(9, 30));
    let r = status_command(&store);
    match &r {
        Response::AttachedMessage(m) => {
            assert!(matches!(m.response_type, ResponseType::Ephemeral));
            let a = &m.attachments[0];
            assert_eq!(a.title, "2024년 3월 10일");
            assert_eq!(a.pretext, "오늘의 근무 기록");
            assert_eq!(a.fields[0].title, "시작 시간");
            assert_eq!(a.fields[0].value, "9시 0분");
            assert_eq!(a.fields[1].title, "근무자");
            assert_eq!(a.fields[1].value, "Alice - 9시 30분\n");
        },
        Response::Message(_) => panic!("expected an attached message"),
    }
}

#[test]
fn commit_shows_the_span_note_and_participants() {
    let mut store = Store::new();
    init_command(&mut store, Date(2024, 3, 10), Time(9, 0));
    add_command(&mut store, &names(&["Alice"]), Time(9, 30));
    let r = commit_command(&mut store, Time(18, 0), "wrote docs".to_string());
    match &r {
        Response::AttachedMessage(m) => {
            assert!(matches!(m.response_type, ResponseType::InChannel));
            let a = &m.attachments[0];
            assert_eq!(a.pretext, "오늘의 근무가 끝났습니다. 수고하셨습니다!");
            assert_eq!(a.fields[0].title, "근무 시간");
            assert_eq!(a.fields[0].value, "9:0 ~ 18:0 9시간 0분");
            assert_eq!(a.fields[1].title, "근무 내용");
            assert_eq!(a.fields[1].value, "wrote docs");
            assert_eq!(a.fields[2].title, "근무자");
            assert_eq!(a.fields[2].value, "Alice - 9시 30분\n");
        },
        Response::Message(_) => panic!("expected an attached message"),
    }
}

#[test]
fn log_summarizes_the_month() {
    let mut store = Store::new();
    init_command(&mut store, Date(2024, 3, 10), Time(9, 0));
    add_command(&mut store, &names(&["Alice"]), Time(9, 0));
    commit_command(&mut store, Time(18, 0), "first".to_string());
    init_command(&mut store, Date(2024, 3, 11), Time(10, 0));
    add_command(&mut store, &names(&["Alice"]), Time(10, 0));
    commit_command(&mut store, Time(19, 0), "second".to_string());
    let r = log_command(&store);
    match &r {
        Response::AttachedMessage(m) => {
            assert!(matches!(m.response_type, ResponseType::InChannel));
            let a = &m.attachments[0];
            assert_eq!(a.title, "2024년 3월");
            assert_eq!(a.pretext, "이 달의 근무 기록");
            assert_eq!(a.text, "총 2일, 18시 0분의 근무 기록이 있습니다.");
            assert_eq!(a.mrkdwn_in, vec!["fields".to_string()]);
            assert_eq!(a.fields.len(), 3);
            assert_eq!(a.fields[0].title, "10일");
            assert_eq!(a.fields[0].value, "9:0 ~ 18:0 9시간 0분\nfirst\nAlice");
            assert_eq!(a.fields[1].title, "11일");
            assert_eq!(a.fields[1].value, "10:0 ~ 19:0 9시간 0분\nsecond\nAlice");
            assert_eq!(a.fields[2].title, "총계");
            assert_eq!(
                a.fields[2].value,
                "총 2일, 18시 0분의 근무 시간 중\nAlice - 2일, 18시 0분"
            );
        },
        Response::Message(_) => panic!("expected an attached message"),
    }
}

#[test]
fn push_archives_and_reports() {
    let mut store = Store::new();
    init_command(&mut store, Date(2024, 3, 10), Time(9, 0));
    commit_command(&mut store, Time(18, 0), "done".to_string());
    let r = push_command(&mut store);
    assert_eq!(message_text(&r), "이 달의 근무가 끝났습니다. 수고하셨습니다!");
    assert_eq!(store.day_archive.len(), 0);
    assert_eq!(store.monthly.len(), 1);
}

#[test]
fn help_lists_the_commands() {
    let r = help_command();
    assert!(message_text(&r).contains("/glt init"));
    assert!(message_text(&r).contains("/glt push"));
}
