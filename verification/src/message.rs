//! The response formatter: it renders day records and monthly totals
//! into chat responses. Every text is pinned down character by
//! character, so a response is exactly what the contract says.

use vstd::prelude::*;

use crate::record::DayCommit;
use crate::record::DayCommitView;
use crate::record::ParticipantView;
use crate::slack::AttachedMessage;
use crate::slack::AttachedMessageView;
use crate::slack::AttachmentView;
use crate::slack::Attachment;
use crate::slack::AttachmentFields;
use crate::slack::AttachmentFieldsView;
use crate::slack::Message;
use crate::slack::MessageView;
use crate::slack::Response;
use crate::slack::ResponseType;
use crate::slack::ResponseView;
use crate::text::spec_i64_str;
use crate::text::spec_u64_str;
use crate::text::i64_to_string;
use crate::text::u64_to_string;
use crate::time::Date;
use crate::time::Time;
use crate::time::TimeDiff;

verus! {

/// A wall-clock time as prose: hour and minute, each with its unit.
pub open spec fn spec_time_display(t: Time) -> Seq<char> {
    spec_u64_str(t.0 as nat) + "시 "@ + spec_u64_str(t.1 as nat) + "분"@
}

/// A date as prose: year, month and day, each with its unit.
pub open spec fn spec_date_display(d: Date) -> Seq<char> {
    spec_i64_str(d.0 as int) + "년 "@ + spec_u64_str(d.1 as nat) + "월 "@ + spec_u64_str(
        d.2 as nat,
    ) + "일"@
}

/// A duration in minutes as prose: whole hours and leftover minutes,
/// the hours carrying the sign.
pub open spec fn spec_minutes_display(total: int) -> Seq<char> {
    let mag = if total < 0 {
        -total
    } else {
        total
    };
    let h = if total < 0 {
        -(mag / 60)
    } else {
        mag / 60
    };
    spec_i64_str(h) + "시 "@ + spec_u64_str((mag % 60) as nat) + "분"@
}

/// Names joined by a comma and a space.
pub open spec fn spec_join_names(names: Seq<Seq<char>>, n: int) -> Seq<char>
    decreases n,
{
    if n <= 0 {
        Seq::empty()
    } else if n == 1 {
        names[0]
    } else {
        spec_join_names(names, n - 1) + ", "@ + names[n - 1]
    }
}

/// One line per participant: their name and when they joined.
pub open spec fn spec_participant_lines(ps: Seq<ParticipantView>, n: int) -> Seq<char>
    decreases n,
{
    if n <= 0 {
        Seq::empty()
    } else {
        spec_participant_lines(ps, n - 1) + ps[n - 1].name + " - "@ + spec_time_display(
            ps[n - 1].commit_time,
        ) + "\n"@
    }
}

/// A session's span: the two short times and the difference as prose.
pub open spec fn spec_range_line(start: Time, end: Time, diff: TimeDiff) -> Seq<char> {
    crate::time::spec_time_short(start) + " ~ "@ + crate::time::spec_time_short(end) + " "@
        + spec_i64_str(diff.0 as int) + "시간 "@ + spec_i64_str(diff.1 as int) + "분"@
}

/// A wall-clock time as prose.
pub fn time_display(t: &Time) -> (r: String)
    ensures
        r@ == spec_time_display(*t),
{
    let mut s = u64_to_string(t.0 as u64);
    s.append("시 ");
    let m = u64_to_string(t.1 as u64);
    s.append(m.as_str());
    s.append("분");
    proof {
        assert(s@ =~= spec_time_display(*t));
    }
    s
}

/// A date as prose.
pub fn date_display(d: &Date) -> (r: String)
    ensures
        r@ == spec_date_display(*d),
{
    let mut s = i64_to_string(d.0 as i64);
    s.append("년 ");
    let month = u64_to_string(d.1 as u64);
    s.append(month.as_str());
    s.append("월 ");
    let day = u64_to_string(d.2 as u64);
    s.append(day.as_str());
    s.append("일");
    proof {
        assert(s@ =~= spec_date_display(*d));
    }
    s
}

/// A duration in minutes as prose.
pub fn minutes_display(total: i64) -> (r: String)
    requires
        -0x7fff_ffff_0000 <= total <= 0x7fff_ffff_0000,
    ensures
        r@ == spec_minutes_display(total as int),
{
    let mag: i64 = if total < 0 {
        -total
    } else {
        total
    };
    let h: i64 = if total < 0 {
        -(mag / 60)
    } else {
        mag / 60
    };
    let mut s = i64_to_string(h);
    s.append("시 ");
    let m = u64_to_string((mag % 60) as u64);
    s.append(m.as_str());
    s.append("분");
    proof {
        assert(s@ =~= spec_minutes_display(total as int));
    }
    s
}

/// Names joined by a comma and a space.
pub fn join_names(names: &Vec<String>) -> (r: String)
    ensures
        r@ == spec_join_names(names.deep_view(), names.deep_view().len() as int),
{
    let ghost nv = names.deep_view();
    let mut s = String::new();
    let mut i: usize = 0;
    while i < names.len()
        invariant
            i <= names.len(),
            nv == names.deep_view(),
            nv.len() == names@.len(),
            s@ == spec_join_names(nv, i as int),
        decreases names.len() - i,
    {
        if i > 0 {
            s.append(", ");
        }
        s.append(names[i].as_str());
        proof {
            assert(names[i as int]@ == nv[i as int]);
            assert(s@ =~= spec_join_names(nv, i + 1));
        }
        i = i + 1;
    }
    s
}

/// One line per participant: their name and when they joined.
pub fn participant_lines(ps: &Vec<crate::record::Participant>) -> (r: String)
    ensures
        r@ == spec_participant_lines(
            ps@.map_values(|p: crate::record::Participant| p@),
            ps@.len() as int,
        ),
{
    let ghost pv = ps@.map_values(|p: crate::record::Participant| p@);
    let mut s = String::new();
    let mut i: usize = 0;
    while i < ps.len()
        invariant
            i <= ps.len(),
            pv == ps@.map_values(|p: crate::record::Participant| p@),
            pv.len() == ps@.len(),
            s@ == spec_participant_lines(pv, i as int),
        decreases ps.len() - i,
    {
        let p = &ps[i];
        proof {
            assert(p@ == pv[i as int]);
        }
        s.append(p.name.as_str());
        s.append(" - ");
        let t = time_display(&p.commit_time);
        s.append(t.as_str());
        s.append("\n");
        proof {
            assert(s@ =~= spec_participant_lines(pv, i + 1));
        }
        i = i + 1;
    }
    s
}

/// A session's span as one line.
pub fn range_line(start: &Time, end: &Time) -> (r: String)
    requires
        start.wf(),
        end.wf(),
    ensures
        r@ == spec_range_line(*start, *end, crate::time::spec_diff(*end, *start)),
{
    let diff = end.sub(start);
    let mut s = start.to_short_str();
    s.append(" ~ ");
    let e = end.to_short_str();
    s.append(e.as_str());
    s.append(" ");
    let h = i64_to_string(diff.0 as i64);
    s.append(h.as_str());
    s.append("시간 ");
    let m = i64_to_string(diff.1 as i64);
    s.append(m.as_str());
    s.append("분");
    proof {
        assert(s@ =~= spec_range_line(*start, *end, crate::time::spec_diff(*end, *start)));
    }
    s
}

/// The participants' names, in order.
pub open spec fn pnames(ps: Seq<ParticipantView>) -> Seq<Seq<char>> {
    ps.map_values(|p: ParticipantView| p.name)
}

/// The participants' names joined by a comma and a space.
pub fn join_participant_names(ps: &Vec<crate::record::Participant>) -> (r: String)
    ensures
        r@ == spec_join_names(
            pnames(ps@.map_values(|p: crate::record::Participant| p@)),
            ps@.len() as int,
        ),
{
    let ghost nv = pnames(ps@.map_values(|p: crate::record::Participant| p@));
    let mut s = String::new();
    let mut i: usize = 0;
    while i < ps.len()
        invariant
            i <= ps.len(),
            nv == pnames(ps@.map_values(|p: crate::record::Participant| p@)),
            nv.len() == ps@.len(),
            s@ == spec_join_names(nv, i as int),
        decreases ps.len() - i,
    {
        if i > 0 {
            s.append(", ");
        }
        s.append(ps[i].name.as_str());
        proof {
            assert(ps[i as int].name@ == nv[i as int]);
            assert(s@ =~= spec_join_names(nv, i + 1));
        }
        i = i + 1;
    }
    s
}

/// The response to a begin: the date, in channel.
pub open spec fn spec_initialized_message(c: DayCommitView) -> ResponseView {
    ResponseView::Message(
        MessageView {
            response_type: ResponseType::InChannel,
            text: spec_date_display(c.date) + " 근무 시작!"@,
            mrkdwn: false,
        },
    )
}

pub fn initialized_message(day_commit: &DayCommit) -> (r: Response)
    ensures
        r@ == spec_initialized_message(day_commit@),
{
    let mut text = date_display(&day_commit.date);
    text.append(" 근무 시작!");
    Response::Message(Message { response_type: ResponseType::InChannel, text, mrkdwn: false })
}

/// The response to a begin while a session is already open.
pub open spec fn spec_already_initialized_message() -> ResponseView {
    ResponseView::Message(
        MessageView {
            response_type: ResponseType::Ephemeral,
            text: "이미 근무가 시작되었습니다.\n오늘의 근무를 취소하려면 `glt reset`"@,
            mrkdwn: true,
        },
    )
}

pub fn already_initialized_message() -> (r: Response)
    ensures
        r@ == spec_already_initialized_message(),
{
    Response::Message(
        Message {
            response_type: ResponseType::Ephemeral,
            text: "이미 근무가 시작되었습니다.\n오늘의 근무를 취소하려면 `glt reset`".to_owned(),
            mrkdwn: true,
        },
    )
}

/// The response to an add: the names that were new, in channel.
pub open spec fn spec_added_message(added: Seq<Seq<char>>) -> ResponseView {
    ResponseView::Message(
        MessageView {
            response_type: ResponseType::InChannel,
            text: spec_join_names(added, added.len() as int) + " 근무자가 추가되었습니다."@,
            mrkdwn: false,
        },
    )
}

pub fn added_message(added: Vec<String>) -> (r: Response)
    ensures
        r@ == spec_added_message(added.deep_view()),
{
    let mut text = join_names(&added);
    text.append(" 근무자가 추가되었습니다.");
    Response::Message(Message { response_type: ResponseType::InChannel, text, mrkdwn: false })
}

/// The response to a command whose arguments are unusable.
pub open spec fn spec_invalid_argument_message() -> ResponseView {
    ResponseView::Message(
        MessageView {
            response_type: ResponseType::Ephemeral,
            text: "잘못된 인자 사용\n도움말을 보려면 `glt help`"@,
            mrkdwn: true,
        },
    )
}

pub fn invalid_argument_message() -> (r: Response)
    ensures
        r@ == spec_invalid_argument_message(),
{
    Response::Message(
        Message {
            response_type: ResponseType::Ephemeral,
            text: "잘못된 인자 사용\n도움말을 보려면 `glt help`".to_owned(),
            mrkdwn: true,
        },
    )
}

/// The response to an operation that needs an open session when there is
/// none.
pub open spec fn spec_not_initialized_message() -> ResponseView {
    ResponseView::Message(
        MessageView {
            response_type: ResponseType::Ephemeral,
            text: "근무가 시작되지 않았습니다.\n근무를 시작하려면 `glt init`"@,
            mrkdwn: true,
        },
    )
}

pub fn not_initialized_message() -> (r: Response)
    ensures
        r@ == spec_not_initialized_message(),
{
    Response::Message(
        Message {
            response_type: ResponseType::Ephemeral,
            text: "근무가 시작되지 않았습니다.\n근무를 시작하려면 `glt init`".to_owned(),
            mrkdwn: true,
        },
    )
}

/// The response to a remove.
pub open spec fn spec_removed_message() -> ResponseView {
    ResponseView::Message(
        MessageView {
            response_type: ResponseType::Ephemeral,
            text: "근무자가 제거되었습니다."@,
            mrkdwn: false,
        },
    )
}

pub fn removed_message() -> (r: Response)
    ensures
        r@ == spec_removed_message(),
{
    Response::Message(
        Message {
            response_type: ResponseType::Ephemeral,
            text: "근무자가 제거되었습니다.".to_owned(),
            mrkdwn: false,
        },
    )
}

/// The response to a discard.
pub open spec fn spec_resetted_message() -> ResponseView {
    ResponseView::Message(
        MessageView {
            response_type: ResponseType::Ephemeral,
            text: "근무 기록이 삭제되었습니다."@,
            mrkdwn: false,
        },
    )
}

pub fn resetted_message() -> (r: Response)
    ensures
        r@ == spec_resetted_message(),
{
    Response::Message(
        Message {
            response_type: ResponseType::Ephemeral,
            text: "근무 기록이 삭제되었습니다.".to_owned(),
            mrkdwn: false,
        },
    )
}

/// The response to a month push.
pub open spec fn spec_push_message() -> ResponseView {
    ResponseView::Message(
        MessageView {
            response_type: ResponseType::Ephemeral,
            text: "이 달의 근무가 끝났습니다. 수고하셨습니다!"@,
            mrkdwn: false,
        },
    )
}

pub fn push_message() -> (r: Response)
    ensures
        r@ == spec_push_message(),
{
    Response::Message(
        Message {
            response_type: ResponseType::Ephemeral,
            text: "이 달의 근무가 끝났습니다. 수고하셨습니다!".to_owned(),
            mrkdwn: false,
        },
    )
}

/// The help text.
pub open spec fn spec_help_message() -> ResponseView {
    ResponseView::Message(
        MessageView {
            response_type: ResponseType::Ephemeral,
            text: "/glt init # 그 날의 근무 시작\n/glt add <name> # 온 사람 이름 추가\n/glt rm <name> # 온 사람 이름 제거\n/glt status # 그 날의 근무 기록 보기\n/glt commit <message> # 그 날의 근무 끝, 기록 추가\n/glt reset # 그 날의 근무 취소, 기록 버리기\n/glt log # 그 달의 근무 기록 보기\n/glt push # 그 달의 근무 기록 저장 및 새 달로 넘어감"@,
            mrkdwn: false,
        },
    )
}

pub fn help_message() -> (r: Response)
    ensures
        r@ == spec_help_message(),
{
    Response::Message(
        Message {
            response_type: ResponseType::Ephemeral,
            text: "/glt init # 그 날의 근무 시작\n/glt add <name> # 온 사람 이름 추가\n/glt rm <name> # 온 사람 이름 제거\n/glt status # 그 날의 근무 기록 보기\n/glt commit <message> # 그 날의 근무 끝, 기록 추가\n/glt reset # 그 날의 근무 취소, 기록 버리기\n/glt log # 그 달의 근무 기록 보기\n/glt push # 그 달의 근무 기록 저장 및 새 달로 넘어감".to_owned(),
            mrkdwn: false,
        },
    )
}

/// The response to a status read: the date, the start time and who is
/// there, shown only to the asker.
pub open spec fn spec_status_message(c: DayCommitView) -> ResponseView {
    ResponseView::AttachedMessage(
        AttachedMessageView {
            response_type: ResponseType::Ephemeral,
            attachments: seq![
                AttachmentView {
                    title: spec_date_display(c.date),
                    pretext: "오늘의 근무 기록"@,
                    text: Seq::empty(),
                    fields: seq![
                        AttachmentFieldsView {
                            title: "시작 시간"@,
                            value: spec_time_display(c.start_time),
                        },
                        AttachmentFieldsView {
                            title: "근무자"@,
                            value: spec_participant_lines(
                                c.participants,
                                c.participants.len() as int,
                            ),
                        },
                    ],
                    mrkdwn_in: Seq::empty(),
                },
            ],
        },
    )
}

pub fn status_message(day_commit: DayCommit) -> (r: Response)
    ensures
        r@ == spec_status_message(day_commit@),
{
    let mut fields: Vec<AttachmentFields> = Vec::new();
    fields.push(
        AttachmentFields {
            title: "시작 시간".to_owned(),
            value: time_display(&day_commit.start_time),
        },
    );
    fields.push(
        AttachmentFields {
            title: "근무자".to_owned(),
            value: participant_lines(&day_commit.participants),
        },
    );
    let a = Attachment {
        title: date_display(&day_commit.date),
        text: String::new(),
        pretext: "오늘의 근무 기록".to_owned(),
        fields,
        mrkdwn_in: Vec::new(),
    };
    let mut attachments: Vec<Attachment> = Vec::new();
    let ghost av = a@;
    attachments.push(a);
    let m = AttachedMessage { response_type: ResponseType::Ephemeral, attachments };
    proof {
        let sv = spec_status_message(day_commit@)->AttachedMessage_0;
        assert(av.fields =~= sv.attachments[0].fields);
        assert(av.mrkdwn_in =~= sv.attachments[0].mrkdwn_in);
        assert(av == sv.attachments[0]);
        assert(m@.attachments =~= sv.attachments);
        assert(m@ == sv);
    }
    Response::AttachedMessage(m)
}

/// The response to a finalize: the span, the closing note and who was
/// there, in channel.
pub open spec fn spec_committed_message(c: DayCommitView) -> ResponseView {
    ResponseView::AttachedMessage(
        AttachedMessageView {
            response_type: ResponseType::InChannel,
            attachments: seq![
                AttachmentView {
                    title: spec_date_display(c.date),
                    pretext: "오늘의 근무가 끝났습니다. 수고하셨습니다!"@,
                    text: Seq::empty(),
                    fields: seq![
                        AttachmentFieldsView {
                            title: "근무 시간"@,
                            value: spec_range_line(
                                c.start_time,
                                c.end_time->0,
                                crate::time::spec_diff(c.end_time->0, c.start_time),
                            ),
                        },
                        AttachmentFieldsView { title: "근무 내용"@, value: c.message->0 },
                        AttachmentFieldsView {
                            title: "근무자"@,
                            value: spec_participant_lines(
                                c.participants,
                                c.participants.len() as int,
                            ),
                        },
                    ],
                    mrkdwn_in: Seq::empty(),
                },
            ],
        },
    )
}

pub fn committed_message(day_commit: DayCommit) -> (r: Response)
    requires
        day_commit@.wf(),
        day_commit@.is_sealed(),
    ensures
        r@ == spec_committed_message(day_commit@),
{
    let mut fields: Vec<AttachmentFields> = Vec::new();
    let end = match &day_commit.end_time {
        Some(t) => *t,
        None => {
            proof {
                assert(false);
            }
            Time(0, 0)
        },
    };
    fields.push(
        AttachmentFields {
            title: "근무 시간".to_owned(),
            value: range_line(&day_commit.start_time, &end),
        },
    );
    let note = match &day_commit.message {
        Some(m) => m.clone(),
        None => {
            proof {
                assert(false);
            }
            String::new()
        },
    };
    fields.push(AttachmentFields { title: "근무 내용".to_owned(), value: note });
    fields.push(
        AttachmentFields {
            title: "근무자".to_owned(),
            value: participant_lines(&day_commit.participants),
        },
    );
    let a = Attachment {
        title: date_display(&day_commit.date),
        text: String::new(),
        pretext: "오늘의 근무가 끝났습니다. 수고하셨습니다!".to_owned(),
        fields,
        mrkdwn_in: Vec::new(),
    };
    let mut attachments: Vec<Attachment> = Vec::new();
    let ghost av = a@;
    attachments.push(a);
    let m = AttachedMessage { response_type: ResponseType::InChannel, attachments };
    proof {
        let sv = spec_committed_message(day_commit@)->AttachedMessage_0;
        assert(av.fields =~= sv.attachments[0].fields);
        assert(av.mrkdwn_in =~= sv.attachments[0].mrkdwn_in);
        assert(av == sv.attachments[0]);
        assert(m@.attachments =~= sv.attachments);
        assert(m@ == sv);
    }
    Response::AttachedMessage(m)
}

/// One day's field in the month log: the day of month as title; as
/// value the span (or the bare start for a still-open record), then the
/// note if there is one, then who was there.
pub open spec fn spec_day_value(c: DayCommitView) -> Seq<char> {
    let base = if c.end_time is Some {
        spec_range_line(c.start_time, c.end_time->0, crate::time::spec_diff(c.end_time->0, c.start_time))
    } else {
        spec_time_display(c.start_time) + " 시작"@
    };
    let with_msg = if c.message is Some {
        base + "\n"@ + c.message->0
    } else {
        base
    };
    if c.participants.len() > 0 {
        with_msg + "\n"@ + spec_join_names(pnames(c.participants), c.participants.len() as int)
    } else {
        with_msg
    }
}

pub open spec fn spec_day_field(c: DayCommitView) -> AttachmentFieldsView {
    AttachmentFieldsView { title: spec_u64_str(c.date.2 as nat) + "일"@, value: spec_day_value(c) }
}

/// One participant's line in the month summary: their name, their days,
/// and their minutes as prose.
pub open spec fn spec_total_lines(ts: Seq<crate::aggregate::ParticipantTotalView>, n: int) -> Seq<
    char,
>
    decreases n,
{
    if n <= 0 {
        Seq::empty()
    } else {
        spec_total_lines(ts, n - 1) + "\n"@ + ts[n - 1].name + " - "@ + spec_u64_str(
            ts[n - 1].days as nat,
        ) + "일, "@ + spec_minutes_display(ts[n - 1].minutes)
    }
}

/// The month summary field: the headline, then one line per participant.
pub open spec fn spec_totals_value(
    days: int,
    total: int,
    ts: Seq<crate::aggregate::ParticipantTotalView>,
) -> Seq<char> {
    "총 "@ + spec_u64_str(days as nat) + "일, "@ + spec_minutes_display(total)
        + "의 근무 시간 중"@ + spec_total_lines(ts, ts.len() as int)
}

/// The response to a log read: the month of the first record as title,
/// the count of days and the total span as text, one field per record,
/// and a summary field when anyone attended a sealed record.
pub open spec fn spec_log_message(rs: Seq<DayCommitView>) -> ResponseView {
    let total = crate::aggregate::total_minutes_of(rs, rs.len() as int);
    let totals = crate::aggregate::per_participant_of(rs, rs.len() as int);
    ResponseView::AttachedMessage(
        AttachedMessageView {
            response_type: ResponseType::InChannel,
            attachments: seq![
                AttachmentView {
                    title: spec_i64_str(rs[0].date.0 as int) + "년 "@ + spec_u64_str(
                        rs[0].date.1 as nat,
                    ) + "월"@,
                    pretext: "이 달의 근무 기록"@,
                    text: "총 "@ + spec_u64_str(rs.len() as nat) + "일, "@ + spec_minutes_display(
                        total,
                    ) + "의 근무 기록이 있습니다."@,
                    fields: Seq::new(rs.len(), |j: int| spec_day_field(rs[j])) + (
                    if totals.len() > 0 {
                        seq![
                            AttachmentFieldsView {
                                title: "총계"@,
                                value: spec_totals_value(rs.len() as int, total, totals),
                            },
                        ]
                    } else {
                        Seq::empty()
                    }),
                    mrkdwn_in: seq!["fields"@],
                },
            ],
        },
    )
}

/// One day's field in the month log.
fn day_field(c: &DayCommit) -> (f: AttachmentFields)
    requires
        c@.wf(),
    ensures
        f@ == spec_day_field(c@),
{
    let mut title = u64_to_string(c.date.2 as u64);
    title.append("일");
    let mut value = match &c.end_time {
        Some(end) => range_line(&c.start_time, end),
        None => {
            let mut v = time_display(&c.start_time);
            v.append(" 시작");
            v
        },
    };
    match &c.message {
        Some(msg) => {
            value.append("\n");
            value.append(msg.as_str());
        },
        None => {},
    }
    if c.participants.len() > 0 {
        value.append("\n");
        let joined = join_participant_names(&c.participants);
        value.append(joined.as_str());
    }
    proof {
        assert(title@ =~= spec_day_field(c@).title);
        assert(value@ =~= spec_day_value(c@));
    }
    AttachmentFields { title, value }
}

pub fn log_message(commits: &Vec<DayCommit>) -> (r: Response)
    requires
        commits@.len() > 0,
        commits@.len() < 0xffff_ffff,
        crate::aggregate::records_wf(crate::aggregate::records_view(commits@)),
    ensures
        r@ == spec_log_message(crate::aggregate::records_view(commits@)),
{
    let ghost rv = crate::aggregate::records_view(commits@);
    let total = match crate::aggregate::total_minutes(commits) {
        Ok(t) => t,
        Err(_) => {
            proof {
                assert(false);
            }
            0
        },
    };
    let totals = match crate::aggregate::per_participant(commits) {
        Ok(t) => t,
        Err(_) => {
            proof {
                assert(false);
            }
            Vec::new()
        },
    };
    let first = &commits[0];
    proof {
        assert(first@ == rv[0]);
    }
    let mut title = i64_to_string(first.date.0 as i64);
    title.append("년 ");
    let month = u64_to_string(first.date.1 as u64);
    title.append(month.as_str());
    title.append("월");
    let mut text = "총 ".to_owned();
    let count = u64_to_string(commits.len() as u64);
    text.append(count.as_str());
    text.append("일, ");
    let total_text = minutes_display(total);
    text.append(total_text.as_str());
    text.append("의 근무 기록이 있습니다.");
    let mut fields: Vec<AttachmentFields> = Vec::new();
    let mut i: usize = 0;
    while i < commits.len()
        invariant
            i <= commits.len(),
            rv == crate::aggregate::records_view(commits@),
            rv.len() == commits@.len(),
            crate::aggregate::records_wf(rv),
            fields@.len() == i,
            forall|j: int|
                0 <= j < i ==> (#[trigger] fields@[j])@ == spec_day_field(rv[j]),
        decreases commits.len() - i,
    {
        let c = &commits[i];
        proof {
            assert(c@ == rv[i as int]);
        }
        let f = day_field(c);
        let ghost fv = f@;
        proof {
            assert(fv == spec_day_field(rv[i as int]));
        }
        fields.push(f);
        i = i + 1;
    }
    let ghost day_fields = fields@.map_values(|f: AttachmentFields| f@);
    proof {
        assert(day_fields =~= Seq::new(rv.len(), |j: int| spec_day_field(rv[j])));
    }
    if totals.len() > 0 {
        let mut value = "총 ".to_owned();
        let count2 = u64_to_string(commits.len() as u64);
        value.append(count2.as_str());
        value.append("일, ");
        let total_text2 = minutes_display(total);
        value.append(total_text2.as_str());
        value.append("의 근무 시간 중");
        let ghost tv = crate::aggregate::totals_view(totals@);
        let mut k: usize = 0;
        while k < totals.len()
            invariant
                k <= totals.len(),
                tv == crate::aggregate::totals_view(totals@),
                tv.len() == totals@.len(),
                forall|j: int|
                    0 <= j < tv.len() ==> -0x7fff_ffff_0000 <= (#[trigger] tv[j]).minutes
                        <= 0x7fff_ffff_0000 && 0 <= tv[j].days,
                value@ == "총 "@ + spec_u64_str(commits@.len() as nat) + "일, "@
                    + spec_minutes_display(
                    crate::aggregate::total_minutes_of(rv, rv.len() as int),
                ) + "의 근무 시간 중"@ + spec_total_lines(tv, k as int),
            decreases totals.len() - k,
        {
            let t = &totals[k];
            proof {
                assert(t@ == tv[k as int]);
            }
            value.append("\n");
            value.append(t.name.as_str());
            value.append(" - ");
            let d = u64_to_string(t.days as u64);
            value.append(d.as_str());
            value.append("일, ");
            let mins = minutes_display(t.minutes);
            value.append(mins.as_str());
            proof {
                assert(value@ =~= "총 "@ + spec_u64_str(commits@.len() as nat) + "일, "@
                    + spec_minutes_display(
                    crate::aggregate::total_minutes_of(rv, rv.len() as int),
                ) + "의 근무 시간 중"@ + spec_total_lines(tv, k + 1));
            }
            k = k + 1;
        }
        fields.push(AttachmentFields { title: "총계".to_owned(), value });
        proof {
            assert(fields@.map_values(|f: AttachmentFields| f@) =~= day_fields + seq![
                AttachmentFieldsView {
                    title: "총계"@,
                    value: spec_totals_value(
                        rv.len() as int,
                        crate::aggregate::total_minutes_of(rv, rv.len() as int),
                        crate::aggregate::per_participant_of(rv, rv.len() as int),
                    ),
                },
            ]);
        }
    }
    let mut mrkdwn_in: Vec<String> = Vec::new();
    mrkdwn_in.push("fields".to_owned());
    let a = Attachment { title, text, pretext: "이 달의 근무 기록".to_owned(), fields, mrkdwn_in };
    let mut attachments: Vec<Attachment> = Vec::new();
    let ghost av = a@;
    attachments.push(a);
    let m = AttachedMessage { response_type: ResponseType::InChannel, attachments };
    proof {
        let sv = spec_log_message(rv)->AttachedMessage_0;
        assert(av.title =~= sv.attachments[0].title);
        assert(av.text =~= sv.attachments[0].text);
        assert(av.fields =~= sv.attachments[0].fields);
        assert(av.mrkdwn_in =~= sv.attachments[0].mrkdwn_in);
        assert(av == sv.attachments[0]);
        assert(m@.attachments =~= sv.attachments);
        assert(m@ == sv);
    }
    Response::AttachedMessage(m)
}

} // verus!
