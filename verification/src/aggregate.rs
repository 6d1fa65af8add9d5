//! The log aggregator: totals over one month of sealed day records, as
//! listed from the day-archive area before a month push. Durations are
//! whole minutes; a fractional hour is exactly `minutes / 60`. A record
//! with no end time contributes nothing anywhere.

use vstd::prelude::*;

use crate::error::Error;
use crate::record::DayCommit;
use crate::record::DayCommitView;
use crate::record::ParticipantView;

verus! {

/// One participant's share of a month: on how many days they appear, and
/// their minutes, summed as end time minus join time per sealed record.
#[derive(Debug)]
pub struct ParticipantTotal {
    pub name: String,
    pub days: u32,
    pub minutes: i64,
}

pub ghost struct ParticipantTotalView {
    pub name: Seq<char>,
    pub days: int,
    pub minutes: int,
}

impl View for ParticipantTotal {
    type V = ParticipantTotalView;

    open spec fn view(&self) -> ParticipantTotalView {
        ParticipantTotalView {
            name: self.name@,
            days: self.days as int,
            minutes: self.minutes as int,
        }
    }
}

/// The records of a listing, as mathematical values.
pub open spec fn records_view(s: Seq<DayCommit>) -> Seq<DayCommitView> {
    s.map_values(|c: DayCommit| c@)
}

/// A sealed record's span in minutes; an open record counts nothing.
pub open spec fn record_minutes(c: DayCommitView) -> int {
    if c.end_time is Some {
        c.end_time->0.spec_minutes() - c.start_time.spec_minutes()
    } else {
        0
    }
}

/// The sum of the spans of the first `n` records.
pub open spec fn total_minutes_of(rs: Seq<DayCommitView>, n: int) -> int
    decreases n,
{
    if n <= 0 {
        0
    } else {
        total_minutes_of(rs, n - 1) + record_minutes(rs[n - 1])
    }
}

/// The index of the total carrying this name, or `-1` if there is none.
pub open spec fn find_total(ts: Seq<ParticipantTotalView>, name: Seq<char>) -> int
    decreases ts.len(),
{
    if ts.len() == 0 {
        -1
    } else if ts[0].name == name {
        0
    } else {
        let r = find_total(ts.drop_first(), name);
        if r < 0 {
            -1
        } else {
            r + 1
        }
    }
}

/// Credit one appearance and `mins` minutes to the named participant:
/// their total is updated in place, or appended if they are new.
pub open spec fn tally_one(ts: Seq<ParticipantTotalView>, name: Seq<char>, mins: int) -> Seq<
    ParticipantTotalView,
> {
    let i = find_total(ts, name);
    if i < 0 {
        ts.push(ParticipantTotalView { name, days: 1, minutes: mins })
    } else {
        ts.update(
            i,
            ParticipantTotalView { name, days: ts[i].days + 1, minutes: ts[i].minutes + mins },
        )
    }
}

/// Credit the first `k` participants of one sealed record, each with the
/// record's end time minus their own join time.
pub open spec fn tally_participants(ts: Seq<ParticipantTotalView>, c: DayCommitView, k: int) -> Seq<
    ParticipantTotalView,
>
    decreases k,
{
    if k <= 0 {
        ts
    } else {
        let p = c.participants[k - 1];
        tally_one(
            tally_participants(ts, c, k - 1),
            p.name,
            c.end_time->0.spec_minutes() - p.commit_time.spec_minutes(),
        )
    }
}

/// Credit one record: a record without an end time counts nobody.
pub open spec fn tally_record(ts: Seq<ParticipantTotalView>, c: DayCommitView) -> Seq<
    ParticipantTotalView,
> {
    if c.end_time is Some {
        tally_participants(ts, c, c.participants.len() as int)
    } else {
        ts
    }
}

/// The per-participant totals over the first `n` records, in order of
/// first appearance.
pub open spec fn per_participant_of(rs: Seq<DayCommitView>, n: int) -> Seq<ParticipantTotalView>
    decreases n,
{
    if n <= 0 {
        Seq::empty()
    } else {
        tally_record(per_participant_of(rs, n - 1), rs[n - 1])
    }
}

/// Every record in the listing is well formed.
pub open spec fn records_wf(rs: Seq<DayCommitView>) -> bool {
    forall|i: int| 0 <= i < rs.len() ==> (#[trigger] rs[i]).wf()
}

/// The totals of a listing, as mathematical values.
pub open spec fn totals_view(s: Seq<ParticipantTotal>) -> Seq<ParticipantTotalView> {
    s.map_values(|t: ParticipantTotal| t@)
}

/// A total that `n` sealed records can have produced: at least one
/// appearance, at most one per record, and at most a day's minutes per
/// record in either direction.
pub open spec fn total_bounded(e: ParticipantTotalView, n: int) -> bool {
    &&& 1 <= e.days <= n
    &&& -1439 * n <= e.minutes <= 1439 * n
}

/// What `find_total` finds: `-1` exactly when no total carries the name,
/// else the first index that does.
proof fn lemma_find_total_spec(ts: Seq<ParticipantTotalView>, name: Seq<char>)
    ensures
        find_total(ts, name) == -1 ==> forall|i: int|
            0 <= i < ts.len() ==> (#[trigger] ts[i]).name != name,
        find_total(ts, name) != -1 ==> {
            let r = find_total(ts, name);
            &&& 0 <= r < ts.len()
            &&& ts[r].name == name
            &&& forall|i: int| 0 <= i < r ==> (#[trigger] ts[i]).name != name
        },
    decreases ts.len(),
{
    if ts.len() > 0 && ts[0].name != name {
        lemma_find_total_spec(ts.drop_first(), name);
        assert forall|i: int| 1 <= i < ts.len() implies ts.drop_first()[i - 1] == ts[i] by {}
    }
}

/// Crediting the first `k` participants of one sealed, well-formed
/// record bumps each touched total once at most: a touched total fits
/// one more record, and an untouched one is exactly what it was, where
/// it was.
proof fn lemma_tally_participants_bounds(
    ts: Seq<ParticipantTotalView>,
    c: DayCommitView,
    k: int,
    n: int,
)
    requires
        0 <= k <= c.participants.len(),
        c.wf(),
        c.end_time is Some,
        n >= 0,
        forall|i: int| 0 <= i < ts.len() ==> total_bounded(#[trigger] ts[i], n),
    ensures
        tally_participants(ts, c, k).len() >= ts.len(),
        forall|i: int|
            0 <= i < tally_participants(ts, c, k).len() ==> {
                let e = #[trigger] tally_participants(ts, c, k)[i];
                &&& (crate::record::has_participant(c.participants.take(k), e.name)
                    ==> total_bounded(e, n + 1))
                &&& (!crate::record::has_participant(c.participants.take(k), e.name) ==> i
                    < ts.len() && e == ts[i])
            },
    decreases k,
{
    if k > 0 {
        lemma_tally_participants_bounds(ts, c, k - 1, n);
        let prev = tally_participants(ts, c, k - 1);
        let cur = tally_participants(ts, c, k);
        let p = c.participants[k - 1];
        let m = c.end_time->0.spec_minutes() - p.commit_time.spec_minutes();
        assert(-1439 <= m <= 1439);
        lemma_find_total_spec(prev, p.name);
        let f = find_total(prev, p.name);
        assert(c.participants.take(k)[k - 1] == p);
        assert(crate::record::has_participant(c.participants.take(k), p.name));
        assert forall|x: Seq<char>|
            crate::record::has_participant(c.participants.take(k - 1), x)
                implies crate::record::has_participant(c.participants.take(k), x) by {
            let w = choose|w: int|
                0 <= w < c.participants.take(k - 1).len() && (#[trigger] c.participants.take(
                    k - 1,
                )[w]).name == x;
            assert(c.participants.take(k)[w].name == x);
        }
        if f >= 0 {
            assert(!crate::record::has_participant(c.participants.take(k - 1), p.name)) by {
                if crate::record::has_participant(c.participants.take(k - 1), p.name) {
                    let w = choose|w: int|
                        0 <= w < c.participants.take(k - 1).len() && (#[trigger] c.participants.take(
                            k - 1,
                        )[w]).name == p.name;
                    assert(c.participants[w].name == c.participants[k - 1].name);
                    assert(false);
                }
            }
            assert(prev[f] == ts[f] && total_bounded(ts[f], n));
            assert(cur == prev.update(
                f,
                ParticipantTotalView {
                    name: p.name,
                    days: prev[f].days + 1,
                    minutes: prev[f].minutes + m,
                },
            ));
        } else {
            assert(cur == prev.push(ParticipantTotalView { name: p.name, days: 1, minutes: m }));
        }
    } else {
        assert(c.participants.take(0) =~= Seq::<ParticipantView>::empty());
    }
}

/// Every per-participant total over `n` well-formed records is bounded
/// by `n`: a participant can appear on at most every day.
proof fn lemma_per_participant_bounds(rs: Seq<DayCommitView>, n: int)
    requires
        records_wf(rs),
        0 <= n <= rs.len(),
    ensures
        forall|i: int|
            0 <= i < per_participant_of(rs, n).len() ==> total_bounded(
                #[trigger] per_participant_of(rs, n)[i],
                n,
            ),
    decreases n,
{
    if n > 0 {
        lemma_per_participant_bounds(rs, n - 1);
        let prev = per_participant_of(rs, n - 1);
        let c = rs[n - 1];
        if c.end_time is Some {
            lemma_tally_participants_bounds(prev, c, c.participants.len() as int, n - 1);
        }
    }
}

/// The index of the total carrying this name, if there is one; a linear
/// scan that finds the first.
fn find_total_index(totals: &Vec<ParticipantTotal>, name: &String) -> (r: Option<usize>)
    ensures
        match r {
            Option::None => find_total(totals_view(totals@), name@) == -1,
            Option::Some(i) => find_total(totals_view(totals@), name@) == i && i < totals@.len(),
        },
{
    let ghost tv = totals_view(totals@);
    let mut i: usize = 0;
    while i < totals.len()
        invariant
            i <= totals.len(),
            tv == totals_view(totals@),
            forall|j: int| 0 <= j < i ==> (#[trigger] tv[j]).name != name@,
        decreases totals.len() - i,
    {
        if totals[i].name == *name {
            proof {
                lemma_find_total_spec(tv, name@);
                assert(tv[i as int].name == name@);
            }
            return Some(i);
        }
        i = i + 1;
    }
    proof {
        lemma_find_total_spec(tv, name@);
        if find_total(tv, name@) != -1 {
            assert(false);
        }
    }
    None
}

/// Roll one month of records up per participant: for every sealed
/// record, each participant in it is credited one day and the minutes
/// from their join time to the record's end time; a record with no end
/// time credits nobody. Totals come in order of first appearance. Fails
/// if and only if the listing is empty.
pub fn per_participant(commits: &Vec<DayCommit>) -> (r: Result<Vec<ParticipantTotal>, Error>)
    requires
        records_wf(records_view(commits@)),
        commits@.len() < 0xffff_ffff,
    ensures
        r is Ok <==> commits@.len() > 0,
        r is Err ==> r == Err::<Vec<ParticipantTotal>, Error>(Error::EmptyLog),
        r is Ok ==> totals_view(r->Ok_0@) == per_participant_of(
            records_view(commits@),
            commits@.len() as int,
        ),
        r is Ok ==> forall|i: int|
            0 <= i < r->Ok_0@.len() ==> total_bounded(
                #[trigger] totals_view(r->Ok_0@)[i],
                commits@.len() as int,
            ),
{
    if commits.len() == 0 {
        return Err(Error::EmptyLog);
    }
    let ghost rv = records_view(commits@);
    let mut totals: Vec<ParticipantTotal> = Vec::new();
    let mut i: usize = 0;
    while i < commits.len()
        invariant
            i <= commits.len(),
            rv == records_view(commits@),
            rv.len() == commits@.len() < 0xffff_ffff,
            records_wf(rv),
            totals_view(totals@) == per_participant_of(rv, i as int),
        decreases commits.len() - i,
    {
        let c = &commits[i];
        proof {
            assert(c@ == rv[i as int]);
            lemma_per_participant_bounds(rv, i as int);
        }
        match &c.end_time {
            Some(end) => {
                let ghost ts_start = totals_view(totals@);
                let mut k: usize = 0;
                while k < c.participants.len()
                    invariant
                        k <= c.participants.len(),
                        rv == records_view(commits@),
                        records_wf(rv),
                        rv.len() < 0xffff_ffff,
                        0 <= i < rv.len(),
                        c@ == rv[i as int],
                        c.end_time == Some(*end),
                        ts_start == per_participant_of(rv, i as int),
                        forall|j: int|
                            0 <= j < ts_start.len() ==> total_bounded(
                                #[trigger] ts_start[j],
                                i as int,
                            ),
                        totals_view(totals@) == tally_participants(ts_start, c@, k as int),
                    decreases c.participants.len() - k,
                {
                    let ghost prev = totals_view(totals@);
                    proof {
                        lemma_tally_participants_bounds(ts_start, c@, k as int, i as int);
                    }
                    let p = &c.participants[k];
                    proof {
                        assert(p@ == c@.participants[k as int]);
                        assert(end.wf() && p.commit_time.wf());
                    }
                    let m = end.sub(&p.commit_time).to_minutes();
                    match find_total_index(&totals, &p.name) {
                        Some(idx) => {
                            proof {
                                lemma_find_total_spec(prev, p.name@);
                                assert(prev[idx as int].name == p.name@);
                                assert(total_bounded(prev[idx as int], i + 1) || prev[idx as int]
                                    == ts_start[idx as int]);
                                assert(prev[idx as int].days < 0xffff_ffff);
                                assert(-1439 * (i + 1) <= prev[idx as int].minutes <= 1439 * (i
                                    + 1));
                            }
                            let entry = ParticipantTotal {
                                name: p.name.clone(),
                                days: totals[idx].days + 1,
                                minutes: totals[idx].minutes + m as i64,
                            };
                            totals.set(idx, entry);
                            proof {
                                assert(totals_view(totals@) =~= tally_one(
                                    prev,
                                    p@.name,
                                    c@.end_time->0.spec_minutes()
                                        - p@.commit_time.spec_minutes(),
                                ));
                            }
                        },
                        None => {
                            totals.push(
                                ParticipantTotal { name: p.name.clone(), days: 1, minutes: m as i64 },
                            );
                            proof {
                                assert(totals_view(totals@) =~= tally_one(
                                    prev,
                                    p@.name,
                                    c@.end_time->0.spec_minutes()
                                        - p@.commit_time.spec_minutes(),
                                ));
                            }
                        },
                    }
                    proof {
                        assert(totals_view(totals@) == tally_participants(ts_start, c@, k + 1));
                    }
                    k = k + 1;
                }
                proof {
                    assert(totals_view(totals@) == tally_record(ts_start, c@));
                    assert(totals_view(totals@) == per_participant_of(rv, i + 1));
                }
            },
            None => {
                proof {
                    assert(totals_view(totals@) == per_participant_of(rv, i + 1));
                }
            },
        }
        i = i + 1;
    }
    proof {
        lemma_per_participant_bounds(rv, rv.len() as int);
    }
    Ok(totals)
}

/// Sum the spans of all records. Fails if and only if the listing is
/// empty, signalling nothing to summarize. The result divided by sixty
/// is the total in fractional hours.
pub fn total_minutes(commits: &Vec<DayCommit>) -> (r: Result<i64, Error>)
    requires
        records_wf(records_view(commits@)),
        commits@.len() < 0xffff_ffff,
    ensures
        r is Ok <==> commits@.len() > 0,
        r is Err ==> r == Err::<i64, Error>(Error::EmptyLog),
        r is Ok ==> r->Ok_0 == total_minutes_of(records_view(commits@), commits@.len() as int),
        r is Ok ==> -1439 * (commits@.len() as int) <= r->Ok_0 <= 1439 * (commits@.len() as int),
{
    if commits.len() == 0 {
        return Err(Error::EmptyLog);
    }
    let ghost rv = records_view(commits@);
    let mut sum: i64 = 0;
    let mut i: usize = 0;
    while i < commits.len()
        invariant
            i <= commits.len(),
            rv == records_view(commits@),
            rv.len() == commits@.len() < 0xffff_ffff,
            records_wf(rv),
            sum == total_minutes_of(rv, i as int),
            -1439 * (i as int) <= sum <= 1439 * (i as int),
        decreases commits.len() - i,
    {
        let c = &commits[i];
        proof {
            assert(c@ == rv[i as int]);
        }
        match &c.end_time {
            Some(end) => {
                let d = end.sub(&c.start_time);
                let m = d.to_minutes();
                sum = sum + m as i64;
            },
            None => {},
        }
        i = i + 1;
    }
    Ok(sum)
}

} // verus!
