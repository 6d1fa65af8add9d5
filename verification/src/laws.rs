//! Laws of the session lifecycle, stated over the store's mathematical
//! model. Each one relates the transitions that the store's operations
//! promise in their contracts.

use vstd::prelude::*;

use crate::record::ParticipantView;
use crate::record::has_participant;
use crate::record::participants_unique;
use crate::store::FileName;
use crate::store::StoreView;
use crate::store::add_names;
use crate::store::added_names;
use crate::store::begin_post;
use crate::store::commit_post;
use crate::store::is_fresh_name;
use crate::store::moved_entry;
use crate::store::name_listed;
use crate::store::name_taken;
use crate::store::push_post;
use crate::store::remove_names;
use crate::time::Date;
use crate::time::Time;

verus! {

/// A successful begin leaves the root with an open session. Since
/// `create_working_file` succeeds if and only if no session is open, a
/// second begin before a discard or a finalize is refused.
pub proof fn lemma_begin_excludes_begin(s: StoreView, date: Date, time: Time)
    ensures
        begin_post(s, date, time).working is Some,
{
}

/// A successful finalize leaves the root with no open session and with
/// exactly one new day-archive record, the sealed form of the record
/// that was open. Since `commit_a_day` succeeds if and only if a session
/// is open, a second finalize right after is refused.
pub proof fn lemma_finalize_closes(s: StoreView, nm: FileName, end: Time, msg: Seq<char>)
    ensures
        commit_post(s, nm, end, msg).working is None,
        commit_post(s, nm, end, msg).day_archive.len() == s.day_archive.len() + 1,
        commit_post(s, nm, end, msg).day_archive.last().commit.is_sealed(),
{
}

/// There is only one fresh name for a day: the archiver's probe is
/// deterministic, whatever order it finds the existing names in.
pub proof fn lemma_fresh_name_unique(
    s: Seq<crate::store::ArchiveEntryView>,
    nm1: FileName,
    nm2: FileName,
    day: u32,
)
    requires
        is_fresh_name(s, nm1, day),
        is_fresh_name(s, nm2, day),
    ensures
        nm1 == nm2,
{
    if nm1.suffix < nm2.suffix {
        let k = nm1.suffix as int;
        assert(name_taken(s, FileName { day, suffix: k as usize }));
        assert(nm1 == FileName { day, suffix: k as usize });
    }
    if nm2.suffix < nm1.suffix {
        let k = nm2.suffix as int;
        assert(name_taken(s, FileName { day, suffix: k as usize }));
        assert(nm2 == FileName { day, suffix: k as usize });
    }
}

/// Requested names join at most once: however often a name repeats in
/// one request, and whatever was there before, the participants stay
/// unique by name.
pub proof fn lemma_add_names_unique(
    ps: Seq<ParticipantView>,
    names: Seq<Seq<char>>,
    now: Time,
    n: int,
)
    requires
        participants_unique(ps),
    ensures
        participants_unique(add_names(ps, names, now, n)),
    decreases n,
{
    if n > 0 {
        lemma_add_names_unique(ps, names, now, n - 1);
    }
}

/// The reported added names list each new name exactly once: every name
/// in it was absent before the call, stands among the participants
/// after, and never repeats, even when the request repeats it.
pub proof fn lemma_added_names_exact(
    ps: Seq<ParticipantView>,
    names: Seq<Seq<char>>,
    now: Time,
    n: int,
)
    ensures
        added_names(ps, names, now, n).no_duplicates(),
        forall|j: int|
            0 <= j < added_names(ps, names, now, n).len() ==> has_participant(
                add_names(ps, names, now, n),
                #[trigger] added_names(ps, names, now, n)[j],
            ),
        forall|j: int|
            0 <= j < added_names(ps, names, now, n).len() ==> !has_participant(
                ps,
                #[trigger] added_names(ps, names, now, n)[j],
            ),
    decreases n,
{
    if n > 0 {
        lemma_added_names_exact(ps, names, now, n - 1);
        let prev = add_names(ps, names, now, n - 1);
        let cur = add_names(ps, names, now, n);
        let added_prev = added_names(ps, names, now, n - 1);
        let added_cur = added_names(ps, names, now, n);
        assert forall|j: int|
            0 <= j < added_prev.len() implies has_participant(
            cur,
            #[trigger] added_prev[j],
        ) by {
            let w = choose|w: int| 0 <= w < prev.len() && prev[w].name == added_prev[j];
            assert(cur[w].name == added_prev[j]);
        }
        if !has_participant(prev, names[n - 1]) {
            assert(cur == prev.push(ParticipantView { commit_time: now, name: names[n - 1] }));
            assert(cur[prev.len() as int].name == names[n - 1]);
            assert(has_participant(cur, names[n - 1]));
            assert forall|j: int| 0 <= j < added_prev.len() implies added_prev[j] != names[n
                - 1] by {
                assert(has_participant(prev, added_prev[j]));
            }
            assert(added_cur.no_duplicates());
            if has_participant(ps, names[n - 1]) {
                let w = choose|w: int| 0 <= w < ps.len() && ps[w].name == names[n - 1];
                lemma_add_names_extends(ps, names, now, n - 1, w);
                assert(false);
            }
        }
    }
}

/// Inserting names never disturbs what was already there: the original
/// participants stay, at their indices, with their join times.
pub proof fn lemma_add_names_extends(
    ps: Seq<ParticipantView>,
    names: Seq<Seq<char>>,
    now: Time,
    n: int,
    i: int,
)
    requires
        0 <= i < ps.len(),
        n >= 0,
    ensures
        add_names(ps, names, now, n).len() >= ps.len(),
        add_names(ps, names, now, n)[i] == ps[i],
    decreases n,
{
    if n > 0 {
        lemma_add_names_extends(ps, names, now, n - 1, i);
    }
}

/// A remove deletes every participant carrying a listed name, whatever
/// their join time: nobody left carries one.
pub proof fn lemma_remove_deletes_matches(ps: Seq<ParticipantView>, names: Seq<Seq<char>>)
    ensures
        forall|i: int|
            0 <= i < remove_names(ps, names).len() ==> !name_listed(
                names,
                (#[trigger] remove_names(ps, names)[i]).name,
            ),
{
    let pred = |p: ParticipantView| !name_listed(names, p.name);
    assert forall|i: int|
        0 <= i < remove_names(ps, names).len() implies !name_listed(
        names,
        (#[trigger] remove_names(ps, names)[i]).name,
    ) by {
        ps.lemma_filter_pred(pred, i);
    }
}

/// Removing names that nobody carries is a no-op, not an error: the
/// participants come through unchanged.
pub proof fn lemma_remove_absent_noop(ps: Seq<ParticipantView>, names: Seq<Seq<char>>)
    requires
        forall|i: int| 0 <= i < ps.len() ==> !name_listed(names, (#[trigger] ps[i]).name),
    ensures
        remove_names(ps, names) == ps,
    decreases ps.len(),
{
    reveal_with_fuel(Seq::<_>::filter, 2);
    if ps.len() == 0 {
        assert(remove_names(ps, names) =~= ps);
    } else {
        lemma_remove_absent_noop(ps.drop_last(), names);
        assert(remove_names(ps, names) =~= ps.drop_last().push(ps.last()));
        assert(ps.drop_last().push(ps.last()) =~= ps);
    }
}

/// After a month push the day-archive area is empty, and every record it
/// held stands in the permanent archive under the year and month of the
/// first archived record, keeping its file name and content.
pub proof fn lemma_push_moves_all(s: StoreView)
    requires
        s.day_archive.len() > 0,
    ensures
        push_post(s).day_archive.len() == 0,
        push_post(s).working == s.working,
        push_post(s).monthly.len() == s.monthly.len() + s.day_archive.len(),
        forall|i: int|
            0 <= i < s.monthly.len() ==> push_post(s).monthly[i] == s.monthly[i],
        forall|i: int|
            0 <= i < s.day_archive.len() ==> push_post(s).monthly[s.monthly.len() + i]
                == moved_entry(s.day_archive[0].commit.date, #[trigger] s.day_archive[i]),
{
}

} // verus!
