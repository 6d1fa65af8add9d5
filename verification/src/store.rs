//! The session store: a model of one data root. It holds at most one open
//! day record, a flat day-archive area of sealed records awaiting monthly
//! relocation, and the permanent archive keyed by year and month. Every
//! operation returns its result or one typed failure; callers that persist
//! the root mirror these transitions onto storage.

use vstd::prelude::*;

use crate::error::Error;
use crate::record::DayCommit;
use crate::record::DayCommitView;
use crate::record::Participant;
use crate::record::ParticipantView;
use crate::record::has_participant;
use crate::record::participants_unique;
use crate::time::Date;
use crate::time::Time;

verus! {

/// The name of a sealed record in the day-archive area: the day of month,
/// and a collision suffix (`0` means no suffix). It renders as
/// `<day>.json` or `<day>_<suffix>.json`.
#[derive(Clone, Copy, PartialEq, Eq, Structural, Debug)]
pub struct FileName {
    pub day: u32,
    pub suffix: usize,
}

/// The text of a file name: the day, then `_<suffix>` when the suffix
/// is not zero, then the extension.
pub open spec fn spec_file_name(nm: FileName) -> Seq<char> {
    if nm.suffix == 0 {
        crate::text::spec_u64_str(nm.day as nat) + ".json"@
    } else {
        crate::text::spec_u64_str(nm.day as nat) + "_"@ + crate::text::spec_u64_str(
            nm.suffix as nat,
        ) + ".json"@
    }
}

impl FileName {
    /// The file name as text.
    pub fn to_file_name(&self) -> (r: String)
        ensures
            r@ == spec_file_name(*self),
    {
        let mut s = crate::text::u64_to_string(self.day as u64);
        if self.suffix > 0 {
            s.append("_");
            let suf = crate::text::u64_to_string(self.suffix as u64);
            s.append(suf.as_str());
        }
        s.append(".json");
        proof {
            assert(s@ =~= spec_file_name(*self));
        }
        s
    }
}

/// A sealed record in the day-archive area, under its file name.
pub struct ArchiveEntry {
    pub name: FileName,
    pub commit: DayCommit,
}

pub ghost struct ArchiveEntryView {
    pub name: FileName,
    pub commit: DayCommitView,
}

impl View for ArchiveEntry {
    type V = ArchiveEntryView;

    open spec fn view(&self) -> ArchiveEntryView {
        ArchiveEntryView { name: self.name, commit: self.commit@ }
    }
}

/// A record in the permanent archive, under the year and month it was
/// filed into, keeping its day-archive file name.
pub struct MonthEntry {
    pub year: i32,
    pub month: u32,
    pub name: FileName,
    pub commit: DayCommit,
}

pub ghost struct MonthEntryView {
    pub year: i32,
    pub month: u32,
    pub name: FileName,
    pub commit: DayCommitView,
}

impl View for MonthEntry {
    type V = MonthEntryView;

    open spec fn view(&self) -> MonthEntryView {
        MonthEntryView { year: self.year, month: self.month, name: self.name, commit: self.commit@ }
    }
}

/// One data root.
pub struct Store {
    pub working: Option<DayCommit>,
    pub day_archive: Vec<ArchiveEntry>,
    pub monthly: Vec<MonthEntry>,
}

pub ghost struct StoreView {
    pub working: Option<DayCommitView>,
    pub day_archive: Seq<ArchiveEntryView>,
    pub monthly: Seq<MonthEntryView>,
}

impl View for Store {
    type V = StoreView;

    open spec fn view(&self) -> StoreView {
        StoreView {
            working: match self.working {
                Some(c) => Some(c@),
                None => None,
            },
            day_archive: self.day_archive@.map_values(|e: ArchiveEntry| e@),
            monthly: self.monthly@.map_values(|e: MonthEntry| e@),
        }
    }
}

/// Some entry in the day-archive area already carries this file name.
pub open spec fn name_taken(s: Seq<ArchiveEntryView>, n: FileName) -> bool {
    exists|i: int| 0 <= i < s.len() && s[i].name == n
}

impl StoreView {
    /// The open record, if any, is well formed and still open; every
    /// archived record is well formed, sealed, and named after its own
    /// day of month; no two day-archive entries share a file name.
    pub open spec fn wf(self) -> bool {
        &&& self.working is Some ==> self.working->0.wf() && self.working->0.is_open()
        &&& forall|i: int| 0 <= i < self.day_archive.len() ==> {
            &&& (#[trigger] self.day_archive[i]).commit.wf()
            &&& self.day_archive[i].commit.is_sealed()
            &&& self.day_archive[i].name.day == self.day_archive[i].commit.date.2
        }
        &&& forall|i: int, j: int|
            0 <= i < j < self.day_archive.len() ==> self.day_archive[i].name
                != self.day_archive[j].name
        &&& forall|i: int| 0 <= i < self.monthly.len() ==> {
            &&& (#[trigger] self.monthly[i]).commit.wf()
            &&& self.monthly[i].commit.is_sealed()
        }
    }
}

/// The record a fresh session starts from: the given date and start time,
/// no end time, no note, nobody yet.
pub open spec fn begin_record(date: Date, time: Time) -> DayCommitView {
    DayCommitView {
        date,
        start_time: time,
        end_time: None,
        message: None,
        participants: Seq::empty(),
    }
}

/// The root after a successful `create_working_file`.
pub open spec fn begin_post(s: StoreView, date: Date, time: Time) -> StoreView {
    StoreView { working: Some(begin_record(date, time)), ..s }
}

/// The root after a successful `remove_working_commit`.
pub open spec fn discard_post(s: StoreView) -> StoreView {
    StoreView { working: None, ..s }
}

/// The name stands somewhere in the list.
pub open spec fn name_listed(names: Seq<Seq<char>>, name: Seq<char>) -> bool {
    exists|i: int| 0 <= i < names.len() && names[i] == name
}

/// Insert one requested name: joins at `now`, silently skipped when a
/// participant of that name is already there.
pub open spec fn add_one(ps: Seq<ParticipantView>, name: Seq<char>, now: Time) -> Seq<
    ParticipantView,
> {
    if has_participant(ps, name) {
        ps
    } else {
        ps.push(ParticipantView { commit_time: now, name })
    }
}

/// The participants after inserting the first `n` requested names in order.
pub open spec fn add_names(
    ps: Seq<ParticipantView>,
    names: Seq<Seq<char>>,
    now: Time,
    n: int,
) -> Seq<ParticipantView>
    decreases n,
{
    if n <= 0 {
        ps
    } else {
        add_one(add_names(ps, names, now, n - 1), names[n - 1], now)
    }
}

/// The names among the first `n` requested that were actually new: a
/// duplicate in the request, or a name already present, is not reported.
pub open spec fn added_names(
    ps: Seq<ParticipantView>,
    names: Seq<Seq<char>>,
    now: Time,
    n: int,
) -> Seq<Seq<char>>
    decreases n,
{
    if n <= 0 {
        Seq::empty()
    } else {
        let prev = added_names(ps, names, now, n - 1);
        if has_participant(add_names(ps, names, now, n - 1), names[n - 1]) {
            prev
        } else {
            prev.push(names[n - 1])
        }
    }
}

/// The participants after removing every one whose name is listed.
pub open spec fn remove_names(ps: Seq<ParticipantView>, names: Seq<Seq<char>>) -> Seq<
    ParticipantView,
> {
    ps.filter(|p: ParticipantView| !name_listed(names, p.name))
}

/// The root with the open record's participants replaced.
pub open spec fn with_participants(s: StoreView, ps: Seq<ParticipantView>) -> StoreView {
    StoreView { working: Some(DayCommitView { participants: ps, ..s.working->0 }), ..s }
}

/// The given record, sealed: end time and closing note fixed.
pub open spec fn seal_record(c: DayCommitView, end: Time, msg: Seq<char>) -> DayCommitView {
    DayCommitView { end_time: Some(end), message: Some(msg), ..c }
}

/// A file name that the day archiver may give a sealed record: named
/// after the record's day of month, not yet taken, and with the least
/// suffix among such names — the bare day first, then `_1`, `_2`, and on.
pub open spec fn is_fresh_name(s: Seq<ArchiveEntryView>, nm: FileName, day: u32) -> bool {
    &&& nm.day == day
    &&& !name_taken(s, nm)
    &&& forall|k: int|
        0 <= k < nm.suffix ==> #[trigger] name_taken(s, FileName { day, suffix: k as usize })
}

/// The root after a successful `commit_a_day` that filed the sealed
/// record under `nm`.
pub open spec fn commit_post(s: StoreView, nm: FileName, end: Time, msg: Seq<char>) -> StoreView {
    StoreView {
        working: None,
        day_archive: s.day_archive.push(
            ArchiveEntryView { name: nm, commit: seal_record(s.working->0, end, msg) },
        ),
        monthly: s.monthly,
    }
}

/// The root after a successful `push_a_month`: the day-archive area is
/// empty, and every record it held stands in the permanent archive under
/// the year and month of the first archived record, keeping its name.
/// One archived record as it is filed into the permanent archive: under
/// the anchor's year and month, keeping its name and content.
pub open spec fn moved_entry(anchor: Date, e: ArchiveEntryView) -> MonthEntryView {
    MonthEntryView { year: anchor.0, month: anchor.1, name: e.name, commit: e.commit }
}

pub open spec fn push_post(s: StoreView) -> StoreView {
    let anchor = s.day_archive[0].commit.date;
    StoreView {
        working: s.working,
        day_archive: Seq::empty(),
        monthly: s.monthly + Seq::new(
            s.day_archive.len(),
            |i: int| moved_entry(anchor, s.day_archive[i]),
        ),
    }
}

/// The records held in the day-archive area, in order.
pub open spec fn archive_commits(s: Seq<ArchiveEntryView>) -> Seq<DayCommitView> {
    Seq::new(s.len(), |i: int| s[i].commit)
}

/// `n` entries cannot take all of the `n + 1` file names whose suffix
/// lies in `0 ..= n`, so some candidate in that range is free.
proof fn lemma_free_name_exists(s: Seq<ArchiveEntryView>, day: u32)
    requires
        s.len() <= usize::MAX,
    ensures
        exists|k: int|
            0 <= k <= s.len() && !(#[trigger] name_taken(s, FileName { day, suffix: k as usize })),
{
    let n = s.len() as int;
    if !(exists|k: int|
        0 <= k <= n && !(#[trigger] name_taken(s, FileName { day, suffix: k as usize }))) {
        let sufs = Seq::new(
            s.len(),
            |i: int| if s[i].name.day == day { s[i].name.suffix as int } else { -1 },
        );
        assert forall|k: int| 0 <= k <= n implies sufs.to_set().contains(k) by {
            assert(name_taken(s, FileName { day, suffix: k as usize }));
            let i = choose|i: int|
                0 <= i < s.len() && s[i].name == (FileName { day, suffix: k as usize });
            assert(sufs[i] == k);
            assert(sufs.contains(k));
        }
        assert(vstd::set_lib::set_int_range(0, n + 1).subset_of(sufs.to_set()));
        vstd::set_lib::lemma_int_range(0, n + 1);
        sufs.lemma_cardinality_of_set();
        vstd::seq_lib::seq_to_set_is_finite(sufs);
        vstd::set_lib::lemma_len_subset(vstd::set_lib::set_int_range(0, n + 1), sufs.to_set());
        assert(false);
    }
}

/// Inserting requested names keeps participants unique by name and keeps
/// every join time well formed.
proof fn lemma_add_names_wf(ps: Seq<ParticipantView>, names: Seq<Seq<char>>, now: Time, n: int)
    requires
        participants_unique(ps),
        forall|i: int| 0 <= i < ps.len() ==> (#[trigger] ps[i]).commit_time.wf(),
        now.wf(),
    ensures
        participants_unique(add_names(ps, names, now, n)),
        forall|i: int|
            0 <= i < add_names(ps, names, now, n).len() ==> (#[trigger] add_names(
                ps,
                names,
                now,
                n,
            )[i]).commit_time.wf(),
    decreases n,
{
    if n > 0 {
        lemma_add_names_wf(ps, names, now, n - 1);
    }
}

/// Every filtered-out participant list is a selection from the original:
/// each kept element stands somewhere in the source, so filtering keeps
/// participants unique by name and keeps every join time well formed.
proof fn lemma_remove_names_wf(ps: Seq<ParticipantView>, names: Seq<Seq<char>>)
    ensures
        forall|i: int|
            0 <= i < remove_names(ps, names).len() ==> exists|j: int|
                0 <= j < ps.len() && #[trigger] remove_names(ps, names)[i] == ps[j],
        participants_unique(ps) ==> participants_unique(remove_names(ps, names)),
        (forall|i: int| 0 <= i < ps.len() ==> (#[trigger] ps[i]).commit_time.wf())
            ==> forall|i: int|
            0 <= i < remove_names(ps, names).len() ==> (#[trigger] remove_names(
                ps,
                names,
            )[i]).commit_time.wf(),
    decreases ps.len(),
{
    reveal_with_fuel(Seq::<_>::filter, 2);
    if ps.len() > 0 {
        lemma_remove_names_wf(ps.drop_last(), names);
        let kept = remove_names(ps.drop_last(), names);
        let whole = remove_names(ps, names);
        assert forall|i: int| 0 <= i < whole.len() implies exists|j: int|
            0 <= j < ps.len() && #[trigger] whole[i] == ps[j] by {
            if i < kept.len() {
                let j = choose|j: int|
                    0 <= j < ps.drop_last().len() && #[trigger] kept[i] == ps.drop_last()[j];
                assert(whole[i] == ps[j]);
            } else {
                assert(whole[i] == ps[ps.len() - 1]);
            }
        }
        if participants_unique(ps) {
            assert(participants_unique(ps.drop_last()));
            assert forall|i: int| 0 <= i < kept.len() implies (#[trigger] kept[i]).name
                != ps.last().name by {
                let j = choose|j: int|
                    0 <= j < ps.drop_last().len() && #[trigger] kept[i] == ps.drop_last()[j];
                assert(kept[i] == ps[j]);
                assert(ps[j].name != ps[ps.len() - 1].name);
            }
            assert(whole == kept || whole == kept.push(ps.last()));
            assert(participants_unique(whole));
        }
    }
}

/// Whether some day-archive entry already carries this file name; a
/// linear scan, re-run for every probe as the archiver does.
fn name_in_archive(entries: &Vec<ArchiveEntry>, nm: FileName) -> (r: bool)
    ensures
        r == name_taken(entries@.map_values(|e: ArchiveEntry| e@), nm),
{
    let ghost s = entries@.map_values(|e: ArchiveEntry| e@);
    let mut i: usize = 0;
    while i < entries.len()
        invariant
            i <= entries.len(),
            s == entries@.map_values(|e: ArchiveEntry| e@),
            forall|j: int| 0 <= j < i ==> s[j].name != nm,
        decreases entries.len() - i,
    {
        if entries[i].name == nm {
            assert(s[i as int].name == nm);
            return true;
        }
        i = i + 1;
    }
    false
}

/// Whether some participant carries this name; a linear scan.
fn find_participant(ps: &Vec<Participant>, name: &String) -> (r: bool)
    ensures
        r == has_participant(ps@.map_values(|p: Participant| p@), name@),
{
    let ghost psv = ps@.map_values(|p: Participant| p@);
    let mut i: usize = 0;
    while i < ps.len()
        invariant
            i <= ps.len(),
            psv == ps@.map_values(|p: Participant| p@),
            forall|j: int| 0 <= j < i ==> psv[j].name != name@,
        decreases ps.len() - i,
    {
        if ps[i].name == *name {
            assert(psv[i as int].name == name@);
            return true;
        }
        i = i + 1;
    }
    false
}

/// Whether the name stands in the list; a linear scan.
fn find_name(names: &Vec<String>, name: &String) -> (r: bool)
    ensures
        r == name_listed(names.deep_view(), name@),
{
    let mut i: usize = 0;
    while i < names.len()
        invariant
            i <= names.len(),
            forall|j: int| 0 <= j < i ==> names.deep_view()[j] != name@,
        decreases names.len() - i,
    {
        if names[i] == *name {
            assert(names.deep_view()[i as int] == name@);
            return true;
        }
        i = i + 1;
    }
    false
}

impl Store {
    /// An empty data root: no open session, nothing archived.
    pub fn new() -> (s: Store)
        ensures
            s@.working is None,
            s@.day_archive =~= Seq::<ArchiveEntryView>::empty(),
            s@.monthly =~= Seq::<MonthEntryView>::empty(),
            s@.wf(),
    {
        Store { working: None, day_archive: Vec::new(), monthly: Vec::new() }
    }

    /// Begin the day: create the open record. Fails if and only if a
    /// session is already open, and then changes nothing.
    pub fn create_working_file(&mut self, date: Date, time: Time) -> (r: Result<DayCommit, Error>)
        requires
            old(self)@.wf(),
            date.wf(),
            time.wf(),
        ensures
            r is Ok <==> old(self)@.working is None,
            r is Err ==> r == Err::<DayCommit, Error>(Error::AlreadyOpen) && final(self)@ == old(self)@,
            r is Ok ==> final(self)@ == begin_post(old(self)@, date, time) && r->Ok_0@ == begin_record(
                date,
                time,
            ),
            final(self)@.wf(),
    {
        if self.working.is_some() {
            return Err(Error::AlreadyOpen);
        }
        let day_commit = DayCommit {
            date,
            start_time: time,
            end_time: None,
            message: None,
            participants: Vec::new(),
        };
        let out = day_commit.clone();
        self.working = Some(day_commit);
        proof {
            assert(self@.day_archive =~= old(self)@.day_archive);
            assert(self@.monthly =~= old(self)@.monthly);
            assert(self@.working->0.participants =~= begin_record(date, time).participants);
            assert(self@ == begin_post(old(self)@, date, time));
        }
        Ok(out)
    }

    /// Read the open record. Fails if and only if no session is open.
    pub fn get_working_commit(&self) -> (r: Result<DayCommit, Error>)
        ensures
            r is Ok <==> self@.working is Some,
            r is Err ==> r == Err::<DayCommit, Error>(Error::NoOpenSession),
            r is Ok ==> r->Ok_0@ == self@.working->0,
    {
        match &self.working {
            Some(c) => Ok(c.clone()),
            None => Err(Error::NoOpenSession),
        }
    }

    /// Add the requested names to the open record, each joining at `now`.
    /// A name already present, or repeated in one request, is silently
    /// skipped; the result lists the names that were actually new, in
    /// request order. Fails if and only if no session is open, and then
    /// changes nothing.
    pub fn add(&mut self, names: &Vec<String>, now: Time) -> (r: Result<Vec<String>, Error>)
        requires
            old(self)@.wf(),
            now.wf(),
        ensures
            r is Ok <==> old(self)@.working is Some,
            r is Err ==> r == Err::<Vec<String>, Error>(Error::NoOpenSession) && final(self)@
                == old(self)@,
            r is Ok ==> final(self)@ == with_participants(
                old(self)@,
                add_names(
                    old(self)@.working->0.participants,
                    names.deep_view(),
                    now,
                    names.deep_view().len() as int,
                ),
            ),
            r is Ok ==> r->Ok_0.deep_view() == added_names(
                old(self)@.working->0.participants,
                names.deep_view(),
                now,
                names.deep_view().len() as int,
            ),
            final(self)@.wf(),
    {
        let mut day = match &self.working {
            Some(c) => c.clone(),
            None => {
                return Err(Error::NoOpenSession);
            },
        };
        let ghost ps0 = old(self)@.working->0.participants;
        let ghost names_v = names.deep_view();
        let mut added: Vec<String> = Vec::new();
        let mut i: usize = 0;
        while i < names.len()
            invariant
                i <= names.len(),
                names_v == names.deep_view(),
                names_v.len() == names.len(),
                day@.participants == add_names(ps0, names_v, now, i as int),
                added.deep_view() == added_names(ps0, names_v, now, i as int),
                day@.date == old(self)@.working->0.date,
                day@.start_time == old(self)@.working->0.start_time,
                day@.end_time == old(self)@.working->0.end_time,
                day@.message == old(self)@.working->0.message,
            decreases names.len() - i,
        {
            let name = &names[i];
            if !find_participant(&day.participants, name) {
                day.participants.push(
                    Participant { commit_time: now, name: name.clone() },
                );
                added.push(name.clone());
                proof {
                    assert(day@.participants =~= add_names(ps0, names_v, now, i as int).push(
                        ParticipantView { commit_time: now, name: names_v[i as int] },
                    ));
                    assert(added.deep_view() =~= added_names(ps0, names_v, now, i as int).push(
                        names_v[i as int],
                    ));
                }
            }
            proof {
                assert(day@.participants == add_names(ps0, names_v, now, i + 1));
                assert(added.deep_view() == added_names(ps0, names_v, now, i + 1));
            }
            i = i + 1;
        }
        self.working = Some(day);
        proof {
            assert(final(self)@.day_archive =~= old(self)@.day_archive);
            assert(final(self)@.monthly =~= old(self)@.monthly);
            assert(final(self)@ == with_participants(
                old(self)@,
                add_names(ps0, names_v, now, names_v.len() as int),
            ));
            lemma_add_names_wf(ps0, names_v, now, names_v.len() as int);
        }
        Ok(added)
    }

    /// Remove every participant whose name stands in the list, whatever
    /// their join time; a listed name with no participant is a no-op, not
    /// an error. Fails if and only if no session is open, and then
    /// changes nothing.
    pub fn rm(&mut self, names: &Vec<String>) -> (r: Result<(), Error>)
        requires
            old(self)@.wf(),
        ensures
            r is Ok <==> old(self)@.working is Some,
            r is Err ==> r == Err::<(), Error>(Error::NoOpenSession) && final(self)@ == old(
                self,
            )@,
            r is Ok ==> final(self)@ == with_participants(
                old(self)@,
                remove_names(old(self)@.working->0.participants, names.deep_view()),
            ),
            final(self)@.wf(),
    {
        let day = match &self.working {
            Some(c) => c.clone(),
            None => {
                return Err(Error::NoOpenSession);
            },
        };
        let ghost ps0 = old(self)@.working->0.participants;
        let ghost names_v = names.deep_view();
        let mut kept: Vec<Participant> = Vec::new();
        let mut i: usize = 0;
        while i < day.participants.len()
            invariant
                i <= day.participants.len(),
                names_v == names.deep_view(),
                day@.participants == ps0,
                day@.participants.len() == day.participants.len(),
                kept@.map_values(|p: Participant| p@) == remove_names(
                    ps0.take(i as int),
                    names_v,
                ),
            decreases day.participants.len() - i,
        {
            let p = &day.participants[i];
            proof {
                assert(ps0.take(i + 1).drop_last() =~= ps0.take(i as int));
                assert(ps0.take(i + 1).last() == p@);
                reveal_with_fuel(Seq::<_>::filter, 2);
            }
            if !find_name(names, &p.name) {
                kept.push(p.clone());
                proof {
                    assert(kept@.map_values(|q: Participant| q@) =~= remove_names(
                        ps0.take(i as int),
                        names_v,
                    ).push(p@));
                }
            }
            proof {
                assert(kept@.map_values(|q: Participant| q@) == remove_names(
                    ps0.take(i + 1),
                    names_v,
                ));
            }
            i = i + 1;
        }
        let sealed = DayCommit {
            date: day.date,
            start_time: day.start_time,
            end_time: day.end_time,
            message: day.message,
            participants: kept,
        };
        self.working = Some(sealed);
        proof {
            assert(ps0.take(ps0.len() as int) =~= ps0);
            assert(final(self)@.day_archive =~= old(self)@.day_archive);
            assert(final(self)@.monthly =~= old(self)@.monthly);
            assert(final(self)@ == with_participants(old(self)@, remove_names(ps0, names_v)));
            lemma_remove_names_wf(ps0, names_v);
        }
        Ok(())
    }

    /// Seal the open record with the end time and the closing note, file
    /// it in the day-archive area under a fresh collision-safe name, and
    /// remove the open record. Fails if and only if no session is open,
    /// and then changes nothing. The name is the record's day of month
    /// with the least free suffix, found by probing the existing names.
    pub fn commit_a_day(&mut self, end_time: Time, message: String) -> (r: Result<
        DayCommit,
        Error,
    >)
        requires
            old(self)@.wf(),
            end_time.wf(),
        ensures
            r is Ok <==> old(self)@.working is Some,
            r is Err ==> r == Err::<DayCommit, Error>(Error::NoOpenSession) && final(self)@
                == old(self)@,
            r is Ok ==> ({
                let nm = final(self)@.day_archive.last().name;
                &&& is_fresh_name(old(self)@.day_archive, nm, old(self)@.working->0.date.2)
                &&& final(self)@ == commit_post(old(self)@, nm, end_time, message@)
                &&& r->Ok_0@ == seal_record(old(self)@.working->0, end_time, message@)
            }),
            final(self)@.wf(),
    {
        let day = match &self.working {
            Some(c) => c.clone(),
            None => {
                return Err(Error::NoOpenSession);
            },
        };
        let sealed = DayCommit {
            date: day.date,
            start_time: day.start_time,
            end_time: Some(end_time),
            message: Some(message),
            participants: day.participants,
        };
        let out = sealed.clone();
        let d = sealed.date.2;
        let archive_len = self.day_archive.len();
        let ghost names = self@.day_archive;
        proof {
            assert(names.len() == archive_len);
            lemma_free_name_exists(names, d);
        }
        let ghost k0 = choose|k: int|
            0 <= k <= names.len() && !(#[trigger] name_taken(
                names,
                FileName { day: d, suffix: k as usize },
            ));
        let mut suffix: usize = 0;
        loop
            invariant_except_break
                0 <= suffix <= k0,
                k0 <= names.len(),
                names.len() <= usize::MAX,
                !name_taken(names, FileName { day: d, suffix: k0 as usize }),
                names == self@.day_archive,
                forall|k: int|
                    0 <= k < suffix ==> #[trigger] name_taken(
                        names,
                        FileName { day: d, suffix: k as usize },
                    ),
            ensures
                names == self@.day_archive,
                !name_taken(names, FileName { day: d, suffix }),
                forall|k: int|
                    0 <= k < suffix ==> #[trigger] name_taken(
                        names,
                        FileName { day: d, suffix: k as usize },
                    ),
            decreases k0 - suffix,
        {
            if !name_in_archive(&self.day_archive, FileName { day: d, suffix }) {
                break;
            }
            proof {
                assert(suffix != k0);
            }
            suffix = suffix + 1;
        }
        let nm = FileName { day: d, suffix };
        self.day_archive.push(ArchiveEntry { name: nm, commit: sealed });
        self.working = None;
        proof {
            assert(final(self)@.day_archive =~= names.push(
                ArchiveEntryView {
                    name: nm,
                    commit: seal_record(old(self)@.working->0, end_time, message@),
                },
            ));
            assert(final(self)@.monthly =~= old(self)@.monthly);
            assert(final(self)@ == commit_post(old(self)@, nm, end_time, message@));
        }
        Ok(out)
    }

    /// List the sealed records in the day-archive area, in order. Fails
    /// if and only if the area holds nothing, signalling nothing to
    /// summarize.
    pub fn get_working_directory_commit(&self) -> (r: Result<Vec<DayCommit>, Error>)
        ensures
            r is Ok <==> self@.day_archive.len() > 0,
            r is Err ==> r == Err::<Vec<DayCommit>, Error>(Error::EmptyLog),
            r is Ok ==> crate::aggregate::records_view(r->Ok_0@) =~= archive_commits(
                self@.day_archive,
            ),
    {
        if self.day_archive.len() == 0 {
            return Err(Error::EmptyLog);
        }
        let mut commits: Vec<DayCommit> = Vec::new();
        let mut i: usize = 0;
        while i < self.day_archive.len()
            invariant
                i <= self.day_archive.len(),
                commits@.len() == i,
                forall|j: int|
                    0 <= j < i ==> (#[trigger] commits@[j])@ == self@.day_archive[j].commit,
            decreases self.day_archive.len() - i,
        {
            let c = self.day_archive[i].commit.clone();
            proof {
                assert(self.day_archive@[i as int]@ == self@.day_archive[i as int]);
            }
            commits.push(c);
            i = i + 1;
        }
        proof {
            assert(crate::aggregate::records_view(commits@) =~= archive_commits(
                self@.day_archive,
            ));
        }
        Ok(commits)
    }

    /// Relocate every record in the day-archive area into the permanent
    /// archive, under the year and month of the first archived record,
    /// each keeping its file name; the day-archive area is empty after.
    /// Fails if and only if the area holds nothing, and then changes
    /// nothing.
    pub fn push_a_month(&mut self) -> (r: Result<(), Error>)
        requires
            old(self)@.wf(),
        ensures
            r is Ok <==> old(self)@.day_archive.len() > 0,
            r is Err ==> r == Err::<(), Error>(Error::EmptyArchive) && final(self)@ == old(
                self,
            )@,
            r is Ok ==> final(self)@ == push_post(old(self)@),
            final(self)@.wf(),
    {
        if self.day_archive.len() == 0 {
            return Err(Error::EmptyArchive);
        }
        let year = self.day_archive[0].commit.date.0;
        let month = self.day_archive[0].commit.date.1;
        let ghost arch0 = old(self)@.day_archive;
        let ghost mon0 = old(self)@.monthly;
        let ghost anchor = arch0[0].commit.date;
        let mut i: usize = 0;
        while i < self.day_archive.len()
            invariant
                i <= self.day_archive.len(),
                self@.working == old(self)@.working,
                self@.day_archive == arch0,
                arch0 == old(self)@.day_archive,
                mon0 == old(self)@.monthly,
                arch0.len() > 0,
                anchor == arch0[0].commit.date,
                year == anchor.0,
                month == anchor.1,
                self@.monthly =~= mon0 + Seq::new(
                    i as nat,
                    |j: int| moved_entry(anchor, arch0[j]),
                ),
            decreases self.day_archive.len() - i,
        {
            let e = &self.day_archive[i];
            let entry = MonthEntry { year, month, name: e.name, commit: e.commit.clone() };
            let ghost ev = entry@;
            proof {
                assert(self@.day_archive[i as int] == arch0[i as int]);
                assert(ev == moved_entry(anchor, arch0[i as int]));
            }
            self.monthly.push(entry);
            proof {
                assert(self@.monthly =~= (mon0 + Seq::new(
                    i as nat,
                    |j: int| moved_entry(anchor, arch0[j]),
                )).push(ev));
                assert(Seq::new((i + 1) as nat, |j: int| moved_entry(anchor, arch0[j])) =~= Seq::new(
                    i as nat,
                    |j: int| moved_entry(anchor, arch0[j]),
                ).push(ev));
                assert(self@.monthly =~= mon0 + Seq::new(
                    (i + 1) as nat,
                    |j: int| moved_entry(anchor, arch0[j]),
                ));
            }
            i = i + 1;
        }
        self.day_archive.clear();
        proof {
            assert(final(self)@.day_archive =~= Seq::<ArchiveEntryView>::empty());
            assert(final(self)@.monthly =~= push_post(old(self)@).monthly);
            assert(final(self)@ == push_post(old(self)@));
        }
        Ok(())
    }

    /// Discard the open record. Fails if and only if no session is open,
    /// and then changes nothing; on success only the open record goes.
    pub fn remove_working_commit(&mut self) -> (r: Result<(), Error>)
        requires
            old(self)@.wf(),
        ensures
            r is Ok <==> old(self)@.working is Some,
            r is Err ==> r == Err::<(), Error>(Error::NoOpenSession) && final(self)@ == old(self)@,
            r is Ok ==> final(self)@ == discard_post(old(self)@),
            final(self)@.wf(),
    {
        if self.working.is_none() {
            return Err(Error::NoOpenSession);
        }
        self.working = None;
        proof {
            assert(self@.day_archive =~= old(self)@.day_archive);
            assert(self@.monthly =~= old(self)@.monthly);
            assert(self@ == discard_post(old(self)@));
        }
        Ok(())
    }
}

} // verus!

