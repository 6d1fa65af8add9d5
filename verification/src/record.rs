//! The day record: who attended, when the session started and ended, and
//! the closing note. A record is open (no end time, no note) until it is
//! sealed, after which both are present. Participants are a set keyed by
//! name that keeps insertion order.

use vstd::prelude::*;

use crate::time::Date;
use crate::time::Time;

verus! {

/// Someone who attended, and the time they were added.
#[derive(Debug)]
pub struct Participant {
    pub commit_time: Time,
    pub name: String,
}

/// The mathematical value of a `Participant`.
pub ghost struct ParticipantView {
    pub commit_time: Time,
    pub name: Seq<char>,
}

impl View for Participant {
    type V = ParticipantView;

    open spec fn view(&self) -> ParticipantView {
        ParticipantView { commit_time: self.commit_time, name: self.name@ }
    }
}

impl Participant {
    pub fn clone(&self) -> (r: Participant)
        ensures
            r@ == self@,
    {
        Participant { commit_time: self.commit_time, name: self.name.clone() }
    }
}

/// One day's record.
#[derive(Debug)]
pub struct DayCommit {
    pub date: Date,
    pub start_time: Time,
    pub end_time: Option<Time>,
    pub message: Option<String>,
    pub participants: Vec<Participant>,
}

/// The mathematical value of a `DayCommit`.
pub ghost struct DayCommitView {
    pub date: Date,
    pub start_time: Time,
    pub end_time: Option<Time>,
    pub message: Option<Seq<char>>,
    pub participants: Seq<ParticipantView>,
}

impl View for DayCommit {
    type V = DayCommitView;

    open spec fn view(&self) -> DayCommitView {
        DayCommitView {
            date: self.date,
            start_time: self.start_time,
            end_time: self.end_time,
            message: match self.message {
                Some(m) => Some(m@),
                None => None,
            },
            participants: self.participants@.map_values(|p: Participant| p@),
        }
    }
}

/// No two participants share a name.
pub open spec fn participants_unique(s: Seq<ParticipantView>) -> bool {
    forall|i: int, j: int| 0 <= i < j < s.len() ==> s[i].name != s[j].name
}

/// Some participant carries this name.
pub open spec fn has_participant(s: Seq<ParticipantView>, name: Seq<char>) -> bool {
    exists|i: int| 0 <= i < s.len() && s[i].name == name
}

impl DayCommitView {
    /// Times lie in their ranges, participants are unique by name, and the
    /// end time and the note are either both absent (open) or both present
    /// (sealed).
    pub open spec fn wf(self) -> bool {
        &&& self.date.wf()
        &&& self.start_time.wf()
        &&& (self.end_time is Some ==> self.end_time->0.wf())
        &&& (self.end_time is Some <==> self.message is Some)
        &&& participants_unique(self.participants)
        &&& forall|i: int| 0 <= i < self.participants.len() ==> (
            #[trigger] self.participants[i]).commit_time.wf()
    }

    /// Still open: not yet sealed.
    pub open spec fn is_open(self) -> bool {
        self.end_time is None && self.message is None
    }

    /// Sealed: end time and note fixed.
    pub open spec fn is_sealed(self) -> bool {
        self.end_time is Some && self.message is Some
    }
}

impl DayCommit {
    pub fn clone(&self) -> (r: DayCommit)
        ensures
            r@ == self@,
    {
        let mut participants: Vec<Participant> = Vec::new();
        let mut i: usize = 0;
        while i < self.participants.len()
            invariant
                i <= self.participants.len(),
                participants@.len() == i,
                forall|j: int| 0 <= j < i ==> (#[trigger] participants@[j])@
                    == self.participants@[j]@,
            decreases self.participants.len() - i,
        {
            participants.push(self.participants[i].clone());
            i = i + 1;
        }
        let r = DayCommit {
            date: self.date,
            start_time: self.start_time,
            end_time: self.end_time,
            message: match &self.message {
                Some(m) => Some(m.clone()),
                None => None,
            },
            participants,
        };
        assert(r@.participants =~= self@.participants);
        assert(r@ == self@);
        r
    }
}

} // verus!
