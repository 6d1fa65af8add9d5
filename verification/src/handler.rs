//! One function per chat operation, each taking already-parsed
//! arguments: it runs the store operation and maps its result or its
//! typed failure to the response the user sees. The dispatcher outside
//! the library parses raw text and picks the function.

use vstd::prelude::*;

use crate::message::spec_added_message;
use crate::message::spec_already_initialized_message;
use crate::message::spec_committed_message;
use crate::message::spec_help_message;
use crate::message::spec_initialized_message;
use crate::message::spec_invalid_argument_message;
use crate::message::spec_log_message;
use crate::message::spec_not_initialized_message;
use crate::message::spec_push_message;
use crate::message::spec_removed_message;
use crate::message::spec_resetted_message;
use crate::message::spec_status_message;
use crate::message::added_message;
use crate::message::already_initialized_message;
use crate::message::committed_message;
use crate::message::help_message;
use crate::message::initialized_message;
use crate::message::invalid_argument_message;
use crate::message::log_message;
use crate::message::not_initialized_message;
use crate::message::push_message;
use crate::message::removed_message;
use crate::message::resetted_message;
use crate::message::status_message;
use crate::slack::Response;
use crate::store::Store;
use crate::store::add_names;
use crate::store::added_names;
use crate::store::archive_commits;
use crate::store::begin_post;
use crate::store::begin_record;
use crate::store::remove_names;
use crate::store::seal_record;
use crate::store::with_participants;
use crate::time::Date;
use crate::time::Time;

verus! {

/// Begin the day. A root with a session already open is told so and
/// left unchanged.
pub fn init_command(store: &mut Store, date: Date, time: Time) -> (r: Response)
    requires
        old(store)@.wf(),
        date.wf(),
        time.wf(),
    ensures
        final(store)@.wf(),
        old(store)@.working is Some ==> final(store)@ == old(store)@ && r@
            == spec_already_initialized_message(),
        old(store)@.working is None ==> final(store)@ == begin_post(old(store)@, date, time)
            && r@ == spec_initialized_message(begin_record(date, time)),
{
    match store.create_working_file(date, time) {
        Ok(day_commit) => initialized_message(&day_commit),
        Err(_) => already_initialized_message(),
    }
}

/// Add the requested names, each joining at `now`. An empty request is
/// refused as unusable; a root with no open session is told so; both
/// leave the root unchanged.
pub fn add_command(store: &mut Store, names: &Vec<String>, now: Time) -> (r: Response)
    requires
        old(store)@.wf(),
        now.wf(),
    ensures
        final(store)@.wf(),
        names@.len() == 0 ==> final(store)@ == old(store)@ && r@
            == spec_invalid_argument_message(),
        names@.len() > 0 && old(store)@.working is None ==> final(store)@ == old(store)@ && r@
            == spec_not_initialized_message(),
        names@.len() > 0 && old(store)@.working is Some ==> {
            let ps0 = old(store)@.working->0.participants;
            let n = names.deep_view().len() as int;
            &&& final(store)@ == with_participants(
                old(store)@,
                add_names(ps0, names.deep_view(), now, n),
            )
            &&& r@ == spec_added_message(added_names(ps0, names.deep_view(), now, n))
        },
{
    if names.len() == 0 {
        return invalid_argument_message();
    }
    match store.add(names, now) {
        Ok(added) => added_message(added),
        Err(_) => not_initialized_message(),
    }
}

/// Remove every participant carrying a requested name. An empty request
/// is refused as unusable; a root with no open session is told so; both
/// leave the root unchanged.
pub fn rm_command(store: &mut Store, names: &Vec<String>) -> (r: Response)
    requires
        old(store)@.wf(),
    ensures
        final(store)@.wf(),
        names@.len() == 0 ==> final(store)@ == old(store)@ && r@
            == spec_invalid_argument_message(),
        names@.len() > 0 && old(store)@.working is None ==> final(store)@ == old(store)@ && r@
            == spec_not_initialized_message(),
        names@.len() > 0 && old(store)@.working is Some ==> final(store)@ == with_participants(
            old(store)@,
            remove_names(old(store)@.working->0.participants, names.deep_view()),
        ) && r@ == spec_removed_message(),
{
    if names.len() == 0 {
        return invalid_argument_message();
    }
    match store.rm(names) {
        Ok(_) => removed_message(),
        Err(_) => not_initialized_message(),
    }
}

/// Show the open record. A root with no open session is told so.
pub fn status_command(store: &Store) -> (r: Response)
    ensures
        store@.working is None ==> r@ == spec_not_initialized_message(),
        store@.working is Some ==> r@ == spec_status_message(store@.working->0),
{
    match store.get_working_commit() {
        Ok(day_commit) => status_message(day_commit),
        Err(_) => not_initialized_message(),
    }
}

/// Seal the day with the end time and the closing note. An empty note
/// is refused as unusable; a root with no open session is told so; both
/// leave the root unchanged.
pub fn commit_command(store: &mut Store, end_time: Time, message: String) -> (r: Response)
    requires
        old(store)@.wf(),
        end_time.wf(),
    ensures
        final(store)@.wf(),
        message@.len() == 0 ==> final(store)@ == old(store)@ && r@
            == spec_invalid_argument_message(),
        message@.len() > 0 && old(store)@.working is None ==> final(store)@ == old(store)@ && r@
            == spec_not_initialized_message(),
        message@.len() > 0 && old(store)@.working is Some ==> {
            let sealed = seal_record(old(store)@.working->0, end_time, message@);
            &&& final(store)@.working is None
            &&& final(store)@.day_archive.len() == old(store)@.day_archive.len() + 1
            &&& final(store)@.day_archive.last().commit == sealed
            &&& crate::store::is_fresh_name(
                old(store)@.day_archive,
                final(store)@.day_archive.last().name,
                old(store)@.working->0.date.2,
            )
            &&& final(store)@ == crate::store::commit_post(
                old(store)@,
                final(store)@.day_archive.last().name,
                end_time,
                message@,
            )
            &&& r@ == spec_committed_message(sealed)
        },
{
    if message.as_str().is_empty() {
        return invalid_argument_message();
    }
    match store.commit_a_day(end_time, message) {
        Ok(day_commit) => committed_message(day_commit),
        Err(_) => not_initialized_message(),
    }
}

/// Discard the open record. A root with no open session is told so and
/// left unchanged.
pub fn reset_command(store: &mut Store) -> (r: Response)
    requires
        old(store)@.wf(),
    ensures
        final(store)@.wf(),
        old(store)@.working is None ==> final(store)@ == old(store)@ && r@
            == spec_not_initialized_message(),
        old(store)@.working is Some ==> final(store)@ == crate::store::discard_post(old(store)@)
            && r@ == spec_resetted_message(),
{
    match store.remove_working_commit() {
        Ok(_) => resetted_message(),
        Err(_) => not_initialized_message(),
    }
}

/// Show the month so far: every record in the day-archive area, with
/// totals. An empty area is reported as a session that never started.
pub fn log_command(store: &Store) -> (r: Response)
    requires
        store@.wf(),
        store@.day_archive.len() < 0xffff_ffff,
    ensures
        store@.day_archive.len() == 0 ==> r@ == spec_not_initialized_message(),
        store@.day_archive.len() > 0 ==> r@ == spec_log_message(
            archive_commits(store@.day_archive),
        ),
{
    match store.get_working_directory_commit() {
        Ok(commits) => {
            proof {
                assert forall|i: int|
                    0 <= i < crate::aggregate::records_view(commits@).len() implies (
                #[trigger] crate::aggregate::records_view(commits@)[i]).wf() by {
                    assert(crate::aggregate::records_view(commits@)[i]
                        == store@.day_archive[i].commit);
                }
            }
            log_message(&commits)
        },
        Err(_) => not_initialized_message(),
    }
}

/// Relocate the month into the permanent archive. An empty day-archive
/// area is reported as a session that never started.
pub fn push_command(store: &mut Store) -> (r: Response)
    requires
        old(store)@.wf(),
    ensures
        final(store)@.wf(),
        old(store)@.day_archive.len() == 0 ==> final(store)@ == old(store)@ && r@
            == spec_not_initialized_message(),
        old(store)@.day_archive.len() > 0 ==> final(store)@ == crate::store::push_post(
            old(store)@,
        ) && r@ == spec_push_message(),
{
    match store.push_a_month() {
        Ok(_) => push_message(),
        Err(_) => not_initialized_message(),
    }
}

/// The help text, whatever the root holds.
pub fn help_command() -> (r: Response)
    ensures
        r@ == spec_help_message(),
{
    help_message()
}

} // verus!
