//! A work-session tracker: a data root holds at most one open day record,
//! a day-archive area of sealed records, and a permanent monthly archive.
//! The session lifecycle, archive naming, month relocation and the
//! per-month aggregation are verified here; persistence and transport
//! live outside the library.

mod aggregate;
mod app;
mod command;
mod error;
mod handler;
mod laws;
mod message;
mod record;
mod settings;
mod slack;
mod store;
mod text;
mod time;

pub use crate::aggregate::ParticipantTotal;
pub use crate::aggregate::ParticipantTotalView;
pub use crate::aggregate::find_total;
pub use crate::aggregate::per_participant;
pub use crate::aggregate::per_participant_of;
pub use crate::aggregate::record_minutes;
pub use crate::aggregate::records_view;
pub use crate::aggregate::records_wf;
pub use crate::aggregate::tally_one;
pub use crate::aggregate::tally_participants;
pub use crate::aggregate::tally_record;
pub use crate::aggregate::total_bounded;
pub use crate::aggregate::total_minutes_of;
pub use crate::aggregate::totals_view;
pub use crate::aggregate::total_minutes;
pub use crate::app::App;
pub use crate::command::Command;
pub use crate::command::spec_command_str;
pub use crate::command::spec_parse_command;
pub use crate::command::spec_starts_with;
pub use crate::command::str_starts_with;
pub use crate::error::Error;
pub use crate::handler::add_command;
pub use crate::handler::commit_command;
pub use crate::handler::help_command;
pub use crate::handler::init_command;
pub use crate::handler::log_command;
pub use crate::handler::push_command;
pub use crate::handler::reset_command;
pub use crate::handler::rm_command;
pub use crate::handler::status_command;
pub use crate::laws::lemma_add_names_extends;
pub use crate::laws::lemma_add_names_unique;
pub use crate::laws::lemma_added_names_exact;
pub use crate::laws::lemma_begin_excludes_begin;
pub use crate::laws::lemma_finalize_closes;
pub use crate::laws::lemma_fresh_name_unique;
pub use crate::laws::lemma_push_moves_all;
pub use crate::laws::lemma_remove_absent_noop;
pub use crate::laws::lemma_remove_deletes_matches;
pub use crate::message::date_display;
pub use crate::message::join_names;
pub use crate::message::minutes_display;
pub use crate::message::participant_lines;
pub use crate::message::pnames;
pub use crate::message::range_line;
pub use crate::message::spec_added_message;
pub use crate::message::spec_already_initialized_message;
pub use crate::message::spec_committed_message;
pub use crate::message::spec_date_display;
pub use crate::message::spec_day_field;
pub use crate::message::spec_day_value;
pub use crate::message::spec_help_message;
pub use crate::message::spec_initialized_message;
pub use crate::message::spec_invalid_argument_message;
pub use crate::message::spec_join_names;
pub use crate::message::spec_log_message;
pub use crate::message::spec_minutes_display;
pub use crate::message::spec_not_initialized_message;
pub use crate::message::spec_participant_lines;
pub use crate::message::spec_push_message;
pub use crate::message::spec_range_line;
pub use crate::message::spec_removed_message;
pub use crate::message::spec_resetted_message;
pub use crate::message::spec_status_message;
pub use crate::message::spec_time_display;
pub use crate::message::spec_total_lines;
pub use crate::message::spec_totals_value;
pub use crate::message::time_display;
pub use crate::message::added_message;
pub use crate::message::already_initialized_message;
pub use crate::message::committed_message;
pub use crate::message::help_message;
pub use crate::message::initialized_message;
pub use crate::message::invalid_argument_message;
pub use crate::message::log_message;
pub use crate::message::not_initialized_message;
pub use crate::message::push_message;
pub use crate::message::removed_message;
pub use crate::message::resetted_message;
pub use crate::message::status_message;
pub use crate::record::has_participant;
pub use crate::record::participants_unique;
pub use crate::record::DayCommit;
pub use crate::record::DayCommitView;
pub use crate::record::Participant;
pub use crate::record::ParticipantView;
pub use crate::settings::Settings;
pub use crate::slack::AttachedMessage;
pub use crate::slack::AttachedMessageView;
pub use crate::slack::Attachment;
pub use crate::slack::AttachmentFields;
pub use crate::slack::AttachmentFieldsView;
pub use crate::slack::AttachmentView;
pub use crate::slack::Channel;
pub use crate::slack::Message;
pub use crate::slack::MessageView;
pub use crate::slack::Response;
pub use crate::slack::ResponseType;
pub use crate::slack::ResponseView;
pub use crate::slack::Team;
pub use crate::slack::User;
pub use crate::store::add_names;
pub use crate::store::add_one;
pub use crate::store::added_names;
pub use crate::store::archive_commits;
pub use crate::store::begin_post;
pub use crate::store::begin_record;
pub use crate::store::commit_post;
pub use crate::store::discard_post;
pub use crate::store::is_fresh_name;
pub use crate::store::moved_entry;
pub use crate::store::name_listed;
pub use crate::store::name_taken;
pub use crate::store::push_post;
pub use crate::store::remove_names;
pub use crate::store::seal_record;
pub use crate::store::spec_file_name;
pub use crate::store::with_participants;
pub use crate::store::ArchiveEntry;
pub use crate::store::ArchiveEntryView;
pub use crate::store::FileName;
pub use crate::store::MonthEntry;
pub use crate::store::MonthEntryView;
pub use crate::store::Store;
pub use crate::store::StoreView;
pub use crate::text::digit_char;
pub use crate::text::spec_i64_str;
pub use crate::text::spec_u64_str;
pub use crate::text::i64_to_string;
pub use crate::text::u64_to_string;
pub use crate::time::spec_diff;
pub use crate::time::spec_from_minutes;
pub use crate::time::spec_time_diff_short;
pub use crate::time::spec_time_short;
pub use crate::time::Date;
pub use crate::time::Time;
pub use crate::time::TimeDiff;
