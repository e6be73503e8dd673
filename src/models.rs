use vstd::prelude::*;

use crate::emoji::duplicate_text;
use crate::status::ReportStatus;

verus! {

/// A report: who flagged whom, where, why, and how far moderation has got.
#[derive(Debug)]
pub struct ReportModel {
    pub id: u64,
    pub accuser_user_id: u64,
    pub reported_user_id: u64,
    pub guild_id: u64,
    pub status: ReportStatus,
    pub channel_id: Option<u64>,
    pub message_id: Option<u64>,
    pub reason: Option<String>,
}

impl ReportModel {
    /// A copy of the report.
    pub fn duplicate(&self) -> (r: ReportModel)
        ensures
            r == *self,
    {
        ReportModel {
            id: self.id,
            accuser_user_id: self.accuser_user_id,
            reported_user_id: self.reported_user_id,
            guild_id: self.guild_id,
            status: self.status,
            channel_id: self.channel_id,
            message_id: self.message_id,
            reason: duplicate_text(&self.reason),
        }
    }
}

/// The reporter's direct-message view of a report, and the status it last showed.
#[derive(Clone, Copy, Debug, PartialEq, Eq, Structural)]
pub struct UserViewModel {
    pub report_id: u64,
    pub message_id: u64,
    pub status: ReportStatus,
}

/// The moderators' view of a report in the guild's reports channel.
#[derive(Clone, Copy, Debug, PartialEq, Eq, Structural)]
pub struct ModViewModel {
    pub report_id: u64,
    pub channel_id: u64,
    pub message_id: u64,
    pub preview_archive_id: u64,
    pub handler: Option<u64>,
}

/// A rendered view found by its message.
#[derive(Clone, Copy, Debug, PartialEq, Eq, Structural)]
pub enum ViewModel {
    User(UserViewModel),
    Mod(ModViewModel),
}

/// A flagged message as fetched from the platform.
#[derive(Debug)]
pub struct FlaggedMessage {
    pub channel_id: u64,
    pub message_id: u64,
    pub author_id: u64,
    pub content: String,
}

/// One stored version of a flagged message's content.
#[derive(Debug)]
pub struct ArchivedMessage {
    pub id: u64,
    pub message_id: u64,
    pub content: String,
}

/// What archiving a message did: stored a new version, or found the latest
/// stored version unchanged. Either way it names that version.
#[derive(Clone, Copy, Debug, PartialEq, Eq, Structural)]
pub enum ArchiveMessageEffect {
    Archived(u64),
    Unchanged(u64),
}

impl ArchiveMessageEffect {
    /// The archive version that the effect names.
    pub open spec fn message_id_spec(&self) -> u64 {
        match *self {
            ArchiveMessageEffect::Archived(id) => id,
            ArchiveMessageEffect::Unchanged(id) => id,
        }
    }

    /// The archive version that the effect names.
    #[verifier::when_used_as_spec(message_id_spec)]
    pub fn message_id(&self) -> (r: u64)
        ensures
            r == self.message_id_spec(),
    {
        match self {
            ArchiveMessageEffect::Archived(id) => *id,
            ArchiveMessageEffect::Unchanged(id) => *id,
        }
    }
}

/// What a report mutation did, so that the views can be brought up to date.
#[derive(Clone, Copy, Debug, PartialEq, Eq, Structural)]
pub enum MakeReportEffect {
    Created(u64),
    Updated(u64),
    Duplicate(u64),
}

impl MakeReportEffect {
    /// The report that the effect names.
    pub open spec fn report_id_spec(&self) -> u64 {
        match *self {
            MakeReportEffect::Created(id) => id,
            MakeReportEffect::Updated(id) => id,
            MakeReportEffect::Duplicate(id) => id,
        }
    }

    /// The report that the effect names.
    #[verifier::when_used_as_spec(report_id_spec)]
    pub fn report_id(&self) -> (r: u64)
        ensures
            r == self.report_id_spec(),
    {
        match self {
            MakeReportEffect::Created(id) => *id,
            MakeReportEffect::Updated(id) => *id,
            MakeReportEffect::Duplicate(id) => *id,
        }
    }
}

/// A report together with the views that it owns: at most one of each kind.
#[derive(Debug)]
pub struct ReportEntry {
    pub report: ReportModel,
    pub user_view: Option<UserViewModel>,
    pub mod_view: Option<ModViewModel>,
}

} // verus!
