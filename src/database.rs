use vstd::prelude::*;

use std::collections::HashMap;

use crate::cache::{
    cache_consistent, cached_read, config_lookup, duplicate_config, lemma_read_after_write, Cache,
};
use crate::emoji::{duplicate_text, ReactionEmoji, ServerConfiguration};
use crate::models::{
    ArchiveMessageEffect, ArchivedMessage, FlaggedMessage, MakeReportEffect, ModViewModel,
    ReportEntry, ReportModel, UserViewModel, ViewModel,
};
use crate::status::{claim_status, ReportStatus};
use crate::transitions::{
    archive_spec, archive_wf, claim_recount_spec, create_report_spec, decision_spec,
    duplicate_index, entries_wf, entry_wf, latest_archive_id_spec, latest_archive_index,
    lemma_duplicate_index, lemma_latest_archive_index, lemma_mod_view_index,
    lemma_unique_after_push, lemma_unique_after_set, lemma_user_view_index, mod_view_index,
    report_lookup, reports_unique, updated_report, user_view_index, view_by_message_spec,
    ReportRequest,
};

verus! {

broadcast use vstd::std_specs::hash::group_hash_axioms;

/// An update had to touch exactly one stored row and touched another number.
#[derive(Clone, Copy, Debug, PartialEq, Eq, Structural)]
pub enum ReportUpdateError {
    SurprisingRowUpdateCount(u64),
}

/// What a moderator's accept or reject decision did.
#[derive(Clone, Copy, Debug, PartialEq, Eq, Structural)]
pub struct DecisionOutcome {
    /// The report's status afterwards.
    pub status: ReportStatus,
    /// Whether the status changed, which is when the accuser is told.
    pub changed: bool,
    /// The accuser, who is told of a change.
    pub accuser_user_id: u64,
    /// The accuser's view message, which the notice refers to.
    pub user_view_message_id: Option<u64>,
}

/// The store of reports, their views, the message archive and the guild
/// configurations, with the read-through configuration cache in front of the
/// latter.
pub struct Database {
    entries: Vec<ReportEntry>,
    archive: Vec<ArchivedMessage>,
    configs: HashMap<u64, ServerConfiguration>,
    cache: Cache,
}

impl Database {
    /// The reports with their views; report `i + 1` stands at index `i`.
    pub closed spec fn entries(&self) -> Seq<ReportEntry> {
        self.entries@
    }

    /// Every stored version of every archived message, oldest first.
    pub closed spec fn archive(&self) -> Seq<ArchivedMessage> {
        self.archive@
    }

    /// The configuration table, by guild.
    pub closed spec fn configs(&self) -> Map<u64, ServerConfiguration> {
        self.configs@
    }

    /// The configuration cache, by guild.
    pub closed spec fn cached(&self) -> Map<u64, Option<ServerConfiguration>> {
        self.cache.entries()
    }

    /// Ids are positions, views belong to their report, and the cache agrees
    /// with the table.
    pub open spec fn wf(&self) -> bool {
        &&& entries_wf(self.entries())
        &&& reports_unique(self.entries())
        &&& archive_wf(self.archive())
        &&& cache_consistent(self.cached(), self.configs())
    }

    /// An empty store.
    pub fn new() -> (r: Database)
        ensures
            r.wf(),
            r.entries().len() == 0,
            r.archive().len() == 0,
            r.configs() == Map::<u64, ServerConfiguration>::empty(),
            r.cached() == Map::<u64, Option<ServerConfiguration>>::empty(),
    {
        Database {
            entries: Vec::new(),
            archive: Vec::new(),
            configs: HashMap::new(),
            cache: Cache::new(),
        }
    }

    /// The number of reports stored.
    pub fn report_count(&self) -> (r: usize)
        ensures
            r == self.entries().len(),
    {
        self.entries.len()
    }

    /// The number of archived message versions.
    pub fn archive_count(&self) -> (r: usize)
        ensures
            r == self.archive().len(),
    {
        self.archive.len()
    }

    /// The archived version with id `id`, if there is one.
    pub fn load_archived_message(&self, id: u64) -> (r: Option<ArchivedMessage>)
        requires
            self.wf(),
        ensures
            r == (if 1 <= id <= self.archive().len() {
                Some(self.archive()[id - 1])
            } else {
                None::<ArchivedMessage>
            }),
    {
        let n = self.archive.len();
        if 1 <= id && id <= n as u64 {
            let a = &self.archive[(id - 1) as usize];
            Some(ArchivedMessage { id: a.id, message_id: a.message_id, content: a.content.clone() })
        } else {
            None
        }
    }

    /// Takes back a report with its views, as read from durable storage in
    /// id order. It is taken only where its id is the next one, its views
    /// belong to it, and no report taken before is by the same accuser on the
    /// same origin message; otherwise nothing changes.
    pub fn restore_report(&mut self, entry: ReportEntry) -> (r: bool)
        requires
            old(self).wf(),
        ensures
            final(self).wf(),
            r == (entry_wf(entry, old(self).entries().len() as int) && (
            entry.report.message_id matches Some(m) ==> duplicate_index(
                old(self).entries(),
                entry.report.accuser_user_id,
                m,
            ) == -1)),
            r ==> final(self).entries() == old(self).entries().push(entry),
            !r ==> final(self).entries() == old(self).entries(),
            final(self).archive() == old(self).archive(),
            final(self).configs() == old(self).configs(),
            final(self).cached() == old(self).cached(),
    {
        let n = self.entries.len() as u64;
        if n == u64::MAX || entry.report.id != n + 1 {
            return false;
        }
        let user_ok = match entry.user_view {
            Some(v) => v.report_id == n + 1,
            None => true,
        };
        let mod_ok = match entry.mod_view {
            Some(v) => v.report_id == n + 1,
            None => true,
        };
        if !(user_ok && mod_ok) {
            return false;
        }
        match entry.report.message_id {
            Some(m) => {
                let existing = self.fetch_existing_report(m, entry.report.accuser_user_id);
                if existing.is_some() {
                    return false;
                }
            },
            None => {},
        }
        let ghost before = self.entries@;
        self.entries.push(entry);
        proof {
            lemma_unique_after_push(before, self.entries@.last());
        }
        assert forall|j: int| 0 <= j < self.entries@.len() implies entry_wf(
            #[trigger] self.entries@[j],
            j,
        ) by {
            if j < old(self).entries@.len() {
                assert(self.entries@[j] == old(self).entries@[j]);
            }
        }
        true
    }

    /// Takes back an archived version, as read from durable storage in id
    /// order. It is taken only where its id is the next one.
    pub fn restore_archived_message(&mut self, version: ArchivedMessage) -> (r: bool)
        requires
            old(self).wf(),
        ensures
            final(self).wf(),
            r == (version.id == old(self).archive().len() + 1),
            r ==> final(self).archive() == old(self).archive().push(version),
            !r ==> final(self).archive() == old(self).archive(),
            final(self).entries() == old(self).entries(),
            final(self).configs() == old(self).configs(),
            final(self).cached() == old(self).cached(),
    {
        let n = self.archive.len() as u64;
        if n == u64::MAX || version.id != n + 1 {
            return false;
        }
        self.archive.push(version);
        assert forall|j: int| 0 <= j < self.archive@.len() implies (#[trigger] self.archive@[j]).id
            == j + 1 by {
            if j < old(self).archive@.len() {
                assert(self.archive@[j] == old(self).archive@[j]);
            }
        }
        true
    }

    /// The report with id `report_id`, if there is one.
    pub fn load_report(&self, report_id: u64) -> (r: Option<ReportModel>)
        requires
            self.wf(),
        ensures
            r == report_lookup(self.entries(), report_id),
    {
        let n = self.entries.len();
        if 1 <= report_id && report_id <= n as u64 {
            Some(self.entries[(report_id - 1) as usize].report.duplicate())
        } else {
            None
        }
    }

    /// The id of the most recent report that `accuser_user_id` made on
    /// `message_id`, if any: such a report makes a new one a duplicate.
    fn fetch_existing_report(&self, message_id: u64, accuser_user_id: u64) -> (r: Option<u64>)
        requires
            self.wf(),
        ensures
            ({
                let i = duplicate_index(self.entries(), accuser_user_id, message_id);
                match r {
                    Some(id) => i >= 0 && id == self.entries()[i].report.id,
                    None => i == -1,
                }
            }),
    {
        let mut i: usize = self.entries.len();
        assert(self.entries@.subrange(0, i as int) =~= self.entries@);
        while i > 0
            invariant
                i <= self.entries@.len(),
                duplicate_index(self.entries@, accuser_user_id, message_id) == duplicate_index(
                    self.entries@.subrange(0, i as int),
                    accuser_user_id,
                    message_id,
                ),
            decreases i,
        {
            let report = &self.entries[i - 1].report;
            let hit = match report.message_id {
                Some(m) => report.accuser_user_id == accuser_user_id && m == message_id,
                None => false,
            };
            assert(self.entries@.subrange(0, i as int).drop_last() =~= self.entries@.subrange(
                0,
                i - 1,
            ));
            if hit {
                return Some(report.id);
            }
            i = i - 1;
        }
        None
    }

    /// Inserts a new unhandled report, unless `user_reporting` already
    /// reported the same origin message: then nothing is inserted and that
    /// report is named.
    fn create_report(
        &mut self,
        guild_id: u64,
        user_reporting: u64,
        reported_user: u64,
        origin: Option<(u64, u64)>,
        report_reason: Option<String>,
    ) -> (r: MakeReportEffect)
        requires
            old(self).wf(),
            old(self).entries().len() < u64::MAX,
        ensures
            final(self).wf(),
            (final(self).entries(), r) == create_report_spec(
                old(self).entries(),
                (ReportRequest {
                    guild_id,
                    accuser_user_id: user_reporting,
                    reported_user_id: reported_user,
                    origin,
                    reason: report_reason,
                }),
            ),
            final(self).archive() == old(self).archive(),
            final(self).configs() == old(self).configs(),
            final(self).cached() == old(self).cached(),
    {
        match origin {
            Some(o) => {
                let existing = self.fetch_existing_report(o.1, user_reporting);
                proof {
                    lemma_duplicate_index(self.entries@, user_reporting, o.1);
                }
                match existing {
                    Some(id) => {
                        return MakeReportEffect::Duplicate(id);
                    },
                    None => {},
                }
            },
            None => {},
        }
        let id: u64 = self.entries.len() as u64 + 1;
        let (channel_id, message_id) = match origin {
            Some(o) => (Some(o.0), Some(o.1)),
            None => (None, None),
        };
        let report = ReportModel {
            id,
            accuser_user_id: user_reporting,
            reported_user_id: reported_user,
            guild_id,
            status: ReportStatus::Unhandled,
            channel_id,
            message_id,
            reason: report_reason,
        };
        let ghost before = self.entries@;
        self.entries.push(ReportEntry { report, user_view: None, mod_view: None });
        proof {
            lemma_unique_after_push(before, self.entries@.last());
        }
        assert forall|j: int| 0 <= j < self.entries@.len() implies entry_wf(
            #[trigger] self.entries@[j],
            j,
        ) by {
            if j < old(self).entries@.len() {
                assert(self.entries@[j] == old(self).entries@[j]);
            }
        }
        MakeReportEffect::Created(id)
    }

    /// Creates a report in one step: archives the flagged message's current
    /// content where a message is given, then inserts the report unless the
    /// same accuser already reported the same message.
    pub fn make_report(
        &mut self,
        guild_id: u64,
        user_reporting: u64,
        reported_user: u64,
        reported_message: Option<&FlaggedMessage>,
        report_reason: Option<String>,
    ) -> (r: MakeReportEffect)
        requires
            old(self).wf(),
            old(self).entries().len() < u64::MAX,
            old(self).archive().len() < u64::MAX,
        ensures
            final(self).wf(),
            final(self).archive() == match reported_message {
                Some(m) => archive_spec(old(self).archive(), *m).0,
                None => old(self).archive(),
            },
            (final(self).entries(), r) == create_report_spec(
                old(self).entries(),
                (ReportRequest {
                    guild_id,
                    accuser_user_id: user_reporting,
                    reported_user_id: reported_user,
                    origin: match reported_message {
                        Some(m) => Some((m.channel_id, m.message_id)),
                        None => None,
                    },
                    reason: report_reason,
                }),
            ),
            final(self).configs() == old(self).configs(),
            final(self).cached() == old(self).cached(),
    {
        let origin = match reported_message {
            Some(m) => {
                self.archive_message_in_transaction(m);
                Some((m.channel_id, m.message_id))
            },
            None => None,
        };
        self.create_report(guild_id, user_reporting, reported_user, origin, report_reason)
    }

    /// Sets the reason and the status of report `report_id` where they are
    /// given. Exactly one stored report must be touched; where none has that
    /// id the update reports the number it touched.
    pub fn update_report(
        &mut self,
        report_id: u64,
        reason: Option<String>,
        status: Option<ReportStatus>,
    ) -> (r: Result<(), ReportUpdateError>)
        requires
            old(self).wf(),
        ensures
            final(self).wf(),
            match report_lookup(old(self).entries(), report_id) {
                Some(rep) => r is Ok && final(self).entries() == old(self).entries().update(
                    report_id - 1,
                    ReportEntry {
                        report: updated_report(rep, reason, status),
                        ..old(self).entries()[report_id - 1]
                    },
                ),
                None => r == Err::<(), ReportUpdateError>(
                    ReportUpdateError::SurprisingRowUpdateCount(0),
                ) && final(self).entries() == old(self).entries(),
            },
            final(self).archive() == old(self).archive(),
            final(self).configs() == old(self).configs(),
            final(self).cached() == old(self).cached(),
    {
        let n = self.entries.len();
        let rows_affected: u64 = if 1 <= report_id && report_id <= n as u64 {
            1
        } else {
            0
        };
        if rows_affected != 1 {
            return Err(ReportUpdateError::SurprisingRowUpdateCount(rows_affected));
        }
        let i = (report_id - 1) as usize;
        let current = &self.entries[i];
        let report = ReportModel {
            id: current.report.id,
            accuser_user_id: current.report.accuser_user_id,
            reported_user_id: current.report.reported_user_id,
            guild_id: current.report.guild_id,
            status: match status {
                Some(s) => s,
                None => current.report.status,
            },
            channel_id: current.report.channel_id,
            message_id: current.report.message_id,
            reason: match reason {
                Some(x) => Some(x),
                None => duplicate_text(&current.report.reason),
            },
        };
        let entry = ReportEntry {
            report,
            user_view: current.user_view,
            mod_view: current.mod_view,
        };
        self.entries.set(i, entry);
        proof {
            self.lemma_entries_wf_after_set(old(self).entries@, i as int);
        }
        Ok(())
    }

    /// Entries stay well formed when one entry is replaced by one that is
    /// well formed at its position.
    proof fn lemma_entries_wf_after_set(&self, before: Seq<ReportEntry>, i: int)
        requires
            entries_wf(before),
            reports_unique(before),
            0 <= i < before.len(),
            self.entries@ == before.update(i, self.entries@[i]),
            entry_wf(self.entries@[i], i),
            self.entries@[i].report.accuser_user_id == before[i].report.accuser_user_id,
            self.entries@[i].report.message_id == before[i].report.message_id,
        ensures
            entries_wf(self.entries@),
            reports_unique(self.entries@),
    {
        lemma_unique_after_set(before, i, self.entries@[i]);
        assert forall|j: int| 0 <= j < self.entries@.len() implies entry_wf(
            #[trigger] self.entries@[j],
            j,
        ) by {
            if j != i {
                assert(self.entries@[j] == before[j]);
            }
        }
    }

    /// Replaces the reason of report `report_id`.
    pub fn update_report_reason(&mut self, report_id: u64, reason: String) -> (r: Result<
        MakeReportEffect,
        ReportUpdateError,
    >)
        requires
            old(self).wf(),
        ensures
            final(self).wf(),
            match report_lookup(old(self).entries(), report_id) {
                Some(rep) => r == Ok::<MakeReportEffect, ReportUpdateError>(
                    MakeReportEffect::Updated(report_id),
                ) && final(self).entries() == old(self).entries().update(
                    report_id - 1,
                    ReportEntry {
                        report: updated_report(rep, Some(reason), None),
                        ..old(self).entries()[report_id - 1]
                    },
                ),
                None => r == Err::<MakeReportEffect, ReportUpdateError>(
                    ReportUpdateError::SurprisingRowUpdateCount(0),
                ) && final(self).entries() == old(self).entries(),
            },
            final(self).archive() == old(self).archive(),
            final(self).configs() == old(self).configs(),
            final(self).cached() == old(self).cached(),
    {
        match self.update_report(report_id, Some(reason), None) {
            Ok(()) => Ok(MakeReportEffect::Updated(report_id)),
            Err(e) => Err(e),
        }
    }

    /// Sets the status of report `report_id`.
    pub fn update_report_status(&mut self, report_id: u64, status: ReportStatus) -> (r: Result<
        MakeReportEffect,
        ReportUpdateError,
    >)
        requires
            old(self).wf(),
        ensures
            final(self).wf(),
            match report_lookup(old(self).entries(), report_id) {
                Some(rep) => r == Ok::<MakeReportEffect, ReportUpdateError>(
                    MakeReportEffect::Updated(report_id),
                ) && final(self).entries() == old(self).entries().update(
                    report_id - 1,
                    ReportEntry {
                        report: updated_report(rep, None, Some(status)),
                        ..old(self).entries()[report_id - 1]
                    },
                ),
                None => r == Err::<MakeReportEffect, ReportUpdateError>(
                    ReportUpdateError::SurprisingRowUpdateCount(0),
                ) && final(self).entries() == old(self).entries(),
            },
            final(self).archive() == old(self).archive(),
            final(self).configs() == old(self).configs(),
            final(self).cached() == old(self).cached(),
    {
        match self.update_report(report_id, None, Some(status)) {
            Ok(()) => Ok(MakeReportEffect::Updated(report_id)),
            Err(e) => Err(e),
        }
    }

    /// Records `moderator` as the handler on the mod view of report
    /// `report_id`; exactly one mod view must take it.
    pub fn update_mod_view_handler(&mut self, report_id: u64, moderator: u64) -> (r: Result<
        (),
        ReportUpdateError,
    >)
        requires
            old(self).wf(),
        ensures
            final(self).wf(),
            ({
                let es = old(self).entries();
                if 1 <= report_id <= es.len() && es[report_id - 1].mod_view is Some {
                    r is Ok && final(self).entries() == es.update(
                        report_id - 1,
                        ReportEntry {
                            mod_view: Some(
                                ModViewModel {
                                    handler: Some(moderator),
                                    ..es[report_id - 1].mod_view->0
                                },
                            ),
                            ..es[report_id - 1]
                        },
                    )
                } else {
                    r == Err::<(), ReportUpdateError>(
                        ReportUpdateError::SurprisingRowUpdateCount(0),
                    ) && final(self).entries() == es
                }
            }),
            final(self).archive() == old(self).archive(),
            final(self).configs() == old(self).configs(),
            final(self).cached() == old(self).cached(),
    {
        let n = self.entries.len();
        if !(1 <= report_id && report_id <= n as u64) {
            return Err(ReportUpdateError::SurprisingRowUpdateCount(0));
        }
        let i = (report_id - 1) as usize;
        let current = &self.entries[i];
        let view = match current.mod_view {
            Some(v) => v,
            None => {
                return Err(ReportUpdateError::SurprisingRowUpdateCount(0));
            },
        };
        let entry = ReportEntry {
            report: current.report.duplicate(),
            user_view: current.user_view,
            mod_view: Some(ModViewModel { handler: Some(moderator), ..view }),
        };
        self.entries.set(i, entry);
        proof {
            self.lemma_entries_wf_after_set(old(self).entries@, i as int);
        }
        Ok(())
    }

    /// Applies a fresh count of the distinct human claimants of report
    /// `report_id`: a terminal report keeps its status, any other takes the
    /// status that the claim rule gives for `claimants`.
    pub fn apply_claim_count(&mut self, report_id: u64, claimants: u64) -> (r: Result<
        ReportStatus,
        ReportUpdateError,
    >)
        requires
            old(self).wf(),
        ensures
            final(self).wf(),
            (final(self).entries(), r) == claim_recount_spec(
                old(self).entries(),
                report_id,
                claimants as nat,
            ),
            final(self).archive() == old(self).archive(),
            final(self).configs() == old(self).configs(),
            final(self).cached() == old(self).cached(),
    {
        let n = self.entries.len();
        if !(1 <= report_id && report_id <= n as u64) {
            return Err(ReportUpdateError::SurprisingRowUpdateCount(0));
        }
        let i = (report_id - 1) as usize;
        let current = self.entries[i].report.status;
        let status = if current.is_terminal() {
            current
        } else {
            claim_status(claimants)
        };
        let r = self.update_report(report_id, None, Some(status));
        assert(r is Ok);
        assert(self.entries@ =~= old(self).entries@.update(
            i as int,
            ReportEntry {
                report: ReportModel { status, ..old(self).entries@[i as int].report },
                ..old(self).entries@[i as int]
            },
        ));
        Ok(status)
    }

    /// Applies a moderator's decision on report `report_id`: unless the report
    /// is terminal, `moderator` becomes its handler and it becomes Accepted
    /// (`accepted`) or Denied. The outcome says whether the status changed and
    /// where the accuser's view is, for the notice to them.
    pub fn finalize_report(&mut self, report_id: u64, moderator: u64, accepted: bool) -> (r: Result<
        DecisionOutcome,
        ReportUpdateError,
    >)
        requires
            old(self).wf(),
        ensures
            final(self).wf(),
            (final(self).entries(), r) == decision_spec(
                old(self).entries(),
                report_id,
                moderator,
                accepted,
            ),
            final(self).archive() == old(self).archive(),
            final(self).configs() == old(self).configs(),
            final(self).cached() == old(self).cached(),
    {
        let n = self.entries.len();
        if !(1 <= report_id && report_id <= n as u64) {
            return Err(ReportUpdateError::SurprisingRowUpdateCount(0));
        }
        let i = (report_id - 1) as usize;
        let current = self.entries[i].report.status;
        let accuser_user_id = self.entries[i].report.accuser_user_id;
        let user_view_message_id = match self.entries[i].user_view {
            Some(v) => Some(v.message_id),
            None => None,
        };
        if current.is_terminal() {
            return Ok(
                DecisionOutcome { status: current, changed: false, accuser_user_id, user_view_message_id },
            );
        }
        match self.update_mod_view_handler(report_id, moderator) {
            Ok(()) => {},
            Err(e) => {
                return Err(e);
            },
        }
        let status = if accepted {
            ReportStatus::Accepted
        } else {
            ReportStatus::Denied
        };
        let r = self.update_report(report_id, None, Some(status));
        assert(r is Ok);
        assert(self.entries@ =~= old(self).entries@.update(
            i as int,
            ReportEntry {
                report: ReportModel { status, ..old(self).entries@[i as int].report },
                mod_view: Some(
                    ModViewModel {
                        handler: Some(moderator),
                        ..old(self).entries@[i as int].mod_view->0
                    },
                ),
                ..old(self).entries@[i as int]
            },
        ));
        Ok(DecisionOutcome { status, changed: current != status, accuser_user_id, user_view_message_id })
    }

    /// The reporter's view of report `report_id`, if it has one.
    pub fn load_user_view(&self, report_id: u64) -> (r: Option<UserViewModel>)
        requires
            self.wf(),
        ensures
            r == (if 1 <= report_id <= self.entries().len() {
                self.entries()[report_id - 1].user_view
            } else {
                None
            }),
    {
        let n = self.entries.len();
        if 1 <= report_id && report_id <= n as u64 {
            self.entries[(report_id - 1) as usize].user_view
        } else {
            None
        }
    }

    /// The moderators' view of report `report_id`, if it has one.
    pub fn load_mod_view(&self, report_id: u64) -> (r: Option<ModViewModel>)
        requires
            self.wf(),
        ensures
            r == (if 1 <= report_id <= self.entries().len() {
                self.entries()[report_id - 1].mod_view
            } else {
                None
            }),
    {
        let n = self.entries.len();
        if 1 <= report_id && report_id <= n as u64 {
            self.entries[(report_id - 1) as usize].mod_view
        } else {
            None
        }
    }

    /// Stores `view` as the one user view of its report, replacing any
    /// earlier one. Exactly one report must own it.
    pub fn save_user_view(&mut self, view: UserViewModel) -> (r: Result<(), ReportUpdateError>)
        requires
            old(self).wf(),
        ensures
            final(self).wf(),
            ({
                let es = old(self).entries();
                if 1 <= view.report_id <= es.len() {
                    r is Ok && final(self).entries() == es.update(
                        view.report_id - 1,
                        ReportEntry { user_view: Some(view), ..es[view.report_id - 1] },
                    )
                } else {
                    r == Err::<(), ReportUpdateError>(
                        ReportUpdateError::SurprisingRowUpdateCount(0),
                    ) && final(self).entries() == es
                }
            }),
            final(self).archive() == old(self).archive(),
            final(self).configs() == old(self).configs(),
            final(self).cached() == old(self).cached(),
    {
        let n = self.entries.len();
        if !(1 <= view.report_id && view.report_id <= n as u64) {
            return Err(ReportUpdateError::SurprisingRowUpdateCount(0));
        }
        let i = (view.report_id - 1) as usize;
        let current = &self.entries[i];
        let entry = ReportEntry {
            report: current.report.duplicate(),
            user_view: Some(view),
            mod_view: current.mod_view,
        };
        self.entries.set(i, entry);
        proof {
            self.lemma_entries_wf_after_set(old(self).entries@, i as int);
        }
        Ok(())
    }

    /// Stores `view` as the one mod view of its report, replacing any
    /// earlier one. Exactly one report must own it.
    pub fn save_mod_view(&mut self, view: ModViewModel) -> (r: Result<(), ReportUpdateError>)
        requires
            old(self).wf(),
        ensures
            final(self).wf(),
            ({
                let es = old(self).entries();
                if 1 <= view.report_id <= es.len() {
                    r is Ok && final(self).entries() == es.update(
                        view.report_id - 1,
                        ReportEntry { mod_view: Some(view), ..es[view.report_id - 1] },
                    )
                } else {
                    r == Err::<(), ReportUpdateError>(
                        ReportUpdateError::SurprisingRowUpdateCount(0),
                    ) && final(self).entries() == es
                }
            }),
            final(self).archive() == old(self).archive(),
            final(self).configs() == old(self).configs(),
            final(self).cached() == old(self).cached(),
    {
        let n = self.entries.len();
        if !(1 <= view.report_id && view.report_id <= n as u64) {
            return Err(ReportUpdateError::SurprisingRowUpdateCount(0));
        }
        let i = (view.report_id - 1) as usize;
        let current = &self.entries[i];
        let entry = ReportEntry {
            report: current.report.duplicate(),
            user_view: current.user_view,
            mod_view: Some(view),
        };
        self.entries.set(i, entry);
        proof {
            self.lemma_entries_wf_after_set(old(self).entries@, i as int);
        }
        Ok(())
    }

    /// The view that message `message_id` in channel `channel_id` renders, if
    /// any: a mod view is matched on message and channel, a user view (a
    /// direct message) on the message alone.
    pub fn load_view_by_message(&self, message_id: u64, channel_id: u64) -> (r: Option<ViewModel>)
        ensures
            r == view_by_message_spec(self.entries(), message_id, channel_id),
    {
        proof {
            lemma_mod_view_index(self.entries@, message_id, channel_id);
            lemma_user_view_index(self.entries@, message_id);
        }
        let mut i: usize = self.entries.len();
        assert(self.entries@.subrange(0, i as int) =~= self.entries@);
        while i > 0
            invariant
                i <= self.entries@.len(),
                mod_view_index(self.entries@, message_id, channel_id) == mod_view_index(
                    self.entries@.subrange(0, i as int),
                    message_id,
                    channel_id,
                ),
            decreases i,
        {
            assert(self.entries@.subrange(0, i as int).drop_last() =~= self.entries@.subrange(
                0,
                i - 1,
            ));
            match self.entries[i - 1].mod_view {
                Some(v) => {
                    if v.message_id == message_id && v.channel_id == channel_id {
                        return Some(ViewModel::Mod(v));
                    }
                },
                None => {},
            }
            i = i - 1;
        }
        let mut j: usize = self.entries.len();
        assert(self.entries@.subrange(0, j as int) =~= self.entries@);
        while j > 0
            invariant
                j <= self.entries@.len(),
                mod_view_index(self.entries@, message_id, channel_id) == -1,
                user_view_index(self.entries@, message_id) == user_view_index(
                    self.entries@.subrange(0, j as int),
                    message_id,
                ),
            decreases j,
        {
            assert(self.entries@.subrange(0, j as int).drop_last() =~= self.entries@.subrange(
                0,
                j - 1,
            ));
            match self.entries[j - 1].user_view {
                Some(v) => {
                    if v.message_id == message_id {
                        return Some(ViewModel::User(v));
                    }
                },
                None => {},
            }
            j = j - 1;
        }
        None
    }

    /// The configuration stored for `guild_id`, read from the table.
    pub fn load_server_config(&self, guild_id: u64) -> (r: Option<ServerConfiguration>)
        ensures
            r == config_lookup(self.configs(), guild_id),
    {
        duplicate_config(self.configs.get(&guild_id))
    }

    /// The configuration of `guild_id`, read through the cache: a cached
    /// entry is returned as it is; on a miss the table is read and the result,
    /// present or not, is cached.
    pub fn get_server_config(&mut self, guild_id: u64) -> (r: Option<ServerConfiguration>)
        requires
            old(self).wf(),
        ensures
            final(self).wf(),
            r == cached_read(old(self).cached(), old(self).configs(), guild_id),
            r == config_lookup(old(self).configs(), guild_id),
            final(self).cached() == (if old(self).cached().dom().contains(guild_id) {
                old(self).cached()
            } else {
                old(self).cached().insert(guild_id, r)
            }),
            final(self).entries() == old(self).entries(),
            final(self).archive() == old(self).archive(),
            final(self).configs() == old(self).configs(),
    {
        match self.cache.lookup(guild_id) {
            Some(entry) => entry,
            None => {
                let loaded = self.load_server_config(guild_id);
                let copy = duplicate_config(loaded.as_ref());
                self.cache.store(guild_id, copy);
                proof {
                    let c = self.cache.entries();
                    assert forall|g: u64| #[trigger] c.dom().contains(g) implies c[g]
                        == config_lookup(self.configs@, g) by {
                        if g != guild_id {
                            assert(old(self).cache.entries().dom().contains(g));
                        }
                    }
                }
                loaded
            },
        }
    }

    /// The command prefix of `guild_id`, if it is configured with one.
    pub fn get_server_prefix(&mut self, guild_id: u64) -> (r: Option<String>)
        requires
            old(self).wf(),
        ensures
            final(self).wf(),
            r == match config_lookup(old(self).configs(), guild_id) {
                Some(c) => c.prefix,
                None => None,
            },
            final(self).entries() == old(self).entries(),
            final(self).archive() == old(self).archive(),
            final(self).configs() == old(self).configs(),
    {
        match self.get_server_config(guild_id) {
            Some(c) => c.prefix,
            None => None,
        }
    }

    /// Whether `guild_id` has a configuration.
    pub fn has_server_config(&mut self, guild_id: u64) -> (r: bool)
        requires
            old(self).wf(),
        ensures
            final(self).wf(),
            r == old(self).configs().dom().contains(guild_id),
            final(self).entries() == old(self).entries(),
            final(self).archive() == old(self).archive(),
            final(self).configs() == old(self).configs(),
    {
        self.get_server_config(guild_id).is_some()
    }

    /// Writes the configuration of `guild_id` wholesale, then evicts the
    /// guild's cache entry, so that the next read sees the new value.
    pub fn save_server_configuration(
        &mut self,
        guild_id: u64,
        report_emoji: ReactionEmoji,
        reports_channel: u64,
        prefix: Option<String>,
    )
        requires
            old(self).wf(),
        ensures
            final(self).wf(),
            final(self).configs() == old(self).configs().insert(
                guild_id,
                ServerConfiguration { reports_channel, report_emoji, prefix },
            ),
            final(self).cached() == old(self).cached().remove(guild_id),
            final(self).entries() == old(self).entries(),
            final(self).archive() == old(self).archive(),
    {
        let config = ServerConfiguration { reports_channel, report_emoji, prefix };
        proof {
            lemma_read_after_write(self.cache.entries(), self.configs@, guild_id, config);
        }
        self.configs.insert(guild_id, config);
        self.cache.wipe_server_config_cache(guild_id);
    }

    /// The id of the most recent archived version of `message_id`, if any.
    pub fn latest_archive_id(&self, message_id: u64) -> (r: Option<u64>)
        ensures
            r == latest_archive_id_spec(self.archive(), message_id),
    {
        proof {
            lemma_latest_archive_index(self.archive@, message_id);
        }
        match self.latest_archive(message_id) {
            Some(i) => Some(self.archive[i].id),
            None => None,
        }
    }

    /// Position of the most recent archived version of `message_id`, if any.
    fn latest_archive(&self, message_id: u64) -> (r: Option<usize>)
        ensures
            match r {
                Some(i) => i == latest_archive_index(self.archive(), message_id),
                None => latest_archive_index(self.archive(), message_id) == -1,
            },
    {
        let mut i: usize = self.archive.len();
        assert(self.archive@.subrange(0, i as int) =~= self.archive@);
        while i > 0
            invariant
                i <= self.archive@.len(),
                latest_archive_index(self.archive@, message_id) == latest_archive_index(
                    self.archive@.subrange(0, i as int),
                    message_id,
                ),
            decreases i,
        {
            assert(self.archive@.subrange(0, i as int).drop_last() =~= self.archive@.subrange(
                0,
                i - 1,
            ));
            if self.archive[i - 1].message_id == message_id {
                return Some(i - 1);
            }
            i = i - 1;
        }
        None
    }

    /// Archives the current content of `message` (appending a version only
    /// where it changed since the latest stored one) and says what it did.
    pub fn archive_message_in_transaction(&mut self, message: &FlaggedMessage) -> (r:
        ArchiveMessageEffect)
        requires
            old(self).wf(),
            old(self).archive().len() < u64::MAX,
        ensures
            final(self).wf(),
            (final(self).archive(), r) == archive_spec(old(self).archive(), *message),
            final(self).entries() == old(self).entries(),
            final(self).configs() == old(self).configs(),
            final(self).cached() == old(self).cached(),
    {
        let found = self.latest_archive(message.message_id);
        proof {
            lemma_latest_archive_index(self.archive@, message.message_id);
        }
        match found {
            Some(i) => {
                if self.archive[i].content == message.content {
                    return ArchiveMessageEffect::Unchanged(self.archive[i].id);
                }
            },
            None => {},
        }
        let id: u64 = self.archive.len() as u64 + 1;
        self.archive.push(
            ArchivedMessage { id, message_id: message.message_id, content: message.content.clone() },
        );
        assert forall|j: int| 0 <= j < self.archive@.len() implies (#[trigger] self.archive@[j]).id
            == j + 1 by {
            if j < old(self).archive@.len() {
                assert(self.archive@[j] == old(self).archive@[j]);
            }
        }
        ArchiveMessageEffect::Archived(id)
    }
}

} // verus!
