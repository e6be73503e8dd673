use vstd::prelude::*;

use crate::models::{
    ArchiveMessageEffect, ArchivedMessage, FlaggedMessage, MakeReportEffect, ModViewModel,
    ReportEntry, ReportModel, ViewModel,
};
use crate::database::{DecisionOutcome, ReportUpdateError};
use crate::status::{after_claim_recount, after_decision, ReportStatus};

verus! {

/// Index of the most recent report that `accuser` made on origin message
/// `message`, or -1 where there is none.
pub open spec fn duplicate_index(entries: Seq<ReportEntry>, accuser: u64, message: u64) -> int
    decreases entries.len(),
{
    if entries.len() == 0 {
        -1
    } else if entries.last().report.accuser_user_id == accuser && entries.last().report.message_id
        == Some(message) {
        entries.len() - 1
    } else {
        duplicate_index(entries.drop_last(), accuser, message)
    }
}

/// Index of the most recent archived version of `message_id`, or -1.
pub open spec fn latest_archive_index(archive: Seq<ArchivedMessage>, message_id: u64) -> int
    decreases archive.len(),
{
    if archive.len() == 0 {
        -1
    } else if archive.last().message_id == message_id {
        archive.len() - 1
    } else {
        latest_archive_index(archive.drop_last(), message_id)
    }
}

/// The most recent archived version is a stored version of that message.
pub proof fn lemma_latest_archive_index(archive: Seq<ArchivedMessage>, message_id: u64)
    ensures
        -1 <= latest_archive_index(archive, message_id) < archive.len(),
        latest_archive_index(archive, message_id) >= 0 ==> archive[latest_archive_index(
            archive,
            message_id,
        )].message_id == message_id,
    decreases archive.len(),
{
    if archive.len() > 0 {
        lemma_latest_archive_index(archive.drop_last(), message_id);
    }
}

/// The most recent report by an accuser on a message is one of the reports,
/// by that accuser, on that message.
pub proof fn lemma_duplicate_index(entries: Seq<ReportEntry>, accuser: u64, message: u64)
    ensures
        -1 <= duplicate_index(entries, accuser, message) < entries.len(),
        duplicate_index(entries, accuser, message) >= 0 ==> {
            let e = entries[duplicate_index(entries, accuser, message)];
            e.report.accuser_user_id == accuser && e.report.message_id == Some(message)
        },
    decreases entries.len(),
{
    if entries.len() > 0 {
        lemma_duplicate_index(entries.drop_last(), accuser, message);
    }
}

/// The archive after `message` has been archived, and what that did: a new
/// version is appended only where the content differs from the latest
/// stored version of the same message, or where there is none.
pub open spec fn archive_spec(archive: Seq<ArchivedMessage>, message: FlaggedMessage) -> (Seq<
    ArchivedMessage,
>, ArchiveMessageEffect) {
    let i = latest_archive_index(archive, message.message_id);
    if i >= 0 && archive[i].content@ == message.content@ {
        (archive, ArchiveMessageEffect::Unchanged(archive[i].id))
    } else {
        let id = (archive.len() + 1) as u64;
        (
            archive.push(
                ArchivedMessage { id, message_id: message.message_id, content: message.content },
            ),
            ArchiveMessageEffect::Archived(id),
        )
    }
}

/// The report that a creation request inserts under `id`.
pub open spec fn new_report_spec(
    id: u64,
    guild_id: u64,
    accuser: u64,
    reported: u64,
    origin: Option<(u64, u64)>,
    reason: Option<String>,
) -> ReportModel {
    ReportModel {
        id,
        accuser_user_id: accuser,
        reported_user_id: reported,
        guild_id,
        status: ReportStatus::Unhandled,
        channel_id: match origin {
            Some(o) => Some(o.0),
            None => None,
        },
        message_id: match origin {
            Some(o) => Some(o.1),
            None => None,
        },
        reason,
    }
}

/// A request to create a report; `origin` is the flagged message's
/// (channel id, message id).
pub struct ReportRequest {
    pub guild_id: u64,
    pub accuser_user_id: u64,
    pub reported_user_id: u64,
    pub origin: Option<(u64, u64)>,
    pub reason: Option<String>,
}

/// The reports after a creation request, and its effect: where the same
/// accuser already reported the same origin message, nothing is inserted and
/// that report is named; otherwise a new unhandled report is appended.
pub open spec fn create_report_spec(entries: Seq<ReportEntry>, req: ReportRequest) -> (Seq<
    ReportEntry,
>, MakeReportEffect) {
    let dup = match req.origin {
        Some(o) => duplicate_index(entries, req.accuser_user_id, o.1),
        None => -1,
    };
    if dup >= 0 {
        (entries, MakeReportEffect::Duplicate(entries[dup].report.id))
    } else {
        let id = (entries.len() + 1) as u64;
        (
            entries.push(
                ReportEntry {
                    report: new_report_spec(
                        id,
                        req.guild_id,
                        req.accuser_user_id,
                        req.reported_user_id,
                        req.origin,
                        req.reason,
                    ),
                    user_view: None,
                    mod_view: None,
                },
            ),
            MakeReportEffect::Created(id),
        )
    }
}

/// The reports and the effects after the creation requests `reqs`, in order.
pub open spec fn run_creates(entries: Seq<ReportEntry>, reqs: Seq<ReportRequest>) -> (Seq<
    ReportEntry,
>, Seq<MakeReportEffect>)
    decreases reqs.len(),
{
    if reqs.len() == 0 {
        (entries, Seq::empty())
    } else {
        let first = create_report_spec(entries, reqs[0]);
        let rest = run_creates(first.0, reqs.drop_first());
        (rest.0, seq![first.1] + rest.1)
    }
}

/// The request is by `accuser` on origin message `message`.
pub open spec fn request_on(req: ReportRequest, accuser: u64, message: u64) -> bool {
    &&& req.accuser_user_id == accuser
    &&& req.origin matches Some(o) && o.1 == message
}

/// Once `accuser` has a report on `message`, every further request by them on
/// it names that report and inserts nothing.
pub proof fn lemma_later_requests_are_duplicates(
    entries: Seq<ReportEntry>,
    reqs: Seq<ReportRequest>,
    accuser: u64,
    message: u64,
)
    requires
        duplicate_index(entries, accuser, message) >= 0,
        forall|i: int| 0 <= i < reqs.len() ==> request_on(#[trigger] reqs[i], accuser, message),
    ensures
        run_creates(entries, reqs).0 == entries,
        run_creates(entries, reqs).1.len() == reqs.len(),
        forall|i: int|
            0 <= i < reqs.len() ==> #[trigger] run_creates(entries, reqs).1[i]
                == MakeReportEffect::Duplicate(
                entries[duplicate_index(entries, accuser, message)].report.id,
            ),
    decreases reqs.len(),
{
    if reqs.len() > 0 {
        assert(request_on(reqs[0], accuser, message));
        let rest = reqs.drop_first();
        assert forall|i: int| 0 <= i < rest.len() implies request_on(
            #[trigger] rest[i],
            accuser,
            message,
        ) by {
            assert(rest[i] == reqs[i + 1]);
        }
        lemma_later_requests_are_duplicates(entries, rest, accuser, message);
        let effs = run_creates(entries, reqs).1;
        let d = MakeReportEffect::Duplicate(
            entries[duplicate_index(entries, accuser, message)].report.id,
        );
        assert forall|i: int| 0 <= i < reqs.len() implies #[trigger] effs[i] == d by {
            if i > 0 {
                assert(effs[i] == run_creates(entries, rest).1[i - 1]);
            }
        }
    }
}

/// Of any sequence of creation requests by one accuser on one origin message
/// that has no report of theirs yet, exactly the first creates a report; every
/// later one is a duplicate that names the same report.
pub proof fn lemma_first_report_wins(
    entries: Seq<ReportEntry>,
    reqs: Seq<ReportRequest>,
    accuser: u64,
    message: u64,
)
    requires
        duplicate_index(entries, accuser, message) == -1,
        reqs.len() > 0,
        forall|i: int| 0 <= i < reqs.len() ==> request_on(#[trigger] reqs[i], accuser, message),
    ensures
        run_creates(entries, reqs).1.len() == reqs.len(),
        run_creates(entries, reqs).1[0] == MakeReportEffect::Created((entries.len() + 1) as u64),
        forall|i: int|
            1 <= i < reqs.len() ==> #[trigger] run_creates(entries, reqs).1[i]
                == MakeReportEffect::Duplicate((entries.len() + 1) as u64),
{
    assert(request_on(reqs[0], accuser, message));
    let first = create_report_spec(entries, reqs[0]);
    let e1 = first.0;
    assert(e1.drop_last() =~= entries);
    assert(duplicate_index(e1, accuser, message) == entries.len());
    let rest = reqs.drop_first();
    assert forall|i: int| 0 <= i < rest.len() implies request_on(
        #[trigger] rest[i],
        accuser,
        message,
    ) by {
        assert(rest[i] == reqs[i + 1]);
    }
    lemma_later_requests_are_duplicates(e1, rest, accuser, message);
    let effs = run_creates(entries, reqs).1;
    assert forall|i: int| 1 <= i < reqs.len() implies #[trigger] effs[i]
        == MakeReportEffect::Duplicate((entries.len() + 1) as u64) by {
        assert(effs[i] == run_creates(e1, rest).1[i - 1]);
    }
}

/// The entry at index `i` is that of report `i + 1`, and its views belong to it.
pub open spec fn entry_wf(e: ReportEntry, i: int) -> bool {
    &&& e.report.id == i + 1
    &&& e.user_view matches Some(v) ==> v.report_id == i + 1
    &&& e.mod_view matches Some(v) ==> v.report_id == i + 1
}

/// Every entry is well formed at its position.
pub open spec fn entries_wf(entries: Seq<ReportEntry>) -> bool {
    forall|i: int| 0 <= i < entries.len() ==> entry_wf(#[trigger] entries[i], i)
}

/// At most one report per accuser and origin message.
pub open spec fn reports_unique(entries: Seq<ReportEntry>) -> bool {
    forall|i: int, j: int|
        0 <= i < j < entries.len() && (#[trigger] entries[i]).report.accuser_user_id == (
        #[trigger] entries[j]).report.accuser_user_id && entries[i].report.message_id is Some
            ==> entries[i].report.message_id != entries[j].report.message_id
}

/// Where no report of `accuser` on `message` is found, there is none.
pub proof fn lemma_no_duplicate(entries: Seq<ReportEntry>, accuser: u64, message: u64, k: int)
    requires
        duplicate_index(entries, accuser, message) == -1,
        0 <= k < entries.len(),
    ensures
        !(entries[k].report.accuser_user_id == accuser && entries[k].report.message_id == Some(
            message,
        )),
    decreases entries.len(),
{
    if k < entries.len() - 1 {
        lemma_no_duplicate(entries.drop_last(), accuser, message, k);
    }
}

/// Replacing a report by one with the same accuser and origin message keeps
/// reports unique.
pub proof fn lemma_unique_after_set(before: Seq<ReportEntry>, i: int, e: ReportEntry)
    requires
        reports_unique(before),
        0 <= i < before.len(),
        e.report.accuser_user_id == before[i].report.accuser_user_id,
        e.report.message_id == before[i].report.message_id,
    ensures
        reports_unique(before.update(i, e)),
{
    let after = before.update(i, e);
    assert forall|a: int, b: int|
        0 <= a < b < after.len() && (#[trigger] after[a]).report.accuser_user_id == (
        #[trigger] after[b]).report.accuser_user_id && after[a].report.message_id is Some
            implies after[a].report.message_id != after[b].report.message_id by {
        assert(before[a].report.accuser_user_id == before[b].report.accuser_user_id);
    }
}

/// Appending a report that no earlier report duplicates keeps reports unique.
pub proof fn lemma_unique_after_push(before: Seq<ReportEntry>, e: ReportEntry)
    requires
        reports_unique(before),
        e.report.message_id matches Some(m) ==> duplicate_index(
            before,
            e.report.accuser_user_id,
            m,
        ) == -1,
    ensures
        reports_unique(before.push(e)),
{
    let after = before.push(e);
    assert forall|a: int, b: int|
        0 <= a < b < after.len() && (#[trigger] after[a]).report.accuser_user_id == (
        #[trigger] after[b]).report.accuser_user_id && after[a].report.message_id is Some
            implies after[a].report.message_id != after[b].report.message_id by {
        if b == before.len() {
            if let Some(m) = e.report.message_id {
                lemma_no_duplicate(before, e.report.accuser_user_id, m, a);
            }
        } else {
            assert(before[a] == after[a] && before[b] == after[b]);
        }
    }
}

/// Archive version `i + 1` stands at index `i`.
pub open spec fn archive_wf(archive: Seq<ArchivedMessage>) -> bool {
    forall|i: int| 0 <= i < archive.len() ==> (#[trigger] archive[i]).id == i + 1
}

/// The report with id `report_id`, if there is one.
pub open spec fn report_lookup(entries: Seq<ReportEntry>, report_id: u64) -> Option<ReportModel> {
    if 1 <= report_id <= entries.len() {
        Some(entries[report_id - 1].report)
    } else {
        None
    }
}

/// The id of the most recent archived version of `message_id`, if any.
pub open spec fn latest_archive_id_spec(archive: Seq<ArchivedMessage>, message_id: u64) -> Option<u64> {
    let i = latest_archive_index(archive, message_id);
    if i >= 0 {
        Some(archive[i].id)
    } else {
        None
    }
}

/// The report after an update that sets the reason and the status where
/// they are given and keeps them where not.
pub open spec fn updated_report(
    report: ReportModel,
    reason: Option<String>,
    status: Option<ReportStatus>,
) -> ReportModel {
    ReportModel {
        reason: match reason {
            Some(x) => Some(x),
            None => report.reason,
        },
        status: match status {
            Some(s) => s,
            None => report.status,
        },
        ..report
    }
}

/// The entries and the outcome after a moderator `moderator` accepted
/// (`accepted`) or rejected report `report_id`. A terminal report is left as
/// it is. Otherwise the moderator becomes the handler on the report's mod view
/// and the report is finalized; without a mod view no row takes the handler
/// and nothing changes.
pub open spec fn decision_spec(
    entries: Seq<ReportEntry>,
    report_id: u64,
    moderator: u64,
    accepted: bool,
) -> (Seq<ReportEntry>, Result<DecisionOutcome, ReportUpdateError>) {
    if !(1 <= report_id <= entries.len()) {
        (entries, Err(ReportUpdateError::SurprisingRowUpdateCount(0)))
    } else {
        let e = entries[report_id - 1];
        let notice = match e.user_view {
            Some(v) => Some(v.message_id),
            None => None,
        };
        if e.report.status.is_terminal() {
            (
                entries,
                Ok(
                    DecisionOutcome {
                        status: e.report.status,
                        changed: false,
                        accuser_user_id: e.report.accuser_user_id,
                        user_view_message_id: notice,
                    },
                ),
            )
        } else if e.mod_view is None {
            (entries, Err(ReportUpdateError::SurprisingRowUpdateCount(0)))
        } else {
            let status = after_decision(e.report.status, accepted);
            (
                entries.update(
                    report_id - 1,
                    ReportEntry {
                        report: ReportModel { status, ..e.report },
                        mod_view: Some(ModViewModel { handler: Some(moderator), ..e.mod_view->0 }),
                        ..e
                    },
                ),
                Ok(
                    DecisionOutcome {
                        status,
                        changed: true,
                        accuser_user_id: e.report.accuser_user_id,
                        user_view_message_id: notice,
                    },
                ),
            )
        }
    }
}

/// The entries and the resulting status after the claimants of report
/// `report_id` were counted anew: a terminal report keeps its status, any
/// other takes the status of the claim rule.
pub open spec fn claim_recount_spec(entries: Seq<ReportEntry>, report_id: u64, claimants: nat) -> (Seq<
    ReportEntry,
>, Result<ReportStatus, ReportUpdateError>) {
    if !(1 <= report_id <= entries.len()) {
        (entries, Err(ReportUpdateError::SurprisingRowUpdateCount(0)))
    } else {
        let e = entries[report_id - 1];
        let status = after_claim_recount(e.report.status, claimants);
        (
            entries.update(
                report_id - 1,
                ReportEntry { report: ReportModel { status, ..e.report }, ..e },
            ),
            Ok(status),
        )
    }
}

/// A moderation event on a report's mod view.
pub enum ModerationEvent {
    /// The claimants were counted anew: this many.
    ClaimRecount(nat),
    /// A moderator accepted (`true`) or rejected (`false`) the report.
    Decision(u64, bool),
}

/// The entries after moderation events on report `report_id`, in order.
pub open spec fn run_moderation(
    entries: Seq<ReportEntry>,
    report_id: u64,
    events: Seq<ModerationEvent>,
) -> Seq<ReportEntry>
    decreases events.len(),
{
    if events.len() == 0 {
        entries
    } else {
        let next = match events[0] {
            ModerationEvent::ClaimRecount(n) => claim_recount_spec(entries, report_id, n).0,
            ModerationEvent::Decision(m, a) => decision_spec(entries, report_id, m, a).0,
        };
        run_moderation(next, report_id, events.drop_first())
    }
}

/// Once a report is accepted or denied, no claim recount and no decision,
/// in any number and order, changes its status.
pub proof fn lemma_terminal_report_stays(
    entries: Seq<ReportEntry>,
    report_id: u64,
    events: Seq<ModerationEvent>,
)
    requires
        1 <= report_id <= entries.len(),
        entries[report_id - 1].report.status.is_terminal(),
    ensures
        run_moderation(entries, report_id, events).len() == entries.len(),
        run_moderation(entries, report_id, events)[report_id - 1].report.status
            == entries[report_id - 1].report.status,
    decreases events.len(),
{
    if events.len() > 0 {
        let next = match events[0] {
            ModerationEvent::ClaimRecount(n) => claim_recount_spec(entries, report_id, n).0,
            ModerationEvent::Decision(m, a) => decision_spec(entries, report_id, m, a).0,
        };
        assert(next.len() == entries.len());
        assert(next[report_id - 1].report.status == entries[report_id - 1].report.status);
        lemma_terminal_report_stays(next, report_id, events.drop_first());
    }
}

/// Index of the most recent entry whose mod view is message `message_id` in
/// channel `channel_id`, or -1.
pub open spec fn mod_view_index(entries: Seq<ReportEntry>, message_id: u64, channel_id: u64) -> int
    decreases entries.len(),
{
    if entries.len() == 0 {
        -1
    } else if entries.last().mod_view matches Some(v) && v.message_id == message_id && v.channel_id
        == channel_id {
        entries.len() - 1
    } else {
        mod_view_index(entries.drop_last(), message_id, channel_id)
    }
}

/// Index of the most recent entry whose user view is message `message_id`, or -1.
pub open spec fn user_view_index(entries: Seq<ReportEntry>, message_id: u64) -> int
    decreases entries.len(),
{
    if entries.len() == 0 {
        -1
    } else if entries.last().user_view matches Some(v) && v.message_id == message_id {
        entries.len() - 1
    } else {
        user_view_index(entries.drop_last(), message_id)
    }
}

/// The most recent mod view on a message is a position that holds a mod view.
pub proof fn lemma_mod_view_index(entries: Seq<ReportEntry>, message_id: u64, channel_id: u64)
    ensures
        -1 <= mod_view_index(entries, message_id, channel_id) < entries.len(),
        mod_view_index(entries, message_id, channel_id) >= 0 ==> entries[mod_view_index(
            entries,
            message_id,
            channel_id,
        )].mod_view is Some,
    decreases entries.len(),
{
    if entries.len() > 0 {
        lemma_mod_view_index(entries.drop_last(), message_id, channel_id);
    }
}

/// The most recent user view on a message is a position that holds a user view.
pub proof fn lemma_user_view_index(entries: Seq<ReportEntry>, message_id: u64)
    ensures
        -1 <= user_view_index(entries, message_id) < entries.len(),
        user_view_index(entries, message_id) >= 0 ==> entries[user_view_index(
            entries,
            message_id,
        )].user_view is Some,
    decreases entries.len(),
{
    if entries.len() > 0 {
        lemma_user_view_index(entries.drop_last(), message_id);
    }
}

/// The view that message `message_id` in channel `channel_id` renders: a mod
/// view on that message in that channel first, else a user view on that message.
pub open spec fn view_by_message_spec(entries: Seq<ReportEntry>, message_id: u64, channel_id: u64) -> Option<
    ViewModel,
> {
    let i = mod_view_index(entries, message_id, channel_id);
    let j = user_view_index(entries, message_id);
    if i >= 0 {
        Some(ViewModel::Mod(entries[i].mod_view->0))
    } else if j >= 0 {
        Some(ViewModel::User(entries[j].user_view->0))
    } else {
        None
    }
}

} // verus!
