use vstd::prelude::*;

use crate::cache::config_lookup;
use crate::emoji::ServerConfiguration;
use crate::database::{Database, ReportUpdateError};
use crate::transitions::{latest_archive_id_spec, report_lookup};
use crate::models::{MakeReportEffect, ModViewModel, ReportEntry, ReportModel, UserViewModel};
use crate::status::ReportStatus;

verus! {

/// Where a view is rendered: a new message, or the message it already has.
#[derive(Clone, Copy, Debug, PartialEq, Eq, Structural)]
pub enum MessageTarget {
    Send,
    Edit(u64),
}

/// A reaction offered on a view for people to act with.
#[derive(Clone, Copy, Debug, PartialEq, Eq, Structural)]
pub enum Affordance {
    Refresh,
    Claim,
    Reject,
    Accept,
    Edit,
}

impl Affordance {
    /// The glyph of the affordance.
    pub fn glyph(&self) -> (r: &'static str)
        ensures
            r@ == affordance_glyph(*self),
    {
        match self {
            Affordance::Refresh => crate::emoji::REFRESH_GLYPH,
            Affordance::Claim => crate::emoji::CLAIM_GLYPH,
            Affordance::Reject => crate::emoji::REJECT_GLYPH,
            Affordance::Accept => crate::emoji::ACCEPT_GLYPH,
            Affordance::Edit => crate::emoji::EDIT_GLYPH,
        }
    }
}

/// The glyph of each affordance.
pub open spec fn affordance_glyph(a: Affordance) -> Seq<char> {
    match a {
        Affordance::Refresh => crate::emoji::REFRESH_GLYPH@,
        Affordance::Claim => crate::emoji::CLAIM_GLYPH@,
        Affordance::Reject => crate::emoji::REJECT_GLYPH@,
        Affordance::Accept => crate::emoji::ACCEPT_GLYPH@,
        Affordance::Edit => crate::emoji::EDIT_GLYPH@,
    }
}

/// The reactions of a mod view, in the order they are added.
pub open spec fn mod_affordances() -> Seq<Affordance> {
    seq![Affordance::Refresh, Affordance::Claim, Affordance::Reject, Affordance::Accept]
}

/// The reactions of a user view, in the order they are added.
pub open spec fn user_affordances() -> Seq<Affordance> {
    seq![Affordance::Refresh, Affordance::Edit]
}

/// Why a view could not be planned.
#[derive(Clone, Copy, Debug, PartialEq, Eq, Structural)]
pub enum UpdateViewError {
    ReportDoesntExist,
    UnconfiguredServer,
}

/// How to render the reporter's view: in a direct message to the accuser.
#[derive(Debug)]
pub struct UserViewPlan {
    pub recipient_user_id: u64,
    pub target: MessageTarget,
    pub affordances: Vec<Affordance>,
}

/// How to render the moderators' view: in the channel of the message it
/// already has, else in the guild's reports channel; pinned while the report
/// is open.
#[derive(Debug)]
pub struct ModViewPlan {
    pub channel_id: u64,
    pub target: MessageTarget,
    pub affordances: Vec<Affordance>,
    pub pinned: bool,
    pub handler: Option<u64>,
}

/// Everything needed to bring both views of a report up to date. The user
/// view is planned whatever becomes of the mod view.
#[derive(Debug)]
pub struct ViewPlan {
    pub report: ReportModel,
    pub user_view: UserViewPlan,
    pub mod_view: Result<ModViewPlan, UpdateViewError>,
}

/// Edit the user view message the report has, else send one.
pub open spec fn user_target(e: ReportEntry) -> MessageTarget {
    match e.user_view {
        Some(v) => MessageTarget::Edit(v.message_id),
        None => MessageTarget::Send,
    }
}

/// Edit the mod view message the report has, else send one.
pub open spec fn mod_target(e: ReportEntry) -> MessageTarget {
    match e.mod_view {
        Some(v) => MessageTarget::Edit(v.message_id),
        None => MessageTarget::Send,
    }
}

/// The channel of the mod view: that of the message it already has, else the
/// guild's reports channel.
pub open spec fn mod_channel(e: ReportEntry, config: ServerConfiguration) -> u64 {
    match e.mod_view {
        Some(v) => v.channel_id,
        None => config.reports_channel,
    }
}

/// The handler recorded on the report's mod view, if any.
pub open spec fn handler_of(e: ReportEntry) -> Option<u64> {
    match e.mod_view {
        Some(v) => v.handler,
        None => None,
    }
}

/// The entries after the user view of report `report_id` was recorded as
/// message `message_id`, showing status `status`.
pub open spec fn with_user_view(
    entries: Seq<ReportEntry>,
    report_id: u64,
    message_id: u64,
    status: ReportStatus,
) -> Seq<ReportEntry> {
    entries.update(
        report_id - 1,
        ReportEntry {
            user_view: Some(UserViewModel { report_id, message_id, status }),
            ..entries[report_id - 1]
        },
    )
}

/// The entries after the mod view of report `report_id` was recorded as
/// message `message_id` in channel `channel_id`; the handler is kept.
pub open spec fn with_mod_view(
    entries: Seq<ReportEntry>,
    report_id: u64,
    channel_id: u64,
    message_id: u64,
    preview_archive_id: u64,
) -> Seq<ReportEntry> {
    entries.update(
        report_id - 1,
        ReportEntry {
            mod_view: Some(
                ModViewModel {
                    report_id,
                    channel_id,
                    message_id,
                    preview_archive_id,
                    handler: handler_of(entries[report_id - 1]),
                },
            ),
            ..entries[report_id - 1]
        },
    )
}

/// The archived version a mod view previews: the latest version of the
/// report's origin message, or 0 where none is archived.
pub open spec fn preview_of(db: Database, report: ReportModel) -> u64 {
    match report.message_id {
        Some(m) => match latest_archive_id_spec(db.archive(), m) {
            Some(id) => id,
            None => 0,
        },
        None => 0,
    }
}

/// Both view plans of report `report_id` against the store `db`.
pub open spec fn view_plan_matches(db: Database, report_id: u64, plan: ViewPlan) -> bool {
    let e = db.entries()[report_id - 1];
    &&& plan.report == e.report
    &&& plan.user_view.recipient_user_id == e.report.accuser_user_id
    &&& plan.user_view.target == user_target(e)
    &&& plan.user_view.affordances@ == user_affordances()
    &&& match config_lookup(db.configs(), e.report.guild_id) {
        None => plan.mod_view == Err::<ModViewPlan, UpdateViewError>(
            UpdateViewError::UnconfiguredServer,
        ),
        Some(c) => plan.mod_view matches Ok(m) && m.channel_id == mod_channel(e, c) && m.target
            == mod_target(e) && m.affordances@ == mod_affordances() && m.pinned
            == !e.report.status.is_terminal() && m.handler == handler_of(e),
    }
}

/// The affordances of a mod view.
fn mod_affordance_list() -> (r: Vec<Affordance>)
    ensures
        r@ == mod_affordances(),
{
    let mut v: Vec<Affordance> = Vec::new();
    v.push(Affordance::Refresh);
    v.push(Affordance::Claim);
    v.push(Affordance::Reject);
    v.push(Affordance::Accept);
    assert(v@ =~= mod_affordances());
    v
}

/// The affordances of a user view.
fn user_affordance_list() -> (r: Vec<Affordance>)
    ensures
        r@ == user_affordances(),
{
    let mut v: Vec<Affordance> = Vec::new();
    v.push(Affordance::Refresh);
    v.push(Affordance::Edit);
    assert(v@ =~= user_affordances());
    v
}

impl Database {
    /// Plans the synchronization of both views of the report that `effect`
    /// names: each view edits the message it already has, or sends a new one.
    /// The mod view goes to the guild's reports channel and needs a
    /// configuration; the user view is planned either way.
    pub fn update_report_view(&mut self, effect: MakeReportEffect) -> (r: Result<
        ViewPlan,
        UpdateViewError,
    >)
        requires
            old(self).wf(),
        ensures
            final(self).wf(),
            final(self).entries() == old(self).entries(),
            final(self).archive() == old(self).archive(),
            final(self).configs() == old(self).configs(),
            match r {
                Ok(plan) => report_lookup(old(self).entries(), effect.report_id()) is Some
                    && view_plan_matches(*old(self), effect.report_id(), plan),
                Err(e) => report_lookup(old(self).entries(), effect.report_id()) is None && e
                    == UpdateViewError::ReportDoesntExist,
            },
    {
        let report_id = effect.report_id();
        let report = match self.load_report(report_id) {
            Some(r) => r,
            None => {
                return Err(UpdateViewError::ReportDoesntExist);
            },
        };
        let user_view = self.load_user_view(report_id);
        let existing = self.load_mod_view(report_id);
        let user_plan = UserViewPlan {
            recipient_user_id: report.accuser_user_id,
            target: match user_view {
                Some(v) => MessageTarget::Edit(v.message_id),
                None => MessageTarget::Send,
            },
            affordances: user_affordance_list(),
        };
        let mod_plan = match self.get_server_config(report.guild_id) {
            None => Err(UpdateViewError::UnconfiguredServer),
            Some(config) => Ok(
                ModViewPlan {
                    channel_id: match existing {
                        Some(v) => v.channel_id,
                        None => config.reports_channel,
                    },
                    target: match existing {
                        Some(v) => MessageTarget::Edit(v.message_id),
                        None => MessageTarget::Send,
                    },
                    affordances: mod_affordance_list(),
                    pinned: !report.status.is_terminal(),
                    handler: match existing {
                        Some(v) => v.handler,
                        None => None,
                    },
                },
            ),
        };
        Ok(ViewPlan { report, user_view: user_plan, mod_view: mod_plan })
    }

    /// Records message `message_id` as the user view of report `report_id`,
    /// showing the report's current status.
    pub fn record_user_view(&mut self, report_id: u64, message_id: u64) -> (r: Result<
        (),
        ReportUpdateError,
    >)
        requires
            old(self).wf(),
        ensures
            final(self).wf(),
            match report_lookup(old(self).entries(), report_id) {
                Some(rep) => r is Ok && final(self).entries() == with_user_view(
                    old(self).entries(),
                    report_id,
                    message_id,
                    rep.status,
                ),
                None => r == Err::<(), ReportUpdateError>(
                    ReportUpdateError::SurprisingRowUpdateCount(0),
                ) && final(self).entries() == old(self).entries(),
            },
            final(self).archive() == old(self).archive(),
            final(self).configs() == old(self).configs(),
            final(self).cached() == old(self).cached(),
    {
        let status = match self.load_report(report_id) {
            Some(r) => r.status,
            None => {
                return Err(ReportUpdateError::SurprisingRowUpdateCount(0));
            },
        };
        self.save_user_view(UserViewModel { report_id, message_id, status })
    }

    /// Records message `message_id` in channel `channel_id` as the mod view
    /// of report `report_id`, keeping the recorded handler and previewing the
    /// latest archived version of the flagged message.
    pub fn record_mod_view(&mut self, report_id: u64, channel_id: u64, message_id: u64) -> (r:
        Result<(), ReportUpdateError>)
        requires
            old(self).wf(),
        ensures
            final(self).wf(),
            match report_lookup(old(self).entries(), report_id) {
                Some(rep) => r is Ok && final(self).entries() == with_mod_view(
                    old(self).entries(),
                    report_id,
                    channel_id,
                    message_id,
                    preview_of(*old(self), rep),
                ),
                None => r == Err::<(), ReportUpdateError>(
                    ReportUpdateError::SurprisingRowUpdateCount(0),
                ) && final(self).entries() == old(self).entries(),
            },
            final(self).archive() == old(self).archive(),
            final(self).configs() == old(self).configs(),
            final(self).cached() == old(self).cached(),
    {
        let report = match self.load_report(report_id) {
            Some(r) => r,
            None => {
                return Err(ReportUpdateError::SurprisingRowUpdateCount(0));
            },
        };
        let preview_archive_id = match report.message_id {
            Some(m) => match self.latest_archive_id(m) {
                Some(id) => id,
                None => 0,
            },
            None => 0,
        };
        let handler = match self.load_mod_view(report_id) {
            Some(v) => v.handler,
            None => None,
        };
        self.save_mod_view(
            ModViewModel { report_id, channel_id, message_id, preview_archive_id, handler },
        )
    }
}

/// Synchronizing an unchanged report twice edits the same messages both
/// times. Once a view is recorded as the message that a synchronization
/// rendered (an edit keeps the message it edits), the next synchronization
/// edits that very message; no second message is sent, and the report still
/// has exactly one view of each kind.
pub proof fn lemma_resync_edits_same_message(
    entries: Seq<ReportEntry>,
    report_id: u64,
    user_message_id: u64,
    mod_channel_id: u64,
    mod_message_id: u64,
    preview_archive_id: u64,
)
    requires
        1 <= report_id <= entries.len(),
        user_target(entries[report_id - 1]) matches MessageTarget::Edit(m) ==> m
            == user_message_id,
        mod_target(entries[report_id - 1]) matches MessageTarget::Edit(m) ==> m == mod_message_id,
    ensures
        ({
            let s = entries[report_id - 1].report.status;
            let after_user = with_user_view(entries, report_id, user_message_id, s);
            let after = with_mod_view(
                after_user,
                report_id,
                mod_channel_id,
                mod_message_id,
                preview_archive_id,
            );
            &&& after.len() == entries.len()
            &&& after[report_id - 1].report == entries[report_id - 1].report
            &&& user_target(after[report_id - 1]) == MessageTarget::Edit(user_message_id)
            &&& mod_target(after[report_id - 1]) == MessageTarget::Edit(mod_message_id)
            &&& user_target(entries[report_id - 1]) is Edit ==> user_target(after[report_id - 1])
                == user_target(entries[report_id - 1])
            &&& mod_target(entries[report_id - 1]) is Edit ==> mod_target(after[report_id - 1])
                == mod_target(entries[report_id - 1])
            &&& handler_of(after[report_id - 1]) == handler_of(entries[report_id - 1])
        }),
{
}

} // verus!
