use vstd::prelude::*;

use crate::cache::config_lookup;
use crate::database::{Database, ReportUpdateError};
use crate::transitions::{claim_recount_spec, view_by_message_spec};
use crate::emoji::{
    is_accept_emoji, is_claim_emoji, is_edit_emoji, is_glyph, is_refresh_emoji, is_reject_emoji,
    matches_server_emoji, matches_server_emoji_spec, ReactionEmoji, ServerConfiguration,
    ACCEPT_GLYPH, CLAIM_GLYPH, EDIT_GLYPH, REFRESH_GLYPH, REJECT_GLYPH,
};
use crate::models::{ReportEntry, ViewModel};
use crate::state::{flag_set, State, UserState};
use crate::status::{claim_status_spec, ReportStatus};

verus! {

/// A reaction added to or removed from a message, as the platform reports it.
#[derive(Debug)]
pub struct ReactionEvent {
    pub user_id: u64,
    pub message_id: u64,
    pub channel_id: u64,
    /// `None` in a direct message.
    pub guild_id: Option<u64>,
    pub emoji: ReactionEmoji,
}

/// What to do about a reaction.
#[derive(Clone, Copy, Debug, PartialEq, Eq, Structural)]
pub enum ReactionAction {
    /// Nothing.
    Ignore,
    /// Delete the reaction, fetch the flagged message, create a report on it
    /// and synchronize the report's views.
    Report { guild_id: u64, channel_id: u64, message_id: u64 },
    /// Synchronize the views of the report again, deleting the reaction
    /// first where it is in a guild.
    Refresh { report_id: u64, delete_reaction: bool },
    /// Ask the reporter for a new reason, then store it and synchronize.
    EditReason { report_id: u64, delete_reaction: bool },
    /// Count the claimants on the mod view anew and apply the claim rule.
    RecountClaims { report_id: u64 },
    /// Delete the reaction and record the moderator's decision.
    Finalize { report_id: u64, moderator: u64, accepted: bool },
}

/// Report `report_id` exists and is not terminal.
pub open spec fn report_open(entries: Seq<ReportEntry>, report_id: u64) -> bool {
    1 <= report_id <= entries.len() && !entries[report_id - 1].report.status.is_terminal()
}

/// The mod-view rules on a message that is not a report flag: refresh, edit,
/// claim, accept and reject, in that order.
pub open spec fn route_view_spec(entries: Seq<ReportEntry>, event: ReactionEvent) -> ReactionAction {
    let view = view_by_message_spec(entries, event.message_id, event.channel_id);
    let in_guild = event.guild_id is Some;
    if is_glyph(event.emoji, REFRESH_GLYPH@) {
        match view {
            Some(ViewModel::Mod(v)) => ReactionAction::Refresh {
                report_id: v.report_id,
                delete_reaction: in_guild,
            },
            _ => ReactionAction::Ignore,
        }
    } else if is_glyph(event.emoji, EDIT_GLYPH@) {
        match view {
            Some(ViewModel::User(v)) => ReactionAction::EditReason {
                report_id: v.report_id,
                delete_reaction: in_guild,
            },
            _ => ReactionAction::Ignore,
        }
    } else if is_glyph(event.emoji, CLAIM_GLYPH@) {
        match view {
            Some(ViewModel::Mod(v)) => if report_open(entries, v.report_id) {
                ReactionAction::RecountClaims { report_id: v.report_id }
            } else {
                ReactionAction::Ignore
            },
            _ => ReactionAction::Ignore,
        }
    } else if is_glyph(event.emoji, ACCEPT_GLYPH@) || is_glyph(event.emoji, REJECT_GLYPH@) {
        match view {
            Some(ViewModel::Mod(v)) => if report_open(entries, v.report_id) {
                ReactionAction::Finalize {
                    report_id: v.report_id,
                    moderator: event.user_id,
                    accepted: is_glyph(event.emoji, ACCEPT_GLYPH@),
                }
            } else {
                ReactionAction::Ignore
            },
            _ => ReactionAction::Ignore,
        }
    } else {
        ReactionAction::Ignore
    }
}

/// The dispatch of an added reaction, first matching rule first: the bot's
/// own reactions and those of users in the setup wizard are ignored; the
/// guild's report emoji in a guild flags the message; then the view rules.
pub open spec fn route_add_spec(
    entries: Seq<ReportEntry>,
    configs: Map<u64, ServerConfiguration>,
    in_setup: bool,
    bot_user_id: u64,
    event: ReactionEvent,
) -> ReactionAction {
    if event.user_id == bot_user_id {
        ReactionAction::Ignore
    } else if in_setup {
        ReactionAction::Ignore
    } else if event.guild_id matches Some(g) && matches_server_emoji_spec(
        event.emoji,
        config_lookup(configs, g),
    ) {
        ReactionAction::Report {
            guild_id: event.guild_id->0,
            channel_id: event.channel_id,
            message_id: event.message_id,
        }
    } else {
        route_view_spec(entries, event)
    }
}

/// The dispatch of a removed reaction: only the claim rule is evaluated again.
pub open spec fn route_remove_spec(
    entries: Seq<ReportEntry>,
    bot_user_id: u64,
    event: ReactionEvent,
) -> ReactionAction {
    if event.user_id == bot_user_id || !is_glyph(event.emoji, CLAIM_GLYPH@) {
        ReactionAction::Ignore
    } else {
        route_view_spec(entries, event)
    }
}

/// Applies the view rules to a reaction that is no report flag.
fn route_view(db: &Database, event: &ReactionEvent) -> (r: ReactionAction)
    requires
        db.wf(),
    ensures
        r == route_view_spec(db.entries(), *event),
{
    let in_guild = event.guild_id.is_some();
    if is_refresh_emoji(&event.emoji) {
        match db.load_view_by_message(event.message_id, event.channel_id) {
            Some(ViewModel::Mod(v)) => ReactionAction::Refresh {
                report_id: v.report_id,
                delete_reaction: in_guild,
            },
            _ => ReactionAction::Ignore,
        }
    } else if is_edit_emoji(&event.emoji) {
        match db.load_view_by_message(event.message_id, event.channel_id) {
            Some(ViewModel::User(v)) => ReactionAction::EditReason {
                report_id: v.report_id,
                delete_reaction: in_guild,
            },
            _ => ReactionAction::Ignore,
        }
    } else if is_claim_emoji(&event.emoji) {
        match db.load_view_by_message(event.message_id, event.channel_id) {
            Some(ViewModel::Mod(v)) => {
                if is_open(db, v.report_id) {
                    ReactionAction::RecountClaims { report_id: v.report_id }
                } else {
                    ReactionAction::Ignore
                }
            },
            _ => ReactionAction::Ignore,
        }
    } else {
        let accepted = is_accept_emoji(&event.emoji);
        if accepted || is_reject_emoji(&event.emoji) {
            match db.load_view_by_message(event.message_id, event.channel_id) {
                Some(ViewModel::Mod(v)) => {
                    if is_open(db, v.report_id) {
                        ReactionAction::Finalize {
                            report_id: v.report_id,
                            moderator: event.user_id,
                            accepted,
                        }
                    } else {
                        ReactionAction::Ignore
                    }
                },
                _ => ReactionAction::Ignore,
            }
        } else {
            ReactionAction::Ignore
        }
    }
}

/// Whether report `report_id` exists and is not terminal.
fn is_open(db: &Database, report_id: u64) -> (r: bool)
    requires
        db.wf(),
    ensures
        r == report_open(db.entries(), report_id),
{
    match db.load_report(report_id) {
        Some(report) => !report.status.is_terminal(),
        None => false,
    }
}

/// Decides what an added reaction does. Reads the guild's configuration
/// through the cache, which is the only state it changes.
pub fn reaction_add(db: &mut Database, state: &State, bot_user_id: u64, event: &ReactionEvent) -> (r:
    ReactionAction)
    requires
        old(db).wf(),
    ensures
        final(db).wf(),
        r == route_add_spec(
            old(db).entries(),
            old(db).configs(),
            state.in_setup(event.user_id),
            bot_user_id,
            *event,
        ),
        final(db).entries() == old(db).entries(),
        final(db).archive() == old(db).archive(),
        final(db).configs() == old(db).configs(),
{
    if event.user_id == bot_user_id {
        return ReactionAction::Ignore;
    }
    if !state.get_user(event.user_id).can_make_report() {
        return ReactionAction::Ignore;
    }
    match event.guild_id {
        Some(guild_id) => {
            let config = db.get_server_config(guild_id);
            if matches_server_emoji(&event.emoji, config.as_ref()) {
                return ReactionAction::Report {
                    guild_id,
                    channel_id: event.channel_id,
                    message_id: event.message_id,
                };
            }
        },
        None => {},
    }
    route_view(db, event)
}

/// Decides what a removed reaction does: a claim taken back on an open
/// report's mod view has the claimants counted anew.
pub fn reaction_removed(db: &Database, bot_user_id: u64, event: &ReactionEvent) -> (r:
    ReactionAction)
    requires
        db.wf(),
    ensures
        r == route_remove_spec(db.entries(), bot_user_id, *event),
{
    if event.user_id == bot_user_id || !is_claim_emoji(&event.emoji) {
        return ReactionAction::Ignore;
    }
    route_view(db, event)
}

/// The distinct users other than the bot among those holding a reaction.
pub open spec fn claimants(reactors: Seq<u64>, bot_user_id: u64) -> Set<u64> {
    reactors.to_set().remove(bot_user_id)
}

/// Whether `v` holds `x`.
fn holds(v: &Vec<u64>, x: u64) -> (r: bool)
    ensures
        r == v@.contains(x),
{
    let mut i: usize = 0;
    while i < v.len()
        invariant
            i <= v@.len(),
            forall|k: int| 0 <= k < i ==> v@[k] != x,
        decreases v@.len() - i,
    {
        if v[i] == x {
            return true;
        }
        i = i + 1;
    }
    false
}

/// The number of distinct users other than the bot among `reactors`, the
/// users holding the claim reaction on a mod view.
pub fn count_claimants(reactors: &Vec<u64>, bot_user_id: u64) -> (r: u64)
    ensures
        r == claimants(reactors@, bot_user_id).len(),
{
    let mut seen: Vec<u64> = Vec::new();
    let mut i: usize = 0;
    while i < reactors.len()
        invariant
            i <= reactors@.len(),
            seen@.no_duplicates(),
            seen@.len() <= i,
            seen@.to_set() == reactors@.subrange(0, i as int).to_set().remove(bot_user_id),
        decreases reactors@.len() - i,
    {
        let x = reactors[i];
        assert(reactors@.subrange(0, i + 1) =~= reactors@.subrange(0, i as int).push(x));
        proof {
            reactors@.subrange(0, i as int).lemma_push_to_set_commute(x);
        }
        if x != bot_user_id && !holds(&seen, x) {
            proof {
                seen@.lemma_push_to_set_commute(x);
            }
            seen.push(x);
            assert(seen@.to_set() =~= reactors@.subrange(0, i + 1).to_set().remove(bot_user_id));
        } else {
            assert(seen@.to_set() =~= reactors@.subrange(0, i + 1).to_set().remove(bot_user_id));
        }
        i = i + 1;
    }
    assert(reactors@.subrange(0, i as int) =~= reactors@);
    proof {
        seen@.unique_seq_to_set();
    }
    seen.len() as u64
}

/// Counts the distinct human claimants among `reactors` (the bot's own
/// reaction does not count) and applies the claim rule to report `report_id`.
pub fn recount_claims(db: &mut Database, report_id: u64, reactors: &Vec<u64>, bot_user_id: u64) -> (r:
    Result<ReportStatus, ReportUpdateError>)
    requires
        old(db).wf(),
    ensures
        final(db).wf(),
        (final(db).entries(), r) == claim_recount_spec(
            old(db).entries(),
            report_id,
            claimants(reactors@, bot_user_id).len(),
        ),
        final(db).archive() == old(db).archive(),
        final(db).configs() == old(db).configs(),
        final(db).cached() == old(db).cached(),
{
    let n = count_claimants(reactors, bot_user_id);
    db.apply_claim_count(report_id, n)
}

/// With N distinct human claimants on the mod view of an open report, the
/// report is Reviewing when N is at least two, and Unhandled otherwise.
pub proof fn lemma_claim_threshold(
    entries: Seq<ReportEntry>,
    report_id: u64,
    reactors: Seq<u64>,
    bot_user_id: u64,
)
    requires
        report_open(entries, report_id),
    ensures
        ({
            let n = claimants(reactors, bot_user_id).len();
            let expected = if n >= 2 {
                ReportStatus::Reviewing
            } else {
                ReportStatus::Unhandled
            };
            let after = claim_recount_spec(entries, report_id, n);
            &&& after.1 == Ok::<ReportStatus, ReportUpdateError>(expected)
            &&& after.0[report_id - 1].report.status == expected
            &&& after.0.len() == entries.len()
        }),
{
    let n = claimants(reactors, bot_user_id).len();
    assert(claim_status_spec(n) == if n >= 2 {
        ReportStatus::Reviewing
    } else {
        ReportStatus::Unhandled
    });
}

/// A user whose setup guard is set makes no report by reacting; once the
/// guard has been released, on whatever way out of the wizard, the same
/// reaction flags the message.
pub proof fn lemma_guard_suppresses_reports(
    entries: Seq<ReportEntry>,
    configs: Map<u64, ServerConfiguration>,
    users: Map<u64, UserState>,
    bot_user_id: u64,
    event: ReactionEvent,
)
    requires
        event.user_id != bot_user_id,
        event.guild_id is Some,
        matches_server_emoji_spec(event.emoji, config_lookup(configs, event.guild_id->0)),
    ensures
        ({
            let guarded = users.insert(event.user_id, UserState { in_setup: true });
            let released = guarded.insert(event.user_id, UserState { in_setup: false });
            &&& route_add_spec(
                entries,
                configs,
                flag_set(guarded, event.user_id),
                bot_user_id,
                event,
            ) == ReactionAction::Ignore
            &&& route_add_spec(entries, configs, flag_set(released, event.user_id), bot_user_id, event)
                == ReactionAction::Report {
                guild_id: event.guild_id->0,
                channel_id: event.channel_id,
                message_id: event.message_id,
            }
        }),
{
    let guarded = users.insert(event.user_id, UserState { in_setup: true });
    let released = guarded.insert(event.user_id, UserState { in_setup: false });
    assert(flag_set(guarded, event.user_id));
    assert(!flag_set(released, event.user_id));
}

} // verus!
