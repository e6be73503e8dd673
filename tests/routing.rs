use narc::database::Database;
use narc::emoji::ReactionEmoji;
use narc::models::{ModViewModel, UserViewModel};
use narc::router::{reaction_add, reaction_removed, ReactionAction, ReactionEvent};
use narc::state::{InSetup, State, UserState};
use narc::status::ReportStatus;

const BOT: u64 = 1;

fn event(user_id: u64, message_id: u64, channel_id: u64, guild_id: Option<u64>, glyph: &str) -> ReactionEvent {
    ReactionEvent {
        user_id,
        message_id,
        channel_id,
        guild_id,
        emoji: ReactionEmoji::Unicode(glyph.to_string()),
    }
}

fn db_with_views() -> Database {
    let mut db = Database::new();
    db.save_server_configuration(10, ReactionEmoji::Unicode("🚩".to_string()), 300, None);
    db.make_report(10, 7, 900, None, None);
    db.save_mod_view(ModViewModel {
        report_id: 1,
        channel_id: 300,
        message_id: 3001,
        preview_archive_id: 0,
        handler: None,
    })
    .unwrap();
    db.save_user_view(UserViewModel { report_id: 1, message_id: 4001, status: ReportStatus::Unhandled })
        .unwrap();
    db
}

#[test]
fn bot_reactions_are_ignored() {
    let mut db = db_with_views();
    let state = State::new();
    let e = event(BOT, 3001, 300, Some(10), "🛄");
    assert_eq!(reaction_add(&mut db, &state, BOT, &e), ReactionAction::Ignore);
    assert_eq!(reaction_removed(&db, BOT, &e), ReactionAction::Ignore);
}

#[test]
fn report_emoji_in_guild_flags_message() {
    let mut db = db_with_views();
    let state = State::new();
    let e = event(7, 555, 20, Some(10), "🚩");
    assert_eq!(
        reaction_add(&mut db, &state, BOT, &e),
        ReactionAction::Report { guild_id: 10, channel_id: 20, message_id: 555 }
    );
    let dm = event(7, 555, 20, None, "🚩");
    assert_eq!(reaction_add(&mut db, &state, BOT, &dm), ReactionAction::Ignore);
}

#[test]
fn configured_custom_emoji_replaces_default() {
    let mut db = Database::new();
    db.save_server_configuration(10, ReactionEmoji::Custom(42), 300, None);
    let state = State::new();
    let flag = event(7, 555, 20, Some(10), "🚩");
    assert_eq!(reaction_add(&mut db, &state, BOT, &flag), ReactionAction::Ignore);
    let custom = ReactionEvent {
        user_id: 7,
        message_id: 555,
        channel_id: 20,
        guild_id: Some(10),
        emoji: ReactionEmoji::Custom(42),
    };
    assert_eq!(
        reaction_add(&mut db, &state, BOT, &custom),
        ReactionAction::Report { guild_id: 10, channel_id: 20, message_id: 555 }
    );
    let other_guild = event(7, 555, 20, Some(11), "🚩");
    assert_eq!(
        reaction_add(&mut db, &state, BOT, &other_guild),
        ReactionAction::Report { guild_id: 11, channel_id: 20, message_id: 555 }
    );
}

#[test]
fn setup_guard_suppresses_then_allows_reports() {
    let mut db = db_with_views();
    let mut state = State::new();
    let e = event(7, 555, 20, Some(10), "🚩");
    let guard = InSetup::new(&mut state, 7);
    assert_eq!(guard.user_id(), 7);
    assert!(!state.get_user(7).can_make_report());
    assert_eq!(reaction_add(&mut db, &state, BOT, &e), ReactionAction::Ignore);
    assert!(state.get_user(8).can_make_report());
    guard.release(&mut state);
    assert!(state.get_user(7).can_make_report());
    assert_eq!(
        reaction_add(&mut db, &state, BOT, &e),
        ReactionAction::Report { guild_id: 10, channel_id: 20, message_id: 555 }
    );
}

#[test]
fn default_user_state_can_report() {
    let u = UserState::default();
    assert!(!u.in_setup);
    assert!(u.can_make_report());
    let mut state = State::new();
    state.set_in_setup(3, true);
    assert!(state.get_user(3).in_setup);
    state.set_in_setup(3, false);
    assert!(!state.get_user(3).in_setup);
}

#[test]
fn refresh_and_edit_target_their_views() {
    let mut db = db_with_views();
    let state = State::new();
    assert_eq!(
        reaction_add(&mut db, &state, BOT, &event(20, 3001, 300, Some(10), "🔄")),
        ReactionAction::Refresh { report_id: 1, delete_reaction: true }
    );
    assert_eq!(
        reaction_add(&mut db, &state, BOT, &event(7, 4001, 77, None, "🔄")),
        ReactionAction::Ignore
    );
    assert_eq!(
        reaction_add(&mut db, &state, BOT, &event(7, 4001, 77, None, "📝")),
        ReactionAction::EditReason { report_id: 1, delete_reaction: false }
    );
    assert_eq!(
        reaction_add(&mut db, &state, BOT, &event(7, 3001, 300, Some(10), "📝")),
        ReactionAction::Ignore
    );
}

#[test]
fn claims_and_decisions_on_open_reports() {
    let mut db = db_with_views();
    let state = State::new();
    assert_eq!(
        reaction_add(&mut db, &state, BOT, &event(20, 3001, 300, Some(10), "🛄")),
        ReactionAction::RecountClaims { report_id: 1 }
    );
    assert_eq!(
        reaction_removed(&db, BOT, &event(20, 3001, 300, Some(10), "🛄")),
        ReactionAction::RecountClaims { report_id: 1 }
    );
    assert_eq!(
        reaction_removed(&db, BOT, &event(20, 3001, 300, Some(10), "✅")),
        ReactionAction::Ignore
    );
    assert_eq!(
        reaction_add(&mut db, &state, BOT, &event(20, 3001, 300, Some(10), "✅")),
        ReactionAction::Finalize { report_id: 1, moderator: 20, accepted: true }
    );
    assert_eq!(
        reaction_add(&mut db, &state, BOT, &event(21, 3001, 300, Some(10), "❌")),
        ReactionAction::Finalize { report_id: 1, moderator: 21, accepted: false }
    );
    assert_eq!(
        reaction_add(&mut db, &state, BOT, &event(21, 9999, 300, Some(10), "❌")),
        ReactionAction::Ignore
    );
}

#[test]
fn terminal_reports_take_no_claims_or_decisions() {
    let mut db = db_with_views();
    let state = State::new();
    db.finalize_report(1, 20, true).unwrap();
    assert_eq!(
        reaction_add(&mut db, &state, BOT, &event(21, 3001, 300, Some(10), "🛄")),
        ReactionAction::Ignore
    );
    assert_eq!(
        reaction_add(&mut db, &state, BOT, &event(21, 3001, 300, Some(10), "❌")),
        ReactionAction::Ignore
    );
    assert_eq!(
        reaction_removed(&db, BOT, &event(21, 3001, 300, Some(10), "🛄")),
        ReactionAction::Ignore
    );
    assert_eq!(
        reaction_add(&mut db, &state, BOT, &event(21, 3001, 300, Some(10), "🔄")),
        ReactionAction::Refresh { report_id: 1, delete_reaction: true }
    );
}

#[test]
fn other_emoji_are_ignored() {
    let mut db = db_with_views();
    let state = State::new();
    assert_eq!(
        reaction_add(&mut db, &state, BOT, &event(20, 3001, 300, Some(10), "👍")),
        ReactionAction::Ignore
    );
}

#[test]
fn pin_notices_are_taken_once() {
    let mut state = State::new();
    state.pin_msg(300, 3001);
    assert!(!state.take_pinned(300, 3002));
    assert!(state.take_pinned(300, 3001));
    assert!(!state.take_pinned(300, 3001));
}
