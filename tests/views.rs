use narc::database::{Database, ReportUpdateError};
use narc::emoji::ReactionEmoji;
use narc::models::{FlaggedMessage, MakeReportEffect};
use narc::view::{Affordance, MessageTarget, UpdateViewError};

fn configured_db() -> Database {
    let mut db = Database::new();
    db.save_server_configuration(1, ReactionEmoji::Unicode("🚩".to_string()), 300, None);
    db
}

#[test]
fn missing_report_has_no_views() {
    let mut db = configured_db();
    assert_eq!(
        db.update_report_view(MakeReportEffect::Updated(1)).err(),
        Some(UpdateViewError::ReportDoesntExist)
    );
    assert_eq!(
        db.record_user_view(1, 10),
        Err(ReportUpdateError::SurprisingRowUpdateCount(0))
    );
    assert_eq!(
        db.record_mod_view(1, 300, 10),
        Err(ReportUpdateError::SurprisingRowUpdateCount(0))
    );
}

#[test]
fn first_sync_sends_both_views() {
    let mut db = configured_db();
    let effect = db.make_report(1, 7, 900, None, None);
    let plan = db.update_report_view(effect).unwrap();
    assert_eq!(plan.report.id, 1);
    assert_eq!(plan.user_view.recipient_user_id, 7);
    assert_eq!(plan.user_view.target, MessageTarget::Send);
    assert_eq!(plan.user_view.affordances, vec![Affordance::Refresh, Affordance::Edit]);
    let m = plan.mod_view.unwrap();
    assert_eq!(m.channel_id, 300);
    assert_eq!(m.target, MessageTarget::Send);
    assert_eq!(
        m.affordances,
        vec![Affordance::Refresh, Affordance::Claim, Affordance::Reject, Affordance::Accept]
    );
    assert!(m.pinned);
    assert_eq!(m.handler, None);
}

#[test]
fn resync_edits_the_same_messages() {
    let mut db = configured_db();
    let effect = db.make_report(1, 7, 900, None, None);
    db.update_report_view(effect).unwrap();
    db.record_user_view(1, 4001).unwrap();
    db.record_mod_view(1, 300, 3001).unwrap();
    for _ in 0..2 {
        let plan = db.update_report_view(MakeReportEffect::Updated(1)).unwrap();
        assert_eq!(plan.user_view.target, MessageTarget::Edit(4001));
        let m = plan.mod_view.unwrap();
        assert_eq!(m.target, MessageTarget::Edit(3001));
        db.record_user_view(1, 4001).unwrap();
        db.record_mod_view(1, m.channel_id, 3001).unwrap();
    }
    assert_eq!(db.load_user_view(1).unwrap().message_id, 4001);
    assert_eq!(db.load_mod_view(1).unwrap().message_id, 3001);
}

#[test]
fn unconfigured_guild_still_gets_user_view() {
    let mut db = Database::new();
    let effect = db.make_report(2, 7, 900, None, None);
    let plan = db.update_report_view(effect).unwrap();
    assert_eq!(plan.mod_view.err(), Some(UpdateViewError::UnconfiguredServer));
    assert_eq!(plan.user_view.target, MessageTarget::Send);
    assert_eq!(plan.user_view.recipient_user_id, 7);
}

#[test]
fn duplicate_effect_syncs_the_existing_report() {
    let mut db = configured_db();
    let m = FlaggedMessage { channel_id: 5, message_id: 50, author_id: 900, content: "x".to_string() };
    db.make_report(1, 7, 900, Some(&m), None);
    let dup = db.make_report(1, 7, 900, Some(&m), None);
    assert_eq!(dup, MakeReportEffect::Duplicate(1));
    assert_eq!(dup.report_id(), 1);
    let plan = db.update_report_view(dup).unwrap();
    assert_eq!(plan.report.id, 1);
}

#[test]
fn mod_view_keeps_handler_and_previews_archive() {
    let mut db = configured_db();
    let m = FlaggedMessage { channel_id: 5, message_id: 50, author_id: 900, content: "x".to_string() };
    db.make_report(1, 7, 900, Some(&m), None);
    db.record_mod_view(1, 300, 3001).unwrap();
    assert_eq!(db.load_mod_view(1).unwrap().preview_archive_id, 1);
    db.finalize_report(1, 55, true).unwrap();
    db.record_mod_view(1, 300, 3001).unwrap();
    let view = db.load_mod_view(1).unwrap();
    assert_eq!(view.handler, Some(55));
    let plan = db.update_report_view(MakeReportEffect::Updated(1)).unwrap();
    let mp = plan.mod_view.unwrap();
    assert!(!mp.pinned);
    assert_eq!(mp.handler, Some(55));
}

#[test]
fn affordance_glyphs() {
    assert_eq!(Affordance::Refresh.glyph(), "🔄");
    assert_eq!(Affordance::Claim.glyph(), "🛄");
    assert_eq!(Affordance::Reject.glyph(), "❌");
    assert_eq!(Affordance::Accept.glyph(), "✅");
    assert_eq!(Affordance::Edit.glyph(), "📝");
}

#[test]
fn existing_mod_view_is_edited_where_it_is() {
    let mut db = configured_db();
    let effect = db.make_report(1, 7, 900, None, None);
    db.record_mod_view(1, 300, 3001).unwrap();
    db.save_server_configuration(1, ReactionEmoji::Unicode("🚩".to_string()), 301, None);
    let plan = db.update_report_view(effect).unwrap().mod_view.unwrap();
    assert_eq!(plan.channel_id, 300);
    assert_eq!(plan.target, MessageTarget::Edit(3001));
    let second = db.make_report(1, 8, 900, None, None);
    let plan = db.update_report_view(second).unwrap().mod_view.unwrap();
    assert_eq!(plan.channel_id, 301);
    assert_eq!(plan.target, MessageTarget::Send);
}
