use narc::cache::Cache;
use narc::database::{Database, ReportUpdateError};
use narc::emoji::{ReactionEmoji, ServerConfiguration};
use narc::models::{
    ArchiveMessageEffect, FlaggedMessage, MakeReportEffect, ModViewModel, UserViewModel,
    ViewModel,
};
use narc::router::{count_claimants, recount_claims};
use narc::status::ReportStatus;

fn message(id: u64, content: &str) -> FlaggedMessage {
    FlaggedMessage {
        channel_id: 500,
        message_id: id,
        author_id: 900,
        content: content.to_string(),
    }
}

#[test]
fn first_report_wins_later_ones_are_duplicates() {
    let mut db = Database::new();
    let m = message(1000, "rude words");
    let first = db.make_report(1, 7, 900, Some(&m), None);
    assert_eq!(first, MakeReportEffect::Created(1));
    for _ in 0..3 {
        let again = db.make_report(1, 7, 900, Some(&m), Some("again".to_string()));
        assert_eq!(again, MakeReportEffect::Duplicate(1));
    }
    assert_eq!(db.report_count(), 1);
    let report = db.load_report(1).unwrap();
    assert_eq!(report.accuser_user_id, 7);
    assert_eq!(report.reported_user_id, 900);
    assert_eq!(report.status, ReportStatus::Unhandled);
    assert_eq!(report.channel_id, Some(500));
    assert_eq!(report.message_id, Some(1000));
    assert_eq!(report.reason, None);
}

#[test]
fn other_accuser_or_message_creates_a_report() {
    let mut db = Database::new();
    let m = message(1000, "rude words");
    assert_eq!(db.make_report(1, 7, 900, Some(&m), None), MakeReportEffect::Created(1));
    assert_eq!(db.make_report(1, 8, 900, Some(&m), None), MakeReportEffect::Created(2));
    let m2 = message(1001, "more");
    assert_eq!(db.make_report(1, 7, 900, Some(&m2), None), MakeReportEffect::Created(3));
    assert_eq!(db.make_report(1, 8, 900, Some(&m), None), MakeReportEffect::Duplicate(2));
}

#[test]
fn reports_without_message_are_never_duplicates() {
    let mut db = Database::new();
    let a = db.make_report(1, 7, 900, None, Some("spam".to_string()));
    let b = db.make_report(1, 7, 900, None, Some("spam".to_string()));
    assert_eq!(a, MakeReportEffect::Created(1));
    assert_eq!(b, MakeReportEffect::Created(2));
    assert_eq!(db.load_report(2).unwrap().reason, Some("spam".to_string()));
    assert_eq!(db.load_report(2).unwrap().message_id, None);
}

#[test]
fn archive_appends_only_changed_content() {
    let mut db = Database::new();
    let m = message(1000, "v1");
    assert_eq!(db.archive_message_in_transaction(&m), ArchiveMessageEffect::Archived(1));
    assert_eq!(db.archive_message_in_transaction(&m), ArchiveMessageEffect::Unchanged(1));
    let other = message(2000, "v1");
    assert_eq!(db.archive_message_in_transaction(&other), ArchiveMessageEffect::Archived(2));
    let edited = message(1000, "v2");
    assert_eq!(db.archive_message_in_transaction(&edited), ArchiveMessageEffect::Archived(3));
    assert_eq!(db.archive_message_in_transaction(&edited), ArchiveMessageEffect::Unchanged(3));
    assert_eq!(db.archive_message_in_transaction(&m), ArchiveMessageEffect::Archived(4));
    assert_eq!(db.latest_archive_id(1000), Some(4));
    assert_eq!(db.latest_archive_id(2000), Some(2));
    assert_eq!(db.latest_archive_id(3000), None);
    assert_eq!(ArchiveMessageEffect::Archived(4).message_id(), 4);
    assert_eq!(ArchiveMessageEffect::Unchanged(9).message_id(), 9);
}

#[test]
fn make_report_archives_the_flagged_message() {
    let mut db = Database::new();
    let m = message(1000, "v1");
    db.make_report(1, 7, 900, Some(&m), None);
    assert_eq!(db.latest_archive_id(1000), Some(1));
    let edited = message(1000, "v2");
    assert_eq!(db.make_report(1, 7, 900, Some(&edited), None), MakeReportEffect::Duplicate(1));
    assert_eq!(db.latest_archive_id(1000), Some(2));
}

#[test]
fn update_of_missing_report_touches_no_row() {
    let mut db = Database::new();
    assert_eq!(
        db.update_report(1, Some("x".to_string()), None),
        Err(ReportUpdateError::SurprisingRowUpdateCount(0))
    );
    db.make_report(1, 7, 900, None, None);
    assert_eq!(
        db.update_report(0, None, Some(ReportStatus::Reviewing)),
        Err(ReportUpdateError::SurprisingRowUpdateCount(0))
    );
    assert_eq!(
        db.update_report_status(2, ReportStatus::Reviewing),
        Err(ReportUpdateError::SurprisingRowUpdateCount(0))
    );
    assert_eq!(db.load_report(1).unwrap().status, ReportStatus::Unhandled);
}

#[test]
fn update_sets_only_what_is_given() {
    let mut db = Database::new();
    db.make_report(1, 7, 900, None, Some("first".to_string()));
    assert_eq!(
        db.update_report_status(1, ReportStatus::Reviewing),
        Ok(MakeReportEffect::Updated(1))
    );
    let r = db.load_report(1).unwrap();
    assert_eq!(r.status, ReportStatus::Reviewing);
    assert_eq!(r.reason, Some("first".to_string()));
    assert_eq!(
        db.update_report_reason(1, "second".to_string()),
        Ok(MakeReportEffect::Updated(1))
    );
    let r = db.load_report(1).unwrap();
    assert_eq!(r.status, ReportStatus::Reviewing);
    assert_eq!(r.reason, Some("second".to_string()));
    assert_eq!(db.update_report(1, None, None), Ok(()));
    assert_eq!(db.load_report(1).unwrap().reason, Some("second".to_string()));
}

#[test]
fn claimants_are_distinct_humans() {
    assert_eq!(count_claimants(&vec![], 1), 0);
    assert_eq!(count_claimants(&vec![1], 1), 0);
    assert_eq!(count_claimants(&vec![1, 5], 1), 1);
    assert_eq!(count_claimants(&vec![1, 5, 6], 1), 2);
    assert_eq!(count_claimants(&vec![5, 5, 5], 1), 1);
    assert_eq!(count_claimants(&vec![5, 6, 5, 7, 1, 6], 1), 3);
}

#[test]
fn claims_move_between_unhandled_and_reviewing() {
    let mut db = Database::new();
    db.make_report(1, 7, 900, None, None);
    let bot = 1;
    assert_eq!(recount_claims(&mut db, 1, &vec![bot, 20], bot), Ok(ReportStatus::Unhandled));
    assert_eq!(recount_claims(&mut db, 1, &vec![bot, 20, 21], bot), Ok(ReportStatus::Reviewing));
    assert_eq!(db.load_report(1).unwrap().status, ReportStatus::Reviewing);
    assert_eq!(recount_claims(&mut db, 1, &vec![20, 20], bot), Ok(ReportStatus::Unhandled));
    assert_eq!(db.load_report(1).unwrap().status, ReportStatus::Unhandled);
    assert_eq!(
        recount_claims(&mut db, 2, &vec![20, 21], bot),
        Err(ReportUpdateError::SurprisingRowUpdateCount(0))
    );
}

fn with_mod_view(db: &mut Database, report_id: u64) {
    db.save_mod_view(ModViewModel {
        report_id,
        channel_id: 300,
        message_id: 3000 + report_id,
        preview_archive_id: 0,
        handler: None,
    })
    .unwrap();
}

#[test]
fn decision_finalizes_and_records_handler() {
    let mut db = Database::new();
    db.make_report(1, 7, 900, None, None);
    with_mod_view(&mut db, 1);
    db.save_user_view(UserViewModel {
        report_id: 1,
        message_id: 4001,
        status: ReportStatus::Unhandled,
    })
    .unwrap();
    let outcome = db.finalize_report(1, 55, true).unwrap();
    assert_eq!(outcome.status, ReportStatus::Accepted);
    assert!(outcome.changed);
    assert_eq!(outcome.accuser_user_id, 7);
    assert_eq!(outcome.user_view_message_id, Some(4001));
    assert_eq!(db.load_report(1).unwrap().status, ReportStatus::Accepted);
    assert_eq!(db.load_mod_view(1).unwrap().handler, Some(55));
}

#[test]
fn terminal_report_ignores_claims_and_decisions() {
    let mut db = Database::new();
    db.make_report(1, 7, 900, None, None);
    with_mod_view(&mut db, 1);
    db.finalize_report(1, 55, false).unwrap();
    assert_eq!(db.load_report(1).unwrap().status, ReportStatus::Denied);
    let again = db.finalize_report(1, 56, true).unwrap();
    assert_eq!(again.status, ReportStatus::Denied);
    assert!(!again.changed);
    assert_eq!(db.load_mod_view(1).unwrap().handler, Some(55));
    assert_eq!(recount_claims(&mut db, 1, &vec![20, 21, 22], 1), Ok(ReportStatus::Denied));
    assert_eq!(db.apply_claim_count(1, 0), Ok(ReportStatus::Denied));
    assert_eq!(db.load_report(1).unwrap().status, ReportStatus::Denied);
}

#[test]
fn decision_without_mod_view_changes_nothing() {
    let mut db = Database::new();
    db.make_report(1, 7, 900, None, None);
    assert_eq!(
        db.finalize_report(1, 55, true),
        Err(ReportUpdateError::SurprisingRowUpdateCount(0))
    );
    assert_eq!(db.load_report(1).unwrap().status, ReportStatus::Unhandled);
    assert_eq!(
        db.update_mod_view_handler(1, 55),
        Err(ReportUpdateError::SurprisingRowUpdateCount(0))
    );
    assert_eq!(
        db.finalize_report(9, 55, true),
        Err(ReportUpdateError::SurprisingRowUpdateCount(0))
    );
}

#[test]
fn views_are_found_by_message() {
    let mut db = Database::new();
    db.make_report(1, 7, 900, None, None);
    db.make_report(1, 8, 900, None, None);
    with_mod_view(&mut db, 2);
    db.save_user_view(UserViewModel {
        report_id: 1,
        message_id: 4001,
        status: ReportStatus::Unhandled,
    })
    .unwrap();
    match db.load_view_by_message(3002, 300) {
        Some(ViewModel::Mod(v)) => assert_eq!(v.report_id, 2),
        other => panic!("unexpected view {:?}", other),
    }
    assert_eq!(db.load_view_by_message(3002, 301), None);
    match db.load_view_by_message(4001, 12345) {
        Some(ViewModel::User(v)) => assert_eq!(v.report_id, 1),
        other => panic!("unexpected view {:?}", other),
    }
    assert_eq!(db.load_view_by_message(9, 9), None);
    assert_eq!(db.load_user_view(2), None);
    assert_eq!(db.load_mod_view(1), None);
    assert_eq!(
        db.save_user_view(UserViewModel {
            report_id: 3,
            message_id: 1,
            status: ReportStatus::Unhandled
        }),
        Err(ReportUpdateError::SurprisingRowUpdateCount(0))
    );
}

#[test]
fn config_read_after_write_sees_new_value() {
    let mut db = Database::new();
    assert!(db.get_server_config(1).is_none());
    assert!(!db.has_server_config(1));
    db.save_server_configuration(1, ReactionEmoji::Unicode("🚨".to_string()), 300, Some("n!".to_string()));
    let config = db.get_server_config(1).unwrap();
    assert_eq!(config.reports_channel, 300);
    assert_eq!(db.get_server_prefix(1), Some("n!".to_string()));
    db.save_server_configuration(1, ReactionEmoji::Custom(42), 301, None);
    let config = db.get_server_config(1).unwrap();
    assert_eq!(config.reports_channel, 301);
    assert!(config.matches_emoji(&ReactionEmoji::Custom(42)));
    assert_eq!(db.get_server_prefix(1), None);
    assert!(db.has_server_config(1));
    assert!(db.load_server_config(2).is_none());
}

#[test]
fn cache_entries_are_evicted_by_guild() {
    let mut cache = Cache::new();
    assert!(cache.lookup(1).is_none());
    cache.store(1, None);
    cache.store(
        2,
        Some(ServerConfiguration {
            reports_channel: 5,
            report_emoji: ReactionEmoji::Custom(1),
            prefix: None,
        }),
    );
    assert!(matches!(cache.lookup(1), Some(None)));
    assert_eq!(cache.lookup(2).unwrap().unwrap().reports_channel, 5);
    cache.wipe_server_config_cache(1);
    assert!(cache.lookup(1).is_none());
    assert!(cache.lookup(2).is_some());
}
