use narc::database::Database;
use narc::models::{ArchivedMessage, ModViewModel, ReportEntry, ReportModel, UserViewModel};
use narc::status::ReportStatus;

fn report(id: u64) -> ReportModel {
    ReportModel {
        id,
        accuser_user_id: 7,
        reported_user_id: 9,
        guild_id: 1,
        status: ReportStatus::Reviewing,
        channel_id: Some(5),
        message_id: Some(50),
        reason: Some("why".to_string()),
    }
}

#[test]
fn reports_come_back_in_id_order() {
    let mut db = Database::new();
    let first = ReportEntry {
        report: report(1),
        user_view: Some(UserViewModel { report_id: 1, message_id: 11, status: ReportStatus::Reviewing }),
        mod_view: Some(ModViewModel {
            report_id: 1,
            channel_id: 300,
            message_id: 12,
            preview_archive_id: 1,
            handler: Some(4),
        }),
    };
    assert!(db.restore_report(first));
    let out_of_order = ReportEntry { report: report(3), user_view: None, mod_view: None };
    assert!(!db.restore_report(out_of_order));
    let foreign_view = ReportEntry {
        report: report(2),
        user_view: Some(UserViewModel { report_id: 1, message_id: 13, status: ReportStatus::Unhandled }),
        mod_view: None,
    };
    assert!(!db.restore_report(foreign_view));
    assert_eq!(db.report_count(), 1);
    let restored = db.load_report(1).unwrap();
    assert_eq!(restored.status, ReportStatus::Reviewing);
    assert_eq!(restored.reason, Some("why".to_string()));
    assert_eq!(db.load_mod_view(1).unwrap().handler, Some(4));
    assert_eq!(db.load_user_view(1).unwrap().message_id, 11);
}

#[test]
fn restored_reports_still_deduplicate() {
    let mut db = Database::new();
    assert!(db.restore_report(ReportEntry { report: report(1), user_view: None, mod_view: None }));
    let m = narc::models::FlaggedMessage {
        channel_id: 5,
        message_id: 50,
        author_id: 9,
        content: "x".to_string(),
    };
    assert_eq!(
        db.make_report(1, 7, 9, Some(&m), None),
        narc::models::MakeReportEffect::Duplicate(1)
    );
    assert_eq!(
        db.make_report(1, 8, 9, Some(&m), None),
        narc::models::MakeReportEffect::Created(2)
    );
}

#[test]
fn archive_comes_back_in_id_order() {
    let mut db = Database::new();
    assert!(db.restore_archived_message(ArchivedMessage { id: 1, message_id: 50, content: "a".to_string() }));
    assert!(!db.restore_archived_message(ArchivedMessage { id: 3, message_id: 50, content: "b".to_string() }));
    assert_eq!(db.archive_count(), 1);
    assert_eq!(db.load_archived_message(1).unwrap().content, "a");
    assert!(db.load_archived_message(2).is_none());
    let same = narc::models::FlaggedMessage {
        channel_id: 5,
        message_id: 50,
        author_id: 9,
        content: "a".to_string(),
    };
    assert_eq!(
        db.archive_message_in_transaction(&same),
        narc::models::ArchiveMessageEffect::Unchanged(1)
    );
}

#[test]
fn user_view_records_the_status_it_shows() {
    let mut db = Database::new();
    db.make_report(1, 7, 9, None, None);
    db.record_user_view(1, 40).unwrap();
    assert_eq!(db.load_user_view(1).unwrap().status, ReportStatus::Unhandled);
    db.update_report_status(1, ReportStatus::Reviewing).unwrap();
    db.record_user_view(1, 40).unwrap();
    let view = db.load_user_view(1).unwrap();
    assert_eq!(view.status, ReportStatus::Reviewing);
    assert_eq!(view.message_id, 40);
}

#[test]
fn restored_duplicate_is_refused() {
    let mut db = Database::new();
    assert!(db.restore_report(ReportEntry { report: report(1), user_view: None, mod_view: None }));
    assert!(!db.restore_report(ReportEntry { report: report(2), user_view: None, mod_view: None }));
    let mut other = report(2);
    other.accuser_user_id = 8;
    assert!(db.restore_report(ReportEntry { report: other, user_view: None, mod_view: None }));
    assert_eq!(db.report_count(), 2);
}
