use shelx::application::migration::{
    marks_or_none, DataDirResolution, DataDirSource, DataInventoryEntry, DataKind, MigrationError,
    MigrationMarks, MigrationService, DATA_DIR_MIGRATION_ID,
};
use shelx::application::settings::SettingsError;

fn resolution(source: DataDirSource) -> DataDirResolution {
    DataDirResolution {
        dir: "/home/u/.agents-plus/shelx".into(),
        default_dir: "/home/u/.shelx".into(),
        source,
    }
}

fn entries() -> Vec<DataInventoryEntry> {
    vec![DataInventoryEntry { kind: DataKind::Database, total_bytes: 321_000, file_count: 1 }]
}

fn no_marks() -> MigrationMarks {
    MigrationMarks { dismissed_auto_migrations: Vec::new(), pending_migration_id: None }
}

#[test]
fn legacy_status_reports_pending_with_items() {
    let service = MigrationService::new(&resolution(DataDirSource::Legacy));
    let status = service.status(&entries(), &no_marks());
    assert!(status.legacy);
    let pending = status.pending.expect("legacy 应有待迁移项");
    assert_eq!(pending.id, DATA_DIR_MIGRATION_ID);
    assert_eq!(pending.source_dir, "/home/u/.agents-plus/shelx");
    assert_eq!(pending.target_dir, "/home/u/.shelx");
    assert_eq!(pending.items.len(), 1);
    assert_eq!(pending.items[0].label, "连接与分组配置(SQLite 数据库)");
    assert_eq!(pending.items[0].detail.as_deref(), Some("约 314 KB"));
    assert!(!status.auto_prompt_suppressed);
}

#[test]
fn default_source_has_no_pending() {
    let service = MigrationService::new(&resolution(DataDirSource::Default));
    let status = service.status(&entries(), &no_marks());
    assert!(!status.legacy);
    assert!(status.pending.is_none());
    assert_eq!(
        service.approve(DATA_DIR_MIGRATION_ID),
        Err(MigrationError::Invalid("当前没有可迁移的旧数据".into()))
    );
}

#[test]
fn unknown_legacy_content_falls_back_to_generic_item() {
    let service = MigrationService::new(&resolution(DataDirSource::Legacy));
    let pending = service.status(&Vec::new(), &no_marks()).pending.expect("应有待迁移项");
    assert_eq!(pending.items.len(), 1);
    assert_eq!(pending.items[0].label, "应用数据");
}

#[test]
fn approve_is_repeatable_and_refuses_unknown() {
    let service = MigrationService::new(&resolution(DataDirSource::Legacy));
    assert_eq!(service.approve(DATA_DIR_MIGRATION_ID), Ok(()));
    assert_eq!(service.approve(DATA_DIR_MIGRATION_ID), Ok(()));
    assert_eq!(
        service.approve("no-such-migration"),
        Err(MigrationError::Unknown("no-such-migration".into()))
    );
}

#[test]
fn dismiss_records_once_and_suppresses_prompt() {
    let service = MigrationService::new(&resolution(DataDirSource::Legacy));
    let marks = no_marks();
    let list = service.dismiss(DATA_DIR_MIGRATION_ID, &marks).unwrap().expect("首次暂不应记录");
    assert_eq!(list, vec![DATA_DIR_MIGRATION_ID.to_string()]);
    let marks = MigrationMarks { dismissed_auto_migrations: list, pending_migration_id: None };
    assert!(service.status(&entries(), &marks).auto_prompt_suppressed);
    assert_eq!(service.dismiss(DATA_DIR_MIGRATION_ID, &marks), Ok(None));
    assert_eq!(
        service.dismiss("no-such-migration", &marks),
        Err(MigrationError::Unknown("no-such-migration".into()))
    );
    let approved = MigrationMarks {
        dismissed_auto_migrations: Vec::new(),
        pending_migration_id: Some(DATA_DIR_MIGRATION_ID.to_string()),
    };
    assert!(service.status(&entries(), &approved).auto_prompt_suppressed);
}

#[test]
fn unreadable_settings_mean_no_marks() {
    let m = marks_or_none(Err(SettingsError::Invalid("设置文件损坏".to_string())));
    assert!(m.dismissed_auto_migrations.is_empty());
    assert!(m.pending_migration_id.is_none());
    let kept = MigrationMarks { dismissed_auto_migrations: vec!["x".to_string()], pending_migration_id: None };
    assert_eq!(marks_or_none(Ok(kept.clone())), kept);
}
