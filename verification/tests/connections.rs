use shelx::application::connections::{
    ConnectionDraft, ConnectionError, ConnectionNode, ConnectionService, CredentialInput,
    DeleteGroupMode, SecretKind,
};
use shelx::application::ports::SecretSaveMode;
use shelx::application::test_support::{connection_service, draft, FakeSecretStore, FakeStore};
use shelx::domain::connection::GroupId;

fn service() -> ConnectionService<FakeStore, FakeSecretStore> {
    connection_service()
}

fn credential(value: &str, save: SecretSaveMode) -> CredentialInput {
    CredentialInput { value: value.into(), save }
}

fn in_group(group: &GroupId, name: &str) -> ConnectionDraft {
    ConnectionDraft { group_id: Some(GroupId::new(group.as_str().to_string()).unwrap()), ..draft(name) }
}

#[test]
fn tree_lists_groups_before_connections() {
    let mut svc = service();
    let prod = svc.create_group("生产".into(), None).unwrap();
    svc.create_group("测试".into(), None).unwrap();
    svc.create_connection(draft("web-01")).unwrap();
    svc.create_connection(draft("db-01")).unwrap();
    svc.create_connection(in_group(&prod.id, "内网机")).unwrap();

    let tree = svc.list_tree().unwrap();
    let names: Vec<String> = tree
        .iter()
        .map(|node| match node {
            ConnectionNode::Group(g, _) => format!("group:{}", g.name),
            ConnectionNode::Connection(c) => format!("conn:{}", c.name),
        })
        .collect();
    assert_eq!(names, ["group:生产", "group:测试", "conn:web-01", "conn:db-01"]);

    let ConnectionNode::Group(prod_node, children) = &tree[0] else {
        panic!("首节点应为分组");
    };
    assert_eq!(prod_node.name, "生产");
    assert_eq!(children.len(), 1);
}

#[test]
fn create_connection_appends_position() {
    let mut svc = service();
    let first = svc.create_connection(draft("a")).unwrap();
    let second = svc.create_connection(draft("b")).unwrap();
    assert_eq!((first.position, second.position), (0, 1));
}

#[test]
fn tests_blank_name_is_rejected() {
    let err = service().create_connection(draft("  ")).unwrap_err();
    assert!(matches!(err, ConnectionError::Domain(_)));
}

#[test]
fn duplicate_connection_appends_copy() {
    let mut svc = service();
    let origin = svc.create_connection(draft("web-01")).unwrap();
    let copy = svc.duplicate_connection(&origin.id).unwrap();
    assert_eq!(copy.name, "web-01(副本)");
    assert_eq!(copy.group_id, origin.group_id);
    assert_eq!(copy.position, 1);
    assert_ne!(copy.id, origin.id);
}

#[test]
fn move_connection_to_missing_group_fails() {
    let mut svc = service();
    let conn = svc.create_connection(draft("web-01")).unwrap();
    let err = svc
        .move_connection(&conn.id, Some(GroupId::new("nope".to_string()).unwrap()), None)
        .unwrap_err();
    assert!(matches!(err, ConnectionError::NotFound(_)));
}

#[test]
fn group_nesting_is_limited_to_one_level() {
    let mut svc = service();
    let root = svc.create_group("生产".into(), None).unwrap();
    let child = svc
        .create_group("Web".into(), Some(GroupId::new(root.id.as_str().to_string()).unwrap()))
        .unwrap();
    let err = svc.create_group("更深".into(), Some(child.id)).unwrap_err();
    assert_eq!(err, ConnectionError::NestingTooDeep);
}

#[test]
fn delete_group_modes() {
    let mut svc = service();
    let root = svc.create_group("生产".into(), None).unwrap();
    let conn = svc.create_connection(in_group(&root.id, "web-01")).unwrap();

    let err = svc.delete_group(&root.id, DeleteGroupMode::RequireEmpty).unwrap_err();
    assert_eq!(err, ConnectionError::GroupNotEmpty);

    svc.delete_group(&root.id, DeleteGroupMode::PromoteChildren).unwrap();
    let promoted = svc.connection(&conn.id).unwrap().expect("连接应保留");
    assert_eq!(promoted.group_id, None);
    assert!(svc
        .list_tree()
        .unwrap()
        .iter()
        .all(|n| !matches!(n, ConnectionNode::Group(g, _) if g.id == root.id)));
}

#[test]
fn move_group_with_subgroup_is_rejected() {
    let mut svc = service();
    let root = svc.create_group("生产".into(), None).unwrap();
    svc.create_group("Web".into(), Some(GroupId::new(root.id.as_str().to_string()).unwrap()))
        .unwrap();
    let other = svc.create_group("归档".into(), None).unwrap();

    let err = svc.move_group(&root.id, Some(other.id), None).unwrap_err();
    assert_eq!(err, ConnectionError::NestingTooDeep);
}

#[test]
fn keyring_save_records_ref_and_stores_secret() {
    let mut svc = service();
    let config = svc
        .create_connection(ConnectionDraft {
            password: Some(credential("s3cret", SecretSaveMode::Keyring)),
            ..draft("web-01")
        })
        .unwrap();
    assert_eq!(
        config.secret_ref_password.as_deref(),
        Some(format!("conn:{}:password", config.id.as_str()).as_str())
    );
    assert_eq!(
        svc.resolve_secret(&config.id, SecretKind::Password).unwrap().as_deref(),
        Some("s3cret")
    );
}

#[test]
fn session_save_resolvable_without_ref() {
    let mut svc = service();
    let config = svc
        .create_connection(ConnectionDraft {
            password: Some(credential("temp", SecretSaveMode::Session)),
            ..draft("web-01")
        })
        .unwrap();
    assert_eq!(config.secret_ref_password, None);
    assert_eq!(
        svc.resolve_secret(&config.id, SecretKind::Password).unwrap().as_deref(),
        Some("temp")
    );
}

#[test]
fn update_without_credential_keeps_existing() {
    let mut svc = service();
    let config = svc
        .create_connection(ConnectionDraft {
            password: Some(credential("old", SecretSaveMode::Keyring)),
            ..draft("web-01")
        })
        .unwrap();
    let updated = svc.update_connection(&config.id, draft("web-01 改名")).unwrap();
    assert_eq!(updated.secret_ref_password, config.secret_ref_password);
    assert_eq!(
        svc.resolve_secret(&config.id, SecretKind::Password).unwrap().as_deref(),
        Some("old")
    );
}

#[test]
fn update_with_never_clears_credential() {
    let mut svc = service();
    let config = svc
        .create_connection(ConnectionDraft {
            password: Some(credential("old", SecretSaveMode::Keyring)),
            ..draft("web-01")
        })
        .unwrap();
    let updated = svc
        .update_connection(
            &config.id,
            ConnectionDraft {
                password: Some(credential("ignored", SecretSaveMode::Never)),
                ..draft("web-01")
            },
        )
        .unwrap();
    assert_eq!(updated.secret_ref_password, None);
    assert_eq!(svc.resolve_secret(&config.id, SecretKind::Password).unwrap(), None);
}

#[test]
fn duplicate_does_not_copy_credential_refs() {
    let mut svc = service();
    let origin = svc
        .create_connection(ConnectionDraft {
            password: Some(credential("s3cret", SecretSaveMode::Keyring)),
            ..draft("web-01")
        })
        .unwrap();
    let copy = svc.duplicate_connection(&origin.id).unwrap();
    assert!(origin.secret_ref_password.is_some());
    assert_eq!(copy.secret_ref_password, None);
}

#[test]
fn never_saved_passphrase_resolves_to_nothing() {
    let mut svc = service();
    let config = svc.create_connection(draft("web-01")).unwrap();
    assert_eq!(svc.resolve_secret(&config.id, SecretKind::Passphrase).unwrap(), None);
}

#[test]
fn create_group_under_missing_parent_fails() {
    let mut svc = service();
    let err = svc
        .create_group("x".into(), Some(GroupId::new("ghost".to_string()).unwrap()))
        .unwrap_err();
    assert_eq!(err, ConnectionError::NotFound("父分组"));
}

#[test]
fn group_positions_follow_connections_in_scope() {
    let mut svc = service();
    svc.create_connection(draft("a")).unwrap();
    svc.create_connection(draft("b")).unwrap();
    let g = svc.create_group("生产".into(), None).unwrap();
    assert_eq!(g.position, 2);
}

#[test]
fn blank_group_name_is_rejected() {
    let mut svc = service();
    let err = svc.create_group("   ".into(), None).unwrap_err();
    assert!(matches!(err, ConnectionError::Domain(_)));
}

#[test]
fn rename_and_delete_missing_group_report_not_found() {
    let mut svc = service();
    let ghost = GroupId::new("ghost".to_string()).unwrap();
    assert!(matches!(svc.rename_group(&ghost, "x".into()), Err(ConnectionError::NotFound(_))));
    assert!(matches!(
        svc.delete_group(&ghost, DeleteGroupMode::PromoteChildren),
        Err(ConnectionError::NotFound(_))
    ));
}

#[test]
fn delete_connection_removes_it() {
    let mut svc = service();
    let c = svc.create_connection(draft("web-01")).unwrap();
    svc.delete_connection(&c.id).unwrap();
    assert_eq!(svc.connection(&c.id).unwrap(), None);
}

#[test]
fn moving_group_into_itself_is_refused() {
    let mut svc = service();
    let g = svc.create_group("生产".into(), None).unwrap();
    let err = svc
        .move_group(&g.id, Some(GroupId::new(g.id.as_str().to_string()).unwrap()), None)
        .unwrap_err();
    assert_eq!(err, ConnectionError::NestingTooDeep);
}
