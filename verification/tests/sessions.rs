use shelx::application::connections::{ConnectionDraft, CredentialInput};
use shelx::application::ports::{SecretSaveMode, TransportError};
use shelx::application::sessions::book::{
    build_params, params_for_conn, quick_draft, quick_params, SessionBook,
};
use shelx::application::sessions::{AuthPlan, QuickConnectSpec, ServerInfo, SessionError};
use shelx::application::test_support::{connection_service, draft};
use shelx::domain::connection::{AuthMethod, ConnId, Encoding};
use shelx::domain::session::SessionStatus;

fn spec(save: bool, auth: AuthMethod, password: Option<&str>) -> QuickConnectSpec {
    QuickConnectSpec {
        name: None,
        host: "10.0.0.1".into(),
        port: 22,
        username: "root".into(),
        auth,
        password: password.map(Into::into),
        passphrase: None,
        private_key_path: None,
        save,
    }
}

fn params() -> shelx::application::sessions::SshConnectParams {
    build_params("10.0.0.1", 22, "root", AuthMethod::Agent, None, None, None).unwrap()
}

#[test]
fn password_login_needs_a_password() {
    assert!(matches!(
        build_params("h", 22, "u", AuthMethod::Password, None, None, None),
        Err(SessionError::CredentialsRequired)
    ));
    let p = build_params("h", 2222, "u", AuthMethod::Password, Some("pw".into()), None, None).unwrap();
    assert_eq!((p.host.as_str(), p.port, p.username.as_str()), ("h", 2222, "u"));
    assert!(matches!(p.auth, AuthPlan::Password { ref password } if password == "pw"));
    let k = build_params("h", 22, "u", AuthMethod::PrivateKey, None, Some("pp".into()), Some("/k".into())).unwrap();
    assert!(matches!(k.auth, AuthPlan::PrivateKey { ref path, ref passphrase }
        if path.as_deref() == Some("/k") && passphrase.as_deref() == Some("pp")));
}

#[test]
fn quick_connect_rules() {
    assert!(matches!(quick_params(spec(false, AuthMethod::Password, None)), Err(SessionError::CredentialsRequired)));
    assert!(matches!(quick_params(spec(false, AuthMethod::KeyboardInteractive, None)).unwrap().auth, AuthPlan::KeyboardInteractive));
    let d: ConnectionDraft = quick_draft(spec(true, AuthMethod::Password, Some("pw")));
    assert_eq!(d.name, "10.0.0.1");
    assert_eq!(d.encoding, Encoding::Utf8);
    let CredentialInput { value, save } = d.password.unwrap();
    assert_eq!(value, "pw");
    assert_eq!(save, SecretSaveMode::Keyring);
}

#[test]
fn stored_connection_params_resolve_secret() {
    let mut svc = connection_service();
    let c = svc
        .create_connection(ConnectionDraft {
            password: Some(CredentialInput { value: "s3cret".into(), save: SecretSaveMode::Keyring }),
            ..draft("web-01")
        })
        .unwrap();
    let p = params_for_conn(&svc, &c.id).unwrap();
    assert!(matches!(p.auth, AuthPlan::Password { ref password } if password == "s3cret"));
    let bare = svc.create_connection(draft("web-02")).unwrap();
    assert!(matches!(params_for_conn(&svc, &bare.id), Err(SessionError::CredentialsRequired)));
    let ghost = ConnId::new("ghost".to_string()).unwrap();
    assert!(matches!(params_for_conn(&svc, &ghost), Err(SessionError::ConnectionNotFound)));
}

#[test]
fn session_lifecycle() {
    let mut book = SessionBook::new();
    let id = book.open(None, true, params());
    assert_eq!(book.info_of(&id).unwrap().status, SessionStatus::Connecting);
    assert!(book.params_of(&id).is_ok());
    let info = book.mark_online(&id).unwrap();
    assert_eq!(info.status, SessionStatus::Online);
    assert!(book.is_connected(&id));
    assert!(matches!(
        book.begin_reconnect(&id),
        Err(SessionError::Connect(TransportError::Network(ref m))) if m == "当前状态不可重连"
    ));
    assert_eq!(book.close(&id), Ok(true));
    assert_eq!(book.info_of(&id).unwrap().status, SessionStatus::Disconnected);
    assert_eq!(book.begin_reconnect(&id), Ok(()));
    assert_eq!(book.close(&id), Ok(false));
    assert!(!book.mark_down(&id));
}

#[test]
fn watcher_and_unknown_sessions() {
    let mut book = SessionBook::new();
    let id = book.open(Some(ConnId::new("c-1".to_string()).unwrap()), false, params());
    assert_eq!(book.conn_id_of(&id).as_deref(), Some("c-1"));
    book.mark_online(&id).unwrap();
    assert!(book.mark_down(&id));
    assert!(!book.is_connected(&id));
    book.set_server_info(&id, ServerInfo { hostname: Some("web-01".into()), ..ServerInfo::default() });
    assert_eq!(book.list()[0].server_info.as_ref().unwrap().hostname.as_deref(), Some("web-01"));
    assert!(matches!(book.params_of("ghost"), Err(SessionError::SessionNotFound)));
    assert!(matches!(book.mark_online("ghost"), Err(SessionError::SessionNotFound)));
    assert_eq!(book.close("ghost"), Err(SessionError::SessionNotFound));
    book.mark_failed(&id);
    assert_eq!(book.info_of(&id).unwrap().status, SessionStatus::Disconnected);
}

#[test]
fn status_events_name_the_state_and_record() {
    let mut book = SessionBook::new();
    let id = book.open(Some(ConnId::new("c-9".to_string()).unwrap()), false, params());
    let e = book.status_event(&id, SessionStatus::Disconnected, Some("已关闭".to_string()));
    assert_eq!(e.session_id, id);
    assert_eq!(e.conn_id.as_deref(), Some("c-9"));
    assert_eq!(e.status, "disconnected");
    assert_eq!(e.reason.as_deref(), Some("已关闭"));
}

#[test]
fn only_a_connected_open_link_is_usable() {
    let mut book = SessionBook::new();
    assert!(matches!(book.usable("ghost", false), Err(SessionError::SessionNotFound)));
    let id = book.open(None, true, params());
    assert!(matches!(book.usable(&id, false), Err(SessionError::SessionClosed)));
    book.mark_online(&id).unwrap();
    assert!(book.usable(&id, false).is_ok());
    assert!(matches!(book.usable(&id, true), Err(SessionError::SessionClosed)));
    book.mark_down(&id);
    assert!(matches!(book.usable(&id, false), Err(SessionError::SessionClosed)));
}
