use shelx::domain::connection::{AuthMethod, ConnConfig, ConnId, Encoding, GroupId};
use shelx::domain::error::DomainError;
use shelx::domain::group::Group;
use shelx::domain::hostkey::{verify, HostKeyRecord, HostKeyVerdict};
use shelx::domain::session::SessionStatus;
use shelx::domain::transfer::TransferStatus;

fn try_sample(id: &str, name: &str, host: &str, port: u16, user: &str) -> Result<ConnConfig, DomainError> {
    ConnConfig::new(
        ConnId::new(id.to_string()).unwrap(),
        None,
        name.into(),
        host.into(),
        port,
        user.into(),
        AuthMethod::Password,
    )
}

#[test]
fn conn_id_rejects_blank() {
    assert_eq!(ConnId::new("   ".to_string()), Err(DomainError::EmptyIdentity));
    assert_eq!(ConnId::new("".to_string()), Err(DomainError::EmptyIdentity));
    assert!(ConnId::new("conn-1".to_string()).is_ok());
}

#[test]
fn group_id_rejects_blank() {
    assert_eq!(GroupId::new("".to_string()), Err(DomainError::EmptyIdentity));
    assert!(GroupId::new("group-1".to_string()).is_ok());
}

#[test]
fn rejects_blank_name_host_or_username() {
    assert_eq!(try_sample("c1", "  ", "10.0.0.1", 22, "root").unwrap_err(), DomainError::EmptyIdentity);
    assert_eq!(try_sample("c2", "db", " ", 22, "root").unwrap_err(), DomainError::EmptyHost);
    assert_eq!(try_sample("c3", "db", "10.0.0.1", 22, " ").unwrap_err(), DomainError::EmptyUsername);
}

#[test]
fn rejects_zero_port() {
    assert_eq!(try_sample("c4", "db", "10.0.0.1", 0, "root").unwrap_err(), DomainError::InvalidPort(0));
}

#[test]
fn accepts_minimal_config_with_defaults() {
    let config = try_sample("c5", "生产库", "10.0.0.1", 22, "root").unwrap();
    assert_eq!(config.encoding, Encoding::Utf8);
    assert_eq!(config.private_key_path, None);
    assert!(matches!(config.auth, AuthMethod::Password));
}

#[test]
fn rejects_blank_name() {
    assert_eq!(
        Group::new(GroupId::new("g1".to_string()).unwrap(), None, "  ".into(), 0),
        Err(DomainError::EmptyIdentity)
    );
}

#[test]
fn rename_updates_name() {
    let mut group = Group::new(GroupId::new("g1".to_string()).unwrap(), None, "生产".into(), 0).unwrap();
    group.rename("测试".into()).unwrap();
    assert_eq!(group.name, "测试");
    assert!(group.rename(" ".into()).is_err());
}

fn record(fingerprint: &str) -> HostKeyRecord {
    HostKeyRecord {
        algorithm: "ssh-ed25519".into(),
        fingerprint: fingerprint.into(),
        confirmed_at: 1_700_000_000_000,
    }
}

#[test]
fn no_record_means_unknown() {
    assert_eq!(verify(None, "SHA256:abc"), HostKeyVerdict::Unknown);
}

#[test]
fn matching_fingerprint_is_trusted() {
    assert_eq!(verify(Some(record("SHA256:abc")), "SHA256:abc"), HostKeyVerdict::Trusted);
    let mut algo_changed = record("SHA256:abc");
    algo_changed.algorithm = "ecdsa-sha2-nistp256".into();
    assert_eq!(verify(Some(algo_changed), "SHA256:abc"), HostKeyVerdict::Trusted);
}

#[test]
fn changed_fingerprint_is_mismatch_with_details() {
    assert_eq!(
        verify(Some(record("SHA256:old")), "SHA256:new"),
        HostKeyVerdict::Mismatch {
            recorded_algorithm: "ssh-ed25519".into(),
            recorded_fingerprint: "SHA256:old".into(),
        }
    );
}

#[test]
fn follows_documented_transitions() {
    for (from, to) in [(SessionStatus::Connecting, SessionStatus::Online), (SessionStatus::Connecting, SessionStatus::Disconnected), (SessionStatus::Online, SessionStatus::Disconnected), (SessionStatus::Disconnected, SessionStatus::Connecting)] {
        assert!(from.can_transition_to(to), "{from:?} -> {to:?} 应为合法流转");
    }
}

#[test]
fn rejects_illegal_transitions() {
    for (from, to) in [
        (SessionStatus::Connecting, SessionStatus::Connecting),
        (SessionStatus::Online, SessionStatus::Connecting),
        (SessionStatus::Online, SessionStatus::Online),
        (SessionStatus::Disconnected, SessionStatus::Online),
        (SessionStatus::Disconnected, SessionStatus::Disconnected),
    ] {
        assert!(!from.can_transition_to(to), "{from:?} -> {to:?} 应为非法流转");
        assert!(from.transition_to(to).is_err());
    }
}

#[test]
fn error_carries_state_names() {
    let err = SessionStatus::Online.transition_to(SessionStatus::Connecting).unwrap_err();
    assert_eq!(err, DomainError::InvalidStatusTransition { from: "online", to: "connecting" });
}

#[test]
fn happy_path_queued_to_completed() {
    let status = TransferStatus::Queued
        .transition_to(TransferStatus::Transferring)
        .unwrap()
        .transition_to(TransferStatus::Completed)
        .unwrap();
    assert!(status.is_terminal());
}

#[test]
fn failed_task_can_requeue() {
    let status = TransferStatus::Queued
        .transition_to(TransferStatus::Transferring)
        .unwrap()
        .transition_to(TransferStatus::Failed)
        .unwrap()
        .transition_to(TransferStatus::Queued)
        .unwrap();
    assert_eq!(status, TransferStatus::Queued);
}

#[test]
fn queued_task_can_be_cancelled_before_start() {
    assert!(TransferStatus::Queued.transition_to(TransferStatus::Cancelled).is_ok());
}

#[test]
fn terminal_states_reject_any_transition() {
    for terminal in [TransferStatus::Completed, TransferStatus::Cancelled] {
        for next in [
            TransferStatus::Queued,
            TransferStatus::Transferring,
            TransferStatus::Completed,
            TransferStatus::Failed,
            TransferStatus::Cancelled,
        ] {
            assert!(terminal.transition_to(next).is_err(), "{terminal:?} -> {next:?} 终态不允许流转");
        }
    }
}

#[test]
fn rejects_skipping_transferring() {
    assert!(!TransferStatus::Queued.can_transition_to(TransferStatus::Completed));
    assert!(!TransferStatus::Queued.can_transition_to(TransferStatus::Failed));
    assert!(!TransferStatus::Transferring.can_transition_to(TransferStatus::Queued));
}

#[test]
fn preparing_and_conflict_paths() {
    let status = TransferStatus::Queued
        .transition_to(TransferStatus::Preparing)
        .unwrap()
        .transition_to(TransferStatus::AwaitingConflict)
        .unwrap()
        .transition_to(TransferStatus::Transferring)
        .unwrap();
    assert_eq!(status, TransferStatus::Transferring);
    assert!(TransferStatus::Preparing.can_transition_to(TransferStatus::Transferring));
    assert!(TransferStatus::Queued.can_transition_to(TransferStatus::Cancelled));
    assert!(TransferStatus::AwaitingConflict.can_transition_to(TransferStatus::Cancelled));
}

#[test]
fn transfer_states_have_stable_names() {
    assert_eq!(TransferStatus::AwaitingConflict.as_str(), "awaiting_conflict");
    assert_eq!(SessionStatus::Disconnected.as_str(), "disconnected");
}

#[test]
fn domain_error_texts() {
    assert_eq!(DomainError::EmptyHost.message(), "主机地址不能为空");
    assert_eq!(
        DomainError::InvalidStatusTransition { from: "online", to: "connecting" }.message(),
        "非法状态流转: online -> connecting"
    );
}
