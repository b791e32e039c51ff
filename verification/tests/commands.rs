use shelx::application::connections::ConnectionError;
use shelx::application::greet::greet as greet_text;
use shelx::application::migration::MigrationError;
use shelx::application::monitoring::MonitorError;
use shelx::application::ports::{SecretStoreError, StoreError, TransportError};
use shelx::application::sessions::SessionError;
use shelx::application::settings::SettingsError;
use shelx::application::sftp::SftpError;
use shelx::application::terminals::TerminalError;
use shelx::commands::greet::{greet, GreetRequest, MAX_NAME_LEN};
use shelx::application::prompt::PromptError;
use shelx::commands::migration::to_ipc_error;
use shelx::commands::sessions::{auth_reply_result, hostkey_reply_result};
use shelx::commands::{connections, monitor, sessions, settings, sftp, terminals};
use shelx::domain::error::DomainError;
use shelx::ipc::{IpcErrorCode, IpcResult};

#[test]
fn greets_by_name() {
    assert_eq!(greet_text("shelx"), "Hello, shelx! You've been greeted from Rust!");
}

#[test]
fn valid_name_returns_greeting() {
    let response = greet(GreetRequest { name: " shelx ".into() }).into_data().expect("合法输入应成功");
    assert_eq!(response.message, "Hello, shelx! You've been greeted from Rust!");
}

#[test]
fn greet_blank_name_is_rejected() {
    let error = greet(GreetRequest { name: "   ".into() }).into_err().expect("空白输入应失败");
    assert_eq!(error.code, IpcErrorCode::InvalidArgument);
}

#[test]
fn oversized_name_is_rejected() {
    let error = greet(GreetRequest { name: "字".repeat(MAX_NAME_LEN + 1) }).into_err().expect("超长输入应失败");
    assert_eq!(error.code, IpcErrorCode::InvalidArgument);
}

#[test]
fn name_of_exactly_max_length_is_greeted() {
    let name = "字".repeat(MAX_NAME_LEN);
    let r = greet(GreetRequest { name: name.clone() });
    assert!(matches!(r, IpcResult::Success(_)));
}

#[test]
fn blank_and_oversized_messages() {
    let blank = greet(GreetRequest { name: "".into() }).into_err().unwrap();
    assert_eq!(blank.message, "名称不能为空");
    let long = greet(GreetRequest { name: "a".repeat(65) }).into_err().unwrap();
    assert_eq!(long.message, "名称最多 64 个字符");
}

#[test]
fn unknown_and_invalid_map_to_invalid_argument() {
    let unknown = to_ipc_error(MigrationError::Unknown("no-such".into()));
    assert_eq!(unknown.code, IpcErrorCode::InvalidArgument);
    assert!(unknown.message.contains("no-such"));

    let invalid = to_ipc_error(MigrationError::Invalid("当前没有可迁移的旧数据".into()));
    assert_eq!(invalid.code, IpcErrorCode::InvalidArgument);
    assert!(invalid.message.contains("没有可迁移"));
}

#[test]
fn storage_error_maps_to_internal() {
    let err = MigrationError::Settings(SettingsError::Storage(StoreError("磁盘只读".into())));
    let mapped = to_ipc_error(err);
    assert_eq!(mapped.code, IpcErrorCode::Internal);
    assert!(mapped.message.contains("磁盘只读"));
}

#[test]
fn connection_errors_map_by_kind() {
    let e = connections::to_ipc_error(ConnectionError::Domain(DomainError::EmptyHost));
    assert_eq!(e.code, IpcErrorCode::InvalidArgument);
    assert_eq!(e.message, "主机地址不能为空");
    let e = connections::to_ipc_error(ConnectionError::NotFound("分组"));
    assert_eq!(e.code, IpcErrorCode::NotFound);
    assert_eq!(e.message, "分组不存在");
    let e = connections::to_ipc_error(ConnectionError::Secret(SecretStoreError("locked".into())));
    assert_eq!(e.code, IpcErrorCode::KeyringUnavailable);
    assert_eq!(e.message, "凭据存储错误: locked");
    let e = connections::to_ipc_error(ConnectionError::Storage(StoreError("io".into())));
    assert_eq!(e.code, IpcErrorCode::Internal);
    assert_eq!(e.message, "数据库错误: io");
    assert_eq!(connections::to_ipc_error(ConnectionError::GroupNotEmpty).code, IpcErrorCode::InvalidArgument);
    assert_eq!(connections::to_ipc_error(ConnectionError::NestingTooDeep).message, "分组最多嵌套一层");
}

#[test]
fn session_errors_map_by_kind() {
    let e = sessions::to_ipc_error(SessionError::Connect(TransportError::AuthRejected {
        remaining: vec!["publickey".into(), "password".into()],
    }));
    assert_eq!(e.code, IpcErrorCode::AuthFailed);
    assert_eq!(e.message, "认证失败:服务器拒绝用户名或凭据(可尝试:publickey, password)");
    let e = sessions::to_ipc_error(SessionError::Connect(TransportError::HostkeyMismatch {
        recorded: "SHA256:old".into(),
        current: "SHA256:new".into(),
    }));
    assert_eq!(e.code, IpcErrorCode::HostkeyChanged);
    let details = e.details.expect("应带指纹详情");
    assert_eq!(details[0], ("recordedFingerprint".to_string(), "SHA256:old".to_string()));
    assert_eq!(details[1], ("currentFingerprint".to_string(), "SHA256:new".to_string()));
    assert_eq!(sessions::to_ipc_error(SessionError::Connect(TransportError::HostkeyRejected)).code, IpcErrorCode::HostkeyRejected);
    let e = sessions::to_ipc_error(SessionError::Connect(TransportError::Network("timeout".into())));
    assert_eq!(e.code, IpcErrorCode::NetUnreachable);
    assert_eq!(e.message, "连接失败:timeout");
    assert_eq!(sessions::to_ipc_error(SessionError::SessionNotFound).code, IpcErrorCode::NotFound);
    assert_eq!(sessions::to_ipc_error(SessionError::SessionClosed).code, IpcErrorCode::SessionClosed);
    let e = sessions::to_ipc_error(SessionError::CredentialsRequired);
    assert_eq!(e.code, IpcErrorCode::AuthCredentialsRequired);
    assert_eq!(e.message, "缺少认证凭据,请输入密码/口令");
    assert_eq!(sessions::to_ipc_error(SessionError::Connections(ConnectionError::NotFound("连接"))).code, IpcErrorCode::NotFound);
    assert_eq!(sessions::to_ipc_error(SessionError::Connections(ConnectionError::GroupNotEmpty)).code, IpcErrorCode::Internal);
    assert_eq!(sessions::to_ipc_error(SessionError::Storage(StoreError("x".into()))).code, IpcErrorCode::Internal);
    assert!(sessions::to_ipc_error(SessionError::SessionClosed).details.is_none());
}

#[test]
fn terminal_monitor_settings_sftp_errors_map_by_kind() {
    assert_eq!(terminals::to_ipc_error(TerminalError::NotFound).message, "终端不存在或已关闭");
    assert_eq!(
        terminals::to_ipc_error(TerminalError::Transport(TransportError::Network("x".into()))).code,
        IpcErrorCode::NetUnreachable
    );
    assert_eq!(
        terminals::to_ipc_error(TerminalError::Session(SessionError::SessionNotFound)).code,
        IpcErrorCode::NotFound
    );
    assert_eq!(monitor::to_ipc_error(MonitorError::Unsupported).code, IpcErrorCode::MonitorUnsupported);
    assert_eq!(monitor::to_ipc_error(MonitorError::Collect("x".into())).message, "采集失败:x");
    assert_eq!(settings::to_ipc_error(SettingsError::Invalid("bad".into())).code, IpcErrorCode::InvalidArgument);
    assert_eq!(
        sftp::to_ipc_error(SftpError::Transport(TransportError::RemotePermissionDenied("ro".into()))).code,
        IpcErrorCode::PermissionDenied
    );
    assert_eq!(
        sftp::to_ipc_error(SftpError::Transport(TransportError::RemoteFs("gone".into()))).message,
        "远端文件操作失败:gone"
    );
    assert_eq!(
        sftp::to_ipc_error(SftpError::Session(SessionError::SessionClosed)).code,
        IpcErrorCode::SessionClosed
    );
}

#[test]
fn prompt_replies_map_to_codes() {
    assert!(matches!(auth_reply_result(Ok(())), IpcResult::Success(())));
    let e = auth_reply_result(Err(PromptError::UnknownRequest)).into_err().unwrap();
    assert_eq!((e.code, e.message.as_str()), (IpcErrorCode::NotFound, "交互请求不存在或已失效"));
    let e = auth_reply_result(Err(PromptError::Timeout)).into_err().unwrap();
    assert_eq!((e.code, e.message.as_str()), (IpcErrorCode::AuthFailed, "键盘交互已取消或超时"));
    let e = hostkey_reply_result(Err(PromptError::Abandoned)).into_err().unwrap();
    assert_eq!((e.code, e.message.as_str()), (IpcErrorCode::HostkeyRejected, "指纹确认已取消或超时"));
    let e = hostkey_reply_result(Err(PromptError::UnknownRequest)).into_err().unwrap();
    assert_eq!(e.message, "指纹确认请求不存在或已失效");
}
