use shelx::application::sessions::server_info::parse;
use shelx::application::sessions::ServerInfo;
use shelx::application::sftp::{join_child, join_sibling};
use shelx::codec::{encode_gbk, encode_utf8};

#[test]
fn parses_linux_output() {
    let info = parse("Linux 5.15.0-91-generic x86_64\nweb-01\n");
    assert_eq!(info.os.as_deref(), Some("Linux"));
    assert_eq!(info.kernel.as_deref(), Some("5.15.0-91-generic"));
    assert_eq!(info.arch.as_deref(), Some("x86_64"));
    assert_eq!(info.hostname.as_deref(), Some("web-01"));
}

#[test]
fn tolerates_partial_output() {
    let info = parse("Linux 5.15\n");
    assert_eq!(info.os.as_deref(), Some("Linux"));
    assert_eq!(info.arch, None);
    assert_eq!(info.hostname, None);

    let empty = parse("");
    assert_eq!(empty, ServerInfo::default());
}

#[test]
fn parse_skips_blank_lines_and_trims() {
    let info = parse("\n  Darwin 23.1.0 arm64  \n\n  mac-01 \n");
    assert_eq!(info.os.as_deref(), Some("Darwin"));
    assert_eq!(info.hostname.as_deref(), Some("mac-01"));
}

#[test]
fn join_child_variants() {
    assert_eq!(join_child("/srv", "app"), "/srv/app");
    assert_eq!(join_child("/", "srv"), "/srv");
}

#[test]
fn join_sibling_variants() {
    assert_eq!(join_sibling("/home/root/deploy.sh", "app.sh"), "/home/root/app.sh");
    assert_eq!(join_sibling("/dist/", "new"), "/new");
    assert_eq!(join_sibling("/logs", "archive"), "/archive");
    assert_eq!(join_sibling("relative.txt", "renamed.txt"), "renamed.txt");
}

#[test]
fn gbk_round_trip() {
    let text = "部署脚本 deploy.sh 中文输出";
    let encoded = encode_gbk(text);
    let (decoded, _, _) = encoding_rs::GBK.decode(&encoded);
    assert_eq!(decoded, text);
}

#[test]
fn ascii_matches_utf8() {
    assert_eq!(encode_gbk("ls -la\r"), encode_utf8("ls -la\r"));
}

#[test]
fn gbk_differs_from_utf8_for_chinese() {
    let gbk = encode_gbk("中");
    assert_eq!(gbk, vec![0xD6, 0xD0]);
    assert_eq!(encode_utf8("中"), "中".as_bytes().to_vec());
}
