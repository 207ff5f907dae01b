use npcnix::error::SyncError;
use npcnix::flake::{activate, activation_outcome, pack, push, verify_flake_src};
use npcnix::remote::{
    get_etag, get_etag_command, pull, transfer_outcome, upload_command, Backend, RemoteUrl,
};

fn url(s: &str) -> RemoteUrl {
    RemoteUrl::parse(s).unwrap()
}

#[test]
fn parse_splits_the_address() {
    let u = url("s3://bucket/dir/cfg.tar.zst");
    assert_eq!(u.scheme, "s3");
    assert_eq!(u.host.as_deref(), Some("bucket"));
    assert_eq!(u.path, "/dir/cfg.tar.zst");
    assert_eq!(u.as_str(), "s3://bucket/dir/cfg.tar.zst");
}

#[test]
fn parse_rejects_non_urls() {
    assert_eq!(RemoteUrl::parse("bucket/cfg").unwrap_err(), SyncError::InvalidRemote);
}

#[test]
fn scheme_selects_backend() {
    assert_eq!(Backend::for_remote(&url("s3://b/k")), Ok(Backend::S3));
    assert_eq!(Backend::for_remote(&url("obj://bucket/cfg.tar.zst")), Err(SyncError::UnsupportedScheme));
}

#[test]
fn etag_command_names_bucket_and_key() {
    let c = get_etag_command(&url("s3://bucket/cfg.tar.zst")).unwrap();
    assert_eq!(c.program, "aws");
    assert_eq!(
        c.args,
        vec![
            "s3api",
            "get-object-attributes",
            "--bucket",
            "bucket",
            "--key",
            "/cfg.tar.zst",
            "--object-attributes",
            "ETag"
        ]
    );
}

#[test]
fn etag_command_errors() {
    assert_eq!(get_etag_command(&url("obj://b/k")).unwrap_err(), SyncError::UnsupportedScheme);
    assert_eq!(get_etag_command(&url("s3:/no-host")).unwrap_err(), SyncError::InvalidRemote);
}

#[test]
fn pull_and_upload_stream_through_stdio() {
    let p = pull(&url("s3://b/k")).unwrap();
    assert_eq!(p.args, vec!["s3", "cp", "s3://b/k", "-"]);
    let u = upload_command(&url("s3://b/k")).unwrap();
    assert_eq!(u.args, vec!["s3", "cp", "-", "s3://b/k"]);
    assert_eq!(pull(&url("gs://b/k")).unwrap_err(), SyncError::UnsupportedScheme);
}

#[test]
fn etag_is_read_from_the_reply() {
    let reply = br#"{"ETag": "\"0123abcd\"", "LastModified": "2024-01-01T00:00:00Z"}"#;
    assert_eq!(get_etag(true, reply).unwrap(), "\"0123abcd\"");
}

#[test]
fn etag_reply_errors_are_transport_errors() {
    assert_eq!(get_etag(false, br#"{"ETag": "x"}"#), Err(SyncError::Transport));
    assert_eq!(get_etag(true, b"not json"), Err(SyncError::Transport));
    assert_eq!(get_etag(true, br#"{"Size": 3}"#), Err(SyncError::Transport));
    assert_eq!(get_etag(true, br#"{"ETag": 3}"#), Err(SyncError::Transport));
}

#[test]
fn push_without_manifest_is_validation_error() {
    assert_eq!(
        push("/srv/cfg", false, &url("s3://b/k")).unwrap_err(),
        SyncError::Validation("/srv/cfg".to_string())
    );
    assert_eq!(
        push("/srv/cfg", false, &url("obj://b/k")).unwrap_err(),
        SyncError::Validation("/srv/cfg".to_string())
    );
}

#[test]
fn push_with_manifest_uploads() {
    let c = push("/srv/cfg", true, &url("s3://b/k")).unwrap();
    assert_eq!(c.program, "aws");
    assert_eq!(c.args, vec!["s3", "cp", "-", "s3://b/k"]);
    assert_eq!(push("/srv/cfg", true, &url("obj://b/k")).unwrap_err(), SyncError::UnsupportedScheme);
}

#[test]
fn manifest_check() {
    assert_eq!(verify_flake_src("src", true), Ok(()));
    assert_eq!(verify_flake_src("src", false), Err(SyncError::Validation("src".to_string())));
    assert_eq!(pack("a/b", false), Err(SyncError::Validation("a/b".to_string())));
    assert_eq!(pack("a/b", true), Ok(()));
}

#[test]
fn activation_command_selects_configuration() {
    let c = activate("/tmp/x", true, "#nodeA").unwrap();
    assert_eq!(c.program, "nixos-rebuild");
    assert_eq!(c.args, vec!["switch", "--flake", ".#nodeA"]);
    assert_eq!(
        activate("/tmp/x", false, "#nodeA").unwrap_err(),
        SyncError::Validation("/tmp/x".to_string())
    );
}

#[test]
fn failed_activation_is_activation_error() {
    assert_eq!(activation_outcome(true), Ok(()));
    assert_eq!(activation_outcome(false), Err(SyncError::Activation));
}

#[test]
fn transfer_needs_full_stream_and_clean_exit() {
    assert_eq!(transfer_outcome(true, true), Ok(()));
    assert_eq!(transfer_outcome(false, true), Err(SyncError::Transport));
    assert_eq!(transfer_outcome(true, false), Err(SyncError::Transport));
    assert_eq!(transfer_outcome(false, false), Err(SyncError::Transport));
}
