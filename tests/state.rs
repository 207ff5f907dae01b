use npcnix::config::{
    default_max_sleep_after_hours, default_max_sleep_secs, default_min_sleep_secs, Config,
    StoredConfig,
};
use npcnix::error::SyncError;
use npcnix::opts::{ActivateOpts, PullOpts, SetOpts};
use npcnix::remote::RemoteUrl;

fn record(remote: Option<&str>, min: Option<u64>, max: Option<u64>) -> StoredConfig {
    StoredConfig {
        remote: remote.map(|s| s.to_string()),
        configuration: Some("nodeA".to_string()),
        last_reconfiguration: 1_700_000_000,
        last_etag: "v1".to_string(),
        min_sleep_secs: min,
        max_sleep_secs: max,
        max_sleep_after_hours: Some(24),
    }
}

#[test]
fn defaults_are_fifteen_one_twenty_and_a_day() {
    assert_eq!(default_min_sleep_secs(), 15);
    assert_eq!(default_max_sleep_secs(), 120);
    assert_eq!(default_max_sleep_after_hours(), 24);
}

#[test]
fn load_without_record_gives_fresh_defaults() {
    let c = Config::load(None, 1234).unwrap();
    assert_eq!(c.last_etag(), "");
    assert!(c.remote.is_none());
    assert!(c.configuration.is_none());
    assert_eq!(c.last_reconfiguration, 1234);
    assert_eq!(c.min_sleep_secs, 15);
    assert_eq!(c.max_sleep_secs, 120);
    assert_eq!(c.max_sleep_after_hours, 24);
}

#[test]
fn default_state_is_never_synced() {
    let c = Config::default();
    assert_eq!(c.last_etag(), "");
    assert_eq!(c.remote().unwrap_err(), SyncError::MissingRemote);
    assert_eq!(c.configuration(), Err(SyncError::MissingConfiguration));
}

#[test]
fn store_then_load_keeps_every_field() {
    let c = Config::load(Some(record(Some("s3://bucket/cfg.tar.zst"), Some(5), Some(50))), 0)
        .unwrap();
    let back = Config::load(Some(c.store()), 99).unwrap();
    assert_eq!(back.remote.as_ref().unwrap().source, "s3://bucket/cfg.tar.zst");
    assert_eq!(back.remote.as_ref().unwrap().scheme, "s3");
    assert_eq!(back.configuration.as_deref(), Some("nodeA"));
    assert_eq!(back.last_reconfiguration, 1_700_000_000);
    assert_eq!(back.last_etag, "v1");
    assert_eq!(back.min_sleep_secs, 5);
    assert_eq!(back.max_sleep_secs, 50);
    assert_eq!(back.max_sleep_after_hours, 24);
}

#[test]
fn stored_record_holds_every_tuning_field() {
    let c = Config::new_at(7);
    let r = c.store();
    assert_eq!(r.min_sleep_secs, Some(15));
    assert_eq!(r.max_sleep_secs, Some(120));
    assert_eq!(r.max_sleep_after_hours, Some(24));
    assert_eq!(r.last_reconfiguration, 7);
    assert!(r.remote.is_none());
}

#[test]
fn missing_tuning_fields_take_defaults() {
    let c = Config::from_stored(record(None, None, None)).unwrap();
    assert_eq!(c.min_sleep_secs, 15);
    assert_eq!(c.max_sleep_secs, 120);
}

#[test]
fn unparsable_remote_is_invalid_state() {
    let r = Config::from_stored(record(Some("not a url"), None, None));
    assert_eq!(r.unwrap_err(), SyncError::InvalidState);
}

#[test]
fn inverted_sleep_bounds_are_invalid_state() {
    let r = Config::load(Some(record(None, Some(200), Some(100))), 0);
    assert_eq!(r.unwrap_err(), SyncError::InvalidState);
}

#[test]
fn setters_change_one_field() {
    let url = RemoteUrl::parse("s3://b/k").unwrap();
    let c = Config::new_at(5).with_configuration("a").with_remote(&url);
    assert_eq!(c.configuration(), Ok("a"));
    assert_eq!(c.remote().unwrap().source, "s3://b/k");
    assert_eq!(c.last_reconfiguration, 5);
    let c = c.with_configuration_maybe_init("b", true);
    assert_eq!(c.configuration(), Ok("a"));
    let c = c.with_configuration_maybe_init("b", false);
    assert_eq!(c.configuration(), Ok("b"));
    let other = RemoteUrl::parse("s3://other/k").unwrap();
    let c = c.with_remote_maybe_init(&other, true);
    assert_eq!(c.remote().unwrap().source, "s3://b/k");
    let c = c.with_remote_maybe_init(&other, false);
    assert_eq!(c.remote().unwrap().source, "s3://other/k");
}

#[test]
fn maybe_init_fills_an_empty_field() {
    let url = RemoteUrl::parse("s3://b/k").unwrap();
    let c = Config::new_at(0).with_configuration_maybe_init("x", true).with_remote_maybe_init(&url, true);
    assert_eq!(c.configuration(), Ok("x"));
    assert_eq!(c.remote().unwrap().host.as_deref(), Some("b"));
}

#[test]
fn reconfiguration_records_tag_and_time() {
    let c = Config::new_at(0).with_reconfiguration_at("v9", 4242);
    assert_eq!(c.last_etag(), "v9");
    assert_eq!(c.last_reconfiguration, 4242);
    let c = c.with_updated_last_reconfiguration("v10");
    assert_eq!(c.last_etag(), "v10");
    assert!(c.last_reconfiguration > 4242);
}

#[test]
fn set_options_apply() {
    let url = RemoteUrl::parse("s3://bucket/x").unwrap();
    let c = SetOpts::Remote { url }.apply(Config::new_at(1));
    assert_eq!(c.remote().unwrap().path, "/x");
    let c = SetOpts::Configuration { configuration: "nodeB".to_string() }.apply(c);
    assert_eq!(c.configuration(), Ok("nodeB"));
    assert_eq!(c.remote().unwrap().path, "/x");
}

#[test]
fn overrides_win_over_persisted_values() {
    let stored = Config::new_at(0)
        .with_configuration("stored")
        .with_remote(&RemoteUrl::parse("s3://stored/k").unwrap());
    let a = ActivateOpts { src: ".".to_string(), configuration: Some("given".to_string()) };
    assert_eq!(a.resolve_configuration(&stored).unwrap(), "given");
    let a = ActivateOpts { src: ".".to_string(), configuration: None };
    assert_eq!(a.resolve_configuration(&stored).unwrap(), "stored");
    assert_eq!(a.resolve_configuration(&Config::new_at(0)), Err(SyncError::MissingConfiguration));
    let p = PullOpts { remote: Some(RemoteUrl::parse("s3://given/k").unwrap()), dst: "d".to_string() };
    assert_eq!(p.resolve_remote(&stored).unwrap().source, "s3://given/k");
    let p = PullOpts { remote: None, dst: "d".to_string() };
    assert_eq!(p.resolve_remote(&stored).unwrap().source, "s3://stored/k");
    assert_eq!(p.resolve_remote(&Config::new_at(0)).unwrap_err(), SyncError::MissingRemote);
}

#[test]
fn error_classes() {
    assert!(SyncError::MissingRemote.is_configuration());
    assert!(SyncError::InvalidState.is_configuration());
    assert!(!SyncError::Transport.is_configuration());
    assert!(SyncError::Transport.is_recoverable());
    assert!(SyncError::Activation.is_recoverable());
    assert!(!SyncError::UnsupportedScheme.is_recoverable());
    assert!(!SyncError::Validation("d".to_string()).is_recoverable());
    assert!(!SyncError::Validation("d".to_string()).is_configuration());
}
