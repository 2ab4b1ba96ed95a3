use cuckoo::sync::{
    check_update_url, is_placeholder_endpoint, local_server_url, orders_sync_url, protocol_version, require_sync_secret,
    telemetry_endpoint, ticket_action_url, tickets_sync_url, validate_ticket_action,
};

const PLACEHOLDER: &str = "https://your-cloud-server.com/api/telemetry/heartbeat";

#[test]
fn sync_secret_must_not_be_blank() {
    assert_eq!(require_sync_secret("  s3cret "), Ok("s3cret".to_string()));
    assert_eq!(require_sync_secret("   "), Err("同步密钥不能为空".to_string()));
}

#[test]
fn ticket_actions() {
    assert_eq!(validate_ticket_action(" start "), Ok("start".to_string()));
    assert_eq!(validate_ticket_action("finish"), Ok("finish".to_string()));
    assert_eq!(validate_ticket_action("cancel"), Err("不支持的工单动作".to_string()));
}

#[test]
fn sync_urls_drop_trailing_slashes() {
    assert_eq!(orders_sync_url("http://10.0.0.2:9000//", 1700000000), "http://10.0.0.2:9000/api/orders?since=1700000000");
    assert_eq!(orders_sync_url("http://h", -5), "http://h/api/orders?since=-5");
    assert_eq!(tickets_sync_url("http://h/"), "http://h/api/tickets");
    assert_eq!(ticket_action_url("http://h", 42, "start"), "http://h/api/tickets/42/start");
}

#[test]
fn protocol_and_local_urls() {
    assert_eq!(protocol_version(Some("3".to_string())), "3");
    assert_eq!(protocol_version(None), "2");
    assert_eq!(local_server_url(Some("192.168.1.5"), 9001), "http://192.168.1.5:9001");
    assert_eq!(local_server_url(None, 80), "http://127.0.0.1:80");
}

#[test]
fn telemetry_endpoint_allow_list() {
    let allow = "https://a.example/h, https://b.example/h";
    assert_eq!(
        telemetry_endpoint(Some("https://b.example/h"), Some("https://cfg.example/h"), Some(allow)),
        "https://b.example/h"
    );
    assert_eq!(
        telemetry_endpoint(Some("https://evil.example/h"), Some("https://cfg.example/h"), Some(allow)),
        "https://cfg.example/h"
    );
    assert_eq!(telemetry_endpoint(Some("http://a.example/h"), None, Some("http://a.example/h")), PLACEHOLDER);
    assert_eq!(telemetry_endpoint(None, Some("http://insecure"), None), PLACEHOLDER);
    assert_eq!(telemetry_endpoint(Some("https://cfg.example/h"), Some("https://cfg.example/h"), None), "https://cfg.example/h");
    assert!(is_placeholder_endpoint(PLACEHOLDER));
    assert!(!is_placeholder_endpoint("https://cfg.example/h"));
}

#[test]
fn update_downloads_only_from_releases() {
    assert_eq!(check_update_url("https://github.com/0xRyanlee/hyphen-cuckoo/releases/download/v1/app.dmg"), Ok(()));
    assert_eq!(check_update_url("https://example.com/app.dmg"), Err("更新下载地址无效".to_string()));
}
