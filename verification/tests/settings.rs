use cuckoo::model::Tag;
use cuckoo::requests::group_tags;
use cuckoo::requests::{combo_pairs, ComboComponentInput, CreateCategoryRequest, CreatePrinterRequest, RecipeDependents, WebServerStatus};
use cuckoo::settings::{auto_print_config_path, backup_file_name, payment_config_path, pending_restore_path, pre_restore_file_name, AutoPrintSettings};

#[test]
fn config_files_sit_beside_the_database() {
    assert_eq!(payment_config_path("/data/app/cuckoo.db"), "/data/app/payment-config.json");
    assert_eq!(auto_print_config_path("/data/app/cuckoo.db"), "/data/app/auto-print-config.json");
    assert_eq!(pending_restore_path("/data/app/cuckoo.db"), "/data/app/pending_restore.db");
}

#[test]
fn auto_print_defaults_off() {
    let d = AutoPrintSettings::default();
    assert!(!d.kitchen && !d.po && !d.receipt);
    let s = AutoPrintSettings::from_flags(Some(true), None, Some(false));
    assert!(s.kitchen && !s.po && !s.receipt);
}

#[test]
fn backup_names() {
    assert_eq!(backup_file_name("20260101_120000"), "cuckoo_20260101_120000.db");
    assert_eq!(pre_restore_file_name("20260101_120000"), "cuckoo_pre_restore_20260101_120000.db");
}

#[test]
fn request_defaults() {
    let req = CreatePrinterRequest {
        name: "前台".to_string(),
        printer_type: "receipt".to_string(),
        connection_type: "lan".to_string(),
        feie_user: None,
        feie_ukey: None,
        feie_sn: None,
        feie_key: None,
        lan_ip: Some("10.0.0.9".to_string()),
        lan_port: None,
        paper_width: None,
        is_default: None,
    };
    assert_eq!(req.stored_settings(), (9100, "80mm".to_string(), false));
    let cat = CreateCategoryRequest { code: "M".to_string(), name: "肉".to_string(), sort_no: None };
    assert_eq!(cat.sort_position(), 0);
}

#[test]
fn dependents_and_combos() {
    let d = RecipeDependents::from_pairs(vec![(1, "套餐A".to_string())], vec![(7, "底料".to_string()), (8, "湯頭".to_string())]);
    assert_eq!(d.menu_items.len(), 1);
    assert_eq!(d.menu_items[0].name, "套餐A");
    assert_eq!(d.parent_recipes[1].id, 8);
    let parts = vec![ComboComponentInput { component_item_id: 3, qty: 2 }, ComboComponentInput { component_item_id: 5, qty: 1 }];
    assert_eq!(combo_pairs(&parts), vec![(3, 2), (5, 1)]);
}

#[test]
fn web_server_status() {
    let on = WebServerStatus::of(Some(9001), Some("192.168.0.3"));
    assert!(on.running);
    assert_eq!(on.url.as_deref(), Some("http://192.168.0.3:9001"));
    let off = WebServerStatus::of(None, Some("192.168.0.3"));
    assert!(!off.running && off.port.is_none() && off.url.is_none());
}

#[test]
fn tags_grouped_by_material() {
    let tag = |id: i64, name: &str| Tag { id, code: format!("T{}", id), name: name.to_string(), color: None, is_active: true };
    let rows = vec![(2, tag(1, "冷藏")), (1, tag(2, "乾貨")), (2, tag(3, "進口"))];
    let grouped = group_tags(&[1, 2, 3], &rows);
    assert_eq!(grouped.len(), 3);
    assert_eq!(grouped[0].iter().map(|t| t.id).collect::<Vec<_>>(), vec![2]);
    assert_eq!(grouped[1].iter().map(|t| t.name.as_str()).collect::<Vec<_>>(), vec!["冷藏", "進口"]);
    assert!(grouped[2].is_empty());
}

#[test]
fn settings_paths_relative_and_bare() {
    assert_eq!(payment_config_path("data/cuckoo.db"), "data/payment-config.json");
    assert_eq!(payment_config_path("cuckoo.db"), "payment-config.json");
    assert_eq!(auto_print_config_path(""), "auto-print-config.json");
    assert_eq!(pending_restore_path("../shop/cuckoo.db"), "../shop/pending_restore.db");
}
