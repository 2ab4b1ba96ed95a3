use cuckoo::model::PrinterConfig;
use cuckoo::printroute::{choose_printer, find_printer, resolve_print_route, resolve_status_route, update_printer, PrintRoute, PrinterUpdate};

fn printer(id: i64, kind: &str, default: bool) -> PrinterConfig {
    PrinterConfig {
        id,
        name: format!("P{}", id),
        printer_type: "receipt".to_string(),
        connection_type: kind.to_string(),
        feie_user: Some("u".to_string()),
        feie_ukey: Some("k".to_string()),
        feie_sn: None,
        feie_key: None,
        lan_ip: Some("10.0.0.5".to_string()),
        lan_port: 9100,
        paper_width: "80mm".to_string(),
        is_default: default,
        is_active: true,
        created_at: String::new(),
        updated_at: String::new(),
    }
}

fn no_change() -> PrinterUpdate {
    PrinterUpdate {
        name: None,
        printer_type: None,
        connection_type: None,
        feie_user: None,
        feie_ukey: None,
        feie_sn: None,
        feie_key: None,
        lan_ip: None,
        lan_port: None,
        paper_width: None,
        is_default: None,
    }
}

#[test]
fn routes() {
    match resolve_print_route(&printer(1, "lan", false)) {
        Ok(PrintRoute::Lan { ip, port }) => {
            assert_eq!(ip, "10.0.0.5");
            assert_eq!(port, 9100);
        }
        _ => panic!("expected a LAN route"),
    }
    assert!(matches!(resolve_print_route(&printer(1, "feie", false)), Err(e) if e == "飛鵝 SN 未配置"));
    assert!(matches!(resolve_print_route(&printer(1, "usb", false)), Err(e) if e == "不支持的連接類型: usb"));
    assert!(matches!(resolve_status_route(&printer(1, "usb", false)), Err(e) if e == "不支持的連接類型"));
}

#[test]
fn choosing_printers() {
    let ps = vec![printer(1, "lan", true), printer(2, "lan", false)];
    assert_eq!(find_printer(&ps, 2).map(|p| p.id), Ok(2));
    assert_eq!(find_printer(&ps, 9).map(|p| p.id), Err("打印機 #9 不存在".to_string()));
    assert_eq!(choose_printer(&ps, Some(&ps[0]), None).map(|p| p.id), Ok(1));
    assert_eq!(choose_printer(&ps, None, None).map(|p| p.id), Err("未配置默認打印機".to_string()));
}

#[test]
fn making_a_printer_default_clears_the_others() {
    let ps = vec![printer(1, "lan", true), printer(2, "lan", false), printer(3, "feie", false)];
    let mut upd = no_change();
    upd.is_default = Some(true);
    upd.name = Some("廚房".to_string());
    upd.feie_sn = Some("SN1".to_string());
    let after = update_printer(&ps, 3, &upd);
    assert_eq!(after.iter().map(|p| p.is_default).collect::<Vec<_>>(), vec![false, false, true]);
    assert_eq!(after[2].name, "廚房");
    assert_eq!(after[2].feie_sn.as_deref(), Some("SN1"));
    assert_eq!(after[0].name, "P1");
    let unchanged = update_printer(&ps, 2, &no_change());
    assert_eq!(unchanged.iter().map(|p| p.is_default).collect::<Vec<_>>(), vec![true, false, false]);
}
