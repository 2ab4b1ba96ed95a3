use cuckoo::tickets::{feie_test_content, lan_test_page};
use cuckoo::escpos::EscPosBuilder;
use cuckoo::tickets::{build_batch_label_content, build_kitchen_ticket_content, KitchenTicketItem};
use cuckoo::tspl::TsplBuilder;

/// Millimetres as the tenths the label builder takes.
fn mm(v: f64) -> u32 {
    (v * 10.0).round() as u32
}

fn ticket_items(items: &[(String, f64, Option<String>)]) -> Vec<KitchenTicketItem> {
    items
        .iter()
        .map(|(name, qty, note)| KitchenTicketItem { name: name.clone(), qty: format!("{}", qty), note: note.clone() })
        .collect()
}

fn kitchen_ticket_case() {
    let items: Vec<(String, f64, Option<String>)> = vec![
        ("麻辣小龍蝦".to_string(), 2.0, Some("加辣".to_string())),
        ("酸菜魚".to_string(), 1.0, None),
    ];
    let builder = build_kitchen_ticket_content("ORD001", "堂食", &ticket_items(&items), None);
    let bytes = builder.build();
    let content = String::from_utf8_lossy(&bytes);
    assert!(content.contains("ORD001"));
    assert!(content.contains("麻辣小龍蝦"));
    assert!(content.contains("加辣"));
    assert!(content.contains("酸菜魚"));
}

fn batch_label_case() {
    let quantity = format!("{}", 10.0_f64);
    let builder = build_batch_label_content("LOT-001", "測試材料", &quantity, "kg", Some("2026-05-01"), Some("測試供應商"));
    let content = builder.build();
    assert!(content.contains("LOT-001"));
    assert!(content.contains("測試材料"));
    assert!(content.contains("10"));
    assert!(content.contains("測試供應商"));
}

fn tspl_enhanced_case() {
    let output = TsplBuilder::with_gap(mm(60.0), mm(40.0), mm(3.0))
        .text(20, 20, "Arial", (2, 2), "測試標籤")
        .text_with_rotation(20, 60, "Arial", (1, 1), 90, "旋轉文本")
        .qr_code(20, 100, "L", 4, "QR測試內容")
        .box_draw(5, 5, 595, 395, 2)
        .print_label(2)
        .build();
    assert!(output.contains("SIZE 60.0 mm, 40.0 mm"));
    assert!(output.contains("GAP 3.0 mm"));
    assert!(output.contains("QRCODE"));
    assert!(output.contains("PRINT 2"));
}

#[test]
fn database_test_kitchen_ticket_content() {
    kitchen_ticket_case();
}

#[test]
fn mod_test_kitchen_ticket_content() {
    kitchen_ticket_case();
}

#[test]
fn database_test_batch_label_content() {
    batch_label_case();
}

#[test]
fn mod_test_batch_label_content() {
    batch_label_case();
}

#[test]
fn database_test_tspl_enhanced_features() {
    tspl_enhanced_case();
}

#[test]
fn mod_test_tspl_enhanced_features() {
    tspl_enhanced_case();
}

fn esc_pos_builder_case() {
    let mut builder = EscPosBuilder::new();
    builder.align_center().bold_on().text("測試").bold_off().align_left().feed_lines(2).cut_paper();
    let output = builder.build();
    assert!(!output.is_empty());
    assert!(output.len() > 10);
}

fn tspl_builder_case() {
    let output = TsplBuilder::new(mm(40.0), mm(30.0))
        .text(10, 10, "3", (1, 1), "測試標籤")
        .box_draw(5, 5, 395, 295, 2)
        .print_label(1)
        .build();
    assert!(!output.is_empty());
}

fn esc_pos_enhanced_case() {
    let mut builder = EscPosBuilder::new();
    builder
        .align_center()
        .bold_on()
        .double_height()
        .text_ln("測試標題")
        .normal_size()
        .bold_off()
        .align_left()
        .underline_on()
        .text_ln("下劃線文本")
        .underline_off()
        .inverse_on()
        .text_ln("反白文本")
        .inverse_off()
        .font_b()
        .text_ln("Font B 文本")
        .font_a()
        .double_width()
        .text_ln("雙寬文本")
        .normal_size()
        .qr_code("https://cuckoo.example.com", 6)
        .dashed_separator(32)
        .feed_lines(2)
        .partial_cut();
    let output = builder.build();
    assert!(!output.is_empty());
    assert!(output.len() > 50);
}

#[test]
fn kitchen_ticket_exact_layout() {
    let items = vec![KitchenTicketItem { name: "粥".to_string(), qty: "1".to_string(), note: None }];
    let bytes = build_kitchen_ticket_content("A1", "外帶", &items, Some("快")).build();
    let mut expected: Vec<u8> = vec![0x1B, 0x40, 0x1B, 0x61, 1, 0x1B, 0x45, 1, 0x1D, 0x21, 0x01];
    expected.extend_from_slice("廚房單\n".as_bytes());
    expected.extend_from_slice(&[0x1D, 0x21, 0x00, 0x1B, 0x45, 0]);
    expected.extend_from_slice(&[b'-'; 32]);
    expected.push(b'\n');
    expected.extend_from_slice(&[0x1B, 0x61, 0]);
    expected.extend_from_slice("單號: A1\n類型: 外帶\n".as_bytes());
    expected.extend_from_slice(&[b'-'; 32]);
    expected.push(b'\n');
    expected.extend_from_slice(&[0x1B, 0x45, 1, 0x1D, 0x21, 0x11]);
    expected.extend_from_slice("粥 x1\n".as_bytes());
    expected.extend_from_slice(&[0x1D, 0x21, 0x00, 0x1B, 0x45, 0]);
    expected.extend_from_slice(&[b'-'; 32]);
    expected.push(b'\n');
    expected.extend_from_slice(&[0x1B, 0x45, 1]);
    expected.extend_from_slice("訂單備註: 快\n".as_bytes());
    expected.extend_from_slice(&[0x1B, 0x45, 0, 0x1B, 0x64, 3, 0x1D, 0x56, 0]);
    assert_eq!(bytes, expected);
}

#[test]
fn batch_label_exact_script() {
    let script = build_batch_label_content("L1", "米", "5", "kg", None, None).build();
    assert_eq!(
        script,
        "SIZE 40.0 mm, 30.0 mm\r\nGAP 2.0 mm, 0 mm\r\nDIRECTION 1\r\nCLS\r\n\
TEXT 10,10,\"TSS24.BF2\",0,1,1,\"批號: L1\"\r\n\
TEXT 10,60,\"TSS24.BF2\",0,1,1,\"品名: 米\"\r\n\
TEXT 10,110,\"TSS24.BF2\",0,1,1,\"數量: 5 kg\"\r\n\
PRINT 1,1\r\n"
    );
}

#[test]
fn printer_test_pages() {
    let page = String::from_utf8(lan_test_page("10.0.0.7", 9100, "2026-01-01 08:00:00").build()).unwrap();
    assert!(page.contains("Cuckoo 打印測試\n"));
    assert!(page.contains("打印機: 10.0.0.7:9100\n"));
    assert!(page.contains("時間: 2026-01-01 08:00:00\n"));
    assert!(page.ends_with("\x1b\x64\x03\x1d\x56\x00"));
    assert_eq!(feie_test_content("SN9", "T"), "=== Cuckoo 打印測試 ===\n打印機: SN9\n時間: T\n");
}

#[test]
fn database_test_esc_pos_builder() {
    esc_pos_builder_case();
}

#[test]
fn mod_test_esc_pos_builder() {
    esc_pos_builder_case();
}

#[test]
fn database_test_tspl_builder() {
    tspl_builder_case();
}

#[test]
fn mod_test_tspl_builder() {
    tspl_builder_case();
}

#[test]
fn database_test_esc_pos_enhanced_features() {
    esc_pos_enhanced_case();
}

#[test]
fn mod_test_esc_pos_enhanced_features() {
    esc_pos_enhanced_case();
}
