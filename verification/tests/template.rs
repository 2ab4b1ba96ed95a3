use cuckoo::template::{
    interpolate_template_string, preview_html, render_kitchen_ticket_from_template, render_preview_lines,
    render_template_content_preview, TemplateElement, TemplateItem, TicketOrder, TicketStyle,
};

fn vars() -> Vec<(String, String)> {
    vec![("order_no".to_string(), "A001".to_string()), ("table".to_string(), "5".to_string())]
}

fn text(content: &str, align: Option<&str>, bold: Option<bool>, size: Option<&str>) -> TemplateElement {
    TemplateElement::Text {
        content: Some(content.to_string()),
        align: align.map(|a| a.to_string()),
        bold,
        size: size.map(|s| s.to_string()),
    }
}

fn item(name: &str, qty: f64, note: Option<&str>) -> TemplateItem {
    TemplateItem { name: Some(name.to_string()), qty_whole: qty as i64, qty_is_one: qty == 1.0, note: note.map(|n| n.to_string()) }
}

#[test]
fn placeholders_are_filled() {
    assert_eq!(interpolate_template_string("單號 {{order_no}} 桌 {{table}} {{missing}}", &vars()), "單號 A001 桌 5 {{missing}}");
    assert_eq!(interpolate_template_string("{{order_no}}{{order_no}}", &vars()), "A001A001");
}

#[test]
fn preview_lines_follow_elements() {
    let elements = vec![
        text("{{order_no}}", Some("center"), Some(true), Some("large")),
        text("right", Some("right"), None, None),
        TemplateElement::Separator,
        TemplateElement::BlankLines { count: Some(2) },
        TemplateElement::Items,
        TemplateElement::Other,
    ];
    let items = vec![item("雞排", 2.0, Some("不辣")), item("奶茶", 1.0, None)];
    let lines = render_preview_lines(&elements, "58mm", &vars(), &items);
    let expected: Vec<String> = vec![
        format!("##**{}A001**", " ".repeat(14)),
        format!("{}right", " ".repeat(27)),
        "─".repeat(32),
        String::new(),
        String::new(),
        "雞排 x2".to_string(),
        "  備註: 不辣".to_string(),
        "奶茶 x1".to_string(),
    ];
    assert_eq!(lines, expected);
}

#[test]
fn wide_paper_uses_48_columns() {
    let lines = render_preview_lines(&[TemplateElement::Separator, TemplateElement::BlankLines { count: None }], "80mm", &[], &[]);
    assert_eq!(lines, vec!["─".repeat(48), String::new()]);
}

#[test]
fn html_preview() {
    let lines = vec!["##**Title**".to_string(), "**Bold**".to_string(), "─".repeat(3), String::new(), "a<b & c>".to_string()];
    let html = preview_html(&lines, "58mm", "", "", None);
    let expected = String::new()
        + "<div class=\"receipt-preview\" style=\"font-family: 'Courier New', monospace; background: #fff; color: #1a1a1a; padding: 16px; max-width: 240px; margin: 0 auto; border: 1px solid #e2e8f0; border-radius: 8px; \">\n"
        + "<div style=\"font-size: 16px; font-weight: bold; text-align: center;\">Title</div>\n"
        + "<div style=\"font-weight: bold;\">Bold</div>\n"
        + "<div style=\"border-bottom: 1px dashed #ccc; margin: 6px 0;\"></div>\n"
        + "<div style=\"height: 8px;\"></div>\n"
        + "<div style=\"font-size: 13px; line-height: 1.4;\">a&lt;b &amp; c&gt;</div>\n"
        + "</div>";
    assert_eq!(html, expected);
}

#[test]
fn html_preview_brand_block() {
    let html = preview_html(&[], "80mm", "Cuckoo", "好味道", Some("data:x"));
    assert!(html.contains("max-width: 320px"));
    assert!(html.contains("<img src=\"data:x\""));
    assert!(html.contains("<div style=\"font-size: 18px; font-weight: bold;\">Cuckoo</div>"));
    assert!(html.contains("<div style=\"font-size: 11px; color: #666;\">好味道</div>"));
    let plain = preview_html(&[], "80mm", "", "好味道", None);
    assert!(!plain.contains("好味道"));
}

/// The placeholder values of a data object, each as text.
fn vars_of(data: &serde_json::Value) -> Vec<(String, String)> {
    data.as_object()
        .map(|obj| {
            obj.iter()
                .map(|(k, v)| {
                    let t = match v {
                        serde_json::Value::String(s) => s.clone(),
                        serde_json::Value::Number(n) => n.to_string(),
                        serde_json::Value::Bool(b) => b.to_string(),
                        serde_json::Value::Null => String::new(),
                        _ => v.to_string(),
                    };
                    (k.clone(), t)
                })
                .collect()
        })
        .unwrap_or_default()
}

fn template_preview_case() {
    let elements = vec![
        text("單號: {{order_no}}", Some("left"), Some(false), Some("normal")),
        TemplateElement::Separator,
        text("菜品明細", Some("left"), Some(true), Some("normal")),
        TemplateElement::Items,
        TemplateElement::BlankLines { count: Some(2) },
    ];
    let data: serde_json::Value = serde_json::from_str(
        r#"{"order_no": "ORD001", "dine_type": "堂食", "items": [{"name": "宮保雞丁", "qty": 2, "note": "少辣"}, {"name": "麻婆豆腐", "qty": 1, "note": null}]}"#,
    )
    .unwrap();
    let items = vec![item("宮保雞丁", 2.0, Some("少辣")), item("麻婆豆腐", 1.0, None)];
    let preview = render_template_content_preview(&elements, "80mm", "", "", None, &vars_of(&data), &items);
    assert!(!preview.lines.is_empty());
    assert!(preview.html.contains("ORD001"));
    assert!(preview.html.contains("宮保雞丁"));
    assert!(preview.paper_width == "80mm");
    assert_eq!(
        preview.lines,
        vec![
            "單號: ORD001".to_string(),
            "─".repeat(48),
            "**菜品明細**".to_string(),
            "宮保雞丁 x2".to_string(),
            "  備註: 少辣".to_string(),
            "麻婆豆腐 x1".to_string(),
            String::new(),
            String::new(),
        ]
    );
}

#[test]
fn database_test_template_preview_rendering() {
    template_preview_case();
}

#[test]
fn mod_test_template_preview_rendering() {
    template_preview_case();
}

fn style(theme: &str) -> TicketStyle {
    TicketStyle { theme: Some(theme.to_string()), restaurant_name: Some("店".to_string()), tagline: None, modifiers_color: None }
}

#[test]
fn themed_kitchen_tickets() {
    let order = TicketOrder { order_no: Some("A1".to_string()), dine_type: Some("堂食".to_string()), note: Some("快".to_string()) };
    let items = vec![item("麵", 2.0, Some("少鹽")), item("湯", 1.0, None)];
    let classic = String::from_utf8(render_kitchen_ticket_from_template(&style("classic"), &order, &items, "58mm", "2026-01-01 12:00").build()).unwrap();
    assert!(classic.contains("項目明細"));
    assert!(classic.contains("麵 x2\n"));
    assert!(classic.contains("  [紅] 少鹽\n"));
    assert!(classic.contains("湯\n"));
    assert!(classic.contains("訂單備註: 快"));
    assert!(classic.contains("2026-01-01 12:00"));
    let modern = String::from_utf8(render_kitchen_ticket_from_template(&style("modern"), &order, &items, "58mm", "T").build()).unwrap();
    assert!(modern.contains("[2] 麵\n"));
    assert!(modern.contains("[1] 湯\n"));
    assert!(modern.contains("  → 少鹽\n"));
    assert!(modern.contains("NO: A1\n"));
    let minimal = String::from_utf8(render_kitchen_ticket_from_template(&style("minimal"), &order, &items, "58mm", "T").build()).unwrap();
    assert!(minimal.contains("項目\n"));
    assert!(minimal.contains("  少鹽\n"));
    assert!(minimal.contains("備註: 快"));
    assert!(!minimal.contains("T\n"));
}
