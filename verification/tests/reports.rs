use cuckoo::reports::{report_document, report_header, report_kind, report_row, ReportKind};

#[test]
fn report_types() {
    assert_eq!(report_kind("sales"), Ok(ReportKind::Sales));
    assert_eq!(report_kind("top_items"), Ok(ReportKind::TopItems));
    assert_eq!(report_kind("weekly"), Err("不支持的报告类型: weekly".to_string()));
    assert_eq!(report_header(ReportKind::Material), "原料,消耗数量,平均成本,总成本");
}

#[test]
fn report_rows_and_document() {
    let row = report_row("牛\"肉", &[format!("{:.2}", 12.5_f64), "3".to_string()]);
    assert_eq!(row, "\"牛\"\"肉\",12.50,3");
    assert_eq!(report_row("x", &[]), "\"x\"");
    assert_eq!(report_document(ReportKind::Category, &[]), "分类,销售额,订单数");
    assert_eq!(
        report_document(ReportKind::Category, &["\"a\",1.00,2".to_string(), "\"b\",0.50,1".to_string()]),
        "分类,销售额,订单数\n\"a\",1.00,2\n\"b\",0.50,1"
    );
}
