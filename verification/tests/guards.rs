use cuckoo::guards::{
    check_category_deletable, check_po_accepts_items, check_production_deletable, check_recipe_deletable,
    check_recipe_type_deletable, expenses_query, expiry_alert, material_label, po_status_after_receipt,
    production_output_lot, receipt_item_name, receipt_lot_no, received_lot_line, shortage_message, store_filter,
    vacuum_into_sql,
};

#[test]
fn deletion_guards() {
    assert_eq!(check_category_deletable(0), Ok(()));
    assert_eq!(check_category_deletable(3), Err("該分類下有 3 個活躍原料，刪除前請先更換分類".to_string()));
    assert_eq!(check_recipe_type_deletable(2), Err("該配方類型仍被 2 個配方使用中".to_string()));
    assert_eq!(check_recipe_type_deletable(0), Ok(()));
    assert_eq!(check_recipe_deletable(1, 4), Err("此配方被 1 個菜品使用，請先解除菜品與配方的綁定".to_string()));
    assert_eq!(check_recipe_deletable(0, 4), Err("此配方被 4 個其他配方引用為子配方，請先移除引用".to_string()));
    assert_eq!(check_recipe_deletable(0, 0), Ok(()));
}

#[test]
fn draft_only_guards() {
    assert_eq!(check_po_accepts_items("draft"), Ok(()));
    assert_eq!(check_po_accepts_items("received"), Err("只能為草稿狀態的採購單新增明細，當前狀態：received".to_string()));
    assert_eq!(check_production_deletable("draft"), Ok(()));
    assert_eq!(check_production_deletable("done"), Err("只能刪除草稿狀態的生産單，當前狀態：done".to_string()));
}

#[test]
fn lot_numbers() {
    assert_eq!(receipt_lot_no(None, "PO2024", 0), "PO2024-01");
    assert_eq!(receipt_lot_no(None, "PO2024", 9), "PO2024-10");
    assert_eq!(receipt_lot_no(None, "PO2024", 99), "PO2024-100");
    assert_eq!(receipt_lot_no(Some("MY-LOT".to_string()), "PO2024", 3), "MY-LOT");
    assert_eq!(production_output_lot("PRD1"), "PRD1-OUT");
    assert_eq!(received_lot_line("牛肉", "PO1-01"), "牛肉: PO1-01");
    assert_eq!(po_status_after_receipt(0), "received");
    assert_eq!(po_status_after_receipt(2), "partial");
}

#[test]
fn alerts_and_labels() {
    assert_eq!(expiry_alert("牛奶", 0), ("error", "【已过期】牛奶".to_string()));
    assert_eq!(expiry_alert("牛奶", -2), ("error", "【已过期】牛奶".to_string()));
    assert_eq!(expiry_alert("牛奶", 3), ("warning", "【即将过期 3天】牛奶".to_string()));
    assert_eq!(material_label(None, 8), "材料#8");
    assert_eq!(material_label(Some("糖".to_string()), 8), "糖");
    let names = vec![(1, "咖啡".to_string()), (2, "茶".to_string())];
    assert_eq!(receipt_item_name(&names, 2), "茶");
    assert_eq!(receipt_item_name(&names, 3), "商品#3");
    assert_eq!(shortage_message("库存不足: ", &["a（需要 1.00，库存 0.00）".to_string(), "b".to_string()]), "库存不足: a（需要 1.00，库存 0.00）；b");
    assert_eq!(shortage_message("原料不足: ", &[]), "原料不足: ");
}

#[test]
fn query_texts() {
    let base = "SELECT id, expense_type, amount, expense_date, note, operator, is_active, created_at FROM expenses WHERE is_active = 1";
    let tail = " ORDER BY expense_date DESC, id DESC";
    assert_eq!(expenses_query(false, false, false), format!("{}{}", base, tail));
    assert_eq!(
        expenses_query(true, true, true),
        format!("{} AND expense_type = ?1 AND expense_date >= ?2 AND expense_date <= ?3{}", base, tail)
    );
    assert_eq!(expenses_query(false, true, true), format!("{} AND expense_date >= ?1 AND expense_date <= ?2{}", base, tail));
    assert_eq!(expenses_query(false, false, true), format!("{} AND expense_date <= ?1{}", base, tail));
    assert_eq!(store_filter(Some(4)), " AND store_id = 4");
    assert_eq!(store_filter(None), "");
    assert_eq!(vacuum_into_sql("/tmp/o'brien.db"), "VACUUM INTO '/tmp/o''brien.db'");
}
