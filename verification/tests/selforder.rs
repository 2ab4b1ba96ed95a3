use cuckoo::selforder::{check_self_order, resolve_self_order_table, supplied_token, table_code_subject, TokenCheck};

#[test]
fn valid_table_code_wins() {
    assert_eq!(
        resolve_self_order_table("A9", Some(TokenCheck::Table("B2".to_string())), true),
        Ok("B2".to_string())
    );
}

#[test]
fn bad_codes_are_refused() {
    assert_eq!(
        resolve_self_order_table("A1", Some(TokenCheck::Invalid), false),
        Err("二维码无效或已过期，请重新扫码".to_string())
    );
    assert_eq!(
        resolve_self_order_table("A1", Some(TokenCheck::NotTable), false),
        Err("二维码类型错误".to_string())
    );
}

#[test]
fn without_code() {
    assert_eq!(
        resolve_self_order_table("A1", None, true),
        Err("请扫描餐桌上的最新二维码下单".to_string())
    );
    assert_eq!(resolve_self_order_table("  ", None, false), Err("桌号不能为空".to_string()));
    assert_eq!(resolve_self_order_table(" A1 ", None, false), Ok("A1".to_string()));
}

#[test]
fn empty_code_counts_as_none() {
    assert_eq!(supplied_token(Some("")), None);
    assert_eq!(supplied_token(Some("tok")), Some("tok"));
    assert_eq!(supplied_token(None), None);
}

#[test]
fn table_code_subject_is_trimmed() {
    assert_eq!(table_code_subject(" 7 "), Ok("7".to_string()));
    assert_eq!(table_code_subject(" "), Err("桌号不能为空".to_string()));
}

#[test]
fn self_order_checks() {
    let tables = vec!["A1".to_string(), "A2".to_string()];
    assert_eq!(check_self_order("A1", &tables, &[]), Err("订单不能为空".to_string()));
    assert_eq!(check_self_order("Z9", &tables, &[Some(1)]), Err("桌号无效，请扫描餐桌上的二维码".to_string()));
    assert_eq!(
        check_self_order("A2", &tables, &[Some(1), Some(0)]),
        Err("部分商品已售罄或下架，请刷新菜单后重试".to_string())
    );
    assert_eq!(
        check_self_order("A2", &tables, &[Some(1), None]),
        Err("部分商品已售罄或下架，请刷新菜单后重试".to_string())
    );
    assert_eq!(check_self_order("A2", &tables, &[Some(1), Some(1)]), Ok(()));
    // shops without configured tables accept any table number
    assert_eq!(check_self_order("whatever", &[], &[Some(1)]), Ok(()));
}

#[test]
fn test_self_order_table_existence_check() {
    let availability = vec![Some(1)];
    // no tables configured: any table number passes the table check
    assert_eq!(check_self_order("ANY", &[], &availability), Ok(()));
    let tables = vec!["A1".to_string()];
    let forged = check_self_order("GHOST", &tables, &availability);
    assert!(forged.is_err(), "forged table_no must be rejected once tables are configured");
    assert!(format!("{:?}", forged.unwrap_err()).contains("桌号无效"));
}
