use cuckoo::menu::{customer_phone_update, menu_category_code, parse_price_mode, price_mode_name, toggled_favorite, PriceMode};

#[test]
fn category_codes() {
    assert_eq!(menu_category_code("hot drinks"), "HOT_DRINKS");
    assert_eq!(menu_category_code("主食 套餐"), "主食_套餐");
}

#[test]
fn price_modes() {
    assert_eq!(parse_price_mode(" SET "), Ok(PriceMode::Absolute));
    assert_eq!(parse_price_mode("delta"), Ok(PriceMode::Delta));
    assert_eq!(parse_price_mode("Percent"), Ok(PriceMode::Percent));
    assert_eq!(parse_price_mode("double"), Err("不支持的调价模式".to_string()));
    assert_eq!(price_mode_name(PriceMode::Absolute), "set");
    assert_eq!(price_mode_name(PriceMode::Percent), "percent");
}

#[test]
fn favorite_toggle() {
    assert_eq!(toggled_favorite(0), 1);
    assert_eq!(toggled_favorite(1), 0);
    assert_eq!(toggled_favorite(toggled_favorite(0)), 0);
}

#[test]
fn phone_updates() {
    assert_eq!(customer_phone_update(Some("123".to_string()), true), Some(None));
    assert_eq!(customer_phone_update(Some("123".to_string()), false), Some(Some("123".to_string())));
    assert_eq!(customer_phone_update(None, false), None);
}
