use std::str::FromStr;
use cuckoo::auth::{allowed_roles, authorize, Permission};
use cuckoo::auth::{
    get_current_role, get_role_pin_statuses, redeem_requires_pin, require_roles, set_require_token, set_role_pin,
    switch_role, verify_any_pin, RoleAuthStore,
};
use cuckoo::pinhash::{sha256_hex, verify_pin};
use cuckoo::roles::UserRole;

#[test]
fn role_codes_and_labels() {
    assert_eq!(UserRole::Owner.as_str(), "owner");
    assert_eq!(UserRole::Warehouse.as_str(), "warehouse");
    assert_eq!(UserRole::Cashier.label(), "收银");
    assert_eq!(UserRole::Chef.label(), "厨师");
}

#[test]
fn role_parse_ignores_case_and_blanks() {
    assert_eq!(UserRole::parse(" Owner "), Ok(UserRole::Owner));
    assert_eq!(UserRole::parse("CHEF"), Ok(UserRole::Chef));
    assert_eq!("cashier".parse::<UserRole>(), Ok(UserRole::Cashier));
    assert_eq!(UserRole::parse("boss"), Err("未知角色".to_string()));
}

#[test]
fn require_roles_names_role_and_action() {
    assert_eq!(require_roles(UserRole::Owner, &[UserRole::Owner, UserRole::Cashier], "提交订单"), Ok(UserRole::Owner));
    assert_eq!(
        require_roles(UserRole::Cashier, &[UserRole::Owner], "创建打印机"),
        Err("当前角色「收银」无权执行：创建打印机".to_string())
    );
}

#[test]
fn default_store_is_owner_without_pins() {
    let store = RoleAuthStore::default();
    assert_eq!(get_current_role(&store), "owner");
    assert!(!redeem_requires_pin(&store));
    assert!(verify_any_pin(&store, "anything"));
    let statuses = get_role_pin_statuses(&store);
    let roles: Vec<&str> = statuses.iter().map(|s| s.role.as_str()).collect();
    assert_eq!(roles, vec!["owner", "cashier", "chef", "warehouse"]);
    assert!(statuses.iter().all(|s| !s.has_pin));
}

#[test]
fn pin_then_switch_round_trip() {
    let mut store = RoleAuthStore::default();
    assert_eq!(set_role_pin(&mut store, "cashier", Some(" 1234 ")), Ok(()));
    let statuses = get_role_pin_statuses(&store);
    assert!(statuses[1].has_pin);
    assert!(!statuses[2].has_pin);
    assert!(store.pin_hashes[0].1.starts_with("$argon2"));
    assert!(verify_pin("1234", &store.pin_hashes[0].1));
    assert_eq!(switch_role(&mut store, "cashier", Some("0000")), Err("PIN 错误".to_string()));
    assert_eq!(store.current_role, UserRole::Owner);
    assert_eq!(switch_role(&mut store, "cashier", Some(" 1234")), Ok("cashier".to_string()));
    assert_eq!(store.current_role, UserRole::Cashier);
    assert!(redeem_requires_pin(&store));
    assert!(verify_any_pin(&store, "1234"));
    assert!(!verify_any_pin(&store, "9999"));
}

#[test]
fn only_owner_sets_pins() {
    let mut store = RoleAuthStore::default();
    store.current_role = UserRole::Chef;
    assert_eq!(
        set_role_pin(&mut store, "chef", Some("1234")),
        Err("当前角色「厨师」无权执行：设置角色 PIN".to_string())
    );
    assert!(store.pin_hashes.is_empty());
}

#[test]
fn short_pin_refused_and_blank_clears() {
    let mut store = RoleAuthStore::default();
    assert_eq!(set_role_pin(&mut store, "chef", Some("12")), Err("PIN 至少 4 位".to_string()));
    assert!(store.pin_hashes.is_empty());
    assert_eq!(set_role_pin(&mut store, "chef", Some("5678")), Ok(()));
    assert_eq!(store.pin_hashes.len(), 1);
    assert_eq!(set_role_pin(&mut store, "chef", Some("   ")), Ok(()));
    assert!(store.pin_hashes.is_empty());
    assert_eq!(switch_role(&mut store, "chef", None), Ok("chef".to_string()));
}

#[test]
fn unknown_role_is_refused() {
    let mut store = RoleAuthStore::default();
    assert_eq!(switch_role(&mut store, "manager", None), Err("未知角色".to_string()));
    assert_eq!(set_role_pin(&mut store, "manager", Some("1234")), Err("未知角色".to_string()));
}

#[test]
fn legacy_sha256_pins_still_verify() {
    let digest = sha256_hex("1234");
    assert_eq!(digest, "03ac674216f3e15c761ee1a5e255f067953623c8b388b4459e13f978d7c846f4");
    assert!(verify_pin("1234", &digest));
    assert!(!verify_pin("4321", &digest));
    assert!(!verify_pin("1234", "$argon2id$v=19$m=19456,t=2,p=1$bm90YXNhbHQ$bm90YWhhc2g"));
}

#[test]
fn require_token_switch() {
    let mut store = RoleAuthStore::default();
    set_require_token(&mut store, true);
    assert!(store.require_token);
    set_require_token(&mut store, false);
    assert!(!store.require_token);
}

#[test]
fn permissions_by_kind() {
    assert_eq!(allowed_roles(Permission::Stock), vec![UserRole::Owner, UserRole::Warehouse]);
    assert_eq!(allowed_roles(Permission::Kitchen), vec![UserRole::Owner, UserRole::Cashier, UserRole::Chef]);
    assert_eq!(authorize(UserRole::Chef, Permission::Kitchen, "完成工单"), Ok(UserRole::Chef));
    assert_eq!(
        authorize(UserRole::Warehouse, Permission::Sales, "提交订单"),
        Err("当前角色「仓库」无权执行：提交订单".to_string())
    );
    for p in [Permission::OwnerOnly, Permission::Sales, Permission::Stock, Permission::Kitchen, Permission::Production, Permission::AllStaff] {
        assert_eq!(authorize(UserRole::Owner, p, "x"), Ok(UserRole::Owner));
    }
}

#[test]
fn role_from_str_round_trip_and_normalised() {
    for r in [UserRole::Owner, UserRole::Cashier, UserRole::Chef, UserRole::Warehouse] {
        assert_eq!(UserRole::from_str(r.as_str()), Ok(r));
    }
    for s in ["  CaShIeR ", "WAREHOUSE", "\tchef\n", "boss", ""] {
        assert_eq!(UserRole::from_str(s), UserRole::from_str(&s.trim().to_lowercase()));
    }
    assert_eq!(UserRole::from_str("boss"), Err("未知角色".to_string()));
}
