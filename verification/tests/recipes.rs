use cuckoo::recipes::{after_code_attempt, CodeAttempt};
use cuckoo::recipes::{
    check_recipe_item, generate_recipe_code, recipe_code_candidate, recipe_has_ancestor, should_retry_recipe_code,
    validate_recipe_name, would_create_recipe_cycle,
};

/// Sub-recipe links as (parent recipe, sub-recipe).
fn chain() -> Vec<(i64, i64)> {
    // 1 uses 2, 2 uses 3
    vec![(1, 2), (2, 3)]
}

#[test]
fn test_recipe_cycle_detection() {
    let parent_recipe_id = 1;
    let child_recipe_id = 2;
    let edges = vec![(parent_recipe_id, child_recipe_id)];
    assert!(would_create_recipe_cycle(&edges, child_recipe_id, parent_recipe_id));
    assert!(!would_create_recipe_cycle(&edges, parent_recipe_id, child_recipe_id));
    assert!(check_recipe_item(&edges, child_recipe_id, "sub_recipe", parent_recipe_id).is_err());
}

#[test]
fn cycle_checks_follow_chains() {
    let edges = chain();
    // adding 1 under 3 would close 1 -> 2 -> 3 -> 1
    assert!(would_create_recipe_cycle(&edges, 3, 1));
    // a recipe under itself
    assert!(would_create_recipe_cycle(&edges, 2, 2));
    // an unrelated recipe is fine
    assert!(!would_create_recipe_cycle(&edges, 1, 4));
    // 3 under 1 is already implied, no cycle
    assert!(!would_create_recipe_cycle(&edges, 1, 3));
}

#[test]
fn search_follows_sub_recipe_links() {
    let edges = chain();
    assert!(recipe_has_ancestor(&edges, 1, 3));
    assert!(recipe_has_ancestor(&edges, 2, 3));
    assert!(recipe_has_ancestor(&edges, 2, 2));
    assert!(!recipe_has_ancestor(&edges, 3, 1));
}

#[test]
fn search_gives_up_after_fifty_recipes() {
    // a chain 0 -> 1 -> ... -> 60; recipe 60 is beyond the search limit
    let edges: Vec<(i64, i64)> = (0..60).map(|i| (i, i + 1)).collect();
    assert!(recipe_has_ancestor(&edges, 0, 49));
    assert!(!recipe_has_ancestor(&edges, 0, 60));
}

#[test]
fn recipe_item_checks() {
    let edges = chain();
    assert_eq!(check_recipe_item(&edges, 5, "sub_recipe", 5), Err("不能將配方添加為自身的子配方".to_string()));
    assert_eq!(
        check_recipe_item(&edges, 3, "sub_recipe", 1),
        Err("添加此子配方會產生循環引用，請檢查配方嵌套關係".to_string())
    );
    assert_eq!(check_recipe_item(&edges, 3, "material", 1), Ok(()));
    assert_eq!(check_recipe_item(&edges, 1, "sub_recipe", 4), Ok(()));
}

#[test]
fn recipe_codes() {
    assert_eq!(generate_recipe_code(None), "RCP001");
    assert_eq!(generate_recipe_code(Some(41)), "RCP042");
    assert_eq!(generate_recipe_code(Some(999)), "RCP1000");
    assert_eq!(recipe_code_candidate("  ", 7), "RCP008");
    assert_eq!(recipe_code_candidate(" MY-01 ", 7), "MY-01");
    assert!(should_retry_recipe_code("UNIQUE constraint failed: recipes.code", "RCP003"));
    assert!(should_retry_recipe_code("UNIQUE constraint failed: recipes.code", ""));
    assert!(!should_retry_recipe_code("UNIQUE constraint failed: recipes.code", "CUSTOM"));
    assert!(!should_retry_recipe_code("database is locked", "RCP003"));
}

#[test]
fn recipe_names() {
    assert_eq!(validate_recipe_name("  麻婆豆腐 "), Ok("麻婆豆腐".to_string()));
    assert_eq!(validate_recipe_name("   "), Err("配方名稱不能為空".to_string()));
}

#[test]
fn recipe_code_attempts() {
    let taken = "UNIQUE constraint failed: recipes.code".to_string();
    assert!(matches!(after_code_attempt(0, Ok(11), ""), CodeAttempt::Created(11)));
    assert!(matches!(after_code_attempt(0, Err(taken.clone()), ""), CodeAttempt::Retry));
    assert!(matches!(after_code_attempt(3, Err(taken.clone()), "RCP002"), CodeAttempt::Retry));
    assert!(matches!(after_code_attempt(4, Err(taken.clone()), ""), CodeAttempt::Failed(m) if m == "生成配方編號失敗，請重試"));
    assert!(matches!(after_code_attempt(0, Err(taken.clone()), "MINE"), CodeAttempt::Failed(m) if m == taken));
    assert!(matches!(after_code_attempt(0, Err("disk full".to_string()), ""), CodeAttempt::Failed(m) if m == "disk full"));
}
