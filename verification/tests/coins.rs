use neutron_test_tube::coin::{denom_less_than, sort_coins_by_denom, Coin};
use neutron_test_tube::runner::init_account_coins_json;

fn coin(amount: u128, denom: &str) -> Coin {
    Coin::new(amount, denom.to_string())
}

fn pairs(coins: &[Coin]) -> Vec<(String, u128)> {
    coins.iter().map(|c| (c.denom.clone(), c.amount)).collect()
}

#[test]
fn sorts_by_denomination() {
    let coins = vec![coin(1, "untrn"), coin(2, "uatom"), coin(3, "ibc/ABC")];
    let sorted = sort_coins_by_denom(&coins);
    assert_eq!(
        pairs(&sorted),
        vec![
            ("ibc/ABC".to_string(), 3),
            ("uatom".to_string(), 2),
            ("untrn".to_string(), 1)
        ]
    );
}

#[test]
fn sorting_keeps_equal_denominations_in_order() {
    let coins = vec![coin(5, "untrn"), coin(1, "uatom"), coin(7, "untrn"), coin(2, "uatom")];
    let sorted = sort_coins_by_denom(&coins);
    assert_eq!(
        pairs(&sorted),
        vec![
            ("uatom".to_string(), 1),
            ("uatom".to_string(), 2),
            ("untrn".to_string(), 5),
            ("untrn".to_string(), 7)
        ]
    );
}

#[test]
fn sorting_orders_by_bytes() {
    let coins = vec![coin(1, "a"), coin(2, "B"), coin(3, "ab"), coin(4, "")];
    let sorted = sort_coins_by_denom(&coins);
    assert_eq!(
        pairs(&sorted),
        vec![
            ("".to_string(), 4),
            ("B".to_string(), 2),
            ("a".to_string(), 1),
            ("ab".to_string(), 3)
        ]
    );
}

#[test]
fn sorting_sorted_coins_changes_nothing() {
    let coins = vec![coin(1, "a"), coin(2, "b"), coin(3, "c")];
    let once = sort_coins_by_denom(&coins);
    let twice = sort_coins_by_denom(&once);
    assert_eq!(pairs(&once), pairs(&coins));
    assert_eq!(pairs(&twice), pairs(&once));
}

#[test]
fn sorting_nothing_gives_nothing() {
    assert!(sort_coins_by_denom(&[]).is_empty());
}

#[test]
fn denominations_compare_as_strings() {
    assert!(denom_less_than(&coin(0, "uatom"), &coin(0, "untrn")));
    assert!(!denom_less_than(&coin(0, "untrn"), &coin(0, "uatom")));
    assert!(!denom_less_than(&coin(0, "untrn"), &coin(0, "untrn")));
    assert!(denom_less_than(&coin(0, "u"), &coin(0, "untrn")));
}

#[test]
fn new_account_coins_are_sorted_json() {
    let json = init_account_coins_json(&[
        coin(1_000_000_000_000, "untrn"),
        coin(1_000_000_000_000, "uatom"),
    ])
    .unwrap();
    assert_eq!(
        json,
        r#"[{"denom":"uatom","amount":"1000000000000"},{"denom":"untrn","amount":"1000000000000"}]"#
    );
}

#[test]
fn new_account_without_coins_is_empty_json_list() {
    assert_eq!(init_account_coins_json(&[]).unwrap(), "[]");
}

#[test]
fn coin_clone_is_equal() {
    let c = coin(42, "untrn");
    let d = c.clone();
    assert_eq!(d.denom, "untrn");
    assert_eq!(d.amount, 42);
}
