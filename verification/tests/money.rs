use predlab::money::{format_cents, money_cents, rank, Standing};

fn s(name: &str, total: i64) -> Standing {
    Standing { username: name.to_string(), total_cents: total }
}

#[test]
fn ranks_highest_balance_first() {
    let out = rank(vec![s("alice", 100), s("bob", 300), s("carol", 200)]);
    let order: Vec<&str> = out.iter().map(|x| x.username.as_str()).collect();
    assert_eq!(order, ["bob", "carol", "alice"]);
}

#[test]
fn ties_break_alphabetically() {
    let out = rank(vec![s("bob", 100), s("alice", 100)]);
    assert_eq!(out[0].username, "alice");
    assert_eq!(out[1].username, "bob");
}

#[test]
fn rank_is_idempotent() {
    let once = rank(vec![s("a", 1), s("b", 2)]);
    let twice = rank(once.clone());
    assert_eq!(once, twice);
}

#[test]
fn formats_dollars_with_thousands() {
    assert_eq!(format_cents(2_500_000), "$25,000.00");
    assert_eq!(format_cents(100), "$1.00");
    assert_eq!(format_cents(5), "$0.05");
    assert_eq!(format_cents(1_234_567), "$12,345.67");
}

#[test]
fn formats_negative_balances() {
    assert_eq!(format_cents(-12_345), "-$123.45");
}

#[test]
fn formats_extreme_balances() {
    assert_eq!(format_cents(i64::MIN), "-$92,233,720,368,547,758.08");
    assert_eq!(format_cents(i64::MAX), "$92,233,720,368,547,758.07");
    assert_eq!(money_cents(-1), "-$0.01");
    assert_eq!(money_cents(123_456_789_012), "$1,234,567,890.12");
}

#[test]
fn money_groups_thousands() {
    assert_eq!(format_cents(2_500_000), "$25,000.00");
    assert_eq!(format_cents(123_456_750), "$1,234,567.50");
    assert_eq!(format_cents(0), "$0.00");
    assert_eq!(format_cents(-4_210), "-$42.10");
}

#[test]
fn rank_keeps_every_member_once() {
    let input = vec![s("d", 5), s("c", 5), s("b", 9), s("a", -1), s("e", 5)];
    let out = rank(input.clone());
    assert_eq!(out.len(), input.len());
    let order: Vec<&str> = out.iter().map(|x| x.username.as_str()).collect();
    assert_eq!(order, ["b", "c", "d", "e", "a"]);
    let mut reversed = input;
    reversed.reverse();
    assert_eq!(rank(reversed), out);
}
