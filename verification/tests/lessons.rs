use solana_challenges::lessons::{longest_key, transfer_logic, MyError};
use solana_challenges::pubkey::Pubkey;

#[test]
fn transfer_logic_accepts_covered_amount() {
    assert_eq!(transfer_logic(100, 500), Ok(()));
    assert_eq!(transfer_logic(500, 500), Ok(()));
}

#[test]
fn transfer_logic_rejects_large_or_zero_amount() {
    assert_eq!(transfer_logic(1000, 500), Err(MyError::InsufficientFunds));
    assert_eq!(transfer_logic(0, 500), Err(MyError::AmountTooSmall));
    assert_eq!(transfer_logic(0, 0), Err(MyError::AmountTooSmall));
}

#[test]
fn longest_key_picks_the_longer() {
    assert_eq!(longest_key("ShortKey", "VeryLongKeyName"), "VeryLongKeyName");
    assert_eq!(longest_key("VeryLongKeyName", "ShortKey"), "VeryLongKeyName");
}

#[test]
fn longest_key_ties_go_to_the_second() {
    let a = String::from("abc");
    let b = String::from("xyz");
    assert!(std::ptr::eq(longest_key(&a, &b), b.as_str()));
}

#[test]
fn longest_key_counts_bytes() {
    // "é" takes two bytes, so "éé" (4 bytes) is longer than "abc" (3 bytes).
    assert_eq!(longest_key("éé", "abc"), "éé");
}

#[test]
fn new_unique_is_all_ones() {
    assert_eq!(Pubkey::new_unique(), Pubkey([1; 32]));
    assert_ne!(Pubkey::new_unique(), Pubkey([0; 32]));
}
