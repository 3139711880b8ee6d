use price_fetcher::numbers::{check_guess, is_even};
use price_fetcher::words::{most_frequent_in, most_frequent_word, try_most_frequent_word};

#[test]
fn most_frequent_in_sentence() {
    let text = "the quick brown fox jumps over the lazy dog the quick brown fox";
    assert_eq!(most_frequent_word(text), ("the".to_string(), 3));
}

#[test]
fn most_frequent_tie_takes_first() {
    assert_eq!(most_frequent_word("b a a b c"), ("b".to_string(), 2));
    assert_eq!(try_most_frequent_word("  solo\t\n"), Some(("solo".to_string(), 1)));
    assert_eq!(most_frequent_word("x\u{3000}y\u{a0}y"), ("y".to_string(), 2));
}

#[test]
fn no_words_no_result() {
    assert_eq!(try_most_frequent_word(""), None);
    assert_eq!(try_most_frequent_word(" \t\n "), None);
}

#[test]
fn most_frequent_in_list() {
    let ws = vec!["x".to_string(), "y".to_string(), "y".to_string()];
    assert_eq!(most_frequent_in(&ws), ("y".to_string(), 2));
}

#[test]
fn parity() {
    assert!(is_even(10));
    assert!(is_even(0));
    assert!(is_even(-4));
    assert!(!is_even(7));
    assert!(!is_even(-3));
}

#[test]
fn guesses() {
    assert_eq!(check_guess(7, 7), 0);
    assert_eq!(check_guess(9, 7), 1);
    assert_eq!(check_guess(2, 7), -1);
    assert_eq!(check_guess(i32::MIN, i32::MAX), -1);
}
