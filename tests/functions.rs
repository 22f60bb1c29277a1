use demopy_gb_jj::{add, hello, reverse_string, sum_list};

#[test]
fn test_add() {
    assert_eq!(add(2, 3), 5);
    assert_eq!(add(-1, 1), 0);
    assert_eq!(add(0, 0), 0);
}

#[test]
fn test_sum_list() {
    assert_eq!(sum_list(vec![1, 2, 3, 4, 5]), 15);
    assert_eq!(sum_list(vec![]), 0);
    assert_eq!(sum_list(vec![-1, -2, -3]), -6);
}

#[test]
fn test_reverse_string() {
    assert_eq!(reverse_string("hello".to_string()), "olleh");
    assert_eq!(reverse_string("".to_string()), "");
    assert_eq!(reverse_string("a".to_string()), "a");
}

#[test]
fn test_hello() {
    let result = hello();
    assert!(result.contains("demopy_gb_jj"));
    assert!(result.contains("Rust edition"));
}

#[test]
fn hello_is_the_fixed_greeting() {
    assert_eq!(hello(), "Hello from demopy_gb_jj (Rust edition)!");
}

#[test]
fn add_commutes_and_zero_is_identity() {
    assert_eq!(add(7, -12), add(-12, 7));
    assert_eq!(add(i64::MAX, 5), add(5, i64::MAX));
    assert_eq!(add(-42, 0), -42);
    assert_eq!(add(i64::MIN, 0), i64::MIN);
}

#[test]
fn add_wraps_at_the_bounds() {
    assert_eq!(add(i64::MAX, 1), i64::MIN);
    assert_eq!(add(i64::MIN, -1), i64::MAX);
    assert_eq!(add(i64::MAX, i64::MAX), -2);
}

#[test]
fn sum_list_ignores_order() {
    let xs = vec![4, -9, 100, 0, 17];
    let mut rev = xs.clone();
    rev.reverse();
    assert_eq!(sum_list(xs), 112);
    assert_eq!(sum_list(rev), 112);
}

#[test]
fn sum_list_wraps_and_stays_order_independent() {
    assert_eq!(sum_list(vec![i64::MAX, 1, -1]), i64::MAX);
    assert_eq!(sum_list(vec![-1, 1, i64::MAX]), i64::MAX);
    assert_eq!(sum_list(vec![i64::MAX, 1]), i64::MIN);
    assert_eq!(sum_list(vec![i64::MIN, i64::MIN, 3]), 3);
}

#[test]
fn reverse_string_goes_by_characters() {
    assert_eq!(reverse_string("añb€😀".to_string()), "😀€bña");
    assert_eq!(reverse_string("ab".to_string()), "ba");
}

#[test]
fn reverse_string_twice_gives_the_text_back() {
    let s = "Grüße, 世界!".to_string();
    assert_eq!(reverse_string(reverse_string(s.clone())), s);
    assert_eq!(reverse_string(reverse_string(String::new())), "");
}
