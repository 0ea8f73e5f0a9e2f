use rendezvous_server::text::{decimal_string, join};

#[test]
fn decimal_of_zero_is_a_single_digit() {
    assert_eq!(decimal_string(0), "0");
}

#[test]
fn decimal_of_single_digits() {
    assert_eq!(decimal_string(7), "7");
    assert_eq!(decimal_string(9), "9");
}

#[test]
fn decimal_has_no_leading_zero() {
    assert_eq!(decimal_string(10), "10");
    assert_eq!(decimal_string(100), "100");
    assert_eq!(decimal_string(9000), "9000");
}

#[test]
fn decimal_of_the_largest_port() {
    assert_eq!(decimal_string(65535), "65535");
}

#[test]
fn decimal_of_the_largest_number() {
    assert_eq!(decimal_string(u64::MAX), "18446744073709551615");
}

#[test]
fn decimal_agrees_with_the_standard_library() {
    let samples: Vec<u64> = vec![0, 1, 9, 10, 11, 99, 101, 12345, 86_400, 4_294_967_296];
    for n in samples {
        assert_eq!(decimal_string(n), format!("{}", n));
    }
}

#[test]
fn join_of_nothing_is_empty() {
    assert_eq!(join(&Vec::new(), ","), "");
}

#[test]
fn join_of_one_part_is_that_part() {
    assert_eq!(join(&vec!["alone".to_string()], ","), "alone");
}

#[test]
fn join_puts_the_separator_between_neighbours_only() {
    let parts = vec!["a".to_string(), "b".to_string(), "c".to_string()];
    assert_eq!(join(&parts, ", "), "a, b, c");
    assert_eq!(join(&parts, ""), "abc");
}

#[test]
fn join_keeps_empty_parts() {
    let parts = vec!["".to_string(), "x".to_string(), "".to_string()];
    assert_eq!(join(&parts, ","), ",x,");
}
