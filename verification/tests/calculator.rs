use fibonacci::fibonacci;

#[test]
fn base_cases() {
    assert_eq!(fibonacci(0), 0);
    assert_eq!(fibonacci(1), 1);
}

#[test]
fn first_ten_values() {
    let expected: [u64; 10] = [0, 1, 1, 2, 3, 5, 8, 13, 21, 34];
    for i in 0..10u64 {
        assert_eq!(fibonacci(i), expected[i as usize]);
    }
}

#[test]
fn recurrence_holds_in_range() {
    for n in 2..=93u64 {
        assert_eq!(fibonacci(n), fibonacci(n - 1) + fibonacci(n - 2));
    }
}

#[test]
fn monotone_in_range() {
    for n in 1..=93u64 {
        assert!(fibonacci(n) >= fibonacci(n - 1));
    }
}

#[test]
fn largest_term_that_fits() {
    assert_eq!(fibonacci(93), 12200160415121876738);
}

#[test]
fn wraps_beyond_93() {
    assert_eq!(fibonacci(94), 1293530146158671551);
    assert_eq!(fibonacci(95), fibonacci(94).wrapping_add(fibonacci(93)));
}

#[test]
fn repeated_calls_agree() {
    for n in [0u64, 1, 9, 40, 93, 94, 200] {
        assert_eq!(fibonacci(n), fibonacci(n));
    }
}
