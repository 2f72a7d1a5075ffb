use fibonacci::render::{fib_line, fib_report, u64_to_decimal};

#[test]
fn decimal_rendering() {
    assert_eq!(u64_to_decimal(0), "0");
    assert_eq!(u64_to_decimal(7), "7");
    assert_eq!(u64_to_decimal(10), "10");
    assert_eq!(u64_to_decimal(305), "305");
    assert_eq!(u64_to_decimal(1000), "1000");
    assert_eq!(u64_to_decimal(u64::MAX), "18446744073709551615");
}

#[test]
fn single_line_format() {
    assert_eq!(fib_line(0), "fib(0) = 0");
    assert_eq!(fib_line(7), "fib(7) = 13");
    assert_eq!(fib_line(93), "fib(93) = 12200160415121876738");
}

#[test]
fn ten_lines_exact() {
    let expected = [
        "fib(0) = 0",
        "fib(1) = 1",
        "fib(2) = 1",
        "fib(3) = 2",
        "fib(4) = 3",
        "fib(5) = 5",
        "fib(6) = 8",
        "fib(7) = 13",
        "fib(8) = 21",
        "fib(9) = 34",
    ];
    let lines = fib_report();
    assert_eq!(lines.len(), 10);
    for (line, want) in lines.iter().zip(expected.iter()) {
        assert_eq!(line, want);
    }
}
