use fibonacci_service::decimal::{i32_to_decimal, u64_to_decimal};
use fibonacci_service::fib::calculate_fibonacci;

#[test]
fn fibonacci_base_values() {
    assert_eq!(calculate_fibonacci(0), 0);
    assert_eq!(calculate_fibonacci(1), 1);
    assert_eq!(calculate_fibonacci(2), 1);
    assert_eq!(calculate_fibonacci(10), 55);
    assert_eq!(calculate_fibonacci(20), 6765);
}

#[test]
fn fibonacci_recurrence_at_examples() {
    for n in [2, 5, 10, 30, 50] {
        assert_eq!(
            calculate_fibonacci(n),
            calculate_fibonacci(n - 1) + calculate_fibonacci(n - 2)
        );
    }
}

#[test]
fn fibonacci_largest_exact_value() {
    assert_eq!(calculate_fibonacci(92), 7540113804746346429);
}

#[test]
fn fibonacci_wraps_past_64_bits() {
    // fib(93) = 12200160415121876738, read as a two's-complement i64.
    assert_eq!(
        calculate_fibonacci(93),
        12200160415121876738u64 as i64
    );
    assert_eq!(calculate_fibonacci(93), -6246583658587674878);
}

#[test]
fn decimal_renders_signed_values() {
    assert_eq!(i32_to_decimal(0), "0");
    assert_eq!(i32_to_decimal(7), "7");
    assert_eq!(i32_to_decimal(-12), "-12");
    assert_eq!(i32_to_decimal(i32::MAX), "2147483647");
    assert_eq!(i32_to_decimal(i32::MIN), "-2147483648");
}

#[test]
fn decimal_renders_unsigned_values() {
    assert_eq!(u64_to_decimal(0), "0");
    assert_eq!(u64_to_decimal(10), "10");
    assert_eq!(u64_to_decimal(u64::MAX), "18446744073709551615");
}
