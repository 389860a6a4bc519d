use demo_kernels::decimal::u64_to_decimal;
use demo_kernels::fib::fib_biguint;
use demo_kernels::matrix::checksum_of;
use demo_kernels::matrix::filled_matrix;
use demo_kernels::matrix::mat_mul;
use demo_kernels::calculate_fibonacci;
use demo_kernels::fibonacci_report;
use demo_kernels::greet;
use demo_kernels::heavy_compute;
use demo_kernels::heavy_report;
use num_bigint::BigUint;

#[test]
fn greet_world() {
    assert_eq!(greet("World".to_string()), "Hi, World!");
}

#[test]
fn greet_empty_name() {
    assert_eq!(greet(String::new()), "Hi, !");
}

#[test]
fn fibonacci_base_cases_return_the_input() {
    let zero = calculate_fibonacci(0);
    assert!(zero.starts_with("Result: 0\nTime taken: "));
    let one = calculate_fibonacci(1);
    assert!(one.starts_with("Result: 1\nTime taken: "));
}

#[test]
fn fibonacci_reference_values() {
    assert_eq!(fib_biguint(10), BigUint::from(55u32));
    assert_eq!(fib_biguint(50), BigUint::from(12586269025u64));
    assert_eq!(fib_biguint(2), BigUint::from(1u32));
    assert_eq!(fib_biguint(3), BigUint::from(2u32));
}

#[test]
fn fibonacci_recurrence_on_values() {
    for n in 2u32..30 {
        assert_eq!(fib_biguint(n), fib_biguint(n - 1) + fib_biguint(n - 2));
    }
}

#[test]
fn fibonacci_monotone_on_values() {
    for n in 0u32..40 {
        assert!(fib_biguint(n) <= fib_biguint(n + 1));
    }
}

#[test]
fn fibonacci_report_is_exact() {
    assert_eq!(fibonacci_report(10, 7), "Result: 55\nTime taken: 7ns");
    assert_eq!(fibonacci_report(50, 0), "Result: 12586269025\nTime taken: 0ns");
}

#[test]
fn fibonacci_large_value_has_many_digits() {
    // fib(300) overflows every fixed-width integer; its decimal expansion
    // has 63 digits.
    let report = fibonacci_report(300, 1);
    assert_eq!(
        report,
        "Result: 222232244629420445529739893461909967206666939096499764990979600\nTime taken: 1ns"
    );
}

#[test]
fn calculate_fibonacci_report_shape() {
    let report = calculate_fibonacci(10);
    assert!(report.starts_with("Result: 55\nTime taken: "));
    assert!(report.ends_with("ns"));
    let elapsed = &report["Result: 55\nTime taken: ".len()..report.len() - 2];
    // The elapsed field is a plain decimal number, hence non-negative.
    assert!(elapsed.parse::<u64>().is_ok());
}

#[test]
fn decimal_formatting() {
    assert_eq!(u64_to_decimal(0), "0");
    assert_eq!(u64_to_decimal(9), "9");
    assert_eq!(u64_to_decimal(10), "10");
    assert_eq!(u64_to_decimal(1234567890), "1234567890");
    assert_eq!(u64_to_decimal(u64::MAX), "18446744073709551615");
}

#[test]
fn mat_mul_small_product() {
    let a: Vec<u64> = vec![1, 2, 3, 4];
    let b: Vec<u64> = vec![5, 6, 7, 8];
    let product = mat_mul(&a, &b, 2);
    assert_eq!(product, vec![19, 22, 43, 50]);
}

#[test]
fn mat_mul_empty_product() {
    let a: Vec<u64> = Vec::new();
    let b: Vec<u64> = Vec::new();
    let product = mat_mul(&a, &b, 0);
    assert!(product.is_empty());
}

#[test]
fn filled_matrix_and_checksum() {
    let m = filled_matrix(3, 4);
    assert_eq!(m.len(), 16);
    assert!(m.iter().all(|&x| x == 3));
    assert_eq!(checksum_of(&m), 48);
    let empty = filled_matrix(7, 0);
    assert_eq!(checksum_of(&empty), 0);
}

#[test]
fn heavy_report_is_exact() {
    assert_eq!(
        heavy_report(4, 5000),
        "Checksum: 128.00\nTime taken for 1000 iterations: 5000ns\nAverage time per iteration: 5ns"
    );
    assert_eq!(
        heavy_report(0, 999),
        "Checksum: 0.00\nTime taken for 1000 iterations: 999ns\nAverage time per iteration: 0ns"
    );
}

#[test]
fn heavy_compute_zero_size() {
    let report = heavy_compute(0);
    assert!(report.starts_with("Checksum: 0.00\nTime taken for 1000 iterations: "));
}

#[test]
fn heavy_compute_small_sizes() {
    // Under exact arithmetic the checksum is size^3 * 1 * 2.
    let report = heavy_compute(2);
    assert!(report.starts_with("Checksum: 16.00\nTime taken for 1000 iterations: "));
    let report = heavy_compute(8);
    assert!(report.starts_with("Checksum: 1024.00\nTime taken for 1000 iterations: "));
}

#[test]
fn float_checksum_agrees_with_exact_arithmetic() {
    // A floating-point multiplication of the same constant matrices,
    // accumulated row-major and k-then-j as the benchmark prescribes, must
    // match the exact checksum 2 * size^3 within a small relative
    // tolerance for moderate sizes.
    for size in [0usize, 1, 2, 4, 8, 16, 32, 64] {
        let m1: Vec<f64> = vec![1.0; size * size];
        let m2: Vec<f64> = vec![2.0; size * size];
        let mut result: Vec<f64> = vec![0.0; size * size];
        for i in 0..size {
            for k in 0..size {
                let m1_ik = m1[i * size + k];
                for j in 0..size {
                    result[i * size + j] += m1_ik * m2[k * size + j];
                }
            }
        }
        let checksum: f64 = result.iter().sum();
        let exact = 2.0 * (size as f64).powi(3);
        assert!((checksum - exact).abs() <= 1e-6 * exact.max(1.0));
    }
}

#[test]
fn heavy_compute_rejects_bad_sizes() {
    assert_eq!(heavy_compute(-1), "Error: size must be between 0 and 1024");
    assert_eq!(heavy_compute(i32::MIN), "Error: size must be between 0 and 1024");
    assert_eq!(heavy_compute(1025), "Error: size must be between 0 and 1024");
}
