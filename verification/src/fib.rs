use vstd::prelude::*;
use vstd::string::StringExecFns;
use crate::bignum::big_add;
use crate::bignum::big_from_u32;
use crate::bignum::big_to_decimal;
use crate::bignum::big_value;
use crate::clock::clock_start;
use crate::clock::elapsed_nanos;
use crate::decimal::dec_digits;
use crate::decimal::u64_to_decimal;
use num_bigint::BigUint;

verus! {

/// The Fibonacci sequence: 0, 1, and from there on the sum of the previous
/// two values.
pub open spec fn fib(n: nat) -> nat
    decreases n,
{
    if n == 0 {
        0
    } else if n == 1 {
        1
    } else {
        fib((n - 1) as nat) + fib((n - 2) as nat)
    }
}

/// Law: past the first two values, each Fibonacci number is the sum of the
/// previous two.
pub proof fn lemma_fib_recurrence(n: nat)
    requires
        2 <= n,
    ensures
        fib(n) == fib((n - 1) as nat) + fib((n - 2) as nat),
{
}

/// Law: the Fibonacci sequence is monotonically non-decreasing.
pub proof fn lemma_fib_monotone(m: nat, n: nat)
    requires
        m <= n,
    ensures
        fib(m) <= fib(n),
    decreases n,
{
    if m < n {
        if 2 <= n {
            lemma_fib_monotone(m, (n - 1) as nat);
            assert(fib(n) == fib((n - 1) as nat) + fib((n - 2) as nat));
        } else {
            assert(m == 0 && n == 1);
        }
    }
}

/// The Fibonacci value at `n`, computed iteratively in unbounded-precision
/// arithmetic.
pub fn fib_biguint(n: u32) -> (r: BigUint)
    ensures
        big_value(r) == fib(n as nat),
{
    if n <= 1 {
        big_from_u32(n)
    } else {
        let mut prev = big_from_u32(0);
        let mut current = big_from_u32(1);
        let mut i: u32 = 1;
        while i < n
            invariant
                1 <= i <= n,
                big_value(prev) == fib((i - 1) as nat),
                big_value(current) == fib(i as nat),
            decreases n - i,
        {
            let next = big_add(&prev, &current);
            prev = current;
            current = next;
            i = i + 1;
        }
        current
    }
}

/// The report `calculate_fibonacci` produces once the elapsed time is known:
/// the Fibonacci value and the time, each in decimal.
pub open spec fn fibonacci_report_spec(n: nat, elapsed_ns: nat) -> Seq<char> {
    "Result: "@ + dec_digits(fib(n)) + "\nTime taken: "@ + dec_digits(elapsed_ns) + "ns"@
}

fn fibonacci_report_of(value: &BigUint, elapsed_ns: u64) -> (r: String)
    ensures
        r@ == "Result: "@ + dec_digits(big_value(*value)) + "\nTime taken: "@ + dec_digits(
            elapsed_ns as nat,
        ) + "ns"@,
{
    let mut s = "Result: ".to_owned();
    s.append(big_to_decimal(value).as_str());
    s.append("\nTime taken: ");
    s.append(u64_to_decimal(elapsed_ns).as_str());
    s.append("ns");
    proof {
        assert(s@ =~= "Result: "@ + dec_digits(big_value(*value)) + "\nTime taken: "@
            + dec_digits(elapsed_ns as nat) + "ns"@);
    }
    s
}

/// The Fibonacci report for a given index and a given elapsed time.
pub fn fibonacci_report(n: u32, elapsed_ns: u64) -> (r: String)
    ensures
        r@ == fibonacci_report_spec(n as nat, elapsed_ns as nat),
{
    let value = fib_biguint(n);
    fibonacci_report_of(&value, elapsed_ns)
}

/// Computes the Fibonacci value at `n` and reports it together with the
/// wall-clock time the computation took.
pub fn calculate_fibonacci(n: u32) -> (r: String)
    ensures
        exists|t: nat| r@ == fibonacci_report_spec(n as nat, t),
{
    let start = clock_start();
    let value = fib_biguint(n);
    let t = elapsed_nanos(&start);
    let r = fibonacci_report_of(&value, t);
    proof {
        assert(r@ == fibonacci_report_spec(n as nat, t as nat));
    }
    r
}

} // verus!
