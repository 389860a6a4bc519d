use vstd::prelude::*;
use vstd::string::StringExecFns;
use crate::clock::clock_start;
use crate::clock::elapsed_nanos;
use crate::decimal::dec_digits;
use crate::decimal::u64_to_decimal;
use crate::matrix::heavy_checksum;
use crate::matrix::heavy_kernel;

verus! {

/// The report `heavy_compute` produces once the elapsed time is known: the
/// checksum (an exact integer, printed with two decimal places), the total
/// time, and the per-iteration average.
pub open spec fn heavy_report_spec(size: nat, elapsed_ns: nat) -> Seq<char> {
    "Checksum: "@ + dec_digits(heavy_checksum(size)) + ".00\nTime taken for 1000 iterations: "@
        + dec_digits(elapsed_ns) + "ns\nAverage time per iteration: "@ + dec_digits(
        elapsed_ns / 1000,
    ) + "ns"@
}

/// The report `heavy_compute` produces when the side length is rejected.
pub open spec fn heavy_size_error() -> Seq<char> {
    "Error: size must be between 0 and 1024"@
}

fn heavy_report_of(checksum: u64, elapsed_ns: u64) -> (r: String)
    ensures
        r@ == "Checksum: "@ + dec_digits(checksum as nat)
            + ".00\nTime taken for 1000 iterations: "@ + dec_digits(elapsed_ns as nat)
            + "ns\nAverage time per iteration: "@ + dec_digits((elapsed_ns / 1000) as nat)
            + "ns"@,
{
    let mut s = "Checksum: ".to_owned();
    s.append(u64_to_decimal(checksum).as_str());
    s.append(".00\nTime taken for 1000 iterations: ");
    s.append(u64_to_decimal(elapsed_ns).as_str());
    s.append("ns\nAverage time per iteration: ");
    s.append(u64_to_decimal(elapsed_ns / 1000).as_str());
    s.append("ns");
    proof {
        assert(s@ =~= "Checksum: "@ + dec_digits(checksum as nat)
            + ".00\nTime taken for 1000 iterations: "@ + dec_digits(elapsed_ns as nat)
            + "ns\nAverage time per iteration: "@ + dec_digits((elapsed_ns / 1000) as nat)
            + "ns"@);
    }
    s
}

/// The benchmark report for a given side length and a given elapsed time.
pub fn heavy_report(size: i32, elapsed_ns: u64) -> (r: String)
    requires
        0 <= size <= 1024,
    ensures
        r@ == heavy_report_spec(size as nat, elapsed_ns as nat),
{
    let c = heavy_kernel(size as usize);
    heavy_report_of(c, elapsed_ns)
}

/// Runs the matrix-multiplication benchmark for side length `size` and
/// reports its checksum together with the wall-clock time it took. A side
/// length that is negative or too large for exact arithmetic is rejected
/// with a descriptive report instead.
pub fn heavy_compute(size: i32) -> (r: String)
    ensures
        0 <= size <= 1024 ==> exists|t: nat| r@ == #[trigger] heavy_report_spec(size as nat, t),
        !(0 <= size <= 1024) ==> r@ == heavy_size_error(),
{
    if size < 0 || size > 1024 {
        return "Error: size must be between 0 and 1024".to_owned();
    }
    let start = clock_start();
    let c = heavy_kernel(size as usize);
    let t = elapsed_nanos(&start);
    let r = heavy_report_of(c, t);
    proof {
        assert(r@ == heavy_report_spec(size as nat, t as nat));
    }
    r
}

} // verus!
