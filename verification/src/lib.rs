pub mod bench;
pub mod bignum;
pub mod clock;
pub mod decimal;
pub mod fib;
pub mod matrix;
pub mod text;

pub use bench::heavy_compute;
pub use bench::heavy_report;
pub use fib::calculate_fibonacci;
pub use fib::fibonacci_report;
pub use text::greet;
