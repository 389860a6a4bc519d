use vstd::prelude::*;
use vstd::arithmetic::div_mod::lemma_div_pos_is_pos;
use vstd::arithmetic::div_mod::lemma_fundamental_div_mod_converse;
use vstd::arithmetic::div_mod::lemma_mod_bound;
use vstd::arithmetic::div_mod::lemma_multiply_divide_lt;

verus! {

/// Matrices are square, flat and row-major; sides are capped so that every
/// index and every sum in the benchmark fits its machine type.
pub const MAX_SIDE: usize = 1024;

/// How often the benchmark repeats the multiplication.
pub const REPEAT_COUNT: u64 = 1000;

/// The first `k` terms of the dot product of row `i` of `a` and column `j`
/// of `b`, both square matrices of side `size` stored flat in row-major
/// order.
pub open spec fn dot_prefix(a: Seq<u64>, b: Seq<u64>, size: nat, i: int, j: int, k: nat) -> int
    decreases k,
{
    if k == 0 {
        0
    } else {
        dot_prefix(a, b, size, i, j, (k - 1) as nat) + a[i * size + (k - 1)] * b[(k - 1) * size + j]
    }
}

/// Entry `(i, j)` of the matrix product of `a` and `b`.
pub open spec fn product_entry(a: Seq<u64>, b: Seq<u64>, size: nat, i: int, j: int) -> int {
    dot_prefix(a, b, size, i, j, size)
}

/// Entry at flat index `t` of the matrix product of `a` and `b`.
pub open spec fn entry_at(a: Seq<u64>, b: Seq<u64>, size: nat, t: int) -> int {
    product_entry(a, b, size, t / (size as int), t % (size as int))
}

/// The sum of the first `k` elements of `s`.
pub open spec fn sum_prefix(s: Seq<u64>, k: nat) -> int
    decreases k,
{
    if k == 0 {
        0
    } else {
        sum_prefix(s, (k - 1) as nat) + s[k - 1]
    }
}

/// The sum of all elements of `s`.
pub open spec fn matrix_checksum(s: Seq<u64>) -> int {
    sum_prefix(s, s.len())
}

/// The benchmark's checksum under exact arithmetic: every entry of the
/// product of an all-ones and an all-twos matrix is `2 * size`, and there
/// are `size * size` of them.
pub open spec fn heavy_checksum(size: nat) -> nat {
    2 * size * size * size
}

proof fn lemma_side_squared(size: nat)
    requires
        size <= MAX_SIDE,
    ensures
        size * size <= MAX_SIDE * MAX_SIDE,
{
    assert(size * size <= 1024 * 1024) by (nonlinear_arith)
        requires
            size <= 1024,
    ;
}

proof fn lemma_flat_index_bound(i: int, j: int, size: nat)
    requires
        0 <= i < size,
        0 <= j < size,
    ensures
        0 <= i * size + j < size * size,
{
    assert(i * size + j < size * size) by (nonlinear_arith)
        requires
            0 <= i < size,
            0 <= j < size,
    ;
    assert(0 <= i * size + j) by (nonlinear_arith)
        requires
            0 <= i,
            0 <= j,
    ;
}

proof fn lemma_dot_prefix_ones_twos(a: Seq<u64>, b: Seq<u64>, size: nat, i: int, j: int, k: nat)
    requires
        a.len() == size * size,
        b.len() == size * size,
        0 <= i < size,
        0 <= j < size,
        k <= size,
        forall|t: int| 0 <= t < a.len() ==> a[t] == 1,
        forall|t: int| 0 <= t < b.len() ==> b[t] == 2,
    ensures
        dot_prefix(a, b, size, i, j, k) == 2 * k,
    decreases k,
{
    if k > 0 {
        lemma_dot_prefix_ones_twos(a, b, size, i, j, (k - 1) as nat);
        lemma_flat_index_bound(i, k - 1, size);
        lemma_flat_index_bound(k - 1, j, size);
    }
}

proof fn lemma_sum_prefix_const(s: Seq<u64>, k: nat, c: int)
    requires
        k <= s.len(),
        forall|t: int| 0 <= t < s.len() ==> s[t] == c,
    ensures
        sum_prefix(s, k) == k * c,
    decreases k,
{
    if k > 0 {
        lemma_sum_prefix_const(s, (k - 1) as nat, c);
        let ki = k as int;
        assert(s[ki - 1] == c);
        assert(sum_prefix(s, k) == sum_prefix(s, (k - 1) as nat) + s[ki - 1]);
        assert(sum_prefix(s, (k - 1) as nat) == ((k - 1) as nat) * c);
        assert(((k - 1) as nat) * c == (ki - 1) * c);
        assert((ki - 1) * c + c == ki * c) by (nonlinear_arith);
    } else {
        assert((k as int) * c == 0) by (nonlinear_arith)
            requires
                k == 0,
        ;
    }
}

/// A square matrix of side `size`, stored flat, with every element `value`.
pub fn filled_matrix(value: u64, size: usize) -> (r: Vec<u64>)
    requires
        size <= MAX_SIDE,
    ensures
        r@.len() == size * size,
        forall|t: int| 0 <= t < r@.len() ==> r@[t] == value,
{
    proof {
        lemma_side_squared(size as nat);
    }
    let n = size * size;
    let mut r: Vec<u64> = Vec::new();
    let mut idx: usize = 0;
    while idx < n
        invariant
            idx <= n,
            r@.len() == idx,
            forall|t: int| 0 <= t < r@.len() ==> r@[t] == value,
        decreases n - idx,
    {
        r.push(value);
        idx = idx + 1;
    }
    r
}

fn dot_entry(a: &Vec<u64>, b: &Vec<u64>, size: usize, i: usize, j: usize) -> (r: u64)
    requires
        size <= MAX_SIDE,
        a@.len() == size * size,
        b@.len() == size * size,
        i < size,
        j < size,
        forall|t: int| 0 <= t < a@.len() ==> a@[t] <= 1024,
        forall|t: int| 0 <= t < b@.len() ==> b@[t] <= 1024,
    ensures
        r == product_entry(a@, b@, size as nat, i as int, j as int),
{
    proof {
        lemma_side_squared(size as nat);
    }
    let mut acc: u64 = 0;
    let mut k: usize = 0;
    while k < size
        invariant
            size <= MAX_SIDE,
            a@.len() == size * size,
            b@.len() == size * size,
            i < size,
            j < size,
            k <= size,
            size * size <= MAX_SIDE * MAX_SIDE,
            forall|t: int| 0 <= t < a@.len() ==> a@[t] <= 1024,
            forall|t: int| 0 <= t < b@.len() ==> b@[t] <= 1024,
            acc == dot_prefix(a@, b@, size as nat, i as int, j as int, k as nat),
            acc <= k * 1048576,
        decreases size - k,
    {
        proof {
            lemma_flat_index_bound(i as int, k as int, size as nat);
            lemma_flat_index_bound(k as int, j as int, size as nat);
            let x = a@[i * size + k] as int;
            let y = b@[k * size + j] as int;
            assert(0 <= x * y <= 1048576) by (nonlinear_arith)
                requires
                    0 <= x <= 1024,
                    0 <= y <= 1024,
            ;
        }
        let idx_a = i * size + k;
        let idx_b = k * size + j;
        acc = acc + a[idx_a] * b[idx_b];
        k = k + 1;
    }
    acc
}

/// The matrix product of `a` and `b`, both square of side `size` and stored
/// flat in row-major order. Exact integer arithmetic makes the accumulation
/// order unobservable, so each entry is computed in one pass over its row
/// and column.
pub fn mat_mul(a: &Vec<u64>, b: &Vec<u64>, size: usize) -> (r: Vec<u64>)
    requires
        size <= MAX_SIDE,
        a@.len() == size * size,
        b@.len() == size * size,
        forall|t: int| 0 <= t < a@.len() ==> a@[t] <= 1024,
        forall|t: int| 0 <= t < b@.len() ==> b@[t] <= 1024,
    ensures
        r@.len() == size * size,
        forall|t: int| 0 <= t < r@.len() ==> #[trigger] r@[t] == entry_at(a@, b@, size as nat, t),
{
    proof {
        lemma_side_squared(size as nat);
    }
    let mut r: Vec<u64> = Vec::new();
    let mut i: usize = 0;
    while i < size
        invariant
            size <= MAX_SIDE,
            a@.len() == size * size,
            b@.len() == size * size,
            i <= size,
            size * size <= MAX_SIDE * MAX_SIDE,
            forall|t: int| 0 <= t < a@.len() ==> a@[t] <= 1024,
            forall|t: int| 0 <= t < b@.len() ==> b@[t] <= 1024,
            r@.len() == i * size,
            forall|t: int|
                0 <= t < r@.len() ==> #[trigger] r@[t] == entry_at(a@, b@, size as nat, t),
        decreases size - i,
    {
        let mut j: usize = 0;
        while j < size
            invariant
                size <= MAX_SIDE,
                a@.len() == size * size,
                b@.len() == size * size,
                i < size,
                j <= size,
                size * size <= MAX_SIDE * MAX_SIDE,
                forall|t: int| 0 <= t < a@.len() ==> a@[t] <= 1024,
                forall|t: int| 0 <= t < b@.len() ==> b@[t] <= 1024,
                r@.len() == i * size + j,
                forall|t: int|
                    0 <= t < r@.len() ==> #[trigger] r@[t] == entry_at(a@, b@, size as nat, t),
            decreases size - j,
        {
            proof {
                lemma_flat_index_bound(i as int, j as int, size as nat);
                lemma_fundamental_div_mod_converse(
                    i * size + j,
                    size as int,
                    i as int,
                    j as int,
                );
            }
            let v = dot_entry(a, b, size, i, j);
            r.push(v);
            j = j + 1;
        }
        proof {
            assert(i * size + size == (i + 1) * size) by (nonlinear_arith);
        }
        i = i + 1;
    }
    r
}

/// The sum of all elements of `v`.
pub fn checksum_of(v: &Vec<u64>) -> (r: u64)
    requires
        v@.len() <= MAX_SIDE * MAX_SIDE,
        forall|t: int| 0 <= t < v@.len() ==> v@[t] <= 0x8000_0000,
    ensures
        r == matrix_checksum(v@),
{
    let mut acc: u64 = 0;
    let mut idx: usize = 0;
    let n = v.len();
    while idx < n
        invariant
            n == v@.len(),
            v@.len() <= MAX_SIDE * MAX_SIDE,
            idx <= n,
            forall|t: int| 0 <= t < v@.len() ==> v@[t] <= 0x8000_0000,
            acc == sum_prefix(v@, idx as nat),
            acc <= idx * 0x8000_0000,
        decreases n - idx,
    {
        acc = acc + v[idx];
        idx = idx + 1;
    }
    acc
}

/// Builds an all-ones and an all-twos matrix of side `size`, multiplies
/// them `REPEAT_COUNT` times, and sums the last product into a checksum,
/// which exact arithmetic pins to `2 * size^3`.
pub fn heavy_kernel(size: usize) -> (r: u64)
    requires
        size <= MAX_SIDE,
    ensures
        r == heavy_checksum(size as nat),
{
    proof {
        lemma_side_squared(size as nat);
    }
    let a = filled_matrix(1, size);
    let b = filled_matrix(2, size);
    let mut product = mat_mul(&a, &b, size);
    let mut iter: u64 = 1;
    while iter < REPEAT_COUNT
        invariant
            size <= MAX_SIDE,
            a@.len() == size * size,
            b@.len() == size * size,
            forall|t: int| 0 <= t < a@.len() ==> a@[t] == 1,
            forall|t: int| 0 <= t < b@.len() ==> b@[t] == 2,
            product@.len() == size * size,
            forall|t: int|
                0 <= t < product@.len() ==> #[trigger] product@[t] == entry_at(
                    a@,
                    b@,
                    size as nat,
                    t,
                ),
            iter <= REPEAT_COUNT,
        decreases REPEAT_COUNT - iter,
    {
        product = mat_mul(&a, &b, size);
        iter = iter + 1;
    }
    proof {
        lemma_side_squared(size as nat);
        assert forall|t: int| 0 <= t < product@.len() implies #[trigger] product@[t] == 2 * (
        size as int) by {
            lemma_div_pos_is_pos(t, size as int);
            lemma_multiply_divide_lt(t, size as int, size as int);
            lemma_mod_bound(t, size as int);
            lemma_dot_prefix_ones_twos(
                a@,
                b@,
                size as nat,
                t / (size as int),
                t % (size as int),
                size as nat,
            );
        }
        lemma_sum_prefix_const(product@, (size * size) as nat, 2 * (size as int));
        assert((size * size) * (2 * size) == 2 * size * size * size) by (nonlinear_arith);
    }
    let c = checksum_of(&product);
    c
}

} // verus!
