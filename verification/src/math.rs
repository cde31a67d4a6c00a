//! Small arithmetic helpers: sums, products, factorials and the
//! Pingala (Fibonacci) series.

use vstd::prelude::*;

verus! {

/// Sum of two machine integers.
pub fn add(a: i32, b: i32) -> (r: i32)
    requires
        i32::MIN <= a + b <= i32::MAX,
    ensures
        r == a + b,
{
    a + b
}

/// Product of two machine integers.
pub fn multiply(a: i32, b: i32) -> (r: i32)
    requires
        i32::MIN <= a * b <= i32::MAX,
    ensures
        r == a * b,
{
    a * b
}

/// Mathematical factorial; arguments at or below zero give the empty product.
pub open spec fn fact(n: int) -> int
    decreases n,
{
    if n <= 0 {
        1
    } else {
        n * fact(n - 1)
    }
}

pub proof fn lemma_fact_pos(n: int)
    ensures
        fact(n) >= 1,
    decreases n,
{
    if n > 0 {
        lemma_fact_pos(n - 1);
        assert(n * fact(n - 1) >= 1 * fact(n - 1)) by (nonlinear_arith)
            requires
                n >= 1,
                fact(n - 1) >= 1,
        ;
    }
}

pub proof fn lemma_fact_mono(a: int, b: int)
    requires
        a <= b,
    ensures
        fact(a) <= fact(b),
    decreases b - a,
{
    if a < b {
        lemma_fact_mono(a, b - 1);
        lemma_fact_pos(b - 1);
        if b > 0 {
            assert(1 * fact(b - 1) <= b * fact(b - 1)) by (nonlinear_arith)
                requires
                    b >= 1,
                    fact(b - 1) >= 1,
            ;
        }
    }
}

proof fn lemma_fact_12()
    ensures
        fact(12) == 479001600,
{
    reveal_with_fuel(fact, 13);
}

/// Factorial of `n`, the product of `1..=n`.
pub fn factorial(n: i32) -> (r: i32)
    requires
        n <= 12,
    ensures
        r == fact(n as int),
    decreases n,
{
    if n <= 0 {
        1
    } else {
        let rest = factorial(n - 1);
        proof {
            lemma_fact_pos(n - 1);
            lemma_fact_mono(n as int, 12);
            lemma_fact_12();
            assert(n * fact(n - 1) == fact(n as int));
        }
        n * rest
    }
}

/// `fact(a) * fact(b) <= fact(a + b)`: a binomial coefficient is at least one.
pub proof fn lemma_fact_product(a: int, b: int)
    requires
        a >= 0,
        b >= 0,
    ensures
        fact(a) * fact(b) <= fact(a + b),
    decreases b,
{
    if b == 0 {
        lemma_fact_pos(a);
    } else {
        lemma_fact_product(a, b - 1);
        lemma_fact_pos(a);
        lemma_fact_pos(b - 1);
        lemma_fact_pos(a + b - 1);
        assert(fact(a) * fact(b) <= fact(a + b)) by (nonlinear_arith)
            requires
                b >= 1,
                fact(b) == b * fact(b - 1),
                fact(a + b) == (a + b) * fact(a + b - 1),
                fact(a) * fact(b - 1) <= fact(a + b - 1),
                fact(a) >= 1,
                fact(b - 1) >= 1,
                fact(a + b - 1) >= 1,
                a >= 0,
        ;
    }
}

/// Number of ordered arrangements of `r` items drawn from `n`.
pub fn permutations(n: i32, r: i32) -> (p: i32)
    requires
        0 <= r <= n <= 12,
    ensures
        p == fact(n as int) / fact(n as int - r),
{
    let f_n = factorial(n);
    let f_nr = factorial(n - r);
    proof {
        lemma_fact_pos(n as int);
        lemma_fact_pos(n as int - r);
        vstd::arithmetic::div_mod::lemma_div_pos_is_pos(fact(n as int), fact(n as int - r));
        vstd::arithmetic::div_mod::lemma_div_nonincreasing(fact(n as int), fact(n as int - r));
    }
    f_n / f_nr
}

/// Number of unordered selections of `r` items drawn from `n`.
pub fn combinations(n: i32, r: i32) -> (c: i32)
    requires
        0 <= r <= n <= 12,
    ensures
        c == fact(n as int) / (fact(r as int) * fact(n as int - r)),
{
    let f_n = factorial(n);
    let f_r = factorial(r);
    let f_nr = factorial(n - r);
    proof {
        lemma_fact_pos(n as int);
        lemma_fact_pos(r as int);
        lemma_fact_pos(n as int - r);
        lemma_fact_product(r as int, n as int - r);
        lemma_fact_mono(n as int, 12);
        lemma_fact_12();
        assert(fact(r as int) * fact(n as int - r) >= 1) by (nonlinear_arith)
            requires
                fact(r as int) >= 1,
                fact(n as int - r) >= 1,
        ;
        vstd::arithmetic::div_mod::lemma_div_pos_is_pos(
            fact(n as int),
            fact(r as int) * fact(n as int - r),
        );
        vstd::arithmetic::div_mod::lemma_div_nonincreasing(
            fact(n as int),
            fact(r as int) * fact(n as int - r),
        );
    }
    let denom = f_r * f_nr;
    f_n / denom
}

/// The pair `(x, y)` ordered so the smaller member comes first.
pub fn min_max_swap(x: i32, y: i32) -> (r: (i32, i32))
    ensures
        r == if x < y {
            (x, y)
        } else {
            (y, x)
        },
        r.0 <= r.1,
{
    if x < y {
        (x, y)
    } else {
        (y, x)
    }
}

/// The Pingala (Fibonacci) sequence: 0, 1, 1, 2, 3, ...
pub open spec fn fib(n: int) -> nat
    decreases n,
{
    if n <= 0 {
        0
    } else if n == 1 {
        1
    } else {
        fib(n - 2) + fib(n - 1)
    }
}

pub proof fn lemma_fib_mono(a: int, b: int)
    requires
        0 <= a <= b,
    ensures
        fib(a) <= fib(b),
    decreases b - a,
{
    if a < b {
        lemma_fib_mono(a, b - 1);
    }
}

/// The first `n` Pingala numbers, in order.
pub fn pingala(n: usize) -> (r: Vec<u64>)
    requires
        n > 0 ==> fib(n as int - 1) <= u64::MAX,
    ensures
        r@.len() == n,
        forall|i: int| 0 <= i < n ==> r@[i] == fib(i),
{
    let mut fib_v: Vec<u64> = Vec::with_capacity(n);
    if n == 0 {
        return fib_v;
    }
    fib_v.push(0);
    if n == 1 {
        return fib_v;
    }
    fib_v.push(1);

    for i in 2..n
        invariant
            2 <= i <= n,
            fib_v@.len() == i,
            forall|j: int| 0 <= j < i ==> fib_v@[j] == fib(j),
            fib(n as int - 1) <= u64::MAX,
    {
        proof {
            assert(fib_v@[i as int - 1] == fib(i as int - 1));
            assert(fib_v@[i as int - 2] == fib(i as int - 2));
            lemma_fib_mono(i as int, n as int - 1);
            assert(fib(i as int) == fib(i as int - 2) + fib(i as int - 1));
            assert(fib(i as int) <= u64::MAX);
        }
        let next = fib_v[i - 1] + fib_v[i - 2];
        fib_v.push(next);
    }
    fib_v
}

/// Square of a machine integer.
pub fn square(x: i32) -> (r: i32)
    requires
        i32::MIN <= x * x <= i32::MAX,
    ensures
        r == x * x,
{
    x * x
}

/// Appends the fixed element `32` to the vector.
pub fn add_one(numbers: &mut Vec<i32>)
    ensures
        final(numbers)@ == old(numbers)@.push(32),
{
    numbers.push(32);
}

} // verus!
