//! The Fibonacci numbers, computed by plain double recursion: a workload that
//! keeps a processor busy.

use vstd::prelude::*;

verus! {

/// The `n`th Fibonacci number.
pub open spec fn fib(n: nat) -> nat
    decreases n,
{
    if n < 2 {
        n
    } else {
        fib((n - 1) as nat) + fib((n - 2) as nat)
    }
}

/// Computes the `n`th Fibonacci number.
///
/// The largest `n` whose number fits is 93, see [`fib_fits_u64_up_to_93`].
pub fn fibonacci(n: u64) -> (result: u64)
    requires
        fib(n as nat) <= u64::MAX,
    ensures
        result == fib(n as nat),
    decreases n,
{
    if n == 0 || n == 1 {
        return n;
    }
    fibonacci(n - 1) + fibonacci(n - 2)
}

/// A later Fibonacci number is never smaller than an earlier one.
pub proof fn fib_is_monotonic(i: nat, j: nat)
    requires
        i <= j,
    ensures
        fib(i) <= fib(j),
    decreases j,
{
    if i < j {
        fib_is_monotonic(i, (j - 1) as nat);
    }
}

/// Carries a pair of neighbouring Fibonacci numbers ten places on.
proof fn lemma_fib_ten_on(n: nat)
    ensures
        fib(n + 10) == 34 * fib(n) + 55 * fib(n + 1),
        fib(n + 11) == 55 * fib(n) + 89 * fib(n + 1),
{
    assert(fib(n + 2) == fib(n) + fib(n + 1));
    assert(fib(n + 3) == fib(n + 1) + fib(n + 2));
    assert(fib(n + 4) == fib(n + 2) + fib(n + 3));
    assert(fib(n + 5) == fib(n + 3) + fib(n + 4));
    assert(fib(n + 6) == fib(n + 4) + fib(n + 5));
    assert(fib(n + 7) == fib(n + 5) + fib(n + 6));
    assert(fib(n + 8) == fib(n + 6) + fib(n + 7));
    assert(fib(n + 9) == fib(n + 7) + fib(n + 8));
    assert(fib(n + 10) == fib(n + 8) + fib(n + 9));
    assert(fib(n + 11) == fib(n + 9) + fib(n + 10));
}

/// The last Fibonacci number that fits in 64 bits, and the first that does not.
proof fn lemma_fib_93_and_94()
    ensures
        fib(93) == 12200160415121876738,
        fib(94) == 19740274219868223167,
{
    reveal_with_fuel(fib, 6);
    assert(fib(3) == 2 && fib(4) == 3);
    lemma_fib_ten_on(3);
    assert(fib(13) == 233 && fib(14) == 377);
    lemma_fib_ten_on(13);
    assert(fib(23) == 28657 && fib(24) == 46368);
    lemma_fib_ten_on(23);
    assert(fib(33) == 3524578 && fib(34) == 5702887);
    lemma_fib_ten_on(33);
    assert(fib(43) == 433494437 && fib(44) == 701408733);
    lemma_fib_ten_on(43);
    assert(fib(53) == 53316291173 && fib(54) == 86267571272);
    lemma_fib_ten_on(53);
    assert(fib(63) == 6557470319842 && fib(64) == 10610209857723);
    lemma_fib_ten_on(63);
    assert(fib(73) == 806515533049393 && fib(74) == 1304969544928657);
    lemma_fib_ten_on(73);
    assert(fib(83) == 99194853094755497 && fib(84) == 160500643816367088);
    lemma_fib_ten_on(83);
}

/// Exactly the Fibonacci numbers up to the 93rd fit in 64 bits.
pub proof fn fib_fits_u64_up_to_93(n: nat)
    ensures
        fib(n) <= u64::MAX <==> n <= 93,
{
    lemma_fib_93_and_94();
    if n <= 93 {
        fib_is_monotonic(n, 93);
    } else {
        fib_is_monotonic(94, n);
    }
}

/// The first two results are zero and one, and every other is the sum of the two before it.
pub proof fn results_add_up(n: u64, a: u64, b: u64, c: u64)
    requires
        n + 2 <= u64::MAX,
        call_ensures(fibonacci, (n,), a),
        call_ensures(fibonacci, ((n + 1) as u64,), b),
        call_ensures(fibonacci, ((n + 2) as u64,), c),
    ensures
        c == a + b,
        n == 0 ==> a == 0 && b == 1,
{
}

} // verus!
