//! Iterative Fibonacci numbers over `u64`, with a wrapping overflow policy,
//! and a renderer for the classic ten-line table of the first terms.
//!
//! The mathematical sequence is modelled by [`spec_fib`]; the executable
//! calculator [`fibonacci`] returns the sequence reduced modulo 2^64
//! ([`spec_calculator`]), which for every index up to 93 is the exact value.

use vstd::arithmetic::div_mod::{lemma_add_mod_noop, lemma_mod_bound, lemma_small_mod};
use vstd::prelude::*;

pub mod render;

verus! {

/// The Fibonacci sequence itself: F(0) = 0, F(1) = 1,
/// F(n) = F(n - 1) + F(n - 2) for n >= 2.
pub open spec fn spec_fib(n: nat) -> nat
    decreases n,
{
    if n == 0 {
        0
    } else if n == 1 {
        1
    } else {
        spec_fib((n - 1) as nat) + spec_fib((n - 2) as nat)
    }
}

/// What the executable calculator returns for index `n`: the n-th Fibonacci
/// number reduced modulo 2^64. Overflow policy: wrap. Every addition is
/// performed modulo 2^64, so for indices whose term exceeds `u64::MAX` the
/// low 64 bits of the true term are returned.
pub open spec fn spec_calculator(n: nat) -> u64 {
    (spec_fib(n) % 0x1_0000_0000_0000_0000) as u64
}

/// One wrapped addition step agrees with the next reduced term: adding the
/// reduced terms for n - 2 and n - 1 modulo 2^64 yields the reduced term for n.
proof fn lemma_wrap_step(n: nat)
    requires
        n >= 2,
    ensures
        spec_calculator((n - 2) as nat) + spec_calculator((n - 1) as nat)
            <= u64::MAX ==> spec_calculator(n) == spec_calculator((n - 2) as nat)
            + spec_calculator((n - 1) as nat),
        spec_calculator((n - 2) as nat) + spec_calculator((n - 1) as nat)
            > u64::MAX ==> spec_calculator(n) == spec_calculator((n - 2) as nat)
            + spec_calculator((n - 1) as nat) - 0x1_0000_0000_0000_0000,
{
    let m: int = 0x1_0000_0000_0000_0000;
    let x = spec_fib((n - 2) as nat) as int;
    let y = spec_fib((n - 1) as nat) as int;
    assert(spec_fib(n) == x + y);
    lemma_add_mod_noop(x, y, m);
    lemma_mod_bound(x, m);
    lemma_mod_bound(y, m);
    let s = x % m + y % m;
    if s < m {
        lemma_small_mod(s as nat, m as nat);
    } else {
        assert((s - m) % m == s % m) by {
            vstd::arithmetic::div_mod::lemma_mod_sub_multiples_vanish(s, m);
        }
        lemma_small_mod((s - m) as nat, m as nat);
    }
}

/// Returns the n-th Fibonacci number, computed iteratively in constant space.
///
/// Overflow policy: wrap. The result is always F(n) modulo 2^64; for every
/// index up to 93 — the largest whose term fits in a `u64` — that is F(n)
/// itself.
pub fn fibonacci(n: u64) -> (r: u64)
    ensures
        r == spec_calculator(n as nat),
        n <= 93 ==> r == spec_fib(n as nat),
{
    proof {
        if n <= 93 {
            lemma_fib_fits_u64(n as nat);
            lemma_small_mod(spec_fib(n as nat), 0x1_0000_0000_0000_0000);
        }
    }
    if n <= 1 {
        proof {
            lemma_small_mod(n as nat, 0x1_0000_0000_0000_0000);
        }
        return n;
    }
    let mut a: u64 = 0;
    let mut b: u64 = 1;
    let mut k: u64 = 1;
    proof {
        lemma_small_mod(0, 0x1_0000_0000_0000_0000);
        lemma_small_mod(1, 0x1_0000_0000_0000_0000);
    }
    while k < n
        invariant
            1 <= k <= n,
            a == spec_calculator((k - 1) as nat),
            b == spec_calculator(k as nat),
        decreases n - k,
    {
        let temp = a.wrapping_add(b);
        proof {
            lemma_wrap_step((k + 1) as nat);
        }
        a = b;
        b = temp;
        k = k + 1;
    }
    b
}

/// Every Fibonacci number with index at most 93 fits in a `u64`.
pub proof fn lemma_fib_fits_u64(n: nat)
    requires
        n <= 93,
    ensures
        spec_fib(n) <= u64::MAX,
{
    lemma_fib_monotonic(n, 93);
    // Walk the recurrence term by term up to F(93); each assertion unfolds
    // the definition once, using the two values already established.
    assert(spec_fib(93) == 12200160415121876738) by {
        assert(spec_fib(0) == 0);
        assert(spec_fib(1) == 1);
        assert(spec_fib(2) == 1);
        assert(spec_fib(3) == 2);
        assert(spec_fib(4) == 3);
        assert(spec_fib(5) == 5);
        assert(spec_fib(6) == 8);
        assert(spec_fib(7) == 13);
        assert(spec_fib(8) == 21);
        assert(spec_fib(9) == 34);
        assert(spec_fib(10) == 55);
        assert(spec_fib(11) == 89);
        assert(spec_fib(12) == 144);
        assert(spec_fib(13) == 233);
        assert(spec_fib(14) == 377);
        assert(spec_fib(15) == 610);
        assert(spec_fib(16) == 987);
        assert(spec_fib(17) == 1597);
        assert(spec_fib(18) == 2584);
        assert(spec_fib(19) == 4181);
        assert(spec_fib(20) == 6765);
        assert(spec_fib(21) == 10946);
        assert(spec_fib(22) == 17711);
        assert(spec_fib(23) == 28657);
        assert(spec_fib(24) == 46368);
        assert(spec_fib(25) == 75025);
        assert(spec_fib(26) == 121393);
        assert(spec_fib(27) == 196418);
        assert(spec_fib(28) == 317811);
        assert(spec_fib(29) == 514229);
        assert(spec_fib(30) == 832040);
        assert(spec_fib(31) == 1346269);
        assert(spec_fib(32) == 2178309);
        assert(spec_fib(33) == 3524578);
        assert(spec_fib(34) == 5702887);
        assert(spec_fib(35) == 9227465);
        assert(spec_fib(36) == 14930352);
        assert(spec_fib(37) == 24157817);
        assert(spec_fib(38) == 39088169);
        assert(spec_fib(39) == 63245986);
        assert(spec_fib(40) == 102334155);
        assert(spec_fib(41) == 165580141);
        assert(spec_fib(42) == 267914296);
        assert(spec_fib(43) == 433494437);
        assert(spec_fib(44) == 701408733);
        assert(spec_fib(45) == 1134903170);
        assert(spec_fib(46) == 1836311903);
        assert(spec_fib(47) == 2971215073);
        assert(spec_fib(48) == 4807526976);
        assert(spec_fib(49) == 7778742049);
        assert(spec_fib(50) == 12586269025);
        assert(spec_fib(51) == 20365011074);
        assert(spec_fib(52) == 32951280099);
        assert(spec_fib(53) == 53316291173);
        assert(spec_fib(54) == 86267571272);
        assert(spec_fib(55) == 139583862445);
        assert(spec_fib(56) == 225851433717);
        assert(spec_fib(57) == 365435296162);
        assert(spec_fib(58) == 591286729879);
        assert(spec_fib(59) == 956722026041);
        assert(spec_fib(60) == 1548008755920);
        assert(spec_fib(61) == 2504730781961);
        assert(spec_fib(62) == 4052739537881);
        assert(spec_fib(63) == 6557470319842);
        assert(spec_fib(64) == 10610209857723);
        assert(spec_fib(65) == 17167680177565);
        assert(spec_fib(66) == 27777890035288);
        assert(spec_fib(67) == 44945570212853);
        assert(spec_fib(68) == 72723460248141);
        assert(spec_fib(69) == 117669030460994);
        assert(spec_fib(70) == 190392490709135);
        assert(spec_fib(71) == 308061521170129);
        assert(spec_fib(72) == 498454011879264);
        assert(spec_fib(73) == 806515533049393);
        assert(spec_fib(74) == 1304969544928657);
        assert(spec_fib(75) == 2111485077978050);
        assert(spec_fib(76) == 3416454622906707);
        assert(spec_fib(77) == 5527939700884757);
        assert(spec_fib(78) == 8944394323791464);
        assert(spec_fib(79) == 14472334024676221);
        assert(spec_fib(80) == 23416728348467685);
        assert(spec_fib(81) == 37889062373143906);
        assert(spec_fib(82) == 61305790721611591);
        assert(spec_fib(83) == 99194853094755497);
        assert(spec_fib(84) == 160500643816367088);
        assert(spec_fib(85) == 259695496911122585);
        assert(spec_fib(86) == 420196140727489673);
        assert(spec_fib(87) == 679891637638612258);
        assert(spec_fib(88) == 1100087778366101931);
        assert(spec_fib(89) == 1779979416004714189);
        assert(spec_fib(90) == 2880067194370816120);
        assert(spec_fib(91) == 4660046610375530309);
        assert(spec_fib(92) == 7540113804746346429);
        assert(spec_fib(93) == 12200160415121876738);
    }
}

/// The calculator returns the index itself at the two base indices:
/// it yields 0 at index 0 and 1 at index 1, without entering the recurrence.
pub proof fn lemma_calculator_base(n: nat)
    requires
        n <= 1,
    ensures
        spec_calculator(n) == n,
{
    lemma_small_mod(n, 0x1_0000_0000_0000_0000);
}

/// Within the range free of overflow — indices up to 93 — the calculator
/// obeys the defining recurrence exactly: the sum of the two previous
/// results fits in a `u64` and equals the result at `n`.
pub proof fn lemma_calculator_recurrence(n: nat)
    requires
        2 <= n <= 93,
    ensures
        spec_calculator((n - 1) as nat) + spec_calculator((n - 2) as nat) <= u64::MAX,
        spec_calculator(n) == spec_calculator((n - 1) as nat) + spec_calculator((n - 2) as nat),
{
    lemma_fib_fits_u64(n);
    lemma_fib_fits_u64((n - 1) as nat);
    lemma_fib_fits_u64((n - 2) as nat);
    lemma_small_mod(spec_fib(n), 0x1_0000_0000_0000_0000);
    lemma_small_mod(spec_fib((n - 1) as nat), 0x1_0000_0000_0000_0000);
    lemma_small_mod(spec_fib((n - 2) as nat), 0x1_0000_0000_0000_0000);
    assert(spec_fib(n) == spec_fib((n - 1) as nat) + spec_fib((n - 2) as nat));
}

/// Within the range free of overflow the calculator never decreases:
/// for every index n from 1 up to 93 its result at n is at least its
/// result at n - 1.
pub proof fn lemma_calculator_monotonic(n: nat)
    requires
        1 <= n <= 93,
    ensures
        spec_calculator((n - 1) as nat) <= spec_calculator(n),
{
    lemma_fib_fits_u64(n);
    lemma_fib_fits_u64((n - 1) as nat);
    lemma_small_mod(spec_fib(n), 0x1_0000_0000_0000_0000);
    lemma_small_mod(spec_fib((n - 1) as nat), 0x1_0000_0000_0000_0000);
    lemma_fib_monotonic((n - 1) as nat, n);
}

/// The sequence is monotone over the mathematical model: F(i) <= F(j)
/// whenever i <= j.
pub proof fn lemma_fib_monotonic(i: nat, j: nat)
    requires
        i <= j,
    ensures
        spec_fib(i) <= spec_fib(j),
    decreases j,
{
    if i < j && j >= 2 {
        lemma_fib_monotonic(i, (j - 1) as nat);
        assert(spec_fib(j) == spec_fib((j - 1) as nat) + spec_fib((j - 2) as nat));
    } else if i < j {
        assert(j == 1 && i == 0);
    }
}

} // verus!
