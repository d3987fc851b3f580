//! Temperature conversions and Fibonacci numbers.
use vstd::prelude::*;

verus! {

/// Celsius-to-Fahrenheit conversion, with the intermediate division
/// truncated toward zero as the executable integer division truncates.
pub open spec fn spec_celcius2fahrenheit(celcius: int) -> int {
    if celcius >= 0 {
        celcius * 9 / 5 + 32
    } else {
        32 - (-celcius) * 9 / 5
    }
}

/// Fahrenheit-to-Celsius conversion, truncated toward zero.
pub open spec fn spec_fahrenheit2celcius(fahrenheit: int) -> int {
    if fahrenheit >= 32 {
        (fahrenheit - 32) * 5 / 9
    } else {
        -((32 - fahrenheit) * 5 / 9)
    }
}

pub fn celcius2fahrenheit(celcius: i32) -> (r: i32)
    requires
        i32::MIN <= spec_celcius2fahrenheit(celcius as int),
        spec_celcius2fahrenheit(celcius as int) <= i32::MAX,
    ensures
        r == spec_celcius2fahrenheit(celcius as int),
{
    if celcius >= 0 {
        let t: u64 = (celcius as u64) * 9 / 5;
        (t as i32) + 32
    } else {
        let m: u64 = (-(celcius as i64)) as u64;
        let t: i64 = 32 - ((m * 9 / 5) as i64);
        t as i32
    }
}

pub fn fahrenheit2celcius(fahrenheit: i32) -> (r: i32)
    ensures
        r == spec_fahrenheit2celcius(fahrenheit as int),
{
    if fahrenheit >= 32 {
        let d: u64 = (fahrenheit as u64) - 32;
        let t: u64 = d * 5 / 9;
        t as i32
    } else {
        let d: u64 = (32 - (fahrenheit as i64)) as u64;
        let t: u64 = d * 5 / 9;
        -(t as i32)
    }
}

/// The Fibonacci sequence: 0, 1, 1, 2, 3, 5, ...
pub open spec fn fib(n: nat) -> nat
    decreases n,
{
    if n == 0 {
        0
    } else if n == 1 {
        1
    } else {
        fib((n - 2) as nat) + fib((n - 1) as nat)
    }
}

/// The Fibonacci sequence never decreases as its index grows.
pub proof fn lemma_fib_is_monotonic(i: nat, j: nat)
    requires
        i <= j,
    ensures
        fib(i) <= fib(j),
    decreases j - i,
{
    if i == j || j < 2 {
    } else if i + 1 == j {
        reveal_with_fuel(fib, 2);
        lemma_fib_is_monotonic(i, (j - 1) as nat);
    } else {
        lemma_fib_is_monotonic(i, (j - 1) as nat);
        lemma_fib_is_monotonic(i, (j - 2) as nat);
    }
}

pub fn fibonacci_loop(n: u32) -> (r: u64)
    requires
        fib(n as nat) <= u64::MAX,
    ensures
        r == fib(n as nat),
{
    if n == 0 {
        0u64
    } else if n == 1 {
        1u64
    } else {
        let mut res: u64 = 0;
        let mut a: u64 = 0;
        let mut b: u64 = 1;
        let mut i: u64 = 2;
        while i <= n as u64
            invariant
                2 <= i <= n as u64 + 1,
                n >= 2,
                fib(n as nat) <= u64::MAX,
                a == fib((i - 2) as nat),
                b == fib((i - 1) as nat),
                res == if i == 2 { 0int } else { fib((i - 1) as nat) as int },
            decreases n as u64 + 1 - i,
        {
            proof {
                lemma_fib_is_monotonic(i as nat, n as nat);
            }
            res = a + b;
            a = b;
            b = res;
            i = i + 1;
        }
        res
    }
}

pub fn fibonacci_rec(n: u32) -> (r: u64)
    requires
        fib(n as nat) <= u64::MAX,
    ensures
        r == fib(n as nat),
    decreases n,
{
    if n == 0 {
        0u64
    } else if n == 1 {
        1u64
    } else {
        proof {
            lemma_fib_is_monotonic((n - 1) as nat, n as nat);
            lemma_fib_is_monotonic((n - 2) as nat, n as nat);
        }
        fibonacci_rec(n - 1) + fibonacci_rec(n - 2)
    }
}

} // verus!
