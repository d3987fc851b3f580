//! Fixed-width unsigned integers built from machine-word limbs, with
//! carry-propagating addition proved against the numbers the limb
//! vectors denote.
use vstd::arithmetic::power::{lemma_pow1, lemma_pow_adds, lemma_pow_positive, pow};
use vstd::prelude::*;

verus! {

/// A fixed-width unsigned limb: a machine integer with a known base,
/// overflow-reporting addition, and a carry injection.
pub trait BigNumOps: Sized + Copy {
    /// The number this limb holds.
    spec fn limb_value(self) -> nat;

    /// One more than the largest value a limb can hold.
    spec fn base() -> nat;

    proof fn lemma_value_below_base(self)
        ensures
            self.limb_value() < Self::base(),
            Self::base() >= 2,
    ;

    /// Addition that reports the carry out instead of wrapping silently.
    fn add_overflow(self, rhs: Self) -> (r: (Self, bool))
        ensures
            r.0.limb_value() + (if r.1 {
                Self::base() as int
            } else {
                0int
            }) == self.limb_value() + rhs.limb_value(),
    ;

    /// The limb holding zero.
    fn zero() -> (r: Self)
        ensures
            r.limb_value() == 0,
    ;

    /// A carry bit as a limb.
    fn from_carry(carry: bool) -> (r: Self)
        ensures
            r.limb_value() == (if carry {
                1nat
            } else {
                0nat
            }),
    ;
}

impl BigNumOps for u64 {
    open spec fn limb_value(self) -> nat {
        self as nat
    }

    open spec fn base() -> nat {
        0x1_0000_0000_0000_0000
    }

    proof fn lemma_value_below_base(self) {
    }

    fn add_overflow(self, rhs: Self) -> (r: (Self, bool)) {
        let sum: u128 = self as u128 + rhs as u128;
        if sum > u64::MAX as u128 {
            ((sum - 0x1_0000_0000_0000_0000u128) as u64, true)
        } else {
            (sum as u64, false)
        }
    }

    fn zero() -> (r: Self) {
        0u64
    }

    fn from_carry(carry: bool) -> (r: Self) {
        if carry {
            1u64
        } else {
            0u64
        }
    }
}

impl BigNumOps for u32 {
    open spec fn limb_value(self) -> nat {
        self as nat
    }

    open spec fn base() -> nat {
        0x1_0000_0000
    }

    proof fn lemma_value_below_base(self) {
    }

    fn add_overflow(self, rhs: Self) -> (r: (Self, bool)) {
        let sum: u64 = self as u64 + rhs as u64;
        if sum > u32::MAX as u64 {
            ((sum - 0x1_0000_0000u64) as u32, true)
        } else {
            (sum as u32, false)
        }
    }

    fn zero() -> (r: Self) {
        0u32
    }

    fn from_carry(carry: bool) -> (r: Self) {
        if carry {
            1u32
        } else {
            0u32
        }
    }
}

/// The number a limb vector denotes, least significant limb first.
pub open spec fn limbs_value<T: BigNumOps>(limbs: Seq<T>) -> int
    decreases limbs.len(),
{
    if limbs.len() == 0 {
        0
    } else {
        limbs_value(limbs.drop_last()) + limbs.last().limb_value() * pow(
            T::base() as int,
            (limbs.len() - 1) as nat,
        )
    }
}

proof fn lemma_limbs_value_nonneg<T: BigNumOps>(limbs: Seq<T>)
    ensures
        limbs_value(limbs) >= 0,
    decreases limbs.len(),
{
    if limbs.len() != 0 {
        lemma_limbs_value_nonneg(limbs.drop_last());
        limbs.last().lemma_value_below_base();
        lemma_pow_positive(T::base() as int, (limbs.len() - 1) as nat);
        let last: int = limbs.last().limb_value() as int;
        let p: int = pow(T::base() as int, (limbs.len() - 1) as nat);
        assert(last * p >= 0) by (nonlinear_arith)
            requires
                last >= 0,
                p >= 0,
        ;
    }
}

/// An unsigned integer of `N` limbs of type `T`.
#[derive(Clone, Copy, Debug, Eq, PartialEq)]
pub struct BigUint<T: BigNumOps, const N: usize> {
    pub limbs: [T; N],
}

impl<T: BigNumOps, const N: usize> BigUint<T, N> {
    /// The number this value denotes.
    pub open spec fn value(self) -> int {
        limbs_value(self.limbs@)
    }

    /// Zero.
    pub fn default() -> (r: Self)
        ensures
            r.value() == 0,
            forall|j: int| 0 <= j < N ==> #[trigger] r.limbs@[j].limb_value() == 0,
    {
        let r = BigUint::<T, N> { limbs: [T::zero(); N] };
        proof {
            lemma_zero_limbs_value::<T>(r.limbs@);
        }
        r
    }

    /// Limbwise addition with carry propagation.  The sum must fit in
    /// `N` limbs of base `T::base()`.
    pub fn add(self, rhs: Self) -> (r: Self)
        requires
            self.value() + rhs.value() < pow(T::base() as int, N as nat),
        ensures
            r.value() == self.value() + rhs.value(),
    {
        let mut out: BigUint<T, N> = Self::default();
        let mut carry: T = T::zero();
        let mut i: usize = 0;
        while i < N
            invariant
                0 <= i <= N,
                carry.limb_value() <= 1,
                limbs_value(out.limbs@.take(i as int)) + carry.limb_value() * pow(
                    T::base() as int,
                    i as nat,
                ) == limbs_value(self.limbs@.take(i as int)) + limbs_value(
                    rhs.limbs@.take(i as int),
                ),
            decreases N - i,
        {
            let ghost out_before: Seq<T> = out.limbs@;
            let ghost prefix_out: int = limbs_value(out.limbs@.take(i as int));
            let ghost prefix_a: int = limbs_value(self.limbs@.take(i as int));
            let ghost prefix_b: int = limbs_value(rhs.limbs@.take(i as int));
            let ghost p: int = pow(T::base() as int, i as nat);
            let ghost c: int = carry.limb_value() as int;
            let a_limb: T = self.limbs[i];
            let b_limb: T = rhs.limbs[i];
            let (sum1, o1) = a_limb.add_overflow(b_limb);
            let (sum2, o2) = sum1.add_overflow(carry);
            proof {
                a_limb.lemma_value_below_base();
                b_limb.lemma_value_below_base();
                sum1.lemma_value_below_base();
                sum2.lemma_value_below_base();
            }
            out.limbs[i] = sum2;
            carry = T::from_carry(o1 || o2);
            proof {
                let base: int = T::base() as int;
                let cn: int = carry.limb_value() as int;
                let s2: int = sum2.limb_value() as int;
                let a: int = a_limb.limb_value() as int;
                let b: int = b_limb.limb_value() as int;
                assert(sum1.limb_value() + (if o1 {
                    base
                } else {
                    0int
                }) == a + b);
                assert(s2 + (if o2 {
                    base
                } else {
                    0int
                }) == sum1.limb_value() + c);
                assert(!(o1 && o2));
                assert(s2 + cn * base == a + b + c);
                assert(out.limbs@.take(i as int) =~= out_before.take(i as int));
                lemma_prefix_step(out.limbs@, i as int);
                lemma_prefix_step(self.limbs@, i as int);
                lemma_prefix_step(rhs.limbs@, i as int);
                lemma_pow_positive(base, i as nat);
                lemma_pow_adds(base, i as nat, 1nat);
                lemma_pow1(base);
                assert(i as nat + 1nat == (i + 1) as nat);
                assert(pow(base, (i + 1) as nat) == p * base);
                assert(prefix_out + s2 * p + cn * (p * base) == prefix_a + a * p + prefix_b + b
                    * p) by (nonlinear_arith)
                    requires
                        s2 + cn * base == a + b + c,
                        prefix_out + c * p == prefix_a + prefix_b,
                ;
            }
            i = i + 1;
        }
        proof {
            assert(out.limbs@.take(N as int) =~= out.limbs@);
            assert(self.limbs@.take(N as int) =~= self.limbs@);
            assert(rhs.limbs@.take(N as int) =~= rhs.limbs@);
            lemma_limbs_value_nonneg(out.limbs@);
            carry.lemma_value_below_base();
            lemma_pow_positive(T::base() as int, N as nat);
            let p: int = pow(T::base() as int, N as nat);
            let c: int = carry.limb_value() as int;
            assert(c * p >= p ==> c >= 1 ==> true);
            if carry.limb_value() >= 1 {
                assert(c * p >= 1 * p) by (nonlinear_arith)
                    requires
                        c >= 1,
                        p > 0,
                ;
                assert(false);
            }
        }
        out
    }
}

/// A vector of zero limbs denotes zero.
proof fn lemma_zero_limbs_value<T: BigNumOps>(limbs: Seq<T>)
    requires
        forall|j: int| 0 <= j < limbs.len() ==> #[trigger] limbs[j].limb_value() == 0,
    ensures
        limbs_value(limbs) == 0,
    decreases limbs.len(),
{
    if limbs.len() != 0 {
        lemma_zero_limbs_value(limbs.drop_last());
        let p: int = pow(T::base() as int, (limbs.len() - 1) as nat);
        assert(limbs.last().limb_value() == 0);
        assert(0int * p == 0) by (nonlinear_arith);
    }
}

/// Extending a prefix by one limb adds that limb at its place value.
proof fn lemma_prefix_step<T: BigNumOps>(limbs: Seq<T>, i: int)
    requires
        0 <= i < limbs.len(),
    ensures
        limbs_value(limbs.take(i + 1)) == limbs_value(limbs.take(i)) + limbs[i].limb_value() * pow(
            T::base() as int,
            i as nat,
        ),
{
    assert(limbs.take(i + 1).drop_last() =~= limbs.take(i));
    assert(limbs.take(i + 1).last() == limbs[i]);
}

} // verus!
