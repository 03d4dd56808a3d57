//! Natural numbers of any size, held as base-2^32 digits.
//!
//! Only what exact power comparisons need is provided: multiplication by a
//! machine word, powers of a machine word, and the strict order.

use vstd::prelude::*;
use vstd::arithmetic::power::pow;

verus! {

/// The base of the digits.
spec fn radix() -> nat {
    0x1_0000_0000
}

/// `radix()` to the `k`-th power: the weight of the digit at position `k`.
spec fn weight(k: nat) -> nat
    decreases k,
{
    if k == 0 {
        1
    } else {
        radix() * weight((k - 1) as nat)
    }
}

/// The number that the digits stand for, least significant digit first.
spec fn digits_value(digits: Seq<u32>) -> nat
    decreases digits.len(),
{
    if digits.len() == 0 {
        0
    } else {
        digits_value(digits.drop_last()) + digits.last() as nat * weight(
            (digits.len() - 1) as nat,
        )
    }
}

/// Appending a digit adds it at the weight of its position.
proof fn lemma_value_push(digits: Seq<u32>, d: u32)
    ensures
        digits_value(digits.push(d)) == digits_value(digits) + d as nat * weight(digits.len()),
{
    assert(digits.push(d).drop_last() =~= digits);
}

/// The smaller of two integers.
spec fn spec_min(a: int, b: int) -> int {
    if a < b {
        a
    } else {
        b
    }
}

/// An exact natural number.
pub struct Natural {
    digits: Vec<u32>,
}

impl View for Natural {
    type V = nat;

    /// The number itself.
    closed spec fn view(&self) -> nat {
        digits_value(self.digits@)
    }
}

impl Natural {
    /// The number `x`.
    pub fn from_u32(x: u32) -> (r: Natural)
        ensures
            r@ == x,
    {
        let mut digits: Vec<u32> = Vec::new();
        digits.push(x);
        proof {
            lemma_value_push(Seq::<u32>::empty(), x);
            assert(digits@ =~= Seq::<u32>::empty().push(x));
            assert(digits_value(Seq::<u32>::empty()) == 0);
            assert(weight(Seq::<u32>::empty().len()) == 1);
        }
        Natural { digits }
    }

    /// The product of the number and `m`.
    pub fn mul_small(&self, m: u32) -> (r: Natural)
        ensures
            r@ == self@ * m,
    {
        let mut out: Vec<u32> = Vec::new();
        let mut carry: u64 = 0;
        let mut k: usize = 0;
        proof {
            assert(self.digits@.take(0) =~= Seq::<u32>::empty());
            assert(out@ =~= Seq::<u32>::empty());
            assert(digits_value(Seq::<u32>::empty()) == 0);
        }
        while k < self.digits.len()
            invariant
                k <= self.digits.len(),
                out.len() == k,
                carry < 0x1_0000_0000,
                digits_value(out@) + carry * weight(k as nat) == digits_value(
                    self.digits@.take(k as int),
                ) * m,
            decreases self.digits.len() - k,
        {
            let d: u32 = self.digits[k];
            assert(d as u64 * m as u64 + carry <= 0xFFFF_FFFF * 0x1_0000_0000) by (nonlinear_arith)
                requires
                    d <= 0xFFFF_FFFF,
                    m <= 0xFFFF_FFFF,
                    carry <= 0xFFFF_FFFF,
            ;
            let t: u64 = d as u64 * m as u64 + carry;
            let low: u64 = t % 0x1_0000_0000;
            let high: u64 = t / 0x1_0000_0000;
            proof {
                let w = weight(k as nat);
                let before = self.digits@.take(k as int);
                lemma_value_push(out@, low as u32);
                lemma_value_push(before, d);
                assert(self.digits@.take(k + 1) =~= before.push(d));
                assert(weight((k + 1) as nat) == radix() * w);
                assert(low * w + high * (radix() * w) == (d * m + carry) * w)
                    by (nonlinear_arith)
                    requires
                        low + high * radix() == d * m + carry,
                ;
                assert((digits_value(before) + d * w) * m == digits_value(before) * m + (d * m)
                    * w) by (nonlinear_arith);
                assert((d * m + carry) * w == (d * m) * w + carry * w) by (nonlinear_arith);
            }
            out.push(low as u32);
            carry = high;
            k = k + 1;
        }
        assert(self.digits@.take(k as int) =~= self.digits@);
        if carry > 0 {
            proof {
                lemma_value_push(out@, carry as u32);
            }
            out.push(carry as u32);
        }
        Natural { digits: out }
    }

    /// `base` to the power `exponent`.
    pub fn pow_small(base: u32, exponent: u32) -> (r: Natural)
        ensures
            r@ == pow(base as int, exponent as nat),
    {
        let mut r = Natural::from_u32(1);
        let mut k: u32 = 0;
        proof {
            reveal(pow);
        }
        while k < exponent
            invariant
                k <= exponent,
                r@ == pow(base as int, k as nat),
            decreases exponent - k,
        {
            proof {
                reveal(pow);
                assert(pow(base as int, (k + 1) as nat) == base * pow(base as int, k as nat));
                assert(base * pow(base as int, k as nat) == pow(base as int, k as nat) * base)
                    by (nonlinear_arith);
            }
            r = r.mul_small(base);
            k = k + 1;
        }
        r
    }

    /// Whether the number is strictly below `other`.
    pub fn lt(&self, other: &Natural) -> (below: bool)
        ensures
            below == (self@ < other@),
    {
        let n: usize = if self.digits.len() < other.digits.len() {
            other.digits.len()
        } else {
            self.digits.len()
        };
        let mut below = false;
        let mut k: usize = 0;
        proof {
            assert(self.digits@.take(0) =~= Seq::<u32>::empty());
            assert(other.digits@.take(0) =~= Seq::<u32>::empty());
            assert(digits_value(Seq::<u32>::empty()) == 0);
            assert(weight(0) == 1);
        }
        while k < n
            invariant
                k <= n,
                n >= self.digits.len(),
                n >= other.digits.len(),
                digits_value(self.digits@.take(spec_min(k as int, self.digits.len() as int)))
                    < weight(k as nat),
                digits_value(other.digits@.take(spec_min(k as int, other.digits.len() as int)))
                    < weight(k as nat),
                below == (digits_value(
                    self.digits@.take(spec_min(k as int, self.digits.len() as int)),
                ) < digits_value(
                    other.digits@.take(spec_min(k as int, other.digits.len() as int)),
                )),
            decreases n - k,
        {
            let x: u32 = if k < self.digits.len() {
                self.digits[k]
            } else {
                0
            };
            let y: u32 = if k < other.digits.len() {
                other.digits[k]
            } else {
                0
            };
            proof {
                let w = weight(k as nat);
                let a0 = self.digits@.take(spec_min(k as int, self.digits.len() as int));
                let b0 = other.digits@.take(spec_min(k as int, other.digits.len() as int));
                let a1 = self.digits@.take(spec_min(k + 1, self.digits.len() as int));
                let b1 = other.digits@.take(spec_min(k + 1, other.digits.len() as int));
                if k < self.digits.len() {
                    assert(a1 =~= a0.push(x));
                    lemma_value_push(a0, x);
                } else {
                    assert(a1 =~= a0);
                }
                if k < other.digits.len() {
                    assert(b1 =~= b0.push(y));
                    lemma_value_push(b0, y);
                } else {
                    assert(b1 =~= b0);
                }
                assert(digits_value(a1) == digits_value(a0) + x * w);
                assert(digits_value(b1) == digits_value(b0) + y * w);
                assert(weight((k + 1) as nat) == radix() * w);
                assert(x * w + w <= radix() * w) by (nonlinear_arith)
                    requires
                        x + 1 <= radix(),
                        w >= 0,
                ;
                assert(y * w + w <= radix() * w) by (nonlinear_arith)
                    requires
                        y + 1 <= radix(),
                        w >= 0,
                ;
                if x < y {
                    assert(x * w + w <= y * w) by (nonlinear_arith)
                        requires
                            x + 1 <= y,
                            w >= 0,
                    ;
                }
                if y < x {
                    assert(y * w + w <= x * w) by (nonlinear_arith)
                        requires
                            y + 1 <= x,
                            w >= 0,
                    ;
                }
            }
            below = x < y || (x == y && below);
            k = k + 1;
        }
        assert(self.digits@.take(self.digits.len() as int) =~= self.digits@);
        assert(other.digits@.take(other.digits.len() as int) =~= other.digits@);
        below
    }
}

} // verus!
