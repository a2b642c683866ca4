//! The pseudorandomness scheme: a resource that yields one number from
//! the kernel's entropy source, rendered as its decimal digits. Drawing
//! the number itself is the entropy source's affair; this module renders
//! whatever value it was handed.

use vstd::prelude::*;

verus! {

/// The decimal rendering of `n`: its digits as ASCII bytes, most
/// significant first, with no sign and no leading zero except for the
/// single digit of zero itself.
pub open spec fn decimal_digits(n: nat) -> Seq<u8>
    decreases n,
{
    if n < 10 {
        seq![(48 + n) as u8]
    } else {
        decimal_digits(n / 10).push((48 + n % 10) as u8)
    }
}

/// The scheme serving pseudorandom numbers.
pub struct RandomScheme;

impl RandomScheme {
    /// The name this scheme is registered under.
    pub fn scheme(&self) -> (r: &'static str)
        ensures
            r@ == "random"@,
    {
        "random"
    }

    /// The payload of a freshly opened resource: the decimal rendering
    /// of the drawn value, ready to be read out as bytes.
    pub fn open(&self, value: u64) -> (r: Vec<u8>)
        ensures
            r@ == decimal_digits(value as nat),
    {
        let mut rev: Vec<u8> = Vec::new();
        let mut n: u64 = value;
        rev.push(48 + (n % 10) as u8);
        proof {
            if n < 10 {
                assert(decimal_digits(value as nat) =~= rev@.reverse());
            } else {
                assert(rev@.reverse() =~= seq![(48 + (value as nat) % 10) as u8]);
                assert(decimal_digits(value as nat) =~= decimal_digits((value as nat) / 10)
                    + rev@.reverse());
            }
        }
        n = n / 10;
        while n != 0
            invariant
                n > 0 ==> decimal_digits(value as nat) == decimal_digits(n as nat)
                    + rev@.reverse(),
                n == 0 ==> decimal_digits(value as nat) == rev@.reverse(),
                rev@.len() >= 1,
            decreases n,
        {
            let d: u8 = 48 + (n % 10) as u8;
            proof {
                let old_rev = rev@;
                let m = n as nat;
                assert(old_rev.push(d).reverse() =~= seq![d] + old_rev.reverse());
                if m < 10 {
                    assert(decimal_digits(m) =~= seq![d] + Seq::<u8>::empty());
                    assert(decimal_digits(value as nat) =~= old_rev.push(d).reverse());
                } else {
                    assert(decimal_digits(m) =~= decimal_digits(m / 10).push(d));
                    assert(decimal_digits(m / 10).push(d) + old_rev.reverse() =~= decimal_digits(
                        m / 10,
                    ) + old_rev.push(d).reverse());
                    assert(decimal_digits(value as nat) =~= decimal_digits(m / 10) + old_rev.push(
                        d,
                    ).reverse());
                }
            }
            rev.push(d);
            n = n / 10;
        }
        let len = rev.len();
        let mut r: Vec<u8> = Vec::new();
        let mut i: usize = len;
        while i > 0
            invariant
                len == rev@.len(),
                i <= len,
                r@.len() == len - i,
                forall|k: int| 0 <= k < r@.len() ==> r@[k] == rev@.reverse()[k],
            decreases i,
        {
            r.push(rev[i - 1]);
            i = i - 1;
        }
        proof {
            assert(r@ =~= rev@.reverse());
        }
        r
    }
}

} // verus!
