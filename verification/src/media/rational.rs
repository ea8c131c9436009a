//! Rational numbers for time bases and frame rates.

use vstd::prelude::*;
use vstd::string::StringExecFns;

verus! {

/// A numerator over a denominator, as they were given: nothing is reduced.
#[derive(Clone, Copy, Debug, PartialEq, Eq, Hash, Structural)]
pub struct Rational {
    pub num: i32,
    pub den: i32,
}

/// The decimal text of `v`.
pub uninterp spec fn decimal_text(v: int) -> Seq<char>;

/// `i32::to_string`: the decimal text of a number, which depends on the
/// number alone.
#[verifier::external_body]
fn decimal(v: i32) -> (s: String)
    ensures
        s@ == decimal_text(v as int),
{
    v.to_string()
}

impl Rational {
    /// The rational `num / den`. There is none with a zero denominator.
    pub fn new(num: i32, den: i32) -> (r: Rational)
        requires
            den != 0,
        ensures
            r.num == num,
            r.den == den,
    {
        Rational { num, den }
    }

    /// The rational with numerator and denominator exchanged. Zero has no
    /// inverse.
    pub fn invert(self) -> (r: Rational)
        requires
            self.num != 0,
        ensures
            r.num == self.den,
            r.den == self.num,
    {
        Rational { num: self.den, den: self.num }
    }

    /// Numerator and denominator in decimal, with a slash between them.
    pub fn to_string(&self) -> (s: String)
        ensures
            s@ == decimal_text(self.num as int) + seq!['/'] + decimal_text(self.den as int),
    {
        let mut s = decimal(self.num);
        let den = decimal(self.den);
        proof {
            reveal_strlit("/");
        }
        s.append("/");
        s.append(den.as_str());
        s
    }
}

impl From<i32> for Rational {
    /// The whole number `num`, over one.
    fn from(num: i32) -> (r: Rational) {
        Rational { num, den: 1 }
    }
}

impl vstd::std_specs::convert::FromSpecImpl<i32> for Rational {
    open spec fn obeys_from_spec() -> bool {
        true
    }

    open spec fn from_spec(num: i32) -> Rational {
        Rational { num, den: 1 }
    }
}

} // verus!
