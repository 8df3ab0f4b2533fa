//! Signed fixed-point amounts.
//!
//! Collateral, notional values and prices are unsigned `u128` amounts scaled
//! by the market's decimal factor; profit-and-loss and funding values can be
//! negative and are carried as an [`Integer`]: a sign together with an
//! unsigned magnitude.  The zero value is canonically non-negative, so that
//! structural equality coincides with mathematical equality.

use vstd::prelude::*;
use vstd::string::StringExecFns;

verus! {

/// A signed amount: a sign bit and an unsigned magnitude.
#[derive(Clone, Copy, Debug, PartialEq, Eq, Structural)]
pub struct Integer {
    pub negative: bool,
    pub value: u128,
}

/// Integer division truncating towards zero, over mathematical integers.
pub open spec fn div_towards_zero(a: int, b: int) -> int {
    let q = abs_int(a) / abs_int(b);
    if (a < 0) != (b < 0) {
        -q
    } else {
        q
    }
}

/// Absolute value over mathematical integers.
pub open spec fn abs_int(a: int) -> int {
    if a < 0 {
        -a
    } else {
        a
    }
}

/// The canonical `Integer` carrying a mathematical value within range.
pub open spec fn canonical_integer(v: int) -> Integer {
    if v >= 0 {
        Integer { negative: false, value: v as u128 }
    } else {
        Integer { negative: true, value: (-v) as u128 }
    }
}

impl Integer {
    /// The mathematical value represented.
    pub open spec fn as_int(self) -> int {
        if self.negative {
            -(self.value as int)
        } else {
            self.value as int
        }
    }

    /// Canonical form: a zero magnitude carries a positive sign.
    pub open spec fn well_formed(self) -> bool {
        self.value == 0 ==> !self.negative
    }

    pub fn zero() -> (r: Self)
        ensures
            r.as_int() == 0,
            r.well_formed(),
    {
        Integer { negative: false, value: 0 }
    }

    pub fn new_positive(value: u128) -> (r: Self)
        ensures
            r.as_int() == value as int,
            r.well_formed(),
    {
        Integer { negative: false, value }
    }

    pub fn new_negative(value: u128) -> (r: Self)
        ensures
            r.as_int() == -(value as int),
            r.well_formed(),
    {
        Integer { negative: value > 0, value }
    }

    pub fn is_zero(&self) -> (r: bool)
        ensures
            r == (self.as_int() == 0),
    {
        self.value == 0
    }

    pub fn is_negative(&self) -> (r: bool)
        requires
            self.well_formed(),
        ensures
            r == (self.as_int() < 0),
    {
        self.negative
    }

    pub fn is_positive(&self) -> (r: bool)
        requires
            self.well_formed(),
        ensures
            r == (self.as_int() > 0),
    {
        !self.negative && self.value > 0
    }

    /// The magnitude, with the sign discarded.
    pub fn abs(&self) -> (r: Self)
        ensures
            r.as_int() == abs_int(self.as_int()),
            r.well_formed(),
    {
        Integer { negative: false, value: self.value }
    }

    /// The negated value.
    pub fn invert_sign(&self) -> (r: Self)
        requires
            self.well_formed(),
        ensures
            r.as_int() == -self.as_int(),
            r.well_formed(),
    {
        if self.value == 0 {
            Integer { negative: false, value: 0 }
        } else {
            Integer { negative: !self.negative, value: self.value }
        }
    }

    /// Sum, or `None` when the magnitude of the result exceeds `u128::MAX`.
    pub fn checked_add(&self, other: &Self) -> (r: Option<Self>)
        requires
            self.well_formed(),
            other.well_formed(),
        ensures
            r is Some <==> abs_int(self.as_int() + other.as_int()) <= u128::MAX as int,
            r matches Some(v) ==> v.as_int() == self.as_int() + other.as_int() && v.well_formed(),
    {
        if self.negative == other.negative {
            match self.value.checked_add(other.value) {
                Some(sum) => Some(
                    Integer { negative: self.negative && sum > 0, value: sum },
                ),
                None => None,
            }
        } else if self.value >= other.value {
            let diff: u128 = self.value - other.value;
            Some(Integer { negative: self.negative && diff > 0, value: diff })
        } else {
            let diff: u128 = other.value - self.value;
            Some(Integer { negative: other.negative && diff > 0, value: diff })
        }
    }

    /// Difference, or `None` when the magnitude of the result exceeds
    /// `u128::MAX`.
    pub fn checked_sub(&self, other: &Self) -> (r: Option<Self>)
        requires
            self.well_formed(),
            other.well_formed(),
        ensures
            r is Some <==> abs_int(self.as_int() - other.as_int()) <= u128::MAX as int,
            r matches Some(v) ==> v.as_int() == self.as_int() - other.as_int() && v.well_formed(),
    {
        let negated: Integer = other.invert_sign();
        self.checked_add(&negated)
    }

    /// Product, or `None` when the magnitude of the result exceeds
    /// `u128::MAX`.
    pub fn checked_mul(&self, other: &Self) -> (r: Option<Self>)
        requires
            self.well_formed(),
            other.well_formed(),
        ensures
            r is Some <==> abs_int(self.as_int() * other.as_int()) <= u128::MAX as int,
            r matches Some(v) ==> v.as_int() == self.as_int() * other.as_int() && v.well_formed(),
    {
        proof {
            lemma_mul_sign_magnitude(self.as_int(), other.as_int(), self.value as int, other.value as int);
        }
        match self.value.checked_mul(other.value) {
            Some(product) => Some(
                Integer {
                    negative: (self.negative != other.negative) && product > 0,
                    value: product,
                },
            ),
            None => None,
        }
    }

    /// Quotient truncated towards zero, or `None` when `other` is zero.
    pub fn checked_div(&self, other: &Self) -> (r: Option<Self>)
        requires
            self.well_formed(),
            other.well_formed(),
        ensures
            r is Some <==> other.as_int() != 0,
            r matches Some(v) ==> v.as_int() == div_towards_zero(self.as_int(), other.as_int())
                && v.well_formed(),
    {
        if other.value == 0 {
            None
        } else {
            let q: u128 = self.value / other.value;
            Some(Integer { negative: (self.negative != other.negative) && q > 0, value: q })
        }
    }

    pub fn is_lt(&self, other: &Self) -> (r: bool)
        requires
            self.well_formed(),
            other.well_formed(),
        ensures
            r == (self.as_int() < other.as_int()),
    {
        if self.negative != other.negative {
            self.negative
        } else if self.negative {
            other.value < self.value
        } else {
            self.value < other.value
        }
    }

    pub fn is_le(&self, other: &Self) -> (r: bool)
        requires
            self.well_formed(),
            other.well_formed(),
        ensures
            r == (self.as_int() <= other.as_int()),
    {
        !other.is_lt(self)
    }

    pub fn is_gt(&self, other: &Self) -> (r: bool)
        requires
            self.well_formed(),
            other.well_formed(),
        ensures
            r == (self.as_int() > other.as_int()),
    {
        other.is_lt(self)
    }

    pub fn is_ge(&self, other: &Self) -> (r: bool)
        requires
            self.well_formed(),
            other.well_formed(),
        ensures
            r == (self.as_int() >= other.as_int()),
    {
        !self.is_lt(other)
    }
}

/// The character for one decimal digit.
pub open spec fn spec_digit(d: int) -> char {
    if d == 0 {
        '0'
    } else if d == 1 {
        '1'
    } else if d == 2 {
        '2'
    } else if d == 3 {
        '3'
    } else if d == 4 {
        '4'
    } else if d == 5 {
        '5'
    } else if d == 6 {
        '6'
    } else if d == 7 {
        '7'
    } else if d == 8 {
        '8'
    } else {
        '9'
    }
}

/// The decimal digits of a number, most significant first.
pub open spec fn spec_dec_digits(n: int) -> Seq<char>
    decreases n,
{
    if n < 10 {
        seq![spec_digit(n)]
    } else {
        spec_dec_digits(n / 10).push(spec_digit(n % 10))
    }
}

/// The decimal rendering of a signed value: a minus sign for a negative
/// value, then the digits of the magnitude.
pub open spec fn spec_int_string(v: Integer) -> Seq<char> {
    if v.negative {
        seq!['-'] + spec_dec_digits(v.value as int)
    } else {
        spec_dec_digits(v.value as int)
    }
}

/// One decimal digit as a string slice.
fn digit_str(d: u128) -> (r: &'static str)
    requires
        d < 10,
    ensures
        r@ == seq![spec_digit(d as int)],
{
    proof {
        reveal_strlit("0");
        reveal_strlit("1");
        reveal_strlit("2");
        reveal_strlit("3");
        reveal_strlit("4");
        reveal_strlit("5");
        reveal_strlit("6");
        reveal_strlit("7");
        reveal_strlit("8");
        reveal_strlit("9");
    }
    if d == 0 {
        "0"
    } else if d == 1 {
        "1"
    } else if d == 2 {
        "2"
    } else if d == 3 {
        "3"
    } else if d == 4 {
        "4"
    } else if d == 5 {
        "5"
    } else if d == 6 {
        "6"
    } else if d == 7 {
        "7"
    } else if d == 8 {
        "8"
    } else {
        "9"
    }
}

/// The decimal digits of a magnitude.
fn dec_string(n: u128) -> (r: String)
    ensures
        r@ == spec_dec_digits(n as int),
    decreases n,
{
    if n < 10 {
        String::from_str(digit_str(n))
    } else {
        let rest: u128 = n / 10;
        let last: u128 = n % 10;
        proof {
            assert(rest < n) by (nonlinear_arith)
                requires
                    n >= 10,
                    rest == n / 10,
            ;
        }
        dec_string(rest).concat(digit_str(last))
    }
}

impl Integer {
    /// The decimal rendering: a minus sign for a negative value, then the
    /// digits of the magnitude.
    pub fn to_string(&self) -> (r: String)
        ensures
            r@ == spec_int_string(*self),
    {
        proof {
            reveal_strlit("-");
        }
        let digits: String = dec_string(self.value);
        if self.negative {
            String::from_str("-").concat(digits.as_str())
        } else {
            digits
        }
    }
}

proof fn lemma_mul_sign_magnitude(a: int, b: int, ma: int, mb: int)
    requires
        ma == abs_int(a),
        mb == abs_int(b),
    ensures
        abs_int(a * b) == ma * mb,
        (a < 0) == (b < 0) ==> a * b == ma * mb,
        (a < 0) != (b < 0) ==> a * b == -(ma * mb),
{
    assert(abs_int(a * b) == ma * mb && ((a < 0) == (b < 0) ==> a * b == ma * mb) && ((a < 0)
        != (b < 0) ==> a * b == -(ma * mb))) by (nonlinear_arith)
        requires
            ma == abs_int(a),
            mb == abs_int(b),
    ;
}

} // verus!
