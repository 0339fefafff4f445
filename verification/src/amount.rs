//! Fixed-point decimal amounts: a 96-bit magnitude, a sign and a scale.

use vstd::prelude::*;
use vstd::arithmetic::power::pow;
use vstd::std_specs::cmp::PartialEqSpecImpl;
use crate::decimal::greater_or_equal;

verus! {

/// The largest number of fractional digits an amount can carry.
pub const MAX_SCALE: u32 = 28;

/// The mathematical content of an [`Amount`]: the number
/// `±magnitude / 10^scale`, with the sign kept apart so that a zero may
/// carry one.
pub struct AmountView {
    pub negative: bool,
    pub magnitude: nat,
    pub scale: nat,
}

impl AmountView {
    /// The magnitude with its sign applied.
    pub open spec fn signed(self) -> int {
        if self.negative {
            -(self.magnitude as int)
        } else {
            self.magnitude as int
        }
    }

    pub open spec fn is_zero(self) -> bool {
        self.magnitude == 0
    }

    /// `self >= other` as numbers: both sides are brought to a common
    /// denominator.
    pub open spec fn at_least(self, other: AmountView) -> bool {
        self.signed() * pow(10, other.scale) >= other.signed() * pow(10, self.scale)
    }

    /// `self == other` as numbers, whatever their scales.
    pub open spec fn same_value(self, other: AmountView) -> bool {
        self.signed() * pow(10, other.scale) == other.signed() * pow(10, self.scale)
    }

    /// The same number with the sign of a zero cleared.
    pub open spec fn normalized(self) -> AmountView {
        if self.magnitude == 0 {
            AmountView { negative: false, magnitude: 0, scale: self.scale }
        } else {
            self
        }
    }
}

/// A decimal number `±m / 10^scale`, where `m` is the 96-bit magnitude
/// `lo + mid * 2^32 + hi * 2^64` and `scale` is at most [`MAX_SCALE`].
#[derive(Clone, Copy, Debug)]
pub struct Amount {
    pub(crate) lo: u32,
    pub(crate) mid: u32,
    pub(crate) hi: u32,
    pub(crate) negative: bool,
    pub(crate) scale: u32,
}

/// The magnitude that three 32-bit limbs spell, least significant first.
pub open spec fn limbs_value(lo: u32, mid: u32, hi: u32) -> nat {
    (lo + mid * 0x1_0000_0000 + hi * 0x1_0000_0000_0000_0000) as nat
}

impl View for Amount {
    type V = AmountView;

    closed spec fn view(&self) -> AmountView {
        AmountView {
            negative: self.negative,
            magnitude: limbs_value(self.lo, self.mid, self.hi),
            scale: self.scale as nat,
        }
    }
}

/// The view of an optional amount.
pub open spec fn viewed(r: Option<Amount>) -> Option<AmountView> {
    match r {
        Some(v) => Some(v@),
        None => None,
    }
}

impl Amount {
    #[verifier::type_invariant]
    pub(crate) open spec fn well_formed(self) -> bool {
        self.scale <= MAX_SCALE
    }

    /// The amount `units / 10^scale`; `None` when `scale` exceeds
    /// [`MAX_SCALE`].
    pub fn new(units: i64, scale: u32) -> (r: Option<Amount>)
        ensures
            r is Some <==> scale <= MAX_SCALE,
            r matches Some(a) ==> a@ == (AmountView {
                negative: units < 0,
                magnitude: vstd::math::abs(units as int) as nat,
                scale: scale as nat,
            }),
    {
        if scale > MAX_SCALE {
            return None;
        }
        let m: u64 = if units >= 0 {
            units as u64
        } else if units == i64::MIN {
            0x8000_0000_0000_0000
        } else {
            (-units) as u64
        };
        let lo: u32 = (m & 0xffff_ffff) as u32;
        let mid: u32 = (m >> 32) as u32;
        assert(m == (m & 0xffff_ffff) + (m >> 32) * 0x1_0000_0000) by (bit_vector);
        assert(m & 0xffff_ffff <= 0xffff_ffff) by (bit_vector);
        assert(m >> 32 <= 0xffff_ffff) by (bit_vector);
        Some(Amount { lo, mid, hi: 0, negative: units < 0, scale })
    }

    /// Zero with one fractional digit, the balance of a fresh account.
    pub fn zero() -> (r: Amount)
        ensures
            r@ == (AmountView { negative: false, magnitude: 0, scale: 1 }),
    {
        Amount { lo: 0, mid: 0, hi: 0, negative: false, scale: 1 }
    }

    /// One, written with one fractional digit.
    pub fn one() -> (r: Amount)
        ensures
            r@ == (AmountView { negative: false, magnitude: 10, scale: 1 }),
    {
        Amount { lo: 10, mid: 0, hi: 0, negative: false, scale: 1 }
    }

    /// Minus one, written with one fractional digit.
    pub fn minus_one() -> (r: Amount)
        ensures
            r@ == (AmountView { negative: true, magnitude: 10, scale: 1 }),
    {
        Amount { lo: 10, mid: 0, hi: 0, negative: true, scale: 1 }
    }

    /// Whether the sign is set; a zero may carry one.
    pub fn is_sign_negative(&self) -> (r: bool)
        ensures
            r == self@.negative,
    {
        self.negative
    }

    /// The number of fractional digits.
    pub fn scale(&self) -> (r: u32)
        ensures
            r == self@.scale,
            r <= MAX_SCALE,
    {
        proof {
            use_type_invariant(self);
        }
        self.scale
    }

    /// Whether the magnitude is zero.
    pub fn is_zero(&self) -> (r: bool)
        ensures
            r == self@.is_zero(),
    {
        self.lo == 0 && self.mid == 0 && self.hi == 0
    }

    /// The five parts: the limbs of the magnitude from the least
    /// significant, the sign and the scale.
    pub fn parts(&self) -> (r: (u32, u32, u32, bool, u32))
        ensures
            limbs_value(r.0, r.1, r.2) == self@.magnitude,
            r.3 == self@.negative,
            r.4 == self@.scale,
    {
        (self.lo, self.mid, self.hi, self.negative, self.scale)
    }

    /// Builds an amount from its five parts; `None` when `scale` exceeds
    /// [`MAX_SCALE`]. The sign of a zero magnitude is kept as given.
    pub fn from_parts(lo: u32, mid: u32, hi: u32, negative: bool, scale: u32) -> (r: Option<Amount>)
        ensures
            r is Some <==> scale <= MAX_SCALE,
            r matches Some(a) ==> a@ == (AmountView {
                negative,
                magnitude: limbs_value(lo, mid, hi),
                scale: scale as nat,
            }),
    {
        if scale > MAX_SCALE {
            None
        } else {
            Some(Amount { lo, mid, hi, negative, scale })
        }
    }
}

/// Two amounts are equal when they denote the same number: `1.0 == 1.00`.
impl PartialEq for Amount {
    fn eq(&self, other: &Amount) -> (r: bool) {
        greater_or_equal(*self, *other) && greater_or_equal(*other, *self)
    }
}

impl PartialEqSpecImpl for Amount {
    open spec fn obeys_eq_spec() -> bool {
        true
    }

    open spec fn eq_spec(&self, other: &Amount) -> bool {
        self@.same_value(other@)
    }
}

} // verus!
