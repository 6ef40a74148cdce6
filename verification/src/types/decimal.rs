//! Exact decimal quantities for monetary amounts.

use vstd::prelude::*;

verus! {

/// Largest scale a [`Decimal`] can carry.
pub const MAX_SCALE: u32 = 28;

/// Largest magnitude of a [`Decimal`]'s mantissa: 96 bits, all set.
pub const MAX_MANTISSA: i128 = 0x0000_0000_FFFF_FFFF_FFFF_FFFF_FFFF_FFFF;

/// The text that `rust_decimal` prints for the number `mantissa / 10^scale`.
pub uninterp spec fn decimal_text(mantissa: i128, scale: u32) -> Seq<char>;

/// What `rust_decimal` reads from `text`: the mantissa and scale of the
/// number, or `None` where it rejects the text.
pub uninterp spec fn decimal_reading(text: Seq<char>) -> Option<(i128, u32)>;

/// Whether `mantissa` and `scale` are within what a [`Decimal`] can hold.
pub open spec fn parts_in_range(mantissa: i128, scale: u32) -> bool {
    &&& scale <= MAX_SCALE
    &&& -MAX_MANTISSA <= mantissa <= MAX_MANTISSA
}

/// Prints a decimal through `rust_decimal::Decimal::from_i128_with_scale`
/// followed by its `Display`. The construction panics outside
/// [`parts_in_range`], which the precondition excludes. The contract only
/// names the printed text; nothing is claimed about its characters.
#[verifier::external_body]
fn print_parts(mantissa: i128, scale: u32) -> (text: String)
    requires
        parts_in_range(mantissa, scale),
    ensures
        text@ == decimal_text(mantissa, scale),
{
    rust_decimal::Decimal::from_i128_with_scale(mantissa, scale).to_string()
}

/// Reads a decimal through `rust_decimal::Decimal`'s `FromStr` and takes the
/// result apart with `mantissa` and `scale`. The contract only names what was
/// read; nothing is claimed about which texts are accepted.
#[verifier::external_body]
fn read_parts(text: &str) -> (parts: Option<(i128, u32)>)
    ensures
        parts == decimal_reading(text@),
{
    match <rust_decimal::Decimal as std::str::FromStr>::from_str(text) {
        Ok(d) => Some((d.mantissa(), d.scale())),
        Err(_) => None,
    }
}

/// A fixed-point number `mantissa / 10^scale`, held exactly.
///
/// Two values are equal when both mantissa and scale agree, so `1.0` and
/// `1.00` are distinct.
#[derive(Clone, Copy, Debug, PartialEq, Eq)]
pub struct Decimal {
    mantissa: i128,
    scale: u32,
}

impl Decimal {
    /// The mantissa: the number with its decimal point removed.
    pub closed spec fn spec_mantissa(self) -> i128 {
        self.mantissa
    }

    /// The number of digits after the decimal point.
    pub closed spec fn spec_scale(self) -> u32 {
        self.scale
    }

    #[verifier::type_invariant]
    spec fn in_range(self) -> bool {
        parts_in_range(self.mantissa, self.scale)
    }

    /// The printed form of this number.
    pub open spec fn text(self) -> Seq<char> {
        decimal_text(self.spec_mantissa(), self.spec_scale())
    }

    /// The number `num / 10^scale`.
    pub fn new(num: i64, scale: u32) -> (d: Decimal)
        requires
            scale <= MAX_SCALE,
        ensures
            d.spec_mantissa() == num,
            d.spec_scale() == scale,
    {
        Decimal { mantissa: num as i128, scale }
    }

    /// The number `num / 10^scale`, or `None` where the scale or the mantissa
    /// is out of range.
    pub fn try_from_i128_with_scale(num: i128, scale: u32) -> (r: Option<Decimal>)
        ensures
            r is Some <==> parts_in_range(num, scale),
            r matches Some(d) ==> d.spec_mantissa() == num && d.spec_scale() == scale,
    {
        if scale > MAX_SCALE || num > MAX_MANTISSA || num < -MAX_MANTISSA {
            None
        } else {
            Some(Decimal { mantissa: num, scale })
        }
    }

    /// The mantissa.
    pub fn mantissa(&self) -> (m: i128)
        ensures
            m == self.spec_mantissa(),
    {
        self.mantissa
    }

    /// The scale.
    pub fn scale(&self) -> (s: u32)
        ensures
            s == self.spec_scale(),
    {
        self.scale
    }

    /// Prints the number in plain decimal notation.
    pub fn to_string(&self) -> (text: String)
        ensures
            text@ == self.text(),
    {
        proof {
            use_type_invariant(self);
        }
        print_parts(self.mantissa, self.scale)
    }

    /// Reads a number from `text`.
    pub fn parse(text: &str) -> (r: Option<Decimal>)
        ensures
            r == Self::parsed(text@),
    {
        match read_parts(text) {
            Some((mantissa, scale)) => Self::try_from_i128_with_scale(mantissa, scale),
            None => None,
        }
    }

    /// What [`Decimal::parse`] makes of `text`.
    pub open spec fn parsed(text: Seq<char>) -> Option<Decimal> {
        match decimal_reading(text) {
            Some((mantissa, scale)) => if parts_in_range(mantissa, scale) {
                Some(Self::from_parts(mantissa, scale))
            } else {
                None
            },
            None => None,
        }
    }

    /// The value with the given parts.
    pub closed spec fn from_parts(mantissa: i128, scale: u32) -> Decimal {
        Decimal { mantissa, scale }
    }
}

} // verus!
