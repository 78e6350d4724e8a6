use crate::errors::ConfigurationError;
use vstd::prelude::*;

verus! {

/// A probability in [0, 1], held exactly as the ratio `num / den` of two
/// machine integers. Holding the parameter as a ratio keeps every
/// configuration value a plain integer that contracts can speak about, and
/// it is the form in which the sampling distribution is constructed.
#[derive(Clone, Copy, Debug, PartialEq, Eq, Structural)]
pub struct Probability {
    num: u32,
    den: u32,
}

impl Probability {
    /// The numerator of the ratio.
    pub closed spec fn num(self) -> u32 {
        self.num
    }

    /// The denominator of the ratio.
    pub closed spec fn den(self) -> u32 {
        self.den
    }

    /// A well-formed probability: a ratio with a positive denominator whose
    /// value lies in [0, 1]. Every value built by `new` satisfies this.
    pub open spec fn valid(self) -> bool {
        1 <= self.den() && self.num() <= self.den()
    }

    /// The probability is exactly one.
    pub open spec fn is_one(self) -> bool {
        self.num() == self.den()
    }

    /// The probability is exactly zero.
    pub open spec fn is_zero(self) -> bool {
        self.num() == 0
    }

    /// Validates and builds the probability `num / den`. The ratio is
    /// accepted exactly when the denominator is positive, the numerator is
    /// not negative and not above the denominator (so the value lies in
    /// [0, 1]), and the denominator fits the integer that carries it.
    pub fn new(num: i64, den: i64) -> (r: Result<Probability, ConfigurationError>)
        ensures
            (1 <= den <= u32::MAX && 0 <= num <= den) <==> r is Ok,
            r matches Ok(p) ==> p.num() == num && p.den() == den && p.valid(),
            r matches Err(e) ==> e == ConfigurationError::ProbabilityOutOfRange,
    {
        if 1 <= den && den <= u32::MAX as i64 && 0 <= num && num <= den {
            Ok(Probability { num: num as u32, den: den as u32 })
        } else {
            Err(ConfigurationError::ProbabilityOutOfRange)
        }
    }

    /// The numerator of the ratio.
    pub fn numerator(&self) -> (r: u32)
        ensures
            r == self.num(),
    {
        self.num
    }

    /// The denominator of the ratio.
    pub fn denominator(&self) -> (r: u32)
        ensures
            r == self.den(),
    {
        self.den
    }
}

} // verus!
