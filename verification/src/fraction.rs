//! A numeric value confined to the closed interval [0, 1].
//!
//! Confidence-threshold-like request fields all use this type. The value is
//! an exact rational: a numerator over the fixed denominator 1 000 000, so
//! the whole interval from 0 to 1 inclusive is representable and arithmetic
//! on it is exact.

use crate::json::{JVal, JsonValue};
use vstd::prelude::*;

verus! {

/// The fixed denominator of a [`BoundedFraction`].
pub const FRACTION_DENOMINATOR: u64 = 1000000;

/// A fraction confined to [0, 1], stored as a numerator in millionths.
/// Construction fails outside the range; the value never changes afterwards.
#[derive(Debug, Clone, Copy, PartialEq, Eq, Structural)]
pub struct BoundedFraction {
    millionths: u32,
}

/// Why a [`BoundedFraction`] could not be constructed: the requested
/// numerator (in millionths) lies outside [0, 1].
#[derive(Debug, Clone, Copy, PartialEq, Eq, Structural)]
pub enum BoundedFractionError {
    OutOfBounds(u64),
}

impl BoundedFraction {
    /// The numerator, in millionths of one.
    pub closed spec fn spec_millionths(self) -> u32 {
        self.millionths
    }

    /// The value lies in [0, 1].
    pub open spec fn wf(self) -> bool {
        self.spec_millionths() <= FRACTION_DENOMINATOR
    }

    /// What [`Self::construct`] returns for a requested numerator.
    pub closed spec fn spec_construct(millionths: u64) -> Result<
        BoundedFraction,
        BoundedFractionError,
    > {
        if millionths <= FRACTION_DENOMINATOR {
            Ok(BoundedFraction { millionths: millionths as u32 })
        } else {
            Err(BoundedFractionError::OutOfBounds(millionths))
        }
    }

    /// Builds the fraction millionths / 1 000 000. Succeeds exactly when the
    /// value lies in [0, 1], that is when millionths is at most 1 000 000;
    /// otherwise fails with the offending value.
    pub fn construct(millionths: u64) -> (r: Result<BoundedFraction, BoundedFractionError>)
        ensures
            r == Self::spec_construct(millionths),
            r is Ok <==> millionths <= FRACTION_DENOMINATOR,
            r is Ok ==> r->Ok_0.wf() && r->Ok_0.spec_millionths() == millionths,
            r is Err ==> r->Err_0 == BoundedFractionError::OutOfBounds(millionths),
    {
        if millionths <= FRACTION_DENOMINATOR {
            Ok(BoundedFraction { millionths: millionths as u32 })
        } else {
            Err(BoundedFractionError::OutOfBounds(millionths))
        }
    }

    /// The numerator, in millionths of one.
    pub fn millionths(&self) -> (r: u32)
        ensures
            r == self.spec_millionths(),
    {
        self.millionths
    }

    /// The serialized form: the raw numeric value, not wrapped.
    pub open spec fn json_model(self) -> JVal {
        JVal::Frac(self.spec_millionths() as int)
    }

    /// Serializes the fraction as a plain JSON number.
    pub fn to_json(&self) -> (r: JsonValue)
        ensures
            r@ == self.json_model(),
    {
        JsonValue::Frac(self.millionths)
    }
}

/// For every value in [0, 1] construction succeeds and the constructed
/// fraction serializes back to exactly that value; for every value above the
/// range construction fails with the value itself.
pub proof fn lemma_bounded_fraction_round_trip(millionths: u64)
    ensures
        millionths <= FRACTION_DENOMINATOR ==> {
            &&& BoundedFraction::spec_construct(millionths) is Ok
            &&& BoundedFraction::spec_construct(millionths)->Ok_0.spec_millionths() == millionths
            &&& BoundedFraction::spec_construct(millionths)->Ok_0.json_model() == JVal::Frac(
                millionths as int,
            )
        },
        millionths > FRACTION_DENOMINATOR ==> BoundedFraction::spec_construct(millionths) == Err::<
            BoundedFraction,
            BoundedFractionError,
        >(BoundedFractionError::OutOfBounds(millionths)),
{
}

} // verus!
