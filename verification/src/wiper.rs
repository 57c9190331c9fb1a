use vstd::prelude::*;

use crate::error::Ds3502Error;

verus! {

/// The position of the digital wiper: one of the 128 tap positions, 0 to 127
/// inclusive.
///
/// Out-of-range raw values are rejected at construction — never clamped — so
/// a `Wiper` is guaranteed in range for its whole lifetime.
#[derive(Clone, Copy, Debug, Hash, PartialEq, Eq, PartialOrd, Ord)]
pub struct Wiper(u8);

impl Wiper {
    /// The stored tap position.
    pub closed spec fn value(&self) -> u8 {
        self.0
    }

    #[verifier::type_invariant]
    spec fn in_range(&self) -> bool {
        self.0 <= 127
    }

    /// Validate a raw byte as a wiper position.
    ///
    /// Succeeds exactly on values up to 127, keeping the value as given;
    /// larger values are rejected with [`Ds3502Error::InvalidWiperValue`]
    /// before any bus access could take place.
    pub fn try_from(value: u8) -> (r: Result<Self, Ds3502Error>)
        ensures
            r is Ok <==> value <= 127,
            r is Ok ==> r->Ok_0.value() == value,
            r is Err ==> r->Err_0 == Ds3502Error::InvalidWiperValue,
    {
        if value > 127 {
            Err(Ds3502Error::InvalidWiperValue)
        } else {
            Ok(Wiper(value))
        }
    }

    /// Retrieve the inner wiper position.
    #[must_use]
    pub fn inner(&self) -> (r: u8)
        ensures
            r == self.value(),
            r <= 127,
    {
        proof {
            use_type_invariant(self);
        }
        self.0
    }
}

} // verus!
