//! A single validated draw.

use vstd::prelude::*;

use crate::errors::ProcessError;

verus! {

/// One bounded-range integer input event (for example one die roll),
/// validated on construction to lie in `[1, range]`.
#[derive(Debug, Clone, Copy)]
pub struct NaturalDatum {
    value: u64,
}

impl NaturalDatum {
    /// The validated value carried by the datum.
    pub closed spec fn spec_value(self) -> u64 {
        self.value
    }

    /// Every datum that a constructor hands out carries a value of at
    /// least 1.
    pub open spec fn wf(self) -> bool {
        1 <= self.spec_value()
    }

    /// Validates `value` against a range of `range` equally likely outcomes:
    /// the range must have at least two outcomes and the value must lie in
    /// `[1, range]`.
    pub fn new(range: u64, value: u64) -> (r: Result<Self, ProcessError>)
        ensures
            match r {
                Ok(d) => 2 <= range && 1 <= value <= range && d.spec_value() == value && d.wf(),
                Err(e) => match e {
                    ProcessError::MaxInclusiveLessThanTwo => range < 2,
                    ProcessError::NaturalDatumOutOfRange { value: v, range: g } => 2 <= range && !(
                    1 <= value <= range) && v == value && g == range,
                    _ => false,
                },
            },
    {
        if range < 2 {
            Err(ProcessError::MaxInclusiveLessThanTwo)
        } else if value < 1 || value > range {
            Err(ProcessError::NaturalDatumOutOfRange { value, range })
        } else {
            Ok(NaturalDatum { value })
        }
    }

    /// Reads the validated value.
    pub fn get_value(&self) -> (r: &u64)
        ensures
            *r == self.spec_value(),
    {
        &self.value
    }
}

} // verus!
