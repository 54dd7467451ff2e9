//! Session parameters fixed at construction.

use vstd::prelude::*;

use crate::errors::ProcessError;

verus! {

/// The two parameters a session is created from: how many equally likely
/// outcomes one draw has, and how many bytes of entropy to collect.
#[derive(Debug, Clone, Copy)]
pub struct TychentropyNewInput {
    range_len: u64,
    target_entropy_bytes: u64,
}

impl TychentropyNewInput {
    /// The number of equally likely outcomes per draw.
    pub closed spec fn spec_range_len(self) -> u64 {
        self.range_len
    }

    /// The number of entropy bytes to collect.
    pub closed spec fn spec_target_entropy_bytes(self) -> u64 {
        self.target_entropy_bytes
    }

    /// Validated parameters: at least two outcomes per draw and at least
    /// one byte of entropy to collect.
    pub open spec fn wf(self) -> bool {
        2 <= self.spec_range_len() && 1 <= self.spec_target_entropy_bytes()
    }

    /// Validates the session parameters: a range below two outcomes carries
    /// no entropy, and a target below one byte asks for none.
    pub fn new(range_len: u64, target_entropy_bytes: u64) -> (r: Result<Self, ProcessError>)
        ensures
            match r {
                Ok(input) => 2 <= range_len && 1 <= target_entropy_bytes && input.spec_range_len()
                    == range_len && input.spec_target_entropy_bytes() == target_entropy_bytes
                    && input.wf(),
                Err(e) => match e {
                    ProcessError::RangeCountIsLessThanTwo => range_len < 2,
                    ProcessError::TargetEntropyBytesAreLessThanOne => range_len >= 2
                        && target_entropy_bytes < 1,
                    _ => false,
                },
            },
    {
        if range_len < 2 {
            return Err(ProcessError::RangeCountIsLessThanTwo);
        }
        if target_entropy_bytes < 1 {
            return Err(ProcessError::TargetEntropyBytesAreLessThanOne);
        }
        Ok(TychentropyNewInput { range_len, target_entropy_bytes })
    }

    /// Reads the number of equally likely outcomes per draw.
    pub fn get_range_len(&self) -> (r: &u64)
        ensures
            *r == self.spec_range_len(),
    {
        &self.range_len
    }

    /// Reads the number of entropy bytes to collect.
    pub fn get_target_entropy_bytes(&self) -> (r: &u64)
        ensures
            *r == self.spec_target_entropy_bytes(),
    {
        &self.target_entropy_bytes
    }
}

impl Default for TychentropyNewInput {
    /// The parameters of a common session: a six-sided die collected into
    /// 32 bytes of entropy.
    fn default() -> (r: Self)
        ensures
            r.spec_range_len() == 6 && r.spec_target_entropy_bytes() == 32 && r.wf(),
    {
        TychentropyNewInput { range_len: 6, target_entropy_bytes: 32 }
    }
}

} // verus!
