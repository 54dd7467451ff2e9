//! Error taxonomy: configuration, input-validation and sequencing errors of
//! the accumulator, plus the utility and statistics error kinds, all gathered
//! under one top-level `Error`.

use vstd::prelude::*;

use crate::dec::{dec_chars, u64_to_dec_string};

verus! {

/// Errors of the draw-collection process: configuration errors detected at
/// construction, per-draw validation errors, and sequencing errors (an
/// operation invoked in the wrong accumulator state).
#[derive(Debug, Clone, Copy, PartialEq, Eq, Structural)]
pub enum ProcessError {
    EntropyAlreadyCreated,
    NoSequenceAppendixFound,
    EntropyBitsAreNotReady { required_entropy_bits: u64, current_entropy_bits: u64 },
    ProvidedEntropyLengthDoesNotMatchTarget { provided_len: u64, target_len: u64 },
    ProvidedRngEntropyLengthDoesNotMatchTarget { provided_len: u64, target_len: u64 },
    MaxInclusiveLessThanTwo,
    NaturalDatumOutOfRange { value: u64, range: u64 },
    EntropyBitVecLenDoesNotMatchTarget { provided_bit_len: u64, target_bit_len: u64 },
    RangeCountIsLessThanTwo,
    TargetEntropyBytesAreLessThanOne,
    RngEntropyBytesHaveNotBeenGeneratedYet,
    RngGenerationFailed,
    EntropyGeneratingAppendageIsNoneWhileItsDerivativesAreSome,
    EntropyGeneratingAppendageIsSomeWhileItsDerivativesAreNone,
    EntropyGeneratingAppendageIsNotRightComparedToSequenceAppendix {
        sequence_appendage: u64,
        entropy_generating_sequence_appendage: u64,
    },
    MixedEntropyAlreadyCreated,
}

/// Errors of the statistical self-test collaborator surfaced to callers.
#[derive(Debug, PartialEq, Eq)]
pub enum StatisticsError {
    NotEnoughSamplesForChiSquaredTest { num_given_samples: u64, num_required_samples: u64 },
    RangeBoundsDoNotFullyCoverAllObservations,
    RangeBoundsAreIncorrect,
    BlockFrequencyTestError,
    LongestRunOfOnesTestError,
    NonOverlappingTemplateTestError,
    RandomExcursionsTestError(String),
    RandomExcursionsVariantTestError(String),
}

/// Errors of the bit-formatting utilities.
#[derive(Debug, Clone, Copy, PartialEq, Eq, Structural)]
pub enum UtilsError {
    TotalBitSpaceIsLessThanDataSignificantBitLength {
        data_significant_bit_len: u32,
        bit_space_len: u32,
    },
}

/// Top-level error: every error of the library is one of these three kinds.
#[derive(Debug, PartialEq, Eq)]
pub enum Error {
    StatisticsError(StatisticsError),
    UtilsError(UtilsError),
    ProcessError(ProcessError),
}

impl ProcessError {
    /// What `message` writes for this error.
    pub open spec fn spec_message(self) -> Seq<char> {
        match self {
            ProcessError::EntropyAlreadyCreated => "Entropy has been generated. No need to add more data."@,
            ProcessError::NoSequenceAppendixFound => "No sequence appendix was found."@,
            ProcessError::EntropyBitsAreNotReady { required_entropy_bits, current_entropy_bits } => dec_chars(
                required_entropy_bits as nat,
            ) + " bits of entropy is required, while only "@ + dec_chars(
                current_entropy_bits as nat,
            ) + " bits have been provided so far."@,
            ProcessError::ProvidedEntropyLengthDoesNotMatchTarget { provided_len, target_len } => "Provide entropy is "@
                + dec_chars(provided_len as nat) + " bytes long, while the target is "@
                + dec_chars(target_len as nat) + " bytes."@,
            ProcessError::ProvidedRngEntropyLengthDoesNotMatchTarget {
                provided_len,
                target_len,
            } => "Provide rng entropy is "@ + dec_chars(provided_len as nat)
                + " bytes long, while the target is "@ + dec_chars(target_len as nat) + " bytes."@,
            ProcessError::MaxInclusiveLessThanTwo => "Max inclusive limit must be more than 2."@,
            ProcessError::NaturalDatumOutOfRange { value, range } => "Datum must be between 1 and "@
                + dec_chars(range as nat) + " (inclusive). The number entered was "@ + dec_chars(
                value as nat,
            ) + ", which is out of range."@,
            ProcessError::EntropyBitVecLenDoesNotMatchTarget {
                provided_bit_len,
                target_bit_len,
            } => "Bit vector provided contains "@ + dec_chars(provided_bit_len as nat)
                + " bits, while the target entropy requires "@ + dec_chars(target_bit_len as nat)
                + " bits."@,
            ProcessError::RangeCountIsLessThanTwo => "Range must have at least two members to generate entropy."@,
            ProcessError::TargetEntropyBytesAreLessThanOne => "At least 1 byte is required to generate entropy."@,
            ProcessError::RngEntropyBytesHaveNotBeenGeneratedYet => "Rng generated entropy has not been created yet. To mix, you have to generate the rng entropy first."@,
            ProcessError::RngGenerationFailed => "The system random source failed to generate the requested bytes."@,
            ProcessError::EntropyGeneratingAppendageIsNoneWhileItsDerivativesAreSome => "Data is not used to create entropy. But there are Options with Some() value that suggest otherwise."@,
            ProcessError::EntropyGeneratingAppendageIsSomeWhileItsDerivativesAreNone => "Data is used to create entropy. But there are Options with None value that suggest otherwise."@,
            ProcessError::EntropyGeneratingAppendageIsNotRightComparedToSequenceAppendix {
                sequence_appendage,
                entropy_generating_sequence_appendage,
            } => "Sequence appendix is "@ + dec_chars(sequence_appendage as nat)
                + ". Entropy generating appendix must be "@ + dec_chars(
                if sequence_appendage >= 1 {
                    (sequence_appendage - 1) as nat
                } else {
                    0
                },
            ) + ", but is "@ + dec_chars(entropy_generating_sequence_appendage as nat) + "."@,
            ProcessError::MixedEntropyAlreadyCreated => "Mixed entropy has been generated. No need to remix."@,
        }
    }

    /// Writes the error for a reader.
    pub fn message(&self) -> (r: String)
        ensures
            r@ == self.spec_message(),
    {
        match self {
            ProcessError::EntropyAlreadyCreated => String::from_str(
                "Entropy has been generated. No need to add more data.",
            ),
            ProcessError::NoSequenceAppendixFound => String::from_str(
                "No sequence appendix was found.",
            ),
            ProcessError::EntropyBitsAreNotReady {
                required_entropy_bits,
                current_entropy_bits,
            } => {
                let mut s = u64_to_dec_string(*required_entropy_bits);
                s.append(" bits of entropy is required, while only ");
                let current = u64_to_dec_string(*current_entropy_bits);
                s.append(current.as_str());
                s.append(" bits have been provided so far.");
                s
            },
            ProcessError::ProvidedEntropyLengthDoesNotMatchTarget { provided_len, target_len } => {
                let mut s = String::from_str("Provide entropy is ");
                let provided = u64_to_dec_string(*provided_len);
                s.append(provided.as_str());
                s.append(" bytes long, while the target is ");
                let target = u64_to_dec_string(*target_len);
                s.append(target.as_str());
                s.append(" bytes.");
                s
            },
            ProcessError::ProvidedRngEntropyLengthDoesNotMatchTarget {
                provided_len,
                target_len,
            } => {
                let mut s = String::from_str("Provide rng entropy is ");
                let provided = u64_to_dec_string(*provided_len);
                s.append(provided.as_str());
                s.append(" bytes long, while the target is ");
                let target = u64_to_dec_string(*target_len);
                s.append(target.as_str());
                s.append(" bytes.");
                s
            },
            ProcessError::MaxInclusiveLessThanTwo => String::from_str(
                "Max inclusive limit must be more than 2.",
            ),
            ProcessError::NaturalDatumOutOfRange { value, range } => {
                let mut s = String::from_str("Datum must be between 1 and ");
                let range_str = u64_to_dec_string(*range);
                s.append(range_str.as_str());
                s.append(" (inclusive). The number entered was ");
                let value_str = u64_to_dec_string(*value);
                s.append(value_str.as_str());
                s.append(", which is out of range.");
                s
            },
            ProcessError::EntropyBitVecLenDoesNotMatchTarget {
                provided_bit_len,
                target_bit_len,
            } => {
                let mut s = String::from_str("Bit vector provided contains ");
                let provided = u64_to_dec_string(*provided_bit_len);
                s.append(provided.as_str());
                s.append(" bits, while the target entropy requires ");
                let target = u64_to_dec_string(*target_bit_len);
                s.append(target.as_str());
                s.append(" bits.");
                s
            },
            ProcessError::RangeCountIsLessThanTwo => String::from_str(
                "Range must have at least two members to generate entropy.",
            ),
            ProcessError::TargetEntropyBytesAreLessThanOne => String::from_str(
                "At least 1 byte is required to generate entropy.",
            ),
            ProcessError::RngEntropyBytesHaveNotBeenGeneratedYet => String::from_str(
                "Rng generated entropy has not been created yet. To mix, you have to generate the rng entropy first.",
            ),
            ProcessError::RngGenerationFailed => String::from_str(
                "The system random source failed to generate the requested bytes.",
            ),
            ProcessError::EntropyGeneratingAppendageIsNoneWhileItsDerivativesAreSome => String::from_str(
                "Data is not used to create entropy. But there are Options with Some() value that suggest otherwise.",
            ),
            ProcessError::EntropyGeneratingAppendageIsSomeWhileItsDerivativesAreNone => String::from_str(
                "Data is used to create entropy. But there are Options with None value that suggest otherwise.",
            ),
            ProcessError::EntropyGeneratingAppendageIsNotRightComparedToSequenceAppendix {
                sequence_appendage,
                entropy_generating_sequence_appendage,
            } => {
                let mut s = String::from_str("Sequence appendix is ");
                let appendix = u64_to_dec_string(*sequence_appendage);
                s.append(appendix.as_str());
                s.append(". Entropy generating appendix must be ");
                let expected = u64_to_dec_string(
                    if *sequence_appendage >= 1 {
                        *sequence_appendage - 1
                    } else {
                        0
                    },
                );
                s.append(expected.as_str());
                s.append(", but is ");
                let actual = u64_to_dec_string(*entropy_generating_sequence_appendage);
                s.append(actual.as_str());
                s.append(".");
                s
            },
            ProcessError::MixedEntropyAlreadyCreated => String::from_str(
                "Mixed entropy has been generated. No need to remix.",
            ),
        }
    }
}

impl UtilsError {
    /// What `message` writes for this error.
    pub open spec fn spec_message(self) -> Seq<char> {
        match self {
            UtilsError::TotalBitSpaceIsLessThanDataSignificantBitLength {
                data_significant_bit_len,
                bit_space_len,
            } => "Length of significant bits of data is "@ + dec_chars(
                data_significant_bit_len as nat,
            ) + ", while the space provided is "@ + dec_chars(bit_space_len as nat)
                + " bits long. Cannot truncate original data into a lesser space."@,
        }
    }

    /// Writes the error for a reader.
    pub fn message(&self) -> (r: String)
        ensures
            r@ == self.spec_message(),
    {
        match self {
            UtilsError::TotalBitSpaceIsLessThanDataSignificantBitLength {
                data_significant_bit_len,
                bit_space_len,
            } => {
                let mut s = String::from_str("Length of significant bits of data is ");
                let significant = u64_to_dec_string(*data_significant_bit_len as u64);
                s.append(significant.as_str());
                s.append(", while the space provided is ");
                let space = u64_to_dec_string(*bit_space_len as u64);
                s.append(space.as_str());
                s.append(" bits long. Cannot truncate original data into a lesser space.");
                s
            },
        }
    }
}

impl StatisticsError {
    /// What `message` writes for this error.
    pub open spec fn spec_message(self) -> Seq<char> {
        match self {
            StatisticsError::NotEnoughSamplesForChiSquaredTest {
                num_given_samples,
                num_required_samples,
            } => "Number of samples are "@ + dec_chars(num_given_samples as nat)
                + ", which is less than the minimum number of samples per possible outcome required to perform the chi-squared test, that is 5 times the number of possible outcomes or "@
                + dec_chars(num_required_samples as nat) + " in this case."@,
            StatisticsError::RangeBoundsDoNotFullyCoverAllObservations => "There are observations in data that are not present in the bases."@,
            StatisticsError::RangeBoundsAreIncorrect => "Provided range min and max do not form a correct inclusive range of more than one member."@,
            StatisticsError::BlockFrequencyTestError => "Size of block must be lower than number of bits"@,
            StatisticsError::LongestRunOfOnesTestError => "At least 128 bits are required."@,
            StatisticsError::NonOverlappingTemplateTestError => "In this implementation for non-overlapping template test, 2 <= m <= 16"@,
            StatisticsError::RandomExcursionsTestError(msg) => msg@,
            StatisticsError::RandomExcursionsVariantTestError(msg) => msg@,
        }
    }

    /// Writes the error for a reader.
    pub fn message(&self) -> (r: String)
        ensures
            r@ == self.spec_message(),
    {
        match self {
            StatisticsError::NotEnoughSamplesForChiSquaredTest {
                num_given_samples,
                num_required_samples,
            } => {
                let mut s = String::from_str("Number of samples are ");
                let given = u64_to_dec_string(*num_given_samples);
                s.append(given.as_str());
                s.append(
                    ", which is less than the minimum number of samples per possible outcome required to perform the chi-squared test, that is 5 times the number of possible outcomes or ",
                );
                let required = u64_to_dec_string(*num_required_samples);
                s.append(required.as_str());
                s.append(" in this case.");
                s
            },
            StatisticsError::RangeBoundsDoNotFullyCoverAllObservations => String::from_str(
                "There are observations in data that are not present in the bases.",
            ),
            StatisticsError::RangeBoundsAreIncorrect => String::from_str(
                "Provided range min and max do not form a correct inclusive range of more than one member.",
            ),
            StatisticsError::BlockFrequencyTestError => String::from_str(
                "Size of block must be lower than number of bits",
            ),
            StatisticsError::LongestRunOfOnesTestError => String::from_str(
                "At least 128 bits are required.",
            ),
            StatisticsError::NonOverlappingTemplateTestError => String::from_str(
                "In this implementation for non-overlapping template test, 2 <= m <= 16",
            ),
            StatisticsError::RandomExcursionsTestError(msg) => msg.clone(),
            StatisticsError::RandomExcursionsVariantTestError(msg) => msg.clone(),
        }
    }
}

impl Error {
    /// What `message` writes for this error: the wrapped error's message.
    pub open spec fn spec_message(self) -> Seq<char> {
        match self {
            Error::StatisticsError(statistics_error) => statistics_error.spec_message(),
            Error::UtilsError(utils_error) => utils_error.spec_message(),
            Error::ProcessError(process_error) => process_error.spec_message(),
        }
    }

    /// Writes the error for a reader.
    pub fn message(&self) -> (r: String)
        ensures
            r@ == self.spec_message(),
    {
        match self {
            Error::StatisticsError(statistics_error) => statistics_error.message(),
            Error::UtilsError(utils_error) => utils_error.message(),
            Error::ProcessError(process_error) => process_error.message(),
        }
    }
}

impl From<ProcessError> for Error {
    fn from(value: ProcessError) -> (r: Self) {
        Error::ProcessError(value)
    }
}

impl vstd::std_specs::convert::FromSpecImpl<ProcessError> for Error {
    open spec fn obeys_from_spec() -> bool {
        true
    }

    open spec fn from_spec(value: ProcessError) -> Self {
        Error::ProcessError(value)
    }
}

impl From<UtilsError> for Error {
    fn from(value: UtilsError) -> (r: Self) {
        Error::UtilsError(value)
    }
}

impl vstd::std_specs::convert::FromSpecImpl<UtilsError> for Error {
    open spec fn obeys_from_spec() -> bool {
        true
    }

    open spec fn from_spec(value: UtilsError) -> Self {
        Error::UtilsError(value)
    }
}

impl From<StatisticsError> for Error {
    fn from(value: StatisticsError) -> (r: Self) {
        Error::StatisticsError(value)
    }
}

impl vstd::std_specs::convert::FromSpecImpl<StatisticsError> for Error {
    open spec fn obeys_from_spec() -> bool {
        true
    }

    open spec fn from_spec(value: StatisticsError) -> Self {
        Error::StatisticsError(value)
    }
}

} // verus!
