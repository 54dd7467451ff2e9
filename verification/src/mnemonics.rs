//! Mnemonic encoding of a finished entropy buffer: the word count a buffer
//! length maps to, and the trusted call into the encoder.

use vstd::prelude::*;

verus! {

/// The recognized mnemonic lengths: a buffer of 16, 20, 24, 28 or 32 bytes
/// encodes to this many words; any other length yields no mnemonic.
#[derive(Debug, Clone, Copy, PartialEq, Eq, Structural, Default)]
pub enum MnemonicLength {
    Twelve,
    Fifteen,
    Eighteen,
    TwentyOne,
    #[default]
    TwentyFour,
}

/// The mnemonic length for a buffer of `target_entropy_bytes` bytes, if the
/// length is one of the recognized ones.
pub open spec fn spec_mnemonic_length(target_entropy_bytes: u64) -> Option<MnemonicLength> {
    if target_entropy_bytes == 16 {
        Some(MnemonicLength::Twelve)
    } else if target_entropy_bytes == 20 {
        Some(MnemonicLength::Fifteen)
    } else if target_entropy_bytes == 24 {
        Some(MnemonicLength::Eighteen)
    } else if target_entropy_bytes == 28 {
        Some(MnemonicLength::TwentyOne)
    } else if target_entropy_bytes == 32 {
        Some(MnemonicLength::TwentyFour)
    } else {
        None
    }
}

/// Computes the mnemonic length for a buffer of the given size.
pub fn mnemonic_length_for(target_entropy_bytes: u64) -> (r: Option<MnemonicLength>)
    ensures
        r == spec_mnemonic_length(target_entropy_bytes),
{
    match target_entropy_bytes {
        16 => Some(MnemonicLength::Twelve),
        20 => Some(MnemonicLength::Fifteen),
        24 => Some(MnemonicLength::Eighteen),
        28 => Some(MnemonicLength::TwentyOne),
        32 => Some(MnemonicLength::TwentyFour),
        _ => None,
    }
}

/// The mnemonic phrase encoded from an entropy buffer of a recognized
/// length: a function of the bytes alone.
pub uninterp spec fn mnemonic_words_of(entropy: Seq<u8>) -> Seq<char>;

/// Relies on bip39's `Mnemonic::from_entropy` and its `Display` impl: for an
/// entropy buffer of 16, 20, 24, 28 or 32 bytes it returns `Ok`, the result
/// depends on the bytes alone (English word list), and displaying it writes
/// the words separated by single spaces.
#[verifier::external_body]
pub(crate) fn mnemonic_phrase(entropy: &Vec<u8>) -> (r: String)
    requires
        entropy@.len() == 16 || entropy@.len() == 20 || entropy@.len() == 24 || entropy@.len()
            == 28 || entropy@.len() == 32,
    ensures
        r@ == mnemonic_words_of(entropy@),
{
    bip39::Mnemonic::from_entropy(entropy.as_slice()).unwrap().to_string()
}

} // verus!
