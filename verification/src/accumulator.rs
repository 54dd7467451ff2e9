//! The entropy accumulator: a state machine that ingests validated draws,
//! removes bias by rejection sampling, packs accepted draws into a bit
//! buffer, detects when enough unbiased bits exist, and then packs them into
//! the finished byte buffer that mixing and encoding work on.

use vstd::prelude::*;

use vstd::arithmetic::power2::pow2;

use crate::bits::{
    bit_chars, bin_bits, bits_to_string, concat_bits, lemma_concat_bits_group,
    lemma_concat_bits_len, lemma_concat_bits_push, pack_bit_vector, pack_bits, pow2_u64,
    push_bin_bits, spec_floor_log2, xor_seq, xor_bytes, floor_log2, lemma_floor_log2_u64,
    lemma_xor_self_inverse,
};
use crate::rng::{rand_random_bytes, ring_random_bytes};
use crate::errors::ProcessError;
use crate::input::TychentropyNewInput;
use crate::mnemonics::{
    mnemonic_length_for, mnemonic_phrase, mnemonic_words_of, spec_mnemonic_length, MnemonicLength,
};
use crate::natural_datum::NaturalDatum;
use crate::statistics::{StatisticalTestsOverview, StatsTestState};

verus! {

/// The mathematical state of an accumulator: every buffer as a sequence,
/// every counter as a number.
#[verifier::ext_equal]
pub ghost struct TychentropyView {
    pub range: u64,
    pub full_bits_in_each_datum: u32,
    pub target_entropy_bytes: u64,
    pub target_entropy_bits: u64,
    pub sequence: Seq<u64>,
    pub entropy_generating_sequence: Seq<u64>,
    pub generated_entropy_bits: u64,
    pub is_entropy_ready: bool,
    pub entropy_bit_string: Seq<char>,
    pub entropy_bit_vector: Seq<u8>,
    pub entropy_bytes_vector: Seq<u8>,
    pub rng_entropy_bytes_vector: Seq<u8>,
    pub mixed_entropy_and_rng_bytes_vector: Seq<u8>,
    pub final_entropy_bytes_vector: Seq<u8>,
    pub statistical_test_results: StatisticalTestsOverview,
    pub mnemonic_length: Option<MnemonicLength>,
    pub mnemonic: Option<Seq<char>>,
}

impl TychentropyView {
    /// Well-formedness of an accumulator state.
    ///
    /// The configuration part: the range has at least two outcomes, the
    /// bits-per-draw is exactly floor(log2(range)), the bit target is eight
    /// times the byte target (which fits comfortably in a `usize`), and the
    /// mnemonic length is the one the byte target maps to.
    ///
    /// The collection part: accepted draws are zero indexed and below the
    /// rejection cutoff `2^bits_per_draw`; the bit counter counts
    /// bits-per-draw for each accepted draw; the bit string spells the bit
    /// buffer; and the bit buffer is the concatenation of the accepted
    /// draws' fixed-width encodings — whole while collecting, truncated to
    /// exactly the bit target once ready. Once ready, the entropy bytes are
    /// the packed bit buffer, and the final bytes are the entropy bytes,
    /// XOR-combined with the random bytes when mixing has happened.
    pub open spec fn wf(self) -> bool {
        &&& 2 <= self.range
        &&& self.full_bits_in_each_datum == spec_floor_log2(self.range as nat)
        &&& 1 <= self.target_entropy_bytes
        &&& 8 * self.target_entropy_bytes + 64 <= usize::MAX
        &&& self.target_entropy_bits == 8 * self.target_entropy_bytes
        &&& self.mnemonic_length == spec_mnemonic_length(self.target_entropy_bytes)
        &&& self.entropy_generating_sequence.len() <= self.sequence.len()
        &&& forall|i: int|
            0 <= i < self.entropy_generating_sequence.len() ==> (
            #[trigger] self.entropy_generating_sequence[i] as nat) < pow2(
                self.full_bits_in_each_datum as nat,
            )
        &&& self.generated_entropy_bits == self.entropy_generating_sequence.len()
            * self.full_bits_in_each_datum
        &&& self.entropy_bit_string == bit_chars(self.entropy_bit_vector)
        &&& self.mixed_entropy_and_rng_bytes_vector.len() == 0
        &&& if !self.is_entropy_ready {
            &&& self.generated_entropy_bits < self.target_entropy_bits
            &&& self.entropy_bit_vector == concat_bits(
                self.entropy_generating_sequence,
                self.full_bits_in_each_datum as nat,
            )
            &&& self.entropy_bytes_vector.len() == 0
            &&& self.rng_entropy_bytes_vector.len() == 0
            &&& self.final_entropy_bytes_vector.len() == 0
            &&& self.mnemonic is None
        } else {
            &&& self.target_entropy_bits <= self.generated_entropy_bits
            &&& self.entropy_bit_vector == concat_bits(
                self.entropy_generating_sequence,
                self.full_bits_in_each_datum as nat,
            ).take(self.target_entropy_bits as int)
            &&& self.entropy_bit_vector.len() == self.target_entropy_bits
            &&& self.entropy_bytes_vector == pack_bits(self.entropy_bit_vector)
            &&& self.entropy_bytes_vector.len() == self.target_entropy_bytes
            &&& (self.rng_entropy_bytes_vector.len() == 0 || self.rng_entropy_bytes_vector.len()
                == self.target_entropy_bytes)
            &&& (self.rng_entropy_bytes_vector.len() == 0
                ==> self.final_entropy_bytes_vector == self.entropy_bytes_vector)
            &&& (self.rng_entropy_bytes_vector.len() != 0
                ==> self.final_entropy_bytes_vector == xor_seq(
                self.entropy_bytes_vector,
                self.rng_entropy_bytes_vector,
            ))
            &&& self.final_entropy_bytes_vector.len() == self.target_entropy_bytes
        }
    }

    /// The state of a freshly created session for the given parameters:
    /// empty buffers, nothing collected, not ready.
    pub open spec fn fresh(range: u64, target_entropy_bytes: u64) -> TychentropyView {
        TychentropyView {
            range,
            full_bits_in_each_datum: spec_floor_log2(range as nat) as u32,
            target_entropy_bytes,
            target_entropy_bits: (8 * target_entropy_bytes) as u64,
            sequence: Seq::empty(),
            entropy_generating_sequence: Seq::empty(),
            generated_entropy_bits: 0,
            is_entropy_ready: false,
            entropy_bit_string: Seq::empty(),
            entropy_bit_vector: Seq::empty(),
            entropy_bytes_vector: Seq::empty(),
            rng_entropy_bytes_vector: Seq::empty(),
            mixed_entropy_and_rng_bytes_vector: Seq::empty(),
            final_entropy_bytes_vector: Seq::empty(),
            statistical_test_results: (StatisticalTestsOverview {
                approximate_entropy_test_m2_result: StatsTestState::NotAvailable,
                approximate_entropy_test_m3_result: StatsTestState::NotAvailable,
                block_frequency_test_result: StatsTestState::NotAvailable,
                cumulative_sums_test_result: StatsTestState::NotAvailable,
                frequency_test_result: StatsTestState::NotAvailable,
                longest_run_of_ones_test_result: StatsTestState::NotAvailable,
                runs_test_result: StatsTestState::NotAvailable,
                serial_test_pattern_size_6_result: StatsTestState::NotAvailable,
            }),
            mnemonic_length: spec_mnemonic_length(target_entropy_bytes),
            mnemonic: None,
        }
    }
}

/// The entropy accumulator. It exclusively owns its buffers: they are only
/// read through the getters and only mutated by the operations here.
#[derive(Debug, Clone)]
pub struct Tychentropy {
    range: u64,
    full_bits_in_each_datum: u32,
    target_entropy_bytes: u64,
    target_entropy_bits: u64,
    sequence: Vec<u64>,
    entropy_generating_sequence: Vec<u64>,
    generated_entropy_bits: u64,
    is_entropy_ready: bool,
    entropy_bit_string: String,
    entropy_bit_vector: Vec<u8>,
    entropy_bytes_vector: Vec<u8>,
    rng_entropy_bytes_vector: Vec<u8>,
    mixed_entropy_and_rng_bytes_vector: Vec<u8>,
    final_entropy_bytes_vector: Vec<u8>,
    statistical_test_results: StatisticalTestsOverview,
    mnemonic_length: Option<MnemonicLength>,
    mnemonic: Option<String>,
}

impl View for Tychentropy {
    type V = TychentropyView;

    closed spec fn view(&self) -> TychentropyView {
        TychentropyView {
            range: self.range,
            full_bits_in_each_datum: self.full_bits_in_each_datum,
            target_entropy_bytes: self.target_entropy_bytes,
            target_entropy_bits: self.target_entropy_bits,
            sequence: self.sequence@,
            entropy_generating_sequence: self.entropy_generating_sequence@,
            generated_entropy_bits: self.generated_entropy_bits,
            is_entropy_ready: self.is_entropy_ready,
            entropy_bit_string: self.entropy_bit_string@,
            entropy_bit_vector: self.entropy_bit_vector@,
            entropy_bytes_vector: self.entropy_bytes_vector@,
            rng_entropy_bytes_vector: self.rng_entropy_bytes_vector@,
            mixed_entropy_and_rng_bytes_vector: self.mixed_entropy_and_rng_bytes_vector@,
            final_entropy_bytes_vector: self.final_entropy_bytes_vector@,
            statistical_test_results: self.statistical_test_results,
            mnemonic_length: self.mnemonic_length,
            mnemonic: match self.mnemonic {
                Some(ref s) => Some(s@),
                None => None,
            },
        }
    }
}

impl Tychentropy {
    /// Creates an empty accumulator for the validated session parameters.
    /// The byte target must be small enough that the bit target fits in
    /// memory indices.
    pub fn new(input: TychentropyNewInput) -> (r: Tychentropy)
        requires
            input.wf(),
            8 * input.spec_target_entropy_bytes() + 64 <= usize::MAX,
        ensures
            r@ == TychentropyView::fresh(
                input.spec_range_len(),
                input.spec_target_entropy_bytes(),
            ),
            r@.wf(),
    {
        let range_len: u64 = *input.get_range_len();
        let full_bits_in_each_datum: u32 = floor_log2(range_len);
        let target_entropy_bytes: u64 = *input.get_target_entropy_bytes();
        let target_entropy_bits: u64 = target_entropy_bytes * 8;
        let mnemonic_length = mnemonic_length_for(target_entropy_bytes);
        let r = Tychentropy {
            range: range_len,
            full_bits_in_each_datum,
            target_entropy_bytes,
            target_entropy_bits,
            sequence: Vec::new(),
            entropy_generating_sequence: Vec::new(),
            generated_entropy_bits: 0,
            is_entropy_ready: false,
            entropy_bit_string: String::new(),
            entropy_bit_vector: Vec::new(),
            entropy_bytes_vector: Vec::new(),
            rng_entropy_bytes_vector: Vec::new(),
            mixed_entropy_and_rng_bytes_vector: Vec::new(),
            final_entropy_bytes_vector: Vec::new(),
            statistical_test_results: StatisticalTestsOverview::from_flags(
                None,
                None,
                None,
                None,
                None,
                None,
                None,
                None,
            ),
            mnemonic_length,
            mnemonic: None,
        };
        proof {
            assert(r@ =~= TychentropyView::fresh(
                input.spec_range_len(),
                input.spec_target_entropy_bytes(),
            ));
            assert(concat_bits(Seq::<u64>::empty(), r@.full_bits_in_each_datum as nat)
                =~= Seq::<u8>::empty());
            assert(bit_chars(Seq::<u8>::empty()) =~= Seq::<char>::empty());
        }
        r
    }

    /// Encodes the finished byte buffer as a mnemonic: once the accumulator
    /// is ready and the byte target has a recognized mnemonic length, the
    /// stored mnemonic becomes the encoding of the final bytes; in every
    /// other state nothing changes.
    pub fn generate_mnemonic(&mut self)
        requires
            old(self)@.wf(),
        ensures
            final(self)@.wf(),
            old(self)@.is_entropy_ready && old(self)@.mnemonic_length is Some ==> final(self)@ == (
            TychentropyView {
                mnemonic: Some(mnemonic_words_of(old(self)@.final_entropy_bytes_vector)),
                ..old(self)@
            }),
            !(old(self)@.is_entropy_ready && old(self)@.mnemonic_length is Some) ==> final(self)@
                == old(self)@,
    {
        if self.is_entropy_ready && self.mnemonic_length.is_some() {
            self.mnemonic = Some(mnemonic_phrase(&self.final_entropy_bytes_vector));
            proof {
                assert(self@ =~= (TychentropyView {
                    mnemonic: Some(mnemonic_words_of(old(self)@.final_entropy_bytes_vector)),
                    ..old(self)@
                }));
            }
        }
    }
}

/// How one in-range draw transforms a not-yet-ready accumulator state `o`
/// into `n`: the draw joins the audit trail unconditionally; if its
/// zero-indexed value reaches the rejection cutoff `2^bits_per_draw` it is
/// discarded for entropy purposes, otherwise its fixed-width encoding joins
/// the bit buffer, and when the bit target is reached the buffer is
/// truncated to exactly the target, packed into bytes, and latched ready.
pub open spec fn spec_ingest(o: TychentropyView, n: TychentropyView, v: u64) -> bool {
    let zi = (v - 1) as u64;
    let width = o.full_bits_in_each_datum as nat;
    &&& n.range == o.range
    &&& n.full_bits_in_each_datum == o.full_bits_in_each_datum
    &&& n.target_entropy_bytes == o.target_entropy_bytes
    &&& n.target_entropy_bits == o.target_entropy_bits
    &&& n.mnemonic_length == o.mnemonic_length
    &&& n.statistical_test_results == o.statistical_test_results
    &&& n.sequence == o.sequence.push(v)
    &&& n.rng_entropy_bytes_vector == o.rng_entropy_bytes_vector
    &&& n.mixed_entropy_and_rng_bytes_vector == o.mixed_entropy_and_rng_bytes_vector
    &&& if zi as nat >= pow2(width) {
        &&& n.entropy_generating_sequence == o.entropy_generating_sequence
        &&& n.generated_entropy_bits == o.generated_entropy_bits
        &&& n.is_entropy_ready == false
        &&& n.entropy_bit_vector == o.entropy_bit_vector
        &&& n.entropy_bit_string == o.entropy_bit_string
        &&& n.entropy_bytes_vector == o.entropy_bytes_vector
        &&& n.final_entropy_bytes_vector == o.final_entropy_bytes_vector
        &&& n.mnemonic == o.mnemonic
    } else {
        &&& n.entropy_generating_sequence == o.entropy_generating_sequence.push(zi)
        &&& n.generated_entropy_bits == o.generated_entropy_bits + o.full_bits_in_each_datum
        &&& n.is_entropy_ready == (o.generated_entropy_bits + o.full_bits_in_each_datum
            >= o.target_entropy_bits)
        &&& n.entropy_bit_string == bit_chars(n.entropy_bit_vector)
        &&& if !n.is_entropy_ready {
            &&& n.entropy_bit_vector == o.entropy_bit_vector + bin_bits(zi as nat, width)
            &&& n.entropy_bytes_vector == o.entropy_bytes_vector
            &&& n.final_entropy_bytes_vector == o.final_entropy_bytes_vector
            &&& n.mnemonic == o.mnemonic
        } else {
            &&& n.entropy_bit_vector == (o.entropy_bit_vector + bin_bits(zi as nat, width)).take(
                o.target_entropy_bits as int,
            )
            &&& n.entropy_bytes_vector == pack_bits(n.entropy_bit_vector)
            &&& n.final_entropy_bytes_vector == n.entropy_bytes_vector
            &&& (n.mnemonic_length is Some ==> n.mnemonic == Some(
                mnemonic_words_of(n.final_entropy_bytes_vector),
            ))
            &&& (n.mnemonic_length is None ==> n.mnemonic is None)
        }
    }
}

impl Tychentropy {
    /// Ingests one validated draw.
    ///
    /// Fails once the accumulator is ready (no further draws are accepted,
    /// so a finished buffer is never corrupted), and fails for a draw above
    /// the session's range; in both cases the state is unchanged. Otherwise
    /// the draw is applied as `spec_ingest` describes.
    pub fn add_natural_datum(&mut self, datum: NaturalDatum) -> (r: Result<(), ProcessError>)
        requires
            old(self)@.wf(),
            datum.wf(),
        ensures
            final(self)@.wf(),
            old(self)@.is_entropy_ready ==> r == Err::<(), ProcessError>(
                ProcessError::EntropyAlreadyCreated,
            ) && final(self)@ == old(self)@,
            !old(self)@.is_entropy_ready && datum.spec_value() > old(self)@.range ==> r == Err::<
                (),
                ProcessError,
            >(
                ProcessError::NaturalDatumOutOfRange {
                    value: datum.spec_value(),
                    range: old(self)@.range,
                },
            ) && final(self)@ == old(self)@,
            !old(self)@.is_entropy_ready && datum.spec_value() <= old(self)@.range ==> r == Ok::<
                (),
                ProcessError,
            >(()) && spec_ingest(old(self)@, final(self)@, datum.spec_value()),
    {
        let datum_value: u64 = *datum.get_value();
        if self.is_entropy_ready {
            return Err(ProcessError::EntropyAlreadyCreated);
        }
        if datum_value > self.range {
            return Err(
                ProcessError::NaturalDatumOutOfRange { value: datum_value, range: self.range },
            );
        }
        proof {
            lemma_floor_log2_u64(self.range as nat);
        }
        self.sequence.push(datum_value);
        let zero_indexed: u64 = datum_value - 1;
        let cutoff: u64 = pow2_u64(self.full_bits_in_each_datum);
        if zero_indexed >= cutoff {
            return Ok(());
        }
        let ghost old_egs = self.entropy_generating_sequence@;
        let ghost old_bit_vec = self.entropy_bit_vector@;
        let ghost width = self.full_bits_in_each_datum as nat;
        self.entropy_generating_sequence.push(zero_indexed);
        let mut new_bits: Vec<u8> = Vec::new();
        push_bin_bits(zero_indexed, self.full_bits_in_each_datum, &mut new_bits);
        let new_bit_string = bits_to_string(&new_bits);
        self.entropy_bit_string.append(new_bit_string.as_str());
        self.entropy_bit_vector.append(&mut new_bits);
        proof {
            lemma_concat_bits_push(old_egs, width, zero_indexed);
            assert(self.entropy_bit_vector@ == concat_bits(
                self.entropy_generating_sequence@,
                width,
            ));
            assert(bit_chars(old_bit_vec + bin_bits(zero_indexed as nat, width)) =~= bit_chars(
                old_bit_vec,
            ) + bit_chars(bin_bits(zero_indexed as nat, width)));
            let n0 = old_egs.len() as int;
            let w0 = width as int;
            assert((n0 + 1) * w0 == n0 * w0 + w0) by (nonlinear_arith);
            lemma_concat_bits_len(self.entropy_generating_sequence@, width);
        }
        self.generated_entropy_bits = self.generated_entropy_bits + (
            self.full_bits_in_each_datum as u64
        );
        if self.generated_entropy_bits >= self.target_entropy_bits {
            self.is_entropy_ready = true;
            self.entropy_bit_vector.truncate(self.target_entropy_bits as usize);
            let truncated_string = bits_to_string(&self.entropy_bit_vector);
            self.entropy_bit_string = truncated_string;
            proof {
                assert(self.entropy_bit_vector@ == concat_bits(
                    self.entropy_generating_sequence@,
                    width,
                ).take(self.target_entropy_bits as int));
                assert forall|i: int|
                    0 <= i < self.entropy_bit_vector@.len() implies #[trigger] self
                    .entropy_bit_vector@[i] <= 1 by {
                    assert(self.entropy_bit_vector@[i] == concat_bits(
                        self.entropy_generating_sequence@,
                        width,
                    )[i]);
                }
            }
            let packed = pack_bit_vector(&self.entropy_bit_vector);
            let final_bytes = packed.clone();
            proof {
                assert(final_bytes@ =~= packed@);
            }
            self.entropy_bytes_vector = packed;
            self.final_entropy_bytes_vector = final_bytes;
            self.generate_mnemonic();
        }
        Ok(())
    }
}

/// How mixing with the random bytes `rng` transforms a ready state `o` into
/// `n`: the random bytes are stored, the final bytes become the byte-wise
/// XOR of the collected entropy bytes with them, the mnemonic is re-encoded
/// from the new final bytes, and nothing else changes.
pub open spec fn spec_mixed(o: TychentropyView, n: TychentropyView, rng: Seq<u8>) -> bool {
    n == (TychentropyView {
        rng_entropy_bytes_vector: rng,
        final_entropy_bytes_vector: xor_seq(o.entropy_bytes_vector, rng),
        mnemonic: if o.mnemonic_length is Some {
            Some(mnemonic_words_of(xor_seq(o.entropy_bytes_vector, rng)))
        } else {
            o.mnemonic
        },
        ..o
    })
}

/// Overwrites a secret buffer with zeros before emptying it, so the bytes do
/// not linger in the released storage.
fn wipe_bytes(buf: &mut Vec<u8>)
    ensures
        final(buf)@.len() == 0,
{
    let n: usize = buf.len();
    let mut i: usize = 0;
    while i < n
        invariant
            i <= n,
            n == buf@.len(),
        decreases n - i,
    {
        buf.set(i, 0);
        i = i + 1;
    }
    buf.clear();
}

impl Tychentropy {
    /// Mixes the collected entropy with one buffer of externally supplied
    /// random bytes, which must hold exactly the target number of bytes.
    /// Fails before enough bits have been collected, reporting how many of
    /// the required bits exist; fails on a wrong-length buffer; both
    /// failures leave the state unchanged.
    pub fn mix_with_provided_rng(&mut self, rng_bytes: Vec<u8>) -> (r: Result<(), ProcessError>)
        requires
            old(self)@.wf(),
        ensures
            final(self)@.wf(),
            !old(self)@.is_entropy_ready ==> r == Err::<(), ProcessError>(
                ProcessError::EntropyBitsAreNotReady {
                    required_entropy_bits: old(self)@.target_entropy_bits,
                    current_entropy_bits: old(self)@.generated_entropy_bits,
                },
            ) && final(self)@ == old(self)@,
            old(self)@.is_entropy_ready && rng_bytes@.len() != old(self)@.target_entropy_bytes
                ==> r == Err::<(), ProcessError>(
                ProcessError::ProvidedRngEntropyLengthDoesNotMatchTarget {
                    provided_len: rng_bytes@.len() as u64,
                    target_len: old(self)@.target_entropy_bytes,
                },
            ) && final(self)@ == old(self)@,
            old(self)@.is_entropy_ready && rng_bytes@.len() == old(self)@.target_entropy_bytes
                ==> r == Ok::<(), ProcessError>(()) && spec_mixed(
                old(self)@,
                final(self)@,
                rng_bytes@,
            ),
    {
        if !self.is_entropy_ready {
            return Err(
                ProcessError::EntropyBitsAreNotReady {
                    required_entropy_bits: self.target_entropy_bits,
                    current_entropy_bits: self.generated_entropy_bits,
                },
            );
        }
        if rng_bytes.len() as u64 != self.target_entropy_bytes {
            return Err(
                ProcessError::ProvidedRngEntropyLengthDoesNotMatchTarget {
                    provided_len: rng_bytes.len() as u64,
                    target_len: self.target_entropy_bytes,
                },
            );
        }
        let mixed_final = xor_bytes(&self.entropy_bytes_vector, &rng_bytes);
        self.rng_entropy_bytes_vector = rng_bytes;
        self.final_entropy_bytes_vector = mixed_final;
        self.generate_mnemonic();
        proof {
            assert(final(self)@ =~= (TychentropyView {
                rng_entropy_bytes_vector: final(self)@.rng_entropy_bytes_vector,
                final_entropy_bytes_vector: final(self)@.final_entropy_bytes_vector,
                mnemonic: final(self)@.mnemonic,
                ..old(self)@
            }));
        }
        Ok(())
    }

    /// Mixes the collected entropy with the XOR combination of two
    /// independently sourced random byte buffers, one from each random
    /// source, each of exactly the target length. Fails before enough bits
    /// have been collected, and fails when the system random source fails;
    /// in both cases nothing is committed.
    pub fn mix_with_rng(&mut self) -> (r: Result<(), ProcessError>)
        requires
            old(self)@.wf(),
        ensures
            final(self)@.wf(),
            !old(self)@.is_entropy_ready ==> r == Err::<(), ProcessError>(
                ProcessError::EntropyBitsAreNotReady {
                    required_entropy_bits: old(self)@.target_entropy_bits,
                    current_entropy_bits: old(self)@.generated_entropy_bits,
                },
            ) && final(self)@ == old(self)@,
            old(self)@.is_entropy_ready ==> match r {
                Ok(_) => final(self)@.rng_entropy_bytes_vector.len() == old(
                    self,
                )@.target_entropy_bytes && spec_mixed(
                    old(self)@,
                    final(self)@,
                    final(self)@.rng_entropy_bytes_vector,
                ),
                Err(e) => e == ProcessError::RngGenerationFailed && final(self)@ == old(self)@,
            },
    {
        if !self.is_entropy_ready {
            return Err(
                ProcessError::EntropyBitsAreNotReady {
                    required_entropy_bits: self.target_entropy_bits,
                    current_entropy_bits: self.generated_entropy_bits,
                },
            );
        }
        let len: usize = self.target_entropy_bytes as usize;
        let rand_rng_bytes = rand_random_bytes(len);
        let ring_rng_bytes = match ring_random_bytes(len) {
            Ok(bytes) => bytes,
            Err(_) => {
                return Err(ProcessError::RngGenerationFailed);
            },
        };
        let combined = xor_bytes(&rand_rng_bytes, &ring_rng_bytes);
        let mixed = self.mix_with_provided_rng(combined);
        proof {
            assert(mixed is Ok);
        }
        Ok(())
    }

    /// Returns the accumulator to the unmixed state without re-collecting
    /// draws: the final bytes become the collected entropy bytes again, the
    /// stored random bytes are wiped, and the mnemonic is re-encoded from
    /// the reverted buffer. Fails before enough bits have been collected.
    pub fn recover_original_entropy_bytes_after_mix(&mut self) -> (r: Result<(), ProcessError>)
        requires
            old(self)@.wf(),
        ensures
            final(self)@.wf(),
            !old(self)@.is_entropy_ready ==> r == Err::<(), ProcessError>(
                ProcessError::EntropyBitsAreNotReady {
                    required_entropy_bits: old(self)@.target_entropy_bits,
                    current_entropy_bits: old(self)@.generated_entropy_bits,
                },
            ) && final(self)@ == old(self)@,
            old(self)@.is_entropy_ready ==> r == Ok::<(), ProcessError>(()) && final(self)@ == (
            TychentropyView {
                rng_entropy_bytes_vector: Seq::empty(),
                mixed_entropy_and_rng_bytes_vector: Seq::empty(),
                final_entropy_bytes_vector: old(self)@.entropy_bytes_vector,
                mnemonic: if old(self)@.mnemonic_length is Some {
                    Some(mnemonic_words_of(old(self)@.entropy_bytes_vector))
                } else {
                    old(self)@.mnemonic
                },
                ..old(self)@
            }),
    {
        if !self.is_entropy_ready {
            return Err(
                ProcessError::EntropyBitsAreNotReady {
                    required_entropy_bits: self.target_entropy_bits,
                    current_entropy_bits: self.generated_entropy_bits,
                },
            );
        }
        wipe_bytes(&mut self.final_entropy_bytes_vector);
        wipe_bytes(&mut self.mixed_entropy_and_rng_bytes_vector);
        wipe_bytes(&mut self.rng_entropy_bytes_vector);
        let reverted = self.entropy_bytes_vector.clone();
        proof {
            assert(reverted@ =~= self.entropy_bytes_vector@);
        }
        self.final_entropy_bytes_vector = reverted;
        self.generate_mnemonic();
        proof {
            assert(final(self)@ =~= (TychentropyView {
                rng_entropy_bytes_vector: Seq::empty(),
                mixed_entropy_and_rng_bytes_vector: Seq::empty(),
                final_entropy_bytes_vector: old(self)@.entropy_bytes_vector,
                mnemonic: final(self)@.mnemonic,
                ..old(self)@
            }));
        }
        Ok(())
    }

    /// Wholesale, atomic replacement of this accumulator's state with
    /// another's: one explicit ownership transfer, the prior secret buffers
    /// being wiped on the way out.
    pub fn put_data_from_another_tychentropy(&mut self, other: Tychentropy)
        requires
            other@.wf(),
        ensures
            final(self)@ == other@,
            final(self)@.wf(),
    {
        wipe_bytes(&mut self.entropy_bit_vector);
        wipe_bytes(&mut self.entropy_bytes_vector);
        wipe_bytes(&mut self.rng_entropy_bytes_vector);
        wipe_bytes(&mut self.mixed_entropy_and_rng_bytes_vector);
        wipe_bytes(&mut self.final_entropy_bytes_vector);
        *self = other;
    }

    /// Restarts the session: a fresh, empty accumulator for the current
    /// range and byte target is transplanted in, wiping all prior secret
    /// buffers.
    pub fn reset_data(&mut self)
        requires
            old(self)@.wf(),
        ensures
            final(self)@ == TychentropyView::fresh(
                old(self)@.range,
                old(self)@.target_entropy_bytes,
            ),
            final(self)@.wf(),
    {
        let input = TychentropyNewInput::new(self.range, self.target_entropy_bytes);
        proof {
            assert(input is Ok);
        }
        let fresh_accumulator = Tychentropy::new(input.unwrap());
        self.put_data_from_another_tychentropy(fresh_accumulator);
    }

    /// Stores the verdicts that the statistical self-test collaborator
    /// reported for the current final bytes; nothing else changes.
    pub fn record_statistical_test_results(&mut self, results: StatisticalTestsOverview)
        requires
            old(self)@.wf(),
        ensures
            final(self)@ == (TychentropyView { statistical_test_results: results, ..old(self)@ }),
            final(self)@.wf(),
    {
        self.statistical_test_results = results;
        proof {
            assert(final(self)@ =~= (TychentropyView {
                statistical_test_results: results,
                ..old(self)@
            }));
        }
    }
}

impl Tychentropy {
    /// Reads the number of equally likely outcomes per draw.
    pub fn get_range(&self) -> (r: &u64)
        ensures
            *r == self@.range,
    {
        &self.range
    }

    /// Reads the number of unbiased bits each accepted draw contributes.
    pub fn get_full_bits_in_each_datum(&self) -> (r: &u32)
        ensures
            *r == self@.full_bits_in_each_datum,
    {
        &self.full_bits_in_each_datum
    }

    /// Reads the number of entropy bytes to collect.
    pub fn get_target_entropy_bytes(&self) -> (r: &u64)
        ensures
            *r == self@.target_entropy_bytes,
    {
        &self.target_entropy_bytes
    }

    /// Reads the number of entropy bits to collect.
    pub fn get_target_entropy_bits(&self) -> (r: &u64)
        ensures
            *r == self@.target_entropy_bits,
    {
        &self.target_entropy_bits
    }

    /// Reads the audit trail: every draw received, accepted or not.
    pub fn get_sequence(&self) -> (r: &Vec<u64>)
        ensures
            r@ == self@.sequence,
    {
        &self.sequence
    }

    /// Reads the zero-indexed accepted draws.
    pub fn get_entropy_generating_sequence(&self) -> (r: &Vec<u64>)
        ensures
            r@ == self@.entropy_generating_sequence,
    {
        &self.entropy_generating_sequence
    }

    /// Reads the running total of bits contributed by accepted draws.
    pub fn get_generated_entropy_bits(&self) -> (r: &u64)
        ensures
            *r == self@.generated_entropy_bits,
    {
        &self.generated_entropy_bits
    }

    /// Reads whether enough unbiased bits have been collected.
    pub fn get_is_entropy_ready(&self) -> (r: &bool)
        ensures
            *r == self@.is_entropy_ready,
    {
        &self.is_entropy_ready
    }

    /// Reads the bit buffer written as '0' and '1' characters.
    pub fn get_entropy_bit_string(&self) -> (r: &String)
        ensures
            r@ == self@.entropy_bit_string,
    {
        &self.entropy_bit_string
    }

    /// Reads the bit buffer, one 0 or 1 entry per collected bit.
    pub fn get_entropy_bit_vector(&self) -> (r: &Vec<u8>)
        ensures
            r@ == self@.entropy_bit_vector,
    {
        &self.entropy_bit_vector
    }

    /// Reads the finished unbiased byte buffer; empty until ready.
    pub fn get_entropy_bytes_vector(&self) -> (r: &Vec<u8>)
        ensures
            r@ == self@.entropy_bytes_vector,
    {
        &self.entropy_bytes_vector
    }

    /// Reads the stored random bytes; empty until mixing.
    pub fn get_rng_entropy_bytes_vector(&self) -> (r: &Vec<u8>)
        ensures
            r@ == self@.rng_entropy_bytes_vector,
    {
        &self.rng_entropy_bytes_vector
    }

    /// Reads the auxiliary mixing buffer.
    pub fn get_mixed_entropy_and_rng_bytes_vector(&self) -> (r: &Vec<u8>)
        ensures
            r@ == self@.mixed_entropy_and_rng_bytes_vector,
    {
        &self.mixed_entropy_and_rng_bytes_vector
    }

    /// Reads the final byte buffer: the collected entropy bytes, or their
    /// XOR combination with the random bytes once mixed.
    pub fn get_final_entropy_bytes_vector(&self) -> (r: &Vec<u8>)
        ensures
            r@ == self@.final_entropy_bytes_vector,
    {
        &self.final_entropy_bytes_vector
    }

    /// Reads the stored verdicts of the statistical self-test collaborator.
    pub fn get_statistical_test_results(&self) -> (r: &StatisticalTestsOverview)
        ensures
            *r == self@.statistical_test_results,
    {
        &self.statistical_test_results
    }

    /// Reads the mnemonic length the byte target maps to, if any.
    pub fn get_mnemonic_length(&self) -> (r: &Option<MnemonicLength>)
        ensures
            *r == self@.mnemonic_length,
    {
        &self.mnemonic_length
    }

    /// Reads the mnemonic encoded from the final bytes, once one exists.
    pub fn get_mnemonic(&self) -> (r: &Option<String>)
        ensures
            *r matches Some(s) ==> self@.mnemonic == Some(s@),
            *r is None ==> self@.mnemonic is None,
    {
        &self.mnemonic
    }
}

impl Default for Tychentropy {
    /// The accumulator of a common session: a six-sided die collected into
    /// 32 bytes of entropy.
    fn default() -> (r: Self)
        ensures
            r@ == TychentropyView::fresh(6, 32),
            r@.wf(),
    {
        let input = TychentropyNewInput::new(6, 32);
        proof {
            assert(input is Ok);
        }
        Tychentropy::new(input.unwrap())
    }
}

/// Each accepted draw owns one bit group of the collected buffer: group `i`
/// is exactly the `i`-th zero-indexed accepted value written as
/// bits-per-draw bits, MSB first, zero padded, as long as the group was not
/// cut off by the final truncation.
pub proof fn lemma_accepted_draw_owns_its_bit_group(v: TychentropyView, i: int)
    requires
        v.wf(),
        0 <= i < v.entropy_generating_sequence.len(),
        (i + 1) * (v.full_bits_in_each_datum as int) <= v.entropy_bit_vector.len(),
    ensures
        v.entropy_bit_vector.subrange(
            i * (v.full_bits_in_each_datum as int),
            (i + 1) * (v.full_bits_in_each_datum as int),
        ) =~= bin_bits(
            v.entropy_generating_sequence[i] as nat,
            v.full_bits_in_each_datum as nat,
        ),
{
    let w = v.full_bits_in_each_datum as int;
    let width = v.full_bits_in_each_datum as nat;
    let whole = concat_bits(v.entropy_generating_sequence, width);
    lemma_concat_bits_len(v.entropy_generating_sequence, width);
    lemma_concat_bits_group(v.entropy_generating_sequence, width, i);
    assert(0 <= i * w && i * w <= (i + 1) * w) by (nonlinear_arith)
        requires
            0 <= i,
            0 <= w,
    ;
    if v.is_entropy_ready {
        assert(v.entropy_bit_vector.subrange(i * w, (i + 1) * w) =~= whole.subrange(
            i * w,
            (i + 1) * w,
        ));
    }
}

/// Truncation is exact: in every well-formed ready state the bit buffer
/// holds exactly the target number of bits and the entropy bytes exactly the
/// target number of bytes, however far the bit counter overshot the target.
pub proof fn lemma_truncation_is_exact(v: TychentropyView)
    requires
        v.wf(),
        v.is_entropy_ready,
    ensures
        v.entropy_bit_vector.len() == v.target_entropy_bits,
        v.entropy_bytes_vector.len() == v.target_entropy_bytes,
        v.target_entropy_bits <= v.generated_entropy_bits,
{
}

/// Mixing is recoverable: in every well-formed mixed state, the final bytes
/// XOR-combined with the stored random bytes are exactly the collected
/// entropy bytes again.
pub proof fn lemma_mix_is_recoverable(v: TychentropyView)
    requires
        v.wf(),
        v.is_entropy_ready,
        v.rng_entropy_bytes_vector.len() != 0,
    ensures
        xor_seq(v.final_entropy_bytes_vector, v.rng_entropy_bytes_vector)
            =~= v.entropy_bytes_vector,
{
    lemma_xor_self_inverse(v.entropy_bytes_vector, v.rng_entropy_bytes_vector);
}

} // verus!
