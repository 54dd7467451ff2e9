//! Draw generators: one random draw, one pre-determined draw, and the driver
//! that feeds a fixed series of draws into an accumulator until it is ready.

use vstd::prelude::*;

use crate::accumulator::{spec_ingest, Tychentropy};
use crate::natural_datum::NaturalDatum;
use crate::rng::rand_range_one_to;

verus! {

/// Draws one random datum uniformly from `[1, sides]`, for a die of at
/// least two sides.
pub fn generate_random_datum(sides: u64) -> (r: NaturalDatum)
    requires
        2 <= sides < u64::MAX,
    ensures
        r.wf(),
        1 <= r.spec_value() <= sides,
{
    let value = rand_range_one_to(sides);
    let datum = NaturalDatum::new(sides, value);
    proof {
        assert(datum is Ok);
    }
    datum.unwrap()
}

/// Builds the datum for one pre-determined roll, which must lie in
/// `[1, sides]` for a die of at least two sides.
pub fn generate_pre_determined_datum(sides: u64, roll: u64) -> (r: NaturalDatum)
    requires
        2 <= sides,
        1 <= roll <= sides,
    ensures
        r.wf(),
        r.spec_value() == roll,
{
    let datum = NaturalDatum::new(sides, roll);
    proof {
        assert(datum is Ok);
    }
    datum.unwrap()
}

/// Feeds the rolls of `sequence` into the accumulator, in order, stopping as
/// soon as the accumulator reports readiness or the series is exhausted.
/// Every roll must lie in `[1, range]` for the accumulator's own range, and
/// collection must still be open.
pub fn generate_pre_determined_series_of_data_till_entropy_is_full(
    range: u64,
    sequence: Vec<u64>,
    tychentropy: &mut Tychentropy,
)
    requires
        old(tychentropy)@.wf(),
        !old(tychentropy)@.is_entropy_ready,
        range == old(tychentropy)@.range,
        forall|i: int| 0 <= i < sequence@.len() ==> 1 <= #[trigger] sequence@[i] <= range,
    ensures
        final(tychentropy)@.wf(),
        final(tychentropy)@.range == old(tychentropy)@.range,
        final(tychentropy)@.target_entropy_bytes == old(tychentropy)@.target_entropy_bytes,
        !final(tychentropy)@.is_entropy_ready ==> final(tychentropy)@.sequence == old(
            tychentropy,
        )@.sequence + sequence@,
{
    let mut i: usize = 0;
    while i < sequence.len()
        invariant_except_break
            i < sequence@.len() ==> !tychentropy@.is_entropy_ready,
        invariant
            tychentropy@.wf(),
            tychentropy@.range == old(tychentropy)@.range,
            tychentropy@.target_entropy_bytes == old(tychentropy)@.target_entropy_bytes,
            2 <= range == tychentropy@.range,
            i <= sequence@.len(),
            !tychentropy@.is_entropy_ready ==> tychentropy@.sequence == old(tychentropy)@.sequence
                + sequence@.take(i as int),
            forall|k: int| 0 <= k < sequence@.len() ==> 1 <= #[trigger] sequence@[k] <= range,
        ensures
            tychentropy@.wf(),
            tychentropy@.range == old(tychentropy)@.range,
            tychentropy@.target_entropy_bytes == old(tychentropy)@.target_entropy_bytes,
            !tychentropy@.is_entropy_ready ==> tychentropy@.sequence == old(tychentropy)@.sequence
                + sequence@,
        decreases sequence@.len() - i,
    {
        let datum = generate_pre_determined_datum(range, sequence[i]);
        let added = tychentropy.add_natural_datum(datum);
        proof {
            assert(added is Ok);
        }
        if *tychentropy.get_is_entropy_ready() {
            break ;
        }
        i = i + 1;
        proof {
            assert(sequence@.take(i as int) =~= sequence@.take(i as int - 1).push(
                sequence@[i as int - 1],
            ));
            assert(tychentropy@.sequence =~= old(tychentropy)@.sequence + sequence@.take(
                i as int,
            ));
        }
    }
    proof {
        assert(sequence@.take(sequence@.len() as int) =~= sequence@);
    }
}

} // verus!
