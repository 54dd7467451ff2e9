//! Plain verdicts of the statistical self-test collaborator. The collaborator
//! itself is external: it hands back one optional pass/fail flag per test,
//! and this module turns those flags into the stored overview.

use vstd::prelude::*;

verus! {

/// The verdict of one statistical test: unavailable when the buffer was too
/// short for the test or the test aborted internally.
#[derive(Debug, Clone, Copy, PartialEq, Eq, Structural, Default)]
pub enum StatsTestState {
    #[default]
    NotAvailable,
    Passed,
    Failed,
}

/// The verdict a pass/fail flag maps to: an absent flag means the test was
/// not available for this buffer.
pub open spec fn spec_state_of(flag: Option<bool>) -> StatsTestState {
    match flag {
        Option::None => StatsTestState::NotAvailable,
        Option::Some(true) => StatsTestState::Passed,
        Option::Some(false) => StatsTestState::Failed,
    }
}

/// Turns one optional pass/fail flag into its verdict.
pub fn state_of(flag: Option<bool>) -> (r: StatsTestState)
    ensures
        r == spec_state_of(flag),
{
    match flag {
        Option::None => StatsTestState::NotAvailable,
        Option::Some(true) => StatsTestState::Passed,
        Option::Some(false) => StatsTestState::Failed,
    }
}

/// One verdict per statistical test run over a finished byte buffer.
#[derive(Debug, Clone, Copy, PartialEq, Eq, Structural)]
pub struct StatisticalTestsOverview {
    pub approximate_entropy_test_m2_result: StatsTestState,
    pub approximate_entropy_test_m3_result: StatsTestState,
    pub block_frequency_test_result: StatsTestState,
    pub cumulative_sums_test_result: StatsTestState,
    pub frequency_test_result: StatsTestState,
    pub longest_run_of_ones_test_result: StatsTestState,
    pub runs_test_result: StatsTestState,
    pub serial_test_pattern_size_6_result: StatsTestState,
}

impl StatisticalTestsOverview {
    /// Builds the overview from one optional pass/fail flag per test, as the
    /// collaborator reported them.
    pub fn from_flags(
        approximate_entropy_test_m2: Option<bool>,
        approximate_entropy_test_m3: Option<bool>,
        block_frequency: Option<bool>,
        cumulative_sums: Option<bool>,
        frequency: Option<bool>,
        longest_run_of_ones: Option<bool>,
        runs: Option<bool>,
        serial_pattern_size_6: Option<bool>,
    ) -> (r: Self)
        ensures
            r.approximate_entropy_test_m2_result == spec_state_of(approximate_entropy_test_m2),
            r.approximate_entropy_test_m3_result == spec_state_of(approximate_entropy_test_m3),
            r.block_frequency_test_result == spec_state_of(block_frequency),
            r.cumulative_sums_test_result == spec_state_of(cumulative_sums),
            r.frequency_test_result == spec_state_of(frequency),
            r.longest_run_of_ones_test_result == spec_state_of(longest_run_of_ones),
            r.runs_test_result == spec_state_of(runs),
            r.serial_test_pattern_size_6_result == spec_state_of(serial_pattern_size_6),
    {
        StatisticalTestsOverview {
            approximate_entropy_test_m2_result: state_of(approximate_entropy_test_m2),
            approximate_entropy_test_m3_result: state_of(approximate_entropy_test_m3),
            block_frequency_test_result: state_of(block_frequency),
            cumulative_sums_test_result: state_of(cumulative_sums),
            frequency_test_result: state_of(frequency),
            longest_run_of_ones_test_result: state_of(longest_run_of_ones),
            runs_test_result: state_of(runs),
            serial_test_pattern_size_6_result: state_of(serial_pattern_size_6),
        }
    }

    /// The overview before any test has run: every verdict unavailable.
    pub open spec fn spec_all_unavailable(self) -> bool {
        self == (StatisticalTestsOverview {
            approximate_entropy_test_m2_result: StatsTestState::NotAvailable,
            approximate_entropy_test_m3_result: StatsTestState::NotAvailable,
            block_frequency_test_result: StatsTestState::NotAvailable,
            cumulative_sums_test_result: StatsTestState::NotAvailable,
            frequency_test_result: StatsTestState::NotAvailable,
            longest_run_of_ones_test_result: StatsTestState::NotAvailable,
            runs_test_result: StatsTestState::NotAvailable,
            serial_test_pattern_size_6_result: StatsTestState::NotAvailable,
        })
    }
}

impl Default for StatisticalTestsOverview {
    /// The overview before any test has run.
    fn default() -> (r: Self)
        ensures
            r.spec_all_unavailable(),
    {
        StatisticalTestsOverview {
            approximate_entropy_test_m2_result: StatsTestState::NotAvailable,
            approximate_entropy_test_m3_result: StatsTestState::NotAvailable,
            block_frequency_test_result: StatsTestState::NotAvailable,
            cumulative_sums_test_result: StatsTestState::NotAvailable,
            frequency_test_result: StatsTestState::NotAvailable,
            runs_test_result: StatsTestState::NotAvailable,
            longest_run_of_ones_test_result: StatsTestState::NotAvailable,
            serial_test_pattern_size_6_result: StatsTestState::NotAvailable,
        }
    }
}

} // verus!
