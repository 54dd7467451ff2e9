//! Collects bounded-range draws (dice rolls, card draws) into an unbiased
//! secret byte string: draws are validated, de-biased by rejection sampling,
//! packed into a bit buffer, and, once enough bits exist, truncated and packed
//! into bytes that can be XOR-mixed with independently sourced random bytes.

pub mod accumulator;
pub mod bits;
pub mod dec;
pub mod errors;
pub mod input;
pub mod mnemonics;
pub mod natural_datum;
pub mod rng;
pub mod sampling;
pub mod statistics;
