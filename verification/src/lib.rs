//! A verified Monty Hall simulation engine.
//!
//! The engine runs repeated random trials of the classical three-door puzzle
//! and tallies how often the "switch" and "stay" strategies win.  Corners are
//! cut on purpose for speed and reproducibility: the initial pick is always
//! door 0, and the host always opens the first eligible door rather than a
//! random one.  Every function of the engine carries a contract that pins its
//! result down to the stream of values the pseudo-random source produces.

pub mod doors;
pub mod engine;
pub mod parallel;
pub mod rng;
pub mod tally;

pub use engine::MontyHall;
pub use parallel::split_trials;
pub use rng::RandomSource;
pub use rng::XorShiftSource;
pub use tally::checked_reduce;
pub use tally::reduce_tallies;
pub use tally::ResultSet;
pub use tally::Results;
pub use tally::TallySpec;
