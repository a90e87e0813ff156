use vstd::prelude::*;

pub mod banner;
pub mod config;
pub mod errors;
pub mod supervisor;

pub use config::setup_matrix;

verus! {

/// The largest number of background tasks that may be tracked at once.
pub const MAX_THREADS: usize = 3;

} // verus!
