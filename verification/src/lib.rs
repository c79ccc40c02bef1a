//! Elementwise great-circle (haversine) distance over paired coordinate
//! columns.
//!
//! The verified core is the columnar driver: it validates that the four
//! input columns have equal length and applies a scalar kernel once per
//! row, producing a fresh output column whose entry `i` is determined by
//! row `i` of the inputs alone. Coordinate and distance values travel
//! through the driver as opaque 64-bit words (the host's float bit
//! patterns); the trigonometric kernel itself is handed in by the caller.

mod error;
mod mapper;

pub use error::UdfError;
pub use mapper::deterministic;
pub use mapper::haversine_dist;
pub use mapper::lemma_permutation_alignment;
pub use mapper::lemma_row_independence;
pub use mapper::lemma_swap_symmetry;
pub use mapper::lengths_match;
pub use mapper::maps_rows;
pub use mapper::symmetric;
