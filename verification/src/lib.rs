//! A verified chart-extraction pipeline.
//!
//! The library turns the raw text of a music-chart page into an ordered
//! sequence of ranked `(rank, artist, song)` records: it selects title and
//! artist fragments with two CSS selectors, trims each fragment, aligns the
//! two sequences positionally, and encodes the result as a JSON payload.
//! Fetching the page and serving the result are left to the binary around
//! the library.

pub mod chart;
pub mod codec;
pub mod pipeline;
pub mod select;
pub mod text;
