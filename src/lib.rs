//! Retrieval and conversion of the digitized first Palomar sky survey plates:
//! the catalog of plate identifiers and their archive addresses, the decisions
//! of a skip-if-present fetch, extraction of a fixed set of header fields, their
//! serialization as CSV, and the linear rescaling of a 16-bit pixel grid to an
//! 8-bit grayscale raster.
use vstd::prelude::*;

pub mod catalog;
pub mod fetch;
pub mod header;
pub mod metadata;
pub mod pipeline;
pub mod raster;

verus! {

} // verus!
