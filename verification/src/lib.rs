//! Verified core of the Climate Risk Commons framework: the reference tables
//! of pathways, horizons and risk factors, distribution-family naming, H3 cell
//! handling and range lookups, spanning-set enumeration, and the dispatch of
//! built-in impact transforms.
use vstd::prelude::*;

pub mod constants;
pub mod curve_fitting;
pub mod distribution;
pub mod error;
pub mod metrics;
pub mod risk;
pub mod spatial;
pub mod text;
pub mod transform;

verus! {

} // verus!
