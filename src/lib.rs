//! Control logic of an implicit-filtering optimizer for one scalar parameter.
//!
//! The optimizer evaluates a noisy objective at a shrinking sequence of
//! stencil sizes. All arithmetic on the objective's values is done by the
//! caller; this crate decides, from the comparisons the caller reports,
//! what is evaluated next and when the search stops.
pub mod estimate;
pub mod filter;
