//! Generator of access-control and registration-control template entries.
//!
//! From users, raw domains and raw interface names the library builds the two
//! master tables of a permission store: one access entry and one
//! registration entry for every user, every resolved domain and every
//! resolved interface name.
//!
//! - [`names`] derives one name from another by a cut and a wildcard;
//! - [`resolver`] turns the raw names into the resolved names, gate by gate;
//! - [`expander`] makes the entries of all combinations, in a fixed order;
//! - [`acl`] holds the entries and the store;
//! - [`generator`] runs the three steps in a row;
//! - [`laws`] states what holds of every generation.
//!
//! Random rounds draw from the `rand` crate. What they may produce is stated
//! as a set of possible outcomes; everything else is determined by the input
//! and stated exactly.

pub mod acl;
pub mod expander;
pub mod generator;
pub mod laws;
pub mod names;
mod random;
pub mod resolver;
