//! A fixed-capacity sequence that is stored inline, and its construction from
//! the entropy of a fuzz run.
//!
//! [`InlineVec`] owns an array of `LEN` slots and counts how many of them, from
//! the front, are live. It never allocates and never grows. The live slots are
//! read through [`InlineVec::as_view`] and written through
//! [`InlineVec::as_mut_view`]. [`InlineVec::generate`] makes a container from
//! the bytes of a `bolero_generator` byte-slice driver: it draws the live count
//! and has the caller's element generator fill the slots.
//!
//! The modules:
//! - [`inline_vec`] holds the type, its model and its views;
//! - [`generate`] holds randomized construction and its laws;
//! - [`driver`] holds what is taken on trust from `bolero_generator`.

pub mod driver;
pub mod generate;
pub mod inline_vec;

pub use inline_vec::InlineVec;
