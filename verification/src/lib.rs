//! Collapsing the two mates of a paired-end read into one fragment record.
//!
//! Both mates of a pair carry per-base methylation call strings over their
//! aligned intervals. Where the intervals overlap, the calls of the overlap
//! would be counted twice downstream, so the pair is replaced by a single
//! record that spans both intervals and holds every position once.
//!
//! - `record`: the read record and its view;
//! - `calls`: call strings, cut and padded by position;
//! - `pair`: which read is which mate, and how the two intervals lie;
//! - `collapse`: the mergers and `collapse_to_fragment`;
//! - `error`: why a pair could not be collapsed;
//! - `laws`: what holds of every collapsed pair.

pub mod calls;
pub mod collapse;
pub mod error;
pub mod laws;
pub mod pair;
pub mod record;
