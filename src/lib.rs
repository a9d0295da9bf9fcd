//! Decisions and bookkeeping of a static-asset precompressor: which files of
//! a tree are compressed, with which algorithms, into which sibling files, and
//! how the per-worker statistics of a run add up.
use vstd::prelude::*;

pub mod algorithm;
pub mod compressor;
pub mod filter;
pub mod paths;
pub mod stats;

verus! {

} // verus!
