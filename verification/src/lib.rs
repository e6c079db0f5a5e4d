//! Byte-size indexing for Roblox binary object graphs.
//!
//! Given a decoded object graph (a `rbx_dom_weak::WeakDom`) together with a
//! mirror of its tree structure, this library computes for every node the
//! number of bytes the binary container encoder produces for that node's
//! subtree, assembles the results into a tree of size entries, and renders
//! that tree as the nested-array document layout understood by the `ncdu`
//! disk-usage viewer.
//!
//! Size accounting: apparent sizes are the full container encoder's byte
//! counts and so include its constant per-file framing; a leaf's direct
//! size equals its apparent size, and an interior node's direct size is
//! the producer-recorded cost of its own properties.

pub mod estimator;
pub mod graph;
pub mod indexer;
pub mod paths;
pub mod report;
