//! Bridge types for native code called from a graphical dataflow host.
//!
//! The host owns every dynamically sized resource (arrays, strings, error
//! records) through its own memory manager.  This crate models the values
//! that native logic reads and writes at that boundary: the single-byte
//! boolean wire format, the memory manager's numeric type codes, a cached
//! dimension descriptor for host-owned arrays, and the fixed-layout error
//! cluster with its deterministic source-text formatting rule.  A dispatch
//! guard enforces first-error-wins semantics across chained entry points
//! that share one error cluster.

pub mod array;
pub mod boolean;
pub mod errors;
pub mod lv_errors;
