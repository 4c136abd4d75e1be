//! Safety boundary for an offline speech engine reached over a C-style ABI.
//!
//! The engine side (synthesis, recognition, audio tagging) is driven through
//! opaque handles, fixed-shape configuration structures with mutually
//! exclusive backend slots, and transient result structures that must be
//! validated, copied out and destroyed exactly once.  This crate holds the
//! verified core of that boundary: building a backend-tagged configuration
//! from caller options, marshaling text into nul-terminated buffers whose
//! lifetime straddles a foreign call, owning a handle and releasing it
//! exactly once, ordering a per-request invocation, and validating a raw
//! result before anything is read from it.  The foreign calls themselves are
//! made by a thin unverified shell that feeds their raw outcomes (addresses
//! and copied values) back into the functions here.

pub mod config;
pub mod error;
pub mod extract;
pub mod invoke;
pub mod lifecycle;
pub mod marshal;
