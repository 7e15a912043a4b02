//! A minimal type-erasure library: values of arbitrary concrete type are
//! stored behind opaque owning handles, recovered through downcasts whose
//! type-correctness obligation rests on the caller, and, for clone-capable
//! handles, duplicated without the call site knowing the concrete type.
//!
//! The handles come in three capability flavors — plain, transferable
//! across execution contexts (`Send`), and shareable between contexts
//! (`Send + Sync`) — each with a clone-capable extension whose duplication
//! hook is captured at conversion time from the concrete type's own
//! duplication logic.

pub mod any;
pub mod laws;
pub mod model;
pub mod payload;
