//! Domain-tagged interned labels: cheap-to-copy identifiers that pair a
//! 64-bit content hash with an interned, process-lifetime name.
//!
//! A label's identity is its hash; a per-namespace registry guarantees that
//! within one namespace no two distinct names ever share a hash, by refusing
//! the second registration of a colliding name.
//!
//! Validation is eager: every constructor and every upgrade of a constant
//! label consults the registry at construction time, never later.

pub mod fnv;
pub mod label;
pub mod registry;
pub mod text;
