//! A verified schema registration protocol.
//!
//! A program describes the shape of its data types — structs, tuple structs,
//! unit structs, and enums with unit, newtype, or struct-style variants — as
//! entries in a central, append-only registry. The registry hands out an
//! opaque [`types::TypeId`] per distinct logical type; a [`builder::TypeBuilder`]
//! assembles one immutable [`types::Type`] through an order-enforced sequence
//! of calls; and the registration driver ([`driver::register`]) recursively
//! registers every type reachable from a shape description, deduplicating
//! shared types and terminating on cyclic ones through the registry's
//! reserve-then-fill discipline.

pub mod builder;
pub mod driver;
pub mod laws;
pub mod registry;
pub mod shape;
pub mod types;
