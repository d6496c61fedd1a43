//! Accumulate-and-validate core for the `astarte` vendor module of a
//! FIDO-Device-Onboard service-info stream.
//!
//! The server delivers unordered, possibly duplicated, arbitrarily typed
//! key-value entries; the entries under the `astarte:` namespace carry the
//! connection parameters a device needs. [`builder::AstarteModBuilder`]
//! ingests those entries one at a time and either produces a validated
//! [`record::AstarteMod`] or reports how the module was malformed.

pub mod builder;
pub mod entries;
pub mod laws;
pub mod record;
pub mod wire;

pub use builder::{AstarteModBuilder, ModError};
pub use record::AstarteMod;
