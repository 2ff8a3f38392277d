//! A registry of files that are stored elsewhere: who owns each file, who may
//! download it and at what price, and who has downloaded what.
//!
//! [`Pallet`] is the registry. Its three operations are specified as
//! functions on [`model::State`], the registry as mathematics; [`laws`]
//! proves what follows from them.

pub mod bounded;
pub mod digest;
pub mod index;
pub mod invariants;
pub mod laws;
pub mod model;
pub mod pallet;
pub mod store;
pub mod types;

pub use crate::bounded::LIST_CAPACITY;
pub use crate::digest::link_is_digestible;
pub use crate::pallet::{Config, Pallet};
pub use crate::types::{AccountId, Balance, Error, ErrorKind, Event, File, FileId, FileType};
