//! A narrow boundary between a host and an authorization policy engine.
//!
//! The host writes policy text into a byte buffer, ends it with a NUL byte and
//! hands the buffer over. The text is decoded, parsed exactly once into a
//! policy set, and kept in a write-once store that later calls can query.

pub mod buffer;
pub mod engine;
pub mod error;
pub mod loader;
pub mod store;
pub mod text;

pub use crate::buffer::allocate;
pub use crate::engine::parse_policies;
pub use crate::error::{status_code, Error};
pub use crate::loader::{_count_num_policies, _load_policies, count_num_policies, load_policies};
pub use crate::store::PolicyStore;
pub use crate::text::str_from_cstr;
