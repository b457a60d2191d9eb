//! Bindings to the Linux `statx` call (extended file status, kernel 4.11 and
//! later): the records it fills in, their exact byte layout, and its flag and
//! mask constants.
pub mod bytes;
pub mod call;
pub mod codec;
pub mod flags;
pub mod layout;
pub mod record;

pub use record::{statx, statx_timestamp};
