//! A decoder for Radiotap headers: the per-packet radio metadata that precedes
//! captured 802.11 frames.
//!
//! The field region of a header is walked lazily, one field at a time, by
//! [`FieldIter`]; the walk stops cleanly at the first field that cannot be
//! decoded and never reads outside the buffer it was given.
pub mod bytes;
pub mod consts;
pub mod error;
pub mod field_types;
pub mod frame;
pub mod iter;
pub mod laws;
pub mod names;

pub use error::RadiotapError;
pub use field_types::{RadiotapField, VendorNamespace};
pub use frame::{create_radiotap_iterator, RadiotapFrame};
pub use iter::{calculate_padding, decode_fields, FieldIter};
pub use names::field_from_string;
