//! Verified core of a binding over a native PDF-processing library.
//!
//! The native library is reached through a C boundary: every entry point
//! takes an opaque handle, plain arguments and a slot in which it leaves an
//! error text. This crate holds the decisions taken around those calls: how
//! a reply becomes a result, how composite operations proceed from one
//! native call to the next, and whether a packaged copy of the native
//! library may be unpacked and linked.

pub mod binding;
pub mod enums;
pub mod errors;
pub mod merge;
pub mod permissions;
pub mod product_info;
pub mod provisioning;
pub mod split;
pub mod split_at;
pub mod text;

pub use binding::{Creation, Handle};
pub use enums::{CryptoAlgorithm, PageSize, Rotation};
pub use errors::PdfError;
pub use permissions::Permissions;
pub use product_info::ProductInfo;
