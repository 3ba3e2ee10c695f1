//! A self-updating executable's decision logic: version comparison, the
//! release feed's document, the version marker, the update cycle and the
//! two-identity hand-off that lets a running binary replace itself.

pub mod error;
pub mod version;
pub mod json;
pub mod record;
pub mod feed;
pub mod swap;
pub mod cycle;
