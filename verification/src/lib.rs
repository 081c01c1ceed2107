//! Classification of domain error values into a stable, externally safe
//! taxonomy: an internal diagnostic code, an app-specific status value, a
//! client-safe message and a full server-side diagnostic message.
//!
//! Per-variant metadata registered at definition time drives a single generic
//! conversion routine that turns any value of a registered error type into an
//! [`info::ErrorInfo`] record, together with the record's two presentation
//! formats (client-facing and server-facing).

pub mod engine;
pub mod info;
pub mod metadata;
pub mod sample;
pub mod status;
pub mod text;

pub use info::ErrorInfo;
pub use info::ToErrorInfo;
pub use metadata::DefError;
pub use metadata::TypeMetadata;
pub use metadata::VariantMetadata;
pub use status::AppStatus;
