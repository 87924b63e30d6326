//! Pulling container images from an OCI registry into a local image layout.

pub mod error;
pub mod image;
pub mod json;
pub mod runtime;
pub mod text;
pub mod util;
