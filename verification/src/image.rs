//! Registry operations: the documents of an image, how they are read and
//! written, and how an image is pulled into a local layout.

pub mod client;
pub mod codec;
pub mod layout;
pub mod model;
pub mod pull;
pub mod select;

pub use client::Client;
pub use layout::ImageLayoutWriter;
pub use model::{
    OciImageConfig, OciImageConfigConfig, OciImageConfigHistory, OciImageConfigRef,
    OciImageConfigRootfs, OciImageIndex, OciImageIndexManifest, OciImageIndexManifestEntry,
    OciImageIndexManifestPlatform, OciImageLayer,
};
