//! The documents of an image: index, manifest and configuration.
//!
//! Each type holds what the registry's JSON document of that kind carries.
//! The fixed parts of a document (its schema version and media types) are not
//! fields: reading a document checks them, writing one puts them in, so a value
//! of these types always stands for a document with the expected constants.

use vstd::prelude::*;

use crate::json::{Json, JsonValue};

verus! {

/// The platform that a manifest targets.
#[derive(Clone, Debug, PartialEq, Eq)]
pub struct OciImageIndexManifestPlatform {
    pub architecture: String,
    pub os: String,
    pub os_version: Option<String>,
    pub os_features: Vec<String>,
    pub variant: Option<String>,
}

pub struct PlatformView {
    pub architecture: Seq<char>,
    pub os: Seq<char>,
    pub os_version: Option<Seq<char>>,
    pub os_features: Seq<Seq<char>>,
    pub variant: Option<Seq<char>>,
}

impl View for OciImageIndexManifestPlatform {
    type V = PlatformView;

    open spec fn view(&self) -> PlatformView {
        PlatformView {
            architecture: self.architecture@,
            os: self.os@,
            os_version: self.os_version.deep_view(),
            os_features: self.os_features.deep_view(),
            variant: self.variant.deep_view(),
        }
    }
}

impl DeepView for OciImageIndexManifestPlatform {
    type V = PlatformView;

    open spec fn deep_view(&self) -> PlatformView {
        self@
    }
}

/// One entry of an image index: where to find the manifest for one platform.
#[derive(Clone, Debug, PartialEq, Eq)]
pub struct OciImageIndexManifest {
    pub platform: OciImageIndexManifestPlatform,
    pub digest: String,
    pub size: u64,
}

pub struct DescriptorView {
    pub platform: PlatformView,
    pub digest: Seq<char>,
    pub size: u64,
}

impl View for OciImageIndexManifest {
    type V = DescriptorView;

    open spec fn view(&self) -> DescriptorView {
        DescriptorView { platform: self.platform@, digest: self.digest@, size: self.size }
    }
}

impl DeepView for OciImageIndexManifest {
    type V = DescriptorView;

    open spec fn deep_view(&self) -> DescriptorView {
        self@
    }
}

/// The root of a multi-platform image: one manifest descriptor per platform.
#[derive(Clone, Debug, PartialEq, Eq)]
pub struct OciImageIndex {
    pub manifests: Vec<OciImageIndexManifest>,
    /// The members of the `annotations` object, in the order of the document.
    pub annotations: Vec<(String, String)>,
}

pub struct IndexView {
    pub manifests: Seq<DescriptorView>,
    pub annotations: Seq<(Seq<char>, Seq<char>)>,
}

impl View for OciImageIndex {
    type V = IndexView;

    open spec fn view(&self) -> IndexView {
        IndexView {
            manifests: self.manifests.deep_view(),
            annotations: self.annotations.deep_view(),
        }
    }
}

impl DeepView for OciImageIndex {
    type V = IndexView;

    open spec fn deep_view(&self) -> IndexView {
        self@
    }
}

/// Reference to the configuration blob of a manifest.
#[derive(Clone, Debug, PartialEq, Eq)]
pub struct OciImageConfigRef {
    pub digest: String,
    pub size: u64,
}

/// Reference to one layer blob of a manifest.
#[derive(Clone, Debug, PartialEq, Eq)]
pub struct OciImageLayer {
    pub digest: String,
    pub size: u64,
}

/// A content reference: digest and size in bytes.
pub struct BlobRefView {
    pub digest: Seq<char>,
    pub size: u64,
}

impl View for OciImageConfigRef {
    type V = BlobRefView;

    open spec fn view(&self) -> BlobRefView {
        BlobRefView { digest: self.digest@, size: self.size }
    }
}

impl DeepView for OciImageConfigRef {
    type V = BlobRefView;

    open spec fn deep_view(&self) -> BlobRefView {
        self@
    }
}

impl View for OciImageLayer {
    type V = BlobRefView;

    open spec fn view(&self) -> BlobRefView {
        BlobRefView { digest: self.digest@, size: self.size }
    }
}

impl DeepView for OciImageLayer {
    type V = BlobRefView;

    open spec fn deep_view(&self) -> BlobRefView {
        self@
    }
}

/// The manifest of one platform-specific image.
#[derive(Clone, Debug, PartialEq, Eq)]
pub struct OciImageIndexManifestEntry {
    pub config: OciImageConfigRef,
    pub layers: Vec<OciImageLayer>,
}

pub struct ManifestView {
    pub config: BlobRefView,
    pub layers: Seq<BlobRefView>,
}

impl View for OciImageIndexManifestEntry {
    type V = ManifestView;

    open spec fn view(&self) -> ManifestView {
        ManifestView { config: self.config@, layers: self.layers.deep_view() }
    }
}

impl DeepView for OciImageIndexManifestEntry {
    type V = ManifestView;

    open spec fn deep_view(&self) -> ManifestView {
        self@
    }
}

/// The layers that make up the root filesystem.
#[derive(Clone, Debug, PartialEq, Eq)]
pub struct OciImageConfigRootfs {
    pub diff_ids: Vec<String>,
    /// The document's `type` member.
    pub kind: String,
}

pub struct RootfsView {
    pub diff_ids: Seq<Seq<char>>,
    pub kind: Seq<char>,
}

impl View for OciImageConfigRootfs {
    type V = RootfsView;

    open spec fn view(&self) -> RootfsView {
        RootfsView { diff_ids: self.diff_ids.deep_view(), kind: self.kind@ }
    }
}

impl DeepView for OciImageConfigRootfs {
    type V = RootfsView;

    open spec fn deep_view(&self) -> RootfsView {
        self@
    }
}

/// How one layer came to be.
#[derive(Clone, Debug, PartialEq, Eq)]
pub struct OciImageConfigHistory {
    pub created: Option<String>,
    pub created_by: Option<String>,
    pub empty_layer: Option<bool>,
}

pub struct HistoryView {
    pub created: Option<Seq<char>>,
    pub created_by: Option<Seq<char>>,
    pub empty_layer: Option<bool>,
}

impl View for OciImageConfigHistory {
    type V = HistoryView;

    open spec fn view(&self) -> HistoryView {
        HistoryView {
            created: self.created.deep_view(),
            created_by: self.created_by.deep_view(),
            empty_layer: self.empty_layer,
        }
    }
}

impl DeepView for OciImageConfigHistory {
    type V = HistoryView;

    open spec fn deep_view(&self) -> HistoryView {
        self@
    }
}

/// What a container runtime needs to start a process from the image.
#[derive(Debug, PartialEq, Eq)]
pub struct OciImageConfigConfig {
    pub user: Option<String>,
    /// The members of `ExposedPorts`, in the order of the document.
    pub exposed_ports: Option<Vec<(String, Json)>>,
    pub env: Option<Vec<String>>,
    pub entrypoint: Option<Vec<String>>,
    pub cmd: Vec<String>,
    /// The members of `Volumes`, in the order of the document.
    pub volumes: Option<Vec<(String, Json)>>,
    pub working_dir: Option<String>,
    /// The members of `Labels`, in the order of the document.
    pub labels: Option<Vec<(String, String)>>,
    pub stop_signal: Option<String>,
}

pub struct RuntimeConfigView {
    pub user: Option<Seq<char>>,
    pub exposed_ports: Option<Seq<(Seq<char>, JsonValue)>>,
    pub env: Option<Seq<Seq<char>>>,
    pub entrypoint: Option<Seq<Seq<char>>>,
    pub cmd: Seq<Seq<char>>,
    pub volumes: Option<Seq<(Seq<char>, JsonValue)>>,
    pub working_dir: Option<Seq<char>>,
    pub labels: Option<Seq<(Seq<char>, Seq<char>)>>,
    pub stop_signal: Option<Seq<char>>,
}

impl View for OciImageConfigConfig {
    type V = RuntimeConfigView;

    open spec fn view(&self) -> RuntimeConfigView {
        RuntimeConfigView {
            user: self.user.deep_view(),
            exposed_ports: self.exposed_ports.deep_view(),
            env: self.env.deep_view(),
            entrypoint: self.entrypoint.deep_view(),
            cmd: self.cmd.deep_view(),
            volumes: self.volumes.deep_view(),
            working_dir: self.working_dir.deep_view(),
            labels: self.labels.deep_view(),
            stop_signal: self.stop_signal.deep_view(),
        }
    }
}

impl DeepView for OciImageConfigConfig {
    type V = RuntimeConfigView;

    open spec fn deep_view(&self) -> RuntimeConfigView {
        self@
    }
}

/// The configuration of an image.
#[derive(Debug, PartialEq, Eq)]
pub struct OciImageConfig {
    pub created: Option<String>,
    pub author: Option<String>,
    pub architecture: String,
    pub os: String,
    pub config: Option<OciImageConfigConfig>,
    pub rootfs: OciImageConfigRootfs,
    pub history: Option<Vec<OciImageConfigHistory>>,
}

pub struct ConfigView {
    pub created: Option<Seq<char>>,
    pub author: Option<Seq<char>>,
    pub architecture: Seq<char>,
    pub os: Seq<char>,
    pub config: Option<RuntimeConfigView>,
    pub rootfs: RootfsView,
    pub history: Option<Seq<HistoryView>>,
}

impl View for OciImageConfig {
    type V = ConfigView;

    open spec fn view(&self) -> ConfigView {
        ConfigView {
            created: self.created.deep_view(),
            author: self.author.deep_view(),
            architecture: self.architecture@,
            os: self.os@,
            config: self.config.deep_view(),
            rootfs: self.rootfs@,
            history: self.history.deep_view(),
        }
    }
}

impl DeepView for OciImageConfig {
    type V = ConfigView;

    open spec fn deep_view(&self) -> ConfigView {
        self@
    }
}

} // verus!
