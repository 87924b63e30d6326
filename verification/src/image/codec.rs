//! Reading the documents of an image from JSON, and writing an index back.

use vstd::prelude::*;

use crate::image::model::{
    BlobRefView, ConfigView, DescriptorView, HistoryView, IndexView, ManifestView, OciImageConfig,
    OciImageConfigConfig, OciImageConfigHistory, OciImageConfigRef, OciImageConfigRootfs,
    OciImageIndex, OciImageIndexManifest, OciImageIndexManifestEntry,
    OciImageIndexManifestPlatform, OciImageLayer, PlatformView, RootfsView, RuntimeConfigView,
};
use crate::text::str_eq;
use crate::json::{
    all_of, member, optional, or_default, parse, parsed, print, printed, required, Json,
    JsonValue,
};

verus! {

/// Media type that every manifest descriptor and every manifest must carry.
pub const MANIFEST_MEDIA_TYPE: &'static str = "application/vnd.oci.image.manifest.v1+json";

/// Media type that the configuration reference of a manifest must carry.
pub const CONFIG_MEDIA_TYPE: &'static str = "application/vnd.oci.image.config.v1+json";

/// Media type that every layer reference of a manifest must carry.
pub const LAYER_MEDIA_TYPE: &'static str = "application/vnd.oci.image.layer.v1.tar+gzip";

/// Media type asked for when an index is fetched.
pub const INDEX_MEDIA_TYPE: &'static str = "application/vnd.oci.image.index.v1+json";

/// The schema version that an index and a manifest must carry.
pub const SCHEMA_VERSION: u64 = 2;

fn req_text(j: &Json, key: &str) -> (text: Option<String>)
    ensures
        text.deep_view() == required(j@.get(key@), |v: JsonValue| v.as_text()),
{
    match j.get(key) {
        Some(v) => v.to_text(),
        None => None,
    }
}

fn req_uint(j: &Json, key: &str) -> (n: Option<u64>)
    ensures
        n == required(j@.get(key@), |v: JsonValue| v.as_uint()),
{
    match j.get(key) {
        Some(v) => v.to_uint(),
        None => None,
    }
}

fn req_texts(j: &Json, key: &str) -> (texts: Option<Vec<String>>)
    ensures
        texts.deep_view() == required(j@.get(key@), |v: JsonValue| v.as_texts()),
{
    match j.get(key) {
        Some(v) => v.to_texts(),
        None => None,
    }
}

fn has_text(j: &Json, key: &str, expected: &str) -> (same: bool)
    ensures
        same == (required(j@.get(key@), |v: JsonValue| v.as_text()) == Some(expected@)),
{
    match j.get(key) {
        Some(Json::String(text)) => str_eq(text.as_str(), expected),
        _ => false,
    }
}

fn has_uint(j: &Json, key: &str, expected: u64) -> (same: bool)
    ensures
        same == (required(j@.get(key@), |v: JsonValue| v.as_uint()) == Some(expected)),
{
    match j.get(key) {
        Some(Json::Uint(n)) => *n == expected,
        _ => false,
    }
}

fn opt_text(j: &Json, key: &str) -> (text: Option<Option<String>>)
    ensures
        text.deep_view() == optional(j@.get(key@), |v: JsonValue| v.as_text()),
{
    match j.get(key) {
        None => Some(None),
        Some(Json::Null) => Some(None),
        Some(v) => match v.to_text() {
            Some(t) => Some(Some(t)),
            None => None,
        },
    }
}

fn opt_flag(j: &Json, key: &str) -> (flag: Option<Option<bool>>)
    ensures
        flag == optional(j@.get(key@), |v: JsonValue| v.as_flag()),
{
    match j.get(key) {
        None => Some(None),
        Some(Json::Null) => Some(None),
        Some(v) => match v.to_flag() {
            Some(t) => Some(Some(t)),
            None => None,
        },
    }
}

fn opt_texts(j: &Json, key: &str) -> (texts: Option<Option<Vec<String>>>)
    ensures
        texts.deep_view() == optional(j@.get(key@), |v: JsonValue| v.as_texts()),
{
    match j.get(key) {
        None => Some(None),
        Some(Json::Null) => Some(None),
        Some(v) => match v.to_texts() {
            Some(t) => Some(Some(t)),
            None => None,
        },
    }
}

fn opt_text_members(j: &Json, key: &str) -> (pairs: Option<Option<Vec<(String, String)>>>)
    ensures
        pairs.deep_view() == optional(j@.get(key@), |v: JsonValue| v.as_text_members()),
{
    match j.get(key) {
        None => Some(None),
        Some(Json::Null) => Some(None),
        Some(v) => match v.to_text_members() {
            Some(t) => Some(Some(t)),
            None => None,
        },
    }
}

fn opt_members(j: &Json, key: &str) -> (pairs: Option<Option<Vec<(String, Json)>>>)
    ensures
        pairs.deep_view() == optional(j@.get(key@), |v: JsonValue| v.as_members()),
{
    match j.get(key) {
        None => Some(None),
        Some(Json::Null) => Some(None),
        Some(v) => match v.to_members() {
            Some(t) => Some(Some(t)),
            None => None,
        },
    }
}

fn texts_or_empty(j: &Json, key: &str) -> (texts: Option<Vec<String>>)
    ensures
        texts.deep_view() == or_default(
            j@.get(key@),
            |v: JsonValue| v.as_texts(),
            Seq::<Seq<char>>::empty(),
        ),
{
    match j.get(key) {
        None => {
            let none: Vec<String> = Vec::new();
            assert(none.deep_view() =~= Seq::<Seq<char>>::empty());
            Some(none)
        },
        Some(v) => v.to_texts(),
    }
}

fn text_members_or_empty(j: &Json, key: &str) -> (pairs: Option<Vec<(String, String)>>)
    ensures
        pairs.deep_view() == or_default(
            j@.get(key@),
            |v: JsonValue| v.as_text_members(),
            Seq::<(Seq<char>, Seq<char>)>::empty(),
        ),
{
    match j.get(key) {
        None => {
            let none: Vec<(String, String)> = Vec::new();
            assert(none.deep_view() =~= Seq::<(Seq<char>, Seq<char>)>::empty());
            Some(none)
        },
        Some(v) => v.to_text_members(),
    }
}

/// The platform that a JSON object describes: `architecture` and `os` must be
/// strings, `os.version` and `variant` may be left out, and a missing
/// `os.features` stands for no features.
pub open spec fn platform_of(j: JsonValue) -> Option<PlatformView> {
    let architecture = required(j.get("architecture"@), |v: JsonValue| v.as_text());
    let os = required(j.get("os"@), |v: JsonValue| v.as_text());
    let os_version = optional(j.get("os.version"@), |v: JsonValue| v.as_text());
    let os_features = or_default(
        j.get("os.features"@),
        |v: JsonValue| v.as_texts(),
        Seq::<Seq<char>>::empty(),
    );
    let variant = optional(j.get("variant"@), |v: JsonValue| v.as_text());
    if j is Object && architecture is Some && os is Some && os_version is Some && os_features is Some
        && variant is Some {
        Some(
            PlatformView {
                architecture: architecture->0,
                os: os->0,
                os_version: os_version->0,
                os_features: os_features->0,
                variant: variant->0,
            },
        )
    } else {
        None
    }
}

/// Reads a platform from a JSON object.
pub fn decode_platform(j: &Json) -> (platform: Option<OciImageIndexManifestPlatform>)
    ensures
        platform.deep_view() == platform_of(j@),
{
    let architecture = req_text(j, "architecture")?;
    let os = req_text(j, "os")?;
    let os_version = opt_text(j, "os.version")?;
    let os_features = texts_or_empty(j, "os.features")?;
    let variant = opt_text(j, "variant")?;
    Some(OciImageIndexManifestPlatform { architecture, os, os_version, os_features, variant })
}

/// The manifest descriptor that a JSON object describes: its `mediaType` must
/// be the manifest media type, and `platform`, `digest` and `size` must be
/// there.
pub open spec fn descriptor_of(j: JsonValue) -> Option<DescriptorView> {
    let media_type = required(j.get("mediaType"@), |v: JsonValue| v.as_text());
    let platform = required(j.get("platform"@), |v: JsonValue| platform_of(v));
    let digest = required(j.get("digest"@), |v: JsonValue| v.as_text());
    let size = required(j.get("size"@), |v: JsonValue| v.as_uint());
    if j is Object && media_type == Some(MANIFEST_MEDIA_TYPE@) && platform is Some && digest is Some
        && size is Some {
        Some(DescriptorView { platform: platform->0, digest: digest->0, size: size->0 })
    } else {
        None
    }
}

/// Reads a manifest descriptor from a JSON object.
pub fn decode_descriptor(j: &Json) -> (descriptor: Option<OciImageIndexManifest>)
    ensures
        descriptor.deep_view() == descriptor_of(j@),
{
    if !has_text(j, "mediaType", MANIFEST_MEDIA_TYPE) {
        return None;
    }
    let platform = match j.get("platform") {
        Some(v) => decode_platform(v)?,
        None => {
            return None;
        },
    };
    let digest = req_text(j, "digest")?;
    let size = req_uint(j, "size")?;
    Some(OciImageIndexManifest { platform, digest, size })
}

/// The descriptors that a JSON array lists; `None` unless the value is an
/// array of manifest descriptors.
pub open spec fn descriptors_of(j: JsonValue) -> Option<Seq<DescriptorView>> {
    match j.as_items() {
        Some(items) => all_of(items, |v: JsonValue| descriptor_of(v)),
        None => None,
    }
}

fn decode_descriptors(j: &Json) -> (list: Option<Vec<OciImageIndexManifest>>)
    ensures
        list.deep_view() == descriptors_of(j@),
{
    match j {
        Json::Array(items) => {
            let ghost all = j@->Array_0;
            let mut out: Vec<OciImageIndexManifest> = Vec::new();
            let mut i: usize = 0;
            while i < items.len()
                invariant
                    i <= items@.len(),
                    j@ == JsonValue::Array(all),
                    all.len() == items@.len(),
                    forall|k: int| 0 <= k < all.len() ==> all[k] == items@[k]@,
                    forall|k: int| 0 <= k < i ==> descriptor_of(#[trigger] all[k]) is Some,
                    out@.len() == i,
                    forall|k: int| 0 <= k < i ==> (#[trigger] out@[k])@ == descriptor_of(all[k])->0,
                decreases items@.len() - i,
            {
                assert(all[i as int] == items@[i as int]@);
                match decode_descriptor(&items[i]) {
                    Some(d) => {
                        out.push(d);
                    },
                    None => {
                        return None;
                    },
                }
                i = i + 1;
            }
            assert(out.deep_view() =~= Seq::new(all.len(), |k: int| descriptor_of(all[k])->0));
            Some(out)
        },
        _ => None,
    }
}

/// The image index that a JSON document describes. `schemaVersion` must be
/// the number 2, `manifests` must be an array of manifest descriptors, and a
/// missing `annotations` stands for no annotations. Members of other names are
/// passed over.
pub open spec fn index_of(j: JsonValue) -> Option<IndexView> {
    let version = required(j.get("schemaVersion"@), |v: JsonValue| v.as_uint());
    let manifests = required(j.get("manifests"@), |v: JsonValue| descriptors_of(v));
    let annotations = or_default(
        j.get("annotations"@),
        |v: JsonValue| v.as_text_members(),
        Seq::<(Seq<char>, Seq<char>)>::empty(),
    );
    if j is Object && version == Some(SCHEMA_VERSION) && manifests is Some && annotations is Some {
        Some(IndexView { manifests: manifests->0, annotations: annotations->0 })
    } else {
        None
    }
}

/// Reads an image index from a JSON document.
pub fn decode_index(j: &Json) -> (index: Option<OciImageIndex>)
    ensures
        index.deep_view() == index_of(j@),
{
    if !has_uint(j, "schemaVersion", SCHEMA_VERSION) {
        return None;
    }
    let manifests = match j.get("manifests") {
        Some(v) => decode_descriptors(v)?,
        None => {
            return None;
        },
    };
    let annotations = text_members_or_empty(j, "annotations")?;
    Some(OciImageIndex { manifests, annotations })
}

/// The content reference that a JSON object describes, given the media type
/// that it must carry.
pub open spec fn blob_ref_of(j: JsonValue, media_type: Seq<char>) -> Option<BlobRefView> {
    let found = required(j.get("mediaType"@), |v: JsonValue| v.as_text());
    let digest = required(j.get("digest"@), |v: JsonValue| v.as_text());
    let size = required(j.get("size"@), |v: JsonValue| v.as_uint());
    if j is Object && found == Some(media_type) && digest is Some && size is Some {
        Some(BlobRefView { digest: digest->0, size: size->0 })
    } else {
        None
    }
}

/// Reads the configuration reference of a manifest.
pub fn decode_config_ref(j: &Json) -> (config: Option<OciImageConfigRef>)
    ensures
        config.deep_view() == blob_ref_of(j@, CONFIG_MEDIA_TYPE@),
{
    if !has_text(j, "mediaType", CONFIG_MEDIA_TYPE) {
        return None;
    }
    let digest = req_text(j, "digest")?;
    let size = req_uint(j, "size")?;
    Some(OciImageConfigRef { digest, size })
}

/// Reads one layer reference of a manifest.
pub fn decode_layer(j: &Json) -> (layer: Option<OciImageLayer>)
    ensures
        layer.deep_view() == blob_ref_of(j@, LAYER_MEDIA_TYPE@),
{
    if !has_text(j, "mediaType", LAYER_MEDIA_TYPE) {
        return None;
    }
    let digest = req_text(j, "digest")?;
    let size = req_uint(j, "size")?;
    Some(OciImageLayer { digest, size })
}

/// The layer references that a JSON array lists.
pub open spec fn layers_of(j: JsonValue) -> Option<Seq<BlobRefView>> {
    match j.as_items() {
        Some(items) => all_of(items, |v: JsonValue| blob_ref_of(v, LAYER_MEDIA_TYPE@)),
        None => None,
    }
}

fn decode_layers(j: &Json) -> (list: Option<Vec<OciImageLayer>>)
    ensures
        list.deep_view() == layers_of(j@),
{
    match j {
        Json::Array(items) => {
            let ghost all = j@->Array_0;
            let mut out: Vec<OciImageLayer> = Vec::new();
            let mut i: usize = 0;
            while i < items.len()
                invariant
                    i <= items@.len(),
                    j@ == JsonValue::Array(all),
                    all.len() == items@.len(),
                    forall|k: int| 0 <= k < all.len() ==> all[k] == items@[k]@,
                    forall|k: int|
                        0 <= k < i ==> blob_ref_of(#[trigger] all[k], LAYER_MEDIA_TYPE@) is Some,
                    out@.len() == i,
                    forall|k: int|
                        0 <= k < i ==> (#[trigger] out@[k])@ == blob_ref_of(
                            all[k],
                            LAYER_MEDIA_TYPE@,
                        )->0,
                decreases items@.len() - i,
            {
                assert(all[i as int] == items@[i as int]@);
                match decode_layer(&items[i]) {
                    Some(d) => {
                        out.push(d);
                    },
                    None => {
                        return None;
                    },
                }
                i = i + 1;
            }
            assert(out.deep_view() =~= Seq::new(
                all.len(),
                |k: int| blob_ref_of(all[k], LAYER_MEDIA_TYPE@)->0,
            ));
            Some(out)
        },
        _ => None,
    }
}

/// The manifest that a JSON document describes. `schemaVersion` must be the
/// number 2 and `mediaType` the manifest media type; `config` must be a
/// configuration reference and `layers` an array of layer references, each
/// with its own media type.
pub open spec fn manifest_of(j: JsonValue) -> Option<ManifestView> {
    let version = required(j.get("schemaVersion"@), |v: JsonValue| v.as_uint());
    let media_type = required(j.get("mediaType"@), |v: JsonValue| v.as_text());
    let config = required(j.get("config"@), |v: JsonValue| blob_ref_of(v, CONFIG_MEDIA_TYPE@));
    let layers = required(j.get("layers"@), |v: JsonValue| layers_of(v));
    if j is Object && version == Some(SCHEMA_VERSION) && media_type == Some(MANIFEST_MEDIA_TYPE@)
        && config is Some && layers is Some {
        Some(ManifestView { config: config->0, layers: layers->0 })
    } else {
        None
    }
}

/// Reads a manifest from a JSON document.
pub fn decode_manifest(j: &Json) -> (manifest: Option<OciImageIndexManifestEntry>)
    ensures
        manifest.deep_view() == manifest_of(j@),
{
    if !has_uint(j, "schemaVersion", SCHEMA_VERSION) {
        return None;
    }
    if !has_text(j, "mediaType", MANIFEST_MEDIA_TYPE) {
        return None;
    }
    let config = match j.get("config") {
        Some(v) => decode_config_ref(v)?,
        None => {
            return None;
        },
    };
    let layers = match j.get("layers") {
        Some(v) => decode_layers(v)?,
        None => {
            return None;
        },
    };
    Some(OciImageIndexManifestEntry { config, layers })
}

/// The root filesystem that a JSON object describes: `diff_ids` must be an
/// array of strings and `type` a string.
pub open spec fn rootfs_of(j: JsonValue) -> Option<RootfsView> {
    let diff_ids = required(j.get("diff_ids"@), |v: JsonValue| v.as_texts());
    let kind = required(j.get("type"@), |v: JsonValue| v.as_text());
    if j is Object && diff_ids is Some && kind is Some {
        Some(RootfsView { diff_ids: diff_ids->0, kind: kind->0 })
    } else {
        None
    }
}

/// Reads the root filesystem of an image configuration.
pub fn decode_rootfs(j: &Json) -> (rootfs: Option<OciImageConfigRootfs>)
    ensures
        rootfs.deep_view() == rootfs_of(j@),
{
    let diff_ids = req_texts(j, "diff_ids")?;
    let kind = req_text(j, "type")?;
    Some(OciImageConfigRootfs { diff_ids, kind })
}

/// The history entry that a JSON object describes; each member may be left
/// out.
pub open spec fn history_of(j: JsonValue) -> Option<HistoryView> {
    let created = optional(j.get("created"@), |v: JsonValue| v.as_text());
    let created_by = optional(j.get("created_by"@), |v: JsonValue| v.as_text());
    let empty_layer = optional(j.get("empty_layer"@), |v: JsonValue| v.as_flag());
    if j is Object && created is Some && created_by is Some && empty_layer is Some {
        Some(
            HistoryView {
                created: created->0,
                created_by: created_by->0,
                empty_layer: empty_layer->0,
            },
        )
    } else {
        None
    }
}

/// Reads one history entry of an image configuration.
pub fn decode_history(j: &Json) -> (entry: Option<OciImageConfigHistory>)
    ensures
        entry.deep_view() == history_of(j@),
{
    match j {
        Json::Object(_) => {},
        _ => {
            return None;
        },
    }
    let created = opt_text(j, "created")?;
    let created_by = opt_text(j, "created_by")?;
    let empty_layer = opt_flag(j, "empty_layer")?;
    Some(OciImageConfigHistory { created, created_by, empty_layer })
}

/// The history that a JSON array lists.
pub open spec fn histories_of(j: JsonValue) -> Option<Seq<HistoryView>> {
    match j.as_items() {
        Some(items) => all_of(items, |v: JsonValue| history_of(v)),
        None => None,
    }
}

fn decode_histories(j: &Json) -> (list: Option<Vec<OciImageConfigHistory>>)
    ensures
        list.deep_view() == histories_of(j@),
{
    match j {
        Json::Array(items) => {
            let ghost all = j@->Array_0;
            let mut out: Vec<OciImageConfigHistory> = Vec::new();
            let mut i: usize = 0;
            while i < items.len()
                invariant
                    i <= items@.len(),
                    j@ == JsonValue::Array(all),
                    all.len() == items@.len(),
                    forall|k: int| 0 <= k < all.len() ==> all[k] == items@[k]@,
                    forall|k: int| 0 <= k < i ==> history_of(#[trigger] all[k]) is Some,
                    out@.len() == i,
                    forall|k: int| 0 <= k < i ==> (#[trigger] out@[k])@ == history_of(all[k])->0,
                decreases items@.len() - i,
            {
                assert(all[i as int] == items@[i as int]@);
                match decode_history(&items[i]) {
                    Some(d) => {
                        out.push(d);
                    },
                    None => {
                        return None;
                    },
                }
                i = i + 1;
            }
            assert(out.deep_view() =~= Seq::new(all.len(), |k: int| history_of(all[k])->0));
            Some(out)
        },
        _ => None,
    }
}

/// The runtime configuration that a JSON object describes. `Cmd` must be an
/// array of strings; every other member may be left out.
pub open spec fn runtime_config_of(j: JsonValue) -> Option<RuntimeConfigView> {
    let user = optional(j.get("User"@), |v: JsonValue| v.as_text());
    let exposed_ports = optional(j.get("ExposedPorts"@), |v: JsonValue| v.as_members());
    let env = optional(j.get("Env"@), |v: JsonValue| v.as_texts());
    let entrypoint = optional(j.get("Entrypoint"@), |v: JsonValue| v.as_texts());
    let cmd = required(j.get("Cmd"@), |v: JsonValue| v.as_texts());
    let volumes = optional(j.get("Volumes"@), |v: JsonValue| v.as_members());
    let working_dir = optional(j.get("WorkingDir"@), |v: JsonValue| v.as_text());
    let labels = optional(j.get("Labels"@), |v: JsonValue| v.as_text_members());
    let stop_signal = optional(j.get("StopSignal"@), |v: JsonValue| v.as_text());
    if j is Object && user is Some && exposed_ports is Some && env is Some && entrypoint is Some
        && cmd is Some && volumes is Some && working_dir is Some && labels is Some
        && stop_signal is Some {
        Some(
            RuntimeConfigView {
                user: user->0,
                exposed_ports: exposed_ports->0,
                env: env->0,
                entrypoint: entrypoint->0,
                cmd: cmd->0,
                volumes: volumes->0,
                working_dir: working_dir->0,
                labels: labels->0,
                stop_signal: stop_signal->0,
            },
        )
    } else {
        None
    }
}

/// Reads the runtime configuration of an image configuration.
pub fn decode_runtime_config(j: &Json) -> (config: Option<OciImageConfigConfig>)
    ensures
        config.deep_view() == runtime_config_of(j@),
{
    let user = opt_text(j, "User")?;
    let exposed_ports = opt_members(j, "ExposedPorts")?;
    let env = opt_texts(j, "Env")?;
    let entrypoint = opt_texts(j, "Entrypoint")?;
    let cmd = req_texts(j, "Cmd")?;
    let volumes = opt_members(j, "Volumes")?;
    let working_dir = opt_text(j, "WorkingDir")?;
    let labels = opt_text_members(j, "Labels")?;
    let stop_signal = opt_text(j, "StopSignal")?;
    Some(
        OciImageConfigConfig {
            user,
            exposed_ports,
            env,
            entrypoint,
            cmd,
            volumes,
            working_dir,
            labels,
            stop_signal,
        },
    )
}

/// The image configuration that a JSON document describes. `architecture`,
/// `os` and `rootfs` must be there; `created`, `author`, `config` and
/// `history` may be left out.
pub open spec fn config_of(j: JsonValue) -> Option<ConfigView> {
    let created = optional(j.get("created"@), |v: JsonValue| v.as_text());
    let author = optional(j.get("author"@), |v: JsonValue| v.as_text());
    let architecture = required(j.get("architecture"@), |v: JsonValue| v.as_text());
    let os = required(j.get("os"@), |v: JsonValue| v.as_text());
    let config = optional(j.get("config"@), |v: JsonValue| runtime_config_of(v));
    let rootfs = required(j.get("rootfs"@), |v: JsonValue| rootfs_of(v));
    let history = optional(j.get("history"@), |v: JsonValue| histories_of(v));
    if j is Object && created is Some && author is Some && architecture is Some && os is Some
        && config is Some && rootfs is Some && history is Some {
        Some(
            ConfigView {
                created: created->0,
                author: author->0,
                architecture: architecture->0,
                os: os->0,
                config: config->0,
                rootfs: rootfs->0,
                history: history->0,
            },
        )
    } else {
        None
    }
}

/// Reads an image configuration from a JSON document.
pub fn decode_config(j: &Json) -> (config: Option<OciImageConfig>)
    ensures
        config.deep_view() == config_of(j@),
{
    let created = opt_text(j, "created")?;
    let author = opt_text(j, "author")?;
    let architecture = req_text(j, "architecture")?;
    let os = req_text(j, "os")?;
    let config = match j.get("config") {
        None => None,
        Some(Json::Null) => None,
        Some(v) => Some(decode_runtime_config(v)?),
    };
    let rootfs = match j.get("rootfs") {
        Some(v) => decode_rootfs(v)?,
        None => {
            return None;
        },
    };
    let history = match j.get("history") {
        None => None,
        Some(Json::Null) => None,
        Some(v) => Some(decode_histories(v)?),
    };
    Some(OciImageConfig { created, author, architecture, os, config, rootfs, history })
}

/// The token that a token response carries: the string member `token` of a
/// JSON object.
pub open spec fn token_of(j: JsonValue) -> Option<Seq<char>> {
    required(j.get("token"@), |v: JsonValue| v.as_text())
}

/// Reads the token out of a token response.
pub fn decode_token(j: &Json) -> (token: Option<String>)
    ensures
        token.deep_view() == token_of(j@),
{
    req_text(j, "token")
}

/// The JSON value that stands for an optional string: `null` for none.
pub open spec fn opt_text_json(text: Option<Seq<char>>) -> JsonValue {
    match text {
        Some(t) => JsonValue::String(t),
        None => JsonValue::Null,
    }
}

/// The JSON array of the given strings.
pub open spec fn texts_json(texts: Seq<Seq<char>>) -> JsonValue {
    JsonValue::Array(Seq::new(texts.len(), |i: int| JsonValue::String(texts[i])))
}

/// The JSON object with the given string members.
pub open spec fn text_members_json(pairs: Seq<(Seq<char>, Seq<char>)>) -> JsonValue {
    JsonValue::Object(Seq::new(pairs.len(), |i: int| (pairs[i].0, JsonValue::String(pairs[i].1))))
}

/// The JSON object written for a platform.
pub open spec fn platform_json(p: PlatformView) -> JsonValue {
    JsonValue::Object(
        seq![
            ("architecture"@, JsonValue::String(p.architecture)),
            ("os"@, JsonValue::String(p.os)),
            ("os.version"@, opt_text_json(p.os_version)),
            ("os.features"@, texts_json(p.os_features)),
            ("variant"@, opt_text_json(p.variant)),
        ],
    )
}

/// The JSON object written for a manifest descriptor.
pub open spec fn descriptor_json(d: DescriptorView) -> JsonValue {
    JsonValue::Object(
        seq![
            ("mediaType"@, JsonValue::String(MANIFEST_MEDIA_TYPE@)),
            ("platform"@, platform_json(d.platform)),
            ("digest"@, JsonValue::String(d.digest)),
            ("size"@, JsonValue::Uint(d.size)),
        ],
    )
}

/// The JSON document written for an image index.
pub open spec fn index_json(x: IndexView) -> JsonValue {
    JsonValue::Object(
        seq![
            ("schemaVersion"@, JsonValue::Uint(SCHEMA_VERSION)),
            (
                "manifests"@,
                JsonValue::Array(
                    Seq::new(x.manifests.len(), |i: int| descriptor_json(x.manifests[i])),
                ),
            ),
            ("annotations"@, text_members_json(x.annotations)),
        ],
    )
}

fn encode_opt_text(text: &Option<String>) -> (j: Json)
    ensures
        j@ == opt_text_json(text.deep_view()),
{
    match text {
        Some(t) => Json::String(t.clone()),
        None => Json::Null,
    }
}

fn encode_texts(texts: &Vec<String>) -> (j: Json)
    ensures
        j@ == texts_json(texts.deep_view()),
{
    let mut out: Vec<Json> = Vec::new();
    let mut i: usize = 0;
    while i < texts.len()
        invariant
            i <= texts@.len(),
            out@.len() == i,
            forall|k: int| 0 <= k < i ==> (#[trigger] out@[k])@ == JsonValue::String(texts@[k]@),
        decreases texts@.len() - i,
    {
        out.push(Json::String(texts[i].clone()));
        i = i + 1;
    }
    let j = Json::Array(out);
    assert(j@->Array_0 =~= texts_json(texts.deep_view())->Array_0);
    j
}

fn encode_text_members(pairs: &Vec<(String, String)>) -> (j: Json)
    ensures
        j@ == text_members_json(pairs.deep_view()),
{
    let mut out: Vec<(String, Json)> = Vec::new();
    let mut i: usize = 0;
    while i < pairs.len()
        invariant
            i <= pairs@.len(),
            out@.len() == i,
            forall|k: int|
                0 <= k < i ==> (#[trigger] out@[k]).0@ == pairs@[k].0@ && out@[k].1@
                    == JsonValue::String(pairs@[k].1@),
        decreases pairs@.len() - i,
    {
        let entry = &pairs[i];
        out.push((entry.0.clone(), Json::String(entry.1.clone())));
        i = i + 1;
    }
    let j = Json::Object(out);
    assert(j@->Object_0 =~= text_members_json(pairs.deep_view())->Object_0);
    j
}

fn named(name: &str, value: Json) -> (pair: (String, Json))
    ensures
        pair.0@ == name@,
        pair.1@ == value@,
{
    (name.to_owned(), value)
}

/// Writes a platform as a JSON object.
pub fn encode_platform(p: &OciImageIndexManifestPlatform) -> (j: Json)
    ensures
        j@ == platform_json(p@),
{
    let mut out: Vec<(String, Json)> = Vec::new();
    out.push(named("architecture", Json::String(p.architecture.clone())));
    out.push(named("os", Json::String(p.os.clone())));
    out.push(named("os.version", encode_opt_text(&p.os_version)));
    out.push(named("os.features", encode_texts(&p.os_features)));
    out.push(named("variant", encode_opt_text(&p.variant)));
    let j = Json::Object(out);
    assert(j@->Object_0 =~= platform_json(p@)->Object_0);
    j
}

/// Writes a manifest descriptor as a JSON object.
pub fn encode_descriptor(d: &OciImageIndexManifest) -> (j: Json)
    ensures
        j@ == descriptor_json(d@),
{
    let mut out: Vec<(String, Json)> = Vec::new();
    out.push(named("mediaType", Json::String(MANIFEST_MEDIA_TYPE.to_owned())));
    out.push(named("platform", encode_platform(&d.platform)));
    out.push(named("digest", Json::String(d.digest.clone())));
    out.push(named("size", Json::Uint(d.size)));
    let j = Json::Object(out);
    assert(j@->Object_0 =~= descriptor_json(d@)->Object_0);
    j
}

/// Writes an image index as a JSON document.
pub fn encode_index(x: &OciImageIndex) -> (j: Json)
    ensures
        j@ == index_json(x@),
{
    let mut list: Vec<Json> = Vec::new();
    let mut i: usize = 0;
    while i < x.manifests.len()
        invariant
            i <= x.manifests@.len(),
            list@.len() == i,
            forall|k: int| 0 <= k < i ==> (#[trigger] list@[k])@ == descriptor_json(x.manifests@[k]@),
        decreases x.manifests@.len() - i,
    {
        list.push(encode_descriptor(&x.manifests[i]));
        i = i + 1;
    }
    let manifests = Json::Array(list);
    assert(manifests@->Array_0 =~= Seq::new(
        x@.manifests.len(),
        |k: int| descriptor_json(x@.manifests[k]),
    ));
    let mut out: Vec<(String, Json)> = Vec::new();
    out.push(named("schemaVersion", Json::Uint(SCHEMA_VERSION)));
    out.push(named("manifests", manifests));
    out.push(named("annotations", encode_text_members(&x.annotations)));
    let j = Json::Object(out);
    assert(j@->Object_0 =~= index_json(x@)->Object_0);
    j
}

/// Reads an image index from JSON text. Fails when the text is no JSON
/// document or the document is no image index.
pub fn parse_index(text: &[u8]) -> (index: Option<OciImageIndex>)
    ensures
        index.deep_view() == match parsed(text@) {
            Some(j) => index_of(j),
            None => None,
        },
{
    match parse(text) {
        Some(j) => decode_index(&j),
        None => None,
    }
}

/// Reads a manifest from JSON text. Fails when the text is no JSON document
/// or the document is no manifest.
pub fn parse_manifest(text: &[u8]) -> (manifest: Option<OciImageIndexManifestEntry>)
    ensures
        manifest.deep_view() == match parsed(text@) {
            Some(j) => manifest_of(j),
            None => None,
        },
{
    match parse(text) {
        Some(j) => decode_manifest(&j),
        None => None,
    }
}

/// Reads an image configuration from JSON text. Fails when the text is no
/// JSON document or the document is no image configuration.
pub fn parse_config(text: &[u8]) -> (config: Option<OciImageConfig>)
    ensures
        config.deep_view() == match parsed(text@) {
            Some(j) => config_of(j),
            None => None,
        },
{
    match parse(text) {
        Some(j) => decode_config(&j),
        None => None,
    }
}

/// Writes an image index as JSON text.
pub fn print_index(x: &OciImageIndex) -> (text: Vec<u8>)
    ensures
        text@ == printed(index_json(x@)),
{
    print(&encode_index(x))
}

/// A member found at position `i`, with no member of the same name after it,
/// is the one that a lookup by that name gives.
pub proof fn lemma_member_found(members: Seq<(Seq<char>, JsonValue)>, i: int, key: Seq<char>)
    requires
        0 <= i < members.len(),
        members[i].0 == key,
        forall|k: int| i < k < members.len() ==> members[k].0 != key,
    ensures
        member(members, key) == Some(members[i].1),
    decreases members.len(),
{
    if i < members.len() - 1 {
        lemma_member_found(members.drop_last(), i, key);
    }
}

/// An array of strings reads back as the strings it was written from.
pub proof fn lemma_texts_round_trip(texts: Seq<Seq<char>>)
    ensures
        texts_json(texts).as_texts() == Some(texts),
{
    assert(texts_json(texts).as_texts()->0 =~= texts);
}

/// An object of string members reads back as the members it was written from.
pub proof fn lemma_text_members_round_trip(pairs: Seq<(Seq<char>, Seq<char>)>)
    ensures
        text_members_json(pairs).as_text_members() == Some(pairs),
{
    assert(text_members_json(pairs).as_text_members()->0 =~= pairs);
}

/// A platform written as JSON reads back as itself.
pub proof fn lemma_platform_round_trip(p: PlatformView)
    ensures
        platform_of(platform_json(p)) == Some(p),
{
    reveal_strlit("architecture");
    reveal_strlit("os");
    reveal_strlit("os.version");
    reveal_strlit("os.features");
    reveal_strlit("variant");
    assert("architecture"@.len() == 12 && "os"@.len() == 2 && "os.version"@.len() == 10
        && "os.features"@.len() == 11 && "variant"@.len() == 7);
    let m = platform_json(p)->Object_0;
    assert(m.len() == 5 && m[0].0 == "architecture"@ && m[1].0 == "os"@ && m[2].0
        == "os.version"@ && m[3].0 == "os.features"@ && m[4].0 == "variant"@);
    lemma_member_found(m, 0, "architecture"@);
    lemma_member_found(m, 1, "os"@);
    lemma_member_found(m, 2, "os.version"@);
    lemma_member_found(m, 3, "os.features"@);
    lemma_member_found(m, 4, "variant"@);
    lemma_texts_round_trip(p.os_features);
}

/// A manifest descriptor written as JSON reads back as itself.
pub proof fn lemma_descriptor_round_trip(d: DescriptorView)
    ensures
        descriptor_of(descriptor_json(d)) == Some(d),
{
    reveal_strlit("mediaType");
    reveal_strlit("platform");
    reveal_strlit("digest");
    reveal_strlit("size");
    assert("mediaType"@.len() == 9 && "platform"@.len() == 8 && "digest"@.len() == 6
        && "size"@.len() == 4);
    let m = descriptor_json(d)->Object_0;
    assert(m.len() == 4 && m[0].0 == "mediaType"@ && m[1].0 == "platform"@ && m[2].0
        == "digest"@ && m[3].0 == "size"@);
    lemma_member_found(m, 0, "mediaType"@);
    lemma_member_found(m, 1, "platform"@);
    lemma_member_found(m, 2, "digest"@);
    lemma_member_found(m, 3, "size"@);
    lemma_platform_round_trip(d.platform);
}

/// Writing an image index as JSON and reading the document back gives the
/// index that was written: nothing of it is lost or changed.
pub proof fn lemma_index_round_trip(x: IndexView)
    ensures
        index_of(index_json(x)) == Some(x),
{
    reveal_strlit("schemaVersion");
    reveal_strlit("manifests");
    reveal_strlit("annotations");
    assert("schemaVersion"@.len() == 13 && "manifests"@.len() == 9 && "annotations"@.len()
        == 11);
    let m = index_json(x)->Object_0;
    assert(m.len() == 3 && m[0].0 == "schemaVersion"@ && m[1].0 == "manifests"@ && m[2].0
        == "annotations"@);
    lemma_member_found(m, 0, "schemaVersion"@);
    lemma_member_found(m, 1, "manifests"@);
    lemma_member_found(m, 2, "annotations"@);
    lemma_text_members_round_trip(x.annotations);
    let items = m[1].1->Array_0;
    assert forall|i: int| 0 <= i < items.len() implies descriptor_of(#[trigger] items[i]) == Some(
        x.manifests[i],
    ) by {
        lemma_descriptor_round_trip(x.manifests[i]);
    }
    assert(descriptors_of(m[1].1)->0 =~= x.manifests);
}

/// A document is read as an image index only if its `schemaVersion` member is
/// the number 2: with any other value, or without the member, reading fails.
pub proof fn lemma_index_needs_schema_version(j: JsonValue)
    ensures
        j.get("schemaVersion"@) != Some(JsonValue::Uint(2)) ==> index_of(j) is None,
{
}

/// A document is read as a manifest only if its `schemaVersion` member is the
/// number 2 and its `mediaType` member is the manifest media type.
pub proof fn lemma_manifest_needs_constants(j: JsonValue)
    ensures
        j.get("schemaVersion"@) != Some(JsonValue::Uint(2)) ==> manifest_of(j) is None,
        j.get("mediaType"@) != Some(JsonValue::String(MANIFEST_MEDIA_TYPE@)) ==> manifest_of(j)
            is None,
{
}

} // verus!
