use athlete::image::codec::{
    decode_config, decode_descriptor, decode_history, decode_index, decode_manifest,
    decode_platform, decode_token, encode_index, encode_platform, parse_config, parse_index,
    parse_manifest, print_index, CONFIG_MEDIA_TYPE, LAYER_MEDIA_TYPE, MANIFEST_MEDIA_TYPE,
    SCHEMA_VERSION,
};
use athlete::image::{
    OciImageConfigHistory, OciImageConfigRef, OciImageIndex, OciImageIndexManifest,
    OciImageIndexManifestPlatform, OciImageLayer,
};
use athlete::json::Json;

fn s(text: &str) -> Json {
    Json::String(text.to_string())
}

fn obj(members: Vec<(&str, Json)>) -> Json {
    Json::Object(members.into_iter().map(|(k, v)| (k.to_string(), v)).collect())
}

fn platform(arch: &str, os: &str) -> OciImageIndexManifestPlatform {
    OciImageIndexManifestPlatform {
        architecture: arch.to_string(),
        os: os.to_string(),
        os_version: None,
        os_features: Vec::new(),
        variant: None,
    }
}

fn descriptor_doc(arch: &str, os: &str, digest: &str, size: u64) -> Json {
    obj(vec![
        ("mediaType", s(MANIFEST_MEDIA_TYPE)),
        ("platform", obj(vec![("architecture", s(arch)), ("os", s(os))])),
        ("digest", s(digest)),
        ("size", Json::Uint(size)),
    ])
}

const INDEX_TEXT: &str = r#"{
  "schemaVersion": 2,
  "mediaType": "application/vnd.oci.image.index.v1+json",
  "manifests": [
    {
      "mediaType": "application/vnd.oci.image.manifest.v1+json",
      "digest": "sha256:aaaa",
      "size": 1024,
      "platform": {"architecture": "amd64", "os": "linux"}
    },
    {
      "mediaType": "application/vnd.oci.image.manifest.v1+json",
      "digest": "sha256:bbbb",
      "size": 18446744073709551615,
      "platform": {
        "architecture": "arm64",
        "os": "linux",
        "os.version": "1.2",
        "os.features": ["a", "b"],
        "variant": "v8"
      }
    }
  ],
  "annotations": {"k": "v"}
}"#;

#[test]
fn constants_of_the_format() {
    assert_eq!(SCHEMA_VERSION, 2);
    assert_eq!(MANIFEST_MEDIA_TYPE, "application/vnd.oci.image.manifest.v1+json");
    assert_eq!(CONFIG_MEDIA_TYPE, "application/vnd.oci.image.config.v1+json");
    assert_eq!(LAYER_MEDIA_TYPE, "application/vnd.oci.image.layer.v1.tar+gzip");
}

#[test]
fn index_is_read_from_text() {
    let index = parse_index(INDEX_TEXT.as_bytes()).unwrap();
    assert_eq!(index.manifests.len(), 2);
    assert_eq!(
        index.manifests[0],
        OciImageIndexManifest {
            platform: platform("amd64", "linux"),
            digest: "sha256:aaaa".to_string(),
            size: 1024,
        }
    );
    assert_eq!(
        index.manifests[1],
        OciImageIndexManifest {
            platform: OciImageIndexManifestPlatform {
                architecture: "arm64".to_string(),
                os: "linux".to_string(),
                os_version: Some("1.2".to_string()),
                os_features: vec!["a".to_string(), "b".to_string()],
                variant: Some("v8".to_string()),
            },
            digest: "sha256:bbbb".to_string(),
            size: u64::MAX,
        }
    );
    assert_eq!(index.annotations, vec![("k".to_string(), "v".to_string())]);
}

#[test]
fn index_with_other_schema_version_is_refused() {
    for version in ["1", "3", "0", "20", "-2", "2.0", "2.5", "\"2\"", "null", "true", "[2]"] {
        let text = format!("{{\"schemaVersion\": {version}, \"manifests\": []}}");
        assert_eq!(parse_index(text.as_bytes()), None, "schemaVersion {version}");
    }
    assert!(parse_index(b"{\"schemaVersion\": 2, \"manifests\": []}").is_some());
}

#[test]
fn index_without_schema_version_is_refused() {
    assert_eq!(parse_index(b"{\"manifests\": []}"), None);
    assert_eq!(decode_index(&obj(vec![("manifests", Json::Array(vec![]))])), None);
}

#[test]
fn index_schema_version_is_checked_on_documents() {
    let good = obj(vec![("schemaVersion", Json::Uint(2)), ("manifests", Json::Array(vec![]))]);
    assert_eq!(
        decode_index(&good),
        Some(OciImageIndex { manifests: vec![], annotations: vec![] })
    );
    for bad in [Json::Uint(1), Json::Uint(3), Json::Number("-2".to_string()), s("2"), Json::Null] {
        let doc = obj(vec![("schemaVersion", bad), ("manifests", Json::Array(vec![]))]);
        assert_eq!(decode_index(&doc), None);
    }
}

#[test]
fn index_must_be_an_object_with_manifests() {
    assert_eq!(parse_index(b""), None);
    assert_eq!(parse_index(b"not json"), None);
    assert_eq!(parse_index(b"[]"), None);
    assert_eq!(parse_index(b"2"), None);
    assert_eq!(parse_index(b"{\"schemaVersion\": 2}"), None);
    assert_eq!(parse_index(b"{\"schemaVersion\": 2, \"manifests\": {}}"), None);
    assert_eq!(parse_index(b"{\"schemaVersion\": 2, \"manifests\": null}"), None);
    assert_eq!(parse_index(b"{\"schemaVersion\": 2, \"manifests\": [1]}"), None);
    assert_eq!(parse_index(b"{\"schemaVersion\": 2, \"manifests\": []} trailing"), None);
}

#[test]
fn index_annotations_default_to_none_and_must_be_strings() {
    let index = parse_index(b"{\"schemaVersion\": 2, \"manifests\": []}").unwrap();
    assert!(index.annotations.is_empty());
    assert_eq!(
        parse_index(b"{\"schemaVersion\": 2, \"manifests\": [], \"annotations\": null}"),
        None
    );
    assert_eq!(
        parse_index(b"{\"schemaVersion\": 2, \"manifests\": [], \"annotations\": {\"a\": 1}}"),
        None
    );
    assert_eq!(
        parse_index(b"{\"schemaVersion\": 2, \"manifests\": [], \"annotations\": []}"),
        None
    );
}

#[test]
fn descriptor_media_type_must_match() {
    assert!(decode_descriptor(&descriptor_doc("amd64", "linux", "sha256:aa", 3)).is_some());
    let wrong = obj(vec![
        ("mediaType", s("application/vnd.docker.distribution.manifest.v2+json")),
        ("platform", obj(vec![("architecture", s("amd64")), ("os", s("linux"))])),
        ("digest", s("sha256:aa")),
        ("size", Json::Uint(3)),
    ]);
    assert_eq!(decode_descriptor(&wrong), None);
    let missing = obj(vec![
        ("platform", obj(vec![("architecture", s("amd64")), ("os", s("linux"))])),
        ("digest", s("sha256:aa")),
        ("size", Json::Uint(3)),
    ]);
    assert_eq!(decode_descriptor(&missing), None);
}

#[test]
fn descriptor_needs_every_member() {
    let full = descriptor_doc("amd64", "linux", "sha256:aa", 3);
    let members = match &full {
        Json::Object(m) => m,
        _ => unreachable!(),
    };
    for skip in 0..members.len() {
        let mut rest = Vec::new();
        for (i, (k, v)) in members.iter().enumerate() {
            if i != skip {
                rest.push((k.clone(), v.duplicate()));
            }
        }
        assert_eq!(decode_descriptor(&Json::Object(rest)), None, "without member {skip}");
    }
    let negative = obj(vec![
        ("mediaType", s(MANIFEST_MEDIA_TYPE)),
        ("platform", obj(vec![("architecture", s("amd64")), ("os", s("linux"))])),
        ("digest", s("sha256:aa")),
        ("size", Json::Number("-1".to_string())),
    ]);
    assert_eq!(decode_descriptor(&negative), None);
}

#[test]
fn platform_optional_members() {
    let doc = obj(vec![
        ("architecture", s("amd64")),
        ("os", s("linux")),
        ("os.version", Json::Null),
        ("variant", Json::Null),
        ("unknown", Json::Bool(true)),
    ]);
    assert_eq!(decode_platform(&doc), Some(platform("amd64", "linux")));
    let null_features = obj(vec![
        ("architecture", s("amd64")),
        ("os", s("linux")),
        ("os.features", Json::Null),
    ]);
    assert_eq!(decode_platform(&null_features), None);
    let bad_variant =
        obj(vec![("architecture", s("amd64")), ("os", s("linux")), ("variant", Json::Uint(8))]);
    assert_eq!(decode_platform(&bad_variant), None);
    assert_eq!(decode_platform(&obj(vec![("architecture", s("amd64"))])), None);
    assert_eq!(decode_platform(&s("amd64")), None);
}

#[test]
fn later_member_overrides_earlier_one() {
    let doc = obj(vec![("architecture", s("arm")), ("os", s("linux")), ("architecture", s("amd64"))]);
    assert_eq!(decode_platform(&doc), Some(platform("amd64", "linux")));
    assert_eq!(doc.get("architecture"), Some(&s("amd64")));
    assert_eq!(doc.get("os"), Some(&s("linux")));
    assert_eq!(doc.get("variant"), None);
    assert_eq!(s("x").get("architecture"), None);
}

#[test]
fn manifest_is_read_from_text() {
    let text = r#"{
      "schemaVersion": 2,
      "mediaType": "application/vnd.oci.image.manifest.v1+json",
      "config": {
        "mediaType": "application/vnd.oci.image.config.v1+json",
        "digest": "sha256:cccc",
        "size": 7
      },
      "layers": [
        {"mediaType": "application/vnd.oci.image.layer.v1.tar+gzip", "digest": "sha256:dddd", "size": 8},
        {"mediaType": "application/vnd.oci.image.layer.v1.tar+gzip", "digest": "sha256:eeee", "size": 9}
      ]
    }"#;
    let manifest = parse_manifest(text.as_bytes()).unwrap();
    assert_eq!(manifest.config, OciImageConfigRef { digest: "sha256:cccc".to_string(), size: 7 });
    assert_eq!(
        manifest.layers,
        vec![
            OciImageLayer { digest: "sha256:dddd".to_string(), size: 8 },
            OciImageLayer { digest: "sha256:eeee".to_string(), size: 9 },
        ]
    );
}

fn manifest_doc(version: Json, media: &str, config_media: &str, layer_media: &str) -> Json {
    obj(vec![
        ("schemaVersion", version),
        ("mediaType", s(media)),
        (
            "config",
            obj(vec![("mediaType", s(config_media)), ("digest", s("sha256:cc")), ("size", Json::Uint(1))]),
        ),
        (
            "layers",
            Json::Array(vec![obj(vec![
                ("mediaType", s(layer_media)),
                ("digest", s("sha256:dd")),
                ("size", Json::Uint(2)),
            ])]),
        ),
    ])
}

#[test]
fn manifest_constants_must_match() {
    let good = manifest_doc(Json::Uint(2), MANIFEST_MEDIA_TYPE, CONFIG_MEDIA_TYPE, LAYER_MEDIA_TYPE);
    assert!(decode_manifest(&good).is_some());
    let cases = [
        manifest_doc(Json::Uint(1), MANIFEST_MEDIA_TYPE, CONFIG_MEDIA_TYPE, LAYER_MEDIA_TYPE),
        manifest_doc(Json::Uint(2), CONFIG_MEDIA_TYPE, CONFIG_MEDIA_TYPE, LAYER_MEDIA_TYPE),
        manifest_doc(Json::Uint(2), MANIFEST_MEDIA_TYPE, MANIFEST_MEDIA_TYPE, LAYER_MEDIA_TYPE),
        manifest_doc(Json::Uint(2), MANIFEST_MEDIA_TYPE, CONFIG_MEDIA_TYPE, "application/vnd.oci.image.layer.v1.tar"),
        manifest_doc(Json::Uint(2), "", CONFIG_MEDIA_TYPE, LAYER_MEDIA_TYPE),
    ];
    for doc in cases.iter() {
        assert_eq!(decode_manifest(doc), None);
    }
    assert_eq!(parse_manifest(b"{}"), None);
    assert_eq!(parse_manifest(b"{"), None);
}

const CONFIG_TEXT: &str = r#"{
  "created": "2024-01-01T00:00:00Z",
  "architecture": "amd64",
  "os": "linux",
  "config": {
    "User": "root",
    "ExposedPorts": {"80/tcp": {}},
    "Env": ["PATH=/bin"],
    "Cmd": ["/bin/sh"],
    "Labels": {"a": "b"},
    "Tty": false
  },
  "rootfs": {"type": "layers", "diff_ids": ["sha256:1111"]},
  "history": [
    {"created": "2024-01-01T00:00:00Z", "created_by": "ADD file", "empty_layer": true},
    {}
  ]
}"#;

#[test]
fn config_is_read_from_text() {
    let config = parse_config(CONFIG_TEXT.as_bytes()).unwrap();
    assert_eq!(config.created.as_deref(), Some("2024-01-01T00:00:00Z"));
    assert_eq!(config.author, None);
    assert_eq!(config.architecture, "amd64");
    assert_eq!(config.os, "linux");
    assert_eq!(config.rootfs.kind, "layers");
    assert_eq!(config.rootfs.diff_ids, vec!["sha256:1111".to_string()]);
    let runtime = config.config.unwrap();
    assert_eq!(runtime.user.as_deref(), Some("root"));
    assert_eq!(
        runtime.exposed_ports,
        Some(vec![("80/tcp".to_string(), Json::Object(vec![]))])
    );
    assert_eq!(runtime.env, Some(vec!["PATH=/bin".to_string()]));
    assert_eq!(runtime.entrypoint, None);
    assert_eq!(runtime.cmd, vec!["/bin/sh".to_string()]);
    assert_eq!(runtime.volumes, None);
    assert_eq!(runtime.working_dir, None);
    assert_eq!(runtime.labels, Some(vec![("a".to_string(), "b".to_string())]));
    assert_eq!(runtime.stop_signal, None);
    assert_eq!(
        config.history,
        Some(vec![
            OciImageConfigHistory {
                created: Some("2024-01-01T00:00:00Z".to_string()),
                created_by: Some("ADD file".to_string()),
                empty_layer: Some(true),
            },
            OciImageConfigHistory { created: None, created_by: None, empty_layer: None },
        ])
    );
}

#[test]
fn config_required_members() {
    let rootfs = obj(vec![("diff_ids", Json::Array(vec![])), ("type", s("layers"))]);
    let minimal = obj(vec![("architecture", s("amd64")), ("os", s("linux")), ("rootfs", rootfs)]);
    let config = decode_config(&minimal).unwrap();
    assert_eq!(config.config, None);
    assert_eq!(config.history, None);
    assert_eq!(decode_config(&obj(vec![("architecture", s("amd64")), ("os", s("linux"))])), None);
    let no_cmd = obj(vec![
        ("architecture", s("amd64")),
        ("os", s("linux")),
        ("rootfs", obj(vec![("diff_ids", Json::Array(vec![])), ("type", s("layers"))])),
        ("config", obj(vec![("User", s("root"))])),
    ]);
    assert_eq!(decode_config(&no_cmd), None);
    let bad_rootfs = obj(vec![
        ("architecture", s("amd64")),
        ("os", s("linux")),
        ("rootfs", obj(vec![("diff_ids", Json::Array(vec![Json::Uint(1)])), ("type", s("layers"))])),
    ]);
    assert_eq!(decode_config(&bad_rootfs), None);
}

#[test]
fn history_entry_must_be_an_object() {
    assert_eq!(
        decode_history(&Json::Object(vec![])),
        Some(OciImageConfigHistory { created: None, created_by: None, empty_layer: None })
    );
    assert_eq!(decode_history(&s("x")), None);
    assert_eq!(decode_history(&Json::Array(vec![])), None);
    assert_eq!(decode_history(&obj(vec![("empty_layer", s("yes"))])), None);
}

#[test]
fn token_is_the_string_member() {
    assert_eq!(decode_token(&obj(vec![("token", s("abc"))])), Some("abc".to_string()));
    assert_eq!(decode_token(&obj(vec![("token", Json::Uint(1))])), None);
    assert_eq!(decode_token(&obj(vec![("access_token", s("abc"))])), None);
    assert_eq!(decode_token(&s("abc")), None);
}

#[test]
fn json_readers() {
    assert_eq!(s("a").to_text(), Some("a".to_string()));
    assert_eq!(Json::Uint(1).to_text(), None);
    assert_eq!(Json::Uint(7).to_uint(), Some(7));
    assert_eq!(Json::Number("7.5".to_string()).to_uint(), None);
    assert_eq!(Json::Bool(true).to_flag(), Some(true));
    assert_eq!(Json::Null.to_flag(), None);
    assert_eq!(
        Json::Array(vec![s("a"), s("b")]).to_texts(),
        Some(vec!["a".to_string(), "b".to_string()])
    );
    assert_eq!(Json::Array(vec![s("a"), Json::Null]).to_texts(), None);
    assert_eq!(Json::Array(vec![]).to_texts(), Some(vec![]));
    assert_eq!(
        obj(vec![("a", s("b"))]).to_text_members(),
        Some(vec![("a".to_string(), "b".to_string())])
    );
    assert_eq!(obj(vec![("a", Json::Uint(1))]).to_text_members(), None);
    assert_eq!(
        obj(vec![("a", Json::Uint(1))]).to_members(),
        Some(vec![("a".to_string(), Json::Uint(1))])
    );
    assert_eq!(Json::Array(vec![]).to_members(), None);
    let nested = obj(vec![("a", Json::Array(vec![obj(vec![("b", Json::Null)]), Json::Bool(false)]))]);
    assert_eq!(nested.duplicate(), nested);
}

#[test]
fn platform_is_written_with_every_member() {
    let p = OciImageIndexManifestPlatform {
        architecture: "arm64".to_string(),
        os: "linux".to_string(),
        os_version: None,
        os_features: vec!["x".to_string()],
        variant: Some("v8".to_string()),
    };
    assert_eq!(
        encode_platform(&p),
        obj(vec![
            ("architecture", s("arm64")),
            ("os", s("linux")),
            ("os.version", Json::Null),
            ("os.features", Json::Array(vec![s("x")])),
            ("variant", s("v8")),
        ])
    );
}

fn sample_index() -> OciImageIndex {
    OciImageIndex {
        manifests: vec![
            OciImageIndexManifest {
                platform: platform("amd64", "linux"),
                digest: "sha256:aaaa".to_string(),
                size: 1,
            },
            OciImageIndexManifest {
                platform: OciImageIndexManifestPlatform {
                    architecture: "arm64".to_string(),
                    os: "linux".to_string(),
                    os_version: Some("10.0".to_string()),
                    os_features: vec!["f1".to_string(), "f2".to_string()],
                    variant: Some("v8".to_string()),
                },
                digest: "sha512:bbbb".to_string(),
                size: u64::MAX,
            },
        ],
        annotations: vec![
            ("a".to_string(), "1".to_string()),
            ("b".to_string(), "\"quoted\" \u{e9}\n".to_string()),
        ],
    }
}

#[test]
fn index_document_round_trip() {
    let index = sample_index();
    assert_eq!(decode_index(&encode_index(&index)), Some(index));
    let empty = OciImageIndex { manifests: vec![], annotations: vec![] };
    assert_eq!(decode_index(&encode_index(&empty)), Some(empty));
}

#[test]
fn index_text_round_trip() {
    let index = sample_index();
    let text = print_index(&index);
    assert_eq!(parse_index(&text), Some(index));
    let empty = OciImageIndex { manifests: vec![], annotations: vec![] };
    assert_eq!(parse_index(&print_index(&empty)), Some(empty));
}

#[test]
fn index_text_is_json_with_the_schema_version() {
    let text = print_index(&OciImageIndex { manifests: vec![], annotations: vec![] });
    let text = String::from_utf8(text).unwrap();
    assert!(text.starts_with('{'));
    assert!(text.contains("\"schemaVersion\":2"));
    assert!(text.contains("\"manifests\":[]"));
    assert!(text.contains("\"annotations\":{}"));
}

#[test]
fn reading_text_gives_the_document_not_the_text() {
    let index = parse_index(INDEX_TEXT.as_bytes()).unwrap();
    assert_eq!(parse_index(&print_index(&index)), Some(index));
    assert_ne!(print_index(&parse_index(INDEX_TEXT.as_bytes()).unwrap()), INDEX_TEXT.as_bytes());
}
