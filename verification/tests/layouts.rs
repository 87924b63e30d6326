use std::collections::BTreeMap;

use athlete::error::DigestError;
use athlete::image::codec::parse_index;
use athlete::image::layout::{FileOp, LAYOUT_MARKER};
use athlete::image::{
    ImageLayoutWriter, OciImageIndex, OciImageIndexManifest, OciImageIndexManifestPlatform,
};
use athlete::util::digest;

const HELLO_256: &str = "b94d27b9934d3e08a52e52d7da7dabfac484efe37a5380ee9088f7ace2efcde9";
const HELLO_512: &str = "309ecc489c12d6eb4cc40f50c902f2b4d0ed77ee511a7c7a9bcd3ca86d4cd86f989dd35bc5ff499670da34255b45b0cfd830e81f605dcf7dc5542e93ae9cd76f";

fn index() -> OciImageIndex {
    OciImageIndex {
        manifests: vec![OciImageIndexManifest {
            platform: OciImageIndexManifestPlatform {
                architecture: "amd64".to_string(),
                os: "linux".to_string(),
                os_version: None,
                os_features: Vec::new(),
                variant: None,
            },
            digest: format!("sha256:{HELLO_256}"),
            size: 11,
        }],
        annotations: Vec::new(),
    }
}

fn writer(dir: &str) -> ImageLayoutWriter {
    ImageLayoutWriter::init(dir.to_string(), &index()).0
}

fn perform(files: &mut BTreeMap<String, Vec<u8>>, dirs: &mut Vec<String>, ops: &[FileOp]) {
    for op in ops {
        match op {
            FileOp::CreateDir { path } => {
                if !dirs.contains(path) {
                    dirs.push(path.clone());
                }
            }
            FileOp::Write { path, content } => {
                files.insert(path.clone(), content.clone());
            }
        }
    }
}

#[test]
fn marker_content() {
    assert_eq!(LAYOUT_MARKER, "{\"imageLayoutVersion\": \"1.0.0\"}");
}

#[test]
fn init_creates_directory_marker_and_index() {
    let (w, ops) = ImageLayoutWriter::init("out/img".to_string(), &index());
    assert_eq!(w.dir(), "out/img");
    assert_eq!(ops.len(), 3);
    assert_eq!(ops[0], FileOp::CreateDir { path: "out/img".to_string() });
    assert_eq!(
        ops[1],
        FileOp::Write {
            path: "out/img/oci-layout".to_string(),
            content: b"{\"imageLayoutVersion\": \"1.0.0\"}".to_vec(),
        }
    );
    match &ops[2] {
        FileOp::Write { path, content } => {
            assert_eq!(path, "out/img/index.json");
            assert_eq!(parse_index(content), Some(index()));
        }
        other => panic!("unexpected {other:?}"),
    }
}

#[test]
fn init_with_given_index_text() {
    let (w, ops) = ImageLayoutWriter::init_with_index_text("d".to_string(), b"{}".to_vec());
    assert_eq!(w.dir(), "d");
    assert_eq!(
        ops,
        vec![
            FileOp::CreateDir { path: "d".to_string() },
            FileOp::Write { path: "d/oci-layout".to_string(), content: LAYOUT_MARKER.as_bytes().to_vec() },
            FileOp::Write { path: "d/index.json".to_string(), content: b"{}".to_vec() },
        ]
    );
}

#[test]
fn init_is_the_same_every_time() {
    let a = ImageLayoutWriter::init("d".to_string(), &index()).1;
    let b = ImageLayoutWriter::init("d".to_string(), &index()).1;
    assert_eq!(a, b);
}

#[test]
fn blob_is_placed_under_algorithm_and_hash() {
    let w = writer("out/img");
    let ops = w.write_blob(&format!("sha256:{HELLO_256}"), b"hello world").unwrap();
    assert_eq!(
        ops,
        vec![
            FileOp::CreateDir { path: "out/img/blobs/sha256".to_string() },
            FileOp::Write {
                path: format!("out/img/blobs/sha256/{HELLO_256}"),
                content: b"hello world".to_vec(),
            },
        ]
    );
    let ops = w.write_blob(&format!("sha512:{HELLO_512}"), b"hello world").unwrap();
    assert_eq!(
        ops,
        vec![
            FileOp::CreateDir { path: "out/img/blobs/sha512".to_string() },
            FileOp::Write {
                path: format!("out/img/blobs/sha512/{HELLO_512}"),
                content: b"hello world".to_vec(),
            },
        ]
    );
}

#[test]
fn blob_of_any_content_is_placed_by_its_digest() {
    let w = writer("x");
    for content in [b"".to_vec(), b"a".to_vec(), vec![0u8; 1000], (0..=255u8).collect::<Vec<u8>>()] {
        for alg in ["sha256", "sha512"] {
            let hex = digest(alg, content.clone()).unwrap();
            let ops = w.write_blob(&format!("{alg}:{hex}"), &content).unwrap();
            assert_eq!(
                ops[1],
                FileOp::Write { path: format!("x/blobs/{alg}/{hex}"), content: content.clone() }
            );
        }
    }
}

#[test]
fn writing_a_blob_twice_changes_nothing() {
    let w = writer("x");
    let name = format!("sha256:{HELLO_256}");
    let mut files = BTreeMap::new();
    let mut dirs = Vec::new();
    perform(&mut files, &mut dirs, &w.write_blob(&name, b"hello world").unwrap());
    let files_once = files.clone();
    let dirs_once = dirs.clone();
    perform(&mut files, &mut dirs, &w.write_blob(&name, b"hello world").unwrap());
    assert_eq!(files, files_once);
    assert_eq!(dirs, dirs_once);
    assert_eq!(files.get(&format!("x/blobs/sha256/{HELLO_256}")), Some(&b"hello world".to_vec()));
    assert_eq!(files.len(), 1);
}

#[test]
fn mismatched_content_is_refused() {
    let w = writer("x");
    let name = format!("sha256:{HELLO_256}");
    assert_eq!(w.write_blob(&name, b"hello world!"), Err(DigestError::Mismatch));
    assert_eq!(w.write_blob(&name, b""), Err(DigestError::Mismatch));
    assert_eq!(w.write_blob(&format!("sha512:{HELLO_256}"), b"hello world"), Err(DigestError::Mismatch));
    assert_eq!(w.write_blob("sha256:aaaa", b"hello world"), Err(DigestError::Mismatch));
    assert_eq!(w.write_blob("sha256:", b"hello world"), Err(DigestError::Mismatch));
    let upper = format!("sha256:{}", HELLO_256.to_uppercase());
    assert_eq!(w.write_blob(&upper, b"hello world"), Err(DigestError::Mismatch));
}

#[test]
fn malformed_digest_is_refused() {
    let w = writer("x");
    assert_eq!(w.write_blob(HELLO_256, b"hello world"), Err(DigestError::Malformed));
    assert_eq!(w.write_blob("", b""), Err(DigestError::Malformed));
    assert_eq!(w.write_blob("sha256", b""), Err(DigestError::Malformed));
}

#[test]
fn unknown_algorithm_is_refused_for_blobs() {
    let w = writer("x");
    assert_eq!(w.write_blob("md5:abc", b""), Err(DigestError::UnrecognizedAlgorithm));
    assert_eq!(w.write_blob(":abc", b""), Err(DigestError::UnrecognizedAlgorithm));
    assert_eq!(w.write_blob("../../etc:passwd", b""), Err(DigestError::UnrecognizedAlgorithm));
}

#[test]
fn layout_directory_with_trailing_slash() {
    let (w, ops) = ImageLayoutWriter::init("out/".to_string(), &index());
    match &ops[1] {
        FileOp::Write { path, .. } => assert_eq!(path, "out/oci-layout"),
        other => panic!("unexpected {other:?}"),
    }
    let ops = w.write_blob(&format!("sha256:{HELLO_256}"), b"hello world").unwrap();
    assert_eq!(ops[0], FileOp::CreateDir { path: "out/blobs/sha256".to_string() });
}
