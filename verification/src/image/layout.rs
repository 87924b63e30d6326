//! The on-disk image layout: which directories and files make it up.
//!
//! Nothing here touches the disk. The writer says which operations bring a
//! layout about; whoever holds the directory performs them in order.

use vstd::prelude::*;
use vstd::slice::slice_to_vec;
use vstd::utf8::encode_utf8;

use crate::error::DigestError;
use crate::image::codec::{index_json, print_index};
use crate::image::model::{IndexView, OciImageIndex};
use crate::json::printed;
use crate::text::{join_path, path_join, str_eq};
use crate::util::{hex_of, split_digest, split_digest_spec, Algorithm};

verus! {

/// Content of the `oci-layout` marker file.
pub const LAYOUT_MARKER: &'static str = "{\"imageLayoutVersion\": \"1.0.0\"}";

/// One operation on the file system.
#[derive(Clone, Debug, PartialEq, Eq)]
pub enum FileOp {
    /// Create the directory and its parents, unless they are there already.
    CreateDir { path: String },
    /// Write the file, replacing what it held.
    Write { path: String, content: Vec<u8> },
}

pub enum FileOpView {
    CreateDir { path: Seq<char> },
    Write { path: Seq<char>, content: Seq<u8> },
}

impl View for FileOp {
    type V = FileOpView;

    open spec fn view(&self) -> FileOpView {
        match self {
            FileOp::CreateDir { path } => FileOpView::CreateDir { path: path@ },
            FileOp::Write { path, content } => FileOpView::Write { path: path@, content: content@ },
        }
    }
}

impl DeepView for FileOp {
    type V = FileOpView;

    open spec fn deep_view(&self) -> FileOpView {
        self@
    }
}

/// What a file system holds, as far as a layout is concerned: the directories
/// that exist and the content of each file.
pub struct FileSystem {
    pub dirs: Set<Seq<char>>,
    pub files: Map<Seq<char>, Seq<u8>>,
}

/// The file system after one operation.
pub open spec fn apply(fs: FileSystem, op: FileOpView) -> FileSystem {
    match op {
        FileOpView::CreateDir { path } => FileSystem { dirs: fs.dirs.insert(path), files: fs.files },
        FileOpView::Write { path, content } => FileSystem {
            dirs: fs.dirs,
            files: fs.files.insert(path, content),
        },
    }
}

/// The file system after the operations, performed in order.
pub open spec fn apply_all(fs: FileSystem, ops: Seq<FileOpView>) -> FileSystem
    decreases ops.len(),
{
    if ops.len() == 0 {
        fs
    } else {
        apply(apply_all(fs, ops.drop_last()), ops.last())
    }
}

/// Where the blob with the given algorithm and encoded hash is kept:
/// `blobs/<algorithm>/<encoded>` inside the layout directory.
pub open spec fn blob_path(dir: Seq<char>, algorithm: Seq<char>, encoded: Seq<char>) -> Seq<char> {
    path_join(path_join(path_join(dir, "blobs"@), algorithm), encoded)
}

/// The operations that set a layout up in `dir`, given the text of its
/// `index.json`: create the directory, write the marker, write the index.
pub open spec fn init_ops(dir: Seq<char>, index_text: Seq<u8>) -> Seq<FileOpView> {
    seq![
        FileOpView::CreateDir { path: dir },
        FileOpView::Write {
            path: path_join(dir, "oci-layout"@),
            content: encode_utf8(LAYOUT_MARKER@),
        },
        FileOpView::Write { path: path_join(dir, "index.json"@), content: index_text },
    ]
}

/// What writing a blob under a digest comes to. The digest must split into
/// algorithm and encoded hash, the algorithm must be known, and the content
/// must hash to the encoded value; then the blob's directory is created and
/// the content written, unchanged, to the blob's path.
pub open spec fn blob_ops(dir: Seq<char>, digest: Seq<char>, content: Seq<u8>) -> Result<
    Seq<FileOpView>,
    DigestError,
> {
    match split_digest_spec(digest) {
        None => Err(DigestError::Malformed),
        Some((algorithm, encoded)) => match Algorithm::of_name(algorithm) {
            None => Err(DigestError::UnrecognizedAlgorithm),
            Some(a) => if hex_of(a.hash_of(content)) == encoded {
                Ok(
                    seq![
                        FileOpView::CreateDir {
                            path: path_join(path_join(dir, "blobs"@), algorithm),
                        },
                        FileOpView::Write { path: blob_path(dir, algorithm, encoded), content },
                    ],
                )
            } else {
                Err(DigestError::Mismatch)
            },
        },
    }
}

/// Plans the files of one image layout directory.
pub struct ImageLayoutWriter {
    dir: String,
}

impl View for ImageLayoutWriter {
    type V = Seq<char>;

    /// The layout directory.
    closed spec fn view(&self) -> Seq<char> {
        self.dir@
    }
}

impl ImageLayoutWriter {
    /// The layout directory.
    pub fn dir(&self) -> (dir: &str)
        ensures
            dir@ == self@,
    {
        self.dir.as_str()
    }

    /// Sets a layout up in `dir` with the given text as its `index.json`.
    /// Returns the writer for the directory and the operations to perform.
    /// The marker is written on every call, always with the same content.
    pub fn init_with_index_text(dir: String, index_text: Vec<u8>) -> (planned: (
        ImageLayoutWriter,
        Vec<FileOp>,
    ))
        ensures
            planned.0@ == dir@,
            planned.1.deep_view() == init_ops(dir@, index_text@),
    {
        let mut ops: Vec<FileOp> = Vec::new();
        ops.push(FileOp::CreateDir { path: dir.clone() });
        ops.push(
            FileOp::Write {
                path: join_path(dir.as_str(), "oci-layout"),
                content: LAYOUT_MARKER.as_bytes_vec(),
            },
        );
        ops.push(FileOp::Write { path: join_path(dir.as_str(), "index.json"), content: index_text });
        assert(ops.deep_view() =~= init_ops(dir@, index_text@));
        (ImageLayoutWriter { dir }, ops)
    }

    /// Sets a layout up in `dir` for the given index, which is written to
    /// `index.json` as JSON text.
    pub fn init(dir: String, index: &OciImageIndex) -> (planned: (ImageLayoutWriter, Vec<FileOp>))
        ensures
            planned.0@ == dir@,
            planned.1.deep_view() == init_ops(dir@, printed(index_json(index@))),
    {
        Self::init_with_index_text(dir, print_index(index))
    }

    /// Plans the writing of a blob under its digest. The content is hashed
    /// under the algorithm that the digest names, and the blob is refused
    /// unless the hash is the one that the digest gives.
    pub fn write_blob(&self, digest: &str, blob_content: &[u8]) -> (planned: Result<
        Vec<FileOp>,
        DigestError,
    >)
        ensures
            match planned {
                Ok(ops) => blob_ops(self@, digest@, blob_content@) == Ok::<
                    Seq<FileOpView>,
                    DigestError,
                >(ops.deep_view()),
                Err(e) => blob_ops(self@, digest@, blob_content@) == Err::<
                    Seq<FileOpView>,
                    DigestError,
                >(e),
            },
    {
        let (algorithm, encoded) = match split_digest(digest) {
            Some(parts) => parts,
            None => {
                return Err(DigestError::Malformed);
            },
        };
        let a = match Algorithm::from_name(algorithm) {
            Some(a) => a,
            None => {
                return Err(DigestError::UnrecognizedAlgorithm);
            },
        };
        let actual = a.hash_hex(blob_content);
        if !str_eq(actual.as_str(), encoded) {
            return Err(DigestError::Mismatch);
        }
        let blobs = join_path(self.dir.as_str(), "blobs");
        let folder = join_path(blobs.as_str(), algorithm);
        let file = join_path(folder.as_str(), encoded);
        let mut ops: Vec<FileOp> = Vec::new();
        ops.push(FileOp::CreateDir { path: folder });
        ops.push(FileOp::Write { path: file, content: slice_to_vec(blob_content) });
        assert(ops.deep_view() =~= blob_ops(self@, digest@, blob_content@)->Ok_0);
        Ok(ops)
    }
}

/// For every digest `alg:hex` with a known algorithm and the hash of the
/// content as `hex`, writing the blob places the content at
/// `blobs/alg/hex` inside the layout directory.
pub proof fn lemma_blob_is_placed_by_digest(
    fs: FileSystem,
    dir: Seq<char>,
    algorithm: Seq<char>,
    encoded: Seq<char>,
    content: Seq<u8>,
)
    requires
        Algorithm::of_name(algorithm) is Some,
        hex_of(Algorithm::of_name(algorithm)->0.hash_of(content)) == encoded,
    ensures
        blob_ops(dir, algorithm + seq![':'] + encoded, content) is Ok,
        apply_all(
            fs,
            blob_ops(dir, algorithm + seq![':'] + encoded, content)->Ok_0,
        ).files.contains_pair(blob_path(dir, algorithm, encoded), content),
{
    reveal_strlit("sha256");
    reveal_strlit("sha512");
    assert(!algorithm.contains(':')) by {
        if algorithm.contains(':') {
            let i = choose|i: int| 0 <= i < algorithm.len() && algorithm[i] == ':';
            assert(algorithm[i] == ':');
        }
    }
    crate::util::lemma_split_digest_of_parts(algorithm, encoded);
    let ops = blob_ops(dir, algorithm + seq![':'] + encoded, content)->Ok_0;
    lemma_apply_two(fs, ops);
}

/// Two operations in a row, spelled out.
proof fn lemma_apply_two(fs: FileSystem, ops: Seq<FileOpView>)
    requires
        ops.len() == 2,
    ensures
        apply_all(fs, ops) == apply(apply(fs, ops[0]), ops[1]),
{
    reveal_with_fuel(apply_all, 3);
    assert(ops.drop_last().drop_last().len() == 0);
    assert(ops.drop_last().last() == ops[0]);
}

/// Writing a blob again under the same digest with the same content changes
/// nothing: the file system is as it was after the first write.
pub proof fn lemma_write_blob_idempotent(
    fs: FileSystem,
    dir: Seq<char>,
    digest: Seq<char>,
    content: Seq<u8>,
)
    requires
        blob_ops(dir, digest, content) is Ok,
    ensures
        apply_all(
            apply_all(fs, blob_ops(dir, digest, content)->Ok_0),
            blob_ops(dir, digest, content)->Ok_0,
        ) == apply_all(fs, blob_ops(dir, digest, content)->Ok_0),
{
    let ops = blob_ops(dir, digest, content)->Ok_0;
    let once = apply_all(fs, ops);
    lemma_apply_two(fs, ops);
    lemma_apply_two(once, ops);
    let twice = apply_all(once, ops);
    assert(twice.dirs =~= once.dirs);
    assert(twice.files =~= once.files);
}

/// Content that does not hash to the value its digest gives is never planned
/// for writing: the write fails with `Mismatch`.
pub proof fn lemma_mismatch_is_refused(
    dir: Seq<char>,
    digest: Seq<char>,
    content: Seq<u8>,
    algorithm: Seq<char>,
    encoded: Seq<char>,
    a: Algorithm,
)
    requires
        split_digest_spec(digest) == Some((algorithm, encoded)),
        Algorithm::of_name(algorithm) == Some(a),
        hex_of(a.hash_of(content)) != encoded,
    ensures
        blob_ops(dir, digest, content) == Err::<Seq<FileOpView>, DigestError>(
            DigestError::Mismatch,
        ),
{
}

/// Whatever is planned for a blob, the content hashes to the value that the
/// digest gives, under the algorithm that the digest names.
pub proof fn lemma_planned_blob_matches_digest(
    dir: Seq<char>,
    digest: Seq<char>,
    content: Seq<u8>,
    algorithm: Seq<char>,
    encoded: Seq<char>,
)
    requires
        blob_ops(dir, digest, content) is Ok,
        split_digest_spec(digest) == Some((algorithm, encoded)),
    ensures
        Algorithm::of_name(algorithm) is Some,
        hex_of(Algorithm::of_name(algorithm)->0.hash_of(content)) == encoded,
{
}

} // verus!
