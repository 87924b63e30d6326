//! Pulling an image, step by step.
//!
//! A pull is a chain of six stages: authenticate, fetch the index, select the
//! manifest for the host, fetch the manifest, fetch the configuration, store
//! the layout. The chain is a state machine: [`Pull::step`] takes what
//! happened, moves to the next stage and says what to do next. Sending
//! requests and writing files is the caller's part. No stage is retried; the
//! first failure ends the pull.

use vstd::prelude::*;

use crate::error::{DigestError, PullError, RegistryError};
use crate::image::client::{
    check_status, index_from_reply, index_reply, status_error, token_reply, token_request_of,
    bearer, Client, ClientView, Request, RequestView, Response,
};
use crate::image::codec::{config_of, decode_config, decode_manifest, index_json, manifest_of};
use crate::image::layout::{blob_ops, init_ops, FileOp, FileOpView, ImageLayoutWriter};
use crate::image::model::{IndexView, OciImageIndex};
use crate::image::select::{fits, lemma_no_fit_no_selection, select_manifest, selection};
use crate::json::{parse, parsed, printed, Json, JsonValue};
use crate::text::concat;

verus! {

/// What happened since the last action was handed out.
#[derive(Clone, Debug, PartialEq, Eq)]
pub enum Event {
    /// The pull is to begin.
    Start,
    /// The request was answered.
    Response(Response),
    /// The request was not answered.
    TransportFailed,
    /// Every file operation was performed.
    Stored,
    /// A file operation failed.
    StoreFailed,
}

pub enum EventView {
    Start,
    Response { status: u16, body: Seq<u8> },
    TransportFailed,
    Stored,
    StoreFailed,
}

impl View for Event {
    type V = EventView;

    open spec fn view(&self) -> EventView {
        match self {
            Event::Start => EventView::Start,
            Event::Response(r) => EventView::Response { status: r.status, body: r.body@ },
            Event::TransportFailed => EventView::TransportFailed,
            Event::Stored => EventView::Stored,
            Event::StoreFailed => EventView::StoreFailed,
        }
    }
}

/// What the caller is to do next.
#[derive(Clone, Debug, PartialEq, Eq)]
pub enum Action {
    /// Send the request, then report `Response` or `TransportFailed`.
    Send(Request),
    /// Perform the file operations in order, then report `Stored` or, at the
    /// first one that fails, `StoreFailed`.
    Store(Vec<FileOp>),
    /// Nothing: the layout is complete.
    Finish,
    /// Nothing: the pull has failed.
    Fail(PullError),
}

pub enum ActionView {
    Send(RequestView),
    Store(Seq<FileOpView>),
    Finish,
    Fail(PullError),
}

impl View for Action {
    type V = ActionView;

    open spec fn view(&self) -> ActionView {
        match self {
            Action::Send(r) => ActionView::Send(r@),
            Action::Store(ops) => ActionView::Store(ops.deep_view()),
            Action::Finish => ActionView::Finish,
            Action::Fail(e) => ActionView::Fail(*e),
        }
    }
}

/// Where a pull stands, with what it has gathered so far.
#[derive(Clone, Debug, PartialEq, Eq)]
pub enum Stage {
    /// Not begun.
    Idle,
    /// Waiting for the token.
    Authenticate,
    /// Waiting for the index.
    FetchIndex,
    /// Waiting for the manifest with the selected digest.
    FetchManifest { index: OciImageIndex, digest: String },
    /// Waiting for the configuration blob.
    FetchConfig {
        index: OciImageIndex,
        manifest_digest: String,
        manifest: Vec<u8>,
        config_digest: String,
    },
    /// Waiting for the layout to be stored.
    Persist,
    /// The layout is complete.
    Done,
    /// The pull has failed.
    Failed(PullError),
}

pub enum StageView {
    Idle,
    Authenticate,
    FetchIndex,
    FetchManifest { index: IndexView, digest: Seq<char> },
    FetchConfig {
        index: IndexView,
        manifest_digest: Seq<char>,
        manifest: Seq<u8>,
        config_digest: Seq<char>,
    },
    Persist,
    Done,
    Failed(PullError),
}

impl View for Stage {
    type V = StageView;

    open spec fn view(&self) -> StageView {
        match self {
            Stage::Idle => StageView::Idle,
            Stage::Authenticate => StageView::Authenticate,
            Stage::FetchIndex => StageView::FetchIndex,
            Stage::FetchManifest { index, digest } => StageView::FetchManifest {
                index: index@,
                digest: digest@,
            },
            Stage::FetchConfig {
                index,
                manifest_digest,
                manifest,
                config_digest,
            } => StageView::FetchConfig {
                index: index@,
                manifest_digest: manifest_digest@,
                manifest: manifest@,
                config_digest: config_digest@,
            },
            Stage::Persist => StageView::Persist,
            Stage::Done => StageView::Done,
            Stage::Failed(e) => StageView::Failed(*e),
        }
    }
}

/// One pull of one image for one host platform.
#[derive(Clone, Debug, PartialEq, Eq)]
pub struct Pull {
    pub client: Client,
    pub image: String,
    pub reference: String,
    /// The host's architecture, as registries name it.
    pub arch: String,
    /// The host's operating system, as registries name it.
    pub os: String,
    pub stage: Stage,
}

pub struct PullView {
    pub client: ClientView,
    pub image: Seq<char>,
    pub reference: Seq<char>,
    pub arch: Seq<char>,
    pub os: Seq<char>,
    pub stage: StageView,
}

impl View for Pull {
    type V = PullView;

    open spec fn view(&self) -> PullView {
        PullView {
            client: self.client@,
            image: self.image@,
            reference: self.reference@,
            arch: self.arch@,
            os: self.os@,
            stage: self.stage@,
        }
    }
}

/// The scope that a token is asked for: pulling from the image's repository.
pub open spec fn scope_of(image: Seq<char>) -> Seq<char> {
    "repository:"@ + image + ":pull"@
}

/// The directory that holds the layout of an image.
pub open spec fn layout_dir(image: Seq<char>) -> Seq<char> {
    ".cache/images/"@ + image
}

/// The operations that store a pulled image: set the layout up with the
/// index, then write the manifest and the configuration as blobs under their
/// digests. Nothing is planned unless both blobs match their digests.
pub open spec fn persist_ops(
    dir: Seq<char>,
    index_text: Seq<u8>,
    manifest_digest: Seq<char>,
    manifest: Seq<u8>,
    config_digest: Seq<char>,
    config: Seq<u8>,
) -> Result<Seq<FileOpView>, DigestError> {
    match blob_ops(dir, manifest_digest, manifest) {
        Err(e) => Err(e),
        Ok(first) => match blob_ops(dir, config_digest, config) {
            Err(e) => Err(e),
            Ok(second) => Ok(init_ops(dir, index_text) + first + second),
        },
    }
}

/// The pull in its final failed state, and the action that says so.
pub open spec fn failed(p: PullView, e: PullError) -> (PullView, ActionView) {
    (PullView { stage: StageView::Failed(e), ..p }, ActionView::Fail(e))
}

/// From `Idle`: begin by asking for a token.
pub open spec fn after_start(p: PullView, event: EventView) -> (PullView, ActionView) {
    match event {
        EventView::Start => (
            PullView { stage: StageView::Authenticate, ..p },
            ActionView::Send(token_request_of(scope_of(p.image))),
        ),
        _ => failed(p, PullError::OutOfTurn),
    }
}

/// From `Authenticate`: with a token, hold it and ask for the index; without
/// one, fail with `Auth`, and send nothing to the registry.
pub open spec fn after_token(p: PullView, event: EventView, doc: Option<JsonValue>) -> (
    PullView,
    ActionView,
) {
    match event {
        EventView::Response { status, body } => match token_reply(status, doc) {
            Some(t) => {
                let client = ClientView { token: bearer(t), ..p.client };
                (
                    PullView { client, stage: StageView::FetchIndex, ..p },
                    ActionView::Send(client.index_request(p.image, p.reference)),
                )
            },
            None => failed(p, PullError::Auth),
        },
        EventView::TransportFailed => failed(p, PullError::Auth),
        _ => failed(p, PullError::OutOfTurn),
    }
}

/// From `FetchIndex`: read the index, select the manifest for the host and
/// ask for it by its digest. Fails with `Index` when the index cannot be had
/// and with `NoMatchingPlatform` when no descriptor fits the host.
pub open spec fn after_index(p: PullView, event: EventView, doc: Option<JsonValue>) -> (
    PullView,
    ActionView,
) {
    match event {
        EventView::Response { status, body } => match index_reply(status, doc) {
            Err(e) => failed(p, PullError::Index(e)),
            Ok(index) => match selection(index.manifests, p.arch, p.os) {
                None => failed(p, PullError::NoMatchingPlatform),
                Some(i) => {
                    let digest = index.manifests[i].digest;
                    (
                        PullView { stage: StageView::FetchManifest { index, digest }, ..p },
                        ActionView::Send(p.client.manifest_request(p.image, digest)),
                    )
                },
            },
        },
        EventView::TransportFailed => failed(p, PullError::Index(RegistryError::Transport)),
        _ => failed(p, PullError::OutOfTurn),
    }
}

/// From `FetchManifest`: keep the manifest's bytes as they came, read them as
/// a manifest and ask for the configuration blob by its digest.
pub open spec fn after_manifest(
    p: PullView,
    index: IndexView,
    digest: Seq<char>,
    event: EventView,
    doc: Option<JsonValue>,
) -> (PullView, ActionView) {
    match event {
        EventView::Response { status, body } => match status_error(status) {
            Some(e) => failed(p, PullError::ManifestFetch(e)),
            None => {
                let manifest = match doc {
                    Some(j) => manifest_of(j),
                    None => None,
                };
                match manifest {
                    None => failed(p, PullError::ManifestDecode),
                    Some(m) => (
                        PullView {
                            stage: StageView::FetchConfig {
                                index,
                                manifest_digest: digest,
                                manifest: body,
                                config_digest: m.config.digest,
                            },
                            ..p
                        },
                        ActionView::Send(p.client.blob_request(p.image, m.config.digest)),
                    ),
                }
            },
        },
        EventView::TransportFailed => failed(
            p,
            PullError::ManifestFetch(RegistryError::Transport),
        ),
        _ => failed(p, PullError::OutOfTurn),
    }
}

/// From `FetchConfig`: read the blob as an image configuration, then plan the
/// layout: the index, the manifest's bytes and the configuration's bytes.
pub open spec fn after_config(
    p: PullView,
    index: IndexView,
    manifest_digest: Seq<char>,
    manifest: Seq<u8>,
    config_digest: Seq<char>,
    event: EventView,
    doc: Option<JsonValue>,
) -> (PullView, ActionView) {
    match event {
        EventView::Response { status, body } => match status_error(status) {
            Some(e) => failed(p, PullError::ConfigFetch(e)),
            None => {
                let config = match doc {
                    Some(j) => config_of(j),
                    None => None,
                };
                match config {
                    None => failed(p, PullError::ConfigDecode),
                    Some(_) => match persist_ops(
                        layout_dir(p.image),
                        printed(index_json(index)),
                        manifest_digest,
                        manifest,
                        config_digest,
                        body,
                    ) {
                        Err(e) => failed(p, PullError::Digest(e)),
                        Ok(ops) => (
                            PullView { stage: StageView::Persist, ..p },
                            ActionView::Store(ops),
                        ),
                    },
                }
            },
        },
        EventView::TransportFailed => failed(p, PullError::ConfigFetch(RegistryError::Transport)),
        _ => failed(p, PullError::OutOfTurn),
    }
}

/// From `Persist`: done once everything is stored.
pub open spec fn after_store(p: PullView, event: EventView) -> (PullView, ActionView) {
    match event {
        EventView::Stored => (PullView { stage: StageView::Done, ..p }, ActionView::Finish),
        EventView::StoreFailed => failed(p, PullError::Io),
        _ => failed(p, PullError::OutOfTurn),
    }
}

/// The transition of a pull: the state after `event` and the action to take.
/// `doc` is the JSON document read from the body of a response, `None` where
/// the body is no JSON document; it plays no part for other events. A pull
/// that is done or has failed stays as it is.
pub open spec fn next(p: PullView, event: EventView, doc: Option<JsonValue>) -> (
    PullView,
    ActionView,
) {
    match p.stage {
        StageView::Idle => after_start(p, event),
        StageView::Authenticate => after_token(p, event, doc),
        StageView::FetchIndex => after_index(p, event, doc),
        StageView::FetchManifest { index, digest } => after_manifest(p, index, digest, event, doc),
        StageView::FetchConfig {
            index,
            manifest_digest,
            manifest,
            config_digest,
        } => after_config(p, index, manifest_digest, manifest, config_digest, event, doc),
        StageView::Persist => after_store(p, event),
        StageView::Done => (p, ActionView::Finish),
        StageView::Failed(e) => (p, ActionView::Fail(e)),
    }
}

/// The JSON document that the body of a response holds.
pub open spec fn doc_of(event: EventView) -> Option<JsonValue> {
    match event {
        EventView::Response { status, body } => parsed(body),
        _ => None,
    }
}

/// A token response with a status outside 200 to 299 ends the pull with
/// `Auth`, whatever its body holds: nothing is sent to the registry.
pub proof fn lemma_refused_token_ends_pull(
    p: PullView,
    status: u16,
    body: Seq<u8>,
    doc: Option<JsonValue>,
)
    requires
        p.stage is Authenticate,
        !(200 <= status <= 299),
    ensures
        next(p, EventView::Response { status, body }, doc) == failed(p, PullError::Auth),
{
}

/// An index without a descriptor for the host ends the pull with
/// `NoMatchingPlatform`: no manifest is asked for and nothing is stored.
pub proof fn lemma_no_platform_ends_pull(
    p: PullView,
    status: u16,
    body: Seq<u8>,
    doc: Option<JsonValue>,
    index: IndexView,
)
    requires
        p.stage is FetchIndex,
        index_reply(status, doc) == Ok::<IndexView, RegistryError>(index),
        forall|j: int|
            0 <= j < index.manifests.len() ==> !fits(#[trigger] index.manifests[j], p.arch, p.os),
    ensures
        next(p, EventView::Response { status, body }, doc) == failed(
            p,
            PullError::NoMatchingPlatform,
        ),
{
    lemma_no_fit_no_selection(index.manifests, p.arch, p.os);
}

/// Files are written at one point only: when the configuration has arrived,
/// and then only if the manifest and the configuration both match their
/// digests.
pub proof fn lemma_store_needs_matching_blobs(p: PullView, event: EventView, doc: Option<JsonValue>)
    requires
        next(p, event, doc).1 is Store,
    ensures
        p.stage is FetchConfig,
        event is Response,
        blob_ops(
            layout_dir(p.image),
            p.stage->FetchConfig_manifest_digest,
            p.stage->FetchConfig_manifest,
        ) is Ok,
        blob_ops(
            layout_dir(p.image),
            p.stage->FetchConfig_config_digest,
            event->Response_body,
        ) is Ok,
        next(p, event, doc).0.stage is Persist,
{
}

/// A pull that is done or has failed stays as it is, whatever is reported.
pub proof fn lemma_final_stages_stay(p: PullView, event: EventView, doc: Option<JsonValue>)
    requires
        p.stage is Done || p.stage is Failed,
    ensures
        next(p, event, doc).0 == p,
        !(next(p, event, doc).1 is Send),
        !(next(p, event, doc).1 is Store),
{
}

/// The operations that store a pulled image.
pub fn plan_layout(
    dir: String,
    index: &OciImageIndex,
    manifest_digest: &str,
    manifest: &[u8],
    config_digest: &str,
    config: &[u8],
) -> (planned: Result<Vec<FileOp>, DigestError>)
    ensures
        match planned {
            Ok(ops) => persist_ops(
                dir@,
                printed(index_json(index@)),
                manifest_digest@,
                manifest@,
                config_digest@,
                config@,
            ) == Ok::<Seq<FileOpView>, DigestError>(ops.deep_view()),
            Err(e) => persist_ops(
                dir@,
                printed(index_json(index@)),
                manifest_digest@,
                manifest@,
                config_digest@,
                config@,
            ) == Err::<Seq<FileOpView>, DigestError>(e),
        },
{
    let (writer, mut ops) = ImageLayoutWriter::init(dir, index);
    let ghost setup = ops.deep_view();
    let mut first = match writer.write_blob(manifest_digest, manifest) {
        Ok(ops) => ops,
        Err(e) => {
            return Err(e);
        },
    };
    let ghost first_ops = first.deep_view();
    let mut second = match writer.write_blob(config_digest, config) {
        Ok(ops) => ops,
        Err(e) => {
            return Err(e);
        },
    };
    let ghost second_ops = second.deep_view();
    ops.append(&mut first);
    ops.append(&mut second);
    assert(ops.deep_view() =~= setup + first_ops + second_ops);
    Ok(ops)
}

impl Pull {
    /// A pull of `image` at `reference` for the given host platform, not yet
    /// begun.
    pub fn new(client: Client, image: &str, reference: &str, arch: &str, os: &str) -> (pull: Pull)
        ensures
            pull@ == (PullView {
                client: client@,
                image: image@,
                reference: reference@,
                arch: arch@,
                os: os@,
                stage: StageView::Idle,
            }),
    {
        Pull {
            client,
            image: image.to_owned(),
            reference: reference.to_owned(),
            arch: arch.to_owned(),
            os: os.to_owned(),
            stage: Stage::Idle,
        }
    }

    /// Whether the layout is complete.
    pub fn is_done(&self) -> (done: bool)
        ensures
            done == (self@.stage is Done),
    {
        match self.stage {
            Stage::Done => true,
            _ => false,
        }
    }

    /// The error that ended the pull, if it has failed.
    pub fn error(&self) -> (e: Option<PullError>)
        ensures
            e == match self@.stage {
                StageView::Failed(e) => Some(e),
                _ => None,
            },
    {
        match self.stage {
            Stage::Failed(e) => Some(e),
            _ => None,
        }
    }

    fn fail(self, e: PullError) -> (r: (Pull, Action))
        ensures
            (r.0@, r.1@) == failed(self@, e),
    {
        let Pull { client, image, reference, arch, os, stage } = self;
        (Pull { client, image, reference, arch, os, stage: Stage::Failed(e) }, Action::Fail(e))
    }

    fn from_idle(self, event: Event) -> (r: (Pull, Action))
        requires
            self@.stage is Idle,
        ensures
            (r.0@, r.1@) == after_start(self@, event@),
    {
        match event {
            Event::Start => {
                let mut scope = concat("repository:", self.image.as_str());
                scope.append(":pull");
                let request = Client::token_request(scope.as_str());
                let Pull { client, image, reference, arch, os, stage } = self;
                (
                    Pull { client, image, reference, arch, os, stage: Stage::Authenticate },
                    Action::Send(request),
                )
            },
            _ => self.fail(PullError::OutOfTurn),
        }
    }

    fn from_authenticate(self, event: Event, doc: Option<Json>) -> (r: (Pull, Action))
        requires
            self@.stage is Authenticate,
        ensures
            (r.0@, r.1@) == after_token(self@, event@, doc.deep_view()),
    {
        match event {
            Event::Response(response) => {
                let Pull { client, image, reference, arch, os, stage } = self;
                let mut client = client;
                match client.token_from_reply(response.status, &doc) {
                    Ok(_) => {
                        let request = client.get_manifests(image.as_str(), reference.as_str());
                        (
                            Pull { client, image, reference, arch, os, stage: Stage::FetchIndex },
                            Action::Send(request),
                        )
                    },
                    Err(_) => {
                        let pull = Pull { client, image, reference, arch, os, stage };
                        pull.fail(PullError::Auth)
                    },
                }
            },
            Event::TransportFailed => self.fail(PullError::Auth),
            _ => self.fail(PullError::OutOfTurn),
        }
    }

    fn from_fetch_index(self, event: Event, doc: Option<Json>) -> (r: (Pull, Action))
        requires
            self@.stage is FetchIndex,
        ensures
            (r.0@, r.1@) == after_index(self@, event@, doc.deep_view()),
    {
        match event {
            Event::Response(response) => {
                match index_from_reply(response.status, &doc) {
                    Err(e) => self.fail(PullError::Index(e)),
                    Ok(index) => match select_manifest(&index, self.arch.as_str(), self.os.as_str()) {
                        Err(e) => self.fail(PullError::NoMatchingPlatform),
                        Ok(i) => {
                            let digest = index.manifests[i].digest.clone();
                            assert(digest@ == index@.manifests[i as int].digest);
                            let request = self.client.get_manifest_from_digest(
                                self.image.as_str(),
                                digest.as_str(),
                            );
                            let Pull { client, image, reference, arch, os, stage } = self;
                            (
                                Pull {
                                    client,
                                    image,
                                    reference,
                                    arch,
                                    os,
                                    stage: Stage::FetchManifest { index, digest },
                                },
                                Action::Send(request),
                            )
                        },
                    },
                }
            },
            Event::TransportFailed => self.fail(PullError::Index(RegistryError::Transport)),
            _ => self.fail(PullError::OutOfTurn),
        }
    }

    fn from_fetch_manifest(self, event: Event, doc: Option<Json>) -> (r: (Pull, Action))
        requires
            self@.stage is FetchManifest,
        ensures
            (r.0@, r.1@) == after_manifest(
                self@,
                self@.stage->FetchManifest_index,
                self@.stage->FetchManifest_digest,
                event@,
                doc.deep_view(),
            ),
    {
        match event {
            Event::Response(response) => {
                let Response { status, body } = response;
                match check_status(status) {
                    Err(e) => self.fail(PullError::ManifestFetch(e)),
                    Ok(_) => {
                        let manifest = match &doc {
                            Some(j) => decode_manifest(j),
                            None => None,
                        };
                        match manifest {
                            None => self.fail(PullError::ManifestDecode),
                            Some(m) => {
                                let config_digest = m.config.digest;
                                let request = self.client.get_blob(
                                    self.image.as_str(),
                                    config_digest.as_str(),
                                );
                                let Pull { client, image, reference, arch, os, stage } = self;
                                match stage {
                                    Stage::FetchManifest { index, digest } => (
                                        Pull {
                                            client,
                                            image,
                                            reference,
                                            arch,
                                            os,
                                            stage: Stage::FetchConfig {
                                                index,
                                                manifest_digest: digest,
                                                manifest: body,
                                                config_digest,
                                            },
                                        },
                                        Action::Send(request),
                                    ),
                                    other => {
                                        let pull = Pull {
                                            client,
                                            image,
                                            reference,
                                            arch,
                                            os,
                                            stage: other,
                                        };
                                        pull.fail(PullError::OutOfTurn)
                                    },
                                }
                            },
                        }
                    },
                }
            },
            Event::TransportFailed => self.fail(PullError::ManifestFetch(RegistryError::Transport)),
            _ => self.fail(PullError::OutOfTurn),
        }
    }

    fn from_fetch_config(self, event: Event, doc: Option<Json>) -> (r: (Pull, Action))
        requires
            self@.stage is FetchConfig,
        ensures
            (r.0@, r.1@) == after_config(
                self@,
                self@.stage->FetchConfig_index,
                self@.stage->FetchConfig_manifest_digest,
                self@.stage->FetchConfig_manifest,
                self@.stage->FetchConfig_config_digest,
                event@,
                doc.deep_view(),
            ),
    {
        match event {
            Event::Response(response) => {
                let Response { status, body } = response;
                match check_status(status) {
                    Err(e) => self.fail(PullError::ConfigFetch(e)),
                    Ok(_) => {
                        let config = match &doc {
                            Some(j) => decode_config(j),
                            None => None,
                        };
                        match config {
                            None => self.fail(PullError::ConfigDecode),
                            Some(_) => {
                                let planned = match &self.stage {
                                    Stage::FetchConfig {
                                        index,
                                        manifest_digest,
                                        manifest,
                                        config_digest,
                                    } => plan_layout(
                                        concat(".cache/images/", self.image.as_str()),
                                        index,
                                        manifest_digest.as_str(),
                                        manifest.as_slice(),
                                        config_digest.as_str(),
                                        body.as_slice(),
                                    ),
                                    _ => Err(DigestError::Malformed),
                                };
                                match planned {
                                    Err(e) => self.fail(PullError::Digest(e)),
                                    Ok(ops) => {
                                        let Pull { client, image, reference, arch, os, stage } =
                                            self;
                                        (
                                            Pull {
                                                client,
                                                image,
                                                reference,
                                                arch,
                                                os,
                                                stage: Stage::Persist,
                                            },
                                            Action::Store(ops),
                                        )
                                    },
                                }
                            },
                        }
                    },
                }
            },
            Event::TransportFailed => self.fail(PullError::ConfigFetch(RegistryError::Transport)),
            _ => self.fail(PullError::OutOfTurn),
        }
    }

    fn from_persist(self, event: Event) -> (r: (Pull, Action))
        requires
            self@.stage is Persist,
        ensures
            (r.0@, r.1@) == after_store(self@, event@),
    {
        match event {
            Event::Stored => {
                let Pull { client, image, reference, arch, os, stage } = self;
                (Pull { client, image, reference, arch, os, stage: Stage::Done }, Action::Finish)
            },
            Event::StoreFailed => self.fail(PullError::Io),
            _ => self.fail(PullError::OutOfTurn),
        }
    }

    /// Moves the pull on by one event, given the JSON document read from the
    /// body of a response. See [`next`] for the transition.
    pub fn advance(self, event: Event, doc: Option<Json>) -> (r: (Pull, Action))
        ensures
            (r.0@, r.1@) == next(self@, event@, doc.deep_view()),
    {
        match &self.stage {
            Stage::Idle => self.from_idle(event),
            Stage::Authenticate => self.from_authenticate(event, doc),
            Stage::FetchIndex => self.from_fetch_index(event, doc),
            Stage::FetchManifest { .. } => self.from_fetch_manifest(event, doc),
            Stage::FetchConfig { .. } => self.from_fetch_config(event, doc),
            Stage::Persist => self.from_persist(event),
            Stage::Done => (self, Action::Finish),
            Stage::Failed(e) => {
                let e = *e;
                (self, Action::Fail(e))
            },
        }
    }

    /// Moves the pull on by one event. The body of a response is read as JSON
    /// where the stage calls for a document.
    pub fn step(self, event: Event) -> (r: (Pull, Action))
        ensures
            (r.0@, r.1@) == next(self@, event@, doc_of(event@)),
    {
        let doc = match &event {
            Event::Response(response) => parse(response.body.as_slice()),
            _ => None,
        };
        self.advance(event, doc)
    }
}

impl Client {
    /// Begins a pull of `image` at `reference` for the given host platform.
    /// The pull owns the client from here on.
    pub fn pull(self, image: &str, reference: &str, arch: &str, os: &str) -> (pull: Pull)
        ensures
            pull@ == (PullView {
                client: self@,
                image: image@,
                reference: reference@,
                arch: arch@,
                os: os@,
                stage: StageView::Idle,
            }),
    {
        Pull::new(self, image, reference, arch, os)
    }
}

} // verus!
