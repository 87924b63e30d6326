//! Container lifecycle surface.
//!
//! The lifecycle operations are placeholders: each accepts its arguments and
//! has no effect, so that callers can already be written against the surface.

use std::collections::HashMap;
use std::convert::Infallible;
use std::path::{Path, PathBuf};
use std::str::FromStr;

use vstd::prelude::*;

verus! {

/// `std::path::Path`, carried through as it is; nothing is stated of it.
#[verifier::external_type_specification]
#[verifier::external_body]
pub struct ExPath(Path);

/// `std::path::PathBuf`, carried through as it is; nothing is stated of it.
#[verifier::external_type_specification]
#[verifier::external_body]
pub struct ExPathBuf(PathBuf);

/// Identifier of a container, as given on the command line.
#[derive(Clone, Debug)]
pub struct ContainerId(pub String);

/// The container runtime.
pub struct Runtime {}

/// Lifecycle status of a container.
#[derive(Clone, Copy, Debug, PartialEq, Eq, Structural)]
pub enum Status {
    Creating,
    Created,
    Running,
    Stopped,
}

/// Snapshot of a container as reported by a state query.
#[derive(Debug)]
pub struct State {
    pub oci_version: String,
    pub id: ContainerId,
    pub status: Status,
    pub pid: Option<i64>,
    pub bundle: PathBuf,
    pub annotations: HashMap<String, String>,
}

impl ContainerId {
    /// Wraps the given text as an identifier; every string is accepted.
    pub fn new(s: &str) -> (id: ContainerId)
        ensures
            id.0@ == s@,
    {
        ContainerId(s.to_owned())
    }

    /// The identifier's text.
    pub fn as_str(&self) -> (s: &str)
        ensures
            s@ == self.0@,
    {
        self.0.as_str()
    }
}

impl FromStr for ContainerId {
    type Err = Infallible;

    /// Every string is an identifier.
    fn from_str(s: &str) -> (r: Result<Self, Self::Err>)
        ensures
            r is Ok,
            r->Ok_0.0@ == s@,
    {
        Ok(ContainerId::new(s))
    }
}

impl Runtime {
    /// Queries the state of a container. A placeholder without effect.
    pub fn state(&self, _id: ContainerId) {
    }

    /// Creates a container from a bundle. A placeholder without effect.
    pub fn create(&self, _id: ContainerId, _bundle_path: &Path) {
    }

    /// Starts a created container. A placeholder without effect.
    pub fn start(&self, _id: ContainerId) {
    }

    /// Sends a signal to a container. A placeholder without effect.
    pub fn kill(&self, _id: ContainerId, _signal: u8) {
    }

    /// Deletes a stopped container. A placeholder without effect.
    pub fn delete(&self, _id: ContainerId) {
    }
}

} // verus!
