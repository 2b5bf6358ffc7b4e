//! What a client asks of the background service that answers queries from
//! the index.

use crate::paths::{join_path, joined};
use crate::text::{chars_of, string_of};
use vstd::prelude::*;

verus! {

/// A request to the service.
#[derive(Debug, Clone)]
#[allow(inconsistent_fields)]
pub enum Request {
    /// The paths that a query may mean.
    Path { query: String },
    /// The symbols of a file.
    Symbols { file: String },
    /// The places that call a symbol.
    Callers { symbol: String },
    /// What a symbol of a file calls.
    Callees { symbol: String, file: String },
    /// The source of a symbol.
    Expand { symbol: String, file: Option<String> },
    /// Whether the service runs.
    Status,
}

impl Request {
    /// The word by which the service knows the request.
    pub open spec fn word(&self) -> Seq<char> {
        match self {
            Request::Path { .. } => "path"@,
            Request::Symbols { .. } => "symbols"@,
            Request::Callers { .. } => "callers"@,
            Request::Callees { .. } => "callees"@,
            Request::Expand { .. } => "expand"@,
            Request::Status => "status"@,
        }
    }

    /// The word by which the service knows the request.
    pub fn command(&self) -> (r: &'static str)
        ensures
            r@ == self.word(),
    {
        match self {
            Request::Path { .. } => "path",
            Request::Symbols { .. } => "symbols",
            Request::Callers { .. } => "callers",
            Request::Callees { .. } => "callees",
            Request::Expand { .. } => "expand",
            Request::Status => "status",
        }
    }
}

/// A path that the service found for a query.
#[derive(Debug, Clone)]
pub struct PathMatch {
    pub path: String,
    pub kind: String,
    pub score: i32,
}

/// A client of the service of one project.
#[derive(Debug, Clone)]
pub struct DaemonClient {
    socket_path: String,
}

impl DaemonClient {
    /// Where the service of the project listens.
    pub closed spec fn socket(&self) -> Seq<char> {
        self.socket_path@
    }

    /// A client of the service of the project at `root`, which listens at
    /// `.moss/daemon.sock` below the root.
    pub fn new(root: &str) -> (r: DaemonClient)
        ensures
            r.socket() == joined(root@, ".moss/daemon.sock"@),
    {
        DaemonClient {
            socket_path: string_of(&join_path(&chars_of(root), &chars_of(".moss/daemon.sock"))),
        }
    }

    /// Where the service of the project listens.
    pub fn socket_path(&self) -> (r: &String)
        ensures
            r@ == self.socket(),
    {
        &self.socket_path
    }
}

} // verus!
