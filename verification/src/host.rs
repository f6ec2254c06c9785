//! What the library asks of its host. The library itself neither reads nor
//! writes anything: a command or a lifecycle hook that needs the file system
//! hands back a request, the host carries it out, and the answer is given to
//! the same command or hook to finish with.

use vstd::prelude::*;

verus! {

/// Something for the host to do.
#[derive(Debug, Clone, PartialEq, Eq)]
pub enum HostRequest {
    /// Write `data` to the file at `path`, which is made if it is not there:
    /// behind what the file holds where `append` is set, in place of all that
    /// it holds where it is not.
    Write { path: String, data: String, append: bool },
    /// Read the file at `path` as text.
    Read { path: String },
    /// Name the entries of `directory`.
    List { directory: String },
}

/// A `HostRequest` with its texts as sequences of characters.
pub enum RequestView {
    Write { path: Seq<char>, data: Seq<char>, append: bool },
    Read { path: Seq<char> },
    List { directory: Seq<char> },
}

impl View for HostRequest {
    type V = RequestView;

    open spec fn view(&self) -> RequestView {
        match *self {
            HostRequest::Write { path, data, append } => RequestView::Write {
                path: path@,
                data: data@,
                append,
            },
            HostRequest::Read { path } => RequestView::Read { path: path@ },
            HostRequest::List { directory } => RequestView::List { directory: directory@ },
        }
    }
}

/// The host's answer to a request.
#[derive(Debug, Clone, PartialEq, Eq)]
pub enum HostReply {
    /// The data was written.
    Written,
    /// What the file holds.
    Text(String),
    /// The entries of the directory, each as the path it was found under.
    Entries(Vec<String>),
    /// The request failed, and why.
    Failed(String),
}

/// What a command or a hook has come to: its result, or a request on whose
/// answer the result depends.
#[derive(Debug, Clone, PartialEq, Eq)]
pub enum Step<T> {
    Done(T),
    Ask(HostRequest),
}

impl<T> Step<T> {
    /// Whether the step is the request `request` to the host.
    pub open spec fn asks(self, request: RequestView) -> bool {
        self matches Step::Ask(r) && r@ == request
    }
}

} // verus!
