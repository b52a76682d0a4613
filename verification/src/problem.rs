use vstd::prelude::*;

verus! {

/// The text of an optional string.
pub open spec fn opt_text(o: Option<String>) -> Option<Seq<char>> {
    match o {
        Some(s) => Some(s@),
        None => None,
    }
}

/// A problem document for an HTTP response: its status code and, where they
/// are set, its `title` and `detail` members.
#[derive(Debug)]
pub struct ProblemDetails {
    pub status: u16,
    pub title: Option<String>,
    pub detail: Option<String>,
}

/// The abstract value of a problem document.
pub struct ProblemView {
    pub status: u16,
    pub title: Option<Seq<char>>,
    pub detail: Option<Seq<char>>,
}

impl View for ProblemDetails {
    type V = ProblemView;

    open spec fn view(&self) -> ProblemView {
        ProblemView { status: self.status, title: opt_text(self.title), detail: opt_text(self.detail) }
    }
}

/// The status code of a request that the server refuses as malformed.
pub const BAD_REQUEST: u16 = 400;

/// The status code of a request that failed on the server's side.
pub const INTERNAL_SERVER_ERROR: u16 = 500;

impl ProblemDetails {
    /// A problem document with the given status and no members.
    pub fn new(status: u16) -> (p: Self)
        ensures
            p@ == (ProblemView { status, title: None, detail: None }),
    {
        ProblemDetails { status, title: None, detail: None }
    }

    /// The same document with its `title` set.
    pub fn with_title(self, title: &str) -> (p: Self)
        ensures
            p@ == (ProblemView { title: Some(title@), ..self@ }),
    {
        ProblemDetails { title: Some(String::from_str(title)), ..self }
    }

    /// The same document with its `detail` set.
    pub fn with_detail(self, detail: &str) -> (p: Self)
        ensures
            p@ == (ProblemView { detail: Some(detail@), ..self@ }),
    {
        ProblemDetails { detail: Some(String::from_str(detail)), ..self }
    }
}

} // verus!
