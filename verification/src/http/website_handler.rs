//! The decisions of a handler that serves the files under one directory.
//!
//! The handler never touches the file system itself. It says which file a
//! request asks for, whether the resolved file may be read, and what to
//! answer once the read has been tried; its caller resolves and reads.

use vstd::prelude::*;
use vstd::string::*;
use crate::http::method::Method;
use crate::http::request::{Request, RequestView};
use crate::http::response::Response;
use crate::http::status_code::StatusCode;
use crate::http::text::same_text;

verus! {

/// Serves the files under `public_path`.
#[derive(Debug, Clone, PartialEq, Eq)]
pub struct WebsiteHandler {
    public_path: String,
}

/// What the handler asks of its caller, or answers.
#[derive(Debug, Clone, PartialEq, Eq)]
pub enum FileAction {
    /// Resolve this path, and the root, to their canonical forms.
    Resolve(String),
    /// Read the file at this canonical path as text.
    Read(String),
    /// Send this response.
    Reply(Response),
}

/// The file that a request asks for: none unless the method is GET,
/// `index.html` for `/`, `hello.html` for `/hello`, and else the path
/// itself under the root.
pub open spec fn target_of(root: Seq<char>, request: RequestView) -> Option<Seq<char>> {
    if request.method != Method::GET {
        None
    } else if request.path == "/"@ {
        Some(root + "/index.html"@)
    } else if request.path == "/hello"@ {
        Some(root + "/hello.html"@)
    } else {
        Some(root + request.path)
    }
}

/// Whether a canonical path lies at or under a canonical root: the root is
/// a prefix of it that ends where a component of the path ends.
pub open spec fn within(root: Seq<char>, target: Seq<char>) -> bool {
    &&& root.is_prefix_of(target)
    &&& (target.len() == root.len() || (root.len() > 0 && root.last() == '/')
        || target[root.len() as int] == '/')
}

/// Whether a resolved file may be read: both the root and the file were
/// resolved, and the file lies within the root.
pub open spec fn readable(root: Option<Seq<char>>, target: Option<Seq<char>>) -> bool {
    match (root, target) {
        (Some(r), Some(t)) => within(r, t),
        _ => false,
    }
}

/// Whether a response is the one that says "not found": that status, and
/// no body.
pub open spec fn is_not_found(r: Response) -> bool {
    r@.status == StatusCode::NotFound && r@.body is None
}

impl View for WebsiteHandler {
    type V = Seq<char>;

    closed spec fn view(&self) -> Seq<char> {
        self.public_path@
    }
}

impl WebsiteHandler {
    /// A handler for the files under `public_path`.
    pub fn new(public_path: String) -> (r: WebsiteHandler)
        ensures
            r@ == public_path@,
    {
        WebsiteHandler { public_path }
    }

    /// The root directory.
    pub fn public_path(&self) -> (r: &str)
        ensures
            r@ == self@,
    {
        self.public_path.as_str()
    }

    /// The containment check on two canonical paths.
    pub fn contains(canonical_root: &str, canonical_target: &str) -> (r: bool)
        ensures
            r == within(canonical_root@, canonical_target@),
    {
        let n: usize = canonical_root.unicode_len();
        let m: usize = canonical_target.unicode_len();
        if n > m {
            return false;
        }
        if !same_text(canonical_target.substring_char(0, n), canonical_root) {
            return false;
        }
        assert(canonical_root@ =~= canonical_target@.subrange(0, n as int));
        m == n || (n > 0 && canonical_root.get_char(n - 1) == '/') || canonical_target.get_char(n)
            == '/'
    }

    /// The first step: which file the request asks for. A request that
    /// asks for none is answered at once with "not found".
    pub fn begin(&self, request: &Request) -> (r: FileAction)
        ensures
            match target_of(self@, request@) {
                Some(t) => r matches FileAction::Resolve(p) && p@ == t,
                None => r matches FileAction::Reply(resp) && is_not_found(resp),
            },
    {
        match request.method() {
            Method::GET => {
                let path = request.path();
                let mut target = self.public_path.clone();
                if same_text(path, "/") {
                    target.append("/index.html");
                } else if same_text(path, "/hello") {
                    target.append("/hello.html");
                } else {
                    target.append(path);
                }
                FileAction::Resolve(target)
            },
            _ => FileAction::Reply(Response::new(StatusCode::NotFound, None)),
        }
    }

    /// The second step, before any read: the containment check. A file
    /// that could not be resolved, or that lies outside the root, is
    /// answered with "not found" and is never read.
    pub fn check(canonical_root: Option<String>, canonical_target: Option<String>) -> (r:
        FileAction)
        ensures
            if readable(option_text(canonical_root), option_text(canonical_target)) {
                r == FileAction::Read(canonical_target.unwrap())
            } else {
                r matches FileAction::Reply(resp) && is_not_found(resp)
            },
    {
        match (canonical_root, canonical_target) {
            (Some(root), Some(target)) => {
                if WebsiteHandler::contains(root.as_str(), target.as_str()) {
                    FileAction::Read(target)
                } else {
                    FileAction::Reply(Response::new(StatusCode::NotFound, None))
                }
            },
            _ => FileAction::Reply(Response::new(StatusCode::NotFound, None)),
        }
    }

    /// The last step: the answer after the read. The contents of the file
    /// are the body; a file that could not be read is "not found".
    pub fn finish(contents: Option<String>) -> (r: Response)
        ensures
            match contents {
                Some(c) => r@.status == StatusCode::Okay && r@.body == Some(c@),
                None => is_not_found(r),
            },
    {
        match contents {
            Some(c) => Response::new(StatusCode::Okay, Some(c)),
            None => Response::new(StatusCode::NotFound, None),
        }
    }
}

/// The text of an optional string.
pub open spec fn option_text(s: Option<String>) -> Option<Seq<char>> {
    match s {
        Some(t) => Some(t@),
        None => None,
    }
}

} // verus!
