//! The static-file handler: mapping a request path to a file under the
//! public directory without ever escaping it, and deciding the response.
//!
//! Canonicalizing a path reads the filesystem, so its outcome cannot be
//! predicted here; what is proved instead is that whatever the filesystem
//! answers, a path is accepted only when its canonical form is the
//! canonical root itself or lies under it on a whole path segment.

use vstd::prelude::*;

use crate::http::method::Method;
use crate::http::request::Request;
use crate::http::response::Response;
use crate::http::response::ResponseModel;
use crate::http::response::StatusCode;
use crate::text::str_eq;

verus! {

broadcast use vstd::string::group_string_axioms;

/// The request path with a single leading `/` removed.
pub open spec fn stripped(req_path: Seq<char>) -> Seq<char> {
    if req_path.len() > 0 && req_path[0] == '/' {
        req_path.subrange(1, req_path.len() as int)
    } else {
        req_path
    }
}

/// The candidate filesystem path for a request path: the path, less its
/// leading `/`, joined under the root; an empty remainder asks for
/// `index.html`.
pub open spec fn joined(root: Seq<char>, req_path: Seq<char>) -> Seq<char> {
    let rem = stripped(req_path);
    if rem.len() == 0 {
        root + "/index.html"@
    } else {
        root + "/"@ + rem
    }
}

/// Whether `cand` is the root itself or lies under it on a whole path
/// segment: equal to `root`, or extending it with `/` right after it. A
/// sibling that merely shares a string prefix (such as `/srv/public-secret`
/// beside `/srv/public`) does not qualify.
pub open spec fn within_root(cand: Seq<char>, root: Seq<char>) -> bool {
    ||| cand == root
    ||| (root == "/"@ && cand.len() > 0 && cand[0] == '/')
    ||| (cand.len() > root.len() && cand.subrange(0, root.len() as int) == root && cand[root.len(
    ) as int] == '/')
}

/// Join a request path under the root directory.
pub fn join_under_root(root: &str, req_path: &str) -> (r: String)
    ensures
        r@ == joined(root@, req_path@),
{
    let mut out = String::from_str(root);
    out.append("/");
    let plen = req_path.unicode_len();
    let start: usize = if plen > 0 && req_path.get_char(0) == '/' {
        1
    } else {
        0
    };
    if plen == start {
        out.append("index.html");
        proof {
            reveal_strlit("/");
            reveal_strlit("/index.html");
            reveal_strlit("index.html");
            assert(stripped(req_path@).len() == 0);
            assert(out@ =~= root@ + "/index.html"@);
        }
        out
    } else {
        let rem = req_path.substring_char(start, plen);
        out.append(rem);
        proof {
            assert(rem@ =~= stripped(req_path@));
            assert(out@ =~= root@ + "/"@ + stripped(req_path@));
        }
        out
    }
}

/// Whether `cand` is equal to `root` or nested under it on a segment
/// boundary.
pub fn path_within_root(cand: &str, root: &str) -> (r: bool)
    ensures
        r == within_root(cand@, root@),
{
    if str_eq(cand, root) {
        return true;
    }
    let clen = cand.unicode_len();
    let rlen = root.unicode_len();
    if root.unicode_len() == 1 && root.get_char(0) == '/' && clen > 0 && cand.get_char(0) == '/' {
        proof {
            reveal_strlit("/");
            assert(root@ =~= "/"@);
        }
        return true;
    }
    proof {
        reveal_strlit("/");
        if root@ == "/"@ {
            assert(root@.len() == 1 && root@[0] == '/');
        }
    }
    if clen > rlen {
        let head = cand.substring_char(0, rlen);
        if str_eq(head, root) && cand.get_char(rlen) == '/' {
            return true;
        }
        proof {
            assert(!within_root(cand@, root@));
        }
        false
    } else {
        proof {
            assert(!within_root(cand@, root@));
        }
        false
    }
}

/// Relies on `std::path::Path::canonicalize`: the absolute, symlink-free,
/// `.`/`..`-free form of an existing path, or a failure. The answer depends
/// on the filesystem, so nothing is promised of it; callers judge what came
/// back.
#[verifier::external_body]
fn canonicalize_str(path: &str) -> (r: Option<String>) {
    match std::path::Path::new(path).canonicalize() {
        Ok(resolved) => match resolved.to_str() {
            Some(text) => Some(text.to_owned()),
            None => None,
        },
        Err(_) => None,
    }
}

/// Resolve a request path against an already-canonicalized root: join it
/// under the root, canonicalize the result, and accept it only when the
/// canonical form stays within the root. Whatever the filesystem answers,
/// an accepted path is the root or lies under it on a segment boundary.
pub fn resolve_under(canonical_root: &str, request_path: &str) -> (r: Option<String>)
    ensures
        r matches Some(p) ==> within_root(p@, canonical_root@),
{
    let cand = join_under_root(canonical_root, request_path);
    match canonicalize_str(cand.as_str()) {
        Some(resolved) => {
            if path_within_root(resolved.as_str(), canonical_root) {
                Some(resolved)
            } else {
                None
            }
        },
        None => None,
    }
}

/// The model of the response sent when the verb is not `GET`.
pub open spec fn method_not_supported_model() -> ResponseModel {
    ResponseModel { status: StatusCode::NotFound, body: Some("Method not supported"@) }
}

/// The model of the response sent when the path is rejected.
pub open spec fn invalid_path_model() -> ResponseModel {
    ResponseModel { status: StatusCode::NotFound, body: Some("Invalid path"@) }
}

/// The model of the response sent when the resolved file cannot be read.
pub open spec fn file_not_found_model() -> ResponseModel {
    ResponseModel { status: StatusCode::NotFound, body: Some("File not found"@) }
}

/// What a request needs next: either a finished response, or the one file
/// whose content would complete it.
pub enum RequestPlan {
    Respond(Response),
    ReadFile(String),
}

/// Serves files under one public directory. The directory's canonical form
/// is taken from the filesystem when the handler is made; every accepted
/// path is checked against it.
pub struct WebsiteHandler {
    public_path: String,
    canonical_root: Option<String>,
}

impl WebsiteHandler {
    /// The root directory served, as configured.
    pub closed spec fn root(&self) -> Seq<char> {
        self.public_path@
    }

    /// The canonical form of the root directory, if the filesystem gave
    /// one; a handler without it rejects every path.
    pub closed spec fn canon_root(&self) -> Option<Seq<char>> {
        self.canonical_root.deep_view()
    }

    /// A handler serving the given directory.
    pub fn new(public_path: String) -> (h: WebsiteHandler)
        ensures
            h.root() == public_path@,
    {
        let canonical_root = canonicalize_str(public_path.as_str());
        WebsiteHandler { public_path, canonical_root }
    }

    /// Map a request path to a confirmed-safe filesystem path under the
    /// public directory, or reject it. The candidate is canonicalized, and
    /// the containment check runs on the canonical forms, never on the raw
    /// joined string: whatever the filesystem answers, an accepted path is
    /// the handler's canonical root or lies under it on a segment boundary.
    pub fn map_path(&self, request_path: &str) -> (r: Option<String>)
        ensures
            r matches Some(p) ==> (self.canon_root() matches Some(cr) && within_root(p@, cr)),
    {
        match &self.canonical_root {
            Some(canonical_root) => resolve_under(canonical_root.as_str(), request_path),
            None => None,
        }
    }

    /// Decide a request as far as the filesystem allows from here: anything
    /// but `GET` is answered at once, a rejected path is answered at once,
    /// and an accepted path — always within the handler's canonical root —
    /// asks for that file to be read.
    pub fn plan_request(&self, request: &Request) -> (p: RequestPlan)
        ensures
            request.method != Method::GET ==> (p matches RequestPlan::Respond(resp)
                && resp@ == method_not_supported_model()),
            request.method == Method::GET ==> match p {
                RequestPlan::Respond(resp) => resp@ == invalid_path_model(),
                RequestPlan::ReadFile(path) => (self.canon_root() matches Some(cr)
                    && within_root(path@, cr)),
            },
    {
        match request.method {
            Method::GET => {
                match self.map_path(request.path.as_str()) {
                    Some(file_path) => RequestPlan::ReadFile(file_path),
                    None => RequestPlan::Respond(
                        Response::new(StatusCode::NotFound, Some(String::from_str("Invalid path"))),
                    ),
                }
            },
            _ => RequestPlan::Respond(
                Response::new(
                    StatusCode::NotFound,
                    Some(String::from_str("Method not supported")),
                ),
            ),
        }
    }

    /// Finish a planned file read: the file's content becomes the body of
    /// an `Okay` response, and a failed read answers `NotFound`.
    pub fn finish_read(read: Option<String>) -> (r: Response)
        ensures
            match read {
                Some(content) => r@ == (ResponseModel {
                    status: StatusCode::Okay,
                    body: Some(content@),
                }),
                None => r@ == file_not_found_model(),
            },
    {
        match read {
            Some(content) => Response::new(StatusCode::Okay, Some(content)),
            None => Response::new(StatusCode::NotFound, Some(String::from_str("File not found"))),
        }
    }
}

/// The response sent when a buffer does not parse: a plain `Bad Request`.
pub fn bad_request_response() -> (r: Response)
    ensures
        r@ == (ResponseModel { status: StatusCode::BadRequest, body: Some("Bad Request"@) }),
{
    Response::new(StatusCode::BadRequest, Some(String::from_str("Bad Request")))
}

} // verus!
