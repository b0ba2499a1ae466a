//! The two handlers: static files below a root, and a single favicon.
//!
//! Each handler step is split at the filesystem boundary. The caller asks
//! the handler where the request resolves ([`Static::resolve`],
//! [`Favicon::accepts`]), reads that file itself, and hands the read result
//! back ([`Static::respond`], [`Favicon::respond`]) to get the response
//! writes and the stop/continue signal. The contracts pin both down for
//! every possible read result.

use crate::digits::decimal_of;
use crate::digits::decimal_string;
use crate::paths::candidate_of;
use crate::paths::derive_relative;
use crate::paths::is_safe;
use crate::paths::join;
use crate::response::Body;
use crate::response::BodyModel;
use crate::response::Response;
use crate::response::ResponseModel;
use crate::response::Status;
use vstd::prelude::*;

verus! {

/// The static file-serving handler: holds one configured root directory and
/// serves files below it.
#[derive(Clone, Debug)]
pub struct Static {
    root_path: String,
}

impl View for Static {
    type V = Seq<char>;

    /// The configured root directory path.
    closed spec fn view(&self) -> Seq<char> {
        self.root_path@
    }
}

/// The favicon handler: holds one configured file path and a cache lifetime,
/// and serves that one file to every request whose path ends in
/// `/favicon.ico`.
#[derive(Clone, Debug)]
pub struct Favicon {
    max_age: u8,
    favicon_path: String,
}

/// Mathematical model of a [`Favicon`].
pub ghost struct FaviconModel {
    pub path: Seq<char>,
    pub max_age: u8,
}

impl View for Favicon {
    type V = FaviconModel;

    closed spec fn view(&self) -> FaviconModel {
        FaviconModel { path: self.favicon_path@, max_age: self.max_age }
    }
}

/// The model of a file-read result: the bytes read, or `None` when the read
/// failed or was never attempted.
pub open spec fn read_view(read: Option<Vec<u8>>) -> Option<Seq<u8>> {
    match read {
        Some(bytes) => Some(bytes@),
        None => None,
    }
}

/// What the chain is told after a static step with this read result.
pub open spec fn static_outcome(read: Option<Seq<u8>>) -> Status {
    if read is Some {
        Status::Unwind
    } else {
        Status::Continue
    }
}

/// The response after a static step: a served file sets status 200 and the
/// file's bytes as the body; a failed or absent read leaves the response as
/// it was.
pub open spec fn static_response(before: ResponseModel, read: Option<Seq<u8>>) -> ResponseModel {
    match read {
        Some(bytes) => (ResponseModel {
            status: Some(200u16),
            content_type: before.content_type,
            cache_control: before.cache_control,
            body: Some(BodyModel::FileBytes(bytes)),
        }),
        None => before,
    }
}

/// A request path asks for the favicon when it ends in `/favicon.ico`.
pub open spec fn is_favicon_path(p: Seq<char>) -> bool {
    "/favicon.ico"@.is_suffix_of(p)
}

/// Whether a request carries a path that asks for the favicon.
pub open spec fn wants_favicon(path: Option<Seq<char>>) -> bool {
    match path {
        Some(p) => is_favicon_path(p),
        None => false,
    }
}

/// The cache-control header value for a favicon with lifetime `max_age`.
pub open spec fn cache_control_of(max_age: u8) -> Seq<char> {
    "public, max-age="@ + decimal_of(max_age as nat)
}

/// The body written when the favicon file cannot be served.
pub open spec fn favicon_failure_message() -> Seq<char> {
    "Failed to serve favicon.ico."@
}

/// The response after a favicon step: the content type and the cache-control
/// header are set either way; a served file brings status 200 and the file's
/// bytes, a failed read brings status 500 and a fixed message.
pub open spec fn favicon_response(fav: FaviconModel, read: Option<Seq<u8>>) -> ResponseModel {
    ResponseModel {
        status: if read is Some {
            Some(200u16)
        } else {
            Some(500u16)
        },
        content_type: Some("image/x-icon"@),
        cache_control: Some(cache_control_of(fav.max_age)),
        body: match read {
            Some(bytes) => Some(BodyModel::FileBytes(bytes)),
            None => Some(BodyModel::Message(favicon_failure_message())),
        },
    }
}

impl Static {
    /// Create a new instance of `Static` with a given root path.
    ///
    /// Files are served from below this root; an empty root serves them from
    /// the current directory. A request path of `/` is served as
    /// `index.html`. When the candidate file cannot be read, the step leaves
    /// the response alone and lets the chain continue, so a later handler
    /// can answer instead.
    pub fn new(root_path: String) -> (r: Static)
        ensures
            r@ == root_path@,
    {
        Static { root_path }
    }

    /// Create a favicon handler from the given file path.
    ///
    /// It serves that one file, with the given cache lifetime in seconds, to
    /// every request whose path ends in `/favicon.ico`, and stops the chain
    /// for those requests. Linked first, it spares the rest of the chain
    /// such requests.
    pub fn favicon(favicon_path: String, max_age: u8) -> (r: Favicon)
        ensures
            r@ == (FaviconModel { path: favicon_path@, max_age }),
    {
        Favicon { max_age, favicon_path }
    }

    /// Where the request resolves below the root: the candidate file to
    /// read, or `None` when the request carries no path or the derived
    /// relative path has an empty or a `..` segment.
    pub fn resolve(&self, request_path: Option<&str>) -> (r: Option<String>)
        ensures
            r.deep_view() == candidate_of(self@, request_path.deep_view()),
    {
        match request_path {
            Some(p) => {
                let rel = derive_relative(p);
                if is_safe(rel.as_str()) {
                    Some(join(self.root_path.as_str(), rel.as_str()))
                } else {
                    None
                }
            },
            None => None,
        }
    }

    /// Finish the static step, given the result of reading the candidate
    /// file. A successful read serves the bytes with status 200 and stops
    /// the chain; anything else leaves the response alone and lets the
    /// chain continue.
    pub fn respond(&self, read: Option<Vec<u8>>, res: &mut Response) -> (st: Status)
        ensures
            st == static_outcome(read_view(read)),
            final(res)@ == static_response(old(res)@, read_view(read)),
    {
        match read {
            Some(bytes) => {
                res.status = Some(200);
                res.body = Some(Body::FileBytes(bytes));
                Status::Unwind
            },
            None => Status::Continue,
        }
    }
}

impl Favicon {
    /// The configured favicon file path.
    pub fn path(&self) -> (r: &String)
        ensures
            r@ == self@.path,
    {
        &self.favicon_path
    }

    /// The configured cache lifetime, in seconds.
    pub fn max_age(&self) -> (r: u8)
        ensures
            r == self@.max_age,
    {
        self.max_age
    }

    /// Whether this handler serves the request: it does if and only if the
    /// request carries a path that ends in `/favicon.ico`.
    pub fn accepts(&self, request_path: Option<&str>) -> (r: bool)
        ensures
            r == wants_favicon(request_path.deep_view()),
    {
        match request_path {
            Some(p) => {
                let suffix = "/favicon.ico";
                let m: usize = suffix.unicode_len();
                let n: usize = p.unicode_len();
                if n < m {
                    false
                } else {
                    let tail = String::from_str(p.substring_char(n - m, n));
                    let pat = String::from_str(suffix);
                    tail == pat
                }
            },
            None => false,
        }
    }

    /// Finish the favicon step, given the result of reading the configured
    /// file. The content type and the cache-control header are set either
    /// way; a successful read serves the bytes with status 200, a failed
    /// one writes a fixed message with status 500. The chain stops in both
    /// cases: the favicon route belongs to this handler alone.
    pub fn respond(&self, read: Option<Vec<u8>>, res: &mut Response) -> (st: Status)
        ensures
            st == Status::Unwind,
            final(res)@ == favicon_response(self@, read_view(read)),
    {
        let mut cc = String::from_str("public, max-age=");
        let digits = decimal_string(self.max_age);
        cc.append(digits.as_str());
        res.content_type = Some(String::from_str("image/x-icon"));
        res.cache_control = Some(cc);
        match read {
            Some(bytes) => {
                res.status = Some(200);
                res.body = Some(Body::FileBytes(bytes));
            },
            None => {
                res.status = Some(500);
                res.body = Some(Body::Message(String::from_str("Failed to serve favicon.ico.")));
            },
        }
        Status::Unwind
    }
}

/// Repeating a request changes nothing: against the same configuration, the
/// same request path and the same file contents, each handler step yields
/// the same candidate file, the same outcome signal and a byte-identical
/// response.
pub proof fn lemma_repeat_same_request(
    root: Seq<char>,
    fav: FaviconModel,
    before: ResponseModel,
    path1: Option<Seq<char>>,
    path2: Option<Seq<char>>,
    read1: Option<Seq<u8>>,
    read2: Option<Seq<u8>>,
)
    requires
        path1 == path2,
        read1 == read2,
    ensures
        candidate_of(root, path1) == candidate_of(root, path2),
        static_outcome(read1) == static_outcome(read2),
        static_response(before, read1) == static_response(before, read2),
        wants_favicon(path1) == wants_favicon(path2),
        favicon_response(fav, read1) == favicon_response(fav, read2),
{
}

} // verus!
