//! The parts of the host's response object that the handlers touch, and the
//! stop/continue signal they hand back to the chain.

use vstd::prelude::*;

verus! {

/// Signal returned to the host's handler chain after a step: stop the chain
/// because the response is complete (`Unwind`), or let the next handler run
/// (`Continue`).
#[derive(Clone, Copy, Debug, PartialEq, Eq, Structural)]
pub enum Status {
    Continue,
    Unwind,
}

/// What a handler put in the response body: the bytes of a served file, or a
/// fixed message written directly.
#[derive(Clone, Debug, PartialEq)]
pub enum Body {
    FileBytes(Vec<u8>),
    Message(String),
}

/// Mathematical model of a [`Body`].
pub ghost enum BodyModel {
    FileBytes(Seq<u8>),
    Message(Seq<char>),
}

impl View for Body {
    type V = BodyModel;

    open spec fn view(&self) -> BodyModel {
        match self {
            Body::FileBytes(bytes) => BodyModel::FileBytes(bytes@),
            Body::Message(text) => BodyModel::Message(text@),
        }
    }
}

/// The response state a handler may modify: a status code, two headers, and
/// the body. A fresh response has none of them set.
#[derive(Clone, Debug, PartialEq)]
pub struct Response {
    pub status: Option<u16>,
    pub content_type: Option<String>,
    pub cache_control: Option<String>,
    pub body: Option<Body>,
}

/// Mathematical model of a [`Response`].
pub ghost struct ResponseModel {
    pub status: Option<u16>,
    pub content_type: Option<Seq<char>>,
    pub cache_control: Option<Seq<char>>,
    pub body: Option<BodyModel>,
}

impl View for Response {
    type V = ResponseModel;

    open spec fn view(&self) -> ResponseModel {
        ResponseModel {
            status: self.status,
            content_type: match self.content_type {
                Some(ref s) => Some(s@),
                None => None,
            },
            cache_control: match self.cache_control {
                Some(ref s) => Some(s@),
                None => None,
            },
            body: match self.body {
                Some(ref b) => Some(b@),
                None => None,
            },
        }
    }
}

/// The model of a response with nothing set.
pub open spec fn empty_response_model() -> ResponseModel {
    ResponseModel { status: None, content_type: None, cache_control: None, body: None }
}

impl Response {
    /// A fresh response: no status, no headers, no body.
    pub fn new() -> (r: Response)
        ensures
            r@ == empty_response_model(),
    {
        Response { status: None, content_type: None, cache_control: None, body: None }
    }
}

} // verus!
