//! The boundary between the service and whatever carries its requests.
//!
//! Nothing here does any input or output. A request arrives as plain values:
//! the path, whether the method was POST, the key, the associated data and
//! the body. The answer leaves as a [`Reply`], which the transport turns into
//! a response.

use vstd::prelude::*;
use vstd::string::*;
use vstd::utf8::encode_utf8_decode_utf8;

use crate::error::HashError;
use crate::hasher::VerifyOutcome;
use crate::headers::XRehash;

verus! {

/// The status of a reply.
#[derive(Clone, Copy, Debug, PartialEq, Eq, Structural)]
pub enum Status {
    Success,
    BadRequest,
    Forbidden,
    NotFound,
    MethodNotAllowed,
    InternalServerError,
}

impl Status {
    /// The HTTP status code.
    pub open spec fn spec_code(&self) -> u16 {
        match *self {
            Status::Success => 200,
            Status::BadRequest => 400,
            Status::Forbidden => 403,
            Status::NotFound => 404,
            Status::MethodNotAllowed => 405,
            Status::InternalServerError => 500,
        }
    }

    /// The HTTP status code.
    #[verifier::when_used_as_spec(spec_code)]
    pub fn code(&self) -> (code: u16)
        ensures
            code == self.spec_code(),
    {
        match self {
            Status::Success => 200,
            Status::BadRequest => 400,
            Status::Forbidden => 403,
            Status::NotFound => 404,
            Status::MethodNotAllowed => 405,
            Status::InternalServerError => 500,
        }
    }

    /// The status that reports `error`: input errors are bad requests,
    /// system errors are server faults.
    pub open spec fn spec_of_error(error: HashError) -> Status {
        match error {
            HashError::Input(_) => Status::BadRequest,
            HashError::System(_) => Status::InternalServerError,
        }
    }

    /// The status that reports `error`.
    #[verifier::when_used_as_spec(spec_of_error)]
    pub fn of_error(error: HashError) -> (status: Status)
        ensures
            status == Status::spec_of_error(error),
    {
        match error {
            HashError::Input(_) => Status::BadRequest,
            HashError::System(_) => Status::InternalServerError,
        }
    }
}

/// The operations that can be asked for.
#[derive(Clone, Copy, Debug, PartialEq, Eq, Structural)]
pub enum Endpoint {
    Hash,
    Verify,
}

/// Where a request goes, by its path.
///
/// A request without an absolute path is a bad request. An absolute path
/// other than `/hash` and `/verify` is not found. Both operations take POST
/// and no other method.
pub open spec fn spec_route(path: Option<Seq<char>>, is_post: bool) -> Result<Endpoint, Status> {
    match path {
        None => Err(Status::BadRequest),
        Some(text) => if text == "/hash"@ {
            if is_post {
                Ok(Endpoint::Hash)
            } else {
                Err(Status::MethodNotAllowed)
            }
        } else if text == "/verify"@ {
            if is_post {
                Ok(Endpoint::Verify)
            } else {
                Err(Status::MethodNotAllowed)
            }
        } else {
            Err(Status::NotFound)
        },
    }
}

/// The characters of a path, if there is one.
pub open spec fn path_view(path: Option<&str>) -> Option<Seq<char>> {
    match path {
        None => None,
        Some(text) => Some(text@),
    }
}

/// Whether two byte strings are equal. The comparison stops at the first
/// difference, so it is not the one to use on secrets.
pub fn bytes_equal(left: &[u8], right: &[u8]) -> (equal: bool)
    ensures
        equal == (left@ == right@),
{
    if left.len() != right.len() {
        return false;
    }
    let mut i: usize = 0;
    while i < left.len()
        invariant
            i <= left@.len(),
            left@.len() == right@.len(),
            forall|j: int| 0 <= j < i ==> left@[j] == right@[j],
        decreases left@.len() - i,
    {
        if left[i] != right[i] {
            return false;
        }
        i += 1;
    }
    assert(left@ =~= right@);
    true
}

/// Whether two strings are equal. They are compared by their bytes, and
/// strings with the same bytes hold the same characters.
pub fn str_equal(left: &str, right: &str) -> (equal: bool)
    ensures
        equal == (left@ == right@),
{
    proof {
        encode_utf8_decode_utf8(left@);
        encode_utf8_decode_utf8(right@);
    }
    bytes_equal(left.as_bytes(), right.as_bytes())
}

/// Decides where a request goes. `path` is `None` where the request's target
/// is not an absolute path.
pub fn route(path: Option<&str>, is_post: bool) -> (r: Result<Endpoint, Status>)
    ensures
        r == spec_route(path_view(path), is_post),
{
    let text = match path {
        None => {
            return Err(Status::BadRequest);
        },
        Some(text) => text,
    };
    let endpoint = if str_equal(text, "/hash") {
        Endpoint::Hash
    } else if str_equal(text, "/verify") {
        Endpoint::Verify
    } else {
        return Err(Status::NotFound);
    };
    if is_post {
        Ok(endpoint)
    } else {
        Err(Status::MethodNotAllowed)
    }
}

/// What a reply holds, with its body as a sequence.
pub struct ReplyView {
    pub status: Status,
    pub allow_post: bool,
    pub rehash: Option<XRehash>,
    pub error: Option<HashError>,
    pub body: Seq<u8>,
}

/// The answer to a request.
#[derive(Debug)]
pub struct Reply {
    pub status: Status,
    /// Whether to tell the client that POST is the method to use.
    pub allow_post: bool,
    /// The rehash signal, where a verification was carried out.
    pub rehash: Option<XRehash>,
    /// The error to describe to the client, where there is one.
    pub error: Option<HashError>,
    /// The record, where one was created; else empty.
    pub body: Vec<u8>,
}

impl View for Reply {
    type V = ReplyView;

    open spec fn view(&self) -> ReplyView {
        ReplyView {
            status: self.status,
            allow_post: self.allow_post,
            rehash: self.rehash,
            error: self.error,
            body: self.body@,
        }
    }
}

/// The reply to a request that was not routed to an operation.
pub open spec fn spec_unrouted_reply(status: Status) -> ReplyView {
    ReplyView {
        status,
        allow_post: status == Status::MethodNotAllowed,
        rehash: None,
        error: None,
        body: Seq::empty(),
    }
}

/// The reply that reports `error`.
pub open spec fn spec_error_reply(error: HashError) -> ReplyView {
    ReplyView {
        status: Status::spec_of_error(error),
        allow_post: false,
        rehash: None,
        error: Some(error),
        body: Seq::empty(),
    }
}

/// The reply to a request to create a record.
pub open spec fn spec_hash_reply(r: Result<Seq<u8>, HashError>) -> ReplyView {
    match r {
        Ok(record) => ReplyView {
            status: Status::Success,
            allow_post: false,
            rehash: None,
            error: None,
            body: record,
        },
        Err(e) => spec_error_reply(e),
    }
}

/// The result of a creation that a reply to it reports.
pub open spec fn spec_hash_result(reply: ReplyView) -> Result<Seq<u8>, HashError> {
    match reply.error {
        Some(e) => Err(e),
        None => Ok(reply.body),
    }
}

/// The reply to a request to verify: a secret that does not match is
/// forbidden, which is no error, and the rehash signal goes out either way.
pub open spec fn spec_verify_reply(r: Result<VerifyOutcome, HashError>) -> ReplyView {
    match r {
        Ok(outcome) => ReplyView {
            status: if outcome.matched {
                Status::Success
            } else {
                Status::Forbidden
            },
            allow_post: false,
            rehash: Some(XRehash(outcome.should_rehash)),
            error: None,
            body: Seq::empty(),
        },
        Err(e) => spec_error_reply(e),
    }
}

impl Reply {
    /// The reply to a request that was not routed to an operation.
    pub fn unrouted(status: Status) -> (reply: Reply)
        ensures
            reply@ == spec_unrouted_reply(status),
    {
        Reply {
            status,
            allow_post: status == Status::MethodNotAllowed,
            rehash: None,
            error: None,
            body: Vec::new(),
        }
    }

    /// The reply that reports `error`.
    pub fn of_error(error: HashError) -> (reply: Reply)
        ensures
            reply@ == spec_error_reply(error),
    {
        Reply {
            status: Status::of_error(error),
            allow_post: false,
            rehash: None,
            error: Some(error),
            body: Vec::new(),
        }
    }

    /// The reply to a request to create a record.
    pub fn of_hash(r: Result<Vec<u8>, HashError>) -> (reply: Reply)
        ensures
            reply@ == spec_hash_reply(crate::engine::bytes_view(r)),
    {
        match r {
            Ok(record) => Reply {
                status: Status::Success,
                allow_post: false,
                rehash: None,
                error: None,
                body: record,
            },
            Err(e) => Reply::of_error(e),
        }
    }

    /// The reply to a request to verify.
    pub fn of_verify(r: Result<VerifyOutcome, HashError>) -> (reply: Reply)
        ensures
            reply@ == spec_verify_reply(r),
    {
        match r {
            Ok(outcome) => Reply {
                status: if outcome.matched {
                    Status::Success
                } else {
                    Status::Forbidden
                },
                allow_post: false,
                rehash: Some(XRehash(outcome.should_rehash)),
                error: None,
                body: Vec::new(),
            },
            Err(e) => Reply::of_error(e),
        }
    }
}

} // verus!
