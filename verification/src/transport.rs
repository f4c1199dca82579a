//! What goes to the transport and what comes back from it.
//!
//! The transport is the one part that talks to the network. The crate hands
//! it a finished request and makes no assumption about the answer.
use crate::error::TransportError;
use vstd::prelude::*;

verus! {

/// The HTTP methods that a request can carry.
#[derive(Debug, Clone, Copy, PartialEq, Eq)]
pub enum Method {
    Get,
    Head,
    Post,
    Put,
    Patch,
    Delete,
}

/// One header line of a request. It may hold the session's key, so it has no
/// `Debug` form.
#[derive(Clone, PartialEq, Eq)]
pub struct Header {
    pub name: String,
    pub value: String,
}

impl DeepView for Header {
    type V = (Seq<char>, Seq<char>);

    open spec fn deep_view(&self) -> (Seq<char>, Seq<char>) {
        (self.name@, self.value@)
    }
}

/// A request as the transport gets it. Its headers hold the session's key, so
/// it has no `Debug` form.
#[derive(Clone, PartialEq, Eq)]
pub struct OutboundRequest {
    pub method: Method,
    /// The absolute URL.
    pub url: String,
    pub headers: Vec<Header>,
    /// The body, already in wire format, where the request has one.
    pub body: Option<String>,
}

/// The mathematical value of an [`OutboundRequest`].
pub struct OutboundRequestView {
    pub method: Method,
    pub url: Seq<char>,
    /// Name and value of each header, in order.
    pub headers: Seq<(Seq<char>, Seq<char>)>,
    pub body: Option<Seq<char>>,
}

impl DeepView for OutboundRequest {
    type V = OutboundRequestView;

    open spec fn deep_view(&self) -> OutboundRequestView {
        OutboundRequestView {
            method: self.method,
            url: self.url@,
            headers: self.headers.deep_view(),
            body: self.body.deep_view(),
        }
    }
}

impl OutboundRequest {
    /// The request has a header of that name.
    pub open spec fn has_header(&self, name: Seq<char>) -> bool {
        exists|i: int| 0 <= i < self.headers@.len() && (#[trigger] self.headers@[i]).name@ == name
    }

    /// The request says who sends it: it names the client software and
    /// carries an authorization.
    pub open spec fn is_identified(&self) -> bool {
        self.has_header("User-Agent"@) && self.has_header("Authorization"@)
    }
}

/// An answer as the transport delivers it.
#[derive(Debug, Clone, PartialEq, Eq)]
pub struct InboundResponse {
    /// The HTTP status code.
    pub status: u16,
    /// The whole body, as text.
    pub body: String,
}

/// Two answers say the same: the same failure of the transport, or the same
/// status with the same body.
pub open spec fn same_answer(
    first: Result<InboundResponse, TransportError>,
    second: Result<InboundResponse, TransportError>,
) -> bool {
    match (first, second) {
        (Ok(a), Ok(b)) => a.status == b.status && a.body@ == b.body@,
        (Err(a), Err(b)) => a.cause@ == b.cause@,
        _ => false,
    }
}

/// The network side of the client.
///
/// `send` makes one round trip. A request without the identifying headers is
/// never handed to it. What it returns is an answer to the request that it was
/// handed: each transport says by `answers` which answers it may give to which
/// request. A transport that says nothing there may give any answer.
pub trait Transport {
    /// The transport may give this answer to this request.
    open spec fn answers(
        &self,
        request: OutboundRequestView,
        answer: Result<InboundResponse, TransportError>,
    ) -> bool {
        true
    }

    /// Sends the request and returns the answer to it.
    fn send(&self, request: &OutboundRequest) -> (answer: Result<InboundResponse, TransportError>)
        requires
            request.is_identified(),
        ensures
            self.answers(request.deep_view(), answer),
    ;
}

/// A transport without a network: it gives the answer that it holds to every
/// request.
pub struct FixedAnswer {
    /// The answer to every request.
    pub answer: Result<InboundResponse, TransportError>,
}

impl Transport for FixedAnswer {
    open spec fn answers(
        &self,
        request: OutboundRequestView,
        answer: Result<InboundResponse, TransportError>,
    ) -> bool {
        same_answer(answer, self.answer)
    }

    fn send(&self, request: &OutboundRequest) -> (answer: Result<InboundResponse, TransportError>) {
        match &self.answer {
            Ok(response) => Ok(
                InboundResponse { status: response.status, body: response.body.clone() },
            ),
            Err(error) => Err(TransportError { cause: error.cause.clone() }),
        }
    }
}

/// The status is of the 2xx class.
pub open spec fn is_success(status: u16) -> bool {
    200 <= status <= 299
}

/// Sorts a status code: `true` for the 2xx class, `false` for every other.
pub fn status_is_success(status: u16) -> (answer: bool)
    ensures
        answer == is_success(status),
{
    200 <= status && status <= 299
}

} // verus!
