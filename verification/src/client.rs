//! The request pipeline: one place that builds every request, hands it to
//! the transport and sorts the answer.
use crate::error::{
    envelope_fits, envelope_of, part_of, ApiError, ClientError, ClientErrorView, DecodeCause,
    DecodeCauseView, DecodeError, DecodeErrorView, TransportError,
};
use crate::json::{complaint, complaint_of, parse, parsed, shape_of, JsonShape};
use crate::record::Record;
use crate::transport::{
    is_success, same_answer, status_is_success, FixedAnswer, Header, InboundResponse, Method,
    OutboundRequest, OutboundRequestView, Transport,
};
use crate::user::UserClient;
use vstd::prelude::*;
use vstd::string::*;

verus! {

/// The address of the GitHub API.
pub const GITHUB_API_URL: &'static str = "https://api.github.com";

/// What this client calls itself in the `User-Agent` header.
pub const USER_AGENT: &'static str = "[Github API] k0pernicus/github-api-rs";

/// The text without the slashes at its end.
pub open spec fn without_trailing(text: Seq<char>) -> Seq<char>
    decreases text.len(),
{
    if text.len() > 0 && text.last() == '/' {
        without_trailing(text.drop_last())
    } else {
        text
    }
}

/// The text without the slashes at its start.
pub open spec fn without_leading(text: Seq<char>) -> Seq<char>
    decreases text.len(),
{
    if text.len() > 0 && text.first() == '/' {
        without_leading(text.drop_first())
    } else {
        text
    }
}

/// The URL of a path below a base: the base without the slashes at its end,
/// one slash, and the path without the slashes at its start.
pub open spec fn composed(base: Seq<char>, path: Seq<char>) -> Seq<char> {
    without_trailing(base) + seq!['/'] + without_leading(path)
}

/// Every element of the text is a slash.
pub open spec fn all_slashes(text: Seq<char>) -> bool {
    forall|i: int| 0 <= i < text.len() ==> text[i] == '/'
}

/// Removing the slashes at the end leaves a prefix that does not end in a
/// slash, and what was removed is slashes only.
pub proof fn lemma_without_trailing(text: Seq<char>)
    ensures
        without_trailing(text).len() <= text.len(),
        without_trailing(text) == text.subrange(0, without_trailing(text).len() as int),
        without_trailing(text).len() > 0 ==> without_trailing(text).last() != '/',
        all_slashes(text.subrange(without_trailing(text).len() as int, text.len() as int)),
    decreases text.len(),
{
    if text.len() > 0 && text.last() == '/' {
        let shorter = text.drop_last();
        lemma_without_trailing(shorter);
        let kept = without_trailing(shorter).len() as int;
        assert(shorter.subrange(0, kept) =~= text.subrange(0, kept));
        let removed = text.subrange(kept, text.len() as int);
        assert forall|i: int| 0 <= i < removed.len() implies removed[i] == '/' by {
            if i < shorter.len() - kept {
                assert(shorter.subrange(kept, shorter.len() as int)[i] == '/');
            }
        }
    } else {
        assert(text.subrange(0, text.len() as int) =~= text);
    }
}

/// Removing the slashes at the start leaves a suffix that does not start
/// with a slash, and what was removed is slashes only.
pub proof fn lemma_without_leading(text: Seq<char>)
    ensures
        without_leading(text).len() <= text.len(),
        without_leading(text) == text.subrange(
            text.len() - without_leading(text).len(),
            text.len() as int,
        ),
        without_leading(text).len() > 0 ==> without_leading(text).first() != '/',
        all_slashes(text.subrange(0, text.len() - without_leading(text).len())),
    decreases text.len(),
{
    if text.len() > 0 && text.first() == '/' {
        let shorter = text.drop_first();
        lemma_without_leading(shorter);
        let cut = shorter.len() - without_leading(shorter).len();
        assert(shorter.subrange(cut, shorter.len() as int) =~= text.subrange(
            cut + 1,
            text.len() as int,
        ));
        let removed = text.subrange(0, cut + 1);
        assert forall|i: int| 0 <= i < removed.len() implies removed[i] == '/' by {
            if i > 0 {
                assert(shorter.subrange(0, cut)[i - 1] == '/');
            }
        }
    } else {
        assert(text.subrange(0, text.len() as int) =~= text);
    }
}

/// A composed URL has exactly one slash between what is left of the base and
/// what is left of the path, whatever slashes the base ends in and the path
/// starts with: the base is its part of the URL followed by slashes only, the
/// path is slashes only followed by its part of the URL, the first part does
/// not end in a slash and the second does not start with one.
pub proof fn compose_url_has_one_separator(base: Seq<char>, path: Seq<char>)
    ensures
        ({
            let head = without_trailing(base);
            let tail = without_leading(path);
            &&& composed(base, path) == head + seq!['/'] + tail
            &&& composed(base, path).len() == head.len() + 1 + tail.len()
            &&& composed(base, path)[head.len() as int] == '/'
            &&& head.len() <= base.len()
            &&& tail.len() <= path.len()
            &&& head == base.subrange(0, head.len() as int)
            &&& tail == path.subrange(path.len() - tail.len(), path.len() as int)
            &&& all_slashes(base.subrange(head.len() as int, base.len() as int))
            &&& all_slashes(path.subrange(0, path.len() - tail.len()))
            &&& head.len() > 0 ==> head.last() != '/'
            &&& tail.len() > 0 ==> tail.first() != '/'
        }),
{
    lemma_without_trailing(base);
    lemma_without_leading(path);
}

/// Joins a base and a path below it into one URL, with exactly one slash
/// between the two.
pub fn compose_url(base: &str, path: &str) -> (url: String)
    ensures
        url@ == composed(base@, path@),
{
    let mut end: usize = base.unicode_len();
    assert(base@.subrange(0, end as int) =~= base@);
    while end > 0 && base.get_char(end - 1) == '/'
        invariant
            end <= base@.len(),
            without_trailing(base@) == without_trailing(base@.subrange(0, end as int)),
        decreases end,
    {
        assert(base@.subrange(0, end as int).drop_last() =~= base@.subrange(0, end - 1));
        end -= 1;
    }
    let length: usize = path.unicode_len();
    let mut start: usize = 0;
    assert(path@.subrange(0, length as int) =~= path@);
    while start < length && path.get_char(start) == '/'
        invariant
            start <= length,
            length == path@.len(),
            without_leading(path@) == without_leading(path@.subrange(start as int, length as int)),
        decreases length - start,
    {
        assert(path@.subrange(start as int, length as int).drop_first() =~= path@.subrange(
            start + 1,
            length as int,
        ));
        start += 1;
    }
    let head = base.substring_char(0, end);
    let tail = path.substring_char(start, length);
    let mut url = head.to_owned();
    url.append("/");
    url.append(tail);
    proof {
        reveal_strlit("/");
        assert("/"@ =~= seq!['/']);
    }
    url
}

/// The error for a body that could not be read.
pub open spec fn unreadable(body: Seq<char>, cause: DecodeCauseView) -> ClientErrorView {
    ClientErrorView::Decode(DecodeErrorView { raw_body: body, cause })
}

/// What a parsed body of a failed call says: the server's error where the
/// body is its envelope, and otherwise the body itself as one that could not
/// be read.
pub open spec fn failure_in(
    body: Seq<char>,
    outcome: Result<JsonShape, Seq<char>>,
) -> ClientErrorView {
    match outcome {
        Ok(shape) => if envelope_fits(shape) {
            ClientErrorView::Api(envelope_of(shape))
        } else {
            unreadable(body, DecodeCauseView::Shape)
        },
        Err(message) => unreadable(body, DecodeCauseView::Syntax(message)),
    }
}

/// What a parsed body of a successful call holds: the record where the body
/// fits it, and otherwise the body itself as one that could not be read.
pub open spec fn record_in<T: Record>(
    body: Seq<char>,
    outcome: Result<JsonShape, Seq<char>>,
) -> Result<<T as DeepView>::V, ClientErrorView> {
    match outcome {
        Ok(shape) => if T::fits(shape) {
            Ok(T::decoded(shape))
        } else {
            Err(unreadable(body, DecodeCauseView::Shape))
        },
        Err(message) => Err(unreadable(body, DecodeCauseView::Syntax(message))),
    }
}

/// The outcome of the parser, by shape and message.
pub open spec fn outcome_view(
    outcome: Result<serde_json::Value, serde_json::Error>,
) -> Result<JsonShape, Seq<char>> {
    match outcome {
        Ok(value) => Ok(shape_of(value)),
        Err(error) => Err(complaint_of(error)),
    }
}

/// The mathematical value of a call's result.
pub open spec fn result_view<T: DeepView>(result: Result<T, ClientError>) -> Result<
    <T as DeepView>::V,
    ClientErrorView,
> {
    match result {
        Ok(value) => Ok(value.deep_view()),
        Err(error) => Err(error.deep_view()),
    }
}

/// What the pipeline makes of an answer when the caller wants the body as
/// text: a failure of the transport is passed on, a body under a 2xx status
/// is the result, and a body under any other status is read as a failure.
pub open spec fn concluded(answer: Result<InboundResponse, TransportError>) -> Result<
    Seq<char>,
    ClientErrorView,
> {
    match answer {
        Err(error) => Err(ClientErrorView::Transport(error.cause@)),
        Ok(response) => if is_success(response.status) {
            Ok(response.body@)
        } else {
            Err(failure_in(response.body@, parsed(response.body@)))
        },
    }
}

/// What the pipeline makes of an answer when the caller wants a record: as
/// [`concluded`], with the body of a success read as the record.
pub open spec fn concluded_as<T: Record>(answer: Result<InboundResponse, TransportError>) -> Result<
    <T as DeepView>::V,
    ClientErrorView,
> {
    match concluded(answer) {
        Ok(body) => record_in::<T>(body, parsed(body)),
        Err(error) => Err(error),
    }
}

/// Builds the error for a body that the parser refused.
fn syntax_error(body: String, error: &serde_json::Error) -> (failure: ClientError)
    ensures
        failure.deep_view() == unreadable(body@, DecodeCauseView::Syntax(complaint_of(*error))),
{
    ClientError::Decode(DecodeError { raw_body: body, cause: DecodeCause::Syntax(complaint(error)) })
}

/// Builds the error for a body that is JSON of another shape.
fn shape_error(body: String) -> (failure: ClientError)
    ensures
        failure.deep_view() == unreadable(body@, DecodeCauseView::Shape),
{
    ClientError::Decode(DecodeError { raw_body: body, cause: DecodeCause::Shape })
}

/// Sorts the body of a failed call, given what the parser made of it.
pub fn failure_from(body: String, outcome: Result<serde_json::Value, serde_json::Error>) -> (failure:
    ClientError)
    ensures
        failure.deep_view() == failure_in(body@, outcome_view(outcome)),
{
    match outcome {
        Ok(value) => match ApiError::from_json(&value) {
            Ok(error) => ClientError::Api(error),
            Err(_) => shape_error(body),
        },
        Err(error) => syntax_error(body, &error),
    }
}

/// Reads the body of a successful call as a record, given what the parser
/// made of it.
pub fn record_from<T: Record>(
    body: String,
    outcome: Result<serde_json::Value, serde_json::Error>,
) -> (result: Result<T, ClientError>)
    ensures
        result_view(result) == record_in::<T>(body@, outcome_view(outcome)),
{
    match outcome {
        Ok(value) => match T::from_json(&value) {
            Ok(record) => Ok(record),
            Err(_) => Err(shape_error(body)),
        },
        Err(error) => Err(syntax_error(body, &error)),
    }
}

/// Parses the body of a failed call and sorts it.
pub fn read_failure(body: String) -> (failure: ClientError)
    ensures
        failure.deep_view() == failure_in(body@, parsed(body@)),
{
    let outcome = parse(body.as_str());
    failure_from(body, outcome)
}

/// Parses the body of a successful call and reads it as a record.
pub fn read_record<T: Record>(body: String) -> (result: Result<T, ClientError>)
    ensures
        result_view(result) == record_in::<T>(body@, parsed(body@)),
{
    let outcome = parse(body.as_str());
    record_from(body, outcome)
}

/// Sorts the answer of the transport for a caller that wants the body as
/// text.
pub fn conclude(answer: Result<InboundResponse, TransportError>) -> (result: Result<
    String,
    ClientError,
>)
    ensures
        result_view(result) == concluded(answer),
{
    match answer {
        Err(error) => Err(ClientError::Transport(error)),
        Ok(response) => {
            if status_is_success(response.status) {
                Ok(response.body)
            } else {
                Err(read_failure(response.body))
            }
        },
    }
}

/// Sorts the answer of the transport for a caller that wants a record.
pub fn conclude_as<T: Record>(answer: Result<InboundResponse, TransportError>) -> (result: Result<
    T,
    ClientError,
>)
    ensures
        result_view(result) == concluded_as::<T>(answer),
{
    match conclude(answer) {
        Ok(body) => read_record(body),
        Err(error) => Err(error),
    }
}

/// The headers that every request carries: `User-Agent` with the name of the
/// client software, and `Authorization` with the word `token` and the
/// session's key.
pub open spec fn identity_headers(api_key: Seq<char>) -> Seq<(Seq<char>, Seq<char>)> {
    seq![("User-Agent"@, USER_AGENT@), ("Authorization"@, "token "@ + api_key)]
}

/// The request that the pipeline sends for a method, a path below the API's
/// address and a body, in a session with the given key.
pub open spec fn planned(
    api_key: Seq<char>,
    method: Method,
    path: Seq<char>,
    body: Option<Seq<char>>,
) -> OutboundRequestView {
    OutboundRequestView {
        method,
        url: composed(GITHUB_API_URL@, path),
        headers: identity_headers(api_key),
        body,
    }
}

/// A session with the GitHub API: who calls, with which key, over which
/// transport. Nothing in it changes after it is made.
pub struct GithubClient<X> {
    /// The username of the user
    pub username: String,
    /// The personal API key of the user
    pub api_key: String,
    /// The network side
    pub transport: X,
}

impl<X: Transport> GithubClient<X> {
    /// Makes a session for a user and a key over a transport.
    pub fn new(username: &str, api_key: &str, transport: X) -> (client: Self)
        ensures
            client.username@ == username@,
            client.api_key@ == api_key@,
            client.transport == transport,
    {
        GithubClient { username: username.to_owned(), api_key: api_key.to_owned(), transport }
    }

    /// Returns a User client to communicate with the Github API about a User
    pub fn get_user_client<'a>(&'a self, username: &str) -> (client: UserClient<'a, X>)
        ensures
            client.github_client == self,
            client.username@ == username@,
    {
        UserClient::new(self, username)
    }

    /// Returns a User client that corresponding to the current user
    pub fn get_myself_client<'a>(&'a self) -> (client: UserClient<'a, X>)
        ensures
            client.github_client == self,
            client.username@ == self.username@,
    {
        UserClient::new(self, self.username.as_str())
    }

    /// Builds the request for a method, a path and a body: the URL is the
    /// path below the API's address, and both identifying headers are there.
    pub fn build_request(&self, http_method: Method, url: &str, body: Option<String>) -> (request:
        OutboundRequest)
        ensures
            request.deep_view() == planned(self.api_key@, http_method, url@, body.deep_view()),
            request.is_identified(),
    {
        let mut authorization = "token ".to_owned();
        authorization.append(self.api_key.as_str());
        let mut headers: Vec<Header> = Vec::new();
        headers.push(Header { name: "User-Agent".to_owned(), value: USER_AGENT.to_owned() });
        headers.push(Header { name: "Authorization".to_owned(), value: authorization });
        let request = OutboundRequest {
            method: http_method,
            url: compose_url(GITHUB_API_URL, url),
            headers,
            body,
        };
        proof {
            assert(request.headers.deep_view() =~= identity_headers(self.api_key@));
            assert(request.headers@[0].name@ == "User-Agent"@);
            assert(request.headers@[1].name@ == "Authorization"@);
        }
        request
    }

    /// Sends a request and returns the body of a successful answer as text.
    ///
    /// The transport is handed the request that [`Self::build_request`]
    /// builds, and the result is what [`conclude`] makes of its answer to
    /// that request.
    pub fn process_request(&self, http_method: Method, url: &str, body: Option<String>) -> (result:
        Result<String, ClientError>)
        ensures
            exists|answer: Result<InboundResponse, TransportError>|
                self.transport.answers(
                    planned(self.api_key@, http_method, url@, body.deep_view()),
                    answer,
                ) && result_view(result) == #[trigger] concluded(answer),
    {
        let request = self.build_request(http_method, url, body);
        let answer = self.transport.send(&request);
        conclude(answer)
    }

    /// Sends a request and reads the body of a successful answer as a record
    /// of type `T`.
    ///
    /// The transport is handed the request that [`Self::build_request`]
    /// builds, and the result is what [`conclude_as`] makes of its answer to
    /// that request.
    pub fn process<T: Record>(&self, http_method: Method, url: &str, body: Option<String>) -> (result:
        Result<T, ClientError>)
        ensures
            exists|answer: Result<InboundResponse, TransportError>|
                self.transport.answers(
                    planned(self.api_key@, http_method, url@, body.deep_view()),
                    answer,
                ) && result_view(result) == #[trigger] concluded_as::<T>(answer),
    {
        let request = self.build_request(http_method, url, body);
        let answer = self.transport.send(&request);
        conclude_as(answer)
    }
}

/// A body under a 2xx status that is JSON of the record's shape is read as
/// that record, field by field.
pub proof fn success_is_read_as_record<T: Record>(response: InboundResponse, shape: JsonShape)
    requires
        is_success(response.status),
        parsed(response.body@) == Ok::<JsonShape, Seq<char>>(shape),
        T::fits(shape),
    ensures
        concluded_as::<T>(Ok(response)) == Ok::<<T as DeepView>::V, ClientErrorView>(
            T::decoded(shape),
        ),
{
}

/// A body under a status outside the 2xx class that is the server's error
/// envelope is reported as the server's error, with the envelope's message
/// and entries word for word, whether the caller wanted text or a record.
pub proof fn envelope_is_reported<T: Record>(response: InboundResponse, shape: JsonShape)
    requires
        !is_success(response.status),
        parsed(response.body@) == Ok::<JsonShape, Seq<char>>(shape),
        envelope_fits(shape),
    ensures
        concluded(Ok(response)) == Err::<Seq<char>, ClientErrorView>(
            ClientErrorView::Api(envelope_of(shape)),
        ),
        concluded_as::<T>(Ok(response)) == Err::<<T as DeepView>::V, ClientErrorView>(
            ClientErrorView::Api(envelope_of(shape)),
        ),
        envelope_of(shape).message == shape.at("message"@)->Text_0,
        envelope_of(shape).parts.len() == shape.at("errors"@)->Array_0.len(),
        forall|i: int|
            0 <= i < envelope_of(shape).parts.len() ==> #[trigger] envelope_of(shape).parts[i]
                == part_of(shape.at("errors"@)->Array_0[i]),
{
}

/// A body under a status outside the 2xx class that is not the server's
/// error envelope comes back whole in a decode error, whether the caller
/// wanted text or a record.
pub proof fn other_failure_keeps_body<T: Record>(response: InboundResponse)
    requires
        !is_success(response.status),
        !(parsed(response.body@) matches Ok(shape) && envelope_fits(shape)),
    ensures
        concluded(Ok(response)) matches Err(ClientErrorView::Decode(error)) && error.raw_body
            == response.body@,
        concluded_as::<T>(Ok(response)) == Err::<<T as DeepView>::V, ClientErrorView>(
            concluded(Ok(response))->Err_0,
        ),
{
}

/// A body under a 2xx status that cannot be read as the record comes back
/// whole in a decode error.
pub proof fn misread_success_keeps_body<T: Record>(response: InboundResponse)
    requires
        is_success(response.status),
        !(parsed(response.body@) matches Ok(shape) && T::fits(shape)),
    ensures
        concluded_as::<T>(Ok(response)) matches Err(ClientErrorView::Decode(error))
            && error.raw_body == response.body@,
{
}

/// The result of a call depends on nothing but the answer: answers that say
/// the same give equal results, so asking twice while the server's state
/// stays as it is gives two equal records.
pub proof fn same_answer_same_result<T: Record>(
    first: Result<InboundResponse, TransportError>,
    second: Result<InboundResponse, TransportError>,
)
    requires
        same_answer(first, second),
    ensures
        concluded(first) == concluded(second),
        concluded_as::<T>(first) == concluded_as::<T>(second),
{
}

/// Over a transport that holds one answer, that answer decides the result of
/// a call, whatever is asked: every answer that the transport may give is
/// sorted as the one that it holds.
pub proof fn fixed_answer_decides<T: Record>(
    transport: FixedAnswer,
    request: OutboundRequestView,
    answer: Result<InboundResponse, TransportError>,
)
    requires
        transport.answers(request, answer),
    ensures
        concluded(answer) == concluded(transport.answer),
        concluded_as::<T>(answer) == concluded_as::<T>(transport.answer),
{
}

} // verus!
