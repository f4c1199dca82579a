use github::client::{
    compose_url, conclude, conclude_as, failure_from, read_failure, read_record, record_from,
    GithubClient, GITHUB_API_URL, USER_AGENT,
};
use github::error::{
    ApiError, ApiErrorPart, ClientError, DecodeCause, DecodeError, TransportError,
};
use github::rate_limits::Rate;
use github::transport::{
    status_is_success, FixedAnswer, Header, InboundResponse, Method, OutboundRequest, Transport,
};
use std::cell::RefCell;

const DEFAULT_API_KEY: &'static str = "HelloWorld12345";
const DEFAULT_GITHUB_PROFILE: &'static str = "username";

/// A transport that gives one fixed answer and keeps what it was asked.
struct Canned {
    answer: Result<InboundResponse, TransportError>,
    seen: RefCell<Vec<OutboundRequest>>,
}

impl Canned {
    fn answering(status: u16, body: &str) -> Canned {
        Canned {
            answer: Ok(InboundResponse { status, body: body.to_string() }),
            seen: RefCell::new(Vec::new()),
        }
    }

    fn failing(cause: &str) -> Canned {
        Canned {
            answer: Err(TransportError { cause: cause.to_string() }),
            seen: RefCell::new(Vec::new()),
        }
    }
}

impl Transport for Canned {
    fn send(&self, request: &OutboundRequest) -> Result<InboundResponse, TransportError> {
        self.seen.borrow_mut().push(request.clone());
        self.answer.clone()
    }
}

fn answer(status: u16, body: &str) -> Result<InboundResponse, TransportError> {
    Ok(InboundResponse { status, body: body.to_string() })
}

fn decode_error(raw_body: &str, cause: DecodeCause) -> ClientError {
    ClientError::Decode(DecodeError { raw_body: raw_body.to_string(), cause })
}

#[test]
fn test_client() {
    let github_client =
        GithubClient::new(DEFAULT_GITHUB_PROFILE, DEFAULT_API_KEY, Canned::failing("unused"));
    assert!(github_client.username == DEFAULT_GITHUB_PROFILE.to_string());
    assert!(github_client.api_key == DEFAULT_API_KEY.to_string());
}

#[test]
fn compose_url_joins_plain_parts() {
    assert_eq!(compose_url("https://api.github.com", "user"), "https://api.github.com/user");
    assert_eq!(
        compose_url(GITHUB_API_URL, "repos/alice/proj"),
        "https://api.github.com/repos/alice/proj"
    );
}

#[test]
fn compose_url_drops_slashes_at_the_seam() {
    assert_eq!(compose_url("https://api.github.com/", "user"), "https://api.github.com/user");
    assert_eq!(compose_url("https://api.github.com", "/user"), "https://api.github.com/user");
    assert_eq!(compose_url("https://api.github.com/", "/user"), "https://api.github.com/user");
    assert_eq!(compose_url("https://api.github.com///", "//user"), "https://api.github.com/user");
}

#[test]
fn compose_url_keeps_slashes_elsewhere() {
    assert_eq!(compose_url("http://h/a/", "/b/c/"), "http://h/a/b/c/");
    assert_eq!(compose_url("/a", "b/"), "/a/b/");
}

#[test]
fn compose_url_of_empty_parts() {
    assert_eq!(compose_url("", ""), "/");
    assert_eq!(compose_url("", "user"), "/user");
    assert_eq!(compose_url("base", ""), "base/");
    assert_eq!(compose_url("///", "//"), "/");
}

#[test]
fn compose_url_counts_characters_not_bytes() {
    assert_eq!(compose_url("https://h\u{e9}te/", "/caf\u{e9}"), "https://h\u{e9}te/caf\u{e9}");
    assert_eq!(compose_url("\u{1f600}/", "/\u{1f600}"), "\u{1f600}/\u{1f600}");
}

#[test]
fn status_classes() {
    assert!(!status_is_success(0));
    assert!(!status_is_success(100));
    assert!(!status_is_success(199));
    assert!(status_is_success(200));
    assert!(status_is_success(204));
    assert!(status_is_success(299));
    assert!(!status_is_success(300));
    assert!(!status_is_success(404));
    assert!(!status_is_success(500));
    assert!(!status_is_success(u16::MAX));
}

#[test]
fn build_request_carries_url_headers_and_body() {
    let client = GithubClient::new("alice", "s3cret", Canned::failing("unused"));
    let request = client.build_request(Method::Patch, "user", Some("{}".to_string()));
    let expected = OutboundRequest {
        method: Method::Patch,
        url: "https://api.github.com/user".to_string(),
        headers: vec![
            Header {
                name: "User-Agent".to_string(),
                value: "[Github API] k0pernicus/github-api-rs".to_string(),
            },
            Header { name: "Authorization".to_string(), value: "token s3cret".to_string() },
        ],
        body: Some("{}".to_string()),
    };
    assert!(request == expected);
    assert_eq!(request.headers[0].value, USER_AGENT);
}

#[test]
fn build_request_without_body() {
    let client = GithubClient::new("alice", "", Canned::failing("unused"));
    let request = client.build_request(Method::Get, "/rate_limit", None);
    assert_eq!(request.method, Method::Get);
    assert_eq!(request.url, "https://api.github.com/rate_limit");
    assert_eq!(request.headers.len(), 2);
    assert_eq!(request.headers[1].name, "Authorization");
    assert_eq!(request.headers[1].value, "token ");
    assert_eq!(request.body, None);
}

#[test]
fn process_request_sends_the_built_request_once() {
    let client = GithubClient::new("alice", "key", Canned::answering(200, "hello"));
    let result = client.process_request(Method::Get, "user", None);
    assert_eq!(result, Ok("hello".to_string()));
    let seen = client.transport.seen.borrow();
    assert_eq!(seen.len(), 1);
    assert!(seen[0] == client.build_request(Method::Get, "user", None));
}

#[test]
fn process_request_passes_the_body_on() {
    let client = GithubClient::new("alice", "key", Canned::answering(200, "done"));
    let result = client.process_request(Method::Patch, "user", Some("{\"bio\":\"x\"}".to_string()));
    assert_eq!(result, Ok("done".to_string()));
    let seen = client.transport.seen.borrow();
    assert_eq!(seen[0].method, Method::Patch);
    assert_eq!(seen[0].body, Some("{\"bio\":\"x\"}".to_string()));
}

#[test]
fn transport_failure_is_passed_on() {
    let client = GithubClient::new("alice", "key", Canned::failing("connection refused"));
    let expected = ClientError::Transport(TransportError { cause: "connection refused".to_string() });
    assert_eq!(client.process_request(Method::Get, "user", None), Err(expected.clone()));
    assert_eq!(client.process::<Rate>(Method::Get, "rate_limit", None), Err(expected.clone()));
    assert_eq!(
        conclude(Err(TransportError { cause: "connection refused".to_string() })),
        Err(expected)
    );
}

#[test]
fn success_returns_the_body_untouched() {
    assert_eq!(conclude(answer(200, "not json at all")), Ok("not json at all".to_string()));
    assert_eq!(conclude(answer(204, "")), Ok(String::new()));
    assert_eq!(conclude(answer(299, "{\"a\":1}")), Ok("{\"a\":1}".to_string()));
}

#[test]
fn not_found_envelope_is_an_api_error() {
    let body = "{\"message\":\"Not Found\",\"errors\":[]}";
    let expected =
        ClientError::Api(ApiError { message: "Not Found".to_string(), parts: Vec::new() });
    assert_eq!(conclude(answer(404, body)), Err(expected.clone()));
    assert_eq!(conclude_as::<Rate>(answer(404, body)), Err(expected.clone()));
    let client = GithubClient::new("alice", "key", Canned::answering(404, body));
    assert_eq!(client.process_request(Method::Get, "users/nobody", None), Err(expected.clone()));
    assert_eq!(client.process::<Rate>(Method::Get, "users/nobody", None), Err(expected));
}

#[test]
fn forbidden_text_is_a_decode_error_with_the_body() {
    let result = conclude(answer(403, "Forbidden"));
    match result {
        Err(ClientError::Decode(error)) => {
            assert_eq!(error.raw_body, "Forbidden");
            assert_eq!(
                error.cause,
                DecodeCause::Syntax("expected value at line 1 column 1".to_string())
            );
        }
        other => panic!("unexpected result: {:?}", other),
    }
    let client = GithubClient::new("alice", "key", Canned::answering(403, "Forbidden"));
    assert_eq!(
        client.process::<Rate>(Method::Get, "rate_limit", None),
        Err(decode_error(
            "Forbidden",
            DecodeCause::Syntax("expected value at line 1 column 1".to_string())
        ))
    );
}

#[test]
fn envelope_entries_come_back_word_for_word() {
    let body = "{\"message\":\"Validation Failed\",\"errors\":[\
        {\"field\":\"name\",\"code\":\"missing_field\",\"message\":\"needs a name\"},\
        {\"resource\":\"User\",\"field\":\"email\",\"code\":\"invalid\",\"message\":\"\"}],\
        \"documentation_url\":\"https://developer.github.com/v3\"}";
    let expected = ClientError::Api(ApiError {
        message: "Validation Failed".to_string(),
        parts: vec![
            ApiErrorPart {
                field: "name".to_string(),
                code: "missing_field".to_string(),
                message: "needs a name".to_string(),
            },
            ApiErrorPart {
                field: "email".to_string(),
                code: "invalid".to_string(),
                message: String::new(),
            },
        ],
    });
    assert_eq!(conclude(answer(422, body)), Err(expected.clone()));
    assert_eq!(read_failure(body.to_string()), expected);
}

#[test]
fn json_of_another_shape_is_a_decode_error_with_the_body() {
    let bodies = [
        "{\"message\":\"Not Found\"}",
        "{\"errors\":[]}",
        "{\"message\":null,\"errors\":[]}",
        "{\"message\":7,\"errors\":[]}",
        "{\"message\":\"m\",\"errors\":{}}",
        "{\"message\":\"m\",\"errors\":null}",
        "{\"message\":\"m\",\"errors\":[{\"field\":\"f\",\"code\":\"c\"}]}",
        "{\"message\":\"m\",\"errors\":[{\"field\":\"f\",\"code\":\"c\",\"message\":1}]}",
        "{\"message\":\"m\",\"errors\":[\"text\"]}",
        "[\"m\",[]]",
        "\"Not Found\"",
        "null",
        "404",
    ];
    for body in bodies {
        assert_eq!(
            conclude(answer(404, body)),
            Err(decode_error(body, DecodeCause::Shape)),
            "body: {}",
            body
        );
    }
}

#[test]
fn broken_json_is_a_decode_error_with_the_parser_message() {
    assert_eq!(
        conclude(answer(500, "{\"message\":")),
        Err(decode_error(
            "{\"message\":",
            DecodeCause::Syntax("EOF while parsing a value at line 1 column 11".to_string())
        ))
    );
    assert_eq!(
        conclude(answer(500, "")),
        Err(decode_error(
            "",
            DecodeCause::Syntax("EOF while parsing a value at line 1 column 0".to_string())
        ))
    );
    assert_eq!(
        conclude(answer(302, "{} trailing")),
        Err(decode_error(
            "{} trailing",
            DecodeCause::Syntax("trailing characters at line 1 column 4".to_string())
        ))
    );
}

#[test]
fn status_decides_how_a_body_is_read() {
    let envelope = "{\"message\":\"m\",\"errors\":[]}";
    assert_eq!(conclude(answer(200, envelope)), Ok(envelope.to_string()));
    assert_eq!(conclude(answer(299, envelope)), Ok(envelope.to_string()));
    let api = ClientError::Api(ApiError { message: "m".to_string(), parts: Vec::new() });
    assert_eq!(conclude(answer(199, envelope)), Err(api.clone()));
    assert_eq!(conclude(answer(300, envelope)), Err(api.clone()));
    assert_eq!(conclude(answer(0, envelope)), Err(api));
}

#[test]
fn failure_from_goes_by_the_parser_outcome() {
    let body = "{\"message\":\"m\",\"errors\":[]}";
    assert_eq!(
        failure_from(body.to_string(), serde_json::from_str::<serde_json::Value>(body)),
        ClientError::Api(ApiError { message: "m".to_string(), parts: Vec::new() })
    );
    assert_eq!(
        failure_from("raw".to_string(), serde_json::from_str::<serde_json::Value>("[1]")),
        decode_error("raw", DecodeCause::Shape)
    );
    assert_eq!(
        failure_from("raw".to_string(), serde_json::from_str::<serde_json::Value>("[1")),
        decode_error(
            "raw",
            DecodeCause::Syntax("EOF while parsing a list at line 1 column 2".to_string())
        )
    );
}

#[test]
fn record_from_goes_by_the_parser_outcome() {
    let body = "{\"limit\":60,\"remaining\":59,\"reset\":1372700873}";
    assert_eq!(
        record_from::<Rate>(body.to_string(), serde_json::from_str::<serde_json::Value>(body)),
        Ok(Rate { limit: Some(60), remaining: Some(59), reset: Some(1372700873) })
    );
    assert_eq!(
        record_from::<Rate>("raw".to_string(), serde_json::from_str::<serde_json::Value>("[]")),
        Err(decode_error("raw", DecodeCause::Shape))
    );
    assert_eq!(
        record_from::<Rate>("raw".to_string(), serde_json::from_str::<serde_json::Value>("{")),
        Err(decode_error(
            "raw",
            DecodeCause::Syntax("EOF while parsing an object at line 1 column 1".to_string())
        ))
    );
}

#[test]
fn success_body_of_another_shape_is_a_decode_error_with_the_body() {
    assert_eq!(
        conclude_as::<Rate>(answer(200, "{\"limit\":\"sixty\"}")),
        Err(decode_error("{\"limit\":\"sixty\"}", DecodeCause::Shape))
    );
    assert_eq!(
        read_record::<Rate>("[60,59,0]".to_string()),
        Err(decode_error("[60,59,0]", DecodeCause::Shape))
    );
    assert_eq!(
        conclude_as::<Rate>(answer(200, "<html>")),
        Err(decode_error(
            "<html>",
            DecodeCause::Syntax("expected value at line 1 column 1".to_string())
        ))
    );
}

#[test]
fn same_answer_gives_equal_results() {
    let body = "{\"limit\":60,\"remaining\":59}";
    let first = conclude_as::<Rate>(answer(200, body));
    let second = conclude_as::<Rate>(answer(200, body));
    assert_eq!(first, second);
    assert_eq!(first, Ok(Rate { limit: Some(60), remaining: Some(59), reset: None }));
    let client = GithubClient::new("alice", "key", Canned::answering(200, body));
    assert_eq!(
        client.process::<Rate>(Method::Get, "rate_limit", None),
        client.process::<Rate>(Method::Get, "rate_limit", None)
    );
}

fn fixed(status: u16, body: &str) -> FixedAnswer {
    FixedAnswer { answer: Ok(InboundResponse { status, body: body.to_string() }) }
}

#[test]
fn fixed_answer_is_given_to_every_request() {
    let transport = fixed(200, "hello");
    let client = GithubClient::new("alice", "key", fixed(200, "hello"));
    let first = client.build_request(Method::Get, "user", None);
    let second = client.build_request(Method::Patch, "user", Some("{}".to_string()));
    let expected = Ok(InboundResponse { status: 200, body: "hello".to_string() });
    assert_eq!(transport.send(&first), expected);
    assert_eq!(transport.send(&second), expected);
    assert_eq!(transport.send(&first), expected);
    let failing = FixedAnswer { answer: Err(TransportError { cause: "down".to_string() }) };
    assert_eq!(failing.send(&first), Err(TransportError { cause: "down".to_string() }));
}

#[test]
fn fixed_answer_decides_the_result() {
    let client = GithubClient::new("alice", "key", fixed(200, "{\"limit\":1}"));
    assert_eq!(client.process_request(Method::Get, "rate_limit", None), Ok("{\"limit\":1}".to_string()));
    assert_eq!(
        client.process::<Rate>(Method::Get, "rate_limit", None),
        Ok(Rate { limit: Some(1), remaining: None, reset: None })
    );
    let refused = GithubClient::new(
        "alice",
        "key",
        fixed(404, "{\"message\":\"Not Found\",\"errors\":[]}"),
    );
    assert_eq!(
        refused.process_request(Method::Get, "users/nobody", None),
        Err(ClientError::Api(ApiError { message: "Not Found".to_string(), parts: Vec::new() }))
    );
    let forbidden = GithubClient::new("alice", "key", fixed(403, "Forbidden"));
    assert_eq!(
        forbidden.process::<Rate>(Method::Get, "rate_limit", None),
        Err(decode_error(
            "Forbidden",
            DecodeCause::Syntax("expected value at line 1 column 1".to_string())
        ))
    );
    let down = GithubClient::new(
        "alice",
        "key",
        FixedAnswer { answer: Err(TransportError { cause: "down".to_string() }) },
    );
    assert_eq!(
        down.process_request(Method::Get, "user", None),
        Err(ClientError::Transport(TransportError { cause: "down".to_string() }))
    );
}
