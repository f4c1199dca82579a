use github::client::GithubClient;
use github::error::{ApiError, ClientError, TransportError};
use github::record::{Misfit, Record};
use github::repo::{RepoClient, RepoInfoStructure, RepoPermissionsStructure, REPOS_API_URL};
use github::transport::{InboundResponse, Method, OutboundRequest, Transport};
use github::user::UserInfoStructure;
use github::GetterAPI;
use std::cell::RefCell;

const DEFAULT_API_KEY: &'static str = "HelloWorld12345";
const DEFAULT_GITHUB_PROFILE: &'static str = "username";

/// A transport that gives one fixed answer and keeps the URLs it was asked.
struct Shelf {
    status: u16,
    body: String,
    asked: RefCell<Vec<OutboundRequest>>,
}

impl Shelf {
    fn answering(status: u16, body: &str) -> Shelf {
        Shelf { status, body: body.to_string(), asked: RefCell::new(Vec::new()) }
    }
}

impl Transport for Shelf {
    fn send(&self, request: &OutboundRequest) -> Result<InboundResponse, TransportError> {
        self.asked.borrow_mut().push(request.clone());
        Ok(InboundResponse { status: self.status, body: self.body.clone() })
    }
}

fn repo_from(text: &str) -> Result<RepoInfoStructure, Misfit> {
    RepoInfoStructure::from_json(&serde_json::from_str::<serde_json::Value>(text).unwrap())
}

#[test]
fn test_repo() {
    let github_client = GithubClient::new(
        DEFAULT_GITHUB_PROFILE,
        DEFAULT_API_KEY,
        Shelf::answering(200, "{\"name\":\"github-api-rs\",\"fork\":false}"),
    );
    let current_repo_api = RepoClient::new(&github_client, "k0pernicus", "github-api-rs");
    match current_repo_api.get() {
        Ok(value) => {
            println!("[test_repo] GET SUCCESS: {:?}", value);
            let mut expected = RepoInfoStructure::default();
            expected.name = Some("github-api-rs".to_string());
            expected.fork = Some(false);
            assert_eq!(value, expected);
        }
        Err(error) => panic!("[test_repo] GET ERROR: {:?}", error),
    }
    assert_eq!(
        github_client.transport.asked.borrow()[0].url,
        "https://api.github.com/repos/k0pernicus/github-api-rs"
    );
}

#[test]
fn repository_of_alice_is_read_from_a_canned_answer() {
    let session = GithubClient::new("alice", "key", Shelf::answering(200, "{\"id\":1,\"name\":\"proj\"}"));
    let result = RepoClient::new(&session, "alice", "proj").get();
    let mut expected = RepoInfoStructure::default();
    expected.id = Some(1);
    expected.name = Some("proj".to_string());
    assert_eq!(result, Ok(expected));
    let asked = session.transport.asked.borrow();
    assert_eq!(asked.len(), 1);
    assert!(asked[0] == session.build_request(Method::Get, "repos/alice/proj", None));
}

#[test]
fn repository_path_is_owner_and_name_below_repos() {
    let session = GithubClient::new("alice", "key", Shelf::answering(200, "{}"));
    let client = RepoClient::new(&session, "alice", "proj");
    assert_eq!(client.owner, "alice");
    assert_eq!(client.reponame, "proj");
    assert_eq!(client.path(), "repos/alice/proj");
    assert_eq!(client.path(), format!("{}/{}/{}", REPOS_API_URL, "alice", "proj"));
    assert_eq!(RepoClient::new(&session, "bob", "a.b-c").path(), "repos/bob/a.b-c");
    assert_eq!(RepoClient::new(&session, "", "").path(), "repos//");
}

#[test]
fn missing_repository_reports_the_server_error() {
    let session = GithubClient::new(
        "alice",
        "key",
        Shelf::answering(404, "{\"message\":\"Not Found\",\"errors\":[]}"),
    );
    assert_eq!(
        RepoClient::new(&session, "alice", "gone").get(),
        Err(ClientError::Api(ApiError { message: "Not Found".to_string(), parts: Vec::new() }))
    );
}

#[test]
fn default_repository_has_no_field() {
    let repo = RepoInfoStructure::default();
    assert_eq!(repo.id, None);
    assert_eq!(repo.owner, None);
    assert_eq!(repo.name, None);
    assert_eq!(repo.permissions, None);
    assert_eq!(repo.parent, None);
    assert_eq!(repo.source, None);
    assert_eq!(repo_from("{}"), Ok(repo));
    assert_eq!(
        RepoPermissionsStructure::default(),
        RepoPermissionsStructure { admin: None, push: None, pull: None }
    );
}

#[test]
fn repository_fields_are_read() {
    let text = "{
        \"id\": 1296269,
        \"owner\": {\"login\": \"octocat\", \"id\": 1, \"site_admin\": false},
        \"name\": \"Hello-World\",
        \"full_name\": \"octocat/Hello-World\",
        \"description\": \"This your first repo!\",
        \"private\": false,
        \"fork\": true,
        \"url\": \"https://api.github.com/repos/octocat/Hello-World\",
        \"html_url\": \"https://github.com/octocat/Hello-World\",
        \"homepage\": \"https://github.com\",
        \"language\": null,
        \"forks_count\": 9,
        \"stargazers_count\": 80,
        \"watchers_count\": 80,
        \"size\": 108,
        \"open_issues_count\": 0,
        \"permissions\": {\"admin\": false, \"push\": false, \"pull\": true},
        \"subscribers_count\": 42
    }";
    let mut owner = UserInfoStructure::default();
    owner.login = Some("octocat".to_string());
    owner.id = Some(1);
    owner.site_admin = Some(false);
    let mut expected = RepoInfoStructure::default();
    expected.id = Some(1296269);
    expected.owner = Some(owner);
    expected.name = Some("Hello-World".to_string());
    expected.description = Some("This your first repo!".to_string());
    expected.private = Some(false);
    expected.fork = Some(true);
    expected.url = Some("https://api.github.com/repos/octocat/Hello-World".to_string());
    expected.html_url = Some("https://github.com/octocat/Hello-World".to_string());
    expected.homepage = Some("https://github.com".to_string());
    expected.forks_count = Some(9);
    expected.stargazers_count = Some(80);
    expected.watchers_count = Some(80);
    expected.size = Some(108);
    expected.open_issues_count = Some(0);
    expected.permissions =
        Some(RepoPermissionsStructure { admin: Some(false), push: Some(false), pull: Some(true) });
    expected.subscribers_count = Some(42);
    assert_eq!(repo_from(text), Ok(expected));
}

#[test]
fn parent_and_source_are_read_as_repositories() {
    let text = "{\"name\":\"fork\",\
        \"parent\":{\"name\":\"middle\",\"parent\":{\"name\":\"root\"},\"source\":null},\
        \"source\":{\"name\":\"root\",\"id\":3}}";
    let mut root = RepoInfoStructure::default();
    root.name = Some("root".to_string());
    let mut middle = RepoInfoStructure::default();
    middle.name = Some("middle".to_string());
    middle.parent = Some(Box::new(root));
    let mut source = RepoInfoStructure::default();
    source.name = Some("root".to_string());
    source.id = Some(3);
    let mut expected = RepoInfoStructure::default();
    expected.name = Some("fork".to_string());
    expected.parent = Some(Box::new(middle));
    expected.source = Some(Box::new(source));
    assert_eq!(repo_from(text), Ok(expected));
}

#[test]
fn misfit_anywhere_in_the_chain_refuses_the_repository() {
    assert_eq!(repo_from("{\"parent\":{\"parent\":{\"id\":\"x\"}}}"), Err(Misfit));
    assert_eq!(repo_from("{\"source\":{\"owner\":{\"login\":1}}}"), Err(Misfit));
    assert_eq!(repo_from("{\"parent\":\"octocat/Hello-World\"}"), Err(Misfit));
    assert_eq!(repo_from("{\"source\":[]}"), Err(Misfit));
    assert_eq!(repo_from("{\"permissions\":{\"admin\":1}}"), Err(Misfit));
    assert_eq!(repo_from("{\"owner\":7}"), Err(Misfit));
    assert_eq!(repo_from("{\"private\":\"no\"}"), Err(Misfit));
    assert_eq!(repo_from("{\"size\":-3}"), Err(Misfit));
    assert_eq!(repo_from("[]"), Err(Misfit));
}

#[test]
fn deep_chain_of_parents_is_read() {
    let depth = 40;
    let mut text = String::new();
    for level in 0..depth {
        text.push_str(&format!("{{\"id\":{},\"parent\":", level));
    }
    text.push_str("null");
    for _ in 0..depth {
        text.push('}');
    }
    let mut repo = repo_from(&text).unwrap();
    for level in 0..depth {
        assert_eq!(repo.id, Some(level));
        if level + 1 < depth {
            repo = *repo.parent.unwrap();
        } else {
            assert_eq!(repo.parent, None);
        }
    }
}
