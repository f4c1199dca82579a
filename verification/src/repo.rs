//! The repositories of GitHub.
//!
//! GitHub documents the resource at <https://developer.github.com/v3/repos/>.
use crate::client::{concluded_as, planned, result_view, GithubClient};
use crate::error::{ClientError, TransportError};
use crate::json::{member, shape_of, JsonShape};
use crate::record::{
    count_at, count_fits, count_member, flag_at, flag_fits, flag_member, nested_at, nested_fits,
    nested_member, text_at, text_fits, text_member, vacant, Misfit, Record,
};
use crate::transport::{InboundResponse, Method, Transport};
use crate::user::{UserInfoStructure, UserInfoView};
use crate::GetterAPI;
use vstd::prelude::*;
use vstd::string::*;

verus! {

/// The path of the repositories below the API's address.
pub const REPOS_API_URL: &'static str = "repos";

/// The path of a repository below the API's address: the repositories' path,
/// the owner and the name, with a slash between each two.
pub open spec fn repo_path(owner: Seq<char>, reponame: Seq<char>) -> Seq<char> {
    REPOS_API_URL@ + seq!['/'] + owner + seq!['/'] + reponame
}

/// A client to communicate with the Github API for one repository.
pub struct RepoClient<'a, X> {
    /// The Github client
    pub github_client: &'a GithubClient<X>,
    /// Owner of the repository
    pub owner: String,
    /// Repository name
    pub reponame: String,
}

impl<'a, X: Transport> RepoClient<'a, X> {
    /// Returns a client to communicate with the Github API, specifically for a repository
    pub fn new(github_client: &'a GithubClient<X>, owner: &str, reponame: &str) -> (client: Self)
        ensures
            client.github_client == github_client,
            client.owner@ == owner@,
            client.reponame@ == reponame@,
    {
        RepoClient { github_client, owner: owner.to_owned(), reponame: reponame.to_owned() }
    }

    /// The path that [`GetterAPI::get`] asks for.
    pub fn path(&self) -> (path: String)
        ensures
            path@ == repo_path(self.owner@, self.reponame@),
    {
        let mut path = REPOS_API_URL.to_owned();
        path.append("/");
        path.append(self.owner.as_str());
        path.append("/");
        path.append(self.reponame.as_str());
        proof {
            reveal_strlit("/");
            assert("/"@ =~= seq!['/']);
        }
        path
    }
}

impl<'a, X: Transport> GetterAPI for RepoClient<'a, X> {
    type GetType = RepoInfoStructure;

    /// Asks for the repository and reads the answer as
    /// [`RepoInfoStructure`].
    ///
    /// The transport is handed a GET without a body to the repository's
    /// path, and the result is what [`crate::client::conclude_as`] makes of
    /// its answer.
    fn get(&self) -> (result: Result<RepoInfoStructure, ClientError>)
        ensures
            exists|answer: Result<InboundResponse, TransportError>|
                self.github_client.transport.answers(
                    planned(
                        self.github_client.api_key@,
                        Method::Get,
                        repo_path(self.owner@, self.reponame@),
                        None,
                    ),
                    answer,
                ) && result_view(result) == #[trigger] concluded_as::<RepoInfoStructure>(answer),
    {
        let path = self.path();
        self.github_client.process::<RepoInfoStructure>(Method::Get, path.as_str(), None)
    }
}

/// Contains all necessary fields to define permissions, for a given repository
#[derive(Debug, Clone, Copy, PartialEq, Eq)]
pub struct RepoPermissionsStructure {
    pub admin: Option<bool>,
    pub push: Option<bool>,
    pub pull: Option<bool>,
}

impl DeepView for RepoPermissionsStructure {
    type V = RepoPermissionsStructure;

    open spec fn deep_view(&self) -> RepoPermissionsStructure {
        *self
    }
}

impl Default for RepoPermissionsStructure {
    /// The record with no field present: what an object without members is read as.
    fn default() -> (record: Self)
        ensures
            record.deep_view() == Self::decoded(JsonShape::Object(Map::empty())),
    {
        RepoPermissionsStructure {
            admin: None,
            push: None,
            pull: None,
        }
    }
}

impl Record for RepoPermissionsStructure {
    open spec fn fits(shape: JsonShape) -> bool {
        &&& shape is Object
        &&& flag_fits(shape, "admin"@)
        &&& flag_fits(shape, "push"@)
        &&& flag_fits(shape, "pull"@)
    }

    open spec fn decoded(shape: JsonShape) -> RepoPermissionsStructure {
        RepoPermissionsStructure {
            admin: flag_at(shape, "admin"@),
            push: flag_at(shape, "push"@),
            pull: flag_at(shape, "pull"@),
        }
    }

    fn from_json(value: &serde_json::Value) -> (outcome: Result<Self, Misfit>) {
        if !value.is_object() {
            return Err(Misfit);
        }
        let admin = flag_member(value, "admin")?;
        let push = flag_member(value, "push")?;
        let pull = flag_member(value, "pull")?;
        Ok(RepoPermissionsStructure { admin, push, pull })
    }
}

/// Contains all necessary fields to define a repository
#[derive(Debug, PartialEq, Eq)]
pub struct RepoInfoStructure {
    pub id: Option<usize>,
    pub owner: Option<UserInfoStructure>,
    pub name: Option<String>,
    pub description: Option<String>,
    pub private: Option<bool>,
    pub fork: Option<bool>,
    pub url: Option<String>,
    pub html_url: Option<String>,
    pub branches_url: Option<String>,
    pub collaborators_url: Option<String>,
    pub contributors_url: Option<String>,
    pub forks_url: Option<String>,
    pub languages_url: Option<String>,
    pub releases_url: Option<String>,
    pub stargazers_url: Option<String>,
    pub subscribers_url: Option<String>,
    pub subscription_url: Option<String>,
    pub homepage: Option<String>,
    pub language: Option<String>,
    pub forks_count: Option<usize>,
    pub stargazers_count: Option<usize>,
    pub watchers_count: Option<usize>,
    pub size: Option<usize>,
    pub open_issues_count: Option<usize>,
    pub permissions: Option<RepoPermissionsStructure>,
    pub subscribers_count: Option<usize>,
    pub parent: Option<Box<RepoInfoStructure>>,
    pub source: Option<Box<RepoInfoStructure>>,
}

/// The mathematical value of a [`RepoInfoStructure`].
pub struct RepoInfoView {
    pub id: Option<usize>,
    pub owner: Option<UserInfoView>,
    pub name: Option<Seq<char>>,
    pub description: Option<Seq<char>>,
    pub private: Option<bool>,
    pub fork: Option<bool>,
    pub url: Option<Seq<char>>,
    pub html_url: Option<Seq<char>>,
    pub branches_url: Option<Seq<char>>,
    pub collaborators_url: Option<Seq<char>>,
    pub contributors_url: Option<Seq<char>>,
    pub forks_url: Option<Seq<char>>,
    pub languages_url: Option<Seq<char>>,
    pub releases_url: Option<Seq<char>>,
    pub stargazers_url: Option<Seq<char>>,
    pub subscribers_url: Option<Seq<char>>,
    pub subscription_url: Option<Seq<char>>,
    pub homepage: Option<Seq<char>>,
    pub language: Option<Seq<char>>,
    pub forks_count: Option<usize>,
    pub stargazers_count: Option<usize>,
    pub watchers_count: Option<usize>,
    pub size: Option<usize>,
    pub open_issues_count: Option<usize>,
    pub permissions: Option<RepoPermissionsStructure>,
    pub subscribers_count: Option<usize>,
    pub parent: Option<Box<RepoInfoView>>,
    pub source: Option<Box<RepoInfoView>>,
}

impl DeepView for RepoInfoStructure {
    type V = RepoInfoView;

    open spec fn deep_view(&self) -> RepoInfoView
        decreases self,
    {
        RepoInfoView {
            id: self.id,
            owner: self.owner.deep_view(),
            name: self.name.deep_view(),
            description: self.description.deep_view(),
            private: self.private,
            fork: self.fork,
            url: self.url.deep_view(),
            html_url: self.html_url.deep_view(),
            branches_url: self.branches_url.deep_view(),
            collaborators_url: self.collaborators_url.deep_view(),
            contributors_url: self.contributors_url.deep_view(),
            forks_url: self.forks_url.deep_view(),
            languages_url: self.languages_url.deep_view(),
            releases_url: self.releases_url.deep_view(),
            stargazers_url: self.stargazers_url.deep_view(),
            subscribers_url: self.subscribers_url.deep_view(),
            subscription_url: self.subscription_url.deep_view(),
            homepage: self.homepage.deep_view(),
            language: self.language.deep_view(),
            forks_count: self.forks_count,
            stargazers_count: self.stargazers_count,
            watchers_count: self.watchers_count,
            size: self.size,
            open_issues_count: self.open_issues_count,
            permissions: self.permissions.deep_view(),
            subscribers_count: self.subscribers_count,
            parent: match self.parent {
                Some(inner) => Some(Box::new((*inner).deep_view())),
                None => None,
            },
            source: match self.source {
                Some(inner) => Some(Box::new((*inner).deep_view())),
                None => None,
            },
        }
    }
}

impl Default for RepoInfoStructure {
    /// The record with no field present: what an object without members is read as.
    fn default() -> (record: Self)
        ensures
            record.deep_view() == Self::decoded(JsonShape::Object(Map::empty())),
    {
        RepoInfoStructure {
            id: None,
            owner: None,
            name: None,
            description: None,
            private: None,
            fork: None,
            url: None,
            html_url: None,
            branches_url: None,
            collaborators_url: None,
            contributors_url: None,
            forks_url: None,
            languages_url: None,
            releases_url: None,
            stargazers_url: None,
            subscribers_url: None,
            subscription_url: None,
            homepage: None,
            language: None,
            forks_count: None,
            stargazers_count: None,
            watchers_count: None,
            size: None,
            open_issues_count: None,
            permissions: None,
            subscribers_count: None,
            parent: None,
            source: None,
        }
    }
}

/// The members of the shape that are no repositories themselves can be read
/// as the fields of a repository.
pub open spec fn repo_fields_fit(shape: JsonShape) -> bool {
    &&& shape is Object
    &&& count_fits(shape, "id"@)
    &&& nested_fits::<UserInfoStructure>(shape, "owner"@)
    &&& text_fits(shape, "name"@)
    &&& text_fits(shape, "description"@)
    &&& flag_fits(shape, "private"@)
    &&& flag_fits(shape, "fork"@)
    &&& text_fits(shape, "url"@)
    &&& text_fits(shape, "html_url"@)
    &&& text_fits(shape, "branches_url"@)
    &&& text_fits(shape, "collaborators_url"@)
    &&& text_fits(shape, "contributors_url"@)
    &&& text_fits(shape, "forks_url"@)
    &&& text_fits(shape, "languages_url"@)
    &&& text_fits(shape, "releases_url"@)
    &&& text_fits(shape, "stargazers_url"@)
    &&& text_fits(shape, "subscribers_url"@)
    &&& text_fits(shape, "subscription_url"@)
    &&& text_fits(shape, "homepage"@)
    &&& text_fits(shape, "language"@)
    &&& count_fits(shape, "forks_count"@)
    &&& count_fits(shape, "stargazers_count"@)
    &&& count_fits(shape, "watchers_count"@)
    &&& count_fits(shape, "size"@)
    &&& count_fits(shape, "open_issues_count"@)
    &&& nested_fits::<RepoPermissionsStructure>(shape, "permissions"@)
    &&& count_fits(shape, "subscribers_count"@)
}

/// The repository that a fitting shape is read as, without the repositories
/// that it refers to.
pub open spec fn repo_fields_of(shape: JsonShape) -> RepoInfoView {
    RepoInfoView {
        id: count_at(shape, "id"@),
        owner: nested_at::<UserInfoStructure>(shape, "owner"@),
        name: text_at(shape, "name"@),
        description: text_at(shape, "description"@),
        private: flag_at(shape, "private"@),
        fork: flag_at(shape, "fork"@),
        url: text_at(shape, "url"@),
        html_url: text_at(shape, "html_url"@),
        branches_url: text_at(shape, "branches_url"@),
        collaborators_url: text_at(shape, "collaborators_url"@),
        contributors_url: text_at(shape, "contributors_url"@),
        forks_url: text_at(shape, "forks_url"@),
        languages_url: text_at(shape, "languages_url"@),
        releases_url: text_at(shape, "releases_url"@),
        stargazers_url: text_at(shape, "stargazers_url"@),
        subscribers_url: text_at(shape, "subscribers_url"@),
        subscription_url: text_at(shape, "subscription_url"@),
        homepage: text_at(shape, "homepage"@),
        language: text_at(shape, "language"@),
        forks_count: count_at(shape, "forks_count"@),
        stargazers_count: count_at(shape, "stargazers_count"@),
        watchers_count: count_at(shape, "watchers_count"@),
        size: count_at(shape, "size"@),
        open_issues_count: count_at(shape, "open_issues_count"@),
        permissions: nested_at::<RepoPermissionsStructure>(shape, "permissions"@),
        subscribers_count: count_at(shape, "subscribers_count"@),
        parent: None,
        source: None,
    }
}

/// Reads the fields of a repository that are no repositories themselves, and
/// leaves `parent` and `source` unset.
fn repo_fields_from_json(value: &serde_json::Value) -> (outcome: Result<RepoInfoStructure, Misfit>)
    ensures
        outcome is Ok <==> repo_fields_fit(shape_of(*value)),
        outcome matches Ok(repo) ==> repo.deep_view() == repo_fields_of(shape_of(*value)),
{
    if !value.is_object() {
        return Err(Misfit);
    }
    let id = count_member(value, "id")?;
    let owner = nested_member::<UserInfoStructure>(value, "owner")?;
    let name = text_member(value, "name")?;
    let description = text_member(value, "description")?;
    let private = flag_member(value, "private")?;
    let fork = flag_member(value, "fork")?;
    let url = text_member(value, "url")?;
    let html_url = text_member(value, "html_url")?;
    let branches_url = text_member(value, "branches_url")?;
    let collaborators_url = text_member(value, "collaborators_url")?;
    let contributors_url = text_member(value, "contributors_url")?;
    let forks_url = text_member(value, "forks_url")?;
    let languages_url = text_member(value, "languages_url")?;
    let releases_url = text_member(value, "releases_url")?;
    let stargazers_url = text_member(value, "stargazers_url")?;
    let subscribers_url = text_member(value, "subscribers_url")?;
    let subscription_url = text_member(value, "subscription_url")?;
    let homepage = text_member(value, "homepage")?;
    let language = text_member(value, "language")?;
    let forks_count = count_member(value, "forks_count")?;
    let stargazers_count = count_member(value, "stargazers_count")?;
    let watchers_count = count_member(value, "watchers_count")?;
    let size = count_member(value, "size")?;
    let open_issues_count = count_member(value, "open_issues_count")?;
    let permissions = nested_member::<RepoPermissionsStructure>(value, "permissions")?;
    let subscribers_count = count_member(value, "subscribers_count")?;
    let repo = RepoInfoStructure {
        id,
        owner,
        name,
        description,
        private,
        fork,
        url,
        html_url,
        branches_url,
        collaborators_url,
        contributors_url,
        forks_url,
        languages_url,
        releases_url,
        stargazers_url,
        subscribers_url,
        subscription_url,
        homepage,
        language,
        forks_count,
        stargazers_count,
        watchers_count,
        size,
        open_issues_count,
        permissions,
        subscribers_count,
        parent: None,
        source: None,
    };
    // The view is defined by recursion along `parent` and `source`: with
    // both unset it is the view of the fields read above.
    assert(repo.deep_view().parent is None && repo.deep_view().source is None);
    Ok(repo)
}

impl Record for RepoInfoStructure {
    open spec fn fits(shape: JsonShape) -> bool
        decreases shape,
    {
        &&& repo_fields_fit(shape)
        &&& (vacant(shape, "parent"@) || Self::fits(shape.at("parent"@)))
        &&& (vacant(shape, "source"@) || Self::fits(shape.at("source"@)))
    }

    open spec fn decoded(shape: JsonShape) -> RepoInfoView
        decreases shape,
    {
        RepoInfoView {
            parent: if vacant(shape, "parent"@) {
                None
            } else {
                Some(Box::new(Self::decoded(shape.at("parent"@))))
            },
            source: if vacant(shape, "source"@) {
                None
            } else {
                Some(Box::new(Self::decoded(shape.at("source"@))))
            },
            ..repo_fields_of(shape)
        }
    }

    fn from_json(value: &serde_json::Value) -> (outcome: Result<Self, Misfit>)
        decreases shape_of(*value),
    {
        let fields = repo_fields_from_json(value)?;
        let parent = match member(value, "parent") {
            None => None,
            Some(inner) => {
                if inner.is_null() {
                    None
                } else {
                    Some(Box::new(Self::from_json(inner)?))
                }
            },
        };
        let source = match member(value, "source") {
            None => None,
            Some(inner) => {
                if inner.is_null() {
                    None
                } else {
                    Some(Box::new(Self::from_json(inner)?))
                }
            },
        };
        Ok(RepoInfoStructure { parent, source, ..fields })
    }
}


} // verus!
