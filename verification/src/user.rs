//! The users of GitHub.
//!
//! GitHub documents the resource at <https://developer.github.com/v3/users/>.
use crate::client::{concluded, concluded_as, planned, result_view, GithubClient};
use crate::error::{ClientError, TransportError};
use crate::json::{empty_object, render, rendered, shape_of, JsonShape};
use crate::record::{
    count_at, count_fits, count_member, flag_at, flag_fits, flag_member, nested_at, nested_fits,
    nested_member, put_flag, put_text, text_at, text_fits, text_member, with_flag, with_text,
    Misfit, Record,
};
use crate::transport::{InboundResponse, Method, Transport};
use crate::{GetterAPI, UpdaterAPI};
use vstd::prelude::*;
use vstd::string::*;

verus! {

/// URL to access the Github API for myself
pub const USER_API_URL: &'static str = "user";

/// URL to access the Github API for other Github users
pub const USERS_API_URL: &'static str = "users";

/// The path of a user below the API's address, as seen from a session: the
/// session's own user is found under the path of "myself", every other user
/// under the users' path, a slash and the name.
pub open spec fn user_path(own: Seq<char>, wanted: Seq<char>) -> Seq<char> {
    if wanted == own {
        USER_API_URL@
    } else {
        USERS_API_URL@ + seq!['/'] + wanted
    }
}

/// A client to communicate with the Github API for Users.
/// You can create as much as UserClient structure as users you're looking for.
pub struct UserClient<'a, X> {
    /// The Github client
    pub github_client: &'a GithubClient<X>,
    /// The username to build requests
    pub username: String,
}

impl<'a, X: Transport> UserClient<'a, X> {
    /// Returns a client to communicate with the Github API, specifically for a user
    pub fn new(github_client: &'a GithubClient<X>, username: &str) -> (client: Self)
        ensures
            client.github_client == github_client,
            client.username@ == username@,
    {
        UserClient { github_client, username: username.to_owned() }
    }

    /// The path that [`GetterAPI::get`] asks for. The choice goes by the
    /// names alone: the user of this client against the user of the session.
    pub fn path(&self) -> (path: String)
        ensures
            path@ == user_path(self.github_client.username@, self.username@),
    {
        if self.username == self.github_client.username {
            USER_API_URL.to_owned()
        } else {
            let mut path = USERS_API_URL.to_owned();
            path.append("/");
            path.append(self.username.as_str());
            proof {
                reveal_strlit("/");
                assert("/"@ =~= seq!['/']);
            }
            path
        }
    }

    /// Update the current informations about the user, and returns a String that contains
    /// a message from the server if the request succeeds or an error
    ///
    /// The changes always go to the path of the session's own user, whatever
    /// user this client is for: the API lets nobody change another user. The
    /// transport is handed a PATCH to that path with the changes as its body,
    /// and the result is what [`crate::client::conclude`] makes of its answer.
    pub fn update(&self, new_infos: &UserUpdateStructure) -> (result: Result<String, ClientError>)
        ensures
            exists|answer: Result<InboundResponse, TransportError>|
                self.github_client.transport.answers(
                    planned(
                        self.github_client.api_key@,
                        Method::Patch,
                        USER_API_URL@,
                        Some(rendered(new_infos.wire_shape())),
                    ),
                    answer,
                ) && result_view(result) == #[trigger] concluded(answer),
    {
        let body = new_infos.encode();
        self.github_client.process_request(Method::Patch, USER_API_URL, Some(body))
    }
}

impl<'a, X: Transport> GetterAPI for UserClient<'a, X> {
    type GetType = UserInfoStructure;

    /// Asks for the user and reads the answer as [`UserInfoStructure`].
    ///
    /// The transport is handed a GET without a body to the user's path, which
    /// goes by identity: the path of "myself" where this client is for the
    /// session's own user, the users' path and the name for any other. The
    /// result is what [`crate::client::conclude_as`] makes of its answer.
    fn get(&self) -> (result: Result<UserInfoStructure, ClientError>)
        ensures
            exists|answer: Result<InboundResponse, TransportError>|
                self.github_client.transport.answers(
                    planned(
                        self.github_client.api_key@,
                        Method::Get,
                        user_path(self.github_client.username@, self.username@),
                        None,
                    ),
                    answer,
                ) && result_view(result) == #[trigger] concluded_as::<UserInfoStructure>(answer),
    {
        let path = self.path();
        self.github_client.process::<UserInfoStructure>(Method::Get, path.as_str(), None)
    }
}

impl<'a, X: Transport> UpdaterAPI for UserClient<'a, X> {
    type PatchType = UserUpdateStructure;

    /// Sends the changes as [`UserClient::update`] does: a PATCH to the path
    /// of the session's own user, with the changes as its body.
    fn patch(&self, new_infos: &UserUpdateStructure) -> (result: Result<String, ClientError>)
        ensures
            exists|answer: Result<InboundResponse, TransportError>|
                self.github_client.transport.answers(
                    planned(
                        self.github_client.api_key@,
                        Method::Patch,
                        USER_API_URL@,
                        Some(rendered(new_infos.wire_shape())),
                    ),
                    answer,
                ) && result_view(result) == #[trigger] concluded(answer),
    {
        self.update(new_infos)
    }
}

/// Interesting fields that represent globally a User on Github
#[derive(Debug, Clone, PartialEq, Eq)]
pub struct UserInfoStructure {
    pub login: Option<String>,
    pub id: Option<usize>,
    pub avatar_url: Option<String>,
    pub gravatar_id: Option<String>,
    pub url: Option<String>,
    pub html_url: Option<String>,
    pub followers_url: Option<String>,
    pub following_url: Option<String>,
    pub gists_url: Option<String>,
    pub starred_url: Option<String>,
    pub subscriptions_url: Option<String>,
    pub organizations_url: Option<String>,
    pub repos_url: Option<String>,
    pub site_admin: Option<bool>,
    pub name: Option<String>,
    pub email: Option<String>,
    pub public_repos: Option<usize>,
    pub public_gists: Option<usize>,
    pub followers: Option<usize>,
    pub following: Option<usize>,
    pub company: Option<String>,
    pub location: Option<String>,
    pub hireable: Option<bool>,
    pub bio: Option<String>,
    pub total_private_repos: Option<usize>,
    pub owned_private_repos: Option<usize>,
    pub private_gists: Option<usize>,
    pub disk_usage: Option<usize>,
    pub collaborators: Option<usize>,
    pub plan: Option<UserPlanStructure>,
}

/// The mathematical value of a [`UserInfoStructure`].
pub struct UserInfoView {
    pub login: Option<Seq<char>>,
    pub id: Option<usize>,
    pub avatar_url: Option<Seq<char>>,
    pub gravatar_id: Option<Seq<char>>,
    pub url: Option<Seq<char>>,
    pub html_url: Option<Seq<char>>,
    pub followers_url: Option<Seq<char>>,
    pub following_url: Option<Seq<char>>,
    pub gists_url: Option<Seq<char>>,
    pub starred_url: Option<Seq<char>>,
    pub subscriptions_url: Option<Seq<char>>,
    pub organizations_url: Option<Seq<char>>,
    pub repos_url: Option<Seq<char>>,
    pub site_admin: Option<bool>,
    pub name: Option<Seq<char>>,
    pub email: Option<Seq<char>>,
    pub public_repos: Option<usize>,
    pub public_gists: Option<usize>,
    pub followers: Option<usize>,
    pub following: Option<usize>,
    pub company: Option<Seq<char>>,
    pub location: Option<Seq<char>>,
    pub hireable: Option<bool>,
    pub bio: Option<Seq<char>>,
    pub total_private_repos: Option<usize>,
    pub owned_private_repos: Option<usize>,
    pub private_gists: Option<usize>,
    pub disk_usage: Option<usize>,
    pub collaborators: Option<usize>,
    pub plan: Option<UserPlanView>,
}

impl DeepView for UserInfoStructure {
    type V = UserInfoView;

    open spec fn deep_view(&self) -> UserInfoView {
        UserInfoView {
            login: self.login.deep_view(),
            id: self.id,
            avatar_url: self.avatar_url.deep_view(),
            gravatar_id: self.gravatar_id.deep_view(),
            url: self.url.deep_view(),
            html_url: self.html_url.deep_view(),
            followers_url: self.followers_url.deep_view(),
            following_url: self.following_url.deep_view(),
            gists_url: self.gists_url.deep_view(),
            starred_url: self.starred_url.deep_view(),
            subscriptions_url: self.subscriptions_url.deep_view(),
            organizations_url: self.organizations_url.deep_view(),
            repos_url: self.repos_url.deep_view(),
            site_admin: self.site_admin,
            name: self.name.deep_view(),
            email: self.email.deep_view(),
            public_repos: self.public_repos,
            public_gists: self.public_gists,
            followers: self.followers,
            following: self.following,
            company: self.company.deep_view(),
            location: self.location.deep_view(),
            hireable: self.hireable,
            bio: self.bio.deep_view(),
            total_private_repos: self.total_private_repos,
            owned_private_repos: self.owned_private_repos,
            private_gists: self.private_gists,
            disk_usage: self.disk_usage,
            collaborators: self.collaborators,
            plan: self.plan.deep_view(),
        }
    }
}

impl Default for UserInfoStructure {
    /// The record with no field present: what an object without members is read as.
    fn default() -> (record: Self)
        ensures
            record.deep_view() == Self::decoded(JsonShape::Object(Map::empty())),
    {
        UserInfoStructure {
            login: None,
            id: None,
            avatar_url: None,
            gravatar_id: None,
            url: None,
            html_url: None,
            followers_url: None,
            following_url: None,
            gists_url: None,
            starred_url: None,
            subscriptions_url: None,
            organizations_url: None,
            repos_url: None,
            site_admin: None,
            name: None,
            email: None,
            public_repos: None,
            public_gists: None,
            followers: None,
            following: None,
            company: None,
            location: None,
            hireable: None,
            bio: None,
            total_private_repos: None,
            owned_private_repos: None,
            private_gists: None,
            disk_usage: None,
            collaborators: None,
            plan: None,
        }
    }
}

impl Record for UserInfoStructure {
    open spec fn fits(shape: JsonShape) -> bool {
        &&& shape is Object
        &&& text_fits(shape, "login"@)
        &&& count_fits(shape, "id"@)
        &&& text_fits(shape, "avatar_url"@)
        &&& text_fits(shape, "gravatar_id"@)
        &&& text_fits(shape, "url"@)
        &&& text_fits(shape, "html_url"@)
        &&& text_fits(shape, "followers_url"@)
        &&& text_fits(shape, "following_url"@)
        &&& text_fits(shape, "gists_url"@)
        &&& text_fits(shape, "starred_url"@)
        &&& text_fits(shape, "subscriptions_url"@)
        &&& text_fits(shape, "organizations_url"@)
        &&& text_fits(shape, "repos_url"@)
        &&& flag_fits(shape, "site_admin"@)
        &&& text_fits(shape, "name"@)
        &&& text_fits(shape, "email"@)
        &&& count_fits(shape, "public_repos"@)
        &&& count_fits(shape, "public_gists"@)
        &&& count_fits(shape, "followers"@)
        &&& count_fits(shape, "following"@)
        &&& text_fits(shape, "company"@)
        &&& text_fits(shape, "location"@)
        &&& flag_fits(shape, "hireable"@)
        &&& text_fits(shape, "bio"@)
        &&& count_fits(shape, "total_private_repos"@)
        &&& count_fits(shape, "owned_private_repos"@)
        &&& count_fits(shape, "private_gists"@)
        &&& count_fits(shape, "disk_usage"@)
        &&& count_fits(shape, "collaborators"@)
        &&& nested_fits::<UserPlanStructure>(shape, "plan"@)
    }

    open spec fn decoded(shape: JsonShape) -> UserInfoView {
        UserInfoView {
            login: text_at(shape, "login"@),
            id: count_at(shape, "id"@),
            avatar_url: text_at(shape, "avatar_url"@),
            gravatar_id: text_at(shape, "gravatar_id"@),
            url: text_at(shape, "url"@),
            html_url: text_at(shape, "html_url"@),
            followers_url: text_at(shape, "followers_url"@),
            following_url: text_at(shape, "following_url"@),
            gists_url: text_at(shape, "gists_url"@),
            starred_url: text_at(shape, "starred_url"@),
            subscriptions_url: text_at(shape, "subscriptions_url"@),
            organizations_url: text_at(shape, "organizations_url"@),
            repos_url: text_at(shape, "repos_url"@),
            site_admin: flag_at(shape, "site_admin"@),
            name: text_at(shape, "name"@),
            email: text_at(shape, "email"@),
            public_repos: count_at(shape, "public_repos"@),
            public_gists: count_at(shape, "public_gists"@),
            followers: count_at(shape, "followers"@),
            following: count_at(shape, "following"@),
            company: text_at(shape, "company"@),
            location: text_at(shape, "location"@),
            hireable: flag_at(shape, "hireable"@),
            bio: text_at(shape, "bio"@),
            total_private_repos: count_at(shape, "total_private_repos"@),
            owned_private_repos: count_at(shape, "owned_private_repos"@),
            private_gists: count_at(shape, "private_gists"@),
            disk_usage: count_at(shape, "disk_usage"@),
            collaborators: count_at(shape, "collaborators"@),
            plan: nested_at::<UserPlanStructure>(shape, "plan"@),
        }
    }

    fn from_json(value: &serde_json::Value) -> (outcome: Result<Self, Misfit>) {
        if !value.is_object() {
            return Err(Misfit);
        }
        let login = text_member(value, "login")?;
        let id = count_member(value, "id")?;
        let avatar_url = text_member(value, "avatar_url")?;
        let gravatar_id = text_member(value, "gravatar_id")?;
        let url = text_member(value, "url")?;
        let html_url = text_member(value, "html_url")?;
        let followers_url = text_member(value, "followers_url")?;
        let following_url = text_member(value, "following_url")?;
        let gists_url = text_member(value, "gists_url")?;
        let starred_url = text_member(value, "starred_url")?;
        let subscriptions_url = text_member(value, "subscriptions_url")?;
        let organizations_url = text_member(value, "organizations_url")?;
        let repos_url = text_member(value, "repos_url")?;
        let site_admin = flag_member(value, "site_admin")?;
        let name = text_member(value, "name")?;
        let email = text_member(value, "email")?;
        let public_repos = count_member(value, "public_repos")?;
        let public_gists = count_member(value, "public_gists")?;
        let followers = count_member(value, "followers")?;
        let following = count_member(value, "following")?;
        let company = text_member(value, "company")?;
        let location = text_member(value, "location")?;
        let hireable = flag_member(value, "hireable")?;
        let bio = text_member(value, "bio")?;
        let total_private_repos = count_member(value, "total_private_repos")?;
        let owned_private_repos = count_member(value, "owned_private_repos")?;
        let private_gists = count_member(value, "private_gists")?;
        let disk_usage = count_member(value, "disk_usage")?;
        let collaborators = count_member(value, "collaborators")?;
        let plan = nested_member::<UserPlanStructure>(value, "plan")?;
        Ok(UserInfoStructure {
            login,
            id,
            avatar_url,
            gravatar_id,
            url,
            html_url,
            followers_url,
            following_url,
            gists_url,
            starred_url,
            subscriptions_url,
            organizations_url,
            repos_url,
            site_admin,
            name,
            email,
            public_repos,
            public_gists,
            followers,
            following,
            company,
            location,
            hireable,
            bio,
            total_private_repos,
            owned_private_repos,
            private_gists,
            disk_usage,
            collaborators,
            plan,
        })
    }
}

/// The plan that a user's account is on
#[derive(Debug, Clone, PartialEq, Eq)]
pub struct UserPlanStructure {
    pub name: Option<String>,
    pub space: Option<usize>,
    pub private_repos: Option<usize>,
    pub collaborators: Option<usize>,
}

/// The mathematical value of a [`UserPlanStructure`].
pub struct UserPlanView {
    pub name: Option<Seq<char>>,
    pub space: Option<usize>,
    pub private_repos: Option<usize>,
    pub collaborators: Option<usize>,
}

impl DeepView for UserPlanStructure {
    type V = UserPlanView;

    open spec fn deep_view(&self) -> UserPlanView {
        UserPlanView {
            name: self.name.deep_view(),
            space: self.space,
            private_repos: self.private_repos,
            collaborators: self.collaborators,
        }
    }
}

impl Default for UserPlanStructure {
    /// The record with no field present: what an object without members is read as.
    fn default() -> (record: Self)
        ensures
            record.deep_view() == Self::decoded(JsonShape::Object(Map::empty())),
    {
        UserPlanStructure {
            name: None,
            space: None,
            private_repos: None,
            collaborators: None,
        }
    }
}

impl Record for UserPlanStructure {
    open spec fn fits(shape: JsonShape) -> bool {
        &&& shape is Object
        &&& text_fits(shape, "name"@)
        &&& count_fits(shape, "space"@)
        &&& count_fits(shape, "private_repos"@)
        &&& count_fits(shape, "collaborators"@)
    }

    open spec fn decoded(shape: JsonShape) -> UserPlanView {
        UserPlanView {
            name: text_at(shape, "name"@),
            space: count_at(shape, "space"@),
            private_repos: count_at(shape, "private_repos"@),
            collaborators: count_at(shape, "collaborators"@),
        }
    }

    fn from_json(value: &serde_json::Value) -> (outcome: Result<Self, Misfit>) {
        if !value.is_object() {
            return Err(Misfit);
        }
        let name = text_member(value, "name")?;
        let space = count_member(value, "space")?;
        let private_repos = count_member(value, "private_repos")?;
        let collaborators = count_member(value, "collaborators")?;
        Ok(UserPlanStructure {
            name,
            space,
            private_repos,
            collaborators,
        })
    }
}

/// Fields that can be modified using the Github API, for a given user
#[derive(Debug, Clone, PartialEq, Eq)]
pub struct UserUpdateStructure {
    pub name: Option<String>,
    pub email: Option<String>,
    pub blog: Option<String>,
    pub company: Option<String>,
    pub location: Option<String>,
    pub hireable: Option<bool>,
    pub bio: Option<String>,
}

impl UserUpdateStructure {
    /// The members of the JSON object that carries the changes: one for each
    /// field that is set, under the field's name, and no other.
    pub open spec fn wire_members(&self) -> Map<Seq<char>, JsonShape> {
        let members = Map::<Seq<char>, JsonShape>::empty();
        let members = with_text(members, "name"@, self.name.deep_view());
        let members = with_text(members, "email"@, self.email.deep_view());
        let members = with_text(members, "blog"@, self.blog.deep_view());
        let members = with_text(members, "company"@, self.company.deep_view());
        let members = with_text(members, "location"@, self.location.deep_view());
        let members = with_flag(members, "hireable"@, self.hireable);
        with_text(members, "bio"@, self.bio.deep_view())
    }

    /// The JSON object that carries the changes.
    pub open spec fn wire_shape(&self) -> JsonShape {
        JsonShape::Object(self.wire_members())
    }

    /// Builds the JSON object that carries the changes.
    pub fn to_json(&self) -> (value: serde_json::Value)
        ensures
            shape_of(value) == self.wire_shape(),
    {
        let mut object = empty_object();
        put_text(&mut object, "name", &self.name);
        put_text(&mut object, "email", &self.email);
        put_text(&mut object, "blog", &self.blog);
        put_text(&mut object, "company", &self.company);
        put_text(&mut object, "location", &self.location);
        put_flag(&mut object, "hireable", &self.hireable);
        put_text(&mut object, "bio", &self.bio);
        object
    }

    /// Writes the changes out as the body of a request.
    pub fn encode(&self) -> (body: String)
        ensures
            body@ == rendered(self.wire_shape()),
    {
        let object = self.to_json();
        render(&object)
    }
}

/// Routing goes by identity: a client for the session's own user asks for
/// the path of "myself", a client for any other user asks for that user's
/// path, and the two paths are never the same.
pub proof fn routing_goes_by_identity(own: Seq<char>, other: Seq<char>)
    ensures
        user_path(own, own) == USER_API_URL@,
        other != own ==> user_path(own, other) == USERS_API_URL@ + seq!['/'] + other,
        other != own ==> user_path(own, other) != user_path(own, own),
{
    reveal_strlit("user");
    reveal_strlit("users");
    if other != own {
        assert(user_path(own, other).len() >= 6);
        assert(user_path(own, own).len() == 4);
    }
}

/// The body of an update holds a member for each field that is set, under
/// the field's name and with the field's value, and no other member: a field
/// that is not set is left out.
pub proof fn update_carries_set_fields_only(update: UserUpdateStructure)
    ensures
        forall|key: Seq<char>| #[trigger]
            update.wire_members().contains_key(key) <==> {
                ||| key == "name"@ && update.name is Some
                ||| key == "email"@ && update.email is Some
                ||| key == "blog"@ && update.blog is Some
                ||| key == "company"@ && update.company is Some
                ||| key == "location"@ && update.location is Some
                ||| key == "hireable"@ && update.hireable is Some
                ||| key == "bio"@ && update.bio is Some
            },
        update.name matches Some(text) ==> update.wire_members()["name"@] == JsonShape::Text(
            text@,
        ),
        update.email matches Some(text) ==> update.wire_members()["email"@] == JsonShape::Text(
            text@,
        ),
        update.blog matches Some(text) ==> update.wire_members()["blog"@] == JsonShape::Text(
            text@,
        ),
        update.company matches Some(text) ==> update.wire_members()["company"@]
            == JsonShape::Text(text@),
        update.location matches Some(text) ==> update.wire_members()["location"@]
            == JsonShape::Text(text@),
        update.hireable matches Some(flag) ==> update.wire_members()["hireable"@]
            == JsonShape::Bool(flag),
        update.bio matches Some(text) ==> update.wire_members()["bio"@] == JsonShape::Text(text@),
{
    reveal_strlit("name");
    reveal_strlit("email");
    reveal_strlit("blog");
    reveal_strlit("company");
    reveal_strlit("location");
    reveal_strlit("hireable");
    reveal_strlit("bio");
    assert("name"@.len() == 4 && "blog"@.len() == 4 && "email"@.len() == 5);
    assert("company"@.len() == 7 && "bio"@.len() == 3);
    assert("location"@.len() == 8 && "hireable"@.len() == 8);
    assert("name"@[0] != "blog"@[0]);
    assert("location"@[0] != "hireable"@[0]);
}

} // verus!
