//! The rate limits of the session's user.
//!
//! GitHub documents the resource at
//! <https://developer.github.com/v3/rate_limit/>.
use crate::client::{concluded_as, planned, result_view, GithubClient};
use crate::error::{ClientError, TransportError};
use crate::json::JsonShape;
use crate::record::{
    count_at, count_fits, count_member, nested_at, nested_fits, nested_member, Misfit, Record,
};
use crate::transport::{InboundResponse, Method, Transport};
use crate::GetterAPI;
use vstd::prelude::*;

verus! {

/// The path of the rate limits below the API's address.
pub const RATELIMITS_API_URL: &'static str = "rate_limit";

/// Structure to communicate with the Github API
pub struct RateLimits<'a, X> {
    /// The Github client
    pub github_client: &'a GithubClient<X>,
}

impl<'a, X: Transport> RateLimits<'a, X> {
    /// Makes the client of the rate limits in a session.
    pub fn new(github_client: &'a GithubClient<X>) -> (client: Self)
        ensures
            client.github_client == github_client,
    {
        RateLimits { github_client }
    }
}

/// Get informations about rate limits, using GetterAPI trait
impl<'a, X: Transport> GetterAPI for RateLimits<'a, X> {
    type GetType = Limits;

    /// Asks for the rate limits and reads the answer as [`Limits`].
    ///
    /// The transport is handed a GET without a body to the fixed path of the
    /// rate limits, and the result is what [`crate::client::conclude_as`]
    /// makes of its answer.
    fn get(&self) -> (result: Result<Limits, ClientError>)
        ensures
            exists|answer: Result<InboundResponse, TransportError>|
                self.github_client.transport.answers(
                    planned(
                        self.github_client.api_key@,
                        Method::Get,
                        RATELIMITS_API_URL@,
                        None,
                    ),
                    answer,
                ) && result_view(result) == #[trigger] concluded_as::<Limits>(answer),
    {
        self.github_client.process::<Limits>(Method::Get, RATELIMITS_API_URL, None)
    }
}

/// Atomistic structure for core, graphql, search and rate fields
#[derive(Debug, Clone, Copy, PartialEq, Eq)]
pub struct Rate {
    pub limit: Option<usize>,
    pub remaining: Option<usize>,
    pub reset: Option<usize>,
}

impl DeepView for Rate {
    type V = Rate;

    open spec fn deep_view(&self) -> Rate {
        *self
    }
}

impl Default for Rate {
    /// The record with no field present: what an object without members is read as.
    fn default() -> (record: Self)
        ensures
            record.deep_view() == Self::decoded(JsonShape::Object(Map::empty())),
    {
        Rate {
            limit: None,
            remaining: None,
            reset: None,
        }
    }
}

impl Record for Rate {
    open spec fn fits(shape: JsonShape) -> bool {
        &&& shape is Object
        &&& count_fits(shape, "limit"@)
        &&& count_fits(shape, "remaining"@)
        &&& count_fits(shape, "reset"@)
    }

    open spec fn decoded(shape: JsonShape) -> Rate {
        Rate {
            limit: count_at(shape, "limit"@),
            remaining: count_at(shape, "remaining"@),
            reset: count_at(shape, "reset"@),
        }
    }

    fn from_json(value: &serde_json::Value) -> (outcome: Result<Self, Misfit>) {
        if !value.is_object() {
            return Err(Misfit);
        }
        let limit = count_member(value, "limit")?;
        let remaining = count_member(value, "remaining")?;
        let reset = count_member(value, "reset")?;
        Ok(Rate { limit, remaining, reset })
    }
}

/// Structure that contains big fields about rate limits
#[derive(Debug, Clone, Copy, PartialEq, Eq)]
pub struct ResourcesLimit {
    pub core: Option<Rate>,
    pub graphql: Option<Rate>,
    pub search: Option<Rate>,
}

impl DeepView for ResourcesLimit {
    type V = ResourcesLimit;

    open spec fn deep_view(&self) -> ResourcesLimit {
        *self
    }
}

impl Default for ResourcesLimit {
    /// The record with no field present: what an object without members is read as.
    fn default() -> (record: Self)
        ensures
            record.deep_view() == Self::decoded(JsonShape::Object(Map::empty())),
    {
        ResourcesLimit {
            core: None,
            graphql: None,
            search: None,
        }
    }
}

impl Record for ResourcesLimit {
    open spec fn fits(shape: JsonShape) -> bool {
        &&& shape is Object
        &&& nested_fits::<Rate>(shape, "core"@)
        &&& nested_fits::<Rate>(shape, "graphql"@)
        &&& nested_fits::<Rate>(shape, "search"@)
    }

    open spec fn decoded(shape: JsonShape) -> ResourcesLimit {
        ResourcesLimit {
            core: nested_at::<Rate>(shape, "core"@),
            graphql: nested_at::<Rate>(shape, "graphql"@),
            search: nested_at::<Rate>(shape, "search"@),
        }
    }

    fn from_json(value: &serde_json::Value) -> (outcome: Result<Self, Misfit>) {
        if !value.is_object() {
            return Err(Misfit);
        }
        let core = nested_member::<Rate>(value, "core")?;
        let graphql = nested_member::<Rate>(value, "graphql")?;
        let search = nested_member::<Rate>(value, "search")?;
        Ok(ResourcesLimit { core, graphql, search })
    }
}

/// The principal structure to receive and save informations about rate limits
#[derive(Debug, Clone, Copy, PartialEq, Eq)]
pub struct Limits {
    pub resources: Option<ResourcesLimit>,
    pub rate: Option<Rate>,
}

impl DeepView for Limits {
    type V = Limits;

    open spec fn deep_view(&self) -> Limits {
        *self
    }
}

impl Default for Limits {
    /// The record with no field present: what an object without members is read as.
    fn default() -> (record: Self)
        ensures
            record.deep_view() == Self::decoded(JsonShape::Object(Map::empty())),
    {
        Limits {
            resources: None,
            rate: None,
        }
    }
}

impl Record for Limits {
    open spec fn fits(shape: JsonShape) -> bool {
        &&& shape is Object
        &&& nested_fits::<ResourcesLimit>(shape, "resources"@)
        &&& nested_fits::<Rate>(shape, "rate"@)
    }

    open spec fn decoded(shape: JsonShape) -> Limits {
        Limits {
            resources: nested_at::<ResourcesLimit>(shape, "resources"@),
            rate: nested_at::<Rate>(shape, "rate"@),
        }
    }

    fn from_json(value: &serde_json::Value) -> (outcome: Result<Self, Misfit>) {
        if !value.is_object() {
            return Err(Misfit);
        }
        let resources = nested_member::<ResourcesLimit>(value, "resources")?;
        let rate = nested_member::<Rate>(value, "rate")?;
        Ok(Limits { resources, rate })
    }
}

} // verus!
