//! The decisions of the public HTTP surface.
//!
//! | Request | Reply with status 200 |
//! |---|---|
//! | `GET /hello`, optional `name` | the text `Hello, {name}!` |
//! | `GET /rates`, optional `start_date` and `end_date` | the provider's rate plans, as they came |
//! | `GET /rates/tonight` | one snapshot per rate plan, for the local day |
//!
//! Each endpoint that needs the provider is two functions: one composes the
//! address of the single outbound read, the other turns what came of that read
//! into the reply. Routing, the read itself and the encoding of bodies belong
//! to the caller. Every failure becomes a reply; none is retried.

use vstd::prelude::*;
use crate::mapper::{MapError, RateMapper};
use crate::mapper::{all_have_dates, is_first_without_dates, snapshots_of};
use crate::model::{LodgeRateSnapshot, RatePlan};
use crate::model::{plan_views, snapshot_views};
use crate::provider::{FetchError, NetworkFailure, RateProviderClient, UpstreamOutcome};
use crate::provider::{accepted, request_url_text};
use crate::window::{DateWindow, DateWindowResolver, ResolveError};
use crate::window::{text_or_empty, today_in_zone};

verus! {

/// The query of `GET /hello`.
#[derive(Clone, Debug, PartialEq, Eq)]
pub struct HelloQuery {
    /// Who is greeted; `world` where the request names nobody.
    pub name: String,
}

impl HelloQuery {
    /// The query with the given name, or with the default where it is absent.
    pub fn from_params(name: Option<String>) -> (query: HelloQuery)
        ensures
            query.name@ == (match name {
                Some(text) => text@,
                None => "world"@,
            }),
    {
        match name {
            Some(text) => HelloQuery { name: text },
            None => HelloQuery::default(),
        }
    }
}

impl Default for HelloQuery {
    fn default() -> (query: HelloQuery)
        ensures
            query.name@ == "world"@,
    {
        HelloQuery { name: "world".to_owned() }
    }
}

/// The query of `GET /rates`.
#[derive(Clone, Debug, PartialEq, Eq)]
pub struct RatesQuery {
    /// First date of the window; empty where the request gives none.
    pub start_date: String,
    /// Last date of the window; empty where the request gives none.
    pub end_date: String,
}

impl RatesQuery {
    /// The query with the given dates, each empty where it is absent.
    pub fn from_params(start_date: Option<String>, end_date: Option<String>) -> (query: RatesQuery)
        ensures
            query.start_date@ == text_or_empty(start_date),
            query.end_date@ == text_or_empty(end_date),
    {
        let start_date = match start_date {
            Some(text) => text,
            None => String::new(),
        };
        let end_date = match end_date {
            Some(text) => text,
            None => String::new(),
        };
        RatesQuery { start_date, end_date }
    }
}

impl Default for RatesQuery {
    fn default() -> (query: RatesQuery)
        ensures
            query.start_date@ == Seq::<char>::empty(),
            query.end_date@ == Seq::<char>::empty(),
    {
        RatesQuery { start_date: String::new(), end_date: String::new() }
    }
}

/// Why a request is answered with a failure.
#[derive(Clone, Copy, Debug, PartialEq, Eq, Structural)]
pub enum ServiceError {
    /// The query of the request could not be decoded.
    QueryDecode,
    /// The provider was not reached in time, or not at all.
    UpstreamNetwork(NetworkFailure),
    /// The provider's answer does not conform to its schema.
    UpstreamDecode,
    /// The provider returned no property result.
    UpstreamEmpty,
    /// The rate plan with this id has no date entry.
    Mapping(u32),
    /// The property's local day could not be resolved from its configuration.
    LocalDate(ResolveError),
}

/// The failure that a fetch error is reported as.
pub open spec fn fetch_failure(error: FetchError) -> ServiceError {
    match error {
        FetchError::Network(cause) => ServiceError::UpstreamNetwork(cause),
        FetchError::Decode => ServiceError::UpstreamDecode,
        FetchError::Empty => ServiceError::UpstreamEmpty,
    }
}

/// The HTTP status of a failure: 400 for the caller's own fault, 504 where the
/// provider timed out, 502 for every other fault of the provider or its data,
/// 500 for a fault of this service's configuration.
pub open spec fn failure_status(error: ServiceError) -> u16 {
    match error {
        ServiceError::QueryDecode => 400,
        ServiceError::UpstreamNetwork(NetworkFailure::Timeout) => 504,
        ServiceError::UpstreamNetwork(_) => 502,
        ServiceError::UpstreamDecode => 502,
        ServiceError::UpstreamEmpty => 502,
        ServiceError::Mapping(_) => 502,
        ServiceError::LocalDate(_) => 500,
    }
}

impl ServiceError {
    /// The failure that a fetch error is reported as.
    pub fn from_fetch(error: FetchError) -> (failure: ServiceError)
        ensures
            failure == fetch_failure(error),
    {
        match error {
            FetchError::Network(cause) => ServiceError::UpstreamNetwork(cause),
            FetchError::Decode => ServiceError::UpstreamDecode,
            FetchError::Empty => ServiceError::UpstreamEmpty,
        }
    }

    /// The failure that a mapping error is reported as.
    pub fn from_map(error: MapError) -> (failure: ServiceError)
        ensures
            error matches MapError::EmptyPlanDates(id) && failure == ServiceError::Mapping(id),
    {
        match error {
            MapError::EmptyPlanDates(id) => ServiceError::Mapping(id),
        }
    }

    /// The HTTP status that the failure is answered with.
    pub fn status(&self) -> (code: u16)
        ensures
            code == failure_status(*self),
    {
        match self {
            ServiceError::QueryDecode => 400,
            ServiceError::UpstreamNetwork(NetworkFailure::Timeout) => 504,
            ServiceError::UpstreamNetwork(_) => 502,
            ServiceError::UpstreamDecode => 502,
            ServiceError::UpstreamEmpty => 502,
            ServiceError::Mapping(_) => 502,
            ServiceError::LocalDate(_) => 500,
        }
    }
}

/// What a request is answered with, before it is encoded.
#[derive(Clone, Debug, PartialEq, Eq)]
pub enum Reply {
    /// A plain text body.
    Greeting(String),
    /// A JSON array of the provider's rate plans.
    RatePlans(Vec<RatePlan>),
    /// A JSON array of snapshots.
    Snapshots(Vec<LodgeRateSnapshot>),
    /// No body of data: the failure decides the status.
    Failure(ServiceError),
}

/// The HTTP status of a reply: 200 unless it is a failure.
pub open spec fn reply_status(reply: Reply) -> u16 {
    match reply {
        Reply::Failure(error) => failure_status(error),
        _ => 200,
    }
}

impl Reply {
    /// The HTTP status that the reply is sent with.
    pub fn status(&self) -> (code: u16)
        ensures
            code == reply_status(*self),
    {
        match self {
            Reply::Failure(error) => error.status(),
            _ => 200,
        }
    }
}

/// The greeting for a name.
pub open spec fn greeting_text(name: Seq<char>) -> Seq<char> {
    "Hello, "@ + name + "!"@
}

/// The reply of the raw endpoint to a verdict on the provider's answer.
pub open spec fn raw_reply(outcome: UpstreamOutcome) -> Reply {
    match accepted(outcome) {
        Ok(property) => Reply::RatePlans(property.rate_plans),
        Err(error) => Reply::Failure(fetch_failure(error)),
    }
}

/// `reply` is the reply of the simplified endpoint to `outcome`: the
/// snapshots of the first property's plans, or the failure that stopped them.
pub open spec fn is_simplified_reply(outcome: UpstreamOutcome, reply: Reply) -> bool {
    match accepted(outcome) {
        Err(error) => reply == Reply::Failure(fetch_failure(error)),
        Ok(property) => {
            let plans = plan_views(property.rate_plans@);
            if all_have_dates(plans) {
                reply matches Reply::Snapshots(snapshots) && snapshot_views(snapshots@)
                    == snapshots_of(plans)
            } else {
                reply matches Reply::Failure(ServiceError::Mapping(id)) && exists|i: int|
                    is_first_without_dates(plans, i) && id == (#[trigger] plans[i]).id
            }
        },
    }
}

/// The read-only configuration of the service.
#[derive(Clone, Debug, PartialEq, Eq)]
pub struct ServiceConfig {
    /// The address under which the provider keeps its properties.
    pub provider_base_url: String,
    /// The property whose rates are published.
    pub property_id: String,
    /// The IANA identifier of the property's time zone.
    pub timezone: String,
}

/// The service of one property.
#[derive(Clone, Debug, PartialEq, Eq)]
pub struct RatesService {
    pub client: RateProviderClient,
    pub property_id: String,
    pub timezone: String,
}

impl RatesService {
    /// The service for a configuration.
    pub fn new(config: ServiceConfig) -> (service: RatesService)
        ensures
            service.client.base_url@ == config.provider_base_url@,
            service.property_id@ == config.property_id@,
            service.timezone@ == config.timezone@,
    {
        RatesService {
            client: RateProviderClient::new(config.provider_base_url),
            property_id: config.property_id,
            timezone: config.timezone,
        }
    }

    /// `GET /hello`: greets the name of the query.
    pub fn hello(query: &HelloQuery) -> (reply: Reply)
        ensures
            reply matches Reply::Greeting(text) && text@ == greeting_text(query.name@),
    {
        let mut text = "Hello, ".to_owned();
        text.append(query.name.as_str());
        text.append("!");
        Reply::Greeting(text)
    }

    /// The address to read for a window of dates of this property.
    pub fn request_for(&self, window: &DateWindow) -> (url: String)
        ensures
            url@ == request_url_text(
                self.client.base_url@,
                self.property_id@,
                window@.start_date,
                window@.end_date,
            ),
    {
        self.client.request_url(
            self.property_id.as_str(),
            window.start_date.as_str(),
            window.end_date.as_str(),
        )
    }

    /// `GET /rates`, first half: the address to read, for the caller's own
    /// dates as they are.
    pub fn rates_request(&self, query: RatesQuery) -> (url: String)
        ensures
            url@ == request_url_text(
                self.client.base_url@,
                self.property_id@,
                query.start_date@,
                query.end_date@,
            ),
    {
        let window = DateWindowResolver::resolve_explicit(
            Some(query.start_date),
            Some(query.end_date),
        );
        self.request_for(&window)
    }

    /// `GET /rates`, second half: the first property's rate plans, unchanged.
    pub fn rates(outcome: UpstreamOutcome) -> (reply: Reply)
        ensures
            reply == raw_reply(outcome),
    {
        match RateProviderClient::accept(outcome) {
            Ok(property) => Reply::RatePlans(property.rate_plans),
            Err(error) => Reply::Failure(ServiceError::from_fetch(error)),
        }
    }

    /// `GET /rates/tonight`, first half: the address to read, for the single
    /// day that it is in the property's time zone at `unix_seconds`.
    pub fn tonight_request(&self, unix_seconds: i64) -> (request: Result<String, ServiceError>)
        ensures
            match today_in_zone(unix_seconds, self.timezone@) {
                Ok(today) => request matches Ok(url) && url@ == request_url_text(
                    self.client.base_url@,
                    self.property_id@,
                    today,
                    today,
                ),
                Err(error) => request == Err::<String, ServiceError>(
                    ServiceError::LocalDate(error),
                ),
            },
    {
        match DateWindowResolver::resolve_local_today(unix_seconds, self.timezone.as_str()) {
            Ok(window) => Ok(self.request_for(&window)),
            Err(error) => Err(ServiceError::LocalDate(error)),
        }
    }

    /// `GET /rates/tonight`, second half: one snapshot per rate plan of the
    /// first property, or the failure that stopped them.
    pub fn rates_tonight(outcome: UpstreamOutcome) -> (reply: Reply)
        ensures
            is_simplified_reply(outcome, reply),
    {
        match RateProviderClient::accept(outcome) {
            Err(error) => Reply::Failure(ServiceError::from_fetch(error)),
            Ok(property) => match RateMapper::map(&property.rate_plans) {
                Ok(snapshots) => Reply::Snapshots(snapshots),
                Err(error) => Reply::Failure(ServiceError::from_map(error)),
            },
        }
    }
}

} // verus!
