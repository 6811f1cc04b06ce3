use lodge_rates::mapper::MapError;
use lodge_rates::model::{LodgeRateSnapshot, PropertyRatesResult, RatePlan, RatePlanDate};
use lodge_rates::provider::{FetchError, NetworkFailure, UpstreamOutcome};
use lodge_rates::service::{
    HelloQuery, RatesQuery, RatesService, Reply, ServiceConfig, ServiceError,
};
use lodge_rates::window::{DateWindow, ResolveError};

fn service() -> RatesService {
    RatesService::new(ServiceConfig {
        provider_base_url: "https://apac.littlehotelier.com/api/v1/properties".to_string(),
        property_id: "kakapolodgedirect".to_string(),
        timezone: "Pacific/Auckland".to_string(),
    })
}

fn date_entry(date: &str, rate: u16, available: u8) -> RatePlanDate {
    RatePlanDate {
        id: Some(11),
        date: date.to_string(),
        rate,
        min_stay: 1,
        stop_online_sell: false,
        close_to_arrival: false,
        close_to_departure: false,
        max_stay: Some(14),
        available,
    }
}

fn plan_a() -> PropertyRatesResult {
    PropertyRatesResult {
        name: "Plan A".to_string(),
        rate_plans: vec![RatePlan {
            id: 1,
            name: "Standard".to_string(),
            dates: vec![date_entry("2024-01-01", 150, 3)],
        }],
    }
}

#[test]
fn hello_without_a_name_greets_the_world() {
    let query = HelloQuery::from_params(None);
    assert_eq!(RatesService::hello(&query), Reply::Greeting("Hello, world!".to_string()));
    assert_eq!(
        RatesService::hello(&HelloQuery::default()),
        Reply::Greeting("Hello, world!".to_string())
    );
}

#[test]
fn hello_with_a_name_greets_it() {
    let query = HelloQuery::from_params(Some("Atticus".to_string()));
    let reply = RatesService::hello(&query);
    assert_eq!(reply, Reply::Greeting("Hello, Atticus!".to_string()));
    assert_eq!(reply.status(), 200);
}

#[test]
fn hello_with_an_empty_name() {
    let query = HelloQuery::from_params(Some(String::new()));
    assert_eq!(RatesService::hello(&query), Reply::Greeting("Hello, !".to_string()));
}

#[test]
fn default_queries() {
    assert_eq!(HelloQuery::default(), HelloQuery { name: "world".to_string() });
    assert_eq!(
        RatesQuery::default(),
        RatesQuery { start_date: String::new(), end_date: String::new() }
    );
    assert_eq!(RatesQuery::from_params(None, None), RatesQuery::default());
    assert_eq!(
        RatesQuery::from_params(Some("2024-01-01".to_string()), None),
        RatesQuery { start_date: "2024-01-01".to_string(), end_date: String::new() }
    );
}

#[test]
fn service_keeps_its_configuration() {
    let service = service();
    assert_eq!(service.client.base_url, "https://apac.littlehotelier.com/api/v1/properties");
    assert_eq!(service.property_id, "kakapolodgedirect");
    assert_eq!(service.timezone, "Pacific/Auckland");
}

#[test]
fn rates_request_passes_the_query_through() {
    let query =
        RatesQuery::from_params(Some("2024-02-01".to_string()), Some("2024-02-03".to_string()));
    assert_eq!(
        service().rates_request(query),
        "https://apac.littlehotelier.com/api/v1/properties/kakapolodgedirect/rates.json?start_date=2024-02-01&end_date=2024-02-03"
    );
    assert_eq!(
        service().rates_request(RatesQuery::default()),
        "https://apac.littlehotelier.com/api/v1/properties/kakapolodgedirect/rates.json?start_date=&end_date="
    );
}

#[test]
fn request_for_a_window() {
    let window =
        DateWindow { start_date: "2024-03-01".to_string(), end_date: "2024-03-02".to_string() };
    assert_eq!(
        service().request_for(&window),
        "https://apac.littlehotelier.com/api/v1/properties/kakapolodgedirect/rates.json?start_date=2024-03-01&end_date=2024-03-02"
    );
}

#[test]
fn tonight_request_asks_for_the_local_day() {
    // 2024-01-15T11:30:00Z is 00:30 on the 16th in Auckland
    assert_eq!(
        service().tonight_request(1_705_318_200),
        Ok("https://apac.littlehotelier.com/api/v1/properties/kakapolodgedirect/rates.json?start_date=2024-01-16&end_date=2024-01-16".to_string())
    );
    // 2024-07-15T11:30:00Z is 23:30 on the 15th in Auckland
    assert_eq!(
        service().tonight_request(1_721_043_000),
        Ok("https://apac.littlehotelier.com/api/v1/properties/kakapolodgedirect/rates.json?start_date=2024-07-15&end_date=2024-07-15".to_string())
    );
}

#[test]
fn tonight_request_with_a_bad_zone_is_a_failure() {
    let service = RatesService::new(ServiceConfig {
        provider_base_url: "http://provider.test".to_string(),
        property_id: "lodge".to_string(),
        timezone: "Nowhere/Special".to_string(),
    });
    let request = service.tonight_request(1_705_318_200);
    assert_eq!(request, Err(ServiceError::LocalDate(ResolveError::UnknownZone)));
    assert_eq!(Reply::Failure(request.unwrap_err()).status(), 500);
}

#[test]
fn tonight_request_at_an_instant_out_of_range_is_a_failure() {
    assert_eq!(
        service().tonight_request(i64::MAX),
        Err(ServiceError::LocalDate(ResolveError::InstantOutOfRange))
    );
}

#[test]
fn raw_rates_are_the_first_property_s_plans_unchanged() {
    let first = plan_a();
    let second = PropertyRatesResult { name: "Plan B".to_string(), rate_plans: vec![] };
    let reply = RatesService::rates(UpstreamOutcome::Decoded(vec![first.clone(), second]));
    assert_eq!(reply, Reply::RatePlans(first.rate_plans));
    assert_eq!(reply.status(), 200);
}

#[test]
fn raw_rates_keep_plans_without_dates() {
    let property = PropertyRatesResult {
        name: "Plan A".to_string(),
        rate_plans: vec![RatePlan { id: 5, name: "Gap".to_string(), dates: vec![] }],
    };
    let reply = RatesService::rates(UpstreamOutcome::Decoded(vec![property.clone()]));
    assert_eq!(reply, Reply::RatePlans(property.rate_plans));
}

#[test]
fn tonight_maps_the_provider_response_to_snapshots() {
    let reply = RatesService::rates_tonight(UpstreamOutcome::Decoded(vec![plan_a()]));
    assert_eq!(
        reply,
        Reply::Snapshots(vec![LodgeRateSnapshot {
            name: "Standard".to_string(),
            rate: 150,
            num_available: 3
        }])
    );
    assert_eq!(reply.status(), 200);
}

#[test]
fn tonight_ignores_later_properties() {
    let later = PropertyRatesResult {
        name: "Plan B".to_string(),
        rate_plans: vec![RatePlan { id: 2, name: "Gap".to_string(), dates: vec![] }],
    };
    let reply = RatesService::rates_tonight(UpstreamOutcome::Decoded(vec![plan_a(), later]));
    assert_eq!(
        reply,
        Reply::Snapshots(vec![LodgeRateSnapshot {
            name: "Standard".to_string(),
            rate: 150,
            num_available: 3
        }])
    );
}

#[test]
fn empty_provider_list_is_answered_with_502() {
    let raw = RatesService::rates(UpstreamOutcome::Decoded(vec![]));
    assert_eq!(raw, Reply::Failure(ServiceError::UpstreamEmpty));
    assert_eq!(raw.status(), 502);
    let tonight = RatesService::rates_tonight(UpstreamOutcome::Decoded(vec![]));
    assert_eq!(tonight, Reply::Failure(ServiceError::UpstreamEmpty));
    assert_eq!(tonight.status(), 502);
}

#[test]
fn plan_without_dates_is_answered_with_502() {
    let property = PropertyRatesResult {
        name: "Plan A".to_string(),
        rate_plans: vec![
            RatePlan {
                id: 1,
                name: "Standard".to_string(),
                dates: vec![date_entry("2024-01-01", 150, 3)],
            },
            RatePlan { id: 42, name: "Gap".to_string(), dates: vec![] },
        ],
    };
    let reply = RatesService::rates_tonight(UpstreamOutcome::Decoded(vec![property]));
    assert_eq!(reply, Reply::Failure(ServiceError::Mapping(42)));
    assert_eq!(reply.status(), 502);
}

#[test]
fn upstream_failures_become_replies() {
    let timeout = UpstreamOutcome::Failed(NetworkFailure::Timeout);
    assert_eq!(
        RatesService::rates(timeout.clone()),
        Reply::Failure(ServiceError::UpstreamNetwork(NetworkFailure::Timeout))
    );
    assert_eq!(RatesService::rates_tonight(timeout).status(), 504);
    let refused = UpstreamOutcome::Failed(NetworkFailure::Connection);
    assert_eq!(RatesService::rates(refused.clone()).status(), 502);
    assert_eq!(
        RatesService::rates_tonight(refused),
        Reply::Failure(ServiceError::UpstreamNetwork(NetworkFailure::Connection))
    );
    assert_eq!(
        RatesService::rates(UpstreamOutcome::Malformed),
        Reply::Failure(ServiceError::UpstreamDecode)
    );
    assert_eq!(RatesService::rates_tonight(UpstreamOutcome::Malformed).status(), 502);
}

#[test]
fn status_of_every_failure() {
    assert_eq!(ServiceError::QueryDecode.status(), 400);
    assert_eq!(ServiceError::UpstreamNetwork(NetworkFailure::Connection).status(), 502);
    assert_eq!(ServiceError::UpstreamNetwork(NetworkFailure::Cancelled).status(), 502);
    assert_eq!(ServiceError::UpstreamNetwork(NetworkFailure::Timeout).status(), 504);
    assert_eq!(ServiceError::UpstreamDecode.status(), 502);
    assert_eq!(ServiceError::UpstreamEmpty.status(), 502);
    assert_eq!(ServiceError::Mapping(0).status(), 502);
    assert_eq!(ServiceError::LocalDate(ResolveError::UnknownZone).status(), 500);
    assert_eq!(ServiceError::LocalDate(ResolveError::InstantOutOfRange).status(), 500);
}

#[test]
fn failures_of_fetch_and_mapping() {
    assert_eq!(
        ServiceError::from_fetch(FetchError::Network(NetworkFailure::Cancelled)),
        ServiceError::UpstreamNetwork(NetworkFailure::Cancelled)
    );
    assert_eq!(ServiceError::from_fetch(FetchError::Decode), ServiceError::UpstreamDecode);
    assert_eq!(ServiceError::from_fetch(FetchError::Empty), ServiceError::UpstreamEmpty);
    assert_eq!(ServiceError::from_map(MapError::EmptyPlanDates(9)), ServiceError::Mapping(9));
}

#[test]
fn status_of_successful_replies() {
    assert_eq!(Reply::Greeting(String::new()).status(), 200);
    assert_eq!(Reply::RatePlans(vec![]).status(), 200);
    assert_eq!(Reply::Snapshots(vec![]).status(), 200);
}
