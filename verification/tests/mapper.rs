use lodge_rates::mapper::{MapError, RateMapper};
use lodge_rates::model::{LodgeRateSnapshot, RatePlan, RatePlanDate};

fn date_entry(date: &str, rate: u16, available: u8) -> RatePlanDate {
    RatePlanDate {
        id: None,
        date: date.to_string(),
        rate,
        min_stay: 1,
        stop_online_sell: false,
        close_to_arrival: false,
        close_to_departure: false,
        max_stay: None,
        available,
    }
}

fn plan(id: u32, name: &str, dates: Vec<RatePlanDate>) -> RatePlan {
    RatePlan { id, name: name.to_string(), dates }
}

fn snapshot(name: &str, rate: u16, num_available: u8) -> LodgeRateSnapshot {
    LodgeRateSnapshot { name: name.to_string(), rate, num_available }
}

#[test]
fn maps_single_plan_to_its_first_date() {
    let plans = vec![plan(1, "Standard", vec![date_entry("2024-01-01", 150, 3)])];
    assert_eq!(RateMapper::map(&plans), Ok(vec![snapshot("Standard", 150, 3)]));
}

#[test]
fn plan_without_dates_is_an_error() {
    let plans = vec![plan(7, "Empty", vec![])];
    assert_eq!(RateMapper::map(&plans), Err(MapError::EmptyPlanDates(7)));
}

#[test]
fn output_keeps_length_and_order_of_plans() {
    let plans = vec![
        plan(3, "Suite", vec![date_entry("2024-05-01", 420, 1)]),
        plan(1, "Standard", vec![date_entry("2024-05-01", 150, 0)]),
        plan(2, "Bunk", vec![date_entry("2024-05-01", 65, 12)]),
    ];
    let snapshots = RateMapper::map(&plans).unwrap();
    assert_eq!(snapshots.len(), plans.len());
    assert_eq!(
        snapshots,
        vec![snapshot("Suite", 420, 1), snapshot("Standard", 150, 0), snapshot("Bunk", 65, 12)]
    );
}

#[test]
fn dates_after_the_first_are_ignored() {
    let plans = vec![plan(
        1,
        "Standard",
        vec![
            date_entry("2024-01-01", 150, 3),
            date_entry("2024-01-02", 999, 0),
            date_entry("2024-01-03", 1, 9),
        ],
    )];
    assert_eq!(RateMapper::map(&plans), Ok(vec![snapshot("Standard", 150, 3)]));
}

#[test]
fn only_name_rate_and_availability_are_projected() {
    let mut entry = date_entry("2024-01-01", 200, 5);
    entry.id = Some(77);
    entry.min_stay = 3;
    entry.max_stay = Some(9);
    entry.stop_online_sell = true;
    entry.close_to_arrival = true;
    entry.close_to_departure = true;
    let plans = vec![plan(4, "Closed", vec![entry])];
    assert_eq!(RateMapper::map(&plans), Ok(vec![snapshot("Closed", 200, 5)]));
}

#[test]
fn failure_is_atomic_and_names_the_first_empty_plan() {
    let plans = vec![
        plan(1, "Standard", vec![date_entry("2024-01-01", 150, 3)]),
        plan(8, "First gap", vec![]),
        plan(2, "Suite", vec![date_entry("2024-01-01", 420, 1)]),
        plan(9, "Second gap", vec![]),
    ];
    assert_eq!(RateMapper::map(&plans), Err(MapError::EmptyPlanDates(8)));
}

#[test]
fn no_plans_map_to_no_snapshots() {
    let plans: Vec<RatePlan> = vec![];
    assert_eq!(RateMapper::map(&plans), Ok(vec![]));
}

#[test]
fn extreme_rates_are_kept_as_they_are() {
    let plans = vec![plan(u32::MAX, "", vec![date_entry("", u16::MAX, u8::MAX)])];
    assert_eq!(RateMapper::map(&plans), Ok(vec![snapshot("", u16::MAX, u8::MAX)]));
}
