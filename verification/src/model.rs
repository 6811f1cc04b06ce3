//! The provider's rate schema and the snapshot shown to the public.

use vstd::prelude::*;

verus! {

/// The sellable state of one rate plan on one calendar date.
#[derive(Clone, Debug, PartialEq, Eq)]
pub struct RatePlanDate {
    pub id: Option<u32>,
    pub date: String,
    pub rate: u16,
    pub min_stay: u8,
    pub stop_online_sell: bool,
    pub close_to_arrival: bool,
    pub close_to_departure: bool,
    pub max_stay: Option<u8>,
    pub available: u8,
}

/// One sellable rate product with its calendar, in the provider's order.
#[derive(Clone, Debug, PartialEq, Eq)]
pub struct RatePlan {
    pub id: u32,
    pub name: String,
    pub dates: Vec<RatePlanDate>,
}

/// One element of a provider response: a property and its rate plans.
#[derive(Clone, Debug, PartialEq, Eq)]
pub struct PropertyRatesResult {
    pub name: String,
    pub rate_plans: Vec<RatePlan>,
}

/// The minimal per-plan view published to the website widget.
#[derive(Clone, Debug, PartialEq, Eq)]
pub struct LodgeRateSnapshot {
    pub name: String,
    pub rate: u16,
    pub num_available: u8,
}

/// Mathematical value of a [`RatePlanDate`].
pub struct RatePlanDateView {
    pub id: Option<u32>,
    pub date: Seq<char>,
    pub rate: u16,
    pub min_stay: u8,
    pub stop_online_sell: bool,
    pub close_to_arrival: bool,
    pub close_to_departure: bool,
    pub max_stay: Option<u8>,
    pub available: u8,
}

/// Mathematical value of a [`RatePlan`].
pub struct RatePlanView {
    pub id: u32,
    pub name: Seq<char>,
    pub dates: Seq<RatePlanDateView>,
}

/// Mathematical value of a [`PropertyRatesResult`].
pub struct PropertyRatesView {
    pub name: Seq<char>,
    pub rate_plans: Seq<RatePlanView>,
}

/// Mathematical value of a [`LodgeRateSnapshot`].
pub struct SnapshotView {
    pub name: Seq<char>,
    pub rate: u16,
    pub num_available: u8,
}

impl View for RatePlanDate {
    type V = RatePlanDateView;

    open spec fn view(&self) -> RatePlanDateView {
        RatePlanDateView {
            id: self.id,
            date: self.date@,
            rate: self.rate,
            min_stay: self.min_stay,
            stop_online_sell: self.stop_online_sell,
            close_to_arrival: self.close_to_arrival,
            close_to_departure: self.close_to_departure,
            max_stay: self.max_stay,
            available: self.available,
        }
    }
}

impl View for RatePlan {
    type V = RatePlanView;

    open spec fn view(&self) -> RatePlanView {
        RatePlanView {
            id: self.id,
            name: self.name@,
            dates: self.dates@.map_values(|d: RatePlanDate| d@),
        }
    }
}

impl View for PropertyRatesResult {
    type V = PropertyRatesView;

    open spec fn view(&self) -> PropertyRatesView {
        PropertyRatesView {
            name: self.name@,
            rate_plans: self.rate_plans@.map_values(|p: RatePlan| p@),
        }
    }
}

impl View for LodgeRateSnapshot {
    type V = SnapshotView;

    open spec fn view(&self) -> SnapshotView {
        SnapshotView { name: self.name@, rate: self.rate, num_available: self.num_available }
    }
}

/// The views of a list of rate plans, in order.
pub open spec fn plan_views(plans: Seq<RatePlan>) -> Seq<RatePlanView> {
    plans.map_values(|p: RatePlan| p@)
}

/// The views of a list of snapshots, in order.
pub open spec fn snapshot_views(snapshots: Seq<LodgeRateSnapshot>) -> Seq<SnapshotView> {
    snapshots.map_values(|s: LodgeRateSnapshot| s@)
}

} // verus!
