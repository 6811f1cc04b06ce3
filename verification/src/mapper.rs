//! Reduction of the provider's rate plans to one snapshot per plan.
//!
//! Policy: the first entry of a plan's `dates` is authoritative for the plan's
//! current rate and availability. Later entries are ignored, so a multi-day
//! calendar is truncated to its first date. A plan without any entry cannot be
//! mapped, and then nothing is.

use vstd::prelude::*;
use crate::model::{LodgeRateSnapshot, RatePlan, RatePlanView, SnapshotView};
use crate::model::{plan_views, snapshot_views};

verus! {

/// Why a list of rate plans could not be mapped.
#[derive(Clone, Copy, Debug, PartialEq, Eq, Structural)]
pub enum MapError {
    /// The plan with this id has an empty `dates` sequence.
    EmptyPlanDates(u32),
}

/// The plan has at least one date entry.
pub open spec fn has_dates(plan: RatePlanView) -> bool {
    plan.dates.len() > 0
}

/// The snapshot of a plan: its name, with rate and availability of its first date.
pub open spec fn snapshot_of(plan: RatePlanView) -> SnapshotView
    recommends
        has_dates(plan),
{
    SnapshotView {
        name: plan.name,
        rate: plan.dates[0].rate,
        num_available: plan.dates[0].available,
    }
}

/// The snapshots of a list of plans, plan by plan and in the plans' order.
pub open spec fn snapshots_of(plans: Seq<RatePlanView>) -> Seq<SnapshotView> {
    plans.map_values(|p: RatePlanView| snapshot_of(p))
}

/// Every plan of the list has at least one date entry.
pub open spec fn all_have_dates(plans: Seq<RatePlanView>) -> bool {
    forall|i: int| 0 <= i < plans.len() ==> has_dates(#[trigger] plans[i])
}

/// `i` is the position of the first plan without a date entry.
pub open spec fn is_first_without_dates(plans: Seq<RatePlanView>, i: int) -> bool {
    &&& 0 <= i < plans.len()
    &&& !has_dates(plans[i])
    &&& forall|j: int| 0 <= j < i ==> has_dates(#[trigger] plans[j])
}

/// Maps rate plans to snapshots.
pub struct RateMapper;

impl RateMapper {
    /// Maps every plan to its snapshot, or fails on the first plan without dates.
    ///
    /// On success the output has one snapshot per plan, at the plan's position.
    /// On failure no snapshot is returned, and the error names the first plan
    /// whose `dates` is empty.
    pub fn map(rate_plans: &Vec<RatePlan>) -> (r: Result<Vec<LodgeRateSnapshot>, MapError>)
        ensures
            all_have_dates(plan_views(rate_plans@)) ==> (r matches Ok(snapshots)
                && snapshot_views(snapshots@) == snapshots_of(plan_views(rate_plans@))),
            !all_have_dates(plan_views(rate_plans@)) ==> (r matches Err(
                MapError::EmptyPlanDates(id),
            ) && exists|i: int|
                is_first_without_dates(plan_views(rate_plans@), i)
                    && id == (#[trigger] rate_plans@[i]).id),
            r matches Ok(snapshots) ==> snapshots@.len() == rate_plans@.len(),
            r matches Ok(snapshots) ==> forall|i: int|
                0 <= i < rate_plans@.len() ==> has_dates(rate_plans@[i]@)
                    && (#[trigger] snapshots@[i])@ == snapshot_of(rate_plans@[i]@),
    {
        let ghost views = plan_views(rate_plans@);
        let mut snapshots: Vec<LodgeRateSnapshot> = Vec::new();
        let mut i: usize = 0;
        while i < rate_plans.len()
            invariant
                i <= rate_plans@.len(),
                views == plan_views(rate_plans@),
                snapshots@.len() == i,
                forall|j: int| 0 <= j < i ==> has_dates(#[trigger] views[j]),
                forall|j: int|
                    0 <= j < i ==> (#[trigger] snapshots@[j])@ == snapshot_of(rate_plans@[j]@),
            decreases rate_plans@.len() - i,
        {
            let plan = &rate_plans[i];
            assert(views[i as int] == plan@);
            if plan.dates.len() == 0 {
                proof {
                    assert(!has_dates(views[i as int]));
                    assert(is_first_without_dates(views, i as int));
                    assert(rate_plans@[i as int].id == plan.id);
                }
                return Err(MapError::EmptyPlanDates(plan.id));
            }
            let first = &plan.dates[0];
            assert(plan@.dates[0] == first@);
            let snapshot = LodgeRateSnapshot {
                name: plan.name.clone(),
                rate: first.rate,
                num_available: first.available,
            };
            assert(snapshot@ == snapshot_of(plan@));
            snapshots.push(snapshot);
            i += 1;
        }
        proof {
            assert(all_have_dates(views));
            assert(snapshot_views(snapshots@) =~= snapshots_of(views));
            assert forall|k: int| 0 <= k < rate_plans@.len() implies has_dates(
                rate_plans@[k]@,
            ) by {
                assert(views[k] == rate_plans@[k]@);
            }
        }
        Ok(snapshots)
    }
}

} // verus!
