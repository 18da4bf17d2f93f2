use vstd::prelude::*;
use crate::pattern::Pattern;
use crate::presence::{activity_names, decision_for_names, evaluate_activities, Activity, Decision};

verus! {

/// A notification that one member's presence changed. The activities it
/// carries are authoritative for this update.
#[derive(Clone, Debug)]
pub struct PresenceUpdate {
    pub member_id: u64,
    /// The community the update came from, when the notification names one.
    pub community_id: Option<u64>,
    pub is_bot: bool,
    pub activities: Vec<Activity>,
}

/// What to do about one presence update.
#[derive(Clone, Copy, Debug, PartialEq, Eq, Structural)]
pub enum UpdatePlan {
    /// Nothing: no lookup and no mutation.
    Ignore,
    /// Look the member up in the community, then carry out the decision.
    Reconcile { community_id: u64, member_id: u64, decision: Decision },
}

/// The plan for an update: bots, updates outside any community and updates
/// that arrive while no pattern is configured are ignored; every other
/// update is decided from its own activities.
pub open spec fn update_plan(pattern: Option<Seq<char>>, update: PresenceUpdate) -> UpdatePlan {
    if update.is_bot || pattern is None || update.community_id is None {
        UpdatePlan::Ignore
    } else {
        UpdatePlan::Reconcile {
            community_id: update.community_id->0,
            member_id: update.member_id,
            decision: decision_for_names(pattern->0, activity_names(update.activities@)),
        }
    }
}

/// Decides what one presence update calls for.
pub fn plan_update(update: &PresenceUpdate, pattern: Option<&Pattern>) -> (r: UpdatePlan)
    ensures
        r == update_plan(
            match pattern {
                Some(p) => Some(p@),
                None => None,
            },
            *update,
        ),
        update.is_bot ==> r == UpdatePlan::Ignore,
{
    if update.is_bot {
        return UpdatePlan::Ignore;
    }
    match (pattern, update.community_id) {
        (Some(p), Some(community_id)) => {
            let decision = evaluate_activities(&update.activities, p);
            UpdatePlan::Reconcile { community_id, member_id: update.member_id, decision }
        },
        _ => UpdatePlan::Ignore,
    }
}

} // verus!
