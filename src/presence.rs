use vstd::prelude::*;
use crate::pattern::{name_matches, Pattern};

verus! {

/// One thing a member is reported to be doing. Only the display name counts.
#[derive(Clone, Debug)]
pub struct Activity {
    pub name: String,
}

/// What a member is doing at one moment: zero or more activities, in the
/// order in which they were reported.
#[derive(Clone, Debug)]
pub struct Presence {
    pub activities: Vec<Activity>,
}

/// Whether a member should hold the role.
#[derive(Clone, Copy, Debug, PartialEq, Eq, Structural)]
pub enum Decision {
    Hold,
    Release,
}

/// The display names of a list of activities, in order.
pub open spec fn activity_names(acts: Seq<Activity>) -> Seq<Seq<char>> {
    acts.map_values(|a: Activity| a.name@)
}

impl View for Presence {
    type V = Seq<Seq<char>>;

    open spec fn view(&self) -> Seq<Seq<char>> {
        activity_names(self.activities@)
    }
}

/// Some name in `names` satisfies the pattern.
pub open spec fn any_matches(pat: Seq<char>, names: Seq<Seq<char>>) -> bool {
    exists|i: int| 0 <= i < names.len() && #[trigger] name_matches(pat, names[i])
}

/// The decision for a member whose activities have the names `names`.
pub open spec fn decision_for_names(pat: Seq<char>, names: Seq<Seq<char>>) -> Decision {
    if any_matches(pat, names) {
        Decision::Hold
    } else {
        Decision::Release
    }
}

/// The decision for a presence that may be absent: an absent presence
/// releases the role, as an empty one does.
pub open spec fn decision_of(pat: Seq<char>, presence: Option<Seq<Seq<char>>>) -> Decision {
    match presence {
        Some(names) => decision_for_names(pat, names),
        None => Decision::Release,
    }
}

/// The position of the first activity whose name satisfies the pattern.
/// Scanning stops there: no later activity is looked at.
pub fn first_match(activities: &Vec<Activity>, pattern: &Pattern) -> (r: Option<usize>)
    ensures
        match r {
            Some(i) => {
                &&& i < activities@.len()
                &&& name_matches(pattern@, activities@[i as int].name@)
                &&& forall|j: int|
                    0 <= j < i ==> !name_matches(pattern@, #[trigger] activities@[j].name@)
            },
            None => forall|j: int|
                0 <= j < activities@.len() ==> !name_matches(
                    pattern@,
                    #[trigger] activities@[j].name@,
                ),
        },
{
    let mut i: usize = 0;
    while i < activities.len()
        invariant
            i <= activities@.len(),
            forall|j: int| 0 <= j < i ==> !name_matches(pattern@, #[trigger] activities@[j].name@),
        decreases activities@.len() - i,
    {
        if pattern.matches(activities[i].name.as_str()) {
            return Some(i);
        }
        i = i + 1;
    }
    None
}

/// The decision for a list of activities: hold exactly when one of them matches.
pub fn evaluate_activities(activities: &Vec<Activity>, pattern: &Pattern) -> (r: Decision)
    ensures
        r == decision_for_names(pattern@, activity_names(activities@)),
{
    let found = first_match(activities, pattern);
    let names = Ghost(activity_names(activities@));
    match found {
        Some(i) => {
            assert(name_matches(pattern@, names@[i as int]));
            Decision::Hold
        },
        None => {
            assert forall|j: int| 0 <= j < names@.len() implies !name_matches(
                pattern@,
                #[trigger] names@[j],
            ) by {
                assert(names@[j] == activities@[j].name@);
            }
            Decision::Release
        },
    }
}

/// The decision for a member's presence, which may be absent.
pub fn evaluate(presence: Option<&Presence>, pattern: &Pattern) -> (r: Decision)
    ensures
        r == decision_of(
            pattern@,
            match presence {
                Some(p) => Some(p@),
                None => None,
            },
        ),
{
    match presence {
        Some(p) => evaluate_activities(&p.activities, pattern),
        None => Decision::Release,
    }
}

/// A member with no presence, or with no activity, never holds the role,
/// whatever the pattern.
pub proof fn lemma_no_activity_releases(pat: Seq<char>, presence: Option<Seq<Seq<char>>>)
    requires
        presence is None || presence->0.len() == 0,
    ensures
        decision_of(pat, presence) == Decision::Release,
{
}

/// A member with at least one matching activity holds the role, wherever
/// that activity stands and whatever surrounds it.
pub proof fn lemma_any_match_holds(pat: Seq<char>, names: Seq<Seq<char>>, i: int)
    requires
        0 <= i < names.len(),
        name_matches(pat, names[i]),
    ensures
        decision_of(pat, Some(names)) == Decision::Hold,
{
}

} // verus!
