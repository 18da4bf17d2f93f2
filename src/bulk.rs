use vstd::prelude::*;
use std::collections::HashMap;
use crate::pattern::Pattern;
use crate::presence::{decision_of, evaluate, Decision, Presence};

verus! {

/// A role mutation to request for one member. Both are idempotent on the
/// remote side: adding a role already held, or removing one already absent,
/// changes nothing.
#[derive(Clone, Copy, Debug, PartialEq, Eq, Structural)]
pub enum RoleAction {
    Add(u64),
    Remove(u64),
}

/// What the member listing yielded at one position: a member, or a failure
/// to load one.
#[derive(Clone, Copy, Debug, PartialEq, Eq, Structural)]
pub enum ListedMember {
    Loaded(u64),
    Failed,
}

/// The mutation that carries out `decision` on `member`.
pub open spec fn action_of(member: u64, decision: Decision) -> RoleAction {
    match decision {
        Decision::Hold => RoleAction::Add(member),
        Decision::Release => RoleAction::Remove(member),
    }
}

/// Turns a decision into the mutation that carries it out.
pub fn action_for(member: u64, decision: Decision) -> (r: RoleAction)
    ensures
        r == action_of(member, decision),
{
    match decision {
        Decision::Hold => RoleAction::Add(member),
        Decision::Release => RoleAction::Remove(member),
    }
}

/// The last known presence of `member` in a snapshot, if it has one.
pub open spec fn known_presence(snapshot: Map<u64, Presence>, member: u64) -> Option<
    Seq<Seq<char>>,
> {
    if snapshot.contains_key(member) {
        Some(snapshot[member]@)
    } else {
        None
    }
}

/// What the bulk pass does with one listed item: nothing for a failed
/// load, else the mutation that the member's known presence calls for.
pub open spec fn bulk_action(
    pat: Seq<char>,
    snapshot: Map<u64, Presence>,
    item: ListedMember,
) -> Option<RoleAction> {
    match item {
        ListedMember::Loaded(m) => Some(action_of(m, decision_of(pat, known_presence(snapshot, m)))),
        ListedMember::Failed => None,
    }
}

/// Role holdings, by member, after a mutation succeeds.
pub open spec fn apply_action(roles: Map<u64, bool>, action: RoleAction) -> Map<u64, bool> {
    match action {
        RoleAction::Add(m) => roles.insert(m, true),
        RoleAction::Remove(m) => roles.insert(m, false),
    }
}

/// Role holdings after a whole bulk pass over `items` in which every
/// requested mutation succeeds.
pub open spec fn bulk_pass(
    pat: Seq<char>,
    snapshot: Map<u64, Presence>,
    roles: Map<u64, bool>,
    items: Seq<ListedMember>,
) -> Map<u64, bool>
    decreases items.len(),
{
    if items.len() == 0 {
        roles
    } else {
        let before = bulk_pass(pat, snapshot, roles, items.drop_last());
        match bulk_action(pat, snapshot, items.last()) {
            Some(a) => apply_action(before, a),
            None => before,
        }
    }
}

/// Whether `member` holds the role once its known presence is acted on.
pub open spec fn holds_after(pat: Seq<char>, snapshot: Map<u64, Presence>, member: u64) -> bool {
    decision_of(pat, known_presence(snapshot, member)) == Decision::Hold
}

/// After a pass, a listed member holds the role exactly when its known
/// presence says so, and every other member is as before.
pub proof fn lemma_bulk_pass_result(
    pat: Seq<char>,
    snapshot: Map<u64, Presence>,
    roles: Map<u64, bool>,
    items: Seq<ListedMember>,
    m: u64,
)
    ensures
        items.contains(ListedMember::Loaded(m)) ==> {
            &&& bulk_pass(pat, snapshot, roles, items).contains_key(m)
            &&& bulk_pass(pat, snapshot, roles, items)[m] == holds_after(pat, snapshot, m)
        },
        !items.contains(ListedMember::Loaded(m)) ==> {
            &&& bulk_pass(pat, snapshot, roles, items).contains_key(m) == roles.contains_key(m)
            &&& bulk_pass(pat, snapshot, roles, items)[m] == roles[m]
        },
    decreases items.len(),
{
    if items.len() > 0 {
        let init = items.drop_last();
        lemma_bulk_pass_result(pat, snapshot, roles, init, m);
        assert(items == init.push(items.last()));
        if items.last() == ListedMember::Loaded(m) {
            assert(items.contains(ListedMember::Loaded(m)));
        } else if items.contains(ListedMember::Loaded(m)) {
            let k = choose|k: int| 0 <= k < items.len() && items[k] == ListedMember::Loaded(m);
            assert(init[k] == ListedMember::Loaded(m));
        } else {
            assert forall|k: int| 0 <= k < init.len() implies init[k] != ListedMember::Loaded(m) by {
                assert(init[k] == items[k]);
            }
        }
    }
}

/// Running the bulk pass a second time over the same listing and the same
/// presence snapshot leaves every role as the first pass left it.
pub proof fn lemma_bulk_pass_idempotent(
    pat: Seq<char>,
    snapshot: Map<u64, Presence>,
    roles: Map<u64, bool>,
    items: Seq<ListedMember>,
)
    ensures
        bulk_pass(pat, snapshot, bulk_pass(pat, snapshot, roles, items), items) == bulk_pass(
            pat,
            snapshot,
            roles,
            items,
        ),
{
    let once = bulk_pass(pat, snapshot, roles, items);
    let twice = bulk_pass(pat, snapshot, once, items);
    assert forall|m: u64| #[trigger] twice.contains_key(m) == once.contains_key(m) by {
        lemma_bulk_pass_result(pat, snapshot, roles, items, m);
        lemma_bulk_pass_result(pat, snapshot, once, items, m);
    }
    assert forall|m: u64| #[trigger] twice.contains_key(m) implies twice[m] == once[m] by {
        lemma_bulk_pass_result(pat, snapshot, roles, items, m);
        lemma_bulk_pass_result(pat, snapshot, once, items, m);
    }
    assert(twice =~= once);
}

/// One more, stopping at the largest count that fits.
pub open spec fn bumped(n: u64) -> u64 {
    if n < u64::MAX {
        (n + 1) as u64
    } else {
        n
    }
}

fn bump(n: u64) -> (r: u64)
    ensures
        r == bumped(n),
{
    if n < u64::MAX {
        n + 1
    } else {
        n
    }
}

/// Counts kept while the bulk pass runs.
#[derive(Clone, Copy, Debug, PartialEq, Eq, Structural)]
pub struct BulkStats {
    /// Members loaded from the listing.
    pub members_seen: u64,
    /// Positions of the listing that failed to load and were skipped.
    pub enumeration_errors: u64,
    /// Role additions that succeeded.
    pub roles_added: u64,
    /// Role removals that succeeded.
    pub roles_removed: u64,
    /// Role mutations that failed; the pass went on past each of them.
    pub mutation_failures: u64,
}

/// How a bulk pass ended: every mutation succeeded, or some failed.
#[derive(Clone, Copy, Debug, PartialEq, Eq, Structural)]
pub enum BulkOutcome {
    Complete(BulkStats),
    PartialFailure(BulkStats),
}

impl BulkStats {
    /// All counts at zero.
    pub fn new() -> (r: BulkStats)
        ensures
            r == (BulkStats {
                members_seen: 0,
                enumeration_errors: 0,
                roles_added: 0,
                roles_removed: 0,
                mutation_failures: 0,
            }),
    {
        BulkStats {
            members_seen: 0,
            enumeration_errors: 0,
            roles_added: 0,
            roles_removed: 0,
            mutation_failures: 0,
        }
    }

    /// Handles one item of the member listing: a failed load is counted and
    /// skipped; a loaded member gets the mutation that its last known
    /// presence in `snapshot` calls for.
    pub fn bulk_step(
        &mut self,
        item: ListedMember,
        snapshot: &HashMap<u64, Presence>,
        pattern: &Pattern,
    ) -> (r: Option<RoleAction>)
        ensures
            r == bulk_action(pattern@, snapshot@, item),
            item is Failed ==> *final(self) == (BulkStats {
                enumeration_errors: bumped(old(self).enumeration_errors),
                ..*old(self)
            }),
            item is Loaded ==> *final(self) == (BulkStats {
                members_seen: bumped(old(self).members_seen),
                ..*old(self)
            }),
    {
        match item {
            ListedMember::Failed => {
                self.enumeration_errors = bump(self.enumeration_errors);
                None
            },
            ListedMember::Loaded(m) => {
                self.members_seen = bump(self.members_seen);
                let decision = evaluate(snapshot.get(&m), pattern);
                Some(action_for(m, decision))
            },
        }
    }

    /// Records how a requested mutation went. A failure is counted and the
    /// pass goes on with the next member.
    pub fn record_mutation(&mut self, action: RoleAction, succeeded: bool)
        ensures
            !succeeded ==> *final(self) == (BulkStats {
                mutation_failures: bumped(old(self).mutation_failures),
                ..*old(self)
            }),
            succeeded && action is Add ==> *final(self) == (BulkStats {
                roles_added: bumped(old(self).roles_added),
                ..*old(self)
            }),
            succeeded && action is Remove ==> *final(self) == (BulkStats {
                roles_removed: bumped(old(self).roles_removed),
                ..*old(self)
            }),
    {
        if !succeeded {
            self.mutation_failures = bump(self.mutation_failures);
        } else {
            match action {
                RoleAction::Add(_) => {
                    self.roles_added = bump(self.roles_added);
                },
                RoleAction::Remove(_) => {
                    self.roles_removed = bump(self.roles_removed);
                },
            }
        }
    }

    /// The end of the pass: complete when no mutation failed.
    pub fn finish(self) -> (r: BulkOutcome)
        ensures
            self.mutation_failures == 0 ==> r == BulkOutcome::Complete(self),
            self.mutation_failures > 0 ==> r == BulkOutcome::PartialFailure(self),
    {
        if self.mutation_failures == 0 {
            BulkOutcome::Complete(self)
        } else {
            BulkOutcome::PartialFailure(self)
        }
    }
}

} // verus!
