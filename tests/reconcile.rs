use std::collections::HashMap;

use activity_role::{
    action_for, evaluate, evaluate_activities, first_match, load_settings, normalize,
    parse_role_id, plan_update, Activity, BulkOutcome, BulkStats, ConfigError, Decision,
    ListedMember, Pattern, Presence, PresenceUpdate, RoleAction, UpdatePlan,
};

fn pattern(raw: &str) -> Pattern {
    match Pattern::compile(raw) {
        Ok(p) => p,
        Err(e) => panic!("pattern {raw:?} did not compile: {e:?}"),
    }
}

fn acts(names: &[&str]) -> Vec<Activity> {
    names.iter().map(|n| Activity { name: n.to_string() }).collect()
}

fn presence(names: &[&str]) -> Presence {
    Presence { activities: acts(names) }
}

fn update(member_id: u64, is_bot: bool, names: &[&str]) -> PresenceUpdate {
    PresenceUpdate { member_id, community_id: Some(900), is_bot, activities: acts(names) }
}

/// Runs a whole bulk pass against a simulated roster in which every
/// mutation succeeds.
fn run_pass(
    roles: &mut HashMap<u64, bool>,
    items: &[ListedMember],
    snapshot: &HashMap<u64, Presence>,
    p: &Pattern,
) -> BulkStats {
    let mut stats = BulkStats::new();
    for item in items {
        if let Some(action) = stats.bulk_step(*item, snapshot, p) {
            match action {
                RoleAction::Add(m) => roles.insert(m, true),
                RoleAction::Remove(m) => roles.insert(m, false),
            };
            stats.record_mutation(action, true);
        }
    }
    stats
}

#[test]
fn chess_scenario() {
    let p = pattern("chess");
    let a = presence(&["Spotify", "Chess.com"]);
    let b = presence(&[]);
    assert_eq!(evaluate(Some(&a), &p), Decision::Hold);
    assert_eq!(evaluate(Some(&b), &p), Decision::Release);
    assert_eq!(evaluate(None, &p), Decision::Release);

    let mut snapshot = HashMap::new();
    snapshot.insert(1u64, a);
    snapshot.insert(2u64, b);
    let mut stats = BulkStats::new();
    assert_eq!(stats.bulk_step(ListedMember::Loaded(1), &snapshot, &p), Some(RoleAction::Add(1)));
    assert_eq!(stats.bulk_step(ListedMember::Loaded(2), &snapshot, &p), Some(RoleAction::Remove(2)));
    assert_eq!(stats.bulk_step(ListedMember::Loaded(3), &snapshot, &p), Some(RoleAction::Remove(3)));
    assert_eq!(stats.members_seen, 3);

    let later = update(1, false, &["Spotify"]);
    assert_eq!(
        plan_update(&later, Some(&p)),
        UpdatePlan::Reconcile { community_id: 900, member_id: 1, decision: Decision::Release }
    );
}

#[test]
fn case_and_white_space_are_ignored() {
    let p = pattern("minecraft");
    for name in ["Minecraft", " minecraft ", "MINECRAFT"] {
        assert_eq!(evaluate(Some(&presence(&[name])), &p), Decision::Hold, "{name:?}");
    }
    assert!(p.matches("\t MineCraft\n"));
    let padded = pattern("  MineCraft ");
    assert_eq!(evaluate(Some(&presence(&["minecraft"])), &padded), Decision::Hold);
}

#[test]
fn normalize_trims_and_lowercases() {
    assert_eq!(normalize("  HeLLo World \n"), "hello world");
    assert_eq!(normalize("   "), "");
    assert_eq!(normalize("ÀB"), "àb");
}

#[test]
fn no_activity_releases_for_any_pattern() {
    for raw in ["chess", "", ".*", "^$", "a|b"] {
        let p = pattern(raw);
        assert_eq!(evaluate(None, &p), Decision::Release, "{raw:?}");
        assert_eq!(evaluate(Some(&presence(&[])), &p), Decision::Release, "{raw:?}");
        assert_eq!(evaluate_activities(&Vec::new(), &p), Decision::Release, "{raw:?}");
    }
}

#[test]
fn a_match_anywhere_holds() {
    let p = pattern("chess");
    assert_eq!(evaluate(Some(&presence(&["Chess"])), &p), Decision::Hold);
    assert_eq!(evaluate(Some(&presence(&["Chess", "Spotify", "Code"])), &p), Decision::Hold);
    assert_eq!(evaluate(Some(&presence(&["Spotify", "chess", "Code"])), &p), Decision::Hold);
    assert_eq!(evaluate(Some(&presence(&["Spotify", "Code", "CHESS"])), &p), Decision::Hold);
    assert_eq!(evaluate(Some(&presence(&["Spotify", "Code"])), &p), Decision::Release);
}

#[test]
fn first_match_finds_the_earliest() {
    let p = pattern("^(chess|go)");
    assert_eq!(first_match(&acts(&["Spotify", "Go", "Chess"]), &p), Some(1));
    assert_eq!(first_match(&acts(&["chess", "go"]), &p), Some(0));
    assert_eq!(first_match(&acts(&["Spotify", "Lichess"]), &p), None);
    assert_eq!(first_match(&acts(&[]), &p), None);
}

#[test]
fn empty_names_match_only_what_matches_empty() {
    assert!(pattern("^$").matches("   "));
    assert!(pattern("").matches(""));
    assert!(!pattern("a").matches("  \t "));
    assert_eq!(evaluate(Some(&presence(&["", "  "])), &pattern("x")), Decision::Release);
}

#[test]
fn bulk_pass_twice_is_bulk_pass_once() {
    let p = pattern("chess");
    let mut snapshot = HashMap::new();
    snapshot.insert(1u64, presence(&["Chess.com"]));
    snapshot.insert(2u64, presence(&["Spotify"]));
    snapshot.insert(4u64, presence(&[]));
    let items = [
        ListedMember::Loaded(1),
        ListedMember::Failed,
        ListedMember::Loaded(2),
        ListedMember::Loaded(3),
        ListedMember::Loaded(4),
        ListedMember::Loaded(1),
    ];
    let mut roles: HashMap<u64, bool> = HashMap::new();
    roles.insert(2, true);
    roles.insert(3, true);
    roles.insert(7, true);
    let stats = run_pass(&mut roles, &items, &snapshot, &p);
    let once = roles.clone();
    run_pass(&mut roles, &items, &snapshot, &p);
    assert_eq!(roles, once);
    assert_eq!(once.get(&1), Some(&true));
    assert_eq!(once.get(&2), Some(&false));
    assert_eq!(once.get(&3), Some(&false));
    assert_eq!(once.get(&4), Some(&false));
    assert_eq!(once.get(&7), Some(&true));
    assert_eq!(
        stats,
        BulkStats {
            members_seen: 5,
            enumeration_errors: 1,
            roles_added: 2,
            roles_removed: 3,
            mutation_failures: 0,
        }
    );
    assert_eq!(stats.finish(), BulkOutcome::Complete(stats));
}

#[test]
fn failed_mutations_are_counted_and_the_pass_goes_on() {
    let mut stats = BulkStats::new();
    stats.record_mutation(RoleAction::Add(1), false);
    stats.record_mutation(RoleAction::Remove(2), true);
    stats.record_mutation(RoleAction::Add(3), true);
    assert_eq!(stats.mutation_failures, 1);
    assert_eq!(stats.roles_removed, 1);
    assert_eq!(stats.roles_added, 1);
    assert_eq!(stats.finish(), BulkOutcome::PartialFailure(stats));
}

#[test]
fn counts_stop_at_the_largest_value() {
    let mut stats = BulkStats::new();
    stats.enumeration_errors = u64::MAX;
    let p = pattern("x");
    let snapshot = HashMap::new();
    assert_eq!(stats.bulk_step(ListedMember::Failed, &snapshot, &p), None);
    assert_eq!(stats.enumeration_errors, u64::MAX);
    assert_eq!(stats.members_seen, 0);
}

#[test]
fn bots_are_ignored() {
    let p = pattern("chess");
    assert_eq!(plan_update(&update(5, true, &["Chess"]), Some(&p)), UpdatePlan::Ignore);
    assert_eq!(plan_update(&update(5, true, &[]), Some(&p)), UpdatePlan::Ignore);
}

#[test]
fn updates_without_pattern_or_community_are_ignored() {
    let p = pattern("chess");
    assert_eq!(plan_update(&update(5, false, &["Chess"]), None), UpdatePlan::Ignore);
    let mut outside = update(5, false, &["Chess"]);
    outside.community_id = None;
    assert_eq!(plan_update(&outside, Some(&p)), UpdatePlan::Ignore);
    assert_eq!(
        plan_update(&update(5, false, &[]), Some(&p)),
        UpdatePlan::Reconcile { community_id: 900, member_id: 5, decision: Decision::Release }
    );
    assert_eq!(
        plan_update(&update(5, false, &["Spotify", "CHESS"]), Some(&p)),
        UpdatePlan::Reconcile { community_id: 900, member_id: 5, decision: Decision::Hold }
    );
}

#[test]
fn actions_follow_decisions() {
    assert_eq!(action_for(8, Decision::Hold), RoleAction::Add(8));
    assert_eq!(action_for(8, Decision::Release), RoleAction::Remove(8));
}

#[test]
fn invalid_pattern_is_rejected() {
    assert!(matches!(Pattern::compile("(chess"), Err(ConfigError::InvalidPattern)));
    assert!(matches!(Pattern::compile("[z-a]"), Err(ConfigError::InvalidPattern)));
}

#[test]
fn role_ids_are_numbers_or_mentions() {
    assert_eq!(parse_role_id("123456789012345678"), Ok(123456789012345678));
    assert_eq!(parse_role_id("<@&42>"), Ok(42));
    assert_eq!(parse_role_id("+7"), Ok(7));
    assert_eq!(parse_role_id("18446744073709551615"), Ok(u64::MAX));
    assert_eq!(parse_role_id("18446744073709551616"), Err(ConfigError::InvalidRole));
    assert_eq!(parse_role_id(""), Err(ConfigError::InvalidRole));
    assert_eq!(parse_role_id("abc"), Err(ConfigError::InvalidRole));
    assert_eq!(parse_role_id(" 12"), Err(ConfigError::InvalidRole));
    assert_eq!(parse_role_id("<@&>"), Err(ConfigError::InvalidRole));
    assert_eq!(parse_role_id("<@12>"), Err(ConfigError::InvalidRole));
}

#[test]
fn settings_from_raw_values() {
    match load_settings(Some(" Chess "), Some("<@&77>")) {
        Ok(Some(s)) => {
            assert_eq!(s.role, 77);
            assert!(s.pattern.matches("CHESS.COM"));
        }
        _ => panic!("expected settings"),
    }
    assert!(matches!(load_settings(None, Some("77")), Ok(None)));
    assert!(matches!(load_settings(Some("chess"), None), Ok(None)));
    assert!(matches!(load_settings(None, None), Ok(None)));
    assert!(matches!(load_settings(Some("("), Some("x")), Err(ConfigError::InvalidPattern)));
    assert!(matches!(load_settings(Some("("), None), Err(ConfigError::InvalidPattern)));
    assert!(matches!(load_settings(Some("chess"), Some("x")), Err(ConfigError::InvalidRole)));
    assert!(matches!(load_settings(None, Some("x")), Err(ConfigError::InvalidRole)));
}
