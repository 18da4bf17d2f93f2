//! Keeps one role on the members of a community in step with whether each
//! member is currently seen running a matching activity.
//!
//! The decision rule lives in `presence`; `bulk` applies it to every member
//! once at startup, `incremental` to each presence update afterwards.
mod bulk;
mod config;
mod incremental;
mod pattern;
mod presence;
mod text;

pub use bulk::{
    action_for, action_of, apply_action, bulk_action, bulk_pass, bumped, holds_after,
    known_presence, lemma_bulk_pass_idempotent, lemma_bulk_pass_result, BulkOutcome, BulkStats,
    ListedMember, RoleAction,
};
pub use config::{
    digits_value, is_digit, is_role_mention, load_settings, parse_role_id, pattern_invalid,
    role_id_value, role_invalid, text_view, u64_of, ConfigError, Settings,
};
pub use incremental::{plan_update, update_plan, PresenceUpdate, UpdatePlan};
pub use pattern::{lemma_padding_keeps_match, name_matches, regex_compiles, regex_finds, Pattern};
pub use presence::{
    activity_names, any_matches, decision_for_names, decision_of, evaluate, evaluate_activities,
    first_match, lemma_any_match_holds, lemma_no_activity_releases, Activity, Decision, Presence,
};
pub use text::{
    all_white_space, is_white_space, lemma_padding_ignored, lower_of, normalize, normalized,
    trim_end_ws, trim_start_ws, trim_ws,
};
