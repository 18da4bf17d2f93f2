use vstd::prelude::*;
use std::str::FromStr;
use serenity::model::id::RoleId;
use crate::pattern::{regex_compiles, Pattern};
use crate::text::normalized;

verus! {

/// A configuration value that is present but cannot be used. Either one
/// stops the process before any event is handled.
#[derive(Clone, Copy, Debug, PartialEq, Eq, Structural)]
pub enum ConfigError {
    /// The activity pattern is not a valid regular expression.
    InvalidPattern,
    /// The role identifier is neither a number nor a role mention.
    InvalidRole,
}

pub open spec fn is_digit(c: char) -> bool {
    '0' <= c && c <= '9'
}

/// The number written by the decimal digits `s`.
pub open spec fn digits_value(s: Seq<char>) -> nat
    decreases s.len(),
{
    if s.len() == 0 {
        0
    } else {
        digits_value(s.drop_last()) * 10 + ((s.last() as nat) - ('0' as nat)) as nat
    }
}

/// What `u64::from_str` accepts: an optional `+`, then one or more decimal
/// digits whose value fits in 64 bits.
pub open spec fn u64_of(s: Seq<char>) -> Option<u64> {
    let d = if s.len() > 0 && s[0] == '+' {
        s.drop_first()
    } else {
        s
    };
    if d.len() > 0 && (forall|i: int| 0 <= i < d.len() ==> is_digit(#[trigger] d[i]))
        && digits_value(d) <= u64::MAX {
        Some(digits_value(d) as u64)
    } else {
        None
    }
}

/// A role given as a mention: `<@&`, the identifier, `>`.
pub open spec fn is_role_mention(s: Seq<char>) -> bool {
    s.len() >= 4 && s[0] == '<' && s[1] == '@' && s[2] == '&' && s.last() == '>'
}

/// The role identifier that `s` names: the number inside a role mention,
/// else the whole text read as a number.
pub open spec fn role_id_value(s: Seq<char>) -> Option<u64> {
    if is_role_mention(s) {
        match u64_of(s.subrange(3, s.len() - 1)) {
            Some(v) => Some(v),
            None => u64_of(s),
        }
    } else {
        u64_of(s)
    }
}

/// Relies on `RoleId::from_str` of serenity: it reads a role mention through
/// `utils::parse_role`, and otherwise parses the text as a `u64`.
#[verifier::external_body]
fn role_id_from_str(s: &str) -> (r: Option<u64>)
    ensures
        r == role_id_value(s@),
{
    RoleId::from_str(s).ok().map(|id| id.0)
}

/// Reads the configured role identifier.
pub fn parse_role_id(raw: &str) -> (r: Result<u64, ConfigError>)
    ensures
        r == match role_id_value(raw@) {
            Some(v) => Ok::<u64, ConfigError>(v),
            None => Err(ConfigError::InvalidRole),
        },
{
    match role_id_from_str(raw) {
        Some(v) => Ok(v),
        None => Err(ConfigError::InvalidRole),
    }
}

/// What the process works with once it has started: the compiled pattern
/// and the one role that it assigns.
pub struct Settings {
    pub pattern: Pattern,
    pub role: u64,
}

/// A pattern is given and does not compile.
pub open spec fn pattern_invalid(raw_pattern: Option<Seq<char>>) -> bool {
    raw_pattern is Some && !regex_compiles(normalized(raw_pattern->0))
}

/// A role is given and names no role.
pub open spec fn role_invalid(raw_role: Option<Seq<char>>) -> bool {
    raw_role is Some && role_id_value(raw_role->0) is None
}

pub open spec fn text_view(raw: Option<&str>) -> Option<Seq<char>> {
    match raw {
        Some(s) => Some(s@),
        None => None,
    }
}

/// Builds the settings from the raw configuration values. An invalid value
/// is an error (the pattern is looked at first). A missing value, with no
/// invalid one, gives `None`: all role handling is then skipped.
pub fn load_settings(raw_pattern: Option<&str>, raw_role: Option<&str>) -> (r: Result<
    Option<Settings>,
    ConfigError,
>)
    ensures
        pattern_invalid(text_view(raw_pattern)) ==> r == Err::<Option<Settings>, ConfigError>(
            ConfigError::InvalidPattern,
        ),
        !pattern_invalid(text_view(raw_pattern)) && role_invalid(text_view(raw_role)) ==> r == Err::<
            Option<Settings>,
            ConfigError,
        >(ConfigError::InvalidRole),
        !pattern_invalid(text_view(raw_pattern)) && !role_invalid(text_view(raw_role)) && (
        raw_pattern is None || raw_role is None) ==> r == Ok::<Option<Settings>, ConfigError>(
            None,
        ),
        raw_pattern is Some && raw_role is Some && !pattern_invalid(text_view(raw_pattern))
            && !role_invalid(text_view(raw_role)) ==> {
            &&& r is Ok
            &&& r->Ok_0 is Some
            &&& r->Ok_0->0.pattern@ == normalized(raw_pattern->0@)
            &&& Some(r->Ok_0->0.role) == role_id_value(raw_role->0@)
        },
{
    let pattern = match raw_pattern {
        Some(raw) => match Pattern::compile(raw) {
            Ok(p) => Some(p),
            Err(e) => {
                return Err(e);
            },
        },
        None => None,
    };
    let role = match raw_role {
        Some(raw) => match parse_role_id(raw) {
            Ok(v) => Some(v),
            Err(e) => {
                return Err(e);
            },
        },
        None => None,
    };
    match (pattern, role) {
        (Some(pattern), Some(role)) => Ok(Some(Settings { pattern, role })),
        _ => Ok(None),
    }
}

} // verus!
