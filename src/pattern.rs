use vstd::prelude::*;
use regex::Regex;
use crate::config::ConfigError;
use crate::text::{all_white_space, lemma_padding_ignored, normalize, normalized};

verus! {

#[verifier::external_type_specification]
#[verifier::external_body]
pub struct ExRegex(regex::Regex);

#[verifier::external_type_specification]
#[verifier::external_body]
pub struct ExRegexError(regex::Error);

/// Whether `Regex::new` accepts the expression `src`.
pub uninterp spec fn regex_compiles(src: Seq<char>) -> bool;

/// Whether the expression `src`, once compiled, finds a match anywhere in `text`.
pub uninterp spec fn regex_finds(src: Seq<char>, text: Seq<char>) -> bool;

/// A compiled activity pattern. Its view is the normalized expression that
/// was compiled; the compiled form is only ever built from that text.
pub struct Pattern {
    source: String,
    re: Regex,
}

impl View for Pattern {
    type V = Seq<char>;

    closed spec fn view(&self) -> Seq<char> {
        self.source@
    }
}

/// Whether an activity called `name` satisfies the pattern `pat`: the
/// expression finds a match in the normalized name.
pub open spec fn name_matches(pat: Seq<char>, name: Seq<char>) -> bool {
    regex_finds(pat, normalized(name))
}

/// Relies on `regex::Regex::new`: it compiles `src`, or fails, depending on
/// `src` alone. The compiled form is kept beside the text it came from.
#[verifier::external_body]
fn compile_source(src: String) -> (r: Result<Pattern, regex::Error>)
    ensures
        r is Ok <==> regex_compiles(src@),
        r is Ok ==> r->Ok_0@ == src@,
{
    match Regex::new(&src) {
        Ok(re) => Ok(Pattern { source: src, re }),
        Err(e) => Err(e),
    }
}

/// Relies on `regex::Regex::is_match`: whether the expression that the
/// pattern was compiled from matches somewhere in `text`.
#[verifier::external_body]
fn find_in(p: &Pattern, text: &str) -> (r: bool)
    ensures
        r == regex_finds(p@, text@),
{
    p.re.is_match(text)
}

impl Pattern {
    /// Normalizes `raw` (trimmed, lowercased) and compiles it.
    pub fn compile(raw: &str) -> (r: Result<Pattern, ConfigError>)
        ensures
            r is Ok <==> regex_compiles(normalized(raw@)),
            r is Ok ==> r->Ok_0@ == normalized(raw@),
            r is Err ==> r->Err_0 == ConfigError::InvalidPattern,
    {
        let src = normalize(raw);
        match compile_source(src) {
            Ok(p) => Ok(p),
            Err(_) => Err(ConfigError::InvalidPattern),
        }
    }

    /// Whether the activity name, once normalized, matches the pattern.
    pub fn matches(&self, activity_name: &str) -> (r: bool)
        ensures
            r == name_matches(self@, activity_name@),
    {
        let name = normalize(activity_name);
        find_in(self, name.as_str())
    }
}

/// Surrounding an activity name with white space never changes whether it
/// satisfies a pattern.
pub proof fn lemma_padding_keeps_match(
    pat: Seq<char>,
    name: Seq<char>,
    pre: Seq<char>,
    post: Seq<char>,
)
    requires
        all_white_space(pre),
        all_white_space(post),
    ensures
        name_matches(pat, pre + name + post) == name_matches(pat, name),
{
    lemma_padding_ignored(name, pre, post);
}

} // verus!
