use vstd::prelude::*;

verus! {

/// The characters that carry Unicode's `White_Space` property, which is what
/// `char::is_whitespace` tests.
pub open spec fn is_white_space(c: char) -> bool {
    ('\u{9}' <= c && c <= '\u{d}') || c == ' ' || c == '\u{85}' || c == '\u{a0}'
        || c == '\u{1680}' || ('\u{2000}' <= c && c <= '\u{200a}') || c == '\u{2028}'
        || c == '\u{2029}' || c == '\u{202f}' || c == '\u{205f}' || c == '\u{3000}'
}

/// `s` without its leading white space.
pub open spec fn trim_start_ws(s: Seq<char>) -> Seq<char>
    decreases s.len(),
{
    if s.len() > 0 && is_white_space(s[0]) {
        trim_start_ws(s.drop_first())
    } else {
        s
    }
}

/// `s` without its trailing white space.
pub open spec fn trim_end_ws(s: Seq<char>) -> Seq<char>
    decreases s.len(),
{
    if s.len() > 0 && is_white_space(s.last()) {
        trim_end_ws(s.drop_last())
    } else {
        s
    }
}

/// `s` without white space at either end.
pub open spec fn trim_ws(s: Seq<char>) -> Seq<char> {
    trim_end_ws(trim_start_ws(s))
}

/// What `str::to_lowercase` makes of a string: Unicode's lowercase mapping,
/// character by character.
pub uninterp spec fn lower_of(s: Seq<char>) -> Seq<char>;

/// The form in which names are compared: trimmed, then lowercased.
pub open spec fn normalized(s: Seq<char>) -> Seq<char> {
    lower_of(trim_ws(s))
}

/// Relies on `str::trim`: it removes the leading and trailing characters for
/// which `char::is_whitespace` holds.
#[verifier::external_body]
fn trim(s: &str) -> (r: &str)
    ensures
        r@ == trim_ws(s@),
{
    s.trim()
}

/// Relies on `str::to_lowercase`: the result depends on the characters alone.
#[verifier::external_body]
fn lowercase(s: &str) -> (r: String)
    ensures
        r@ == lower_of(s@),
{
    s.to_lowercase()
}

/// Trims and lowercases a name or a pattern.
pub fn normalize(s: &str) -> (r: String)
    ensures
        r@ == normalized(s@),
{
    let t = trim(s);
    lowercase(t)
}

/// Every character of `s` is white space.
pub open spec fn all_white_space(s: Seq<char>) -> bool {
    forall|i: int| 0 <= i < s.len() ==> is_white_space(#[trigger] s[i])
}

proof fn lemma_trim_start_concat(a: Seq<char>, b: Seq<char>)
    ensures
        trim_start_ws(a + b) == if trim_start_ws(a).len() > 0 {
            trim_start_ws(a) + b
        } else {
            trim_start_ws(b)
        },
    decreases a.len(),
{
    if a.len() == 0 {
        assert(a + b =~= b);
    } else {
        assert((a + b)[0] == a[0]);
        if is_white_space(a[0]) {
            assert((a + b).drop_first() =~= a.drop_first() + b);
            lemma_trim_start_concat(a.drop_first(), b);
        }
    }
}

proof fn lemma_trim_start_all_white_space(s: Seq<char>)
    requires
        all_white_space(s),
    ensures
        trim_start_ws(s).len() == 0,
    decreases s.len(),
{
    if s.len() > 0 {
        assert(all_white_space(s.drop_first())) by {
            assert forall|i: int| 0 <= i < s.drop_first().len() implies is_white_space(
                #[trigger] s.drop_first()[i],
            ) by {
                assert(s.drop_first()[i] == s[i + 1]);
            }
        }
        lemma_trim_start_all_white_space(s.drop_first());
    }
}

proof fn lemma_trim_end_padded(a: Seq<char>, post: Seq<char>)
    requires
        all_white_space(post),
    ensures
        trim_end_ws(a + post) == trim_end_ws(a),
    decreases post.len(),
{
    if post.len() == 0 {
        assert(a + post =~= a);
    } else {
        let shorter = post.drop_last();
        assert((a + post).last() == post.last());
        assert((a + post).drop_last() =~= a + shorter);
        assert(all_white_space(shorter)) by {
            assert forall|i: int| 0 <= i < shorter.len() implies is_white_space(
                #[trigger] shorter[i],
            ) by {
                assert(shorter[i] == post[i]);
            }
        }
        lemma_trim_end_padded(a, shorter);
    }
}

/// White space added before or after a name is trimmed away again: the
/// padded name normalizes to what the bare name does.
pub proof fn lemma_padding_ignored(name: Seq<char>, pre: Seq<char>, post: Seq<char>)
    requires
        all_white_space(pre),
        all_white_space(post),
    ensures
        normalized(pre + name + post) == normalized(name),
{
    lemma_trim_start_all_white_space(pre);
    lemma_trim_start_all_white_space(post);
    lemma_trim_start_concat(pre, name + post);
    assert(pre + name + post =~= pre + (name + post));
    lemma_trim_start_concat(name, post);
    if trim_start_ws(name).len() > 0 {
        lemma_trim_end_padded(trim_start_ws(name), post);
    } else {
        assert(trim_start_ws(name) =~= trim_start_ws(post));
    }
}

} // verus!
