//! Text assembly: interpolation of a variant's payload into its message
//! template, and the two presentation formats' common `"[{code}] {message}"`
//! shape.

use vstd::prelude::*;

verus! {

/// The first position at or after `i` where `t` holds the placeholder `{}`,
/// if any.
pub open spec fn find_placeholder(t: Seq<char>, i: int) -> Option<int>
    decreases t.len() - i,
{
    if i < 0 || i + 1 >= t.len() {
        None
    } else if t[i] == '{' && t[i + 1] == '}' {
        Some(i)
    } else {
        find_placeholder(t, i + 1)
    }
}

/// The template with its payload interpolated: the first `{}` placeholder is
/// replaced by the payload; a template without a placeholder stands as it is.
pub open spec fn rendered(t: Seq<char>, p: Seq<char>) -> Seq<char> {
    match find_placeholder(t, 0) {
        Some(i) => t.take(i) + p + t.skip(i + 2),
        None => t,
    }
}

/// The shape shared by the client-facing and server-facing formats:
/// exactly `"[{code}] {message}"`.
pub open spec fn bracket_format(code: Seq<char>, msg: Seq<char>) -> Seq<char> {
    seq!['['] + code + seq![']', ' '] + msg
}

proof fn lemma_find_placeholder_bounds(t: Seq<char>, i: int)
    requires
        find_placeholder(t, i) is Some,
    ensures
        ({
            let j = find_placeholder(t, i)->0;
            &&& i <= j
            &&& j + 1 < t.len()
            &&& t[j] == '{'
            &&& t[j + 1] == '}'
        }),
    decreases t.len() - i,
{
    if !(i < 0 || i + 1 >= t.len()) && !(t[i] == '{' && t[i + 1] == '}') {
        lemma_find_placeholder_bounds(t, i + 1);
    }
}

/// A placeholder with no earlier placeholder before it is the one the search
/// finds.
pub proof fn lemma_find_placeholder_at(t: Seq<char>, k: int)
    requires
        0 <= k,
        k + 1 < t.len(),
        t[k] == '{',
        t[k + 1] == '}',
        forall|j: int| 0 <= j < k ==> !(t[j] == '{' && #[trigger] t[j + 1] == '}'),
    ensures
        find_placeholder(t, 0) == Some(k),
{
    lemma_find_placeholder_from(t, 0, k);
}

proof fn lemma_find_placeholder_from(t: Seq<char>, i: int, k: int)
    requires
        0 <= i <= k,
        k + 1 < t.len(),
        t[k] == '{',
        t[k + 1] == '}',
        forall|j: int| i <= j < k ==> !(t[j] == '{' && #[trigger] t[j + 1] == '}'),
    ensures
        find_placeholder(t, i) == Some(k),
    decreases k - i,
{
    if i < k {
        lemma_find_placeholder_from(t, i + 1, k);
    }
}

/// A rendered template carries the payload verbatim: it stands at the
/// placeholder's position.
pub proof fn lemma_rendered_contains_payload(t: Seq<char>, p: Seq<char>)
    requires
        find_placeholder(t, 0) is Some,
    ensures
        ({
            let i = find_placeholder(t, 0)->0;
            &&& 0 <= i <= rendered(t, p).len() - p.len()
            &&& rendered(t, p).subrange(i, i + p.len()) == p
        }),
{
    let i = find_placeholder(t, 0)->0;
    lemma_find_placeholder_bounds(t, 0);
    assert(rendered(t, p).subrange(i, i + p.len()) =~= p);
}

/// Interpolate `payload` into `template`: the first `{}` placeholder is
/// replaced; a template without one is returned unchanged.
pub fn render(template: &str, payload: &str) -> (r: String)
    ensures
        r@ == rendered(template@, payload@),
{
    let n = template.unicode_len();
    let mut i: usize = 0;
    while n >= 1 && i < n - 1
        invariant
            0 <= i <= n,
            n == template@.len(),
            find_placeholder(template@, 0) == find_placeholder(template@, i as int),
        decreases n - i,
    {
        let c0 = template.get_char(i);
        if c0 == '{' {
            let c1 = template.get_char(i + 1);
            if c1 == '}' {
                assert(find_placeholder(template@, i as int) == Some(i as int));
                let prefix = template.substring_char(0, i);
                let suffix = template.substring_char(i + 2, n);
                let r = String::from_str(prefix).concat(payload).concat(suffix);
                proof {
                    assert(prefix@ =~= template@.take(i as int));
                    assert(suffix@ =~= template@.skip(i + 2));
                }
                return r;
            }
        }
        i = i + 1;
    }
    assert(find_placeholder(template@, i as int) is None);
    String::from_str(template)
}

/// Render `"[{code}] {msg}"`, the exact shape of both presentation formats.
pub fn format_in_brackets(code: &str, msg: &str) -> (r: String)
    ensures
        r@ == bracket_format(code@, msg@),
{
    let r = String::from_str("[").concat(code).concat("] ").concat(msg);
    proof {
        reveal_strlit("[");
        reveal_strlit("] ");
        assert("["@ =~= seq!['[']);
        assert("] "@ =~= seq![']', ' ']);
    }
    r
}

} // verus!
