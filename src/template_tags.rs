use vstd::prelude::*;
use vstd::string::*;

verus! {

/// A character that may stand between a tag's opening `{{` and the symbol
/// that says what kind of tag it is: whitespace, the whitespace-control `~`,
/// the block `#`, or a further `{`.
pub open spec fn tag_prefix_char(c: char) -> bool {
    c == ' ' || c == '\t' || c == '\n' || c == '\r' || c == '~' || c == '#' || c == '{'
}

/// Some `{{` before position `p` is followed, up to `p`, by tag-prefix
/// characters only.
pub open spec fn tag_opened_before(t: Seq<char>, p: int) -> bool {
    exists|i: int|
        0 <= i && i + 2 <= p && #[trigger] t[i] == '{' && t[i + 1] == '{' && forall|k: int|
            i + 2 <= k < p ==> tag_prefix_char(#[trigger] t[k])
}

/// The template holds a partial tag (`{{>`, `{{#>`) or a decorator tag
/// (`{{*`, `{{#*`), in any spacing and with or without `~`. Partials can
/// include themselves without bound, so such templates are not rendered.
pub open spec fn has_partial_or_decorator_tag(t: Seq<char>) -> bool {
    exists|j: int| 0 <= j < t.len() && (t[j] == '>' || t[j] == '*') && #[trigger] tag_opened_before(t, j)
}

/// How `tag_opened_before` moves on by one character.
proof fn lemma_tag_opened_step(t: Seq<char>, p: int)
    requires
        0 <= p < t.len(),
    ensures
        tag_opened_before(t, p + 1) <==> tag_prefix_char(t[p]) && (tag_opened_before(t, p) || (p
            >= 1 && t[p - 1] == '{' && t[p] == '{')),
{
    if tag_opened_before(t, p + 1) {
        let i = choose|i: int|
            0 <= i && i + 2 <= p + 1 && #[trigger] t[i] == '{' && t[i + 1] == '{' && forall|k: int|
                i + 2 <= k < p + 1 ==> tag_prefix_char(#[trigger] t[k]);
        if i + 2 <= p {
            assert(tag_prefix_char(t[p]));
            assert(forall|k: int| i + 2 <= k < p ==> tag_prefix_char(#[trigger] t[k]));
            assert(tag_opened_before(t, p));
        }
    }
    if tag_prefix_char(t[p]) {
        if tag_opened_before(t, p) {
            let i = choose|i: int|
                0 <= i && i + 2 <= p && #[trigger] t[i] == '{' && t[i + 1] == '{' && forall|k: int|
                    i + 2 <= k < p ==> tag_prefix_char(#[trigger] t[k]);
            assert(forall|k: int| i + 2 <= k < p + 1 ==> tag_prefix_char(#[trigger] t[k]));
            assert(tag_opened_before(t, p + 1));
        } else if p >= 1 && t[p - 1] == '{' && t[p] == '{' {
            let i = p - 1;
            assert(t[i] == '{' && t[i + 1] == '{');
            assert(tag_opened_before(t, p + 1));
        }
    }
}

/// Whether `template` holds a partial or a decorator tag.
pub fn holds_partial_or_decorator_tag(template: &str) -> (r: bool)
    ensures
        r == has_partial_or_decorator_tag(template@),
{
    let n = template.unicode_len();
    let mut opened = false;
    let mut last_brace = false;
    let mut p: usize = 0;
    while p < n
        invariant
            n == template@.len(),
            p <= n,
            opened == tag_opened_before(template@, p as int),
            last_brace == (p >= 1 && template@[p - 1] == '{'),
            forall|j: int|
                0 <= j < p ==> !((template@[j] == '>' || template@[j] == '*') && #[trigger] tag_opened_before(
                    template@,
                    j,
                )),
        decreases n - p,
    {
        let c = template.get_char(p);
        if opened && (c == '>' || c == '*') {
            return true;
        }
        proof {
            lemma_tag_opened_step(template@, p as int);
        }
        if c == ' ' || c == '\t' || c == '\n' || c == '\r' || c == '~' || c == '#' || c == '{' {
            opened = opened || (last_brace && c == '{');
        } else {
            opened = false;
        }
        last_brace = c == '{';
        p = p + 1;
    }
    false
}

} // verus!
