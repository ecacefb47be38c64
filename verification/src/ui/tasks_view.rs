//! Outcome of the task view, and what it accepts as task text.
use vstd::prelude::*;

verus! {

/// What the user did in the task view during one frame.
#[derive(Clone, Copy, Debug, PartialEq, Eq, Structural)]
pub struct TasksResponse {
    /// The checklist changed and should be saved.
    pub changed: bool,
}

/// Whether `c` has the Unicode `White_Space` property, which is what
/// `char::is_whitespace` tests: the controls from tab to carriage return,
/// the space, next line, no-break space, ogham space mark, the spaces from
/// en quad to hair space, the line and paragraph separators, the narrow
/// no-break space, the medium mathematical space and the ideographic space.
pub open spec fn white_space(c: char) -> bool {
    let u = c as u32;
    ||| 0x09 <= u <= 0x0D
    ||| u == 0x20 || u == 0x85 || u == 0xA0 || u == 0x1680
    ||| 0x2000 <= u <= 0x200A
    ||| u == 0x2028 || u == 0x2029 || u == 0x202F || u == 0x205F || u == 0x3000
}

/// `char::is_whitespace`, which std documents as the Unicode `White_Space`
/// property; the contract lists that property's code points.
#[verifier::external_body]
fn is_white_space(c: char) -> (r: bool)
    ensures
        r == white_space(c),
{
    c.is_whitespace()
}

/// `s` without its leading white space.
pub open spec fn trim_start(s: Seq<char>) -> Seq<char>
    decreases s.len(),
{
    if s.len() > 0 && white_space(s[0]) {
        trim_start(s.drop_first())
    } else {
        s
    }
}

/// `s` without its trailing white space.
pub open spec fn trim_end(s: Seq<char>) -> Seq<char>
    decreases s.len(),
{
    if s.len() > 0 && white_space(s.last()) {
        trim_end(s.drop_last())
    } else {
        s
    }
}

/// `s` without leading and trailing white space.
pub open spec fn trimmed(s: Seq<char>) -> Seq<char> {
    trim_end(trim_start(s))
}

proof fn lemma_trim_start_at(s: Seq<char>, i: int)
    requires
        0 <= i <= s.len(),
        forall|k: int| 0 <= k < i ==> white_space(#[trigger] s[k]),
        i == s.len() || !white_space(s[i]),
    ensures
        trim_start(s) == s.subrange(i, s.len() as int),
    decreases i,
{
    if i == 0 {
        assert(s.subrange(0, s.len() as int) =~= s);
    } else {
        let d = s.drop_first();
        assert forall|k: int| 0 <= k < i - 1 implies white_space(#[trigger] d[k]) by {
            assert(d[k] == s[k + 1]);
        }
        if i - 1 < d.len() {
            assert(d[i - 1] == s[i]);
        }
        lemma_trim_start_at(d, i - 1);
        assert(d.subrange(i - 1, d.len() as int) =~= s.subrange(i, s.len() as int));
    }
}

proof fn lemma_trim_end_at(t: Seq<char>, m: int)
    requires
        0 <= m <= t.len(),
        forall|k: int| m <= k < t.len() ==> white_space(#[trigger] t[k]),
        m == 0 || !white_space(t[m - 1]),
    ensures
        trim_end(t) == t.subrange(0, m),
    decreases t.len(),
{
    if m == t.len() {
        assert(t.subrange(0, m) =~= t);
    } else {
        let d = t.drop_last();
        assert(white_space(t[t.len() - 1]));
        assert forall|k: int| m <= k < d.len() implies white_space(#[trigger] d[k]) by {
            assert(d[k] == t[k]);
        }
        if m > 0 {
            assert(d[m - 1] == t[m - 1]);
        }
        lemma_trim_end_at(d, m);
        assert(d.subrange(0, m) =~= t.subrange(0, m));
    }
}

/// `text` without leading and trailing white space.
pub fn trim_text(text: &str) -> (r: &str)
    ensures
        r@ == trimmed(text@),
{
    let n = text.unicode_len();
    let mut i: usize = 0;
    while i < n && is_white_space(text.get_char(i))
        invariant
            n == text@.len(),
            i <= n,
            forall|k: int| 0 <= k < i ==> white_space(#[trigger] text@[k]),
        decreases n - i,
    {
        i = i + 1;
    }
    let mut j: usize = n;
    while j > i && is_white_space(text.get_char(j - 1))
        invariant
            n == text@.len(),
            i <= j <= n,
            forall|k: int| j <= k < n ==> white_space(#[trigger] text@[k]),
        decreases j - i,
    {
        j = j - 1;
    }
    proof {
        lemma_trim_start_at(text@, i as int);
        let t = text@.subrange(i as int, n as int);
        assert forall|k: int| j - i <= k < t.len() implies white_space(#[trigger] t[k]) by {
            assert(t[k] == text@[k + i]);
        }
        if j > i {
            assert(t[j - i - 1] == text@[j - 1]);
        }
        lemma_trim_end_at(t, j - i);
        assert(t.subrange(0, j - i) =~= text@.subrange(i as int, j as int));
    }
    text.substring_char(i, j)
}

/// Whether `text` holds nothing but white space.
pub fn is_blank(text: &str) -> (r: bool)
    ensures
        r == (trimmed(text@).len() == 0),
{
    trim_text(text).unicode_len() == 0
}

/// The text of a new task typed as `draft`: the draft without leading and
/// trailing white space, or `None` when nothing else is left.
pub fn submitted_text(draft: &str) -> (r: Option<String>)
    ensures
        match r {
            Some(text) => trimmed(draft@).len() > 0 && text@ == trimmed(draft@),
            None => trimmed(draft@).len() == 0,
        },
{
    let text = trim_text(draft);
    if text.unicode_len() == 0 {
        None
    } else {
        Some(String::from_str(text))
    }
}

} // verus!
