//! The plugin name: the single value shared read-only by every scaffolding
//! step. It is captured once from the user, surrounding whitespace is
//! trimmed, and a name that is empty after trimming is rejected.

use vstd::prelude::*;
use vstd::string::StrSliceExecFns;
use vstd::string::StringExecFns;

verus! {

/// The whitespace characters stripped from either end of the raw input:
/// the Unicode white-space set (the characters with the `White_Space`
/// property).
pub open spec fn is_space(c: char) -> bool {
    let u = c as u32;
    ||| 0x09 <= u <= 0x0D
    ||| u == 0x20
    ||| u == 0x85
    ||| u == 0xA0
    ||| u == 0x1680
    ||| 0x2000 <= u <= 0x200A
    ||| u == 0x2028
    ||| u == 0x2029
    ||| u == 0x202F
    ||| u == 0x205F
    ||| u == 0x3000
}

/// The sequence with leading whitespace removed.
pub open spec fn trim_front(s: Seq<char>) -> Seq<char>
    decreases s.len(),
{
    if s.len() > 0 && is_space(s[0]) {
        trim_front(s.drop_first())
    } else {
        s
    }
}

/// The sequence with trailing whitespace removed.
pub open spec fn trim_back(s: Seq<char>) -> Seq<char>
    decreases s.len(),
{
    if s.len() > 0 && is_space(s.last()) {
        trim_back(s.drop_last())
    } else {
        s
    }
}

/// The sequence with whitespace removed from both ends.
pub open spec fn trim_spec(s: Seq<char>) -> Seq<char> {
    trim_back(trim_front(s))
}

proof fn lemma_trim_front_all(s: Seq<char>, lo: int)
    requires
        0 <= lo <= s.len(),
        forall|j: int| 0 <= j < lo ==> is_space(s[j]),
        lo == s.len() || !is_space(s[lo]),
    ensures
        trim_front(s) == s.subrange(lo, s.len() as int),
    decreases lo,
{
    if lo == 0 {
        assert(s.subrange(0, s.len() as int) =~= s);
    } else {
        assert(is_space(s[0]));
        lemma_trim_front_all(s.drop_first(), lo - 1);
        assert(s.drop_first().subrange(lo - 1, s.drop_first().len() as int) =~= s.subrange(
            lo,
            s.len() as int,
        ));
    }
}

proof fn lemma_trim_back_all(s: Seq<char>, hi: int)
    requires
        0 <= hi <= s.len(),
        forall|j: int| hi <= j < s.len() ==> is_space(s[j]),
        hi == 0 || !is_space(s[hi - 1]),
    ensures
        trim_back(s) == s.subrange(0, hi),
    decreases s.len() - hi,
{
    if hi == s.len() {
        assert(s.subrange(0, hi) =~= s);
    } else {
        assert(is_space(s.last()));
        lemma_trim_back_all(s.drop_last(), hi);
        assert(s.drop_last().subrange(0, hi) =~= s.subrange(0, hi));
    }
}

/// A scan that found `lo` and `hi` with only whitespace outside `[lo, hi)`
/// and none at either edge of `[lo, hi)` has found the trimmed sequence.
proof fn lemma_trim_bounds(s: Seq<char>, lo: int, hi: int)
    requires
        0 <= lo <= hi <= s.len(),
        forall|j: int| 0 <= j < lo ==> is_space(s[j]),
        forall|j: int| hi <= j < s.len() ==> is_space(s[j]),
        lo < hi ==> !is_space(s[lo]) && !is_space(s[hi - 1]),
        lo == hi ==> lo == s.len(),
    ensures
        trim_spec(s) == s.subrange(lo, hi),
{
    lemma_trim_front_all(s, lo);
    let t = s.subrange(lo, s.len() as int);
    lemma_trim_back_all(t, hi - lo);
    assert(t.subrange(0, hi - lo) =~= s.subrange(lo, hi));
}

/// Trimming a sequence that carries no whitespace at either end leaves it
/// unchanged; in particular, trimming is idempotent.
pub proof fn lemma_trim_fixed(s: Seq<char>)
    requires
        s.len() > 0,
        !is_space(s[0]),
        !is_space(s[s.len() - 1]),
    ensures
        trim_spec(s) == s,
{
    lemma_trim_bounds(s, 0, s.len() as int);
    assert(s.subrange(0, s.len() as int) =~= s);
}

fn is_space_char(c: char) -> (b: bool)
    ensures
        b == is_space(c),
{
    let u = c as u32;
    (0x09 <= u && u <= 0x0D) || u == 0x20 || u == 0x85 || u == 0xA0 || u == 0x1680 || (0x2000 <= u
        && u <= 0x200A) || u == 0x2028 || u == 0x2029 || u == 0x202F || u == 0x205F || u == 0x3000
}

/// Strips whitespace from both ends of `s`.
pub fn trim_ends(s: &str) -> (r: String)
    ensures
        r@ == trim_spec(s@),
{
    let n = s.unicode_len();
    let mut lo: usize = 0;
    loop
        invariant
            lo <= n,
            n == s@.len(),
            forall|j: int| 0 <= j < lo ==> is_space(s@[j]),
        ensures
            lo <= n,
            forall|j: int| 0 <= j < lo ==> is_space(s@[j]),
            lo < n ==> !is_space(s@[lo as int]),
        decreases n - lo,
    {
        if lo >= n {
            break ;
        }
        if !is_space_char(s.get_char(lo)) {
            break ;
        }
        lo = lo + 1;
    }
    let mut hi: usize = n;
    loop
        invariant
            lo <= hi <= n,
            n == s@.len(),
            forall|j: int| 0 <= j < lo ==> is_space(s@[j]),
            forall|j: int| hi <= j < n ==> is_space(s@[j]),
            lo < n ==> !is_space(s@[lo as int]),
        ensures
            lo <= hi <= n,
            forall|j: int| 0 <= j < lo ==> is_space(s@[j]),
            forall|j: int| hi <= j < n ==> is_space(s@[j]),
            lo < n ==> !is_space(s@[lo as int]),
            hi > lo ==> !is_space(s@[hi - 1]),
        decreases hi,
    {
        if hi <= lo {
            break ;
        }
        if !is_space_char(s.get_char(hi - 1)) {
            break ;
        }
        hi = hi - 1;
    }
    let out = s.substring_char(lo, hi);
    proof {
        if lo == hi && lo < n {
            assert(is_space(s@[lo as int]));
        }
        lemma_trim_bounds(s@, lo as int, hi as int);
    }
    String::from_str(out)
}

/// A valid plugin name: the user's input with surrounding whitespace
/// removed, known to be non-empty. It serves both as a path segment of the
/// generated tree and as the value substituted into the templates.
pub struct PluginName {
    text: String,
}

impl View for PluginName {
    type V = Seq<char>;

    closed spec fn view(&self) -> Seq<char> {
        self.text@
    }
}

impl PluginName {
    /// A name is well formed when it is non-empty and already trimmed.
    pub open spec fn wf(self) -> bool {
        self@.len() > 0 && trim_spec(self@) == self@
    }

    /// Captures a raw input line: trims it, and rejects a name that is
    /// empty after trimming.
    pub fn new(input: &str) -> (r: Option<PluginName>)
        ensures
            trim_spec(input@).len() == 0 ==> r is None,
            trim_spec(input@).len() > 0 ==> (r matches Some(p) && p@ == trim_spec(input@)
                && p.wf()),
    {
        let t = trim_ends(input);
        if t.as_str().unicode_len() == 0 {
            None
        } else {
            proof {
                lemma_trim_edges(input@);
                lemma_trim_fixed(trim_spec(input@));
            }
            Some(PluginName { text: t })
        }
    }

    /// The name as a string slice.
    pub fn as_str(&self) -> (r: &str)
        ensures
            r@ == self@,
    {
        self.text.as_str()
    }
}

impl Clone for PluginName {
    fn clone(&self) -> (r: Self)
        ensures
            r == *self,
    {
        PluginName { text: self.text.clone() }
    }
}

/// A non-empty trimmed sequence carries no whitespace at either end.
proof fn lemma_trim_edges(s: Seq<char>)
    requires
        trim_spec(s).len() > 0,
    ensures
        !is_space(trim_spec(s)[0]),
        !is_space(trim_spec(s)[trim_spec(s).len() - 1]),
{
    lemma_trim_front_no_space(s);
    lemma_trim_back_edges(trim_front(s));
}

proof fn lemma_trim_front_no_space(s: Seq<char>)
    ensures
        trim_front(s).len() > 0 ==> !is_space(trim_front(s)[0]),
        trim_back(trim_front(s)).len() > 0 ==> !is_space(trim_back(trim_front(s))[0]),
    decreases s.len(),
{
    if s.len() > 0 && is_space(s[0]) {
        lemma_trim_front_no_space(s.drop_first());
    } else {
        lemma_trim_back_keeps_first(s);
    }
}

proof fn lemma_trim_back_keeps_first(s: Seq<char>)
    ensures
        trim_back(s).len() > 0 ==> trim_back(s)[0] == s[0],
    decreases s.len(),
{
    if s.len() > 0 && is_space(s.last()) {
        lemma_trim_back_keeps_first(s.drop_last());
    }
}

proof fn lemma_trim_back_edges(s: Seq<char>)
    ensures
        trim_back(s).len() > 0 ==> !is_space(trim_back(s)[trim_back(s).len() - 1]),
    decreases s.len(),
{
    if s.len() > 0 && is_space(s.last()) {
        lemma_trim_back_edges(s.drop_last());
    }
}

} // verus!
