//! Shebang stripping. The engine's comment syntax does not treat `#!` as a
//! comment, so a leading shebang line must be removed before compilation. The
//! line feed that ends the shebang line is kept, so that the line numbers the
//! engine reports still agree with the original file.

use vstd::prelude::*;
use vstd::string::StrSliceExecFns;

verus! {

/// True when the text begins with the two-character shebang marker `#!`.
pub open spec fn starts_with_shebang(s: Seq<char>) -> bool {
    s.len() >= 2 && s[0] == '#' && s[1] == '!'
}

/// Index of the first line feed in `s`, or `s.len()` when `s` has none.
pub open spec fn first_newline(s: Seq<char>) -> int
    decreases s.len(),
{
    if s.len() == 0 {
        0
    } else if s[0] == '\n' {
        0
    } else {
        1 + first_newline(s.subrange(1, s.len() as int))
    }
}

/// `first_newline` is in bounds, points at a line feed whenever one exists,
/// and nothing before it is a line feed.
pub proof fn lemma_first_newline(s: Seq<char>)
    ensures
        0 <= first_newline(s) <= s.len(),
        first_newline(s) < s.len() ==> s[first_newline(s)] == '\n',
        forall|j: int| 0 <= j < first_newline(s) ==> s[j] != '\n',
    decreases s.len(),
{
    if s.len() != 0 && s[0] != '\n' {
        let t = s.subrange(1, s.len() as int);
        lemma_first_newline(t);
        assert forall|j: int| 0 <= j < first_newline(s) implies s[j] != '\n' by {
            if j >= 1 {
                assert(s[j] == t[j - 1]);
            }
        }
    }
}

/// What stripping the shebang means: a text that starts with `#!` and holds a
/// line feed loses everything before that first line feed; any other text is
/// returned unchanged.
pub open spec fn spec_strip_shebang(s: Seq<char>) -> Seq<char> {
    if starts_with_shebang(s) && first_newline(s) < s.len() {
        s.subrange(first_newline(s), s.len() as int)
    } else {
        s
    }
}

/// Strips a leading shebang line, keeping the line feed that ended it.
pub fn strip_shebang<'a>(source: &'a str) -> (out: &'a str)
    ensures
        out@ == spec_strip_shebang(source@),
{
    let n = source.unicode_len();
    if n < 2 {
        return source;
    }
    if source.get_char(0) != '#' || source.get_char(1) != '!' {
        return source;
    }
    let mut i: usize = 0;
    while i < n
        invariant
            n == source@.len(),
            i <= n,
            starts_with_shebang(source@),
            forall|j: int| 0 <= j < i ==> source@[j] != '\n',
        decreases n - i,
    {
        if source.get_char(i) == '\n' {
            proof {
                lemma_first_newline(source@);
                let f = first_newline(source@);
                if f < i {
                    assert(source@[f] != '\n');
                }
                if f > i {
                    assert(source@[i as int] != '\n');
                }
                assert(f == i);
            }
            return source.substring_char(i, n);
        }
        i = i + 1;
    }
    proof {
        lemma_first_newline(source@);
        if first_newline(source@) < source@.len() {
            assert(source@[first_newline(source@)] != '\n');
        }
    }
    source
}

/// A text that does not begin with `#!` passes through unchanged.
pub proof fn lemma_no_shebang_unchanged(s: Seq<char>)
    requires
        !starts_with_shebang(s),
    ensures
        spec_strip_shebang(s) == s,
{
}

/// A text that begins with `#!` and holds a line feed loses exactly the
/// characters before the first line feed; the line feed itself is kept and is
/// the first character of the result.
pub proof fn lemma_shebang_with_newline(s: Seq<char>)
    requires
        starts_with_shebang(s),
        exists|i: int| 0 <= i < s.len() && s[i] == '\n',
    ensures
        first_newline(s) < s.len(),
        s[first_newline(s)] == '\n',
        forall|j: int| 0 <= j < first_newline(s) ==> s[j] != '\n',
        spec_strip_shebang(s) == s.subrange(first_newline(s), s.len() as int),
        spec_strip_shebang(s).len() == s.len() - first_newline(s),
        spec_strip_shebang(s)[0] == '\n',
{
    lemma_first_newline(s);
    let i = choose|i: int| 0 <= i < s.len() && s[i] == '\n';
    if first_newline(s) == s.len() {
        assert(s[i] != '\n');
    }
}

/// A text that begins with `#!` but holds no line feed at all passes through
/// unchanged: the degenerate shebang-only file is not truncated.
pub proof fn lemma_shebang_without_newline_unchanged(s: Seq<char>)
    requires
        starts_with_shebang(s),
        forall|i: int| 0 <= i < s.len() ==> s[i] != '\n',
    ensures
        spec_strip_shebang(s) == s,
{
    lemma_first_newline(s);
    if first_newline(s) < s.len() {
        assert(s[first_newline(s)] != '\n');
    }
}

} // verus!
