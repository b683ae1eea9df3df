//! Character-level text helpers shared by the renderer and the log
//! corpora: splitting into lines, blank-line detection, leading
//! whitespace removal, first-occurrence search, and substring search.
//!
//! Whitespace here means the ASCII blanks that occur in log text:
//! space, tab and carriage return.
use vstd::prelude::*;
use vstd::string::StrSliceExecFns;
use vstd::string::StringExecFns;

verus! {

/// Relies on String::push: appends exactly the given character.
#[verifier::external_body]
pub(crate) fn push_char(s: &mut String, c: char)
    ensures
        final(s)@ == old(s)@ + seq![c],
{
    s.push(c);
}

/// The decimal digits of `v`, most significant first.
pub open spec fn spec_digits(v: int) -> Seq<char>
    decreases v,
{
    if v < 10 {
        seq![crate::progress::spec_digit_char(v)]
    } else {
        spec_digits(v / 10) + seq![crate::progress::spec_digit_char(v % 10)]
    }
}

/// `v` in decimal.
pub fn u64_to_string(v: u64) -> (r: String)
    ensures
        r@ == spec_digits(v as int),
    decreases v,
{
    if v < 10 {
        let mut s = String::new();
        push_char(&mut s, crate::progress::digit_char(v));
        proof {
            assert(s@ =~= spec_digits(v as int));
        }
        s
    } else {
        let mut s = u64_to_string(v / 10);
        push_char(&mut s, crate::progress::digit_char(v % 10));
        s
    }
}

/// The characters a blank line may consist of.
pub open spec fn spec_is_space(c: char) -> bool {
    c == ' ' || c == '\t' || c == '\r'
}

pub fn is_space(c: char) -> (r: bool)
    ensures
        r == spec_is_space(c),
{
    c == ' ' || c == '\t' || c == '\r'
}

/// A line is blank when every character in it is whitespace; the
/// empty line is blank.
pub open spec fn spec_blank(s: Seq<char>) -> bool {
    forall|i: int| 0 <= i < s.len() ==> spec_is_space(#[trigger] s[i])
}

/// Whether the string is blank.
pub fn is_blank(s: &str) -> (r: bool)
    ensures
        r == spec_blank(s@),
{
    let n = s.unicode_len();
    let mut i: usize = 0;
    while i < n
        invariant
            i <= n,
            n == s@.len(),
            forall|k: int| 0 <= k < i ==> spec_is_space(#[trigger] s@[k]),
        decreases n - i,
    {
        if !is_space(s.get_char(i)) {
            return false;
        }
        i = i + 1;
    }
    true
}

/// A carriage return immediately before a line break is part of the
/// line ending, not of the line.
pub open spec fn chop_cr(l: Seq<char>) -> Seq<char> {
    if l.len() > 0 && l.last() == '\r' {
        l.drop_last()
    } else {
        l
    }
}

/// Splitting on line endings (`"\n"` or `"\r\n"`), with `cur` the
/// partial line accumulated so far.  A trailing line ending yields a
/// trailing empty line; a final carriage return not followed by a
/// newline stays part of the last line.
pub open spec fn split_acc(s: Seq<char>, cur: Seq<char>) -> Seq<Seq<char>>
    decreases s.len(),
{
    if s.len() == 0 {
        seq![cur]
    } else if s[0] == '\n' {
        seq![chop_cr(cur)] + split_acc(s.drop_first(), Seq::empty())
    } else {
        split_acc(s.drop_first(), cur.push(s[0]))
    }
}

/// The lines of a text, split on line endings.
pub open spec fn spec_split_lines(s: Seq<char>) -> Seq<Seq<char>> {
    split_acc(s, Seq::empty())
}

/// Split a text into its lines.
pub fn split_lines(s: &str) -> (r: Vec<String>)
    ensures
        r.deep_view() == spec_split_lines(s@),
{
    let n = s.unicode_len();
    let mut out: Vec<String> = Vec::new();
    let mut cur = String::new();
    let mut ends_cr = false;
    let mut i: usize = 0;
    proof {
        assert(out.deep_view() =~= Seq::<Seq<char>>::empty());
        assert(s@.skip(0) =~= s@);
    }
    while i < n
        invariant
            i <= n,
            n == s@.len(),
            ends_cr == (cur@.len() > 0 && cur@.last() == '\r'),
            spec_split_lines(s@) == out.deep_view() + split_acc(s@.skip(i as int), cur@),
        decreases n - i,
    {
        let c = s.get_char(i);
        let ghost u = s@.skip(i as int);
        proof {
            assert(u.len() > 0);
            assert(u[0] == s@[i as int]);
            assert(u.drop_first() =~= s@.skip(i as int + 1));
        }
        if c == '\n' {
            let ghost pre_out = out.deep_view();
            let ghost done = cur@;
            let done_line: String = if ends_cr {
                let l = cur.as_str().unicode_len();
                String::from_str(cur.as_str().substring_char(0, l - 1))
            } else {
                cur
            };
            proof {
                assert(done_line@ =~= chop_cr(done));
            }
            out.push(done_line);
            cur = String::new();
            ends_cr = false;
            proof {
                assert(out.deep_view() =~= pre_out.push(chop_cr(done)));
                assert(split_acc(u, done) == seq![chop_cr(done)] + split_acc(
                    u.drop_first(),
                    Seq::empty(),
                ));
                assert(pre_out + (seq![chop_cr(done)] + split_acc(
                    s@.skip(i as int + 1),
                    Seq::empty(),
                )) =~= pre_out.push(chop_cr(done)) + split_acc(
                    s@.skip(i as int + 1),
                    Seq::empty(),
                ));
            }
        } else {
            let ghost pre_cur = cur@;
            push_char(&mut cur, c);
            ends_cr = c == '\r';
            proof {
                assert(cur@ =~= pre_cur.push(c));
                assert(split_acc(u, pre_cur) == split_acc(u.drop_first(), pre_cur.push(u[0])));
            }
        }
        i = i + 1;
    }
    proof {
        assert(s@.skip(n as int) =~= Seq::<char>::empty());
        assert(split_acc(s@.skip(n as int), cur@) == seq![cur@]);
    }
    let ghost pre_out = out.deep_view();
    let ghost done = cur@;
    out.push(cur);
    proof {
        assert(out.deep_view() =~= pre_out.push(done));
        assert(pre_out + seq![done] =~= pre_out.push(done));
    }
    out
}

/// The predicate a corpus keeps lines by: not blank.
pub open spec fn keep_line() -> spec_fn(Seq<char>) -> bool {
    |l: Seq<char>| !spec_blank(l)
}

/// The display-ready lines of a raw corpus text: split on newlines,
/// blank lines discarded.
pub open spec fn spec_clean_lines(text: Seq<char>) -> Seq<Seq<char>> {
    spec_split_lines(text).filter(keep_line())
}

/// Filtering one more element keeps it exactly when it satisfies the
/// predicate.
pub proof fn lemma_filter_step(s: Seq<Seq<char>>, i: int)
    requires
        0 <= i < s.len(),
    ensures
        s.take(i + 1).filter(keep_line()) == if keep_line()(s[i]) {
            s.take(i).filter(keep_line()).push(s[i])
        } else {
            s.take(i).filter(keep_line())
        },
{
    reveal(Seq::filter);
    assert(s.take(i + 1).drop_last() =~= s.take(i));
    assert(s.take(i + 1).last() == s[i]);
}

/// A corpus invariant: whatever the raw text, the cleaned lines are
/// all non-blank — in particular, none is empty.
pub proof fn lemma_clean_lines_not_blank(text: Seq<char>)
    ensures
        forall|i: int|
            0 <= i < spec_clean_lines(text).len() ==> !spec_blank(
                #[trigger] spec_clean_lines(text)[i],
            ),
{
    assert forall|i: int| 0 <= i < spec_clean_lines(text).len() implies !spec_blank(
        spec_clean_lines(text)[i],
    ) by {
        spec_split_lines(text).lemma_filter_pred(keep_line(), i);
    }
}

/// Split a text on newlines and drop the blank lines.
pub fn clean_lines(text: &str) -> (r: Vec<String>)
    ensures
        r.deep_view() == spec_clean_lines(text@),
{
    let lines = split_lines(text);
    let ghost lv = lines.deep_view();
    let mut out: Vec<String> = Vec::new();
    proof {
        assert(lv.take(0) =~= Seq::<Seq<char>>::empty());
        reveal(Seq::filter);
    }
    let n = lines.len();
    let mut i: usize = 0;
    while i < n
        invariant
            i <= n,
            n == lines.len(),
            lv == lines.deep_view(),
            lv == spec_split_lines(text@),
            out.deep_view() == lv.take(i as int).filter(keep_line()),
        decreases n - i,
    {
        proof {
            lemma_filter_step(lv, i as int);
            assert(lines[i as int].deep_view() == lv[i as int]);
        }
        if !is_blank(lines[i].as_str()) {
            let ghost pre = out.deep_view();
            out.push(lines[i].clone());
            proof {
                assert(out.deep_view() =~= pre.push(lv[i as int]));
            }
        }
        i = i + 1;
    }
    proof {
        assert(lv.take(n as int) =~= lv);
    }
    out
}

/// The index of the first occurrence of `c` in `s`, or `-1`.
pub open spec fn spec_find(s: Seq<char>, c: char) -> int
    decreases s.len(),
{
    if s.len() == 0 {
        -1
    } else if s[0] == c {
        0
    } else if spec_find(s.drop_first(), c) == -1 {
        -1
    } else {
        spec_find(s.drop_first(), c) + 1
    }
}

/// `spec_find` names the first occurrence: everything before it
/// differs from `c`, and a result of `-1` means `c` does not occur.
pub proof fn lemma_find_char(s: Seq<char>, c: char)
    ensures
        spec_find(s, c) == -1 ==> forall|k: int| 0 <= k < s.len() ==> s[k] != c,
        spec_find(s, c) != -1 ==> {
            &&& 0 <= spec_find(s, c) < s.len()
            &&& s[spec_find(s, c)] == c
            &&& forall|k: int| 0 <= k < spec_find(s, c) ==> s[k] != c
        },
    decreases s.len(),
{
    if s.len() != 0 && s[0] != c {
        let sd = s.drop_first();
        lemma_find_char(sd, c);
        let f = spec_find(s, c);
        if f == -1 {
            assert forall|k: int| 0 <= k < s.len() implies s[k] != c by {
                if k > 0 {
                    assert(sd[k - 1] == s[k]);
                }
            }
        } else {
            assert(spec_find(sd, c) == f - 1);
            assert(sd[f - 1] == s[f]);
            assert forall|k: int| 0 <= k < f implies s[k] != c by {
                if k > 0 {
                    assert(sd[k - 1] == s[k]);
                }
            }
        }
    }
}

/// Find the first occurrence of `c` in `s` at or after `from`.
pub fn find_char_from(s: &str, c: char, from: usize) -> (r: Option<usize>)
    requires
        from <= s@.len(),
    ensures
        match r {
            Some(i) => {
                &&& from <= i < s@.len()
                &&& s@[i as int] == c
                &&& forall|k: int| from <= k < i ==> s@[k] != c
                &&& i - from == spec_find(s@.skip(from as int), c)
            },
            None => {
                &&& forall|k: int| from <= k < s@.len() ==> s@[k] != c
                &&& spec_find(s@.skip(from as int), c) == -1
            },
        },
{
    let n = s.unicode_len();
    let ghost u = s@.skip(from as int);
    proof {
        lemma_find_char(u, c);
        assert(forall|m: int| 0 <= m < u.len() ==> u[m] == s@[from + m]);
    }
    let mut i: usize = from;
    while i < n
        invariant
            from <= i <= n,
            n == s@.len(),
            u == s@.skip(from as int),
            forall|k: int| from <= k < i ==> s@[k] != c,
        decreases n - i,
    {
        if s.get_char(i) == c {
            proof {
                lemma_find_char(u, c);
                assert(forall|m: int| 0 <= m < u.len() ==> u[m] == s@[from + m]);
                let f = spec_find(u, c);
                assert(u[i - from] == s@[i as int]);
                if f == -1 {
                    assert(u[i - from] != c);
                    assert(false);
                } else {
                    if f < i - from {
                        assert(u[f] == c);
                        assert(u[f] == s@[from + f]);
                        assert(s@[from + f] != c);
                        assert(false);
                    }
                    if f > i - from {
                        assert(u[i - from] != c);
                        assert(false);
                    }
                }
                assert(f == i - from);
            }
            return Some(i);
        }
        i = i + 1;
    }
    proof {
        lemma_find_char(u, c);
        assert(forall|m: int| 0 <= m < u.len() ==> u[m] == s@[from + m]);
        let f = spec_find(u, c);
        if f != -1 {
            assert(u[f] == c);
            assert(u[f] == s@[from + f]);
            assert(s@[from + f] != c);
            assert(false);
        }
    }
    None
}

/// A sequence with its leading whitespace removed.
pub open spec fn spec_trim_start(s: Seq<char>) -> Seq<char>
    decreases s.len(),
{
    if s.len() == 0 {
        s
    } else if spec_is_space(s[0]) {
        spec_trim_start(s.drop_first())
    } else {
        s
    }
}

/// A kernel-log line with its bracketed timestamp token removed:
/// everything up to and including the first `]` that follows the
/// first `[` goes, along with the whitespace after it.  A line
/// without such a bracket pair passes through unchanged.
pub open spec fn spec_strip_timestamp(s: Seq<char>) -> Seq<char> {
    let i = spec_find(s, '[');
    if i == -1 {
        s
    } else {
        let j = spec_find(s.skip(i), ']');
        if j == -1 {
            s
        } else {
            spec_trim_start(s.skip(i + j + 1))
        }
    }
}

/// A line with no opening bracket passes through timestamp stripping
/// unchanged.
pub proof fn lemma_strip_without_bracket(s: Seq<char>)
    requires
        forall|k: int| 0 <= k < s.len() ==> s[k] != '[',
    ensures
        spec_strip_timestamp(s) == s,
{
    lemma_find_char(s, '[');
    if spec_find(s, '[') != -1 {
        assert(s[spec_find(s, '[')] == '[');
    }
}

/// Whether `pat` occurs in `s` starting at `i`.
pub open spec fn spec_contains_at(s: Seq<char>, pat: Seq<char>, i: int) -> bool {
    0 <= i && i + pat.len() <= s.len() && s.subrange(i, i + pat.len()) == pat
}

/// Whether `pat` occurs anywhere in `s`.
pub open spec fn spec_contains(s: Seq<char>, pat: Seq<char>) -> bool {
    exists|i: int| spec_contains_at(s, pat, i)
}

/// Substring search.
pub fn contains_str(s: &str, pat: &str) -> (r: bool)
    ensures
        r == spec_contains(s@, pat@),
{
    let n = s.unicode_len();
    let m = pat.unicode_len();
    if m > n {
        proof {
            assert(forall|i: int| !spec_contains_at(s@, pat@, i));
        }
        return false;
    }
    if m == 0 {
        proof {
            assert(s@.subrange(0, 0) =~= pat@);
            assert(spec_contains_at(s@, pat@, 0));
        }
        return true;
    }
    let mut i: usize = 0;
    while i <= n - m
        invariant
            1 <= m <= n,
            n == s@.len(),
            m == pat@.len(),
            i <= n - m + 1,
            forall|q: int| 0 <= q < i ==> !spec_contains_at(s@, pat@, q),
        decreases n - i,
    {
        let mut j: usize = 0;
        let mut matched = true;
        while j < m && matched
            invariant
                j <= m,
                i + m <= n,
                n == s@.len(),
                m == pat@.len(),
                matched ==> forall|q: int| 0 <= q < j ==> s@[i + q] == pat@[q],
                !matched ==> !spec_contains_at(s@, pat@, i as int),
            decreases m - j + (if matched { 1int } else { 0int }),
        {
            if s.get_char(i + j) != pat.get_char(j) {
                matched = false;
                proof {
                    assert(s@.subrange(i as int, i + m) != pat@) by {
                        assert(s@.subrange(i as int, i + m)[j as int] == s@[i + j]);
                    }
                    assert(!spec_contains_at(s@, pat@, i as int));
                }
            } else {
                j = j + 1;
            }
        }
        if matched {
            proof {
                assert(s@.subrange(i as int, i + m) =~= pat@);
                assert(spec_contains_at(s@, pat@, i as int));
            }
            return true;
        }
        i = i + 1;
    }
    proof {
        assert(forall|q: int| !spec_contains_at(s@, pat@, q));
    }
    false
}

} // verus!
