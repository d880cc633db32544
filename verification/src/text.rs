//! Verified string utilities: substring occurrence, prefix handling, trailing
//! trims and character replacement, each specified over `Seq<char>`.

use vstd::prelude::*;
use vstd::string::StrSliceExecFns;
use vstd::string::StringExecFns;

verus! {

/// `needle` occurs in `hay` starting at position `i`.
pub open spec fn occurs_at(hay: Seq<char>, needle: Seq<char>, i: int) -> bool {
    &&& 0 <= i
    &&& i + needle.len() <= hay.len()
    &&& hay.subrange(i, i + needle.len()) == needle
}

/// `needle` occurs somewhere in `hay`.
pub open spec fn contains_seq(hay: Seq<char>, needle: Seq<char>) -> bool {
    exists|i: int| occurs_at(hay, needle, i)
}

/// `p` is a prefix of `s`.
pub open spec fn has_prefix(s: Seq<char>, p: Seq<char>) -> bool {
    p.len() <= s.len() && s.subrange(0, p.len() as int) == p
}

/// Decides whether `needle` occurs in `hay` at position `i`.
pub fn matches_at(hay: &str, needle: &str, i: usize) -> (r: bool)
    requires
        i + needle@.len() <= hay@.len(),
    ensures
        r == occurs_at(hay@, needle@, i as int),
{
    let n: usize = hay.unicode_len();
    let m: usize = needle.unicode_len();
    let mut j: usize = 0;
    while j < m
        invariant
            i + m <= n,
            n == hay@.len(),
            m == needle@.len(),
            0 <= j <= m,
            forall|k: int| 0 <= k < j ==> hay@[i + k] == needle@[k],
        decreases m - j,
    {
        if hay.get_char(i + j) != needle.get_char(j) {
            assert(hay@.subrange(i as int, i + m) != needle@) by {
                assert(hay@.subrange(i as int, i + m)[j as int] == hay@[i + j]);
            }
            return false;
        }
        j = j + 1;
    }
    assert(hay@.subrange(i as int, i + m) =~= needle@);
    true
}

/// Decides whether `needle` occurs anywhere in `hay`.
pub fn contains_substring(hay: &str, needle: &str) -> (r: bool)
    ensures
        r == contains_seq(hay@, needle@),
{
    let n: usize = hay.unicode_len();
    let m: usize = needle.unicode_len();
    if m > n {
        assert(forall|i: int| !occurs_at(hay@, needle@, i));
        return false;
    }
    let mut i: usize = 0;
    while i <= n - m
        invariant
            m <= n,
            n == hay@.len(),
            m == needle@.len(),
            0 <= i <= n - m + 1,
            forall|k: int| 0 <= k < i ==> !occurs_at(hay@, needle@, k),
        decreases n - i,
    {
        if matches_at(hay, needle, i) {
            return true;
        }
        proof {
            if m == 0 {
                assert(hay@.subrange(i as int, i as int) =~= needle@);
                assert(occurs_at(hay@, needle@, i as int));
            }
        }
        i = i + 1;
    }
    assert(forall|k: int| !occurs_at(hay@, needle@, k));
    false
}

/// Decides whether `p` is a prefix of `s`.
pub fn starts_with_str(s: &str, p: &str) -> (r: bool)
    ensures
        r == has_prefix(s@, p@),
{
    let n: usize = s.unicode_len();
    let m: usize = p.unicode_len();
    if m > n {
        return false;
    }
    matches_at(s, p, 0)
}

/// Returns `s` with the prefix `p` removed.
pub fn strip_prefix_str<'a>(s: &'a str, p: &str) -> (r: &'a str)
    requires
        has_prefix(s@, p@),
    ensures
        r@ == s@.subrange(p@.len() as int, s@.len() as int),
{
    let n: usize = s.unicode_len();
    let m: usize = p.unicode_len();
    s.substring_char(m, n)
}

/// `s` with every trailing occurrence of the character `c` removed.
pub open spec fn trimmed_end_char(s: Seq<char>, c: char) -> Seq<char>
    decreases s.len(),
{
    if s.len() > 0 && s.last() == c {
        trimmed_end_char(s.drop_last(), c)
    } else {
        s
    }
}

/// Removes every trailing occurrence of the character `c` from `s`.
pub fn trim_end_char<'a>(s: &'a str, c: char) -> (r: &'a str)
    ensures
        r@ == trimmed_end_char(s@, c),
{
    let n: usize = s.unicode_len();
    let mut e: usize = n;
    assert(s@.subrange(0, n as int) =~= s@);
    while e > 0 && s.get_char(e - 1) == c
        invariant
            0 <= e <= n,
            n == s@.len(),
            trimmed_end_char(s@, c) == trimmed_end_char(s@.subrange(0, e as int), c),
        decreases e,
    {
        proof {
            let cur = s@.subrange(0, e as int);
            assert(cur.last() == s@[e - 1]);
            assert(cur.drop_last() =~= s@.subrange(0, e - 1));
        }
        e = e - 1;
    }
    proof {
        let cur = s@.subrange(0, e as int);
        if e > 0 {
            assert(cur.last() == s@[e - 1]);
        }
        assert(trimmed_end_char(cur, c) == cur);
    }
    s.substring_char(0, e)
}

/// `s` with every trailing occurrence of the non-empty suffix `p` removed.
pub open spec fn trimmed_end_seq(s: Seq<char>, p: Seq<char>) -> Seq<char>
    decreases s.len(),
{
    if p.len() > 0 && p.len() <= s.len() && s.subrange(s.len() - p.len(), s.len() as int) == p {
        trimmed_end_seq(s.subrange(0, s.len() - p.len()), p)
    } else {
        s
    }
}

/// Removes every trailing occurrence of the non-empty suffix `p` from `s`.
pub fn trim_end_str<'a>(s: &'a str, p: &str) -> (r: &'a str)
    requires
        p@.len() > 0,
    ensures
        r@ == trimmed_end_seq(s@, p@),
{
    let n: usize = s.unicode_len();
    let m: usize = p.unicode_len();
    let mut e: usize = n;
    assert(s@.subrange(0, n as int) =~= s@);
    loop
        invariant
            0 <= e <= n,
            n == s@.len(),
            m == p@.len(),
            m > 0,
            trimmed_end_seq(s@, p@) == trimmed_end_seq(s@.subrange(0, e as int), p@),
        decreases e,
    {
        if e < m || !matches_at(s, p, e - m) {
            proof {
                let cur = s@.subrange(0, e as int);
                if m <= e {
                    assert(cur.subrange(e - m, e as int) =~= s@.subrange(e - m, e as int));
                }
                assert(trimmed_end_seq(cur, p@) == cur);
            }
            return s.substring_char(0, e);
        }
        proof {
            let cur = s@.subrange(0, e as int);
            assert(cur.subrange(e - m, e as int) =~= s@.subrange(e - m, e as int));
            assert(cur.subrange(0, e - m) =~= s@.subrange(0, e - m));
        }
        e = e - m;
    }
}

/// The position of the first line break in `s`, or `s.len()` when there is
/// none.
pub open spec fn first_break(s: Seq<char>) -> int
    decreases s.len(),
{
    if s.len() == 0 {
        0
    } else if s[0] == '\n' {
        0
    } else {
        1 + first_break(s.subrange(1, s.len() as int))
    }
}

/// The first line break lies in `s`, nothing before it is a line break, and
/// it is a line break unless there is none.
pub proof fn lemma_first_break_bounds(s: Seq<char>)
    ensures
        0 <= first_break(s) <= s.len(),
        forall|k: int| 0 <= k < first_break(s) ==> s[k] != '\n',
        first_break(s) < s.len() ==> s[first_break(s)] == '\n',
    decreases s.len(),
{
    if s.len() > 0 && s[0] != '\n' {
        let sub = s.subrange(1, s.len() as int);
        lemma_first_break_bounds(sub);
        assert forall|k: int| 0 <= k < first_break(s) implies s[k] != '\n' by {
            if k > 0 {
                assert(sub[k - 1] == s[k]);
            }
        }
        if first_break(s) < s.len() {
            assert(sub[first_break(s) - 1] == s[first_break(s)]);
        }
    }
}

/// The position where the line-break scan stops is the first break.
pub proof fn lemma_first_break_at(s: Seq<char>, m: int)
    requires
        0 <= m <= s.len(),
        forall|k: int| 0 <= k < m ==> s[k] != '\n',
        m < s.len() ==> s[m] == '\n',
    ensures
        first_break(s) == m,
    decreases m,
{
    if m == 0 {
    } else {
        let sub = s.subrange(1, s.len() as int);
        assert forall|k: int| 0 <= k < m - 1 implies sub[k] != '\n' by {
            assert(sub[k] == s[k + 1]);
        }
        if m - 1 < sub.len() {
            assert(sub[m - 1] == s[m]);
        }
        lemma_first_break_at(sub, m - 1);
    }
}

/// The non-empty lines of `s`, in order: the text split on line breaks, with
/// empty segments dropped.
pub open spec fn lines_of(s: Seq<char>) -> Seq<Seq<char>>
    decreases s.len(),
    via lines_of_decreases
{
    if s.len() == 0 {
        Seq::empty()
    } else {
        let n = first_break(s);
        let head = s.subrange(0, n);
        let rest = if n >= s.len() {
            Seq::<char>::empty()
        } else {
            s.subrange(n + 1, s.len() as int)
        };
        let tail = lines_of(rest);
        if head.len() == 0 {
            tail
        } else {
            seq![head] + tail
        }
    }
}

#[via_fn]
proof fn lines_of_decreases(s: Seq<char>) {
    lemma_first_break_bounds(s);
}

/// Splits text into its non-empty lines, in order.
pub fn split_lines(s: &str) -> (r: Vec<String>)
    ensures
        r.deep_view() == lines_of(s@),
{
    let n: usize = s.unicode_len();
    let mut r: Vec<String> = Vec::new();
    let mut pos: usize = 0;
    assert(s@.subrange(0, n as int) =~= s@);
    assert(r.deep_view() =~= Seq::<Seq<char>>::empty());
    while pos < n
        invariant
            0 <= pos <= n,
            n == s@.len(),
            lines_of(s@) == r.deep_view() + lines_of(s@.subrange(pos as int, n as int)),
        decreases n - pos,
    {
        let ghost sub = s@.subrange(pos as int, n as int);
        let mut j: usize = pos;
        while j < n && s.get_char(j) != '\n'
            invariant
                pos <= j <= n,
                n == s@.len(),
                forall|k: int| pos <= k < j ==> s@[k] != '\n',
            decreases n - j,
        {
            j = j + 1;
        }
        proof {
            assert forall|k: int| 0 <= k < j - pos implies sub[k] != '\n' by {
                assert(sub[k] == s@[pos + k]);
            }
            if (j as int) < n {
                assert(sub[j - pos] == s@[j as int]);
            }
            lemma_first_break_at(sub, j - pos);
            assert(sub.subrange(0, j - pos) =~= s@.subrange(pos as int, j as int));
        }
        let ghost old_lines = r.deep_view();
        if j > pos {
            let line = s.substring_char(pos, j).to_owned();
            r.push(line);
            proof {
                assert(r.deep_view() =~= old_lines.push(s@.subrange(pos as int, j as int)));
            }
        }
        proof {
            let head = sub.subrange(0, j - pos);
            let rest = if j - pos >= sub.len() {
                Seq::<char>::empty()
            } else {
                sub.subrange(j - pos + 1, sub.len() as int)
            };
            if (j as int) < n {
                assert(rest =~= s@.subrange(j + 1 as int, n as int));
            } else {
                assert(rest =~= s@.subrange(n as int, n as int));
            }
            if j > pos {
                assert(old_lines + (seq![head] + lines_of(rest)) =~= (old_lines.push(head))
                    + lines_of(rest));
            }
        }
        if j < n {
            pos = j + 1;
        } else {
            pos = n;
        }
    }
    assert(s@.subrange(n as int, n as int) =~= Seq::<char>::empty());
    assert(r.deep_view() + Seq::<Seq<char>>::empty() =~= r.deep_view());
    r
}

/// `s` with every occurrence of the character `c` replaced by `rep`.
pub open spec fn replaced(s: Seq<char>, c: char, rep: Seq<char>) -> Seq<char>
    decreases s.len(),
{
    if s.len() == 0 {
        Seq::empty()
    } else {
        (if s[0] == c {
            rep
        } else {
            seq![s[0]]
        }) + replaced(s.subrange(1, s.len() as int), c, rep)
    }
}

/// Appending one character on the right extends the replacement on the right.
pub proof fn lemma_replaced_push(s: Seq<char>, c: char, rep: Seq<char>, x: char)
    ensures
        replaced(s.push(x), c, rep) == replaced(s, c, rep) + (if x == c {
            rep
        } else {
            seq![x]
        }),
    decreases s.len(),
{
    let tail = if x == c {
        rep
    } else {
        seq![x]
    };
    if s.len() == 0 {
        assert(s.push(x)[0] == x);
        assert(s.push(x).subrange(1, 1) =~= Seq::<char>::empty());
        assert(replaced(Seq::<char>::empty(), c, rep) == Seq::<char>::empty());
        assert(replaced(s.push(x), c, rep) =~= tail);
        assert(replaced(s, c, rep) + tail =~= tail);
    } else {
        assert(s.push(x)[0] == s[0]);
        assert(s.push(x).subrange(1, s.len() + 1 as int) =~= s.subrange(1, s.len() as int).push(x));
        lemma_replaced_push(s.subrange(1, s.len() as int), c, rep, x);
        let head = if s[0] == c {
            rep
        } else {
            seq![s[0]]
        };
        assert(replaced(s.push(x), c, rep) == head + (replaced(
            s.subrange(1, s.len() as int),
            c,
            rep,
        ) + tail));
        assert(head + (replaced(s.subrange(1, s.len() as int), c, rep) + tail) =~= (head
            + replaced(s.subrange(1, s.len() as int), c, rep)) + tail);
    }
}

/// Replaces every occurrence of the character `c` in `s` by `rep`.
pub fn replace_char(s: &str, c: char, rep: &str) -> (r: String)
    ensures
        r@ == replaced(s@, c, rep@),
{
    let n: usize = s.unicode_len();
    let mut out: String = String::new();
    let mut i: usize = 0;
    assert(s@.subrange(0, 0) =~= Seq::<char>::empty());
    while i < n
        invariant
            0 <= i <= n,
            n == s@.len(),
            out@ == replaced(s@.subrange(0, i as int), c, rep@),
        decreases n - i,
    {
        let ch = s.get_char(i);
        proof {
            assert(s@.subrange(0, i + 1) =~= s@.subrange(0, i as int).push(s@[i as int]));
            lemma_replaced_push(s@.subrange(0, i as int), c, rep@, s@[i as int]);
        }
        if ch == c {
            out.append(rep);
        } else {
            let piece = s.substring_char(i, i + 1);
            proof {
                assert(piece@ =~= seq![s@[i as int]]);
            }
            out.append(piece);
        }
        i = i + 1;
    }
    assert(s@.subrange(0, n as int) =~= s@);
    out
}

} // verus!
