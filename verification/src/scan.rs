//! Character-level text scanning: finding a separator, trimming whitespace,
//! and comparing a text range against a keyword.
//!
//! The executable functions walk a `&str` by character index; each is proved
//! against a recursive specification over the string's character sequence.

use vstd::prelude::*;

verus! {

/// The index of the first occurrence of `c` in `s`, or a negative value when
/// `c` does not occur.
pub open spec fn spec_find(s: Seq<char>, c: char) -> int
    decreases s.len(),
{
    if s.len() == 0 {
        -1
    } else if s[0] == c {
        0
    } else {
        let r = spec_find(s.drop_first(), c);
        if r < 0 {
            -1
        } else {
            r + 1
        }
    }
}

/// What [`spec_find`] returns: the first index holding `c`, or a negative
/// value exactly when no index holds `c`.
pub proof fn lemma_find_props(s: Seq<char>, c: char)
    ensures
        spec_find(s, c) < s.len(),
        spec_find(s, c) >= 0 ==> s[spec_find(s, c)] == c,
        spec_find(s, c) >= 0 ==> forall|j: int| 0 <= j < spec_find(s, c) ==> s[j] != c,
        spec_find(s, c) < 0 ==> forall|j: int| 0 <= j < s.len() ==> s[j] != c,
    decreases s.len(),
{
    if s.len() == 0 {
    } else if s[0] == c {
    } else {
        let rest = s.drop_first();
        lemma_find_props(rest, c);
        if spec_find(rest, c) >= 0 {
            assert(s[spec_find(s, c)] == rest[spec_find(rest, c)]);
            assert forall|j: int| 0 <= j < spec_find(s, c) implies s[j] != c by {
                if j > 0 {
                    assert(rest[j - 1] == s[j]);
                }
            }
        } else {
            assert forall|j: int| 0 <= j < s.len() implies s[j] != c by {
                if j > 0 {
                    assert(rest[j - 1] == s[j]);
                }
            }
        }
    }
}

/// Find the first occurrence of `c` in `s` within the range `[from, to)`.
/// Returns its absolute index, or `None` when the range holds no `c`.
pub fn find_char(s: &str, from: usize, to: usize, c: char) -> (r: Option<usize>)
    requires
        from <= to <= s@.len(),
    ensures
        ({
            let k = spec_find(s@.subrange(from as int, to as int), c);
            match r {
                Some(j) => from <= j < to && k == j - from && s@[j as int] == c,
                None => k < 0,
            }
        }),
{
    let mut i = from;
    while i < to
        invariant
            from <= i <= to <= s@.len(),
            forall|j: int| from <= j < i ==> s@[j] != c,
        decreases to - i,
    {
        if s.get_char(i) == c {
            proof {
                let sub = s@.subrange(from as int, to as int);
                lemma_find_props(sub, c);
                assert(forall|j: int| 0 <= j < sub.len() ==> #[trigger] sub[j] == s@[j + from]);
                assert(sub[i - from] == c);
                let k = spec_find(sub, c);
                if k < 0 {
                    assert(sub[i - from] != c);
                } else if k < i - from {
                    assert(sub[k] == c);
                    assert(s@[k + from] == c);
                } else if k > i - from {
                    assert(sub[i - from] != c);
                }
            }
            return Some(i);
        }
        i += 1;
    }
    proof {
        let sub = s@.subrange(from as int, to as int);
        lemma_find_props(sub, c);
        assert(forall|j: int| 0 <= j < sub.len() ==> #[trigger] sub[j] == s@[j + from]);
    }
    None
}

/// Whether `c` is one of the whitespace characters stripped around keys and
/// values: space, tab, carriage return, line feed, or form feed.
pub open spec fn is_space(c: char) -> bool {
    c == ' ' || c == '\t' || c == '\r' || c == '\n' || c == '\u{000C}'
}

/// Executable twin of [`is_space`].
pub fn is_space_char(c: char) -> (r: bool)
    ensures
        r == is_space(c),
{
    c == ' ' || c == '\t' || c == '\r' || c == '\n' || c == '\u{000C}'
}

/// `s` with its leading whitespace removed.
pub open spec fn trim_front(s: Seq<char>) -> Seq<char>
    decreases s.len(),
{
    if s.len() > 0 && is_space(s[0]) {
        trim_front(s.drop_first())
    } else {
        s
    }
}

/// `s` with its trailing whitespace removed.
pub open spec fn trim_back(s: Seq<char>) -> Seq<char>
    decreases s.len(),
{
    if s.len() > 0 && is_space(s.last()) {
        trim_back(s.drop_last())
    } else {
        s
    }
}

/// `s` with both leading and trailing whitespace removed.
pub open spec fn trim_spec(s: Seq<char>) -> Seq<char> {
    trim_back(trim_front(s))
}

/// Shrink the range `[from, to)` of `s` to the subrange left after trimming
/// whitespace from both ends.
pub fn trim_range(s: &str, from: usize, to: usize) -> (r: (usize, usize))
    requires
        from <= to <= s@.len(),
    ensures
        from <= r.0 <= r.1 <= to,
        s@.subrange(r.0 as int, r.1 as int) == trim_spec(s@.subrange(from as int, to as int)),
{
    let mut a = from;
    while a < to && is_space_char(s.get_char(a))
        invariant
            from <= a <= to <= s@.len(),
            trim_front(s@.subrange(a as int, to as int)) == trim_front(
                s@.subrange(from as int, to as int),
            ),
        decreases to - a,
    {
        proof {
            let cur = s@.subrange(a as int, to as int);
            assert(cur[0] == s@[a as int]);
            assert(cur.drop_first() =~= s@.subrange(a as int + 1, to as int));
        }
        a += 1;
    }
    proof {
        let cur = s@.subrange(a as int, to as int);
        if cur.len() > 0 {
            assert(cur[0] == s@[a as int]);
        }
        assert(trim_front(cur) == cur);
    }
    let mut b = to;
    while b > a && is_space_char(s.get_char(b - 1))
        invariant
            from <= a <= b <= to <= s@.len(),
            trim_back(s@.subrange(a as int, b as int)) == trim_spec(
                s@.subrange(from as int, to as int),
            ),
        decreases b,
    {
        proof {
            let cur = s@.subrange(a as int, b as int);
            assert(cur.last() == s@[b - 1]);
            assert(cur.drop_last() =~= s@.subrange(a as int, b as int - 1));
        }
        b -= 1;
    }
    proof {
        let cur = s@.subrange(a as int, b as int);
        if cur.len() > 0 {
            assert(cur.last() == s@[b - 1]);
        }
        assert(trim_back(cur) == cur);
    }
    (a, b)
}

/// Whether the range `[from, to)` of `s` holds exactly the characters of `t`.
pub fn str_range_eq(s: &str, from: usize, to: usize, t: &str) -> (r: bool)
    requires
        from <= to <= s@.len(),
    ensures
        r == (s@.subrange(from as int, to as int) == t@),
{
    let n = t.unicode_len();
    if to - from != n {
        proof {
            assert(s@.subrange(from as int, to as int).len() != t@.len());
        }
        return false;
    }
    let mut i: usize = 0;
    while i < n
        invariant
            0 <= i <= n == t@.len(),
            from <= to <= s@.len(),
            to - from == n,
            forall|j: int| 0 <= j < i ==> s@.subrange(from as int, to as int)[j] == t@[j],
        decreases n - i,
    {
        let a = s.get_char(from + i);
        let b = t.get_char(i);
        proof {
            assert(s@.subrange(from as int, to as int)[i as int] == s@[from + i]);
        }
        if a != b {
            return false;
        }
        i += 1;
    }
    proof {
        assert(s@.subrange(from as int, to as int) =~= t@);
    }
    true
}

} // verus!
