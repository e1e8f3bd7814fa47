//! Verified string utilities: lexicographic order over character
//! sequences, substring search, the final segment of a `/`-separated
//! path, and right-padding for table columns.

use vstd::prelude::*;

verus! {

/// `a` is lexicographically at most `b`, comparing scalar values.
pub open spec fn lex_le(a: Seq<char>, b: Seq<char>) -> bool
    decreases a.len(),
{
    if a.len() == 0 {
        true
    } else if b.len() == 0 {
        false
    } else if (a[0] as int) < (b[0] as int) {
        true
    } else if (a[0] as int) > (b[0] as int) {
        false
    } else {
        lex_le(a.skip(1), b.skip(1))
    }
}

/// Any two sequences are ordered one way or the other.
pub proof fn lemma_lex_le_total(a: Seq<char>, b: Seq<char>)
    ensures
        lex_le(a, b) || lex_le(b, a),
    decreases a.len(),
{
    if a.len() == 0 || b.len() == 0 {
    } else if (a[0] as int) == (b[0] as int) {
        lemma_lex_le_total(a.skip(1), b.skip(1));
    }
}

/// Two sequences each at most the other are equal.
pub proof fn lemma_lex_le_antisymmetric(a: Seq<char>, b: Seq<char>)
    requires
        lex_le(a, b),
        lex_le(b, a),
    ensures
        a == b,
    decreases a.len(),
{
    if a.len() == 0 {
        assert(b.len() == 0);
        assert(a =~= b);
    } else {
        assert(b.len() != 0);
        let x = a[0] as int;
        let y = b[0] as int;
        if x < y {
            assert(!lex_le(b, a));
        }
        if y < x {
            assert(!lex_le(a, b));
        }
        assert(x == y);
        assert(a[0] == b[0]);
        lemma_lex_le_antisymmetric(a.skip(1), b.skip(1));
        assert(a =~= seq![a[0]] + a.skip(1));
        assert(b =~= seq![b[0]] + b.skip(1));
    }
}

/// The order is transitive.
pub proof fn lemma_lex_le_transitive(a: Seq<char>, b: Seq<char>, c: Seq<char>)
    requires
        lex_le(a, b),
        lex_le(b, c),
    ensures
        lex_le(a, c),
    decreases a.len(),
{
    if a.len() == 0 || b.len() == 0 || c.len() == 0 {
    } else if (a[0] as int) == (b[0] as int) && (b[0] as int) == (c[0] as int) {
        lemma_lex_le_transitive(a.skip(1), b.skip(1), c.skip(1));
    }
}

/// Decides `lex_le` over two string slices.
pub fn str_lex_le(a: &str, b: &str) -> (r: bool)
    ensures
        r == lex_le(a@, b@),
{
    let a_len: usize = a.unicode_len();
    let b_len: usize = b.unicode_len();
    let mut i: usize = 0;
    proof {
        assert(a@.skip(0) =~= a@);
        assert(b@.skip(0) =~= b@);
    }
    loop
        invariant
            0 <= i <= a_len,
            i <= b_len,
            a_len == a@.len(),
            b_len == b@.len(),
            lex_le(a@, b@) == lex_le(a@.skip(i as int), b@.skip(i as int)),
            lex_le(b@, a@) == lex_le(b@.skip(i as int), a@.skip(i as int)),
        decreases a_len - i,
    {
        if i == a_len {
            assert(a@.skip(i as int).len() == 0);
            return true;
        }
        if i == b_len {
            assert(b@.skip(i as int).len() == 0);
            assert(a@.skip(i as int).len() > 0);
            return false;
        }
        let ca = a.get_char(i);
        let cb = b.get_char(i);
        if (ca as u32) < (cb as u32) {
            assert(a@.skip(i as int)[0] == ca);
            assert(b@.skip(i as int)[0] == cb);
            return true;
        }
        if (ca as u32) > (cb as u32) {
            assert(a@.skip(i as int)[0] == ca);
            assert(b@.skip(i as int)[0] == cb);
            return false;
        }
        proof {
            assert(a@.skip(i as int)[0] == ca);
            assert(b@.skip(i as int)[0] == cb);
            assert(a@.skip(i as int).skip(1) =~= a@.skip(i + 1));
            assert(b@.skip(i as int).skip(1) =~= b@.skip(i + 1));
        }
        i = i + 1;
    }
}

/// Decides equality of two string slices.
pub fn str_eq(a: &str, b: &str) -> (r: bool)
    ensures
        r == (a@ == b@),
{
    let a_len: usize = a.unicode_len();
    let b_len: usize = b.unicode_len();
    if a_len != b_len {
        return false;
    }
    let mut i: usize = 0;
    while i < a_len
        invariant
            0 <= i <= a_len,
            a_len == a@.len(),
            a_len == b@.len(),
            forall|j: int| 0 <= j < i ==> a@[j] == b@[j],
        decreases a_len - i,
    {
        if a.get_char(i) != b.get_char(i) {
            assert(a@[i as int] != b@[i as int]);
            return false;
        }
        i = i + 1;
    }
    proof {
        assert(a@ =~= b@);
    }
    true
}

/// `needle` occurs in `hay` starting at position `i`.
pub open spec fn occurs_at(hay: Seq<char>, needle: Seq<char>, i: int) -> bool {
    0 <= i && i + needle.len() <= hay.len() && hay.subrange(i, i + needle.len()) == needle
}

/// `needle` occurs somewhere in `hay`.
pub open spec fn contains_seq(hay: Seq<char>, needle: Seq<char>) -> bool {
    exists|i: int| occurs_at(hay, needle, i)
}

/// Decides whether `needle` occurs in `hay`.
pub fn str_contains(hay: &str, needle: &str) -> (r: bool)
    ensures
        r == contains_seq(hay@, needle@),
{
    let h_len: usize = hay.unicode_len();
    let n_len: usize = needle.unicode_len();
    if n_len > h_len {
        assert(forall|i: int| !occurs_at(hay@, needle@, i));
        return false;
    }
    let mut i: usize = 0;
    loop
        invariant
            0 <= i <= h_len - n_len + 1,
            n_len <= h_len,
            h_len == hay@.len(),
            n_len == needle@.len(),
            forall|k: int| 0 <= k < i ==> !occurs_at(hay@, needle@, k),
        decreases h_len - n_len + 1 - i,
    {
        if i > h_len - n_len {
            assert(forall|k: int| !occurs_at(hay@, needle@, k));
            return false;
        }
        let mut j: usize = 0;
        let mut matches: bool = true;
        while j < n_len
            invariant
                0 <= j <= n_len,
                i + n_len <= h_len,
                h_len == hay@.len(),
                n_len == needle@.len(),
                matches == (forall|m: int| 0 <= m < j ==> hay@[i + m] == needle@[m]),
            decreases n_len - j,
        {
            let ch = hay.get_char(i + j);
            let cn = needle.get_char(j);
            if ch != cn {
                matches = false;
                assert(hay@[i + j as int] != needle@[j as int]);
                assert(!(forall|m: int| 0 <= m < j + 1 ==> hay@[i + m] == needle@[m]));
                j = n_len;
            } else {
                assert(matches ==> forall|m: int| 0 <= m < j + 1 ==> hay@[i + m] == needle@[m]);
                j = j + 1;
            }
        }
        if matches {
            assert(occurs_at(hay@, needle@, i as int)) by {
                assert(hay@.subrange(i as int, i + n_len) =~= needle@);
            }
            return true;
        } else {
            assert(!occurs_at(hay@, needle@, i as int)) by {
                if hay@.subrange(i as int, i + n_len) == needle@ {
                    assert(forall|m: int| 0 <= m < n_len ==> hay@[i + m] == needle@[m]) by {
                        assert(forall|m: int| 0 <= m < n_len ==> needle@[m] == hay@.subrange(
                            i as int,
                            i + n_len,
                        )[m]);
                    }
                }
            }
        }
        i = i + 1;
    }
}

/// What follows the final `/` of `s`; all of `s` when it has none.
pub open spec fn last_segment(s: Seq<char>) -> Seq<char>
    decreases s.len(),
{
    if s.len() == 0 {
        s
    } else if s[s.len() - 1] == '/' {
        Seq::empty()
    } else {
        last_segment(s.take(s.len() - 1)) + seq![s[s.len() - 1]]
    }
}

proof fn lemma_last_segment_suffix(s: Seq<char>, k: int)
    requires
        0 <= k <= s.len(),
        forall|j: int| k <= j < s.len() ==> s[j] != '/',
        k == 0 || s[k - 1] == '/',
    ensures
        last_segment(s) == s.subrange(k, s.len() as int),
    decreases s.len(),
{
    if s.len() == 0 {
        assert(last_segment(s) =~= s.subrange(0, 0));
    } else if s[s.len() - 1] == '/' {
        assert(k == s.len());
        assert(last_segment(s) =~= s.subrange(k, s.len() as int));
    } else {
        assert(k < s.len());
        let t = s.take(s.len() - 1);
        lemma_last_segment_suffix(t, k);
        assert(t.subrange(k, t.len() as int) + seq![s[s.len() - 1]] =~= s.subrange(
            k,
            s.len() as int,
        )) by {
            assert(forall|j: int| 0 <= j < t.len() ==> t[j] == s[j]);
        }
    }
}

/// Returns the text after the final `/` of `s` (all of `s` if none).
pub fn str_last_segment(s: &str) -> (r: String)
    ensures
        r@ == last_segment(s@),
{
    let len: usize = s.unicode_len();
    let mut k: usize = len;
    loop
        invariant
            0 <= k <= len,
            len == s@.len(),
            forall|j: int| k <= j < len ==> s@[j] != '/',
        decreases k,
    {
        if k == 0 {
            proof {
                lemma_last_segment_suffix(s@, 0);
            }
            let seg = s.substring_char(0, len);
            return seg.to_owned();
        }
        let c = s.get_char(k - 1);
        if c == '/' {
            proof {
                lemma_last_segment_suffix(s@, k as int);
            }
            let seg = s.substring_char(k, len);
            return seg.to_owned();
        }
        k = k - 1;
    }
}

/// `n` spaces.
pub open spec fn spaces(n: nat) -> Seq<char>
    decreases n,
{
    if n == 0 {
        Seq::empty()
    } else {
        spaces((n - 1) as nat) + seq![' ']
    }
}

/// Pads `s` with spaces on the right out to width `w`; a value already
/// that wide comes back unchanged.
pub fn pad_right(s: &String, w: usize) -> (r: String)
    ensures
        s@.len() >= w ==> r@ == s@,
        s@.len() < w ==> r@ == s@ + spaces((w - s@.len()) as nat),
{
    let len: usize = s.as_str().unicode_len();
    let mut r = s.clone();
    if len >= w {
        assert(r@ =~= s@ + spaces(0));
        return r;
    }
    let mut i: usize = len;
    while i < w
        invariant
            len <= i <= w,
            len == s@.len(),
            r@ == s@ + spaces((i - len) as nat),
        decreases w - i,
    {
        r.append(" ");
        proof {
            reveal_strlit(" ");
            assert(s@ + spaces((i - len) as nat) + " "@ =~= s@ + spaces((i + 1 - len) as nat));
        }
        i = i + 1;
    }
    r
}

} // verus!
