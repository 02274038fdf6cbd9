//! Character-level text helpers shared by the transcript cleanup and the
//! notification payloads: searching, trimming, splitting into lines and
//! joining with spaces, each tied to a specification over `Seq<char>`.

use vstd::prelude::*;

verus! {

/// The whitespace characters this library trims.
pub open spec fn is_space_char(c: char) -> bool {
    c == ' ' || c == '\t' || c == '\r' || c == '\n'
}

/// Index of the first occurrence of `c` in `s`, or `s.len()` if `c` does
/// not occur.
pub open spec fn find_char_spec(s: Seq<char>, c: char) -> int
    decreases s.len(),
{
    if s.len() == 0 {
        0
    } else if s[0] == c {
        0
    } else {
        1 + find_char_spec(s.drop_first(), c)
    }
}

pub proof fn lemma_find_char_props(s: Seq<char>, c: char)
    ensures
        0 <= find_char_spec(s, c) <= s.len(),
        find_char_spec(s, c) < s.len() ==> s[find_char_spec(s, c)] == c,
        forall|j: int| 0 <= j < find_char_spec(s, c) ==> s[j] != c,
    decreases s.len(),
{
    if s.len() != 0 && s[0] != c {
        lemma_find_char_props(s.drop_first(), c);
        assert forall|j: int| 0 <= j < find_char_spec(s, c) implies s[j] != c by {
            if j > 0 {
                assert(s.drop_first()[j - 1] == s[j]);
            }
        }
    }
}

pub proof fn lemma_find_char_at(s: Seq<char>, c: char, i: int)
    requires
        0 <= i <= s.len(),
        forall|j: int| 0 <= j < i ==> s[j] != c,
        i < s.len() ==> s[i] == c,
    ensures
        find_char_spec(s, c) == i,
    decreases s.len(),
{
    if s.len() == 0 {
    } else if s[0] == c {
        assert(i == 0);
    } else {
        assert(i >= 1);
        let t = s.drop_first();
        assert forall|j: int| 0 <= j < i - 1 implies t[j] != c by {
            assert(t[j] == s[j + 1]);
        }
        assert(i - 1 < t.len() ==> t[i - 1] == c);
        lemma_find_char_at(t, c, i - 1);
    }
}

/// First index at which `c` occurs in `s`, or the character length of `s`
/// if it does not occur.
pub fn find_char(s: &str, c: char) -> (i: usize)
    ensures
        i as int == find_char_spec(s@, c),
        i <= s@.len(),
{
    let n = s.unicode_len();
    let mut i: usize = 0;
    while i < n
        invariant
            0 <= i <= n,
            n == s@.len(),
            forall|j: int| 0 <= j < i ==> s@[j] != c,
        decreases n - i,
    {
        if s.get_char(i) == c {
            proof {
                lemma_find_char_at(s@, c, i as int);
            }
            return i;
        }
        i = i + 1;
    }
    proof {
        lemma_find_char_at(s@, c, n as int);
    }
    n
}

/// Whether `c` is one of the whitespace characters this library trims.
pub fn is_space(c: char) -> (b: bool)
    ensures
        b == is_space_char(c),
{
    c == ' ' || c == '\t' || c == '\r' || c == '\n'
}

/// Number of whitespace characters at the front of `s`.
pub open spec fn ws_prefix_len(s: Seq<char>) -> int
    decreases s.len(),
{
    if s.len() == 0 {
        0
    } else if !is_space_char(s[0]) {
        0
    } else {
        1 + ws_prefix_len(s.drop_first())
    }
}

/// Number of whitespace characters at the back of `s`.
pub open spec fn ws_suffix_len(s: Seq<char>) -> int
    decreases s.len(),
{
    if s.len() == 0 {
        0
    } else if !is_space_char(s[s.len() - 1]) {
        0
    } else {
        1 + ws_suffix_len(s.drop_last())
    }
}

/// `s` with leading and trailing whitespace removed.
pub open spec fn trim_spec(s: Seq<char>) -> Seq<char> {
    let a = ws_prefix_len(s);
    let b = s.len() - ws_suffix_len(s);
    if a <= b {
        s.subrange(a, b)
    } else {
        Seq::empty()
    }
}

pub proof fn lemma_ws_prefix_at(s: Seq<char>, i: int)
    requires
        0 <= i <= s.len(),
        forall|j: int| 0 <= j < i ==> is_space_char(s[j]),
        i < s.len() ==> !is_space_char(s[i]),
    ensures
        ws_prefix_len(s) == i,
    decreases s.len(),
{
    if s.len() == 0 {
    } else if !is_space_char(s[0]) {
        assert(i == 0);
    } else {
        assert(i >= 1) by {
            if i == 0 {
                assert(!is_space_char(s[0]));
            }
        }
        let t = s.drop_first();
        assert forall|j: int| 0 <= j < i - 1 implies is_space_char(t[j]) by {
            assert(t[j] == s[j + 1]);
        }
        assert(i - 1 < t.len() ==> t[i - 1] == s[i]);
        lemma_ws_prefix_at(t, i - 1);
    }
}

pub proof fn lemma_ws_suffix_at(s: Seq<char>, k: int)
    requires
        0 <= k <= s.len(),
        forall|j: int| s.len() - k <= j < s.len() ==> is_space_char(s[j]),
        k < s.len() ==> !is_space_char(s[s.len() - k - 1]),
    ensures
        ws_suffix_len(s) == k,
    decreases s.len(),
{
    if s.len() == 0 {
    } else if !is_space_char(s[s.len() - 1]) {
        assert(k == 0) by {
            if k > 0 {
                assert(is_space_char(s[s.len() - 1]));
            }
        }
    } else {
        assert(k >= 1) by {
            if k == 0 {
                assert(!is_space_char(s[s.len() - 1]));
            }
        }
        let t = s.drop_last();
        assert forall|j: int| t.len() - (k - 1) <= j < t.len() implies is_space_char(t[j]) by {
            assert(t[j] == s[j]);
        }
        assert(k - 1 < t.len() ==> t[t.len() - (k - 1) - 1] == s[s.len() - k - 1]);
        lemma_ws_suffix_at(t, k - 1);
    }
}

/// `s` with leading and trailing whitespace removed.
pub fn trim(s: &str) -> (r: &str)
    ensures
        r@ == trim_spec(s@),
{
    let n = s.unicode_len();
    let mut a: usize = 0;
    while a < n
        invariant
            0 <= a <= n,
            n == s@.len(),
            forall|j: int| 0 <= j < a ==> is_space_char(s@[j]),
        ensures
            0 <= a <= n,
            forall|j: int| 0 <= j < a ==> is_space_char(s@[j]),
            a < n ==> !is_space_char(s@[a as int]),
        decreases n - a,
    {
        if !is_space(s.get_char(a)) {
            break;
        }
        a = a + 1;
    }
    let mut b: usize = n;
    while b > a
        invariant
            a <= b <= n,
            n == s@.len(),
            forall|j: int| b <= j < n ==> is_space_char(s@[j]),
        ensures
            a <= b <= n,
            forall|j: int| b <= j < n ==> is_space_char(s@[j]),
            b > a ==> !is_space_char(s@[b - 1]),
        decreases b,
    {
        if !is_space(s.get_char(b - 1)) {
            break;
        }
        b = b - 1;
    }
    proof {
        if a == n {
            lemma_ws_prefix_at(s@, n as int);
            lemma_ws_suffix_at(s@, n as int);
        } else {
            assert(b > a) by {
                if b == a {
                    assert(is_space_char(s@[a as int]));
                }
            }
            lemma_ws_prefix_at(s@, a as int);
            lemma_ws_suffix_at(s@, n - b);
        }
    }
    s.substring_char(a, b)
}

/// `s` split at line feeds: no lines for the empty text, and a final
/// line feed does not open an empty last line.
pub open spec fn split_lines_spec(s: Seq<char>) -> Seq<Seq<char>>
    decreases s.len(),
{
    if s.len() == 0 {
        Seq::empty()
    } else {
        let i = find_char_spec(s, '\n');
        if !(0 <= i < s.len()) {
            seq![s]
        } else {
            seq![s.subrange(0, i)] + split_lines_spec(s.subrange(i + 1, s.len() as int))
        }
    }
}

/// The parts joined with a single space between consecutive parts.
pub open spec fn join_spaced(parts: Seq<Seq<char>>) -> Seq<char>
    decreases parts.len(),
{
    if parts.len() == 0 {
        Seq::empty()
    } else if parts.len() == 1 {
        parts[0]
    } else {
        parts[0] + seq![' '] + join_spaced(parts.drop_first())
    }
}

/// Appending one part to a non-empty part list appends one space and
/// the part to the joined text.
pub proof fn lemma_join_spaced_push(parts: Seq<Seq<char>>, x: Seq<char>)
    ensures
        parts.len() == 0 ==> join_spaced(parts.push(x)) == x,
        parts.len() > 0 ==> join_spaced(parts.push(x)) == join_spaced(parts) + seq![' '] + x,
    decreases parts.len(),
{
    let p = parts.push(x);
    if parts.len() == 0 {
        assert(p.len() == 1);
        assert(p[0] == x);
    } else if parts.len() == 1 {
        assert(p.len() == 2);
        assert(p[0] == parts[0]);
        assert(p.drop_first() =~= seq![x]);
        assert(join_spaced(p.drop_first()) == x);
    } else {
        lemma_join_spaced_push(parts.drop_first(), x);
        assert(p.drop_first() =~= parts.drop_first().push(x));
        assert(join_spaced(p) == p[0] + seq![' '] + join_spaced(parts.drop_first().push(x)));
        assert(p[0] == parts[0]);
        assert(join_spaced(parts) + seq![' '] + x =~= parts[0] + seq![' '] + (join_spaced(
            parts.drop_first(),
        ) + seq![' '] + x));
    }
}

/// The views of a list of owned strings.
pub open spec fn views_of(v: Seq<String>) -> Seq<Seq<char>> {
    v.map_values(|l: String| l@)
}

/// Split `s` at line feeds, as `split_lines_spec` describes.
pub fn split_lines(s: &str) -> (lines: Vec<String>)
    ensures
        views_of(lines@) == split_lines_spec(s@),
{
    let n = s.unicode_len();
    let mut lines: Vec<String> = Vec::new();
    let mut pos: usize = 0;
    proof {
        assert(s@.subrange(0, n as int) =~= s@);
        assert(views_of(lines@) =~= Seq::<Seq<char>>::empty());
        assert(views_of(lines@) + split_lines_spec(s@) =~= split_lines_spec(s@));
    }
    while pos < n
        invariant
            0 <= pos <= n,
            n == s@.len(),
            split_lines_spec(s@) == views_of(lines@) + split_lines_spec(
                s@.subrange(pos as int, n as int),
            ),
        decreases n - pos,
    {
        let rest = s.substring_char(pos, n);
        let rest_len = n - pos;
        proof {
            lemma_find_char_props(rest@, '\n');
        }
        let i = find_char(rest, '\n');
        let ghost prev_lines = lines@;
        if i == rest_len {
            lines.push(String::from_str(rest));
            proof {
                assert(split_lines_spec(rest@) == seq![rest@]);
                assert(views_of(lines@) =~= views_of(prev_lines).push(rest@));
                assert(views_of(lines@) + split_lines_spec(s@.subrange(n as int, n as int))
                    =~= views_of(prev_lines) + split_lines_spec(s@.subrange(pos as int, n as int)));
            }
            pos = n;
        } else {
            let piece = rest.substring_char(0, i);
            lines.push(String::from_str(piece));
            proof {
                assert(piece@ == rest@.subrange(0, i as int));
                assert(rest@.subrange(i + 1, rest@.len() as int) =~= s@.subrange(
                    pos + i + 1,
                    n as int,
                ));
                assert(split_lines_spec(rest@) == seq![piece@] + split_lines_spec(
                    s@.subrange(pos + i + 1, n as int),
                ));
                assert(views_of(lines@) =~= views_of(prev_lines).push(piece@));
                assert(views_of(lines@) + split_lines_spec(s@.subrange(pos + i + 1, n as int))
                    =~= views_of(prev_lines) + split_lines_spec(s@.subrange(pos as int, n as int)));
            }
            pos = pos + i + 1;
        }
    }
    proof {
        assert(split_lines_spec(s@.subrange(n as int, n as int)) == Seq::<Seq<char>>::empty());
        assert(views_of(lines@) + Seq::<Seq<char>>::empty() =~= views_of(lines@));
    }
    lines
}

/// Whether `needle` occurs in `hay` starting at index `i`.
pub open spec fn contains_at(hay: Seq<char>, needle: Seq<char>, i: int) -> bool {
    0 <= i && i + needle.len() <= hay.len() && hay.subrange(i, i + needle.len()) == needle
}

/// Whether `needle` occurs anywhere in `hay`.
pub open spec fn seq_contains(hay: Seq<char>, needle: Seq<char>) -> bool {
    exists|i: int| contains_at(hay, needle, i)
}

/// Whether `needle` occurs in `hay`.
pub fn str_contains(hay: &str, needle: &str) -> (b: bool)
    ensures
        b == seq_contains(hay@, needle@),
{
    let hl = hay.unicode_len();
    let nl = needle.unicode_len();
    if nl > hl {
        proof {
            assert forall|i: int| !contains_at(hay@, needle@, i) by {}
        }
        return false;
    }
    let mut i: usize = 0;
    while i <= hl - nl
        invariant
            nl <= hl,
            hl == hay@.len(),
            nl == needle@.len(),
            0 <= i <= hl - nl + 1,
            forall|q: int| 0 <= q < i ==> !contains_at(hay@, needle@, q),
        decreases hl - nl + 1 - i,
    {
        let mut j: usize = 0;
        let mut ok = true;
        while j < nl
            invariant
                0 <= j <= nl,
                hl == hay@.len(),
                nl == needle@.len(),
                i + nl <= hl,
                ok ==> forall|q: int| 0 <= q < j ==> hay@[i + q] == needle@[q],
                !ok ==> exists|q: int| 0 <= q < nl && hay@[i + q] != needle@[q],
            decreases nl - j,
        {
            if hay.get_char(i + j) != needle.get_char(j) {
                proof {
                    assert(hay@[i + j] != needle@[j as int]);
                }
                ok = false;
            }
            j = j + 1;
        }
        if ok {
            proof {
                assert(hay@.subrange(i as int, i + nl) =~= needle@);
                assert(contains_at(hay@, needle@, i as int));
            }
            return true;
        }
        proof {
            let q = choose|q: int| 0 <= q < nl && hay@[i + q] != needle@[q];
            assert(hay@.subrange(i as int, i + nl)[q] == hay@[i + q]);
            assert(!contains_at(hay@, needle@, i as int));
        }
        i = i + 1;
    }
    proof {
        assert forall|q: int| !contains_at(hay@, needle@, q) by {
            if 0 <= q && q + needle@.len() <= hay@.len() {
                assert(q < i);
            }
        }
    }
    false
}

/// `s` split at every occurrence of `c`: the empty text is one empty
/// piece, and a trailing separator opens an empty last piece.
pub open spec fn split_all_spec(s: Seq<char>, c: char) -> Seq<Seq<char>>
    decreases s.len(),
{
    let i = find_char_spec(s, c);
    if !(0 <= i < s.len()) {
        seq![s]
    } else {
        seq![s.subrange(0, i)] + split_all_spec(s.subrange(i + 1, s.len() as int), c)
    }
}

/// Split `s` at every occurrence of `c`, as `split_all_spec` describes.
pub fn split_all(s: &str, c: char) -> (pieces: Vec<String>)
    ensures
        views_of(pieces@) == split_all_spec(s@, c),
{
    let n = s.unicode_len();
    let mut pieces: Vec<String> = Vec::new();
    let mut pos: usize = 0;
    proof {
        assert(s@.subrange(0, n as int) =~= s@);
        assert(views_of(pieces@) =~= Seq::<Seq<char>>::empty());
        assert(views_of(pieces@) + split_all_spec(s@, c) =~= split_all_spec(s@, c));
    }
    loop
        invariant_except_break
            0 <= pos <= n,
            n == s@.len(),
            split_all_spec(s@, c) == views_of(pieces@) + split_all_spec(
                s@.subrange(pos as int, n as int),
                c,
            ),
        ensures
            views_of(pieces@) == split_all_spec(s@, c),
        decreases n - pos,
    {
        let rest = s.substring_char(pos, n);
        let rest_len = n - pos;
        proof {
            lemma_find_char_props(rest@, c);
        }
        let i = find_char(rest, c);
        let ghost prev = pieces@;
        if i == rest_len {
            pieces.push(String::from_str(rest));
            proof {
                assert(split_all_spec(rest@, c) == seq![rest@]);
                assert(views_of(pieces@) =~= views_of(prev).push(rest@));
                assert(views_of(pieces@) =~= views_of(prev) + split_all_spec(
                    s@.subrange(pos as int, n as int),
                    c,
                ));
            }
            break;
        } else {
            let piece = rest.substring_char(0, i);
            pieces.push(String::from_str(piece));
            proof {
                assert(piece@ == rest@.subrange(0, i as int));
                assert(rest@.subrange(i + 1, rest@.len() as int) =~= s@.subrange(
                    pos + i + 1,
                    n as int,
                ));
                assert(split_all_spec(rest@, c) == seq![piece@] + split_all_spec(
                    s@.subrange(pos + i + 1, n as int),
                    c,
                ));
                assert(views_of(pieces@) =~= views_of(prev).push(piece@));
                assert(views_of(pieces@) + split_all_spec(s@.subrange(pos + i + 1, n as int), c)
                    =~= views_of(prev) + split_all_spec(s@.subrange(pos as int, n as int), c));
            }
            pos = pos + i + 1;
        }
    }
    pieces
}

/// Whether two string slices hold the same characters.
pub fn str_eq(a: &str, b: &str) -> (r: bool)
    ensures
        r == (a@ == b@),
{
    let na = a.unicode_len();
    let nb = b.unicode_len();
    if na != nb {
        return false;
    }
    let mut i: usize = 0;
    while i < na
        invariant
            0 <= i <= na,
            na == a@.len(),
            na == b@.len(),
            forall|j: int| 0 <= j < i ==> a@[j] == b@[j],
        decreases na - i,
    {
        if a.get_char(i) != b.get_char(i) {
            return false;
        }
        i = i + 1;
    }
    proof {
        assert(a@ =~= b@);
    }
    true
}

} // verus!
