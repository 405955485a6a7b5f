use vstd::prelude::*;

use crate::text::{chars_of, opt_view, push_chars, string_of};

verus! {

/// Blank characters around the parts of a `Link` header.
pub open spec fn is_blank(c: char) -> bool {
    c == ' ' || c == '\t'
}

/// `s` without its leading blanks.
pub open spec fn trim_start(s: Seq<char>) -> Seq<char>
    decreases s.len(),
{
    if s.len() > 0 && is_blank(s[0]) {
        trim_start(s.drop_first())
    } else {
        s
    }
}

/// `s` without its trailing blanks.
pub open spec fn trim_end(s: Seq<char>) -> Seq<char>
    decreases s.len(),
{
    if s.len() > 0 && is_blank(s.last()) {
        trim_end(s.drop_last())
    } else {
        s
    }
}

/// `s` without blanks at either end.
pub open spec fn trim(s: Seq<char>) -> Seq<char> {
    trim_end(trim_start(s))
}

/// The pieces of `s` between the occurrences of `sep`; there is always one
/// more piece than there are separators.
pub open spec fn split(s: Seq<char>, sep: char) -> Seq<Seq<char>>
    decreases s.len(),
{
    if s.len() == 0 {
        seq![Seq::empty()]
    } else if s[0] == sep {
        seq![Seq::<char>::empty()] + split(s.drop_first(), sep)
    } else {
        let rest = split(s.drop_first(), sep);
        rest.update(0, seq![s[0]] + rest[0])
    }
}

/// The index of the first `c` in `s`.
pub open spec fn find(s: Seq<char>, c: char) -> Option<int>
    decreases s.len(),
{
    if s.len() == 0 {
        None
    } else if s[0] == c {
        Some(0)
    } else {
        match find(s.drop_first(), c) {
            Some(i) => Some(i + 1),
            None => None,
        }
    }
}

/// Whether a parameter, blanks removed, names the relation `rel`, quoted or not.
pub open spec fn is_rel_param(p: Seq<char>, rel: Seq<char>) -> bool {
    p == "rel=\""@ + rel + "\""@ || p == "rel="@ + rel
}

/// Whether one of the parameters names the relation `rel`.
pub open spec fn any_rel(params: Seq<Seq<char>>, rel: Seq<char>) -> bool
    decreases params.len(),
{
    params.len() > 0 && (is_rel_param(trim(params[0]), rel) || any_rel(params.drop_first(), rel))
}

/// The URL of one entry `<url>; param; ...` of a `Link` header when one of
/// its parameters names the relation `rel`; nothing for another relation or
/// a malformed entry.
pub open spec fn entry_target(e: Seq<char>, rel: Seq<char>) -> Option<Seq<char>> {
    let t = trim(e);
    if t.len() > 0 && t[0] == '<' {
        match find(t, '>') {
            Some(j) => if any_rel(split(t.subrange(j + 1, t.len() as int), ';'), rel) {
                Some(t.subrange(1, j))
            } else {
                None
            },
            None => None,
        }
    } else {
        None
    }
}

/// The URL of the first of the entries that has the relation `rel`.
pub open spec fn first_target(entries: Seq<Seq<char>>, rel: Seq<char>) -> Option<Seq<char>>
    decreases entries.len(),
{
    if entries.len() == 0 {
        None
    } else {
        match entry_target(entries[0], rel) {
            Some(u) => Some(u),
            None => first_target(entries.drop_first(), rel),
        }
    }
}

/// The URL that a `Link` header gives for the relation `rel`: that of its
/// first comma-separated entry with that relation.
pub open spec fn rel_target(header: Seq<char>, rel: Seq<char>) -> Option<Seq<char>> {
    first_target(split(header, ','), rel)
}

proof fn lemma_split_at(s: Seq<char>, sep: char, j: int)
    requires
        0 <= j <= s.len(),
        forall|k: int| 0 <= k < j ==> s[k] != sep,
        j < s.len() ==> s[j] == sep,
    ensures
        j < s.len() ==> split(s, sep) == seq![s.subrange(0, j)] + split(
            s.subrange(j + 1, s.len() as int),
            sep,
        ),
        j == s.len() ==> split(s, sep) == seq![s],
    decreases j,
{
    if s.len() == 0 {
        assert(s =~= Seq::<char>::empty());
    } else if j == 0 {
        assert(s.subrange(0, 0) =~= Seq::<char>::empty());
        assert(s.subrange(1, s.len() as int) =~= s.drop_first());
    } else {
        let t = s.drop_first();
        assert forall|k: int| 0 <= k < j - 1 implies t[k] != sep by {
            assert(t[k] == s[k + 1]);
        }
        lemma_split_at(t, sep, j - 1);
        let rest = split(t, sep);
        if j < s.len() {
            assert(t.subrange(j, t.len() as int) =~= s.subrange(j + 1, s.len() as int));
            assert(seq![s[0]] + t.subrange(0, j - 1) =~= s.subrange(0, j));
            assert(rest.update(0, seq![s[0]] + rest[0]) =~= seq![s.subrange(0, j)] + split(
                s.subrange(j + 1, s.len() as int),
                sep,
            ));
        } else {
            assert(seq![s[0]] + t =~= s);
            assert(rest.update(0, seq![s[0]] + rest[0]) =~= seq![s]);
        }
    }
}

pub(crate) proof fn lemma_find_at(s: Seq<char>, c: char, j: int)
    requires
        0 <= j <= s.len(),
        forall|k: int| 0 <= k < j ==> s[k] != c,
        j < s.len() ==> s[j] == c,
    ensures
        find(s, c) == (if j < s.len() {
            Some(j)
        } else {
            None
        }),
    decreases j,
{
    if s.len() > 0 && j > 0 {
        let t = s.drop_first();
        assert forall|k: int| 0 <= k < j - 1 implies t[k] != c by {
            assert(t[k] == s[k + 1]);
        }
        lemma_find_at(t, c, j - 1);
    }
}

/// The first index in `[from, to)` that holds `c`, or `to`.
pub(crate) fn find_in(s: &[char], from: usize, to: usize, c: char) -> (j: usize)
    requires
        from <= to <= s@.len(),
    ensures
        from <= j <= to,
        forall|k: int| from <= k < j ==> s@[k] != c,
        j < to ==> s@[j as int] == c,
{
    let mut j = from;
    while j < to && s[j] != c
        invariant
            from <= j <= to <= s@.len(),
            forall|k: int| from <= k < j ==> s@[k] != c,
        decreases to - j,
    {
        j = j + 1;
    }
    j
}

/// The bounds of the part of `s[lo..hi]` left when blanks are removed at
/// both ends.
fn trim_range(s: &[char], lo: usize, hi: usize) -> (r: (usize, usize))
    requires
        lo <= hi <= s@.len(),
    ensures
        lo <= r.0 <= r.1 <= hi,
        s@.subrange(r.0 as int, r.1 as int) == trim(s@.subrange(lo as int, hi as int)),
{
    let mut a = lo;
    while a < hi && (s[a] == ' ' || s[a] == '\t')
        invariant
            lo <= a <= hi <= s@.len(),
            trim_start(s@.subrange(lo as int, hi as int)) == trim_start(
                s@.subrange(a as int, hi as int),
            ),
        decreases hi - a,
    {
        assert(s@.subrange(a as int, hi as int).drop_first() =~= s@.subrange(
            a + 1,
            hi as int,
        ));
        a = a + 1;
    }
    let mut b = hi;
    while b > a && (s[b - 1] == ' ' || s[b - 1] == '\t')
        invariant
            lo <= a <= b <= hi <= s@.len(),
            trim(s@.subrange(lo as int, hi as int)) == trim_end(s@.subrange(a as int, b as int)),
        decreases b - a,
    {
        assert(s@.subrange(a as int, b as int).drop_last() =~= s@.subrange(
            a as int,
            b - 1,
        ));
        b = b - 1;
    }
    (a, b)
}

/// Whether `s[lo..hi]` holds exactly the characters of `pat`.
pub(crate) fn range_eq(s: &[char], lo: usize, hi: usize, pat: &[char]) -> (r: bool)
    requires
        lo <= hi <= s@.len(),
    ensures
        r == (s@.subrange(lo as int, hi as int) == pat@),
{
    if hi - lo != pat.len() {
        return false;
    }
    let mut i: usize = 0;
    while i < pat.len()
        invariant
            i <= pat@.len(),
            hi - lo == pat@.len(),
            lo <= hi <= s@.len(),
            forall|k: int| 0 <= k < i ==> s@[lo + k] == pat@[k],
        decreases pat@.len() - i,
    {
        if s[lo + i] != pat[i] {
            assert(s@.subrange(lo as int, hi as int)[i as int] != pat@[i as int]);
            return false;
        }
        i = i + 1;
    }
    assert(s@.subrange(lo as int, hi as int) =~= pat@);
    true
}

/// Whether a parameter in `s[from..to]`, split at `;`, names the relation
/// whose two accepted spellings are `quoted` and `bare`.
fn has_rel(s: &[char], from: usize, to: usize, quoted: &[char], bare: &[char], Ghost(
    rel,
): Ghost<Seq<char>>) -> (r: bool)
    requires
        from <= to <= s@.len(),
        quoted@ == "rel=\""@ + rel + "\""@,
        bare@ == "rel="@ + rel,
    ensures
        r == any_rel(split(s@.subrange(from as int, to as int), ';'), rel),
{
    let mut start = from;
    loop
        invariant
            from <= start <= to <= s@.len(),
            quoted@ == "rel=\""@ + rel + "\""@,
            bare@ == "rel="@ + rel,
            any_rel(split(s@.subrange(from as int, to as int), ';'), rel) == any_rel(
                split(s@.subrange(start as int, to as int), ';'),
                rel,
            ),
        decreases to - start,
    {
        let k = find_in(s, start, to, ';');
        let ghost piece = s@.subrange(start as int, to as int);
        proof {
            assert forall|i: int| 0 <= i < k - start implies piece[i] != ';' by {
                assert(piece[i] == s@[start + i]);
            }
            lemma_split_at(piece, ';', k - start);
            assert(piece.subrange(0, k - start) =~= s@.subrange(start as int, k as int));
        }
        let (a, b) = trim_range(s, start, k);
        let hit = range_eq(s, a, b, quoted) || range_eq(s, a, b, bare);
        if hit {
            return true;
        }
        if k == to {
            proof {
                assert(seq![piece].drop_first() =~= Seq::<Seq<char>>::empty());
                assert(piece =~= s@.subrange(start as int, k as int));
                assert(!any_rel(Seq::<Seq<char>>::empty(), rel));
            }
            return false;
        }
        proof {
            let rest = split(piece.subrange(k - start + 1, piece.len() as int), ';');
            assert(piece.subrange(k - start + 1, piece.len() as int) =~= s@.subrange(
                k + 1,
                to as int,
            ));
            assert((seq![piece.subrange(0, k - start)] + rest).drop_first() =~= rest);
        }
        start = k + 1;
    }
}

/// The URL of the entry in `s[lo..hi]` when it has the relation.
fn entry_in(s: &[char], lo: usize, hi: usize, quoted: &[char], bare: &[char], Ghost(
    rel,
): Ghost<Seq<char>>) -> (r: Option<(usize, usize)>)
    requires
        lo <= hi <= s@.len(),
        quoted@ == "rel=\""@ + rel + "\""@,
        bare@ == "rel="@ + rel,
    ensures
        match r {
            Some((a, b)) => a <= b <= s@.len() && entry_target(
                s@.subrange(lo as int, hi as int),
                rel,
            ) == Some(s@.subrange(a as int, b as int)),
            None => entry_target(s@.subrange(lo as int, hi as int), rel) is None,
        },
{
    let (a, b) = trim_range(s, lo, hi);
    let ghost t = s@.subrange(a as int, b as int);
    if a == b || s[a] != '<' {
        return None;
    }
    let j = find_in(s, a, b, '>');
    proof {
        assert forall|i: int| 0 <= i < j - a implies t[i] != '>' by {
            assert(t[i] == s@[a + i]);
        }
        lemma_find_at(t, '>', j - a);
    }
    if j == b {
        return None;
    }
    proof {
        assert(t.subrange(j - a + 1, t.len() as int) =~= s@.subrange(j + 1, b as int));
        assert(t.subrange(1, j - a) =~= s@.subrange(a + 1, j as int));
    }
    if has_rel(s, j + 1, b, quoted, bare, Ghost(rel)) {
        Some((a + 1, j))
    } else {
        None
    }
}

/// The URL that the `Link` header gives for the relation `rel`: that of the
/// first entry that names it, if any does.
pub fn find_link(header: &str, rel: &str) -> (r: Option<String>)
    ensures
        opt_view(r) == rel_target(header@, rel@),
{
    let s = chars_of(header);
    let s = s.as_slice();
    let mut quoted = chars_of("rel=\"");
    let rel_chars = chars_of(rel);
    push_chars(&mut quoted, rel_chars.as_slice());
    push_chars(&mut quoted, chars_of("\"").as_slice());
    let mut bare = chars_of("rel=");
    push_chars(&mut bare, rel_chars.as_slice());
    let n = s.len();
    let mut start: usize = 0;
    assert(s@.subrange(0, n as int) =~= s@);
    loop
        invariant
            start <= n == s@.len(),
            s@ == header@,
            quoted@ == "rel=\""@ + rel@ + "\""@,
            bare@ == "rel="@ + rel@,
            rel_target(header@, rel@) == first_target(
                split(s@.subrange(start as int, n as int), ','),
                rel@,
            ),
        decreases n - start,
    {
        let k = find_in(s, start, n, ',');
        let ghost piece = s@.subrange(start as int, n as int);
        proof {
            assert forall|i: int| 0 <= i < k - start implies piece[i] != ',' by {
                assert(piece[i] == s@[start + i]);
            }
            lemma_split_at(piece, ',', k - start);
            assert(piece.subrange(0, k - start) =~= s@.subrange(start as int, k as int));
        }
        match entry_in(s, start, k, quoted.as_slice(), bare.as_slice(), Ghost(rel@)) {
            Some((a, b)) => {
                let url = string_of(&s[a..b]);
                return Some(url);
            },
            None => {},
        }
        if k == n {
            proof {
                assert(seq![piece].drop_first() =~= Seq::<Seq<char>>::empty());
                assert(piece =~= s@.subrange(start as int, k as int));
                assert(first_target(Seq::<Seq<char>>::empty(), rel@) is None);
            }
            return None;
        }
        proof {
            let rest = split(piece.subrange(k - start + 1, piece.len() as int), ',');
            assert(piece.subrange(k - start + 1, piece.len() as int) =~= s@.subrange(
                k + 1,
                n as int,
            ));
            assert((seq![piece.subrange(0, k - start)] + rest).drop_first() =~= rest);
        }
        start = k + 1;
    }
}

/// The `next` and `prev` relations of a `Link` header.
#[derive(Clone, Debug, PartialEq, Eq)]
pub struct Links {
    /// URL of the next batch.
    pub next: Option<String>,
    /// URL of the previous batch.
    pub prev: Option<String>,
}

/// The `next` and `prev` URLs that a `Link` header gives; other relations
/// and malformed entries are passed over.
pub fn parse_links(header: &str) -> (r: Links)
    ensures
        opt_view(r.next) == rel_target(header@, "next"@),
        opt_view(r.prev) == rel_target(header@, "prev"@),
{
    Links { next: find_link(header, "next"), prev: find_link(header, "prev") }
}

} // verus!
