use vstd::prelude::*;

verus! {

/// What `str::to_lowercase` returns for a string; it depends on the characters alone.
pub uninterp spec fn lower_of(s: Seq<char>) -> Seq<char>;

/// Relies on `str::to_lowercase`: the lowercase form of `s`, a function of its characters.
#[verifier::external_body]
pub(crate) fn lowercase(s: &str) -> (r: String)
    ensures
        r@ == lower_of(s@),
{
    s.to_lowercase()
}

/// `pat` occurs in `s` starting at `i`.
pub open spec fn occurs_at(s: Seq<char>, i: int, pat: Seq<char>) -> bool {
    0 <= i && i + pat.len() <= s.len() && s.subrange(i, i + pat.len()) == pat
}

/// `pat` occurs somewhere in `s`.
pub open spec fn contains_seq(s: Seq<char>, pat: Seq<char>) -> bool {
    exists|i: int| #[trigger] occurs_at(s, i, pat)
}

/// `s` ends with `suffix`.
pub open spec fn ends_with_seq(s: Seq<char>, suffix: Seq<char>) -> bool {
    suffix.len() <= s.len() && s.subrange(s.len() - suffix.len(), s.len() as int) == suffix
}

/// Whether `c` separates path components.
pub open spec fn is_separator(c: char) -> bool {
    c == '\\' || c == '/'
}

/// A directory and a name joined into one path, by this library's own rule: the name alone
/// under an empty directory, no extra separator after one that ends in a separator, else a
/// backslash between. Unlike `Path::join` it treats every name as relative (an absolute name is
/// appended, not substituted) and gives a bare drive prefix such as `C:` a backslash too.
pub open spec fn joined(dir: Seq<char>, name: Seq<char>) -> Seq<char> {
    if dir.len() == 0 {
        name
    } else if is_separator(dir.last()) {
        dir + name
    } else {
        dir + seq!['\\'] + name
    }
}

/// Whether the characters of `s` at `i..i + pat.len()` are `pat`; checks one character at a time.
fn matches_at(s: &str, n: usize, i: usize, pat: &str, m: usize) -> (r: bool)
    requires
        n == s@.len(),
        m == pat@.len(),
        i + m <= n,
    ensures
        r == occurs_at(s@, i as int, pat@),
{
    let mut j: usize = 0;
    while j < m
        invariant
            n == s@.len(),
            m == pat@.len(),
            i + m <= n,
            j <= m,
            forall|k: int| 0 <= k < j ==> s@[i + k] == pat@[k],
        decreases m - j,
    {
        if s.get_char(i + j) != pat.get_char(j) {
            assert(s@.subrange(i as int, i + m)[j as int] == s@[i + j]);
            return false;
        }
        j = j + 1;
    }
    assert(s@.subrange(i as int, i + m) =~= pat@);
    true
}

/// Whether `pat` occurs in `s`.
pub fn str_contains(s: &str, pat: &str) -> (r: bool)
    ensures
        r == contains_seq(s@, pat@),
{
    let n = s.unicode_len();
    let m = pat.unicode_len();
    if m > n {
        assert forall|i: int| !occurs_at(s@, i, pat@) by {}
        return false;
    }
    if m == 0 {
        assert(occurs_at(s@, 0, pat@)) by {
            assert(s@.subrange(0, 0) =~= pat@);
        }
        return true;
    }
    let mut i: usize = 0;
    while i <= n - m
        invariant
            n == s@.len(),
            m == pat@.len(),
            0 < m <= n,
            i <= n - m + 1,
            forall|k: int| 0 <= k < i ==> !occurs_at(s@, k, pat@),
        decreases n - m + 1 - i,
    {
        if matches_at(s, n, i, pat, m) {
            return true;
        }
        i = i + 1;
    }
    assert forall|k: int| !occurs_at(s@, k, pat@) by {}
    false
}

/// Whether `s` ends with `suffix`.
pub fn str_ends_with(s: &str, suffix: &str) -> (r: bool)
    ensures
        r == ends_with_seq(s@, suffix@),
{
    let n = s.unicode_len();
    let m = suffix.unicode_len();
    if m > n {
        return false;
    }
    matches_at(s, n, n - m, suffix, m)
}

/// Joins a directory and a name into one path by the rule that `joined` states.
pub fn join_path(dir: &str, name: &str) -> (r: String)
    ensures
        r@ == joined(dir@, name@),
{
    let n = dir.unicode_len();
    if n == 0 {
        return String::from_str(name);
    }
    let last = dir.get_char(n - 1);
    let mut r = String::from_str(dir);
    if last != '\\' && last != '/' {
        r.append("\\");
        proof {
            reveal_strlit("\\");
            assert("\\"@ =~= seq!['\\']);
        }
    }
    r.append(name);
    r
}

/// The pieces of `s` between occurrences of `sep`, empty ones included: an empty string is one
/// empty piece, and `n` separators make `n + 1` pieces.
pub open spec fn split_on(s: Seq<char>, sep: char) -> Seq<Seq<char>>
    decreases s.len(),
{
    if s.len() == 0 {
        seq![Seq::empty()]
    } else {
        let prev = split_on(s.drop_last(), sep);
        if s.last() == sep {
            prev.push(Seq::empty())
        } else {
            prev.update(prev.len() - 1, prev.last().push(s.last()))
        }
    }
}

/// Splits a PATH-like list on `;` into its entries, empty ones included.
pub fn split_search_path(value: &str) -> (r: Vec<String>)
    ensures
        r@.map_values(|p: String| p@) == split_on(value@, ';'),
{
    let n = value.unicode_len();
    let mut pieces: Vec<String> = Vec::new();
    let mut start: usize = 0;
    let mut i: usize = 0;
    assert(value@.take(0) =~= Seq::<char>::empty());
    assert(pieces@.map_values(|p: String| p@).push(value@.subrange(0, 0)) =~= split_on(
        value@.take(0),
        ';',
    ));
    while i < n
        invariant
            n == value@.len(),
            start <= i <= n,
            pieces@.map_values(|p: String| p@).push(value@.subrange(start as int, i as int))
                == split_on(value@.take(i as int), ';'),
        decreases n - i,
    {
        let c = value.get_char(i);
        let ghost before = pieces@.map_values(|p: String| p@);
        let ghost s0 = start as int;
        let ghost prev = split_on(value@.take(i as int), ';');
        assert(value@.take(i + 1).drop_last() =~= value@.take(i as int));
        assert(value@.take(i + 1).last() == c);
        assert(prev == before.push(value@.subrange(s0, i as int)));
        if c == ';' {
            let piece = String::from_str(value.substring_char(start, i));
            pieces.push(piece);
            start = i + 1;
            assert(pieces@.map_values(|p: String| p@) =~= before.push(value@.subrange(s0, i as int)));
            assert(value@.subrange(start as int, i + 1) =~= Seq::<char>::empty());
            assert(split_on(value@.take(i + 1), ';') == prev.push(Seq::<char>::empty()));
        } else {
            assert(value@.subrange(s0, i + 1) =~= value@.subrange(s0, i as int).push(c));
            assert(split_on(value@.take(i + 1), ';') == prev.update(
                prev.len() - 1,
                prev.last().push(c),
            ));
        }
        assert(pieces@.map_values(|p: String| p@).push(value@.subrange(start as int, i + 1))
            =~= split_on(value@.take(i + 1), ';'));
        i = i + 1;
    }
    assert(value@.take(n as int) =~= value@);
    let last = String::from_str(value.substring_char(start, n));
    pieces.push(last);
    assert(pieces@.map_values(|p: String| p@) =~= split_on(value@, ';'));
    pieces
}

} // verus!
