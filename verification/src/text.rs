//! Character-level helpers over strings viewed as `Seq<char>`.

use vstd::prelude::*;

verus! {

/// Whether `c` has the Unicode `White_Space` property, as `char::is_whitespace` reports it.
pub uninterp spec fn is_white_space(c: char) -> bool;

/// Calls `char::is_whitespace`; the contract claims only that its answer is the
/// `White_Space` property named by `is_white_space`.
#[verifier::external_body]
pub(crate) fn char_is_whitespace(c: char) -> (r: bool)
    ensures
        r == is_white_space(c),
{
    c.is_whitespace()
}

/// Builds a `String` from characters with `FromIterator<&char> for String`; the
/// contract claims that the string holds exactly those characters in order.
#[verifier::external_body]
pub(crate) fn string_from_chars(v: &[char]) -> (r: String)
    ensures
        r@ == v@,
{
    v.iter().collect::<String>()
}

/// The characters of `s`, in order.
pub fn chars_of(s: &str) -> (v: Vec<char>)
    ensures
        v@ == s@,
{
    let mut v: Vec<char> = Vec::new();
    for c in it: s.chars()
        invariant
            it.seq() == s@,
            v@ == it.seq().take(it.index() as int),
    {
        v.push(c);
    }
    v
}


/// Index of the first character at or after `i` that `strip` does not remove
/// (or the length, when every such character is removed).
pub open spec fn strip_start(s: Seq<char>, i: int, strip: spec_fn(char) -> bool) -> int
    decreases s.len() - i,
{
    if i >= s.len() {
        s.len() as int
    } else if !strip(s[i]) {
        i
    } else {
        strip_start(s, i + 1, strip)
    }
}

/// End of the range `lo..j` once the characters that `strip` removes are taken
/// off its right end.
pub open spec fn strip_end(s: Seq<char>, lo: int, j: int, strip: spec_fn(char) -> bool) -> int
    decreases j - lo,
{
    if j <= lo {
        lo
    } else if !strip(s[j - 1]) {
        j
    } else {
        strip_end(s, lo, j - 1, strip)
    }
}

/// `s` with the characters that `strip` removes taken off both ends.
pub open spec fn strip_both(s: Seq<char>, strip: spec_fn(char) -> bool) -> Seq<char> {
    let a = strip_start(s, 0, strip);
    s.subrange(a, strip_end(s, a, s.len() as int, strip))
}

/// The characters that `str::trim` removes.
pub open spec fn white_space() -> spec_fn(char) -> bool {
    |c: char| is_white_space(c)
}

/// The character that `str::trim_matches('"')` removes.
pub open spec fn double_quote() -> spec_fn(char) -> bool {
    |c: char| c == '"'
}

/// What `str::trim` leaves of `s`: leading and trailing white space removed.
pub open spec fn spec_trim(s: Seq<char>) -> Seq<char> {
    strip_both(s, white_space())
}

/// What `str::trim_matches('"')` leaves of `s`: leading and trailing quotes removed.
pub open spec fn spec_trim_quotes(s: Seq<char>) -> Seq<char> {
    strip_both(s, double_quote())
}

pub proof fn lemma_strip_start(s: Seq<char>, i: int, strip: spec_fn(char) -> bool)
    requires
        0 <= i <= s.len(),
    ensures
        i <= strip_start(s, i, strip) <= s.len(),
        forall|j: int| i <= j < strip_start(s, i, strip) ==> strip(#[trigger] s[j]),
        strip_start(s, i, strip) < s.len() ==> !strip(s[strip_start(s, i, strip)]),
    decreases s.len() - i,
{
    if i < s.len() && strip(s[i]) {
        lemma_strip_start(s, i + 1, strip);
    }
}

pub proof fn lemma_strip_end(s: Seq<char>, lo: int, j: int, strip: spec_fn(char) -> bool)
    requires
        0 <= lo <= j <= s.len(),
    ensures
        lo <= strip_end(s, lo, j, strip) <= j,
        forall|k: int| strip_end(s, lo, j, strip) <= k < j ==> strip(#[trigger] s[k]),
        strip_end(s, lo, j, strip) > lo ==> !strip(s[strip_end(s, lo, j, strip) - 1]),
    decreases j - lo,
{
    if j > lo && strip(s[j - 1]) {
        lemma_strip_end(s, lo, j - 1, strip);
    }
}

/// Trimming takes off white space and nothing else: what is left is one
/// contiguous piece of the text, everything before and after it is white
/// space, and the piece neither starts nor ends with white space.
pub proof fn law_trim_removes_only_white_space(s: Seq<char>)
    ensures
        exists|a: int, b: int|
            0 <= a <= b <= s.len() && spec_trim(s) == s.subrange(a, b) && (forall|k: int|
                0 <= k < a ==> is_white_space(#[trigger] s[k])) && (forall|k: int|
                b <= k < s.len() ==> is_white_space(#[trigger] s[k])) && (a < b ==> !is_white_space(
                s[a],
            ) && !is_white_space(s[b - 1])),
{
    let a = strip_start(s, 0, white_space());
    lemma_strip_start(s, 0, white_space());
    let b = strip_end(s, a, s.len() as int, white_space());
    lemma_strip_end(s, a, s.len() as int, white_space());
    assert forall|k: int| 0 <= k < a implies is_white_space(#[trigger] s[k]) by {
        assert(white_space()(s[k]));
    }
    assert forall|k: int| b <= k < s.len() implies is_white_space(#[trigger] s[k]) by {
        assert(white_space()(s[k]));
    }
    if a < b {
        assert(!white_space()(s[a]));
        assert(!white_space()(s[b - 1]));
    }
    assert(spec_trim(s) == s.subrange(a, b));
}

/// Taking off quotes takes off `"` and nothing else, from both ends only.
pub proof fn law_trim_quotes_removes_only_quotes(s: Seq<char>)
    ensures
        exists|a: int, b: int|
            0 <= a <= b <= s.len() && spec_trim_quotes(s) == s.subrange(a, b) && (forall|k: int|
                0 <= k < a ==> #[trigger] s[k] == '"') && (forall|k: int|
                b <= k < s.len() ==> #[trigger] s[k] == '"') && (a < b ==> s[a] != '"' && s[b - 1]
                != '"'),
{
    let a = strip_start(s, 0, double_quote());
    lemma_strip_start(s, 0, double_quote());
    let b = strip_end(s, a, s.len() as int, double_quote());
    lemma_strip_end(s, a, s.len() as int, double_quote());
    assert forall|k: int| 0 <= k < a implies #[trigger] s[k] == '"' by {
        assert(double_quote()(s[k]));
    }
    assert forall|k: int| b <= k < s.len() implies #[trigger] s[k] == '"' by {
        assert(double_quote()(s[k]));
    }
    if a < b {
        assert(!double_quote()(s[a]));
        assert(!double_quote()(s[b - 1]));
    }
    assert(spec_trim_quotes(s) == s.subrange(a, b));
}

/// The characters of `v` with white space taken off both ends.
pub fn trim_chars(v: &[char]) -> (r: Vec<char>)
    ensures
        r@ == spec_trim(v@),
{
    let n = v.len();
    let mut a: usize = 0;
    while a < n && char_is_whitespace(v[a])
        invariant
            a <= n == v@.len(),
            strip_start(v@, 0, white_space()) == strip_start(v@, a as int, white_space()),
        decreases n - a,
    {
        a = a + 1;
    }
    let mut b: usize = n;
    while b > a && char_is_whitespace(v[b - 1])
        invariant
            a <= b <= n == v@.len(),
            strip_start(v@, 0, white_space()) == a,
            strip_end(v@, a as int, n as int, white_space()) == strip_end(v@, a as int, b as int, white_space()),
        decreases b - a,
    {
        b = b - 1;
    }
    let r = slice_range(v, a, b);
    proof {
        assert(spec_trim(v@) =~= v@.subrange(a as int, b as int));
    }
    r
}

/// The characters of `v` with `"` taken off both ends.
pub fn trim_quote_chars(v: &[char]) -> (r: Vec<char>)
    ensures
        r@ == spec_trim_quotes(v@),
{
    let n = v.len();
    let mut a: usize = 0;
    while a < n && v[a] == '"'
        invariant
            a <= n == v@.len(),
            strip_start(v@, 0, double_quote()) == strip_start(v@, a as int, double_quote()),
        decreases n - a,
    {
        a = a + 1;
    }
    let mut b: usize = n;
    while b > a && v[b - 1] == '"'
        invariant
            a <= b <= n == v@.len(),
            strip_start(v@, 0, double_quote()) == a,
            strip_end(v@, a as int, n as int, double_quote()) == strip_end(v@, a as int, b as int, double_quote()),
        decreases b - a,
    {
        b = b - 1;
    }
    let r = slice_range(v, a, b);
    proof {
        assert(spec_trim_quotes(v@) =~= v@.subrange(a as int, b as int));
    }
    r
}

/// A copy of `v[lo..hi]`.
pub fn slice_range(v: &[char], lo: usize, hi: usize) -> (r: Vec<char>)
    requires
        lo <= hi <= v@.len(),
    ensures
        r@ == v@.subrange(lo as int, hi as int),
{
    let mut r: Vec<char> = Vec::new();
    let mut i = lo;
    while i < hi
        invariant
            lo <= i <= hi <= v@.len(),
            r@ == v@.subrange(lo as int, i as int),
        decreases hi - i,
    {
        r.push(v[i]);
        i = i + 1;
    }
    r
}

/// Position of the first `c` in `s` at or after `i`.
pub open spec fn find_from(s: Seq<char>, c: char, i: int) -> Option<int>
    decreases s.len() - i,
{
    if i >= s.len() {
        None
    } else if s[i] == c {
        Some(i)
    } else {
        find_from(s, c, i + 1)
    }
}

/// Position of the last `c` in `s` before `j`.
pub open spec fn rfind_before(s: Seq<char>, c: char, j: int) -> Option<int>
    decreases j,
{
    if j <= 0 {
        None
    } else if s[j - 1] == c {
        Some(j - 1)
    } else {
        rfind_before(s, c, j - 1)
    }
}

/// What `str::find(c)` reports, counted in characters.
pub open spec fn spec_find(s: Seq<char>, c: char) -> Option<int> {
    find_from(s, c, 0)
}

/// What `str::rfind(c)` reports, counted in characters.
pub open spec fn spec_rfind(s: Seq<char>, c: char) -> Option<int> {
    rfind_before(s, c, s.len() as int)
}

pub proof fn lemma_find_from_found(s: Seq<char>, c: char, i: int)
    requires
        0 <= i,
    ensures
        find_from(s, c, i) matches Some(k) ==> i <= k < s.len() && s[k] == c,
    decreases s.len() - i,
{
    if i < s.len() && s[i] != c {
        lemma_find_from_found(s, c, i + 1);
    }
}

pub proof fn lemma_rfind_before_found(s: Seq<char>, c: char, j: int)
    requires
        j <= s.len(),
    ensures
        rfind_before(s, c, j) matches Some(k) ==> 0 <= k < j && s[k] == c,
    decreases j,
{
    if j > 0 && s[j - 1] != c {
        lemma_rfind_before_found(s, c, j - 1);
    }
}

/// Position of the first `c` in `v`.
pub fn find_char(v: &[char], c: char) -> (r: Option<usize>)
    ensures
        r matches Some(k) ==> spec_find(v@, c) == Some(k as int),
        r is None ==> spec_find(v@, c) is None,
{
    let n = v.len();
    let mut i: usize = 0;
    while i < n
        invariant
            i <= n == v@.len(),
            spec_find(v@, c) == find_from(v@, c, i as int),
        decreases n - i,
    {
        if v[i] == c {
            return Some(i);
        }
        i = i + 1;
    }
    None
}

/// Position of the last `c` in `v`.
pub fn rfind_char(v: &[char], c: char) -> (r: Option<usize>)
    ensures
        r matches Some(k) ==> spec_rfind(v@, c) == Some(k as int),
        r is None ==> spec_rfind(v@, c) is None,
{
    let mut j: usize = v.len();
    while j > 0
        invariant
            j <= v@.len(),
            spec_rfind(v@, c) == rfind_before(v@, c, j as int),
        decreases j,
    {
        if v[j - 1] == c {
            return Some(j - 1);
        }
        j = j - 1;
    }
    None
}

} // verus!
