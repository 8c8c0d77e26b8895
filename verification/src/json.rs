//! Plain JSON values as the library builds them, and the reading of one level of
//! `Debug` output into such a value.

use vstd::prelude::*;
use crate::text::{
    chars_of, find_char, lemma_find_from_found, lemma_rfind_before_found, rfind_char, slice_range, spec_find, spec_rfind,
    lemma_strip_start, find_from, spec_trim, spec_trim_quotes, string_from_chars, strip_start, trim_chars, trim_quote_chars,
};

verus! {

/// A JSON value. A number keeps the decimal text it was read from; its numeric
/// value is whatever `f64` that text denotes.
#[derive(Debug)]
pub enum JsonValue {
    Null,
    Bool(bool),
    Number(String),
    String(String),
    Array(Vec<JsonValue>),
    Object(Vec<(String, JsonValue)>),
}

/// A primitive read from text: a number (its text), a boolean, or a string.
pub enum ScalarView {
    Number(Seq<char>),
    Bool(bool),
    Text(Seq<char>),
}

/// What one level of `Debug` output reads as: a primitive, the fields of a
/// named struct in the order of their first appearance, or the arguments of a
/// tuple struct.
pub enum DebugView {
    Scalar(ScalarView),
    Fields(Seq<(Seq<char>, ScalarView)>),
    Arguments(Seq<ScalarView>),
}

/// `j` is the JSON form of the primitive `s`.
pub open spec fn encodes_scalar(j: JsonValue, s: ScalarView) -> bool {
    match (j, s) {
        (JsonValue::Number(u), ScalarView::Number(t)) => u@ == t,
        (JsonValue::Bool(b), ScalarView::Bool(c)) => b == c,
        (JsonValue::String(u), ScalarView::Text(t)) => u@ == t,
        _ => false,
    }
}

/// The key under which the arguments of a tuple struct are stored.
pub open spec fn args_key() -> Seq<char> {
    seq!['a', 'r', 'g', 's']
}

/// `j` is the JSON form of `d`: a primitive as itself, fields as an object with
/// one entry per field in the same order, arguments as `{"args": [...]}`.
pub open spec fn encodes_debug(j: JsonValue, d: DebugView) -> bool {
    match d {
        DebugView::Scalar(s) => encodes_scalar(j, s),
        DebugView::Fields(fs) => match j {
            JsonValue::Object(es) => es@.len() == fs.len() && forall|i: int|
                0 <= i < fs.len() ==> (#[trigger] es@[i]).0@ == fs[i].0 && encodes_scalar(
                    es@[i].1,
                    fs[i].1,
                ),
            _ => false,
        },
        DebugView::Arguments(xs) => match j {
            JsonValue::Object(es) => es@.len() == 1 && es@[0].0@ == args_key() && match es@[0].1 {
                JsonValue::Array(a) => a@.len() == xs.len() && forall|i: int|
                    0 <= i < xs.len() ==> encodes_scalar(#[trigger] a@[i], xs[i]),
                _ => false,
            },
            _ => false,
        },
    }
}

// ---------------------------------------------------------------------------
// The syntax that `f64::from_str` accepts, as its documentation gives it:
//
//   Float  ::= Sign? ( 'inf' | 'infinity' | 'nan' | Number )
//   Number ::= ( Digit+ | Digit+ '.' Digit* | Digit* '.' Digit+ ) Exp?
//   Exp    ::= 'e' Sign? Digit+
//   Sign   ::= [+-]
//   Digit  ::= [0-9]
//
// with letters compared without regard to ASCII case.
// ---------------------------------------------------------------------------

pub open spec fn is_digit(c: char) -> bool {
    '0' <= c <= '9'
}

pub open spec fn is_sign(c: char) -> bool {
    c == '+' || c == '-'
}

pub open spec fn all_digits(s: Seq<char>) -> bool {
    forall|i: int| 0 <= i < s.len() ==> is_digit(#[trigger] s[i])
}

/// The upper-case form of the lower-case ASCII letter `l` (other characters unchanged).
pub open spec fn upper_case(l: char) -> char {
    match l {
        'a' => 'A',
        'b' => 'B',
        'c' => 'C',
        'd' => 'D',
        'e' => 'E',
        'f' => 'F',
        'g' => 'G',
        'h' => 'H',
        'i' => 'I',
        'j' => 'J',
        'k' => 'K',
        'l' => 'L',
        'm' => 'M',
        'n' => 'N',
        'o' => 'O',
        'p' => 'P',
        'q' => 'Q',
        'r' => 'R',
        's' => 'S',
        't' => 'T',
        'u' => 'U',
        'v' => 'V',
        'w' => 'W',
        'x' => 'X',
        'y' => 'Y',
        'z' => 'Z',
        _ => l,
    }
}

/// `c` is the lower-case ASCII letter `l` written in either case.
pub open spec fn same_letter(c: char, l: char) -> bool {
    c == l || c == upper_case(l)
}

fn to_upper_case(l: char) -> (r: char)
    ensures
        r == upper_case(l),
{
    match l {
        'a' => 'A',
        'b' => 'B',
        'c' => 'C',
        'd' => 'D',
        'e' => 'E',
        'f' => 'F',
        'g' => 'G',
        'h' => 'H',
        'i' => 'I',
        'j' => 'J',
        'k' => 'K',
        'l' => 'L',
        'm' => 'M',
        'n' => 'N',
        'o' => 'O',
        'p' => 'P',
        'q' => 'Q',
        'r' => 'R',
        's' => 'S',
        't' => 'T',
        'u' => 'U',
        'v' => 'V',
        'w' => 'W',
        'x' => 'X',
        'y' => 'Y',
        'z' => 'Z',
        _ => l,
    }
}

/// `s` spells the lower-case word `w`, each letter in either case.
pub open spec fn spells(s: Seq<char>, w: Seq<char>) -> bool {
    s.len() == w.len() && forall|i: int| 0 <= i < s.len() ==> same_letter(#[trigger] s[i], w[i])
}

/// Characters before the exponent marker.
pub open spec fn not_exponent_marker() -> spec_fn(char) -> bool {
    |c: char| c != 'e' && c != 'E'
}

pub open spec fn mantissa_syntax(m: Seq<char>) -> bool {
    match spec_find(m, '.') {
        None => m.len() >= 1 && all_digits(m),
        Some(d) => m.len() >= 2 && all_digits(m.take(d)) && all_digits(m.skip(d + 1)),
    }
}

pub open spec fn exponent_syntax(t: Seq<char>) -> bool {
    let u = if t.len() > 0 && is_sign(t[0]) {
        t.drop_first()
    } else {
        t
    };
    u.len() >= 1 && all_digits(u)
}

/// `Number` of the grammar: the exponent, if any, starts at the first `e`.
pub open spec fn number_syntax(n: Seq<char>) -> bool {
    let k = strip_start(n, 0, not_exponent_marker());
    if k < n.len() {
        mantissa_syntax(n.take(k)) && exponent_syntax(n.skip(k + 1))
    } else {
        mantissa_syntax(n)
    }
}

/// `s` parses as an `f64`.
pub open spec fn float_syntax(s: Seq<char>) -> bool {
    let b = if s.len() > 0 && is_sign(s[0]) {
        s.drop_first()
    } else {
        s
    };
    spells(b, seq!['i', 'n', 'f']) || spells(b, seq!['i', 'n', 'f', 'i', 'n', 'i', 't', 'y'])
        || spells(b, seq!['n', 'a', 'n']) || number_syntax(b)
}

/// Whether `v` spells the lower-case word `w`.
fn spells_word(v: &[char], w: &[char]) -> (r: bool)
    ensures
        r == spells(v@, w@),
{
    if v.len() != w.len() {
        return false;
    }
    let n = v.len();
    let mut i: usize = 0;
    while i < n
        invariant
            n == v@.len() == w@.len(),
            i <= n,
            forall|k: int| 0 <= k < i ==> same_letter(#[trigger] v@[k], w@[k]),
        decreases n - i,
    {
        let c = v[i];
        let l = w[i];
        if !(c == l || c == to_upper_case(l)) {
            return false;
        }
        i = i + 1;
    }
    true
}

/// Whether every character of `v` is a decimal digit.
fn digits_only(v: &[char]) -> (r: bool)
    ensures
        r == all_digits(v@),
{
    let n = v.len();
    let mut i: usize = 0;
    while i < n
        invariant
            n == v@.len(),
            i <= n,
            forall|k: int| 0 <= k < i ==> is_digit(#[trigger] v@[k]),
        decreases n - i,
    {
        if !('0' <= v[i] && v[i] <= '9') {
            return false;
        }
        i = i + 1;
    }
    true
}

fn is_mantissa(m: &[char]) -> (r: bool)
    ensures
        r == mantissa_syntax(m@),
{
    let n = m.len();
    match find_char(m, '.') {
        None => m.len() >= 1 && digits_only(m),
        Some(d) => {
            proof {
                lemma_find_from_found(m@, '.', 0);
                assert(d < m@.len());
            }
            let before = slice_range(m, 0, d);
            let after = slice_range(m, d + 1, n);
            proof {
                assert(before@ =~= m@.take(d as int));
                assert(after@ =~= m@.skip(d + 1));
            }
            m.len() >= 2 && digits_only(&before) && digits_only(&after)
        },
    }
}

fn is_exponent(t: &[char]) -> (r: bool)
    ensures
        r == exponent_syntax(t@),
{
    let u = if t.len() > 0 && (t[0] == '+' || t[0] == '-') {
        slice_range(t, 1, t.len())
    } else {
        slice_range(t, 0, t.len())
    };
    proof {
        if t@.len() > 0 && is_sign(t@[0]) {
            assert(u@ =~= t@.drop_first());
        } else {
            assert(u@ =~= t@);
        }
    }
    u.len() >= 1 && digits_only(&u)
}

fn is_number(n: &[char]) -> (r: bool)
    ensures
        r == number_syntax(n@),
{
    let len = n.len();
    let mut k: usize = 0;
    while k < len && n[k] != 'e' && n[k] != 'E'
        invariant
            k <= len == n@.len(),
            strip_start(n@, 0, not_exponent_marker()) == strip_start(
                n@,
                k as int,
                not_exponent_marker(),
            ),
        decreases len - k,
    {
        k = k + 1;
    }
    if k < len {
        let m = slice_range(n, 0, k);
        let t = slice_range(n, k + 1, len);
        proof {
            assert(m@ =~= n@.take(k as int));
            assert(t@ =~= n@.skip(k + 1));
        }
        is_mantissa(&m) && is_exponent(&t)
    } else {
        is_mantissa(n)
    }
}

/// Whether `s` parses as an `f64`, decided by the grammar that the
/// documentation of `f64::from_str` gives.
pub fn is_float_syntax(s: &[char]) -> (r: bool)
    ensures
        r == float_syntax(s@),
{
    let b = if s.len() > 0 && (s[0] == '+' || s[0] == '-') {
        slice_range(s, 1, s.len())
    } else {
        slice_range(s, 0, s.len())
    };
    proof {
        if s@.len() > 0 && is_sign(s@[0]) {
            assert(b@ =~= s@.drop_first());
        } else {
            assert(b@ =~= s@);
        }
    }
    let inf = ['i', 'n', 'f'];
    let infinity = ['i', 'n', 'f', 'i', 'n', 'i', 't', 'y'];
    let nan = ['n', 'a', 'n'];
    proof {
        assert(inf@ =~= seq!['i', 'n', 'f']);
        assert(infinity@ =~= seq!['i', 'n', 'f', 'i', 'n', 'i', 't', 'y']);
        assert(nan@ =~= seq!['n', 'a', 'n']);
    }
    spells_word(&b, &inf) || spells_word(&b, &infinity) || spells_word(&b, &nan) || is_number(&b)
}


// ---------------------------------------------------------------------------
// Primitives
// ---------------------------------------------------------------------------

pub open spec fn true_word() -> Seq<char> {
    seq!['t', 'r', 'u', 'e']
}

pub open spec fn false_word() -> Seq<char> {
    seq!['f', 'a', 'l', 's', 'e']
}

/// How a piece of text reads as a primitive: white space and then quotes are
/// taken off both ends; what is left is a number if it parses as an `f64`, a
/// boolean if it is `true` or `false`, and a string otherwise.
pub open spec fn spec_primitive(v: Seq<char>) -> ScalarView {
    let t = spec_trim_quotes(spec_trim(v));
    if float_syntax(t) {
        ScalarView::Number(t)
    } else if t == true_word() {
        ScalarView::Bool(true)
    } else if t == false_word() {
        ScalarView::Bool(false)
    } else {
        ScalarView::Text(t)
    }
}

/// Whether `a` and `b` hold the same characters.
pub fn same_chars(a: &[char], b: &[char]) -> (r: bool)
    ensures
        r == (a@ == b@),
{
    if a.len() != b.len() {
        return false;
    }
    let n = a.len();
    let mut i: usize = 0;
    while i < n
        invariant
            n == a@.len() == b@.len(),
            i <= n,
            forall|k: int| 0 <= k < i ==> a@[k] == b@[k],
        decreases n - i,
    {
        if a[i] != b[i] {
            return false;
        }
        i = i + 1;
    }
    proof {
        assert(a@ =~= b@);
    }
    true
}

/// The primitive that the characters `v` read as.
pub fn primitive_of(v: &[char]) -> (r: JsonValue)
    ensures
        encodes_scalar(r, spec_primitive(v@)),
{
    let trimmed = trim_chars(v);
    let t = trim_quote_chars(&trimmed);
    let true_chars = ['t', 'r', 'u', 'e'];
    let false_chars = ['f', 'a', 'l', 's', 'e'];
    proof {
        assert(true_chars@ =~= true_word());
        assert(false_chars@ =~= false_word());
    }
    if is_float_syntax(&t) {
        JsonValue::Number(string_from_chars(&t))
    } else if same_chars(&t, &true_chars) {
        JsonValue::Bool(true)
    } else if same_chars(&t, &false_chars) {
        JsonValue::Bool(false)
    } else {
        JsonValue::String(string_from_chars(&t))
    }
}

/// The primitive that `val` reads as (see `spec_primitive`).
pub fn parse_primitive(val: &str) -> (r: JsonValue)
    ensures
        encodes_scalar(r, spec_primitive(val@)),
{
    let v = chars_of(val);
    primitive_of(&v)
}


// ---------------------------------------------------------------------------
// One level of `Debug` output
// ---------------------------------------------------------------------------

/// What `captures_iter` of the pattern
/// `(\w+):\s*((?:"(?:\\.|[^"\\])*"|\{[^}]*\}|\([^)]*\)|\[[^\]]*\]|[^,()"{}\[\]]+)+)`
/// yields over `body`: for each match, in order, the text of groups 1 and 2.
pub uninterp spec fn debug_field_captures(body: Seq<char>) -> Seq<(Seq<char>, Seq<char>)>;

/// What `find_iter` of the pattern
/// `(?:"(?:\\.|[^"\\])*"|\{[^}]*\}|\([^)]*\)|\[[^\]]*\]|[^,()"{}\[\]]+)+`
/// yields over `body`: the text of each match, in order.
pub uninterp spec fn debug_argument_matches(body: Seq<char>) -> Seq<Seq<char>>;

/// Runs `regex::Regex::captures_iter` with the field pattern of
/// `debug_field_captures` over `body`; the contract claims that the result is
/// that name's value, group texts converted to `String`.
#[verifier::external_body]
fn field_captures(body: &str) -> (r: Vec<(String, String)>)
    ensures
        r@.len() == debug_field_captures(body@).len(),
        forall|i: int|
            0 <= i < r@.len() ==> (#[trigger] r@[i]).0@ == debug_field_captures(body@)[i].0
                && r@[i].1@ == debug_field_captures(body@)[i].1,
{
    let re = regex::Regex::new(
        r#"(\w+):\s*((?:"(?:\\.|[^"\\])*"|\{[^}]*\}|\([^)]*\)|\[[^\]]*\]|[^,()"{}\[\]]+)+)"#,
    ).unwrap();
    re.captures_iter(body).map(|cap| (cap[1].to_string(), cap[2].to_string())).collect()
}

/// Runs `regex::Regex::find_iter` with the argument pattern of
/// `debug_argument_matches` over `body`; the contract claims that the result is
/// that name's value, match texts converted to `String`.
#[verifier::external_body]
fn argument_matches(body: &str) -> (r: Vec<String>)
    ensures
        r@.len() == debug_argument_matches(body@).len(),
        forall|i: int| 0 <= i < r@.len() ==> (#[trigger] r@[i])@ == debug_argument_matches(body@)[i],
{
    let re = regex::Regex::new(
        r#"(?:"(?:\\.|[^"\\])*"|\{[^}]*\}|\([^)]*\)|\[[^\]]*\]|[^,()"{}\[\]]+)+"#,
    ).unwrap();
    re.find_iter(body).map(|m| m.as_str().to_string()).collect()
}

/// A character of the class `[a-zA-Z0-9_:]`.
pub open spec fn is_type_name_char(c: char) -> bool {
    ('a' <= c <= 'z') || ('A' <= c <= 'Z') || ('0' <= c <= '9') || c == '_' || c == ':'
}

pub open spec fn type_name_chars() -> spec_fn(char) -> bool {
    |c: char| is_type_name_char(c)
}

/// The longest prefix of `s` made of `[a-zA-Z0-9_:]`.
pub open spec fn leading_type_name(s: Seq<char>) -> Seq<char> {
    s.take(strip_start(s, 0, type_name_chars()))
}

/// Runs `regex::Regex::captures` with the pattern `^([a-zA-Z0-9_:]+)` over `s`
/// and returns the text of group 1. The contract states what the pattern
/// matches: the longest non-empty prefix of `s` made of `[a-zA-Z0-9_:]`, if any.
#[verifier::external_body]
fn type_name_capture(s: &str) -> (r: Option<String>)
    ensures
        match r {
            Some(t) => leading_type_name(s@).len() > 0 && t@ == leading_type_name(s@),
            None => leading_type_name(s@).len() == 0,
        },
{
    let re = regex::Regex::new(r"^([a-zA-Z0-9_:]+)").unwrap();
    re.captures(s).map(|cap| cap[1].to_string())
}

/// Position of `key` among the keys of `fs`, searching from `i`.
pub open spec fn key_position(fs: Seq<(Seq<char>, ScalarView)>, key: Seq<char>, i: int) -> Option<int>
    decreases fs.len() - i,
{
    if i < 0 || i >= fs.len() {
        None
    } else if fs[i].0 == key {
        Some(i)
    } else {
        key_position(fs, key, i + 1)
    }
}

/// A map insertion: the value of an existing key is replaced in place, a new
/// key is added at the end.
pub open spec fn insert_field(fs: Seq<(Seq<char>, ScalarView)>, key: Seq<char>, v: ScalarView) -> Seq<
    (Seq<char>, ScalarView),
> {
    match key_position(fs, key, 0) {
        Some(p) => fs.update(p, (key, v)),
        None => fs.push((key, v)),
    }
}

/// The fields that the captured key/value texts make, inserted one after another.
pub open spec fn fields_from_captures(caps: Seq<(Seq<char>, Seq<char>)>) -> Seq<
    (Seq<char>, ScalarView),
>
    decreases caps.len(),
{
    if caps.len() == 0 {
        seq![]
    } else {
        insert_field(
            fields_from_captures(caps.drop_last()),
            caps.last().0,
            spec_primitive(spec_trim(caps.last().1)),
        )
    }
}

/// How the outermost container of a trimmed `Debug` string is delimited:
/// braces of a named struct or parentheses of a tuple struct (the position of
/// the first opening and of the last closing delimiter), or neither.
pub enum DebugShape {
    Named(int, int),
    Tuple(int, int),
    Plain,
}

pub open spec fn debug_shape(s: Seq<char>) -> DebugShape {
    let p = spec_find(s, '(');
    let b = spec_find(s, '{');
    let named = match (p, b) {
        (Some(pp), Some(bb)) => bb < pp,
        (None, Some(_)) => true,
        _ => false,
    };
    if named {
        match (b, spec_rfind(s, '}')) {
            (Some(o), Some(c)) => DebugShape::Named(o, c),
            _ => DebugShape::Plain,
        }
    } else {
        match (p, spec_rfind(s, ')')) {
            (Some(o), Some(c)) => DebugShape::Tuple(o, c),
            _ => DebugShape::Plain,
        }
    }
}

/// The container's body can be cut out: its last closing delimiter does not
/// come before its first opening one. Slicing panics otherwise.
pub open spec fn debug_shape_well_formed(d: Seq<char>) -> bool {
    match debug_shape(spec_trim(d)) {
        DebugShape::Named(o, c) => o < c,
        DebugShape::Tuple(o, c) => o < c,
        DebugShape::Plain => true,
    }
}

pub open spec fn error_word() -> Seq<char> {
    seq!['E', 'r', 'r', 'o', 'r']
}

/// Whether `debug_to_json` can read `debug_str` (see `debug_shape_well_formed`).
pub fn debug_shape_is_well_formed(debug_str: &str) -> (r: bool)
    ensures
        r == debug_shape_well_formed(debug_str@),
{
    let chars = chars_of(debug_str);
    let s = trim_chars(&chars);
    let first_open_paren = find_char(&s, '(');
    let first_open_brace = find_char(&s, '{');
    let is_named_struct = match (first_open_paren, first_open_brace) {
        (Some(p), Some(b)) => b < p,
        (None, Some(_)) => true,
        _ => false,
    };
    if is_named_struct {
        if let (Some(open), Some(close)) = (first_open_brace, rfind_char(&s, '}')) {
            return open < close;
        }
    } else if let (Some(open), Some(close)) = (first_open_paren, rfind_char(&s, ')')) {
        return open < close;
    }
    true
}

/// One level of a `Debug` string read as a type name and a value: the type name
/// is the leading `[a-zA-Z0-9_:]+` of the trimmed text (`Error` when there is
/// none); the value is the fields of a named struct, the arguments of a tuple
/// struct, or the whole text as a primitive.
pub open spec fn spec_debug_to_json(d: Seq<char>) -> (Seq<char>, DebugView) {
    let s = spec_trim(d);
    let lead = leading_type_name(s);
    let name = if lead.len() > 0 {
        lead
    } else {
        error_word()
    };
    match debug_shape(s) {
        DebugShape::Named(o, c) => (
            name,
            DebugView::Fields(fields_from_captures(debug_field_captures(s.subrange(o + 1, c)))),
        ),
        DebugShape::Tuple(o, c) => (
            name,
            DebugView::Arguments(
                debug_argument_matches(s.subrange(o + 1, c)).map_values(
                    |m: Seq<char>| spec_primitive(spec_trim(m)),
                ),
            ),
        ),
        DebugShape::Plain => (name, DebugView::Scalar(spec_primitive(s))),
    }
}

/// `es` are the JSON object entries of the fields `fs`, in the same order.
pub open spec fn entries_encode(es: Seq<(String, JsonValue)>, fs: Seq<(Seq<char>, ScalarView)>) -> bool {
    es.len() == fs.len() && forall|i: int|
        0 <= i < fs.len() ==> (#[trigger] es[i]).0@ == fs[i].0 && encodes_scalar(es[i].1, fs[i].1)
}

/// Inserts `key`/`value` into the object entries `es` as a map does.
fn insert_entry(es: &mut Vec<(String, JsonValue)>, key: String, value: JsonValue, Ghost(fs): Ghost<
    Seq<(Seq<char>, ScalarView)>,
>, Ghost(v): Ghost<ScalarView>)
    requires
        entries_encode(old(es)@, fs),
        encodes_scalar(value, v),
    ensures
        entries_encode(final(es)@, insert_field(fs, key@, v)),
{
    let n = es.len();
    let mut i: usize = 0;
    while i < n
        invariant
            n == es@.len(),
            i <= n,
            entries_encode(es@, fs),
            encodes_scalar(value, v),
            key_position(fs, key@, 0) == key_position(fs, key@, i as int),
        decreases n - i,
    {
        if es[i].0 == key {
            let ghost prev = es@;
            let ghost k = key@;
            proof {
                assert(fs[i as int].0 == k);
                assert(key_position(fs, k, i as int) == Some(i as int));
            }
            es.set(i, (key, value));
            proof {
                assert(es@ == prev.update(i as int, es@[i as int]));
                let nfs = fs.update(i as int, (k, v));
                assert forall|j: int| 0 <= j < nfs.len() implies (#[trigger] es@[j]).0@ == nfs[j].0
                    && encodes_scalar(es@[j].1, nfs[j].1) by {
                    if j != i {
                        assert(es@[j] == prev[j]);
                    }
                }
            }
            return;
        }
        i = i + 1;
    }
    es.push((key, value));
    proof {
        assert(entries_encode(es@, fs.push((key@, v))));
    }
}

/// The object entries made of the captured key/value texts.
fn fields_to_entries(caps: &Vec<(String, String)>, Ghost(cs): Ghost<Seq<(Seq<char>, Seq<char>)>>) -> (r: Vec<
    (String, JsonValue),
>)
    requires
        caps@.len() == cs.len(),
        forall|i: int| 0 <= i < caps@.len() ==> (#[trigger] caps@[i]).0@ == cs[i].0 && caps@[i].1@ == cs[i].1,
    ensures
        entries_encode(r@, fields_from_captures(cs)),
{
    let mut es: Vec<(String, JsonValue)> = Vec::new();
    let n = caps.len();
    let mut i: usize = 0;
    while i < n
        invariant
            n == caps@.len() == cs.len(),
            i <= n,
            forall|k: int| 0 <= k < caps@.len() ==> (#[trigger] caps@[k]).0@ == cs[k].0 && caps@[k].1@ == cs[k].1,
            entries_encode(es@, fields_from_captures(cs.take(i as int))),
        decreases n - i,
    {
        let raw = chars_of(caps[i].1.as_str());
        let val = trim_chars(&raw);
        let value = primitive_of(&val);
        let key = caps[i].0.clone();
        proof {
            assert(cs.take(i + 1).drop_last() =~= cs.take(i as int));
        }
        insert_entry(&mut es, key, value, Ghost(fields_from_captures(cs.take(i as int))), Ghost(spec_primitive(spec_trim(cs[i as int].1))));
        i = i + 1;
    }
    proof {
        assert(cs.take(n as int) =~= cs);
    }
    es
}

/// Non-recursively reads a single level of `Debug` output as a type name and a
/// JSON value (see `spec_debug_to_json`).
pub fn debug_to_json(debug_str: &str) -> (r: (String, JsonValue))
    requires
        debug_shape_well_formed(debug_str@),
    ensures
        r.0@ == spec_debug_to_json(debug_str@).0,
        encodes_debug(r.1, spec_debug_to_json(debug_str@).1),
{
    let chars = chars_of(debug_str);
    let s = trim_chars(&chars);
    let s_text = string_from_chars(&s);
    let name = match type_name_capture(s_text.as_str()) {
        Some(t) => t,
        None => {
            let e = ['E', 'r', 'r', 'o', 'r'];
            proof {
                assert(e@ =~= error_word());
            }
            string_from_chars(&e)
        },
    };
    let first_open_paren = find_char(&s, '(');
    let first_open_brace = find_char(&s, '{');
    let is_named_struct = match (first_open_paren, first_open_brace) {
        (Some(p), Some(b)) => b < p,
        (None, Some(_)) => true,
        _ => false,
    };
    if is_named_struct {
        if let (Some(open), Some(close)) = (first_open_brace, rfind_char(&s, '}')) {
            proof {
                lemma_rfind_before_found(s@, '}', s@.len() as int);
                assert(debug_shape(s@) == DebugShape::Named(open as int, close as int));
            }
            let body = slice_range(&s, open + 1, close);
            let body_text = string_from_chars(&body);
            let caps = field_captures(body_text.as_str());
            let entries = fields_to_entries(&caps, Ghost(debug_field_captures(body@)));
            return (name, JsonValue::Object(entries));
        }
    } else if let (Some(open), Some(close)) = (first_open_paren, rfind_char(&s, ')')) {
        proof {
            lemma_rfind_before_found(s@, ')', s@.len() as int);
            assert(debug_shape(s@) == DebugShape::Tuple(open as int, close as int));
        }
        let body = slice_range(&s, open + 1, close);
        let body_text = string_from_chars(&body);
        let matches = argument_matches(body_text.as_str());
        let ghost ms = debug_argument_matches(body@);
        let mut args: Vec<JsonValue> = Vec::new();
        let n = matches.len();
        let mut i: usize = 0;
        while i < n
            invariant
                n == matches@.len() == ms.len(),
                i <= n,
                forall|k: int| 0 <= k < matches@.len() ==> (#[trigger] matches@[k])@ == ms[k],
                args@.len() == i,
                forall|k: int| 0 <= k < i ==> encodes_scalar(#[trigger] args@[k], spec_primitive(spec_trim(ms[k]))),
            decreases n - i,
        {
            let raw = chars_of(matches[i].as_str());
            let t = trim_chars(&raw);
            args.push(primitive_of(&t));
            i = i + 1;
        }
        let key = ['a', 'r', 'g', 's'];
        proof {
            assert(key@ =~= args_key());
        }
        let mut object: Vec<(String, JsonValue)> = Vec::new();
        object.push((string_from_chars(&key), JsonValue::Array(args)));
        return (name, JsonValue::Object(object));
    }
    (name, primitive_of(&s))
}

/// Every level of `Debug` output gets a type name: the leading name when
/// there is one, `Error` otherwise.
pub proof fn law_type_name_is_never_empty(d: Seq<char>)
    ensures
        spec_debug_to_json(d).0.len() > 0,
{
}

/// The outermost container decides the shape. When the trimmed text opens a
/// `(` before any `{` and closes a `)` somewhere, the value is the tuple's
/// arguments, read from the text between the first `(` and the last `)`, one
/// primitive per argument; braces inside the parentheses are never read as
/// fields. Fields are read only when the first `{` comes before any `(`, and
/// then from the text between the first `{` and the last `}`.
pub proof fn law_outermost_container_decides(d: Seq<char>)
    ensures
        ({
            let s = spec_trim(d);
            let p = spec_find(s, '(');
            let b = spec_find(s, '{');
            let c = spec_rfind(s, ')');
            (p is Some && (b is None || p->0 < b->0) && c is Some) ==> {
                let ms = debug_argument_matches(s.subrange(p->0 + 1, c->0));
                let v = spec_debug_to_json(d).1;
                &&& v is Arguments
                &&& v->Arguments_0.len() == ms.len()
                &&& forall|i: int|
                    0 <= i < ms.len() ==> #[trigger] v->Arguments_0[i] == spec_primitive(
                        spec_trim(ms[i]),
                    )
            }
        }),
        ({
            let s = spec_trim(d);
            let p = spec_find(s, '(');
            let b = spec_find(s, '{');
            let c = spec_rfind(s, '}');
            let v = spec_debug_to_json(d).1;
            v is Fields ==> {
                &&& b is Some
                &&& (p is None || b->0 < p->0)
                &&& c is Some
                &&& v->Fields_0 == fields_from_captures(
                    debug_field_captures(s.subrange(b->0 + 1, c->0)),
                )
            }
        }),
{
}

/// The type name is the longest run of `[a-zA-Z0-9_:]` that opens the trimmed
/// text: every character of it is of that class, and the character after it,
/// if any, is not. Where the trimmed text opens with no such character, the
/// name is `Error`.
pub proof fn law_type_name_is_leading_run(d: Seq<char>)
    ensures
        ({
            let s = spec_trim(d);
            let n = spec_debug_to_json(d).0;
            if s.len() > 0 && is_type_name_char(s[0]) {
                &&& 0 < n.len() <= s.len()
                &&& n == s.subrange(0, n.len() as int)
                &&& forall|i: int| 0 <= i < n.len() ==> is_type_name_char(#[trigger] n[i])
                &&& n.len() < s.len() ==> !is_type_name_char(s[n.len() as int])
            } else {
                n == seq!['E', 'r', 'r', 'o', 'r']
            }
        }),
{
    let s = spec_trim(d);
    lemma_strip_start(s, 0, type_name_chars());
    let k = strip_start(s, 0, type_name_chars());
    let n = spec_debug_to_json(d).0;
    if s.len() > 0 && is_type_name_char(s[0]) {
        assert(type_name_chars()(s[0]));
        assert(k > 0);
        assert(n == s.take(k));
        assert forall|i: int| 0 <= i < n.len() implies is_type_name_char(#[trigger] n[i]) by {
            assert(type_name_chars()(s[i]));
        }
        if k < s.len() {
            assert(!type_name_chars()(s[k]));
        }
    } else {
        if s.len() > 0 {
            assert(!type_name_chars()(s[0]));
        }
        assert(k == 0);
        assert(leading_type_name(s).len() == 0);
        assert(error_word() =~= seq!['E', 'r', 'r', 'o', 'r']);
    }
}

/// A primitive is read from the text with white space and then quotes taken
/// off both ends, and keeps that text: a number is that text and parses as an
/// `f64`; `true` and `false` read as booleans only where the text is not a
/// number; anything else is a string holding the text itself.
pub proof fn law_primitive_keeps_its_text(v: Seq<char>)
    ensures
        ({
            let t = spec_trim_quotes(spec_trim(v));
            match spec_primitive(v) {
                ScalarView::Number(x) => x == t && float_syntax(t),
                ScalarView::Bool(b) => !float_syntax(t) && (if b {
                    t == seq!['t', 'r', 'u', 'e']
                } else {
                    t == seq!['f', 'a', 'l', 's', 'e']
                }),
                ScalarView::Text(x) => x == t && !float_syntax(t) && t != seq!['t', 'r', 'u', 'e']
                    && t != seq!['f', 'a', 'l', 's', 'e'],
            }
        }),
{
    assert(true_word() =~= seq!['t', 'r', 'u', 'e']);
    assert(false_word() =~= seq!['f', 'a', 'l', 's', 'e']);
}

proof fn lemma_digits_scan(t: Seq<char>, i: int)
    requires
        all_digits(t),
        0 <= i <= t.len(),
    ensures
        find_from(t, '.', i) is None,
        strip_start(t, i, not_exponent_marker()) == t.len(),
    decreases t.len() - i,
{
    if i < t.len() {
        assert(is_digit(t[i]));
        assert(not_exponent_marker()(t[i]));
        lemma_digits_scan(t, i + 1);
    }
}

/// `t` with a leading `+` or `-` taken off.
pub open spec fn without_sign(t: Seq<char>) -> Seq<char> {
    if t.len() > 0 && is_sign(t[0]) {
        t.drop_first()
    } else {
        t
    }
}

/// Text made of decimal digits alone, at least one, optionally after a sign,
/// parses as an `f64`, and so reads as a number.
pub proof fn law_digits_read_as_numbers(v: Seq<char>)
    requires
        without_sign(spec_trim_quotes(spec_trim(v))).len() > 0,
        forall|i: int|
            0 <= i < without_sign(spec_trim_quotes(spec_trim(v))).len() ==> '0'
                <= #[trigger] without_sign(spec_trim_quotes(spec_trim(v)))[i] <= '9',
    ensures
        spec_primitive(v) == ScalarView::Number(spec_trim_quotes(spec_trim(v))),
{
    let t = spec_trim_quotes(spec_trim(v));
    let u = without_sign(t);
    assert forall|i: int| 0 <= i < u.len() implies is_digit(#[trigger] u[i]) by {
        assert('0' <= u[i] <= '9');
    }
    lemma_digits_scan(u, 0);
    assert(u.take(u.len() as int) =~= u);
    assert(number_syntax(u));
}

} // verus!
