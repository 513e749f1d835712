//! Text helpers over `str` and `String` whose behaviour is stated on the
//! character sequences (`@`) of their arguments.
use vstd::prelude::*;
use vstd::string::*;
use vstd::std_specs::iter::IteratorSpec;

verus! {

/// `p` is a prefix of `s`.
pub open spec fn seq_has_prefix(s: Seq<char>, p: Seq<char>) -> bool {
    p.len() <= s.len() && s.subrange(0, p.len() as int) == p
}

/// `s` with the prefix `p` removed, where `p` is a prefix of `s`.
pub open spec fn seq_strip_prefix(s: Seq<char>, p: Seq<char>) -> Option<Seq<char>> {
    if seq_has_prefix(s, p) {
        Some(s.subrange(p.len() as int, s.len() as int))
    } else {
        None
    }
}

/// The first `n` characters of `s` (all of `s` when it is shorter).
pub open spec fn seq_take_chars(s: Seq<char>, n: int) -> Seq<char> {
    if s.len() <= n {
        s
    } else {
        s.subrange(0, n)
    }
}

/// Number of bytes that the UTF-8 encoding of `s` takes.
pub open spec fn utf8_len(s: Seq<char>) -> nat {
    vstd::utf8::encode_utf8(s).len()
}

/// The character of the decimal digit `d` (for `0 <= d < 10`).
pub open spec fn digit_char(d: nat) -> char {
    ((d + 48) as u8) as char
}

/// Decimal representation of `n`, without leading zeros.
pub open spec fn decimal(n: nat) -> Seq<char>
    decreases n,
{
    if n < 10 {
        seq![digit_char(n)]
    } else {
        decimal(n / 10).push(digit_char(n % 10))
    }
}

/// Decimal representation of a signed number, with a leading `-` when negative.
pub open spec fn signed_decimal(n: int) -> Seq<char> {
    if n < 0 {
        seq!['-'] + decimal((-n) as nat)
    } else {
        decimal(n as nat)
    }
}

/// `c` is an ASCII decimal digit.
pub open spec fn is_digit(c: char) -> bool {
    '0' <= c && c <= '9'
}

/// Value of a sequence of ASCII digits read in base ten.
pub open spec fn digits_value(s: Seq<char>) -> nat
    decreases s.len(),
{
    if s.len() == 0 {
        0
    } else {
        digits_value(s.drop_last()) * 10 + ((s.last() as nat) - 48) as nat
    }
}

/// `s` is one or more ASCII digits.
pub open spec fn all_digits(s: Seq<char>) -> bool {
    s.len() > 0 && forall|i: int| 0 <= i < s.len() ==> is_digit(#[trigger] s[i])
}

/// The integer written in `s` as `str::parse` reads it for a signed type:
/// an optional `+` or `-` followed by one or more ASCII digits.
pub open spec fn signed_text_value(s: Seq<char>) -> Option<int> {
    if s.len() > 0 && s[0] == '-' && all_digits(s.drop_first()) {
        Some(-(digits_value(s.drop_first()) as int))
    } else if s.len() > 0 && s[0] == '+' && all_digits(s.drop_first()) {
        Some(digits_value(s.drop_first()) as int)
    } else if all_digits(s) {
        Some(digits_value(s) as int)
    } else {
        None
    }
}

/// The integer written in `s` as `str::parse` reads it for an unsigned type:
/// an optional `+` followed by one or more ASCII digits.
pub open spec fn unsigned_text_value(s: Seq<char>) -> Option<nat> {
    if s.len() > 0 && s[0] == '+' && all_digits(s.drop_first()) {
        Some(digits_value(s.drop_first()))
    } else if all_digits(s) {
        Some(digits_value(s))
    } else {
        None
    }
}

/// What `str::parse::<i32>` gives for the text `s`.
pub open spec fn parse_i32_spec(s: Seq<char>) -> Option<i32> {
    match signed_text_value(s) {
        Some(v) => if i32::MIN <= v <= i32::MAX {
            Some(v as i32)
        } else {
            None
        },
        None => None,
    }
}

/// What `str::parse::<usize>` gives for the text `s`.
pub open spec fn parse_usize_spec(s: Seq<char>) -> Option<usize> {
    match unsigned_text_value(s) {
        Some(v) => if v <= usize::MAX {
            Some(v as usize)
        } else {
            None
        },
        None => None,
    }
}

/// What `str::parse::<bool>` gives for the text `s`.
pub open spec fn parse_bool_spec(s: Seq<char>) -> Option<bool> {
    if s == seq!['t', 'r', 'u', 'e'] {
        Some(true)
    } else if s == seq!['f', 'a', 'l', 's', 'e'] {
        Some(false)
    } else {
        None
    }
}

/// `bool::to_string`: `"true"` or `"false"`.
pub open spec fn bool_text(b: bool) -> Seq<char> {
    if b {
        seq!['t', 'r', 'u', 'e']
    } else {
        seq!['f', 'a', 'l', 's', 'e']
    }
}

/// `u64::to_string`: the decimal digits of `n`.
#[verifier::external_body]
pub(crate) fn u64_to_string(n: u64) -> (r: String)
    ensures
        r@ == decimal(n as nat),
{
    n.to_string()
}

/// `str::parse::<i32>`: an optional sign and ASCII digits, `None` when the text
/// is not such a number or the number does not fit.
#[verifier::external_body]
pub(crate) fn parse_i32(s: &str) -> (r: Option<i32>)
    ensures
        r == parse_i32_spec(s@),
{
    s.parse::<i32>().ok()
}

/// `str::parse::<usize>`: an optional `+` and ASCII digits, `None` when the text
/// is not such a number or the number does not fit.
#[verifier::external_body]
pub(crate) fn parse_usize(s: &str) -> (r: Option<usize>)
    ensures
        r == parse_usize_spec(s@),
{
    s.parse::<usize>().ok()
}

/// Decimal text of a `usize`.
pub fn usize_to_string(n: usize) -> (r: String)
    ensures
        r@ == decimal(n as nat),
{
    u64_to_string(n as u64)
}

/// Decimal text of an `i32`, with a `-` when negative.
pub fn i32_to_string(n: i32) -> (r: String)
    ensures
        r@ == signed_decimal(n as int),
{
    if n < 0 {
        let mag: u64 = (0i64 - (n as i64)) as u64;
        let digits = u64_to_string(mag);
        let mut r = String::from_str("-");
        proof {
            reveal_strlit("-");
        }
        r.append(digits.as_str());
        r
    } else {
        u64_to_string(n as u64)
    }
}

/// `"true"` or `"false"`.
pub fn bool_to_string(b: bool) -> (r: String)
    ensures
        r@ == bool_text(b),
{
    proof {
        reveal_strlit("true");
        reveal_strlit("false");
    }
    if b {
        String::from_str("true")
    } else {
        String::from_str("false")
    }
}

/// Character-wise equality of two strings.
pub fn str_eq(a: &str, b: &str) -> (r: bool)
    ensures
        r == (a@ == b@),
{
    let n = a.unicode_len();
    if n != b.unicode_len() {
        return false;
    }
    let mut i: usize = 0;
    while i < n
        invariant
            n == a@.len(),
            n == b@.len(),
            i <= n,
            forall|j: int| 0 <= j < i ==> a@[j] == b@[j],
        decreases n - i,
    {
        if a.get_char(i) != b.get_char(i) {
            return false;
        }
        i = i + 1;
    }
    assert(a@ =~= b@);
    true
}

/// `s` starts with `p`.
pub fn has_prefix(s: &str, p: &str) -> (r: bool)
    ensures
        r == seq_has_prefix(s@, p@),
{
    let n = p.unicode_len();
    let m = s.unicode_len();
    if n > m {
        return false;
    }
    let mut i: usize = 0;
    while i < n
        invariant
            n == p@.len(),
            m == s@.len(),
            n <= m,
            i <= n,
            forall|j: int| 0 <= j < i ==> s@[j] == p@[j],
        decreases n - i,
    {
        if s.get_char(i) != p.get_char(i) {
            assert(s@.subrange(0, n as int)[i as int] != p@[i as int]);
            return false;
        }
        i = i + 1;
    }
    assert(s@.subrange(0, n as int) =~= p@);
    true
}

/// `s` without its prefix `p`, or `None` when `s` does not start with `p`.
pub fn strip_prefix<'a>(s: &'a str, p: &str) -> (r: Option<&'a str>)
    ensures
        match r {
            Some(rest) => seq_strip_prefix(s@, p@) == Some(rest@),
            None => seq_strip_prefix(s@, p@) is None,
        },
{
    if has_prefix(s, p) {
        let n = p.unicode_len();
        let m = s.unicode_len();
        Some(s.substring_char(n, m))
    } else {
        None
    }
}

/// `str::parse::<bool>`: `Some(true)` for `"true"`, `Some(false)` for `"false"`,
/// `None` for any other text.
pub fn parse_bool(s: &str) -> (r: Option<bool>)
    ensures
        r == parse_bool_spec(s@),
{
    proof {
        reveal_strlit("true");
        reveal_strlit("false");
        assert("true"@ =~= seq!['t', 'r', 'u', 'e']);
        assert("false"@ =~= seq!['f', 'a', 'l', 's', 'e']);
    }
    if str_eq(s, "true") {
        Some(true)
    } else if str_eq(s, "false") {
        Some(false)
    } else {
        None
    }
}

/// The first `n` characters of `s` as a new string.
pub fn take_chars(s: &str, n: usize) -> (r: String)
    ensures
        r@ == seq_take_chars(s@, n as int),
{
    let len = s.unicode_len();
    if len <= n {
        String::from_str(s)
    } else {
        String::from_str(s.substring_char(0, n))
    }
}

/// Number of bytes of the UTF-8 encoding of `s`.
pub fn byte_len(s: &str) -> (r: usize)
    ensures
        r == utf8_len(s@),
{
    let bytes = s.as_bytes();
    bytes.len()
}

/// A copy of an optional string.
pub fn clone_opt_string(o: &Option<String>) -> (r: Option<String>)
    ensures
        r == *o,
{
    match o {
        Some(s) => Some(s.clone()),
        None => None,
    }
}

/// An optional borrowed string made owned.
pub fn opt_str_to_string(o: Option<&str>) -> (r: Option<String>)
    ensures
        match o {
            Some(s) => r is Some && r->0@ == s@,
            None => r is None,
        },
{
    match o {
        Some(s) => Some(String::from_str(s)),
        None => None,
    }
}

/// The concatenation of the given pieces.
pub fn concat_strs(parts: &[&str]) -> (r: String)
    ensures
        r@ == concat_seqs(parts@.map_values(|p: &str| p@)),
{
    let mut r = String::new();
    let ghost views = parts@.map_values(|p: &str| p@);
    let mut i: usize = 0;
    while i < parts.len()
        invariant
            i <= parts@.len(),
            views == parts@.map_values(|p: &str| p@),
            r@ == concat_seqs(views.take(i as int)),
        decreases parts.len() - i,
    {
        r.append(parts[i]);
        assert(views.take(i as int + 1).drop_last() =~= views.take(i as int));
        i = i + 1;
    }
    assert(views.take(parts@.len() as int) =~= views);
    r
}

/// `String::push`: appends one character.
pub assume_specification[ String::push ](s: &mut String, ch: char)
    ensures
        final(s)@ == old(s)@.push(ch),
;

/// The characters of `s`, in order.
pub fn chars_of(s: &str) -> (r: Vec<char>)
    ensures
        r@ == s@,
{
    broadcast use vstd::string::group_string_axioms;

    let mut it = s.chars();
    let mut out: Vec<char> = Vec::new();
    loop
        invariant
            it.obeys_prophetic_iter_laws(),
            out@ + it.remaining() == s@,
            it.decrease() is Some,
        decreases it.decrease()->0,
    {
        let ghost before = it.remaining();
        match it.next() {
            Some(c) => {
                out.push(c);
                assert(out@ + it.remaining() =~= s@);
            },
            None => {
                assert(it.remaining() == before);
                assert(before.len() == 0);
                assert(out@ =~= s@);
                return out;
            },
        }
    }
}

/// The concatenation of a sequence of character sequences.
pub open spec fn concat_seqs(parts: Seq<Seq<char>>) -> Seq<char>
    decreases parts.len(),
{
    if parts.len() == 0 {
        Seq::empty()
    } else {
        concat_seqs(parts.drop_last()) + parts.last()
    }
}

/// The position of the first of `items` equal to `key`.
pub open spec fn first_position_spec(items: Seq<Seq<char>>, key: Seq<char>) -> Option<int>
    decreases items.len(),
{
    if items.len() == 0 {
        None
    } else if items[0] == key {
        Some(0)
    } else {
        match first_position_spec(items.drop_first(), key) {
            Some(i) => Some(i + 1),
            None => None,
        }
    }
}

/// The texts of some string slices.
pub open spec fn str_views(items: Seq<&str>) -> Seq<Seq<char>> {
    items.map_values(|s: &str| s@)
}

/// The position of the first of `items` equal to `key`, as a registry looks
/// a name up.
pub fn first_position(items: &[&str], key: &str) -> (r: Option<usize>)
    ensures
        match r {
            Some(i) => first_position_spec(str_views(items@), key@) == Some(i as int),
            None => first_position_spec(str_views(items@), key@) is None,
        },
{
    let mut i: usize = 0;
    assert(str_views(items@).subrange(0, items@.len() as int) =~= str_views(items@));
    while i < items.len()
        invariant
            i <= items@.len(),
            first_position_spec(str_views(items@), key@) == match first_position_spec(
                str_views(items@).subrange(i as int, items@.len() as int),
                key@,
            ) {
                Some(j) => Some(j + i),
                None => None,
            },
        decreases items.len() - i,
    {
        let ghost rest = str_views(items@).subrange(i as int, items@.len() as int);
        assert(rest.drop_first() =~= str_views(items@).subrange(i as int + 1, items@.len() as int));
        assert(rest[0] == items@[i as int]@);
        if str_eq(items[i], key) {
            return Some(i);
        }
        i = i + 1;
    }
    assert(str_views(items@).subrange(i as int, items@.len() as int) =~= Seq::<Seq<char>>::empty());
    None
}

} // verus!
