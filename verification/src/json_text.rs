//! Writing text as the body of a JSON string, and reading it back.
use vstd::prelude::*;

verus! {

/// The lower-case hexadecimal digit of `d` (for `d < 16`).
pub open spec fn hex_digit(d: nat) -> char {
    if d < 10 {
        ((d + 48) as u8) as char
    } else {
        ((d + 87) as u8) as char
    }
}

/// The value of a hexadecimal digit, either case.
pub open spec fn hex_value(c: char) -> Option<nat> {
    if '0' <= c && c <= '9' {
        Some((c as nat - 48) as nat)
    } else if 'a' <= c && c <= 'f' {
        Some((c as nat - 87) as nat)
    } else if 'A' <= c && c <= 'F' {
        Some((c as nat - 55) as nat)
    } else {
        None
    }
}

/// `c` is a control character, which a JSON string may not hold as it is.
pub open spec fn is_control(c: char) -> bool {
    (c as nat) < 32
}

/// How one character is written inside a JSON string: a backslash before `"`
/// and `\`, the short escapes `\b`, `\t`, `\n`, `\f`, `\r`, the other control
/// characters as `\u00xx`, any other character as it is.
pub open spec fn escape_char(c: char) -> Seq<char> {
    if c == '\\' {
        seq!['\\', '\\']
    } else if c == '"' {
        seq!['\\', '"']
    } else if c == '\u{8}' {
        seq!['\\', 'b']
    } else if c == '\t' {
        seq!['\\', 't']
    } else if c == '\n' {
        seq!['\\', 'n']
    } else if c == '\u{c}' {
        seq!['\\', 'f']
    } else if c == '\r' {
        seq!['\\', 'r']
    } else if is_control(c) {
        seq!['\\', 'u', '0', '0', hex_digit((c as nat) / 16), hex_digit((c as nat) % 16)]
    } else {
        seq![c]
    }
}

/// `s` written as the body of a JSON string.
pub open spec fn json_escape(s: Seq<char>) -> Seq<char>
    decreases s.len(),
{
    if s.len() == 0 {
        Seq::empty()
    } else {
        json_escape(s.drop_last()) + escape_char(s.last())
    }
}

/// The character that a JSON escape stands for, given what follows the
/// backslash: the escaped text and its length, or `None` when it is no escape
/// of JSON. `\u` escapes of surrogate code points are not read here.
pub open spec fn read_escape(s: Seq<char>) -> Option<(char, nat)> {
    if s.len() == 0 {
        None
    } else if s[0] == '"' || s[0] == '\\' || s[0] == '/' {
        Some((s[0], 1))
    } else if s[0] == 'b' {
        Some(('\u{8}', 1))
    } else if s[0] == 't' {
        Some(('\t', 1))
    } else if s[0] == 'n' {
        Some(('\n', 1))
    } else if s[0] == 'f' {
        Some(('\u{c}', 1))
    } else if s[0] == 'r' {
        Some(('\r', 1))
    } else if s[0] == 'u' && s.len() >= 5 && hex_value(s[1]) is Some && hex_value(s[2]) is Some
        && hex_value(s[3]) is Some && hex_value(s[4]) is Some {
        let v = hex_value(s[1])->0 * 4096 + hex_value(s[2])->0 * 256 + hex_value(s[3])->0 * 16
            + hex_value(s[4])->0;
        if v < 0xD800 || 0xE000 <= v {
            Some((v as char, 5))
        } else {
            None
        }
    } else {
        None
    }
}

/// Reads the body of a JSON string up to its closing quote: the text it
/// stands for and what follows the quote. `None` when the body holds a raw
/// control character or a malformed escape, or when no closing quote comes.
pub open spec fn read_json_string_body(s: Seq<char>) -> Option<(Seq<char>, Seq<char>)>
    decreases s.len(),
{
    if s.len() == 0 {
        None
    } else if s[0] == '"' {
        Some((Seq::empty(), s.drop_first()))
    } else if is_control(s[0]) {
        None
    } else if s[0] == '\\' {
        match read_escape(s.drop_first()) {
            Some((c, n)) => match read_json_string_body(s.subrange((n + 1) as int, s.len() as int)) {
                Some((v, r)) => Some((seq![c] + v, r)),
                None => None,
            },
            None => None,
        }
    } else {
        match read_json_string_body(s.drop_first()) {
            Some((v, r)) => Some((seq![s[0]] + v, r)),
            None => None,
        }
    }
}

/// The hexadecimal digit of `d`, for `d < 16`.
fn hex_digit_char(d: u32) -> (r: char)
    requires
        d < 16,
    ensures
        r == hex_digit(d as nat),
{
    if d < 10 {
        ((d + 48) as u8) as char
    } else {
        ((d + 87) as u8) as char
    }
}

/// Appends `c` written as inside a JSON string.
pub fn push_json_escaped(out: &mut String, c: char)
    ensures
        final(out)@ == old(out)@ + escape_char(c),
{
    if c == '\\' {
        out.push('\\');
        out.push('\\');
    } else if c == '"' {
        out.push('\\');
        out.push('"');
    } else if c == '\u{8}' {
        out.push('\\');
        out.push('b');
    } else if c == '\t' {
        out.push('\\');
        out.push('t');
    } else if c == '\n' {
        out.push('\\');
        out.push('n');
    } else if c == '\u{c}' {
        out.push('\\');
        out.push('f');
    } else if c == '\r' {
        out.push('\\');
        out.push('r');
    } else if (c as u32) < 32 {
        let v = c as u32;
        out.push('\\');
        out.push('u');
        out.push('0');
        out.push('0');
        out.push(hex_digit_char(v / 16));
        out.push(hex_digit_char(v % 16));
    } else {
        out.push(c);
    }
    assert(final(out)@ =~= old(out)@ + escape_char(c));
}

/// Appends `s` written as the body of a JSON string.
pub fn push_json_escaped_str(out: &mut String, s: &str)
    ensures
        final(out)@ == old(out)@ + json_escape(s@),
{
    let chars = crate::text::chars_of(s);
    let ghost start = out@;
    let mut i: usize = 0;
    while i < chars.len()
        invariant
            i <= chars@.len(),
            chars@ == s@,
            out@ == start + json_escape(s@.take(i as int)),
        decreases chars.len() - i,
    {
        assert(s@.take(i as int + 1).drop_last() =~= s@.take(i as int));
        push_json_escaped(out, chars[i]);
        i = i + 1;
        assert(out@ =~= start + json_escape(s@.take(i as int)));
    }
    assert(s@.take(chars@.len() as int) =~= s@);
}

proof fn lemma_escape_first(c: char, m: Seq<char>)
    ensures
        json_escape(seq![c] + m) == escape_char(c) + json_escape(m),
    decreases m.len(),
{
    if m.len() == 0 {
        assert(seq![c] + m =~= seq![c]);
        assert(seq![c].drop_last() =~= Seq::<char>::empty());
        assert(json_escape(seq![c]) == json_escape(seq![c].drop_last()) + escape_char(c));
        assert(json_escape(seq![c]) =~= escape_char(c));
        assert(escape_char(c) + json_escape(m) =~= escape_char(c));
    } else {
        lemma_escape_first(c, m.drop_last());
        assert((seq![c] + m).drop_last() =~= seq![c] + m.drop_last());
        assert((seq![c] + m).last() == m.last());
        assert(json_escape(seq![c] + m) == json_escape((seq![c] + m).drop_last()) + escape_char(
            m.last(),
        ));
        assert(json_escape(m) == json_escape(m.drop_last()) + escape_char(m.last()));
        assert(escape_char(c) + json_escape(m.drop_last()) + escape_char(m.last()) =~= escape_char(c)
            + (json_escape(m.drop_last()) + escape_char(m.last())));
    }
}

proof fn lemma_hex_round_trip(d: nat)
    requires
        d < 16,
    ensures
        hex_value(hex_digit(d)) == Some(d),
{
    if d < 10 {
        assert(((d + 48) as u8) as nat == d + 48);
        assert((hex_digit(d) as nat) == d + 48);
    } else {
        assert(((d + 87) as u8) as nat == d + 87);
        assert((hex_digit(d) as nat) == d + 87);
    }
}

/// The escaped form of `c` followed by `tail` reads as `c` followed by what
/// `tail` reads as.
proof fn lemma_read_one(c: char, tail: Seq<char>)
    ensures
        read_json_string_body(escape_char(c) + tail) == match read_json_string_body(tail) {
            Some((v, r)) => Some((seq![c] + v, r)),
            None => None::<(Seq<char>, Seq<char>)>,
        },
{
    let s = escape_char(c) + tail;
    if c == '\\' || c == '"' || c == '\u{8}' || c == '\t' || c == '\n' || c == '\u{c}' || c == '\r' {
        assert(s.drop_first()[0] == s[1]);
        assert(s.subrange(2, s.len() as int) =~= tail);
    } else if is_control(c) {
        let n = c as nat;
        let d1 = n / 16;
        let d2 = n % 16;
        assert(d1 == 0 || d1 == 1);
        lemma_hex_round_trip(0);
        lemma_hex_round_trip(d1);
        lemma_hex_round_trip(d2);
        let e = s.drop_first();
        assert(e[0] == 'u' && e[1] == '0' && e[2] == '0' && e[3] == hex_digit(d1) && e[4] == hex_digit(
            d2,
        ));
        assert(e.len() >= 5);
        assert(d1 * 16 + d2 == n);
        assert(0 * 4096 + 0 * 256 + d1 * 16 + d2 == n);
        assert((n as char) == c);
        assert(s.subrange(6, s.len() as int) =~= tail);
    } else {
        assert(s.drop_first() =~= tail);
    }
}

/// The escaped text of `m`, closed by a quote and followed by `rest`, reads
/// back as `m` with `rest` left over.
pub proof fn lemma_read_escaped(m: Seq<char>, rest: Seq<char>)
    ensures
        read_json_string_body(json_escape(m) + seq!['"'] + rest) == Some((m, rest)),
    decreases m.len(),
{
    if m.len() == 0 {
        assert(json_escape(m) + seq!['"'] + rest =~= seq!['"'] + rest);
        assert((seq!['"'] + rest).drop_first() =~= rest);
    } else {
        let c = m[0];
        let t = m.drop_first();
        assert(m =~= seq![c] + t);
        lemma_escape_first(c, t);
        lemma_read_escaped(t, rest);
        let tail = json_escape(t) + seq!['"'] + rest;
        assert(json_escape(m) + seq!['"'] + rest =~= escape_char(c) + tail);
        lemma_read_one(c, tail);
        assert(seq![c] + t =~= m);
    }
}

/// The escaped text holds no raw control character, so it is valid inside a
/// JSON string, and it reads back as the original text.
pub proof fn law_json_escape_reads_back(m: Seq<char>, rest: Seq<char>)
    ensures
        forall|i: int| 0 <= i < json_escape(m).len() ==> !is_control(#[trigger] json_escape(m)[i]),
        read_json_string_body(json_escape(m) + seq!['"'] + rest) == Some((m, rest)),
    decreases m.len(),
{
    lemma_read_escaped(m, rest);
    if m.len() > 0 {
        law_json_escape_reads_back(m.drop_last(), rest);
        let p = json_escape(m.drop_last());
        let e = escape_char(m.last());
        assert(json_escape(m) == p + e);
        assert forall|i: int| 0 <= i < json_escape(m).len() implies !is_control(
            #[trigger] json_escape(m)[i],
        ) by {
            if i < p.len() {
                assert(json_escape(m)[i] == p[i]);
            } else {
                let c = m.last();
                if is_control(c) && !(c == '\u{8}' || c == '\t' || c == '\n' || c == '\u{c}' || c
                    == '\r') {
                    let n = c as nat;
                    assert(n / 16 < 16);
                    assert(n % 16 < 16);
                    assert(((n / 16 + 48) as u8) as nat == n / 16 + 48);
                    assert(((n % 16 + 48) as u8) as nat == n % 16 + 48);
                    assert(((n % 16 + 87) as u8) as nat == n % 16 + 87);
                }
                assert(json_escape(m)[i] == e[i - p.len()]);
            }
        }
    }
}

} // verus!
