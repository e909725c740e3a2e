//! Texts as JSON string literals.

use vstd::prelude::*;

verus! {

/// The error of `serde_json`, which holds nothing that is looked at here.
#[verifier::external_type_specification]
#[verifier::external_body]
pub struct ExJsonError(serde_json::Error);

/// The lower-case hexadecimal digit of a number below sixteen.
pub open spec fn hex_digit(n: int) -> char {
    if n < 10 {
        (0x30 + n) as char
    } else {
        (0x61 + n - 10) as char
    }
}

/// How a character is written inside a JSON string literal: the quotation mark,
/// the backslash and the characters below U+0020 are escaped, all others stand
/// for themselves.
pub open spec fn escaped_char(c: char) -> Seq<char> {
    if c == '"' || c == '\\' {
        seq!['\\', c]
    } else if c == '\u{8}' {
        seq!['\\', 'b']
    } else if c == '\t' {
        seq!['\\', 't']
    } else if c == '\n' {
        seq!['\\', 'n']
    } else if c == '\u{c}' {
        seq!['\\', 'f']
    } else if c == '\r' {
        seq!['\\', 'r']
    } else if (c as int) < 0x20 {
        seq!['\\', 'u', '0', '0', hex_digit(c as int / 16), hex_digit(c as int % 16)]
    } else {
        seq![c]
    }
}

/// How a text is written inside a JSON string literal, character by character.
pub open spec fn escaped(s: Seq<char>) -> Seq<char>
    decreases s.len(),
{
    if s.len() == 0 {
        Seq::empty()
    } else {
        escaped_char(s.first()) + escaped(s.drop_first())
    }
}

/// The JSON string literal of a text.
pub open spec fn json_literal(s: Seq<char>) -> Seq<char> {
    seq!['"'] + escaped(s) + seq!['"']
}

/// Calls `serde_json::to_string` on a text. Writing a text into memory does not
/// fail, and the result is the text between quotation marks, escaped as
/// `escaped_char` says.
#[verifier::external_body]
pub(crate) fn encode_json(text: &str) -> (r: Result<String, serde_json::Error>)
    ensures
        r is Ok,
        r->Ok_0@ == json_literal(text@),
{
    serde_json::to_string(text)
}

/// The value of a hexadecimal digit.
pub open spec fn hex_value(c: char) -> Option<int> {
    if '0' <= c <= '9' {
        Some(c as int - 0x30)
    } else if 'a' <= c <= 'f' {
        Some(c as int - 0x61 + 10)
    } else if 'A' <= c <= 'F' {
        Some(c as int - 0x41 + 10)
    } else {
        None
    }
}

/// The number that the four hexadecimal digits from `i` on form.
pub open spec fn hex_number(t: Seq<char>, i: int) -> Option<int> {
    match (hex_value(t[i]), hex_value(t[i + 1]), hex_value(t[i + 2]), hex_value(t[i + 3])) {
        (Some(a), Some(b), Some(c), Some(d)) => Some(4096 * a + 256 * b + 16 * c + d),
        _ => None,
    }
}

/// The character that a two-character escape stands for.
pub open spec fn short_escape(c: char) -> Option<char> {
    if c == '"' || c == '\\' || c == '/' {
        Some(c)
    } else if c == 'b' {
        Some('\u{8}')
    } else if c == 'f' {
        Some('\u{c}')
    } else if c == 'n' {
        Some('\n')
    } else if c == 'r' {
        Some('\r')
    } else if c == 't' {
        Some('\t')
    } else {
        None
    }
}

/// What a reader of JSON takes from the start of the inside of a string literal:
/// a character, and how many characters of the inside it took. `None` where the
/// inside is at its end or is not well formed there: an unescaped quotation mark
/// or control character, or an unknown escape. Escapes that are half of a pair of
/// surrogates are not read.
pub open spec fn read_char(t: Seq<char>) -> Option<(char, int)> {
    if t.len() == 0 || t[0] == '"' || (t[0] as int) < 0x20 {
        None
    } else if t[0] != '\\' {
        Some((t[0], 1))
    } else if t.len() >= 6 && t[1] == 'u' {
        match hex_number(t, 2) {
            Some(n) => if n < 0xd800 || n >= 0xe000 {
                Some((n as char, 6))
            } else {
                None
            },
            None => None,
        }
    } else if t.len() >= 2 {
        match short_escape(t[1]) {
            Some(c) => Some((c, 2)),
            None => None,
        }
    } else {
        None
    }
}

/// The text that the inside of a JSON string literal stands for, where it is well
/// formed.
pub open spec fn read_inside(t: Seq<char>) -> Option<Seq<char>>
    decreases t.len(),
{
    if t.len() == 0 {
        Some(Seq::empty())
    } else {
        match read_char(t) {
            Some((c, n)) => if 0 < n <= t.len() {
                match read_inside(t.skip(n)) {
                    Some(rest) => Some(seq![c] + rest),
                    None => None,
                }
            } else {
                None
            },
            None => None,
        }
    }
}

/// The text that a JSON string literal stands for.
pub open spec fn read_literal(t: Seq<char>) -> Option<Seq<char>> {
    if t.len() >= 2 && t.first() == '"' && t.last() == '"' {
        read_inside(t.subrange(1, t.len() - 1))
    } else {
        None
    }
}

proof fn lemma_read_escaped_char(c: char, rest: Seq<char>)
    ensures
        read_char(escaped_char(c) + rest) == Some((c, escaped_char(c).len() as int)),
        escaped_char(c).len() > 0,
{
    let t = escaped_char(c) + rest;
    assert(forall|i: int| 0 <= i < escaped_char(c).len() ==> t[i] == escaped_char(c)[i]);
    if (c as int) < 0x20 && escaped_char(c).len() == 6 {
        let n = c as int;
        assert(n == 16 * (n / 16) + n % 16);
        assert(hex_value(t[2]) == Some(0int));
        assert(hex_value(t[3]) == Some(0int));
        assert(hex_value(t[4]) == Some(n / 16));
        assert(hex_value(t[5]) == Some(n % 16));
    }
}

proof fn lemma_read_escaped(s: Seq<char>)
    ensures
        read_inside(escaped(s)) == Some(s),
    decreases s.len(),
{
    if s.len() == 0 {
        assert(s =~= Seq::<char>::empty());
    } else {
        let c = s.first();
        let rest = escaped(s.drop_first());
        let head = escaped_char(c);
        lemma_read_escaped_char(c, rest);
        lemma_read_escaped(s.drop_first());
        assert((head + rest).skip(head.len() as int) =~= rest);
        assert(seq![c] + s.drop_first() =~= s);
    }
}

/// A JSON string literal stands for the text it was made from: whatever the text
/// holds, the literal does not end early, and reading it gives the text back.
pub proof fn law_literal_reads_back(s: Seq<char>)
    ensures
        read_literal(json_literal(s)) == Some(s),
{
    let t = json_literal(s);
    lemma_read_escaped(s);
    assert(t.subrange(1, t.len() - 1) =~= escaped(s));
}

}
