//! Text helpers: comparing string slices, and writing string literals that
//! read back as the text they were written for.

use vstd::prelude::*;
use vstd::string::StringExecFns;

verus! {

/// `String::push` appends the given character to the end of the string.
pub assume_specification[ String::push ](s: &mut String, c: char)
    ensures
        final(s)@ == old(s)@.push(c),
;

/// Whether two string slices hold the same characters.
pub fn str_eq(a: &str, b: &str) -> (r: bool)
    ensures
        r == (a@ == b@),
{
    String::from_str(a) == String::from_str(b)
}

/// The hexadecimal digit for a number below sixteen.
pub open spec fn hex_digit(d: int) -> char {
    if d == 0 {
        '0'
    } else if d == 1 {
        '1'
    } else if d == 2 {
        '2'
    } else if d == 3 {
        '3'
    } else if d == 4 {
        '4'
    } else if d == 5 {
        '5'
    } else if d == 6 {
        '6'
    } else if d == 7 {
        '7'
    } else if d == 8 {
        '8'
    } else if d == 9 {
        '9'
    } else if d == 10 {
        'a'
    } else if d == 11 {
        'b'
    } else if d == 12 {
        'c'
    } else if d == 13 {
        'd'
    } else if d == 14 {
        'e'
    } else {
        'f'
    }
}

/// A number in hexadecimal digits, without leading zeros.
pub open spec fn hex(n: nat) -> Seq<char>
    decreases n,
{
    if n < 16 {
        seq![hex_digit(n as int)]
    } else {
        hex(n / 16).push(hex_digit((n % 16) as int))
    }
}

/// How one character is written inside a string literal. The quote, the
/// backslash, and the line feed, carriage return and tab get their backslash
/// escape. Any other character from the space to the tilde stands for itself.
/// Every character beyond is written by its number: `\u{..}`, in hexadecimal
/// digits.
pub open spec fn escape_char(c: char) -> Seq<char> {
    if c == '"' {
        seq!['\\', '"']
    } else if c == '\\' {
        seq!['\\', '\\']
    } else if c == '\n' {
        seq!['\\', 'n']
    } else if c == '\r' {
        seq!['\\', 'r']
    } else if c == '\t' {
        seq!['\\', 't']
    } else if ' ' <= c <= '~' {
        seq![c]
    } else {
        seq!['\\', 'u', '{'] + hex(c as nat) + seq!['}']
    }
}

/// The characters of `text`, each written as inside a string literal.
pub open spec fn escaped(text: Seq<char>) -> Seq<char>
    decreases text.len(),
{
    if text.len() == 0 {
        Seq::empty()
    } else {
        escaped(text.drop_last()) + escape_char(text.last())
    }
}

/// The string literal that stands for `text`.
pub open spec fn string_literal(text: Seq<char>) -> Seq<char> {
    seq!['"'] + escaped(text) + seq!['"']
}

/// The number that a hexadecimal digit stands for.
pub open spec fn hex_value(c: char) -> Option<nat> {
    if c == '0' {
        Some(0)
    } else if c == '1' {
        Some(1)
    } else if c == '2' {
        Some(2)
    } else if c == '3' {
        Some(3)
    } else if c == '4' {
        Some(4)
    } else if c == '5' {
        Some(5)
    } else if c == '6' {
        Some(6)
    } else if c == '7' {
        Some(7)
    } else if c == '8' {
        Some(8)
    } else if c == '9' {
        Some(9)
    } else if c == 'a' {
        Some(10)
    } else if c == 'b' {
        Some(11)
    } else if c == 'c' {
        Some(12)
    } else if c == 'd' {
        Some(13)
    } else if c == 'e' {
        Some(14)
    } else if c == 'f' {
        Some(15)
    } else {
        None
    }
}

/// Reads hexadecimal digits up to the closing brace: the number that the
/// digits stand for, continuing from `acc`, and what follows the brace.
pub open spec fn read_hex(body: Seq<char>, acc: nat) -> Option<(nat, Seq<char>)>
    decreases body.len(),
{
    if body.len() == 0 {
        None
    } else if body[0] == '}' {
        Some((acc, body.skip(1)))
    } else {
        match hex_value(body[0]) {
            Some(d) => read_hex(body.skip(1), acc * 16 + d),
            None => None,
        }
    }
}

/// Whether a number is that of a character.
pub open spec fn is_scalar(n: nat) -> bool {
    n <= 0xD7FF || 0xE000 <= n <= 0x10FFFF
}

/// Reads one character off the front of the body of a string literal, be it
/// written plainly or with one of the escapes that `escape_char` uses: the
/// character, and what follows it. An unescaped quote is not part of a body.
pub open spec fn read_char(body: Seq<char>) -> Option<(char, Seq<char>)> {
    if body.len() == 0 || body[0] == '"' {
        None
    } else if body[0] != '\\' {
        Some((body[0], body.skip(1)))
    } else if body.len() < 2 {
        None
    } else if body[1] == '"' {
        Some(('"', body.skip(2)))
    } else if body[1] == '\\' {
        Some(('\\', body.skip(2)))
    } else if body[1] == 'n' {
        Some(('\n', body.skip(2)))
    } else if body[1] == 'r' {
        Some(('\r', body.skip(2)))
    } else if body[1] == 't' {
        Some(('\t', body.skip(2)))
    } else if body[1] == 'u' && body.len() >= 4 && body[2] == '{' && body[3] != '}' {
        match read_hex(body.skip(3), 0) {
            Some((n, rest)) => if is_scalar(n) {
                Some((n as char, rest))
            } else {
                None
            },
            None => None,
        }
    } else {
        None
    }
}

/// The text that the body of a string literal stands for, where the body is
/// made of plain characters and the escapes that `escape_char` uses.
pub open spec fn unescaped(body: Seq<char>) -> Option<Seq<char>>
    decreases body.len(),
{
    if body.len() == 0 {
        Some(Seq::empty())
    } else {
        match read_char(body) {
            Some((c, rest)) => if rest.len() < body.len() {
                match unescaped(rest) {
                    Some(text) => Some(seq![c] + text),
                    None => None,
                }
            } else {
                None
            },
            None => None,
        }
    }
}

/// The text that a string literal stands for.
pub open spec fn literal_value(literal: Seq<char>) -> Option<Seq<char>> {
    if literal.len() >= 2 && literal[0] == '"' && literal.last() == '"' {
        unescaped(literal.subrange(1, literal.len() - 1))
    } else {
        None
    }
}

/// The number read from the digits of `n` after `acc`.
spec fn shifted(acc: nat, n: nat) -> nat
    decreases n,
{
    if n < 16 {
        acc * 16 + n
    } else {
        shifted(acc, n / 16) * 16 + n % 16
    }
}

/// Read from nothing, the digits of a number give the number.
proof fn lemma_shifted_from_zero(n: nat)
    ensures
        shifted(0, n) == n,
    decreases n,
{
    if n >= 16 {
        lemma_shifted_from_zero(n / 16);
    }
}

/// Reading the digits of a number goes through all of them.
proof fn lemma_read_hex(n: nat, acc: nat, tail: Seq<char>)
    ensures
        read_hex(hex(n) + tail, acc) == read_hex(tail, shifted(acc, n)),
    decreases n,
{
    if n < 16 {
        assert((hex(n) + tail).skip(1) =~= tail);
        assert((hex(n) + tail)[0] == hex_digit(n as int));
    } else {
        let last = seq![hex_digit((n % 16) as int)] + tail;
        assert(hex(n) + tail =~= hex(n / 16) + last);
        lemma_read_hex(n / 16, acc, last);
        assert(last.skip(1) =~= tail);
        assert(last[0] == hex_digit((n % 16) as int));
    }
}

/// A character that was written by `escape_char` is read back by `read_char`.
proof fn lemma_read_escaped_char(c: char, rest: Seq<char>)
    ensures
        read_char(escape_char(c) + rest) == Some((c, rest)),
{
    let body = escape_char(c) + rest;
    if c == '"' || c == '\\' || c == '\n' || c == '\r' || c == '\t' {
        assert(body.skip(2) =~= rest);
    } else if ' ' <= c <= '~' {
        assert(body.skip(1) =~= rest);
    } else {
        let n = c as nat;
        let tail = seq!['}'] + rest;
        assert(body.skip(3) =~= hex(n) + tail);
        lemma_read_hex(n, 0, tail);
        lemma_shifted_from_zero(n);
        assert(tail.skip(1) =~= rest);
        assert(body[3] == hex(n)[0]);
        lemma_hex_starts_with_digit(n);
    }
}

/// A number is written with at least one digit.
proof fn lemma_hex_starts_with_digit(n: nat)
    ensures
        hex(n).len() > 0,
        hex_value(hex(n)[0]) is Some,
    decreases n,
{
    if n >= 16 {
        lemma_hex_starts_with_digit(n / 16);
    }
}

/// A text is written character by character, from the front as well.
proof fn lemma_escaped_from_the_front(c: char, text: Seq<char>)
    ensures
        escaped(seq![c] + text) == escape_char(c) + escaped(text),
    decreases text.len(),
{
    let whole = seq![c] + text;
    if text.len() == 0 {
        assert(whole.drop_last() =~= Seq::<char>::empty());
        assert(escaped(whole.drop_last()) =~= Seq::<char>::empty());
        assert(escaped(whole) =~= escape_char(c) + escaped(text));
    } else {
        assert(whole.drop_last() =~= seq![c] + text.drop_last());
        lemma_escaped_from_the_front(c, text.drop_last());
        assert(whole.last() == text.last());
        assert(escaped(whole) =~= escape_char(c) + escaped(text));
    }
}

/// The body written for a text reads back as the text.
proof fn lemma_escaped_reads_back(text: Seq<char>)
    ensures
        unescaped(escaped(text)) == Some(text),
    decreases text.len(),
{
    if text.len() > 0 {
        let c = text[0];
        let rest = text.skip(1);
        assert(text =~= seq![c] + rest);
        lemma_escaped_from_the_front(c, rest);
        lemma_read_escaped_char(c, escaped(rest));
        lemma_escaped_reads_back(rest);
        assert(escape_char(c).len() > 0) by {
            lemma_hex_starts_with_digit(c as nat);
        }
    }
}

/// The literal written for a text stands for that text: read by the rules
/// for plain characters and for the escapes in use, it gives the text back.
/// So no two texts are written as the same literal.
pub proof fn lemma_literal_reads_back(text: Seq<char>)
    ensures
        literal_value(string_literal(text)) == Some(text),
{
    let literal = string_literal(text);
    assert(literal.subrange(1, literal.len() - 1) =~= escaped(text));
    lemma_escaped_reads_back(text);
}

/// The hexadecimal digit for a number below sixteen.
fn digit(d: u32) -> (r: char)
    requires
        d < 16,
    ensures
        r == hex_digit(d as int),
{
    match d {
        0 => '0',
        1 => '1',
        2 => '2',
        3 => '3',
        4 => '4',
        5 => '5',
        6 => '6',
        7 => '7',
        8 => '8',
        9 => '9',
        10 => 'a',
        11 => 'b',
        12 => 'c',
        13 => 'd',
        14 => 'e',
        _ => 'f',
    }
}

/// Appends to `out` the hexadecimal digits of `n`.
fn write_hex(out: &mut String, n: u32)
    ensures
        final(out)@ == old(out)@ + hex(n as nat),
    decreases n,
{
    if n >= 16 {
        write_hex(out, n / 16);
    }
    out.push(digit(n % 16));
    proof {
        assert(out@ =~= old(out)@ + hex(n as nat));
    }
}

/// Appends to `out` the character `c` as it is written inside a string
/// literal.
fn write_escaped_char(out: &mut String, c: char)
    ensures
        final(out)@ == old(out)@ + escape_char(c),
{
    if c == '"' {
        out.push('\\');
        out.push('"');
    } else if c == '\\' {
        out.push('\\');
        out.push('\\');
    } else if c == '\n' {
        out.push('\\');
        out.push('n');
    } else if c == '\r' {
        out.push('\\');
        out.push('r');
    } else if c == '\t' {
        out.push('\\');
        out.push('t');
    } else if ' ' <= c && c <= '~' {
        out.push(c);
    } else {
        out.push('\\');
        out.push('u');
        out.push('{');
        write_hex(out, c as u32);
        out.push('}');
    }
    proof {
        assert(out@ =~= old(out)@ + escape_char(c));
    }
}

/// Appends to `out` the string literal that stands for `text`.
pub fn write_literal(out: &mut String, text: &str)
    ensures
        final(out)@ == old(out)@ + string_literal(text@),
{
    out.push('"');
    let ghost start = out@;
    for c in it: text.chars()
        invariant
            it.seq() == text@,
            out@ == start + escaped(text@.take(it.index() as int)),
    {
        proof {
            let k = it.index() as int;
            assert(text@.take(k + 1).drop_last() =~= text@.take(k));
            assert(text@.take(k + 1).last() == c);
        }
        write_escaped_char(out, c);
        assert(out@ =~= start + escaped(text@.take(it.index() + 1)));
    }
    out.push('"');
    proof {
        assert(text@.take(text@.len() as int) =~= text@);
        assert(out@ =~= old(out)@ + string_literal(text@));
    }
}

} // verus!
