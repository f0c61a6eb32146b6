//! Verified text building: decimal rendering of integers and JSON string
//! escaping, the two primitives from which the gateway's endpoint URLs and
//! request bodies are assembled.

use vstd::prelude::*;
use vstd::string::StrSliceExecFns;
use vstd::string::StringExecFns;

verus! {

/// Relies on std's String::push: appends the given character to the
/// end of the string.
pub assume_specification[ String::push ](s: &mut String, ch: char)
    ensures
        final (s)@ == old(s)@.push(ch),
;

/// Decimal digit sequence of a natural number, most significant first.
pub open spec fn dec_spec(n: nat) -> Seq<char>
    decreases n,
{
    if n < 10 {
        seq![digit_char(n)]
    } else {
        dec_spec(n / 10) + seq![digit_char(n % 10)]
    }
}

/// A URL on the local loopback interface: scheme and host, the port in
/// decimal, then the request path.
pub open spec fn loopback_url(port: u16, path: Seq<char>) -> Seq<char> {
    "http://127.0.0.1:"@ + dec_spec(port as nat) + path
}

/// The character for a single decimal digit.
pub open spec fn digit_char(d: nat) -> char {
    if d == 0 {
        '0'
    } else if d == 1 {
        '1'
    } else if d == 2 {
        '2'
    } else if d == 3 {
        '3'
    } else if d == 4 {
        '4'
    } else if d == 5 {
        '5'
    } else if d == 6 {
        '6'
    } else if d == 7 {
        '7'
    } else if d == 8 {
        '8'
    } else {
        '9'
    }
}

/// One-character string for a decimal digit.
fn digit_str(d: u16) -> (r: String)
    requires
        d < 10,
    ensures
        r@ == seq![digit_char(d as nat)],
{
    let s: &str = match d {
        0 => "0",
        1 => "1",
        2 => "2",
        3 => "3",
        4 => "4",
        5 => "5",
        6 => "6",
        7 => "7",
        8 => "8",
        _ => "9",
    };
    proof {
        reveal_strlit("0");
        reveal_strlit("1");
        reveal_strlit("2");
        reveal_strlit("3");
        reveal_strlit("4");
        reveal_strlit("5");
        reveal_strlit("6");
        reveal_strlit("7");
        reveal_strlit("8");
        reveal_strlit("9");
    }
    String::from_str(s)
}

/// The character for a single hexadecimal digit, lower case.
pub open spec fn hex_char(d: nat) -> char {
    if d < 10 {
        digit_char(d)
    } else if d == 10 {
        'a'
    } else if d == 11 {
        'b'
    } else if d == 12 {
        'c'
    } else if d == 13 {
        'd'
    } else if d == 14 {
        'e'
    } else {
        'f'
    }
}

/// How one character is written inside a JSON string literal: quote,
/// backslash and the common control characters get a two-character
/// escape, the remaining control characters a `\u00XX` escape, and
/// everything else stands for itself.
pub open spec fn esc_char(c: char) -> Seq<char> {
    if c == '"' {
        seq!['\\', '"']
    } else if c == '\\' {
        seq!['\\', '\\']
    } else if c == '\n' {
        seq!['\\', 'n']
    } else if c == '\r' {
        seq!['\\', 'r']
    } else if c == '\t' {
        seq!['\\', 't']
    } else if (c as u32) < 32 {
        seq!['\\', 'u', '0', '0', hex_char((c as u32 / 16) as nat), hex_char((c as u32 % 16) as nat)]
    } else {
        seq![c]
    }
}

/// The body of a JSON string literal for the given text: each character
/// replaced by its escape.
pub open spec fn json_escaped(s: Seq<char>) -> Seq<char>
    decreases s.len(),
{
    if s.len() == 0 {
        Seq::<char>::empty()
    } else {
        json_escaped(s.drop_last()) + esc_char(s.last())
    }
}

/// A complete JSON string literal: the escaped text between quotes.
pub open spec fn json_quoted(s: Seq<char>) -> Seq<char> {
    seq!['"'] + json_escaped(s) + seq!['"']
}

fn push_hex_digit(s: &mut String, d: u32)
    requires
        d < 16,
    ensures
        final (s)@ == old(s)@.push(hex_char(d as nat)),
{
    match d {
        0 => s.push('0'),
        1 => s.push('1'),
        2 => s.push('2'),
        3 => s.push('3'),
        4 => s.push('4'),
        5 => s.push('5'),
        6 => s.push('6'),
        7 => s.push('7'),
        8 => s.push('8'),
        9 => s.push('9'),
        10 => s.push('a'),
        11 => s.push('b'),
        12 => s.push('c'),
        13 => s.push('d'),
        14 => s.push('e'),
        _ => s.push('f'),
    }
}

/// Escapes a text for use inside a JSON string literal.
pub fn json_escape(src: &str) -> (r: String)
    ensures
        r@ == json_escaped(src@),
{
    let n = src.unicode_len();
    let mut out = String::new();
    let mut i: usize = 0;
    while i < n
        invariant
            n == src@.len(),
            i <= n,
            out@ == json_escaped(src@.subrange(0, i as int)),
        decreases n - i,
    {
        let c = src.get_char(i);
        if c == '"' {
            out.push('\\');
            out.push('"');
        } else if c == '\\' {
            out.push('\\');
            out.push('\\');
        } else if c == '\n' {
            out.push('\\');
            out.push('n');
        } else if c == '\r' {
            out.push('\\');
            out.push('r');
        } else if c == '\t' {
            out.push('\\');
            out.push('t');
        } else if (c as u32) < 32 {
            out.push('\\');
            out.push('u');
            out.push('0');
            out.push('0');
            push_hex_digit(&mut out, (c as u32) / 16);
            push_hex_digit(&mut out, (c as u32) % 16);
        } else {
            out.push(c);
        }
        proof {
            let pre = src@.subrange(0, i as int);
            let ext = src@.subrange(0, i + 1 as int);
            assert(ext.drop_last() =~= pre);
            assert(ext.last() == src@[i as int]);
            assert(out@ =~= json_escaped(pre) + esc_char(src@[i as int]));
        }
        i += 1;
    }
    proof {
        assert(src@.subrange(0, n as int) =~= src@);
    }
    out
}

/// Builds a complete JSON string literal for the given text.
pub fn json_quote(src: &str) -> (r: String)
    ensures
        r@ == json_quoted(src@),
{
    let mut out = String::new();
    out.push('"');
    let esc = json_escape(src);
    out.append(esc.as_str());
    out.push('"');
    proof {
        assert(out@ =~= json_quoted(src@));
    }
    out
}

/// Renders a port number in decimal, most significant digit first.
pub fn dec_str_u16(n: u16) -> (r: String)
    ensures
        r@ == dec_spec(n as nat),
    decreases n,
{
    if n < 10 {
        digit_str(n)
    } else {
        let mut s = dec_str_u16(n / 10);
        let d = digit_str(n % 10);
        s.append(d.as_str());
        s
    }
}

/// The character sequences of a sequence of strings.
pub open spec fn views_of(v: Seq<String>) -> Seq<Seq<char>> {
    v.map_values(|s: String| s@)
}

/// The given texts joined by commas.
pub open spec fn joined(items: Seq<Seq<char>>) -> Seq<char>
    decreases items.len(),
{
    if items.len() == 0 {
        Seq::<char>::empty()
    } else if items.len() == 1 {
        items[0]
    } else {
        joined(items.drop_last()) + seq![','] + items.last()
    }
}

/// Joins the given texts by commas.
pub fn join_commas(items: &Vec<String>) -> (r: String)
    ensures
        r@ == joined(views_of(items@)),
{
    let mut out = String::new();
    let mut i: usize = 0;
    while i < items.len()
        invariant
            i <= items@.len(),
            out@ == joined(views_of(items@).subrange(0, i as int)),
        decreases items@.len() - i,
    {
        if i > 0 {
            out.push(',');
        }
        out.append(items[i].as_str());
        proof {
            let vs = views_of(items@);
            let pre = vs.subrange(0, i as int);
            let ext = vs.subrange(0, i + 1 as int);
            assert(ext.drop_last() =~= pre);
            assert(ext.last() == items@[i as int]@);
            if i == 0 {
                assert(out@ =~= ext[0]);
            } else {
                assert(out@ =~= joined(pre) + seq![','] + ext.last());
            }
        }
        i += 1;
    }
    proof {
        assert(views_of(items@).subrange(0, items@.len() as int) =~= views_of(items@));
    }
    out
}

/// Builds a URL on the local loopback interface for the given port and
/// request path.
pub fn build_loopback_url(port: u16, path: &str) -> (r: String)
    ensures
        r@ == loopback_url(port, path@),
{
    let mut out = String::from_str("http://127.0.0.1:");
    let dec = dec_str_u16(port);
    out.append(dec.as_str());
    out.append(path);
    out
}

} // verus!

