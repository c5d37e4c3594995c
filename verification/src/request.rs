//! Construction of the part-search requests: the endpoint path and the JSON
//! body, both pinned down character by character.
//!
//! Supplying a manufacturer identifier routes the search to the
//! manufacturer-scoped endpoint with a `SearchByPartMfrRequest` body;
//! omitting it routes to the plain endpoint with a `SearchByPartRequest`
//! body.

use vstd::prelude::*;
use vstd::string::StrSliceExecFns;

use crate::numbers::{dec_chars, push_decimal};

verus! {

pub open spec fn hex_digit(n: nat) -> char
    recommends
        n < 16,
{
    if n < 10 {
        crate::numbers::dec_digit(n)
    } else if n == 10 {
        'a'
    } else if n == 11 {
        'b'
    } else if n == 12 {
        'c'
    } else if n == 13 {
        'd'
    } else if n == 14 {
        'e'
    } else {
        'f'
    }
}

/// How one character is written inside a JSON string literal: quote and
/// backslash get a backslash escape, the named control characters their
/// short escapes, the remaining control characters a `\u00..` escape, and
/// every other character stands as itself.
pub open spec fn escape_char(c: char) -> Seq<char> {
    if c == '"' {
        seq!['\\', '"']
    } else if c == '\\' {
        seq!['\\', '\\']
    } else if c == '\u{8}' {
        seq!['\\', 'b']
    } else if c == '\u{9}' {
        seq!['\\', 't']
    } else if c == '\u{a}' {
        seq!['\\', 'n']
    } else if c == '\u{c}' {
        seq!['\\', 'f']
    } else if c == '\u{d}' {
        seq!['\\', 'r']
    } else if (c as u32) < 32 {
        seq!['\\', 'u', '0', '0', hex_digit((c as u32 / 16) as nat), hex_digit(
            (c as u32 % 16) as nat,
        )]
    } else {
        seq![c]
    }
}

/// The body of a JSON string literal holding exactly the text `s`.
pub open spec fn json_escape(s: Seq<char>) -> Seq<char>
    decreases s.len(),
{
    if s.len() == 0 {
        Seq::empty()
    } else {
        json_escape(s.drop_last()) + escape_char(s.last())
    }
}

fn hex_digit_char(d: u32) -> (c: char)
    requires
        d < 16,
    ensures
        c == hex_digit(d as nat),
{
    match d {
        0 => '0',
        1 => '1',
        2 => '2',
        3 => '3',
        4 => '4',
        5 => '5',
        6 => '6',
        7 => '7',
        8 => '8',
        9 => '9',
        10 => 'a',
        11 => 'b',
        12 => 'c',
        13 => 'd',
        14 => 'e',
        _ => 'f',
    }
}

fn push_escaped_char(out: &mut Vec<char>, c: char)
    ensures
        final(out)@ == old(out)@ + escape_char(c),
{
    if c == '"' {
        out.push('\\');
        out.push('"');
    } else if c == '\\' {
        out.push('\\');
        out.push('\\');
    } else if c == '\u{8}' {
        out.push('\\');
        out.push('b');
    } else if c == '\u{9}' {
        out.push('\\');
        out.push('t');
    } else if c == '\u{a}' {
        out.push('\\');
        out.push('n');
    } else if c == '\u{c}' {
        out.push('\\');
        out.push('f');
    } else if c == '\u{d}' {
        out.push('\\');
        out.push('r');
    } else {
        let u = c as u32;
        if u < 32 {
            out.push('\\');
            out.push('u');
            out.push('0');
            out.push('0');
            out.push(hex_digit_char(u / 16));
            out.push(hex_digit_char(u % 16));
        } else {
            out.push(c);
        }
    }
    proof {
        assert(final(out)@ =~= old(out)@ + escape_char(c));
    }
}

/// Appends the escaped form of `s` to `out`.
fn push_escaped(out: &mut Vec<char>, s: &str)
    ensures
        final(out)@ == old(out)@ + json_escape(s@),
{
    let len: usize = s.unicode_len();
    let mut i: usize = 0;
    proof {
        assert(s@.take(0) =~= Seq::<char>::empty());
        assert(json_escape(Seq::<char>::empty()) =~= Seq::<char>::empty());
        assert(out@ =~= out@ + json_escape(s@.take(0)));
    }
    while i < len
        invariant
            i <= len,
            len == s@.len(),
            out@ == old(out)@ + json_escape(s@.take(i as int)),
        decreases len - i,
    {
        let c = s.get_char(i);
        proof {
            assert(s@.take(i + 1).drop_last() =~= s@.take(i as int));
            assert(s@.take(i + 1).last() == s@[i as int]);
        }
        push_escaped_char(out, c);
        i = i + 1;
    }
    proof {
        assert(s@.take(len as int) =~= s@);
    }
}

/// Appends the characters of `s` to `out`.
fn push_literal(out: &mut Vec<char>, s: &str)
    ensures
        final(out)@ == old(out)@ + s@,
{
    let len: usize = s.unicode_len();
    let mut i: usize = 0;
    while i < len
        invariant
            i <= len,
            len == s@.len(),
            out@ == old(out)@ + s@.take(i as int),
        decreases len - i,
    {
        let c = s.get_char(i);
        out.push(c);
        proof {
            assert(s@.take(i + 1) =~= s@.take(i as int).push(s@[i as int]));
        }
        i = i + 1;
    }
    proof {
        assert(s@.take(len as int) =~= s@);
    }
}

/// Relies on `String`'s `FromIterator<char>` implementation: the collected
/// string holds exactly the given characters, in order.
#[verifier::external_body]
fn chars_to_string(cs: &Vec<char>) -> (r: String)
    ensures
        r@ == cs@,
{
    cs.iter().collect()
}

/// The endpoint path of a part search, relative to the API base URL.
pub open spec fn part_path(manufacturer: Option<u64>) -> Seq<char> {
    if manufacturer is Some {
        "search/partnumberandmanufacturer"@
    } else {
        "search/partnumber"@
    }
}

/// The JSON body of a part search for `part`, optionally scoped to a
/// manufacturer.
pub open spec fn part_body(part: Seq<char>, manufacturer: Option<u64>) -> Seq<char> {
    match manufacturer {
        Option::Some(id) => "{\"SearchByPartMfrRequest\":{\"manufacturerId\":"@ + dec_chars(
            id as nat,
        ) + ",\"mouserPartNumber\":\""@ + json_escape(part) + "\"}}"@,
        Option::None => "{\"SearchByPartRequest\":{\"mouserPartNumber\":\""@ + json_escape(part)
            + "\"}}"@,
    }
}

/// A part-search request, ready to be sent: the endpoint path relative to
/// the API base URL, and the JSON body.
pub struct PartRequest {
    pub path: String,
    pub body: String,
}

/// Builds the part-search request for `part_number`.  A supplied
/// manufacturer identifier selects the manufacturer-scoped endpoint and the
/// `SearchByPartMfrRequest` body; without one the plain endpoint and the
/// `SearchByPartRequest` body are used.
pub fn part_request(part_number: &str, manufacturer: Option<u64>) -> (r: PartRequest)
    ensures
        r.path@ == part_path(manufacturer),
        r.body@ == part_body(part_number@, manufacturer),
{
    let mut body: Vec<char> = Vec::new();
    let path: &str = match manufacturer {
        Option::Some(id) => {
            push_literal(&mut body, "{\"SearchByPartMfrRequest\":{\"manufacturerId\":");
            push_decimal(&mut body, id);
            push_literal(&mut body, ",\"mouserPartNumber\":\"");
            push_escaped(&mut body, part_number);
            push_literal(&mut body, "\"}}");
            "search/partnumberandmanufacturer"
        },
        Option::None => {
            push_literal(&mut body, "{\"SearchByPartRequest\":{\"mouserPartNumber\":\"");
            push_escaped(&mut body, part_number);
            push_literal(&mut body, "\"}}");
            "search/partnumber"
        },
    };
    let r = PartRequest { path: path.to_owned(), body: chars_to_string(&body) };
    proof {
        assert(r.body@ =~= part_body(part_number@, manufacturer));
    }
    r
}

/// The endpoint path of the manufacturer listing, relative to the API base
/// URL.
pub open spec fn manufacturer_list_path() -> Seq<char> {
    "search/manufacturerlist"@
}

/// The endpoint path the manufacturer listing is requested from.
pub fn manufacturer_list_request_path() -> (r: String)
    ensures
        r@ == manufacturer_list_path(),
{
    "search/manufacturerlist".to_owned()
}

} // verus!
