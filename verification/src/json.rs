//! A small verified JSON emitter: exactly what the discovery documents
//! need — objects whose values are strings or arrays of strings — with
//! the rendering pinned down character by character.

use vstd::prelude::*;
use vstd::string::StrSliceExecFns;

verus! {

/// The lower-case hex digit for `d`.
pub open spec fn spec_hex_digit(d: nat) -> char {
    if d == 0 { '0' }
    else if d == 1 { '1' }
    else if d == 2 { '2' }
    else if d == 3 { '3' }
    else if d == 4 { '4' }
    else if d == 5 { '5' }
    else if d == 6 { '6' }
    else if d == 7 { '7' }
    else if d == 8 { '8' }
    else if d == 9 { '9' }
    else if d == 10 { 'a' }
    else if d == 11 { 'b' }
    else if d == 12 { 'c' }
    else if d == 13 { 'd' }
    else if d == 14 { 'e' }
    else if d == 15 { 'f' }
    else { '?' }
}

/// The JSON escape of one character inside a string literal: quote,
/// backslash and the common control characters get their two-character
/// escapes, other control characters a `\u00..` escape, everything else
/// stands as itself.
pub open spec fn spec_escape_char(c: char) -> Seq<char> {
    if c == '"' {
        seq!['\\', '"']
    } else if c == '\\' {
        seq!['\\', '\\']
    } else if c == '\n' {
        seq!['\\', 'n']
    } else if c == '\r' {
        seq!['\\', 'r']
    } else if c == '\t' {
        seq!['\\', 't']
    } else if (c as nat) < 32 {
        seq!['\\', 'u', '0', '0', spec_hex_digit((c as nat) / 16), spec_hex_digit((c as nat) % 16)]
    } else {
        seq![c]
    }
}

/// The JSON escape of a whole string body.
pub open spec fn spec_escape(s: Seq<char>) -> Seq<char>
    decreases s.len(),
{
    if s.len() == 0 {
        Seq::empty()
    } else {
        spec_escape(s.drop_last()) + spec_escape_char(s.last())
    }
}

/// A JSON string literal: the escaped body between double quotes.
pub open spec fn spec_quote(s: Seq<char>) -> Seq<char> {
    seq!['"'] + spec_escape(s) + seq!['"']
}

/// The comma-separated body of a JSON array of string literals.
pub open spec fn spec_arr_body(items: Seq<Seq<char>>) -> Seq<char>
    decreases items.len(),
{
    if items.len() == 0 {
        Seq::empty()
    } else if items.len() == 1 {
        spec_quote(items[0])
    } else {
        spec_arr_body(items.drop_last()) + seq![','] + spec_quote(items.last())
    }
}

/// A JSON array of string literals.
pub open spec fn spec_arr(items: Seq<Seq<char>>) -> Seq<char> {
    seq!['['] + spec_arr_body(items) + seq![']']
}

/// The views of a vector of strings.
pub open spec fn spec_views(items: Seq<String>) -> Seq<Seq<char>> {
    items.map_values(|s: String| s@)
}

/// Relies on std's String::push: appends one character to the string.
#[verifier::external_body]
fn push_char(out: &mut String, c: char)
    ensures
        final(out)@ == old(out)@ + seq![c],
{
    out.push(c);
}

fn append_hex_digit(out: &mut String, d: u32)
    requires
        d < 16,
    ensures
        final(out)@ == old(out)@ + seq![spec_hex_digit(d as nat)],
{
    let c: char = match d {
        0 => '0',
        1 => '1',
        2 => '2',
        3 => '3',
        4 => '4',
        5 => '5',
        6 => '6',
        7 => '7',
        8 => '8',
        9 => '9',
        10 => 'a',
        11 => 'b',
        12 => 'c',
        13 => 'd',
        14 => 'e',
        _ => 'f',
    };
    push_char(out, c);
}

fn append_escaped_char(out: &mut String, c: char)
    ensures
        final(out)@ == old(out)@ + spec_escape_char(c),
{
    if c == '"' {
        push_char(out, '\\');
        push_char(out, '"');
    } else if c == '\\' {
        push_char(out, '\\');
        push_char(out, '\\');
    } else if c == '\n' {
        push_char(out, '\\');
        push_char(out, 'n');
    } else if c == '\r' {
        push_char(out, '\\');
        push_char(out, 'r');
    } else if c == '\t' {
        push_char(out, '\\');
        push_char(out, 't');
    } else if (c as u32) < 32 {
        push_char(out, '\\');
        push_char(out, 'u');
        push_char(out, '0');
        push_char(out, '0');
        append_hex_digit(out, (c as u32) / 16);
        append_hex_digit(out, (c as u32) % 16);
    } else {
        push_char(out, c);
    }
    proof {
        assert(out@ =~= old(out)@ + spec_escape_char(c));
    }
}

/// Appends a JSON string literal for `s`.
fn append_quoted(out: &mut String, s: &str)
    ensures
        final(out)@ == old(out)@ + spec_quote(s@),
{
    push_char(out, '"');
    let n = s.unicode_len();
    for i in 0..n
        invariant
            n == s@.len(),
            out@ == old(out)@ + seq!['"'] + spec_escape(s@.take(i as int)),
    {
        proof {
            assert(s@.take(i + 1).drop_last() =~= s@.take(i as int));
            assert(s@.take(i + 1).last() == s@[i as int]);
        }
        append_escaped_char(out, s.get_char(i));
    }
    push_char(out, '"');
    proof {
        assert(s@.take(n as int) =~= s@);
        assert(out@ =~= old(out)@ + spec_quote(s@));
    }
}

/// Appends a JSON array of string literals for `items`.
fn append_arr(out: &mut String, items: &Vec<String>)
    ensures
        final(out)@ == old(out)@ + spec_arr(spec_views(items@)),
{
    push_char(out, '[');
    let n = items.len();
    for i in 0..n
        invariant
            n == items@.len(),
            out@ == old(out)@ + seq!['['] + spec_arr_body(spec_views(items@).take(i as int)),
    {
        if i > 0 {
            push_char(out, ',');
        }
        append_quoted(out, items[i].as_str());
        proof {
            let views = spec_views(items@);
            assert(views.take(i + 1).drop_last() =~= views.take(i as int));
            assert(views.take(i + 1).last() == items@[i as int]@);
            assert(out@ =~= old(out)@ + seq!['['] + spec_arr_body(views.take(i + 1)));
        }
    }
    push_char(out, ']');
    proof {
        assert(spec_views(items@).take(n as int) =~= spec_views(items@));
        assert(out@ =~= old(out)@ + spec_arr(spec_views(items@)));
    }
}

/// The text of an object member holding a string value.
pub open spec fn spec_member_str(key: Seq<char>, val: Seq<char>) -> Seq<char> {
    spec_quote(key) + seq![':'] + spec_quote(val)
}

/// The text of an object member holding an array of strings.
pub open spec fn spec_member_arr(key: Seq<char>, items: Seq<Seq<char>>) -> Seq<char> {
    spec_quote(key) + seq![':'] + spec_arr(items)
}

/// Appends `"key":"val"`.
pub fn append_member_str(out: &mut String, key: &str, val: &str)
    ensures
        final(out)@ == old(out)@ + spec_member_str(key@, val@),
{
    append_quoted(out, key);
    push_char(out, ':');
    append_quoted(out, val);
    proof {
        assert(out@ =~= old(out)@ + spec_member_str(key@, val@));
    }
}

/// Appends `"key":[...]`.
pub fn append_member_arr(out: &mut String, key: &str, items: &Vec<String>)
    ensures
        final(out)@ == old(out)@ + spec_member_arr(key@, spec_views(items@)),
{
    append_quoted(out, key);
    push_char(out, ':');
    append_arr(out, items);
    proof {
        assert(out@ =~= old(out)@ + spec_member_arr(key@, spec_views(items@)));
    }
}

/// Begins an object.
pub fn object_open(out: &mut String)
    ensures
        final(out)@ == old(out)@ + seq!['{'],
{
    push_char(out, '{');
}

/// Separates two members.
pub fn object_comma(out: &mut String)
    ensures
        final(out)@ == old(out)@ + seq![','],
{
    push_char(out, ',');
}

/// Ends an object.
pub fn object_close(out: &mut String)
    ensures
        final(out)@ == old(out)@ + seq!['}'],
{
    push_char(out, '}');
}

} // verus!
