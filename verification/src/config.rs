//! The cabinet record collected by the config command, and its
//! serialization: a pretty-printed JSON object with two-space indentation,
//! one field per line, holding the seven collected values verbatim under
//! their seven field names.
use vstd::prelude::*;

use crate::text::push_char;
use vstd::string::StrSliceExecFns;

verus! {

/// The seven-field organizational profile collected by the config command.
/// Every field is free text, accepted verbatim.
pub struct Cabinet {
    /// The organization's name.
    pub name: String,
    /// The street address.
    pub address: String,
    /// The city.
    pub city: String,
    /// The phone number.
    pub phone: String,
    /// The e-mail address.
    pub email: String,
    /// The website.
    pub website: String,
    /// The registration id.
    pub siret: String,
}

/// The lowercase hexadecimal digit for a value below sixteen.
pub open spec fn hex_digit(n: int) -> char {
    if n == 0 {
        '0'
    } else if n == 1 {
        '1'
    } else if n == 2 {
        '2'
    } else if n == 3 {
        '3'
    } else if n == 4 {
        '4'
    } else if n == 5 {
        '5'
    } else if n == 6 {
        '6'
    } else if n == 7 {
        '7'
    } else if n == 8 {
        '8'
    } else if n == 9 {
        '9'
    } else if n == 10 {
        'a'
    } else if n == 11 {
        'b'
    } else if n == 12 {
        'c'
    } else if n == 13 {
        'd'
    } else if n == 14 {
        'e'
    } else {
        'f'
    }
}

/// How one character appears inside a JSON string literal: quote and
/// backslash get a backslash escape, the five named control characters get
/// their short escapes, the remaining control characters get `\u00` and two
/// lowercase hex digits, and every other character stands for itself.
pub open spec fn json_escaped_char(c: char) -> Seq<char> {
    if c == '"' {
        seq!['\\', '"']
    } else if c == '\\' {
        seq!['\\', '\\']
    } else if c as u32 == 8 {
        seq!['\\', 'b']
    } else if c as u32 == 9 {
        seq!['\\', 't']
    } else if c as u32 == 10 {
        seq!['\\', 'n']
    } else if c as u32 == 12 {
        seq!['\\', 'f']
    } else if c as u32 == 13 {
        seq!['\\', 'r']
    } else if (c as u32) < 32 {
        seq!['\\', 'u', '0', '0', hex_digit(c as u32 as int / 16), hex_digit(c as u32 as int % 16)]
    } else {
        seq![c]
    }
}

/// A character sequence with every character escaped for a JSON string
/// literal.
pub open spec fn json_escaped(s: Seq<char>) -> Seq<char>
    decreases s.len(),
{
    if s.len() == 0 {
        Seq::<char>::empty()
    } else {
        json_escaped_char(s[0]) + json_escaped(s.drop_first())
    }
}

/// Escaping distributes over appending one character at the end.
pub proof fn lemma_json_escaped_push(s: Seq<char>, c: char)
    ensures
        json_escaped(s.push(c)) == json_escaped(s) + json_escaped_char(c),
    decreases s.len(),
{
    if s.len() == 0 {
        assert(s.push(c)[0] == c);
        assert(s.push(c).drop_first() =~= Seq::<char>::empty());
        assert(json_escaped(Seq::<char>::empty()) == Seq::<char>::empty());
        assert(json_escaped(s) == Seq::<char>::empty());
        assert(json_escaped(s.push(c)) =~= json_escaped(s) + json_escaped_char(c));
    } else {
        assert(s.push(c)[0] == s[0]);
        assert(s.push(c).drop_first() =~= s.drop_first().push(c));
        lemma_json_escaped_push(s.drop_first(), c);
        assert(json_escaped(s.push(c)) =~= json_escaped(s) + json_escaped_char(c));
    }
}

/// A JSON string literal: the escaped characters between two quotes.
pub open spec fn json_string(s: Seq<char>) -> Seq<char> {
    seq!['"'] + json_escaped(s) + seq!['"']
}

/// One indented field of the pretty-printed object: two spaces, the quoted
/// name, a colon and a space, and the quoted value.
pub open spec fn json_field(name: Seq<char>, value: Seq<char>) -> Seq<char> {
    seq![' ', ' '] + json_string(name) + seq![':', ' '] + json_string(value)
}

/// The pretty-printed JSON object for a cabinet record: the seven fields in
/// collection order, one per line, comma-separated, between braces.
pub open spec fn cabinet_json(c: Cabinet) -> Seq<char> {
    seq!['{', '\n'] + json_field("name"@, c.name@) + seq![',', '\n'] + json_field(
        "address"@,
        c.address@,
    ) + seq![',', '\n'] + json_field("city"@, c.city@) + seq![',', '\n'] + json_field(
        "phone"@,
        c.phone@,
    ) + seq![',', '\n'] + json_field("email"@, c.email@) + seq![',', '\n'] + json_field(
        "website"@,
        c.website@,
    ) + seq![',', '\n'] + json_field("siret"@, c.siret@) + seq!['\n', '}']
}

/// The lowercase hexadecimal digit for a value below sixteen.
fn hex_char(n: u32) -> (r: char)
    requires
        n < 16,
    ensures
        r == hex_digit(n as int),
{
    if n == 0 {
        '0'
    } else if n == 1 {
        '1'
    } else if n == 2 {
        '2'
    } else if n == 3 {
        '3'
    } else if n == 4 {
        '4'
    } else if n == 5 {
        '5'
    } else if n == 6 {
        '6'
    } else if n == 7 {
        '7'
    } else if n == 8 {
        '8'
    } else if n == 9 {
        '9'
    } else if n == 10 {
        'a'
    } else if n == 11 {
        'b'
    } else if n == 12 {
        'c'
    } else if n == 13 {
        'd'
    } else if n == 14 {
        'e'
    } else {
        'f'
    }
}

/// Appends one character in its JSON-escaped form.
fn append_escaped_char(out: &mut String, c: char)
    ensures
        final(out)@ == old(out)@ + json_escaped_char(c),
{
    if c == '"' {
        push_char(out, '\\');
        push_char(out, '"');
    } else if c == '\\' {
        push_char(out, '\\');
        push_char(out, '\\');
    } else {
        let n = c as u32;
        if n == 8 {
            push_char(out, '\\');
            push_char(out, 'b');
        } else if n == 9 {
            push_char(out, '\\');
            push_char(out, 't');
        } else if n == 10 {
            push_char(out, '\\');
            push_char(out, 'n');
        } else if n == 12 {
            push_char(out, '\\');
            push_char(out, 'f');
        } else if n == 13 {
            push_char(out, '\\');
            push_char(out, 'r');
        } else if n < 32 {
            push_char(out, '\\');
            push_char(out, 'u');
            push_char(out, '0');
            push_char(out, '0');
            push_char(out, hex_char(n / 16));
            push_char(out, hex_char(n % 16));
        } else {
            push_char(out, c);
        }
    }
    proof {
        assert(out@ =~= old(out)@ + json_escaped_char(c));
    }
}

/// Appends a JSON string literal holding the given text.
fn append_json_string(out: &mut String, s: &str)
    ensures
        final(out)@ == old(out)@ + json_string(s@),
{
    push_char(out, '"');
    proof {
        assert(s@.subrange(0, 0) =~= Seq::<char>::empty());
        assert(json_escaped(Seq::<char>::empty()) == Seq::<char>::empty());
        assert(out@ =~= old(out)@ + seq!['"'] + json_escaped(s@.subrange(0, 0)));
    }
    let n = s.unicode_len();
    let mut i: usize = 0;
    while i < n
        invariant
            0 <= i <= n,
            n == s@.len(),
            out@ == old(out)@ + seq!['"'] + json_escaped(s@.subrange(0, i as int)),
        decreases n - i,
    {
        let c = s.get_char(i);
        append_escaped_char(out, c);
        proof {
            assert(s@.subrange(0, i + 1 as int) =~= s@.subrange(0, i as int).push(s@[i as int]));
            lemma_json_escaped_push(s@.subrange(0, i as int), s@[i as int]);
        }
        i = i + 1;
    }
    push_char(out, '"');
    proof {
        assert(s@.subrange(0, s@.len() as int) =~= s@);
        assert(out@ =~= old(out)@ + json_string(s@));
    }
}

/// Appends one indented field line of the pretty-printed object.
fn append_json_field(out: &mut String, name: &str, value: &str)
    ensures
        final(out)@ == old(out)@ + json_field(name@, value@),
{
    push_char(out, ' ');
    push_char(out, ' ');
    append_json_string(out, name);
    push_char(out, ':');
    push_char(out, ' ');
    append_json_string(out, value);
    proof {
        assert(out@ =~= old(out)@ + json_field(name@, value@));
    }
}

/// Serializes a cabinet record as its pretty-printed JSON object: exactly
/// the seven collected values under the seven field names, in collection
/// order.
pub fn cabinet_to_json(c: &Cabinet) -> (r: String)
    ensures
        r@ == cabinet_json(*c),
{
    let mut out = String::new();
    push_char(&mut out, '{');
    push_char(&mut out, '\n');
    append_json_field(&mut out, "name", c.name.as_str());
    push_char(&mut out, ',');
    push_char(&mut out, '\n');
    append_json_field(&mut out, "address", c.address.as_str());
    push_char(&mut out, ',');
    push_char(&mut out, '\n');
    append_json_field(&mut out, "city", c.city.as_str());
    push_char(&mut out, ',');
    push_char(&mut out, '\n');
    append_json_field(&mut out, "phone", c.phone.as_str());
    push_char(&mut out, ',');
    push_char(&mut out, '\n');
    append_json_field(&mut out, "email", c.email.as_str());
    push_char(&mut out, ',');
    push_char(&mut out, '\n');
    append_json_field(&mut out, "website", c.website.as_str());
    push_char(&mut out, ',');
    push_char(&mut out, '\n');
    append_json_field(&mut out, "siret", c.siret.as_str());
    push_char(&mut out, '\n');
    push_char(&mut out, '}');
    proof {
        assert(out@ =~= cabinet_json(*c));
    }
    out
}

} // verus!
