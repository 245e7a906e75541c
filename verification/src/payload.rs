//! The release-creation request body: a JSON object with the keys
//! `tag_name`, `name`, `body`, `prerelease` and `draft`, where an absent
//! optional field is rendered as `null`, never as an empty string.

use vstd::prelude::*;
use vstd::string::{StrSliceExecFns, StringExecFns};

use crate::config::PublishConfig;
use crate::text::push_char;

verus! {

/// The hexadecimal digit characters in order.
pub open spec fn spec_hex_digit(d: int) -> char {
    if d == 0 {
        '0'
    } else if d == 1 {
        '1'
    } else if d == 2 {
        '2'
    } else if d == 3 {
        '3'
    } else if d == 4 {
        '4'
    } else if d == 5 {
        '5'
    } else if d == 6 {
        '6'
    } else if d == 7 {
        '7'
    } else if d == 8 {
        '8'
    } else if d == 9 {
        '9'
    } else if d == 10 {
        'a'
    } else if d == 11 {
        'b'
    } else if d == 12 {
        'c'
    } else if d == 13 {
        'd'
    } else if d == 14 {
        'e'
    } else {
        'f'
    }
}

fn hex_digit(d: u32) -> (c: char)
    requires
        d < 16,
    ensures
        c == spec_hex_digit(d as int),
{
    if d == 0 {
        '0'
    } else if d == 1 {
        '1'
    } else if d == 2 {
        '2'
    } else if d == 3 {
        '3'
    } else if d == 4 {
        '4'
    } else if d == 5 {
        '5'
    } else if d == 6 {
        '6'
    } else if d == 7 {
        '7'
    } else if d == 8 {
        '8'
    } else if d == 9 {
        '9'
    } else if d == 10 {
        'a'
    } else if d == 11 {
        'b'
    } else if d == 12 {
        'c'
    } else if d == 13 {
        'd'
    } else if d == 14 {
        'e'
    } else {
        'f'
    }
}

/// How one character is rendered inside a JSON string literal: quote and
/// backslash get a backslash escape, the named control characters their short
/// escapes, every other control character a `\u00` escape, and everything
/// else stands for itself.
pub open spec fn spec_escaped_char(c: char) -> Seq<char> {
    if c == '"' {
        "\\\""@
    } else if c == '\\' {
        "\\\\"@
    } else if c == '\n' {
        "\\n"@
    } else if c == '\r' {
        "\\r"@
    } else if c == '\t' {
        "\\t"@
    } else if c == '\u{8}' {
        "\\b"@
    } else if c == '\u{c}' {
        "\\f"@
    } else if (c as u32) < 0x20 {
        "\\u00"@ + seq![
            spec_hex_digit((c as u32) as int / 16),
            spec_hex_digit((c as u32) as int % 16),
        ]
    } else {
        seq![c]
    }
}

/// A text rendered inside a JSON string literal, character by character.
pub open spec fn spec_escape(s: Seq<char>) -> Seq<char>
    decreases s.len(),
{
    if s.len() == 0 {
        Seq::empty()
    } else {
        spec_escaped_char(s[0]) + spec_escape(s.drop_first())
    }
}

proof fn lemma_escape_snoc(s: Seq<char>, c: char)
    ensures
        spec_escape(s.push(c)) == spec_escape(s) + spec_escaped_char(c),
    decreases s.len(),
{
    if s.len() == 0 {
        assert(s.push(c)[0] == c);
        assert(s.push(c).drop_first() =~= Seq::<char>::empty());
        assert(spec_escape(s.push(c)) == spec_escaped_char(c) + spec_escape(
            Seq::<char>::empty(),
        ));
        assert(spec_escaped_char(c) + Seq::<char>::empty() =~= spec_escaped_char(c));
        assert(spec_escape(s) + spec_escaped_char(c) =~= spec_escaped_char(c));
        assert(spec_escape(s.push(c)) =~= spec_escape(s) + spec_escaped_char(c));
    } else {
        assert(s.push(c).drop_first() =~= s.drop_first().push(c));
        lemma_escape_snoc(s.drop_first(), c);
        assert(spec_escape(s.push(c)) =~= spec_escape(s) + spec_escaped_char(c));
    }
}

/// Append the escaped form of a text to the output.
fn append_escaped(out: &mut String, s: &str)
    ensures
        final(out)@ == old(out)@ + spec_escape(s@),
{
    let n = s.unicode_len();
    let mut i: usize = 0;
    while i < n
        invariant
            i <= n,
            n == s@.len(),
            out@ == old(out)@ + spec_escape(s@.subrange(0, i as int)),
        decreases n - i,
    {
        let c = s.get_char(i);
        if c == '"' {
            out.append("\\\"");
        } else if c == '\\' {
            out.append("\\\\");
        } else if c == '\n' {
            out.append("\\n");
        } else if c == '\r' {
            out.append("\\r");
        } else if c == '\t' {
            out.append("\\t");
        } else if c == '\u{8}' {
            out.append("\\b");
        } else if c == '\u{c}' {
            out.append("\\f");
        } else if (c as u32) < 0x20 {
            let v = c as u32;
            out.append("\\u00");
            push_char(out, hex_digit(v / 16));
            push_char(out, hex_digit(v % 16));
        } else {
            push_char(out, c);
        }
        proof {
            lemma_escape_snoc(s@.subrange(0, i as int), s@[i as int]);
            assert(s@.subrange(0, i + 1) =~= s@.subrange(0, i as int).push(s@[i as int]));
            assert(out@ =~= old(out)@ + spec_escape(s@.subrange(0, i + 1)));
        }
        i += 1;
    }
    proof {
        assert(s@.subrange(0, n as int) =~= s@);
    }
}

/// A JSON string literal: the escaped text between double quotes.
pub open spec fn spec_json_string(s: Seq<char>) -> Seq<char> {
    seq!['"'] + spec_escape(s) + seq!['"']
}

/// An optional string field: a JSON string literal, or `null` when absent.
pub open spec fn spec_json_opt_string(v: Option<Seq<char>>) -> Seq<char> {
    match v {
        Some(s) => spec_json_string(s),
        None => "null"@,
    }
}

/// An optional boolean field: `true`, `false`, or `null` when absent.
pub open spec fn spec_json_opt_bool(v: Option<bool>) -> Seq<char> {
    match v {
        Some(true) => "true"@,
        Some(false) => "false"@,
        None => "null"@,
    }
}

/// The whole release-creation body for the given field values.
pub open spec fn spec_payload(
    tag: Seq<char>,
    name: Option<Seq<char>>,
    body: Option<Seq<char>>,
    prerelease: Option<bool>,
    draft: Option<bool>,
) -> Seq<char> {
    "{\"tag_name\":"@ + spec_json_string(tag) + ",\"name\":"@ + spec_json_opt_string(name)
        + ",\"body\":"@ + spec_json_opt_string(body) + ",\"prerelease\":"@ + spec_json_opt_bool(
        prerelease,
    ) + ",\"draft\":"@ + spec_json_opt_bool(draft) + "}"@
}

/// Append a JSON string literal holding the given text.
fn append_json_string(out: &mut String, s: &str)
    ensures
        final(out)@ == old(out)@ + spec_json_string(s@),
{
    push_char(out, '"');
    append_escaped(out, s);
    push_char(out, '"');
    proof {
        assert(out@ =~= old(out)@ + spec_json_string(s@));
    }
}

/// Append an optional string field.
fn append_json_opt_string(out: &mut String, v: &Option<String>)
    ensures
        final(out)@ == old(out)@ + spec_json_opt_string(
            match v {
                Some(s) => Some(s@),
                None => None,
            },
        ),
{
    match v {
        Some(s) => append_json_string(out, s.as_str()),
        None => out.append("null"),
    }
}

/// Append an optional boolean field.
fn append_json_opt_bool(out: &mut String, v: &Option<bool>)
    ensures
        final(out)@ == old(out)@ + spec_json_opt_bool(*v),
{
    match v {
        Some(true) => out.append("true"),
        Some(false) => out.append("false"),
        None => out.append("null"),
    }
}

/// Build the release-creation request body from a validated configuration.
pub fn build_payload(cfg: &PublishConfig) -> (r: String)
    ensures
        r@ == spec_payload(
            cfg@.tag_name,
            cfg@.release_name,
            cfg@.release_body,
            cfg@.is_prerelease,
            cfg@.is_draft,
        ),
{
    let mut out = String::new();
    out.append("{\"tag_name\":");
    append_json_string(&mut out, cfg.tag_name.as_str());
    out.append(",\"name\":");
    append_json_opt_string(&mut out, &cfg.release_name);
    out.append(",\"body\":");
    append_json_opt_string(&mut out, &cfg.release_body);
    out.append(",\"prerelease\":");
    append_json_opt_bool(&mut out, &cfg.is_prerelease);
    out.append(",\"draft\":");
    append_json_opt_bool(&mut out, &cfg.is_draft);
    out.append("}");
    proof {
        assert(out@ =~= spec_payload(
            cfg@.tag_name,
            cfg@.release_name,
            cfg@.release_body,
            cfg@.is_prerelease,
            cfg@.is_draft,
        ));
    }
    out
}

} // verus!
