//! Rendering of the HTTP response for the credential-serving endpoint.
//!
//! A successful generation is rendered as a JSON document with exactly the
//! four credential fields, as string values with JSON string escaping; any
//! failure collapses to a server error with an empty body, so that no
//! error detail reaches the client.
use vstd::prelude::*;

use crate::credentials::CredentialBundle;
use crate::error::GenerateTemporaryCredentialsError;

verus! {

/// HTTP status of a successful credential response.
pub const STATUS_OK: u16 = 200;

/// HTTP status of every failed credential response.
pub const STATUS_INTERNAL_SERVER_ERROR: u16 = 500;

/// The lower-case hexadecimal digit with value `d`.
pub open spec fn hex_digit(d: int) -> char {
    if d == 0 {
        '0'
    } else if d == 1 {
        '1'
    } else if d == 2 {
        '2'
    } else if d == 3 {
        '3'
    } else if d == 4 {
        '4'
    } else if d == 5 {
        '5'
    } else if d == 6 {
        '6'
    } else if d == 7 {
        '7'
    } else if d == 8 {
        '8'
    } else if d == 9 {
        '9'
    } else if d == 10 {
        'a'
    } else if d == 11 {
        'b'
    } else if d == 12 {
        'c'
    } else if d == 13 {
        'd'
    } else if d == 14 {
        'e'
    } else {
        'f'
    }
}

/// How one character is written inside a JSON string: quote and backslash
/// get a backslash escape, the named control characters get their short
/// escapes, every other control character is written as `\u00` followed by
/// two hexadecimal digits, and all remaining characters stand as
/// themselves.
pub open spec fn json_escaped_char(c: char) -> Seq<char> {
    if c == '"' {
        seq!['\\', '"']
    } else if c == '\\' {
        seq!['\\', '\\']
    } else if c == '\u{8}' {
        seq!['\\', 'b']
    } else if c == '\u{c}' {
        seq!['\\', 'f']
    } else if c == '\n' {
        seq!['\\', 'n']
    } else if c == '\r' {
        seq!['\\', 'r']
    } else if c == '\t' {
        seq!['\\', 't']
    } else if (c as u32) < 32 {
        seq!['\\', 'u', '0', '0', hex_digit((c as u32) as int / 16), hex_digit((c as u32) as int % 16)]
    } else {
        seq![c]
    }
}

/// The body of a JSON string: each character of `s` escaped, in order.
pub open spec fn json_escaped(s: Seq<char>) -> Seq<char>
    decreases s.len(),
{
    if s.len() == 0 {
        Seq::empty()
    } else {
        json_escaped(s.drop_last()) + json_escaped_char(s.last())
    }
}

/// The JSON document rendered for a successful generation: an object
/// holding exactly the four credential fields, each as an escaped string
/// value.
pub open spec fn spec_credentials_json(b: CredentialBundle) -> Seq<char> {
    "{\"accessKeyId\":\""@ + json_escaped(b.access_key_id@) + "\",\"secretAccessKey\":\""@
        + json_escaped(b.secret_access_key@) + "\",\"sessionToken\":\""@ + json_escaped(
        b.session_token@,
    ) + "\",\"expiration\":\""@ + json_escaped(b.expiration@) + "\"}"@
}

fn hex_digit_char(d: u32) -> (c: char)
    requires
        d < 16,
    ensures
        c == hex_digit(d as int),
{
    if d == 0 {
        '0'
    } else if d == 1 {
        '1'
    } else if d == 2 {
        '2'
    } else if d == 3 {
        '3'
    } else if d == 4 {
        '4'
    } else if d == 5 {
        '5'
    } else if d == 6 {
        '6'
    } else if d == 7 {
        '7'
    } else if d == 8 {
        '8'
    } else if d == 9 {
        '9'
    } else if d == 10 {
        'a'
    } else if d == 11 {
        'b'
    } else if d == 12 {
        'c'
    } else if d == 13 {
        'd'
    } else if d == 14 {
        'e'
    } else {
        'f'
    }
}

fn push_escaped_char(out: &mut Vec<char>, c: char)
    ensures
        final(out)@ == old(out)@ + json_escaped_char(c),
{
    if c == '"' {
        out.push('\\');
        out.push('"');
    } else if c == '\\' {
        out.push('\\');
        out.push('\\');
    } else if c == '\u{8}' {
        out.push('\\');
        out.push('b');
    } else if c == '\u{c}' {
        out.push('\\');
        out.push('f');
    } else if c == '\n' {
        out.push('\\');
        out.push('n');
    } else if c == '\r' {
        out.push('\\');
        out.push('r');
    } else if c == '\t' {
        out.push('\\');
        out.push('t');
    } else if (c as u32) < 32 {
        let code: u32 = c as u32;
        out.push('\\');
        out.push('u');
        out.push('0');
        out.push('0');
        out.push(hex_digit_char(code / 16));
        out.push(hex_digit_char(code % 16));
    } else {
        out.push(c);
    }
    proof {
        assert(out@ =~= old(out)@ + json_escaped_char(c));
    }
}

fn push_escaped_str(out: &mut Vec<char>, s: &str)
    ensures
        final(out)@ == old(out)@ + json_escaped(s@),
{
    let n = s.unicode_len();
    let mut i: usize = 0;
    proof {
        assert(s@.subrange(0, 0) =~= Seq::<char>::empty());
        assert(out@ =~= old(out)@ + json_escaped(s@.subrange(0, 0)));
    }
    while i < n
        invariant
            n == s@.len(),
            i <= n,
            out@ == old(out)@ + json_escaped(s@.subrange(0, i as int)),
        decreases n - i,
    {
        let c = s.get_char(i);
        push_escaped_char(out, c);
        proof {
            let pre = s@.subrange(0, i as int);
            let post = s@.subrange(0, i as int + 1);
            assert(post.drop_last() =~= pre);
            assert(post.last() == s@[i as int]);
            assert(out@ =~= old(out)@ + json_escaped(post));
        }
        i += 1;
    }
    proof {
        assert(s@.subrange(0, n as int) =~= s@);
    }
}

fn push_chars_of_str(out: &mut Vec<char>, s: &str)
    ensures
        final(out)@ == old(out)@ + s@,
{
    let n = s.unicode_len();
    let mut i: usize = 0;
    proof {
        assert(out@ =~= old(out)@ + s@.subrange(0, 0));
    }
    while i < n
        invariant
            n == s@.len(),
            i <= n,
            out@ == old(out)@ + s@.subrange(0, i as int),
        decreases n - i,
    {
        let c = s.get_char(i);
        out.push(c);
        proof {
            assert(s@.subrange(0, i as int + 1) =~= s@.subrange(0, i as int) + seq![s@[i as int]]);
            assert(out@ =~= old(out)@ + s@.subrange(0, i as int + 1));
        }
        i += 1;
    }
    proof {
        assert(s@.subrange(0, n as int) =~= s@);
    }
}

/// Relies on String's FromIterator<char> impl: collecting an iterator of
/// characters yields the string of exactly those characters in order.
#[verifier::external_body]
fn chars_to_string(v: &Vec<char>) -> (r: String)
    ensures
        r@ == v@,
{
    v.iter().collect()
}

/// Renders the JSON document for a successfully generated bundle.
pub fn render_credentials_json(b: &CredentialBundle) -> (r: String)
    ensures
        r@ == spec_credentials_json(*b),
{
    let mut out: Vec<char> = Vec::new();
    push_chars_of_str(&mut out, "{\"accessKeyId\":\"");
    push_escaped_str(&mut out, b.access_key_id.as_str());
    push_chars_of_str(&mut out, "\",\"secretAccessKey\":\"");
    push_escaped_str(&mut out, b.secret_access_key.as_str());
    push_chars_of_str(&mut out, "\",\"sessionToken\":\"");
    push_escaped_str(&mut out, b.session_token.as_str());
    push_chars_of_str(&mut out, "\",\"expiration\":\"");
    push_escaped_str(&mut out, b.expiration.as_str());
    push_chars_of_str(&mut out, "\"}");
    let r = chars_to_string(&out);
    proof {
        assert(r@ =~= spec_credentials_json(*b));
    }
    r
}

/// Builds the HTTP response for the result of one credential generation:
/// a success is served with status 200 and the JSON document for the
/// bundle; every failure, whatever its kind, is served with status 500 and
/// an empty body, so that no error detail leaks to the client.
pub fn http_response_for(outcome: Result<CredentialBundle, GenerateTemporaryCredentialsError>) -> (r: (
    u16,
    String,
))
    ensures
        outcome matches Ok(b) ==> r.0 == STATUS_OK && r.1@ == spec_credentials_json(b),
        outcome is Err ==> r.0 == STATUS_INTERNAL_SERVER_ERROR && r.1@ == Seq::<char>::empty(),
{
    match outcome {
        Ok(b) => (STATUS_OK, render_credentials_json(&b)),
        Err(_) => (STATUS_INTERNAL_SERVER_ERROR, String::new()),
    }
}

} // verus!
