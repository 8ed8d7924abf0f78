use vstd::prelude::*;
use vstd::string::StringExecFns;
use crate::config::ConfigView;
use crate::config::VpnConfig;

verus! {

/// Relies on `String::push`: appends the given character to the end of the
/// string.
pub assume_specification[ String::push ](s: &mut String, c: char)
    ensures
        final(s)@ == old(s)@.push(c),
;

/// The character for one decimal digit.
pub open spec fn dec_digit(d: nat) -> char {
    if d == 0 {
        '0'
    } else if d == 1 {
        '1'
    } else if d == 2 {
        '2'
    } else if d == 3 {
        '3'
    } else if d == 4 {
        '4'
    } else if d == 5 {
        '5'
    } else if d == 6 {
        '6'
    } else if d == 7 {
        '7'
    } else if d == 8 {
        '8'
    } else {
        '9'
    }
}

/// The decimal rendering of a natural number, most significant digit first,
/// with no leading zeroes (a single `'0'` for zero).
pub open spec fn dec_rep(n: nat) -> Seq<char>
    decreases n,
{
    if n < 10 {
        seq![dec_digit(n)]
    } else {
        dec_rep(n / 10).push(dec_digit(n % 10))
    }
}

/// The character for one hexadecimal digit, lower case.
pub open spec fn hex_digit(d: nat) -> char {
    if d == 0 {
        '0'
    } else if d == 1 {
        '1'
    } else if d == 2 {
        '2'
    } else if d == 3 {
        '3'
    } else if d == 4 {
        '4'
    } else if d == 5 {
        '5'
    } else if d == 6 {
        '6'
    } else if d == 7 {
        '7'
    } else if d == 8 {
        '8'
    } else if d == 9 {
        '9'
    } else if d == 10 {
        'a'
    } else if d == 11 {
        'b'
    } else if d == 12 {
        'c'
    } else if d == 13 {
        'd'
    } else if d == 14 {
        'e'
    } else {
        'f'
    }
}

/// How one character appears inside a JSON string literal: quote and
/// backslash get a backslash escape, control characters a `\u00..` escape,
/// and every other character stands as itself.
pub open spec fn json_escape_char(c: char) -> Seq<char> {
    if c == '"' {
        seq!['\\', '"']
    } else if c == '\\' {
        seq!['\\', '\\']
    } else if (c as u32) < 0x20 {
        seq!['\\', 'u', '0', '0'] + seq![
            hex_digit(((c as u32) / 16) as nat),
            hex_digit(((c as u32) % 16) as nat),
        ]
    } else {
        seq![c]
    }
}

/// A sequence of characters escaped for the inside of a JSON string literal.
pub open spec fn json_escape(s: Seq<char>) -> Seq<char>
    decreases s.len(),
{
    if s.len() == 0 {
        Seq::empty()
    } else {
        json_escape_char(s[0]) + json_escape(s.drop_first())
    }
}

/// Escaping one character more at the end appends that character's escape.
pub proof fn lemma_json_escape_push(s: Seq<char>, c: char)
    ensures
        json_escape(s.push(c)) == json_escape(s) + json_escape_char(c),
    decreases s.len(),
{
    if s.len() == 0 {
        assert(s.push(c).drop_first() =~= Seq::<char>::empty());
        assert(json_escape(Seq::<char>::empty()) =~= Seq::<char>::empty());
        assert(s.push(c)[0] == c);
        assert(json_escape(s.push(c)) =~= json_escape_char(c));
        assert(json_escape(s.push(c)) =~= json_escape(s) + json_escape_char(c));
    } else {
        lemma_json_escape_push(s.drop_first(), c);
        assert(s.push(c).drop_first() =~= s.drop_first().push(c));
        assert(s.push(c)[0] == s[0]);
        assert(json_escape(s.push(c)) == json_escape_char(s[0]) + (json_escape(s.drop_first())
            + json_escape_char(c)));
        assert(json_escape_char(s[0]) + (json_escape(s.drop_first()) + json_escape_char(c))
            =~= (json_escape_char(s[0]) + json_escape(s.drop_first())) + json_escape_char(c));
        assert(json_escape(s.push(c)) =~= json_escape(s) + json_escape_char(c));
    }
}

/// The character for one decimal digit.
pub fn dec_digit_char(d: u16) -> (c: char)
    requires
        d < 10,
    ensures
        c == dec_digit(d as nat),
{
    match d {
        0 => '0',
        1 => '1',
        2 => '2',
        3 => '3',
        4 => '4',
        5 => '5',
        6 => '6',
        7 => '7',
        8 => '8',
        _ => '9',
    }
}

/// The character for one hexadecimal digit, lower case.
pub fn hex_digit_char(d: u32) -> (c: char)
    requires
        d < 16,
    ensures
        c == hex_digit(d as nat),
{
    match d {
        0 => '0',
        1 => '1',
        2 => '2',
        3 => '3',
        4 => '4',
        5 => '5',
        6 => '6',
        7 => '7',
        8 => '8',
        9 => '9',
        10 => 'a',
        11 => 'b',
        12 => 'c',
        13 => 'd',
        14 => 'e',
        _ => 'f',
    }
}

/// Append the decimal rendering of `n`.
pub fn push_decimal(out: &mut String, n: u16)
    ensures
        final(out)@ == old(out)@ + dec_rep(n as nat),
    decreases n,
{
    if n >= 10 {
        push_decimal(out, n / 10);
        let d = dec_digit_char(n % 10);
        out.push(d);
        proof {
            assert(final(out)@ =~= old(out)@ + dec_rep(n as nat));
        }
    } else {
        let d = dec_digit_char(n);
        out.push(d);
        proof {
            assert(final(out)@ =~= old(out)@ + dec_rep(n as nat));
        }
    }
}

/// The decimal rendering of a 16-bit number as a fresh string.
pub fn u16_decimal(n: u16) -> (s: String)
    ensures
        s@ == dec_rep(n as nat),
{
    let mut out = String::new();
    push_decimal(&mut out, n);
    proof {
        assert(out@ =~= dec_rep(n as nat));
    }
    out
}

/// Append `s` escaped for the inside of a JSON string literal.
pub fn push_json_escaped(out: &mut String, s: &str)
    ensures
        final(out)@ == old(out)@ + json_escape(s@),
{
    let len = s.unicode_len();
    let mut i: usize = 0;
    while i < len
        invariant
            len == s@.len(),
            i <= len,
            out@ == old(out)@ + json_escape(s@.subrange(0, i as int)),
        decreases len - i,
    {
        let c = s.get_char(i);
        proof {
            lemma_json_escape_push(s@.subrange(0, i as int), c);
            assert(s@.subrange(0, i as int).push(c) =~= s@.subrange(0, i as int + 1));
        }
        if c == '"' {
            out.push('\\');
            out.push('"');
        } else if c == '\\' {
            out.push('\\');
            out.push('\\');
        } else if (c as u32) < 0x20 {
            out.push('\\');
            out.push('u');
            out.push('0');
            out.push('0');
            let v = c as u32;
            let hi = hex_digit_char(v / 16);
            out.push(hi);
            let lo = hex_digit_char(v % 16);
            out.push(lo);
        } else {
            out.push(c);
        }
        proof {
            assert(out@ =~= old(out)@ + json_escape(s@.subrange(0, i as int + 1)));
        }
        i = i + 1;
    }
    proof {
        assert(s@.subrange(0, len as int) =~= s@);
    }
}

/// The JSON request body carrying a tunnel configuration, as written to the
/// helper's standard input.
pub open spec fn config_json(c: ConfigView) -> Seq<char> {
    "{\"clash_host\":\""@ + json_escape(c.clash_host) + "\",\"clash_port\":"@ + dec_rep(
        c.clash_port as nat,
    ) + ",\"node_name\":\""@ + json_escape(c.node_name) + "\"}"@
}

/// The empty JSON request body, sent when no configuration is stored.
pub open spec fn empty_json() -> Seq<char> {
    "{}"@
}

/// Encode a tunnel configuration as the helper's JSON request body.
pub fn config_request_body(c: &VpnConfig) -> (s: String)
    ensures
        s@ == config_json(c@),
{
    let mut out = String::new();
    out.append("{\"clash_host\":\"");
    push_json_escaped(&mut out, c.clash_host.as_str());
    out.append("\",\"clash_port\":");
    push_decimal(&mut out, c.clash_port);
    out.append(",\"node_name\":\"");
    push_json_escaped(&mut out, c.node_name.as_str());
    out.append("\"}");
    proof {
        assert(out@ =~= config_json(c@));
    }
    out
}

/// The empty JSON request body as a fresh string.
pub fn empty_request_body() -> (s: String)
    ensures
        s@ == empty_json(),
{
    "{}".to_owned()
}

/// The loopback socket address probed for the proxy core's listener.
pub open spec fn loopback_addr_chars(port: u16) -> Seq<char> {
    "127.0.0.1:"@ + dec_rep(port as nat)
}

/// Render the loopback socket address for a port, as handed to a TCP probe.
pub fn loopback_addr(port: u16) -> (s: String)
    ensures
        s@ == loopback_addr_chars(port),
{
    let mut out = "127.0.0.1:".to_owned();
    push_decimal(&mut out, port);
    out
}

} // verus!
