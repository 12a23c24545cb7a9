//! Verified JSON string escaping. Request bodies sent to the bus carry
//! user-supplied text inside JSON string literals; escaping it keeps a
//! quote or control character in a credential from breaking out of the
//! literal.

use vstd::prelude::*;

verus! {

/// The hexadecimal digit character for `d < 16` (lower case).
pub open spec fn hex_digit(d: nat) -> char {
    if d == 0 {
        '0'
    } else if d == 1 {
        '1'
    } else if d == 2 {
        '2'
    } else if d == 3 {
        '3'
    } else if d == 4 {
        '4'
    } else if d == 5 {
        '5'
    } else if d == 6 {
        '6'
    } else if d == 7 {
        '7'
    } else if d == 8 {
        '8'
    } else if d == 9 {
        '9'
    } else if d == 10 {
        'a'
    } else if d == 11 {
        'b'
    } else if d == 12 {
        'c'
    } else if d == 13 {
        'd'
    } else if d == 14 {
        'e'
    } else {
        'f'
    }
}

/// How one character appears inside a JSON string literal: quotes and
/// backslashes are escaped, control characters become `\u00XX`, and
/// every other character stands as it is.
pub open spec fn esc_char(c: char) -> Seq<char> {
    if c == '"' {
        seq!['\\', '"']
    } else if c == '\\' {
        seq!['\\', '\\']
    } else if (c as u32) < 32 {
        seq!['\\', 'u', '0', '0', hex_digit((c as u32) as nat / 16), hex_digit((c as u32) as nat % 16)]
    } else {
        seq![c]
    }
}

/// The body of a JSON string literal holding the text `s`.
pub open spec fn json_escaped(s: Seq<char>) -> Seq<char>
    decreases s.len(),
{
    if s.len() == 0 {
        Seq::empty()
    } else {
        json_escaped(s.drop_last()) + esc_char(s.last())
    }
}

fn push_hex_digit(r: &mut String, d: u32)
    requires
        d < 16,
    ensures
        final(r)@ == old(r)@.push(hex_digit(d as nat)),
{
    if d == 0 {
        r.push('0');
    } else if d == 1 {
        r.push('1');
    } else if d == 2 {
        r.push('2');
    } else if d == 3 {
        r.push('3');
    } else if d == 4 {
        r.push('4');
    } else if d == 5 {
        r.push('5');
    } else if d == 6 {
        r.push('6');
    } else if d == 7 {
        r.push('7');
    } else if d == 8 {
        r.push('8');
    } else if d == 9 {
        r.push('9');
    } else if d == 10 {
        r.push('a');
    } else if d == 11 {
        r.push('b');
    } else if d == 12 {
        r.push('c');
    } else if d == 13 {
        r.push('d');
    } else if d == 14 {
        r.push('e');
    } else {
        r.push('f');
    }
}

fn push_esc_char(r: &mut String, c: char)
    ensures
        final(r)@ == old(r)@ + esc_char(c),
{
    if c == '"' {
        r.push('\\');
        r.push('"');
        proof {
            assert(r@ =~= old(r)@ + esc_char(c));
        }
    } else if c == '\\' {
        r.push('\\');
        r.push('\\');
        proof {
            assert(r@ =~= old(r)@ + esc_char(c));
        }
    } else {
        let code: u32 = c as u32;
        if code < 32 {
            r.push('\\');
            r.push('u');
            r.push('0');
            r.push('0');
            push_hex_digit(r, code / 16);
            push_hex_digit(r, code % 16);
            proof {
                assert(r@ =~= old(r)@ + esc_char(c));
            }
        } else {
            r.push(c);
            proof {
                assert(r@ =~= old(r)@ + esc_char(c));
            }
        }
    }
}

/// The body of a JSON string literal holding the text `s`, exactly
/// `json_escaped(s@)`.
pub fn escape_json(s: &str) -> (r: String)
    ensures
        r@ == json_escaped(s@),
{
    let n = s.unicode_len();
    let mut r = String::new();
    let mut i: usize = 0;
    while i < n
        invariant
            n == s@.len(),
            i <= n,
            r@ == json_escaped(s@.take(i as int)),
        decreases n - i,
    {
        let c = s.get_char(i);
        push_esc_char(&mut r, c);
        proof {
            assert(s@.take(i + 1).drop_last() =~= s@.take(i as int));
            assert(s@.take(i + 1).last() == c);
        }
        i += 1;
    }
    proof {
        assert(s@.take(n as int) =~= s@);
    }
    r
}

} // verus!
