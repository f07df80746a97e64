//! Writing JSON text: string escaping and the small building blocks the
//! request encoder and the reconciler share. The escaping follows what
//! `serde_json` emits, so files and payloads written here read back the same
//! way.

use vstd::prelude::*;

use crate::digest::{hex_digit, hex_digit_char};
use crate::strutil::{push_char, str_chars};

verus! {

/// How one character is written inside a JSON string: the two-character
/// escapes for quote, backslash and the named control characters, `\u00XX`
/// for the remaining control characters, the character itself otherwise.
pub open spec fn escape_char_spec(c: char) -> Seq<char> {
    if c == '"' {
        seq!['\\', '"']
    } else if c == '\\' {
        seq!['\\', '\\']
    } else if c == '\u{0008}' {
        seq!['\\', 'b']
    } else if c == '\t' {
        seq!['\\', 't']
    } else if c == '\n' {
        seq!['\\', 'n']
    } else if c == '\u{000C}' {
        seq!['\\', 'f']
    } else if c == '\r' {
        seq!['\\', 'r']
    } else if (c as int) < 32 {
        seq!['\\', 'u', '0', '0', hex_digit(c as int / 16), hex_digit(c as int % 16)]
    } else {
        seq![c]
    }
}

/// The body of a JSON string holding the characters of `s`.
pub open spec fn json_escape_spec(s: Seq<char>) -> Seq<char>
    decreases s.len(),
{
    if s.len() == 0 {
        Seq::<char>::empty()
    } else {
        json_escape_spec(s.drop_last()) + escape_char_spec(s.last())
    }
}

/// A JSON string literal holding the characters of `s`, quotes included.
pub open spec fn json_string_spec(s: Seq<char>) -> Seq<char> {
    seq!['"'] + json_escape_spec(s) + seq!['"']
}

/// `true` or `false`.
pub open spec fn json_bool_spec(b: bool) -> Seq<char> {
    if b {
        "true"@
    } else {
        "false"@
    }
}

/// A JSON string literal, or `null` for a missing value.
pub open spec fn json_opt_string_spec(o: Option<Seq<char>>) -> Seq<char> {
    match o {
        Some(s) => json_string_spec(s),
        None => "null"@,
    }
}

fn append_escaped_char(out: &mut String, c: char)
    ensures
        final(out)@ == old(out)@ + escape_char_spec(c),
{
    if c == '"' {
        out.append("\\\"");
        proof {
            reveal_strlit("\\\"");
            assert(old(out)@ + "\\\""@ =~= old(out)@ + escape_char_spec(c));
        }
    } else if c == '\\' {
        out.append("\\\\");
        proof {
            reveal_strlit("\\\\");
            assert(old(out)@ + "\\\\"@ =~= old(out)@ + escape_char_spec(c));
        }
    } else if c == '\u{0008}' {
        out.append("\\b");
        proof {
            reveal_strlit("\\b");
            assert(old(out)@ + "\\b"@ =~= old(out)@ + escape_char_spec(c));
        }
    } else if c == '\t' {
        out.append("\\t");
        proof {
            reveal_strlit("\\t");
            assert(old(out)@ + "\\t"@ =~= old(out)@ + escape_char_spec(c));
        }
    } else if c == '\n' {
        out.append("\\n");
        proof {
            reveal_strlit("\\n");
            assert(old(out)@ + "\\n"@ =~= old(out)@ + escape_char_spec(c));
        }
    } else if c == '\u{000C}' {
        out.append("\\f");
        proof {
            reveal_strlit("\\f");
            assert(old(out)@ + "\\f"@ =~= old(out)@ + escape_char_spec(c));
        }
    } else if c == '\r' {
        out.append("\\r");
        proof {
            reveal_strlit("\\r");
            assert(old(out)@ + "\\r"@ =~= old(out)@ + escape_char_spec(c));
        }
    } else if (c as u32) < 32 {
        let code = c as u32;
        out.append("\\u00");
        push_char(out, hex_digit_char((code / 16) as u64));
        push_char(out, hex_digit_char((code % 16) as u64));
        proof {
            reveal_strlit("\\u00");
            assert(old(out)@ + "\\u00"@ + seq![hex_digit(c as int / 16)] + seq![
                hex_digit(c as int % 16),
            ] =~= old(out)@ + escape_char_spec(c));
        }
    } else {
        push_char(out, c);
        proof {
            assert(old(out)@.push(c) =~= old(out)@ + escape_char_spec(c));
        }
    }
}

/// Appends the JSON string literal for `s`, quotes and escapes included.
pub fn append_json_string(out: &mut String, s: &str)
    ensures
        final(out)@ == old(out)@ + json_string_spec(s@),
{
    let chars = str_chars(s);
    push_char(out, '"');
    let mut i: usize = 0;
    while i < chars.len()
        invariant
            chars@ == s@,
            i <= chars@.len(),
            out@ == old(out)@.push('"') + json_escape_spec(s@.take(i as int)),
        decreases chars@.len() - i,
    {
        proof {
            assert(s@.take(i + 1).drop_last() =~= s@.take(i as int));
            assert(s@.take(i + 1).last() == s@[i as int]);
        }
        append_escaped_char(out, chars[i]);
        i = i + 1;
    }
    push_char(out, '"');
    proof {
        assert(s@.take(s@.len() as int) =~= s@);
        assert(old(out)@.push('"') + json_escape_spec(s@) =~= old(out)@ + (seq!['"']
            + json_escape_spec(s@)));
        assert((old(out)@ + (seq!['"'] + json_escape_spec(s@))).push('"') =~= old(out)@
            + json_string_spec(s@));
    }
}

/// The JSON string literal for `s`, as its own string.
pub fn json_string(s: &str) -> (r: String)
    ensures
        r@ == json_string_spec(s@),
{
    let mut out = String::new();
    append_json_string(&mut out, s);
    proof {
        assert(Seq::<char>::empty() + json_string_spec(s@) =~= json_string_spec(s@));
    }
    out
}

/// Appends a JSON string literal, or `null` for a missing value.
pub fn append_json_opt_string(out: &mut String, o: Option<&String>)
    ensures
        final(out)@ == old(out)@ + json_opt_string_spec(match o {
            Some(s) => Some(s@),
            None => None::<Seq<char>>,
        }),
{
    match o {
        Some(s) => append_json_string(out, s.as_str()),
        None => out.append("null"),
    }
}

/// Appends `true` or `false`.
pub fn append_json_bool(out: &mut String, b: bool)
    ensures
        final(out)@ == old(out)@ + json_bool_spec(b),
{
    if b {
        out.append("true");
    } else {
        out.append("false");
    }
}

} // verus!
