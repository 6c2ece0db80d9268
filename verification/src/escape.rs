//! The escape sequences of the text protocol.
//!
//! A value in a request or an answer may hold no space, since spaces part the
//! fields of a line. A backslash, a space and a slash are therefore written as
//! `\\`, `\s` and `\/`.

use vstd::prelude::*;
use crate::text::to_chars;

verus! {

/// What stands for one character in an escaped value.
pub open spec fn escape_char(c: char) -> Seq<char> {
    if c == '\\' {
        seq!['\\', '\\']
    } else if c == ' ' {
        seq!['\\', 's']
    } else if c == '/' {
        seq!['\\', '/']
    } else {
        seq![c]
    }
}

/// The escaped form of a value: every character replaced by what stands for
/// it.
pub open spec fn escape_spec(s: Seq<char>) -> Seq<char>
    decreases s.len(),
{
    if s.len() == 0 {
        Seq::empty()
    } else {
        escape_char(s[0]) + escape_spec(s.drop_first())
    }
}

/// What an escape sequence with the given second character stands for; a
/// sequence that the protocol does not define stands for nothing.
pub open spec fn escaped_char(c: char) -> Seq<char> {
    if c == '\\' {
        seq!['\\']
    } else if c == 's' {
        seq![' ']
    } else if c == '/' {
        seq!['/']
    } else {
        Seq::empty()
    }
}

/// The value that an escaped form stands for: a backslash and the character
/// behind it are read as one escape sequence, and every other character
/// stands for itself. A backslash at the very end stands for nothing.
pub open spec fn unescape_spec(s: Seq<char>) -> Seq<char>
    decreases s.len(),
{
    if s.len() == 0 {
        Seq::empty()
    } else if s[0] != '\\' {
        seq![s[0]] + unescape_spec(s.drop_first())
    } else if s.len() == 1 {
        Seq::empty()
    } else {
        escaped_char(s[1]) + unescape_spec(s.skip(2))
    }
}

/// Whether a character can be the second of an escape sequence inside a row
/// of fields: it is one byte long, and it neither parts two fields nor a key
/// from its value.
pub open spec fn escapable(c: char) -> bool {
    c != ' ' && c != '=' && c as u32 <= 0x7f
}

/// Whether every escape sequence of a row is whole: each backslash that
/// begins one is followed by a character that can be its second.
pub open spec fn closed_escapes(s: Seq<char>) -> bool
    decreases s.len(),
{
    if s.len() == 0 {
        true
    } else if s[0] != '\\' {
        closed_escapes(s.drop_first())
    } else {
        s.len() >= 2 && escapable(s[1]) && closed_escapes(s.skip(2))
    }
}

/// Tests whether every escape sequence of a row is whole.
pub fn has_closed_escapes(s: &str) -> (r: bool)
    ensures
        r == closed_escapes(s@),
{
    let chars = to_chars(s);
    let mut i: usize = 0;
    assert(chars@.skip(0) =~= chars@);
    while i < chars.len()
        invariant
            i <= chars.len(),
            chars@ == s@,
            closed_escapes(s@) == closed_escapes(chars@.skip(i as int)),
        decreases chars.len() - i,
    {
        let ghost rest = chars@.skip(i as int);
        if chars[i] != '\\' {
            assert(rest.drop_first() =~= chars@.skip(i + 1));
            i += 1;
        } else {
            if chars.len() - i < 2 {
                return false;
            }
            let c = chars[i + 1];
            assert(rest[1] == c);
            if c == ' ' || c == '=' || c as u32 > 0x7f {
                return false;
            }
            assert(rest.skip(2) =~= chars@.skip(i + 2));
            i += 2;
        }
    }
    true
}

/// Escapes a value for use in a request line.
pub fn escape(s: &str) -> (r: String)
    ensures
        r@ == escape_spec(s@),
{
    let chars = to_chars(s);
    let mut out = String::new();
    let mut i: usize = 0;
    assert(chars@.skip(0) =~= chars@);
    assert(out@ + escape_spec(chars@) =~= escape_spec(chars@));
    while i < chars.len()
        invariant
            i <= chars.len(),
            chars@ == s@,
            escape_spec(s@) == out@ + escape_spec(chars@.skip(i as int)),
        decreases chars.len() - i,
    {
        let c = chars[i];
        let ghost before = out@;
        proof {
            assert(chars@.skip(i as int).drop_first() =~= chars@.skip(i + 1));
            assert(chars@.skip(i as int)[0] == c);
        }
        if c == '\\' {
            out.push('\\');
            out.push('\\');
        } else if c == ' ' {
            out.push('\\');
            out.push('s');
        } else if c == '/' {
            out.push('\\');
            out.push('/');
        } else {
            out.push(c);
        }
        assert(out@ =~= before + escape_char(c));
        assert(out@ + escape_spec(chars@.skip(i + 1)) =~= before + (escape_char(c) + escape_spec(
            chars@.skip(i + 1),
        )));
        i += 1;
    }
    assert(out@ + escape_spec(chars@.skip(chars.len() as int)) =~= out@);
    out
}

/// Reads an escaped value.
pub fn unescape(s: &str) -> (r: String)
    ensures
        r@ == unescape_spec(s@),
{
    let chars = to_chars(s);
    let mut out = String::new();
    let mut i: usize = 0;
    assert(chars@.skip(0) =~= chars@);
    assert(out@ + unescape_spec(chars@) =~= unescape_spec(chars@));
    while i < chars.len()
        invariant
            i <= chars.len(),
            chars@ == s@,
            unescape_spec(s@) == out@ + unescape_spec(chars@.skip(i as int)),
        decreases chars.len() - i,
    {
        let c = chars[i];
        let ghost before = out@;
        let ghost rest = chars@.skip(i as int);
        proof {
            assert(rest.drop_first() =~= chars@.skip(i + 1));
            assert(rest[0] == c);
        }
        if c != '\\' {
            out.push(c);
            assert(out@ + unescape_spec(chars@.skip(i + 1)) =~= before + (seq![c] + unescape_spec(
                chars@.skip(i + 1),
            )));
            i += 1;
        } else if i + 1 == chars.len() {
            assert(rest.len() == 1);
            assert(out@ + unescape_spec(chars@.skip(i + 1)) =~= before + unescape_spec(rest));
            i += 1;
        } else {
            let d = chars[i + 1];
            proof {
                assert(rest[1] == d);
                assert(rest.skip(2) =~= chars@.skip(i + 2));
            }
            if d == '\\' {
                out.push('\\');
            } else if d == 's' {
                out.push(' ');
            } else if d == '/' {
                out.push('/');
            }
            assert(out@ =~= before + escaped_char(d));
            assert(out@ + unescape_spec(chars@.skip(i + 2)) =~= before + (escaped_char(d)
                + unescape_spec(chars@.skip(i + 2))));
            i += 2;
        }
    }
    assert(out@ + unescape_spec(chars@.skip(chars.len() as int)) =~= out@);
    out
}

/// Reading the escaped form of any value gives the value back.
pub proof fn law_unescape_escape(s: Seq<char>)
    ensures
        unescape_spec(escape_spec(s)) == s,
    decreases s.len(),
{
    if s.len() > 0 {
        let c = s[0];
        let tail = escape_spec(s.drop_first());
        let whole = escape_char(c) + tail;
        law_unescape_escape(s.drop_first());
        if c == '\\' || c == ' ' || c == '/' {
            assert(whole[0] == '\\');
            assert(whole.len() >= 2);
            assert(whole.skip(2) =~= tail);
            assert(escaped_char(whole[1]) =~= seq![c]);
        } else {
            assert(whole[0] == c);
            assert(whole.drop_first() =~= tail);
        }
        assert(seq![c] + s.drop_first() =~= s);
    }
}

/// Every escape sequence that [`escape`] writes is whole, so that what this
/// library escapes can always be read back as a field.
pub proof fn law_escaped_is_closed(s: Seq<char>)
    ensures
        closed_escapes(escape_spec(s)),
    decreases s.len(),
{
    if s.len() > 0 {
        let c = s[0];
        let tail = escape_spec(s.drop_first());
        let whole = escape_char(c) + tail;
        law_escaped_is_closed(s.drop_first());
        if c == '\\' || c == ' ' || c == '/' {
            assert(whole[0] == '\\');
            assert(whole.skip(2) =~= tail);
        } else {
            assert(whole[0] == c);
            assert(whole.drop_first() =~= tail);
        }
    }
}

/// An escaped value holds no space, so that it can stand in a line whose
/// fields are parted by spaces.
pub proof fn law_escaped_has_no_space(s: Seq<char>)
    ensures
        forall|i: int| 0 <= i < escape_spec(s).len() ==> escape_spec(s)[i] != ' ',
    decreases s.len(),
{
    if s.len() > 0 {
        law_escaped_has_no_space(s.drop_first());
        let head = escape_char(s[0]);
        let tail = escape_spec(s.drop_first());
        assert forall|i: int| 0 <= i < escape_spec(s).len() implies escape_spec(s)[i] != ' ' by {
            if i >= head.len() {
                assert(escape_spec(s)[i] == tail[i - head.len()]);
            }
        }
    }
}

} // verus!
