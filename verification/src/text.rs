//! Small pieces of text that the rest of the crate writes: decimal numbers
//! and quoted label values.

use vstd::prelude::*;
use vstd::utf8::decode_utf8;
use vstd::utf8::encode_utf8;
use vstd::utf8::encode_utf8_decode_utf8;

verus! {

/// Whether two pieces of text hold the same characters.
pub fn same_text(left: &str, right: &str) -> (same: bool)
    ensures
        same == (left@ == right@),
{
    let left_bytes = left.as_bytes();
    let right_bytes = right.as_bytes();
    proof {
        encode_utf8_decode_utf8(left@);
        encode_utf8_decode_utf8(right@);
    }
    if left_bytes.len() != right_bytes.len() {
        return false;
    }
    let length: usize = left_bytes.len();
    let mut at: usize = 0;
    while at < length
        invariant
            at <= length,
            length == left_bytes@.len(),
            length == right_bytes@.len(),
            left_bytes@ == encode_utf8(left@),
            right_bytes@ == encode_utf8(right@),
            forall|k: int| 0 <= k < at ==> left_bytes@[k] == right_bytes@[k],
        decreases length - at,
    {
        if left_bytes[at] != right_bytes[at] {
            return false;
        }
        at = at + 1;
    }
    assert(left_bytes@ =~= right_bytes@);
    assert(decode_utf8(encode_utf8(left@)) == left@);
    assert(decode_utf8(encode_utf8(right@)) == right@);
    true
}

/// The character that stands for a decimal digit.
pub open spec fn digit_char(digit: int) -> char {
    if digit == 0 {
        '0'
    } else if digit == 1 {
        '1'
    } else if digit == 2 {
        '2'
    } else if digit == 3 {
        '3'
    } else if digit == 4 {
        '4'
    } else if digit == 5 {
        '5'
    } else if digit == 6 {
        '6'
    } else if digit == 7 {
        '7'
    } else if digit == 8 {
        '8'
    } else {
        '9'
    }
}

/// A number in decimal notation, without sign and without leading zeros.
pub open spec fn decimal(number: nat) -> Seq<char>
    decreases number,
{
    if number < 10 {
        seq![digit_char(number as int)]
    } else {
        decimal(number / 10).push(digit_char((number % 10) as int))
    }
}

/// The text of one decimal digit.
fn digit_text(digit: u64) -> (text: &'static str)
    requires
        digit < 10,
    ensures
        text@ == seq![digit_char(digit as int)],
{
    proof {
        reveal_strlit("0");
        reveal_strlit("1");
        reveal_strlit("2");
        reveal_strlit("3");
        reveal_strlit("4");
        reveal_strlit("5");
        reveal_strlit("6");
        reveal_strlit("7");
        reveal_strlit("8");
        reveal_strlit("9");
    }
    let text = if digit == 0 {
        "0"
    } else if digit == 1 {
        "1"
    } else if digit == 2 {
        "2"
    } else if digit == 3 {
        "3"
    } else if digit == 4 {
        "4"
    } else if digit == 5 {
        "5"
    } else if digit == 6 {
        "6"
    } else if digit == 7 {
        "7"
    } else if digit == 8 {
        "8"
    } else {
        "9"
    };
    assert(text@ =~= seq![digit_char(digit as int)]);
    text
}

/// Writes a number in decimal notation at the end of `out`.
pub fn push_decimal(out: &mut String, number: u64)
    ensures
        final(out)@ == old(out)@ + decimal(number as nat),
    decreases number,
{
    if number >= 10 {
        push_decimal(out, number / 10);
    }
    out.append(digit_text(number % 10));
    assert(out@ =~= old(out)@ + decimal(number as nat));
}

/// A label value as it stands between double quotes: a backslash, a double
/// quote and a line feed are written as `\\`, `\"` and `\n`, every other
/// character as itself.
pub open spec fn escaped(value: Seq<char>) -> Seq<char>
    decreases value.len(),
{
    if value.len() == 0 {
        Seq::<char>::empty()
    } else {
        escaped(value.drop_last()) + escaped_char(value.last())
    }
}

/// How one character of a label value is written.
pub open spec fn escaped_char(c: char) -> Seq<char> {
    if c == '\\' {
        seq!['\\', '\\']
    } else if c == '"' {
        seq!['\\', '"']
    } else if c == '\n' {
        seq!['\\', 'n']
    } else {
        seq![c]
    }
}

/// Writes a label value at the end of `out`, escaped as [`escaped`] says.
pub fn push_escaped(out: &mut String, value: &str)
    ensures
        final(out)@ == old(out)@ + escaped(value@),
{
    let length: usize = value.unicode_len();
    let mut at: usize = 0;
    assert(value@.take(0) =~= Seq::<char>::empty());
    assert(out@ =~= old(out)@ + escaped(value@.take(0)));
    while at < length
        invariant
            at <= length == value@.len(),
            out@ == old(out)@ + escaped(value@.take(at as int)),
        decreases length - at,
    {
        let c: char = value.get_char(at);
        let ghost so_far = out@;
        if c == '\\' {
            out.append("\\\\");
            proof {
                reveal_strlit("\\\\");
            }
            assert("\\\\"@ =~= escaped_char(c));
        } else if c == '"' {
            out.append("\\\"");
            proof {
                reveal_strlit("\\\"");
            }
            assert("\\\""@ =~= escaped_char(c));
        } else if c == '\n' {
            out.append("\\n");
            proof {
                reveal_strlit("\\n");
            }
            assert("\\n"@ =~= escaped_char(c));
        } else {
            out.append(value.substring_char(at, at + 1));
            assert(value@.subrange(at as int, at + 1) =~= escaped_char(c));
        }
        proof {
            let before = value@.take(at as int);
            let after = value@.take(at + 1);
            assert(after.drop_last() =~= before);
            assert(after.last() == c);
            assert(escaped(after) == escaped(before) + escaped_char(c));
            assert(out@ == so_far + escaped_char(c));
            assert(out@ =~= old(out)@ + escaped(after));
        }
        at = at + 1;
    }
    assert(value@.take(length as int) =~= value@);
}

} // verus!
