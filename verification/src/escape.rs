//! Unicode escapes in the source text of string literals.

use vstd::prelude::*;
use vstd::string::StrSliceExecFns;

verus! {

/// Whether a character is a hexadecimal digit.
pub open spec fn is_hex(c: char) -> bool {
    ('0' <= c <= '9') || ('a' <= c <= 'f') || ('A' <= c <= 'F')
}

/// What a hexadecimal digit stands for.
pub open spec fn hex_value(c: char) -> nat {
    if '0' <= c <= '9' {
        (c as u32 - '0' as u32) as nat
    } else if 'a' <= c <= 'f' {
        (c as u32 - 'a' as u32 + 10) as nat
    } else {
        (c as u32 - 'A' as u32 + 10) as nat
    }
}

/// Whether a number is the code of a character: none lies above `10FFFF`, and
/// the codes from `D800` to `DFFF` stand for no character.
pub open spec fn is_scalar(value: nat) -> bool {
    value <= 0x10FFFF && !(0xD800 <= value <= 0xDFFF)
}

/// Whether what stands at index `at`, after `digits` hexadecimal digits that add
/// up to `value`, ends a unicode escape well: at most six digits in all, then
/// `}`, and the digits are the code of a character.
pub open spec fn escape_ends_well(text: Seq<char>, at: int, digits: nat, value: nat) -> bool
    decreases text.len() - at,
{
    if at < 0 || at >= text.len() || digits > 6 {
        false
    } else if text[at] == '}' {
        is_scalar(value)
    } else if is_hex(text[at]) {
        escape_ends_well(text, at + 1, digits + 1, value * 16 + hex_value(text[at]))
    } else {
        false
    }
}

/// Whether `{`, hexadecimal digits and `}` stand at index `at` and name a
/// character.
pub open spec fn escape_is_sound(text: Seq<char>, at: int) -> bool {
    0 <= at < text.len() && text[at] == '{' && escape_ends_well(text, at + 1, 0, 0)
}

/// Whether every unicode escape from index `at` on names a character. The text
/// is read from left to right, and a backslash is taken together with the
/// character after it: only where that character is `u` must the code of a
/// character follow in braces.
pub open spec fn escapes_sound_from(text: Seq<char>, at: int) -> bool
    decreases text.len() - at,
{
    if at < 0 || at + 1 >= text.len() {
        true
    } else if text[at] != '\\' {
        escapes_sound_from(text, at + 1)
    } else if text[at + 1] == 'u' {
        escape_is_sound(text, at + 2) && escapes_sound_from(text, at + 2)
    } else {
        escapes_sound_from(text, at + 2)
    }
}

/// Whether the source text of a literal can be read as a string without a unicode
/// escape that names no character. A text that starts with `r` is a raw string,
/// if it is a string at all, and holds no escapes.
pub open spec fn sound_escapes(text: Seq<char>) -> bool {
    (text.len() > 0 && text[0] == 'r') || escapes_sound_from(text, 0)
}

spec fn bound(digits: nat) -> nat {
    if digits == 0 {
        1
    } else if digits == 1 {
        0x10
    } else if digits == 2 {
        0x100
    } else if digits == 3 {
        0x1000
    } else if digits == 4 {
        0x10000
    } else if digits == 5 {
        0x100000
    } else if digits == 6 {
        0x1000000
    } else {
        0x10000000
    }
}

fn hex(c: char) -> (r: Option<u32>)
    ensures
        r.is_some() == is_hex(c),
        r matches Some(value) ==> value == hex_value(c) && value < 16,
{
    if '0' <= c && c <= '9' {
        Some(c as u32 - '0' as u32)
    } else if 'a' <= c && c <= 'f' {
        Some(c as u32 - 'a' as u32 + 10)
    } else if 'A' <= c && c <= 'F' {
        Some(c as u32 - 'A' as u32 + 10)
    } else {
        None
    }
}

fn sound_escape_at(text: &str, len: usize, at: usize) -> (r: bool)
    requires
        len == text@.len(),
    ensures
        r == escape_is_sound(text@, at as int),
{
    if at >= len || text.get_char(at) != '{' {
        return false;
    }
    let mut i: usize = at + 1;
    let mut digits: usize = 0;
    let mut value: u32 = 0;
    while i < len
        invariant
            len == text@.len(),
            at < i <= len,
            text@[at as int] == '{',
            digits <= 6,
            value < bound(digits as nat),
            escape_ends_well(text@, i as int, digits as nat, value as nat) == escape_ends_well(
                text@,
                at + 1,
                0,
                0,
            ),
        decreases len - i,
    {
        let c = text.get_char(i);
        if c == '}' {
            assert(escape_ends_well(text@, i as int, digits as nat, value as nat) == is_scalar(
                value as nat,
            ));
            return value <= 0x10FFFF && !(0xD800 <= value && value <= 0xDFFF);
        }
        match hex(c) {
            Some(digit) => {
                if digits == 6 {
                    assert(!escape_ends_well(
                        text@,
                        i + 1,
                        (digits + 1) as nat,
                        (value * 16 + digit) as nat,
                    ));
                    return false;
                }
                value = value * 16 + digit;
                digits += 1;
                i += 1;
            },
            None => {
                return false;
            },
        }
    }
    false
}

/// Tells whether the source text of a literal can be read as a string without a
/// unicode escape that names no character.
pub fn has_sound_escapes(text: &str) -> (r: bool)
    ensures
        r == sound_escapes(text@),
{
    let len = text.unicode_len();
    if len < 2 || text.get_char(0) == 'r' {
        return true;
    }
    let mut i: usize = 0;
    while i < len - 1
        invariant
            len == text@.len(),
            len >= 2,
            text@[0] != 'r',
            i <= len,
            escapes_sound_from(text@, i as int) == sound_escapes(text@),
        decreases len - i,
    {
        if text.get_char(i) != '\\' {
            i += 1;
        } else if text.get_char(i + 1) == 'u' {
            if !sound_escape_at(text, len, i + 2) {
                return false;
            }
            i += 2;
        } else {
            i += 2;
        }
    }
    true
}

} // verus!
