use vstd::prelude::*;
use crate::chars::{is_hex_digit, spec_is_hex_digit};

verus! {

pub open spec fn hex_digit_value(c: char) -> nat {
    let ch = c as u32;
    if 0x30 <= ch <= 0x39 {
        (ch - 0x30) as nat
    } else if 0x41 <= ch <= 0x46 {
        (ch - 0x41 + 10) as nat
    } else {
        (ch - 0x61 + 10) as nat
    }
}

/// Every character of `t[a..b)` is a hexadecimal digit.
pub open spec fn all_hex(t: Seq<char>, a: int, b: int) -> bool {
    forall|i: int| a <= i < b ==> spec_is_hex_digit(#[trigger] t[i])
}

/// The number that the hexadecimal digits `t[a..b)` spell.
pub open spec fn hex_value(t: Seq<char>, a: int, b: int) -> nat
    decreases b - a,
{
    if b <= a {
        0
    } else {
        hex_value(t, a, b - 1) * 16 + hex_digit_value(t[b - 1])
    }
}

fn hex_digit(c: char) -> (r: u32)
    requires
        spec_is_hex_digit(c),
    ensures
        r == hex_digit_value(c),
        r < 16,
{
    let ch = c as u32;
    if 0x30 <= ch && ch <= 0x39 {
        ch - 0x30
    } else if 0x41 <= ch && ch <= 0x46 {
        ch - 0x41 + 10
    } else {
        ch - 0x61 + 10
    }
}

/// The first index at or after `a`, and before `end`, that holds no hexadecimal digit.
pub open spec fn hex_run_end(t: Seq<char>, a: int, end: int) -> int
    decreases end - a,
{
    if 0 <= a < end && spec_is_hex_digit(t[a]) {
        hex_run_end(t, a + 1, end)
    } else {
        a
    }
}

/// The form and end of the escape sequence after the backslash at `i - 1`.
pub open spec fn escape_of(t: Seq<char>, i: int, end: int) -> (EscapeKind, int) {
    if t[i] == 'x' {
        if i + 3 <= end && all_hex(t, i + 1, i + 3) {
            (EscapeKind::Hex, i + 3)
        } else {
            (EscapeKind::Invalid, i + 1)
        }
    } else if t[i] != 'u' {
        if t[i] == '\r' && i + 1 < end && t[i + 1] == '\n' {
            (EscapeKind::Simple, i + 2)
        } else {
            (EscapeKind::Simple, i + 1)
        }
    } else if i + 5 <= end && all_hex(t, i + 1, i + 5) {
        (EscapeKind::Unicode, i + 5)
    } else {
        let j = hex_run_end(t, i + 2, end);
        if i + 1 < end && t[i + 1] == '{' && j > i + 2 && j < end && t[j] == '}' && hex_value(
            t,
            i + 2,
            j,
        ) <= 0x10FFFF {
            (EscapeKind::ExtendedUnicode, j + 1)
        } else {
            (EscapeKind::Invalid, i + 1)
        }
    }
}

/// The code point that an escape of form `kind` ending at `e`, read from `i`, names.
pub open spec fn escape_value(t: Seq<char>, i: int, kind: EscapeKind, e: int) -> nat {
    match kind {
        EscapeKind::Hex => hex_value(t, i + 1, i + 3),
        EscapeKind::Unicode => hex_value(t, i + 1, i + 5),
        EscapeKind::ExtendedUnicode => hex_value(t, i + 2, e - 1),
        _ => 0,
    }
}

/// The forms of escape sequence.
#[derive(Clone, Copy, Debug, PartialEq, Eq, Structural)]
pub enum EscapeKind {
    /// A backslash and one character (or a carriage return and line feed).
    Simple,
    /// `\uXXXX`.
    Unicode,
    /// `\u{X...}`, naming at most 0x10FFFF.
    ExtendedUnicode,
    /// `\xXX`.
    Hex,
    /// A `\u` or `\x` without the digits it needs.
    Invalid,
}

/// An escape sequence: where it ends and its form.
pub struct Escape {
    pub end: usize,
    pub kind: EscapeKind,
    /// The code point named, for the hexadecimal and Unicode forms.
    pub value: u32,
}

/// Reads the escape sequence whose backslash stands just before `i`.
pub fn escape_sequence(text: &[char], i: usize, end: usize) -> (r: Escape)
    requires
        i < end <= text@.len(),
    ensures
        i < r.end <= end,
        (r.kind, r.end as int) == escape_of(text@, i as int, end as int),
        r.value == escape_value(text@, i as int, r.kind, r.end as int),
        (r.kind == EscapeKind::Simple) == (text@[i as int] != 'u' && text@[i as int] != 'x'),
        r.kind == EscapeKind::Simple ==> r.end == i + 1 || (r.end == i + 2 && text@[i as int]
            == '\r' && text@[i + 1] == '\n'),
        (r.kind == EscapeKind::Unicode) == (text@[i as int] == 'u' && i + 5 <= end && all_hex(
            text@,
            i + 1,
            i + 5,
        )),
        r.kind == EscapeKind::Unicode ==> r.end == i + 5,
        (r.kind == EscapeKind::Hex) == (text@[i as int] == 'x' && i + 3 <= end && all_hex(
            text@,
            i + 1,
            i + 3,
        )),
        r.kind == EscapeKind::Hex ==> r.end == i + 3,
        r.kind == EscapeKind::ExtendedUnicode ==> {
            &&& text@[i as int] == 'u'
            &&& text@[i + 1] == '{'
            &&& r.end >= i + 4
            &&& text@[r.end - 1] == '}'
            &&& all_hex(text@, i + 2, r.end - 1)
            &&& hex_value(text@, i + 2, r.end - 1) <= 0x10FFFF
        },
{
    let c = text[i];
    if c == 'x' {
        if end - i >= 3 && is_hex_digit(text[i + 1]) && is_hex_digit(text[i + 2]) {
            let v = hex_digit(text[i + 1]) * 16 + hex_digit(text[i + 2]);
            proof {
                assert(hex_value(text@, i + 1, i + 1) == 0);
                assert(hex_value(text@, i + 1, i + 2) == hex_digit_value(text@[i + 1]));
            }
            return Escape { end: i + 3, kind: EscapeKind::Hex, value: v };
        }
        proof {
            if i + 3 <= end && all_hex(text@, i + 1, i + 3) {
                assert(spec_is_hex_digit(text@[i + 1]) && spec_is_hex_digit(text@[i + 2]));
            }
        }
        return Escape { end: i + 1, kind: EscapeKind::Invalid, value: 0 };
    }
    if c != 'u' {
        if c == '\r' && i + 1 < end && text[i + 1] == '\n' {
            return Escape { end: i + 2, kind: EscapeKind::Simple, value: 0 };
        }
        return Escape { end: i + 1, kind: EscapeKind::Simple, value: 0 };
    }
    if end - i >= 5 && is_hex_digit(text[i + 1]) && is_hex_digit(text[i + 2]) && is_hex_digit(
        text[i + 3],
    ) && is_hex_digit(text[i + 4]) {
        let v = ((hex_digit(text[i + 1]) * 16 + hex_digit(text[i + 2])) * 16 + hex_digit(
            text[i + 3],
        )) * 16 + hex_digit(text[i + 4]);
        proof {
            assert(hex_value(text@, i + 1, i + 1) == 0);
            assert(hex_value(text@, i + 1, i + 2) == hex_digit_value(text@[i + 1]));
            assert(hex_value(text@, i + 1, i + 3) == hex_value(text@, i + 1, i + 2) * 16
                + hex_digit_value(text@[i + 2]));
            assert(hex_value(text@, i + 1, i + 4) == hex_value(text@, i + 1, i + 3) * 16
                + hex_digit_value(text@[i + 3]));
        }
        return Escape { end: i + 5, kind: EscapeKind::Unicode, value: v };
    }
    proof {
        if i + 5 <= end && all_hex(text@, i + 1, i + 5) {
            assert(spec_is_hex_digit(text@[i + 1]) && spec_is_hex_digit(text@[i + 2])
                && spec_is_hex_digit(text@[i + 3]) && spec_is_hex_digit(text@[i + 4]));
        }
    }
    if i + 1 < end && text[i + 1] == '{' {
        let mut j = i + 2;
        let mut value: u32 = 0;
        let mut over = false;
        while j < end && is_hex_digit(text[j])
            invariant
                i + 2 <= j <= end <= text@.len(),
                all_hex(text@, i + 2, j as int),
                hex_run_end(text@, j as int, end as int) == hex_run_end(
                    text@,
                    i + 2,
                    end as int,
                ),
                !over ==> value == hex_value(text@, i + 2, j as int) && value <= 0x10FFFF,
                over ==> hex_value(text@, i + 2, j as int) > 0x10FFFF,
            decreases end - j,
        {
            let d = hex_digit(text[j]);
            if !over {
                value = value * 16 + d;
                if value > 0x10FFFF {
                    over = true;
                }
            }
            j = j + 1;
        }
        if j > i + 2 && j < end && text[j] == '}' && !over {
            return Escape { end: j + 1, kind: EscapeKind::ExtendedUnicode, value };
        }
    }
    Escape { end: i + 1, kind: EscapeKind::Invalid, value: 0 }
}

} // verus!
