use vstd::prelude::*;
use crate::chars::{is_line_break_char, spec_is_line_break_char};
use crate::escapes::{escape_of, escape_sequence, escape_value, EscapeKind};


verus! {

/// A code point that a `char` can hold: at most 0x10FFFF, and no surrogate.
pub open spec fn is_scalar_value(v: nat) -> bool {
    v <= 0x10FFFF && !(0xD800 <= v <= 0xDFFF)
}

/// The `char` whose code is `v`.
pub open spec fn char_with_code(v: u32) -> char {
    choose|c: char| #[trigger] (c as u32) == v
}

/// The value of a string literal's body `t[i..end)`: a one-character escape
/// stands for the character it names, a backslash before a line break (a
/// carriage return and line feed together) for nothing, a hexadecimal or
/// Unicode escape for the code point it names (as written when that is no
/// scalar value), and an incomplete `\u` or `\x` is kept as written.
pub open spec fn cooked_from(t: Seq<char>, i: int, end: int) -> Seq<char>
    decreases end - i,
{
    if i >= end || i < 0 {
        seq![]
    } else if t[i] == '\\' && i + 1 < end {
        let (kind, e) = escape_of(t, i + 1, end);
        if e <= i || e > end {
            seq![]
        } else if kind == EscapeKind::Simple {
            let c = t[i + 1];
            if spec_is_line_break_char(c) {
                cooked_from(t, e, end)
            } else {
                seq![escaped_char(c)] + cooked_from(t, e, end)
            }
        } else if kind == EscapeKind::Invalid {
            seq![t[i]] + cooked_from(t, i + 1, end)
        } else {
            let v = escape_value(t, i + 1, kind, e);
            if is_scalar_value(v) {
                seq![char_with_code(v as u32)] + cooked_from(t, e, end)
            } else {
                t.subrange(i, e) + cooked_from(t, e, end)
            }
        }
    } else {
        seq![t[i]] + cooked_from(t, i + 1, end)
    }
}

proof fn lemma_char_code_injective(a: char, b: char)
    requires
        a as u32 == b as u32,
    ensures
        a == b,
{
}

/// Relies on `char::from_u32`: the `char` with code `v` when `v` is a Unicode
/// scalar value, and none otherwise.
#[verifier::external_body]
fn char_from_code(v: u32) -> (r: Option<char>)
    ensures
        r is Some == is_scalar_value(v as nat),
        r matches Some(c) ==> c as u32 == v,
{
    char::from_u32(v)
}

/// The character that a one-character escape `\e` names.
pub open spec fn escaped_char(e: char) -> char {
    if e == 'n' {
        '\n'
    } else if e == 't' {
        '\t'
    } else if e == 'r' {
        '\r'
    } else if e == 'b' {
        '\u{8}'
    } else if e == 'f' {
        '\u{c}'
    } else if e == 'v' {
        '\u{b}'
    } else if e == '0' {
        '\0'
    } else {
        e
    }
}

fn escaped(e: char) -> (r: char)
    ensures
        r == escaped_char(e),
{
    if e == 'n' {
        '\n'
    } else if e == 't' {
        '\t'
    } else if e == 'r' {
        '\r'
    } else if e == 'b' {
        '\u{8}'
    } else if e == 'f' {
        '\u{c}'
    } else if e == 'v' {
        '\u{b}'
    } else if e == '0' {
        '\0'
    } else {
        e
    }
}

/// The value of the string body `text[start..end)`.
pub fn cook_string(text: &[char], start: usize, end: usize) -> (r: Vec<char>)
    requires
        start <= end <= text@.len(),
    ensures
        r@ == cooked_from(text@, start as int, end as int),
{
    let mut out: Vec<char> = Vec::new();
    let mut i = start;
    while i < end
        invariant
            start <= i <= end <= text@.len(),
            out@ + cooked_from(text@, i as int, end as int) == cooked_from(
                text@,
                start as int,
                end as int,
            ),
        decreases end - i,
    {
        let c = text[i];
        let ghost before = out@;
        if c == '\\' && i + 1 < end {
            let e = escape_sequence(text, i + 1, end);
            match e.kind {
                EscapeKind::Simple => {
                    let n = text[i + 1];
                    if !is_line_break_char(n) {
                        out.push(escaped(n));
                        proof {
                            assert(before + (seq![escaped_char(n)] + cooked_from(
                                text@,
                                e.end as int,
                                end as int,
                            )) =~= out@ + cooked_from(text@, e.end as int, end as int));
                        }
                    }
                    i = e.end;
                },
                EscapeKind::Invalid => {
                    out.push(c);
                    proof {
                        assert(before + (seq![c] + cooked_from(text@, i + 1, end as int)) =~= out@
                            + cooked_from(text@, i + 1, end as int));
                    }
                    i = i + 1;
                },
                _ => {
                    match char_from_code(e.value) {
                        Some(ch) => {
                            out.push(ch);
                            proof {
                                let v = escape_value(text@, i + 1, e.kind, e.end as int);
                                assert(ch as u32 == v as u32);
                                assert(char_with_code(v as u32) as u32 == v as u32);
                                lemma_char_code_injective(ch, char_with_code(v as u32));
                                assert(before + (seq![char_with_code(v as u32)] + cooked_from(
                                    text@,
                                    e.end as int,
                                    end as int,
                                )) =~= out@ + cooked_from(text@, e.end as int, end as int));
                            }
                        },
                        None => {
                            let mut k = i;
                            while k < e.end
                                invariant
                                    i <= k <= e.end <= end <= text@.len(),
                                    out@ == before + text@.subrange(i as int, k as int),
                                decreases e.end - k,
                            {
                                out.push(text[k]);
                                proof {
                                    assert(text@.subrange(i as int, k + 1) =~= text@.subrange(
                                        i as int,
                                        k as int,
                                    ).push(text@[k as int]));
                                }
                                k = k + 1;
                            }
                            proof {
                                assert(before + (text@.subrange(i as int, e.end as int)
                                    + cooked_from(text@, e.end as int, end as int)) =~= out@
                                    + cooked_from(text@, e.end as int, end as int));
                            }
                        },
                    }
                    i = e.end;
                },
            }
        } else {
            out.push(c);
            proof {
                assert(before + (seq![c] + cooked_from(text@, i + 1, end as int)) =~= out@
                    + cooked_from(text@, i + 1, end as int));
            }
            i = i + 1;
        }
    }
    proof {
        assert(out@ + cooked_from(text@, i as int, end as int) =~= out@);
    }
    out
}

} // verus!
