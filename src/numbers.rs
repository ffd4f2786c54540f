use vstd::prelude::*;
use crate::chars::{
    is_digit, is_identifier_start, is_octal_digit, spec_is_digit, spec_is_octal_digit, usable_table,
};
use crate::diagnostics::{report_error, ScanError, ScanErrorKind};
use crate::lexemes::{digit_or_separator, digit_run, scan_while};
use crate::types::{LiteralSyntaxKind, SyntaxKind, TokenFlags};

verus! {

/// A numeric literal: where it ends, its kind, and the facts that its flags record.
pub struct NumberScan {
    pub end: usize,
    pub kind: SyntaxKind,
    pub specifier: TokenFlags,
    pub scientific: bool,
    pub has_separator: bool,
}

/// `text[start]` is `0` and `text[start + 1]` is one of `lower`, `upper`.
pub open spec fn radix_prefix(t: Seq<char>, start: int, end: int, lower: char, upper: char) -> bool {
    start + 1 < end && t[start] == '0' && (t[start + 1] == lower || t[start + 1] == upper)
}

/// The flag that a literal's prefix gives it: `0x`, `0b`, `0o`, or a `0`
/// followed by an octal digit (a legacy octal literal).
pub open spec fn specifier_of(t: Seq<char>, start: int, end: int) -> TokenFlags {
    if radix_prefix(t, start, end, 'x', 'X') {
        TokenFlags::HexSpecifier
    } else if radix_prefix(t, start, end, 'b', 'B') {
        TokenFlags::BinarySpecifier
    } else if radix_prefix(t, start, end, 'o', 'O') {
        TokenFlags::OctalSpecifier
    } else if start + 1 < end && t[start] == '0' && 0x30 <= t[start + 1] as u32 <= 0x37 {
        TokenFlags::Octal
    } else {
        TokenFlags::Empty
    }
}

pub open spec fn octal_digit() -> spec_fn(char) -> bool {
    |c: char| spec_is_octal_digit(c)
}

/// A numeric literal from `i`: its end, kind, prefix flag and whether it has an
/// exponent. A `0x`, `0b` or `0o` prefix takes digits of its radix; a `0` that
/// an octal digit follows starts a legacy octal literal of octal digits; any
/// other literal is decimal digits, an optional fraction and an optional
/// exponent. Digit runs may hold `_` separators; an `n` after an integer makes
/// it a BigInt literal.
pub open spec fn number_scan(t: Seq<char>, i: int, end: int) -> (int, SyntaxKind, TokenFlags, bool) {
    let numeric = SyntaxKind::Literals(LiteralSyntaxKind::NumericLiteral);
    let big_int = SyntaxKind::Literals(LiteralSyntaxKind::BigIntLiteral);
    let spec = specifier_of(t, i, end);
    if spec == TokenFlags::HexSpecifier || spec == TokenFlags::BinarySpecifier || spec
        == TokenFlags::OctalSpecifier {
        let radix: u32 = if spec == TokenFlags::HexSpecifier {
            16
        } else if spec == TokenFlags::BinarySpecifier {
            2
        } else {
            8
        };
        let q = scan_while(t, i + 2, end, digit_or_separator(radix));
        if q < end && t[q] == 'n' {
            (q + 1, big_int, spec, false)
        } else {
            (q, numeric, spec, false)
        }
    } else if spec == TokenFlags::Octal {
        (scan_while(t, i + 1, end, octal_digit()), numeric, spec, false)
    } else {
        let q1 = if t[i] == '.' {
            i
        } else {
            scan_while(t, i, end, digit_or_separator(10))
        };
        let dot = q1 < end && t[q1] == '.';
        let q2 = if dot {
            scan_while(t, q1 + 1, end, digit_or_separator(10))
        } else {
            q1
        };
        let exp = q2 < end && (t[q2] == 'e' || t[q2] == 'E');
        let e = if q2 + 1 < end && (t[q2 + 1] == '+' || t[q2 + 1] == '-') {
            q2 + 2
        } else {
            q2 + 1
        };
        let scientific = exp && e < end && spec_is_digit(t[e]);
        let q3 = if scientific {
            scan_while(t, e, end, digit_or_separator(10))
        } else if exp {
            e
        } else {
            q2
        };
        if !dot && !scientific && q3 < end && t[q3] == 'n' {
            (q3 + 1, big_int, spec, false)
        } else {
            (q3, numeric, spec, scientific)
        }
    }
}

/// Whether an `_` stands in `text[a..b)`.
fn contains_separator(text: &[char], a: usize, b: usize) -> (r: bool)
    requires
        a <= b <= text@.len(),
    ensures
        r == exists|i: int| a <= i < b && text@[i] == '_',
{
    let mut k = a;
    while k < b
        invariant
            a <= k <= b <= text@.len(),
            forall|i: int| a <= i < k ==> text@[i] != '_',
        decreases b - k,
    {
        if text[k] == '_' {
            return true;
        }
        k = k + 1;
    }
    false
}

fn prefixed(text: &[char], start: usize, end: usize, lower: char, upper: char) -> (r: bool)
    requires
        start < end <= text@.len(),
    ensures
        r == radix_prefix(text@, start as int, end as int, lower, upper),
{
    text[start] == '0' && start + 1 < end && (text[start + 1] == lower || text[start + 1] == upper)
}

/// Scans a numeric literal that starts at `start` with a digit, or with a `.`
/// that a digit follows.
pub fn numeric_literal(
    text: &[char],
    start: usize,
    end: usize,
    start_table: &[u32],
    errors: &mut Vec<ScanError>,
    report: bool,
) -> (r: NumberScan)
    requires
        start < end <= text@.len(),
        usable_table(start_table@),
        spec_is_digit(text@[start as int]) || (text@[start as int] == '.' && start + 1 < end
            && spec_is_digit(text@[start + 1])),
    ensures
        start < r.end <= end,
        r.kind == SyntaxKind::Literals(LiteralSyntaxKind::NumericLiteral) || r.kind
            == SyntaxKind::Literals(LiteralSyntaxKind::BigIntLiteral),
        r.specifier == specifier_of(text@, start as int, end as int),
        (r.end as int, r.kind, r.specifier, r.scientific) == number_scan(
            text@,
            start as int,
            end as int,
        ),
        r.has_separator == exists|i: int| start <= i < r.end && text@[i] == '_',
        r.scientific ==> exists|i: int| start <= i < r.end && (text@[i] == 'e' || text@[i] == 'E'),
        old(errors)@.len() <= final(errors)@.len(),
{
    let numeric = SyntaxKind::Literals(LiteralSyntaxKind::NumericLiteral);
    let big_int = SyntaxKind::Literals(LiteralSyntaxKind::BigIntLiteral);
    let hex = prefixed(text, start, end, 'x', 'X');
    let binary = prefixed(text, start, end, 'b', 'B');
    let octal = prefixed(text, start, end, 'o', 'O');
    let mut q: usize;
    let mut kind = numeric;
    let mut specifier = TokenFlags::Empty;
    let mut scientific = false;
    if hex || binary || octal {
        let radix: u32 = if hex {
            16
        } else if binary {
            2
        } else {
            8
        };
        let run = digit_run(text, start + 2, end, radix, errors, report);
        if !run.has_digit {
            let kind = if hex {
                ScanErrorKind::HexadecimalDigitExpected
            } else if binary {
                ScanErrorKind::BinaryDigitExpected
            } else {
                ScanErrorKind::OctalDigitExpected
            };
            report_error(errors, report, kind, start + 2, 0);
        }
        q = run.end;
        specifier = if hex {
            TokenFlags::HexSpecifier
        } else if binary {
            TokenFlags::BinarySpecifier
        } else {
            TokenFlags::OctalSpecifier
        };
        if q < end && text[q] == 'n' {
            q = q + 1;
            kind = big_int;
        }
    } else if text[start] == '0' && start + 1 < end && is_octal_digit(text[start + 1]) {
        q = start + 1;
        while q < end && is_octal_digit(text[q])
            invariant
                start < q <= end <= text@.len(),
                scan_while(text@, q as int, end as int, octal_digit()) == scan_while(
                    text@,
                    start + 1,
                    end as int,
                    octal_digit(),
                ),
            decreases end - q,
        {
            q = q + 1;
        }
        specifier = TokenFlags::Octal;
    } else {
        q = start;
        if text[start] != '.' {
            let run = digit_run(text, start, end, 10, errors, report);
            q = run.end;
        }
        let mut has_dot = false;
        if q < end && text[q] == '.' {
            has_dot = true;
            let run = digit_run(text, q + 1, end, 10, errors, report);
            q = run.end;
        }
        if q < end && (text[q] == 'e' || text[q] == 'E') {
            let exponent = q;
            let mut e = q + 1;
            if e < end && (text[e] == '+' || text[e] == '-') {
                e = e + 1;
            }
            if e < end && is_digit(text[e]) {
                let run = digit_run(text, e, end, 10, errors, report);
                q = run.end;
                scientific = true;
                assert(start <= exponent < q && (text@[exponent as int] == 'e'
                    || text@[exponent as int] == 'E'));
            } else {
                report_error(errors, report, ScanErrorKind::DigitExpected, e, 0);
                q = e;
            }
        }
        if !has_dot && !scientific && q < end && text[q] == 'n' {
            q = q + 1;
            kind = big_int;
        }
    }
    if q < end && is_identifier_start(text[q], start_table) {
        report_error(errors, report, ScanErrorKind::IdentifierCannotFollowNumericLiteral, q, 1);
    }
    let has_separator = contains_separator(text, start, q);
    NumberScan { end: q, kind, specifier, scientific, has_separator }
}

} // verus!
