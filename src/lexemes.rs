use vstd::prelude::*;
use crate::chars::{
    is_digit, is_hex_digit, is_identifier_part, is_line_break_char, is_octal_digit,
    is_white_space_single_line, spec_is_digit, spec_is_hex_digit, spec_is_identifier_part,
    spec_is_line_break_char, spec_is_octal_digit, spec_is_white_space_single_line, usable_table,
};
use crate::diagnostics::{report_error, ScanError, ScanErrorKind};
use crate::escapes::{escape_of, escape_sequence, EscapeKind};
use crate::types::{LiteralSyntaxKind, PseudoLiteralSyntaxKind, SyntaxKind};

verus! {

/// Some character of `t[a..b]` ends a line.
pub open spec fn has_line_break_in(t: Seq<char>, a: int, b: int) -> bool {
    exists|i: int| a <= i < b && #[trigger] spec_is_line_break_char(t[i])
}

pub proof fn lemma_line_break_split(t: Seq<char>, a: int, b: int, c: int)
    requires
        a <= b <= c,
    ensures
        has_line_break_in(t, a, c) == (has_line_break_in(t, a, b) || has_line_break_in(t, b, c)),
{
    if has_line_break_in(t, a, c) {
        let i = choose|i: int| a <= i < c && #[trigger] spec_is_line_break_char(t[i]);
        if i < b {
            assert(has_line_break_in(t, a, b));
        } else {
            assert(has_line_break_in(t, b, c));
        }
    }
    if has_line_break_in(t, a, b) {
        let i = choose|i: int| a <= i < b && #[trigger] spec_is_line_break_char(t[i]);
        assert(a <= i < c);
    }
    if has_line_break_in(t, b, c) {
        let i = choose|i: int| b <= i < c && #[trigger] spec_is_line_break_char(t[i]);
        assert(a <= i < c);
    }
}

/// `q` is the end of a run from `p` of characters for which `class` holds:
/// every character of `t[p..q]` is in it, and `q` is `end` or holds one that is not.
pub open spec fn run_end(t: Seq<char>, p: int, q: int, end: int, class: spec_fn(char) -> bool) -> bool {
    &&& p <= q <= end
    &&& forall|i: int| p <= i < q ==> class(#[trigger] t[i])
    &&& q < end ==> !class(t[q])
}

pub open spec fn not_line_break() -> spec_fn(char) -> bool {
    |c: char| !spec_is_line_break_char(c)
}

pub open spec fn single_line_space() -> spec_fn(char) -> bool {
    |c: char| spec_is_white_space_single_line(c)
}

pub open spec fn identifier_part_of(part_table: Seq<u32>) -> spec_fn(char) -> bool {
    |c: char| spec_is_identifier_part(c, part_table)
}

pub open spec fn digit_or_separator(radix: u32) -> spec_fn(char) -> bool {
    |c: char| c == '_' || spec_is_digit_of(c, radix)
}

/// The first index at or after `i`, and before `end`, whose character is not in `class`.
pub open spec fn scan_while(t: Seq<char>, i: int, end: int, class: spec_fn(char) -> bool) -> int
    decreases end - i,
{
    if 0 <= i < end && class(t[i]) {
        scan_while(t, i + 1, end, class)
    } else {
        i
    }
}

/// Every character that `scan_while` passes over is in the class.
pub proof fn lemma_scan_while_class(t: Seq<char>, i: int, end: int, class: spec_fn(char) -> bool)
    requires
        0 <= i,
    ensures
        i <= scan_while(t, i, end, class),
        i <= end ==> scan_while(t, i, end, class) <= end,
        forall|k: int| i <= k < scan_while(t, i, end, class) ==> class(#[trigger] t[k]),
    decreases end - i,
{
    if 0 <= i < end && class(t[i]) {
        lemma_scan_while_class(t, i + 1, end, class);
    }
}

/// A run that ends at `q` ends where `scan_while` stops.
pub proof fn lemma_run_end_scan_while(
    t: Seq<char>,
    p: int,
    q: int,
    end: int,
    class: spec_fn(char) -> bool,
)
    requires
        0 <= p,
        run_end(t, p, q, end, class),
    ensures
        q == scan_while(t, p, end, class),
    decreases q - p,
{
    if p < q {
        assert(class(t[p]));
        lemma_run_end_scan_while(t, p + 1, q, end, class);
    }
}

/// The end of a single-line comment's body from `p`: the next line break, or `end`.
pub fn line_end(text: &[char], p: usize, end: usize) -> (q: usize)
    requires
        p <= end <= text@.len(),
    ensures
        run_end(text@, p as int, q as int, end as int, not_line_break()),
        q == scan_while(text@, p as int, end as int, not_line_break()),
        !has_line_break_in(text@, p as int, q as int),
{
    let mut q = p;
    while q < end && !is_line_break_char(text[q])
        invariant
            p <= q <= end <= text@.len(),
            forall|i: int| p <= i < q ==> !spec_is_line_break_char(#[trigger] text@[i]),
        decreases end - q,
    {
        q = q + 1;
    }
    proof {
        lemma_run_end_scan_while(text@, p as int, q as int, end as int, not_line_break());
    }
    q
}

/// The end of a run of single-line whitespace from `p`.
pub fn white_space_end(text: &[char], p: usize, end: usize) -> (q: usize)
    requires
        p <= end <= text@.len(),
    ensures
        run_end(text@, p as int, q as int, end as int, single_line_space()),
        q == scan_while(text@, p as int, end as int, single_line_space()),
        !has_line_break_in(text@, p as int, q as int),
{
    let mut q = p;
    while q < end && is_white_space_single_line(text[q])
        invariant
            p <= q <= end <= text@.len(),
            forall|i: int| p <= i < q ==> spec_is_white_space_single_line(#[trigger] text@[i]),
        decreases end - q,
    {
        q = q + 1;
    }
    proof {
        lemma_run_end_scan_while(
            text@,
            p as int,
            q as int,
            end as int,
            single_line_space(),
        );
    }
    q
}

/// The end of the identifier characters from `p`.
pub fn identifier_parts_end(text: &[char], p: usize, end: usize, part_table: &[u32]) -> (q: usize)
    requires
        p <= end <= text@.len(),
        usable_table(part_table@),
    ensures
        run_end(
            text@,
            p as int,
            q as int,
            end as int,
            identifier_part_of(part_table@),
        ),
        q == scan_while(
            text@,
            p as int,
            end as int,
            identifier_part_of(part_table@),
        ),
{
    let mut q = p;
    while q < end && is_identifier_part(text[q], part_table)
        invariant
            p <= q <= end <= text@.len(),
            usable_table(part_table@),
            forall|i: int|
                p <= i < q ==> spec_is_identifier_part(#[trigger] text@[i], part_table@),
        decreases end - q,
    {
        q = q + 1;
    }
    proof {
        lemma_run_end_scan_while(
            text@,
            p as int,
            q as int,
            end as int,
            identifier_part_of(part_table@),
        );
    }
    q
}

/// The body of a multi-line comment that opens at `start` (with `/*`): where it
/// ends, whether it is closed by `*/`, and whether a line break stands in it.
pub struct BlockComment {
    pub end: usize,
    pub terminated: bool,
    pub has_line_break: bool,
}

/// Where a multi-line comment whose body is scanned from `i` ends, and whether
/// `*/` closes it: just past the first `*/`, or at `end`.
pub open spec fn block_end(t: Seq<char>, i: int, end: int) -> (int, bool)
    decreases end - i,
{
    if i < 0 || i >= end {
        (end, false)
    } else if t[i] == '*' && i + 1 < end && t[i + 1] == '/' {
        (i + 2, true)
    } else {
        block_end(t, i + 1, end)
    }
}

pub fn block_comment(text: &[char], start: usize, end: usize) -> (r: BlockComment)
    requires
        start + 2 <= end <= text@.len(),
        text@[start as int] == '/',
        text@[start + 1] == '*',
    ensures
        start + 2 <= r.end <= end,
        r.terminated ==> r.end >= start + 4 && text@[r.end - 2] == '*' && text@[r.end - 1] == '/',
        !r.terminated ==> r.end == end,
        r.has_line_break == has_line_break_in(text@, start as int, r.end as int),
        (r.end as int, r.terminated) == block_end(text@, start + 2, end as int),
{
    let mut q: usize = start + 2;
    let mut has_line_break = false;
    proof {
        assert(!spec_is_line_break_char(text@[start as int]));
        assert(!spec_is_line_break_char(text@[start + 1]));
        assert(!has_line_break_in(text@, start as int, q as int));
    }
    while q < end
        invariant
            start + 2 <= q <= end <= text@.len(),
            block_end(text@, q as int, end as int) == block_end(text@, start + 2, end as int),
            has_line_break == has_line_break_in(text@, start as int, q as int),
        decreases end - q,
    {
        let c = text[q];
        if c == '*' && q + 1 < end && text[q + 1] == '/' {
            proof {
                lemma_line_break_split(text@, start as int, q as int, q + 2);
                assert(!spec_is_line_break_char(text@[q as int]));
                assert(!spec_is_line_break_char(text@[q + 1]));
                assert(!has_line_break_in(text@, q as int, q + 2));
            }
            return BlockComment { end: q + 2, terminated: true, has_line_break };
        }
        proof {
            lemma_line_break_split(text@, start as int, q as int, q + 1);
            assert(has_line_break_in(text@, q as int, q + 1) == spec_is_line_break_char(
                text@[q as int],
            ));
        }
        if is_line_break_char(c) {
            has_line_break = true;
        }
        q = q + 1;
    }
    BlockComment { end: q, terminated: false, has_line_break }
}

/// The radix classes of numeric literal digits.
pub open spec fn spec_is_digit_of(c: char, radix: u32) -> bool {
    if radix == 2 {
        c == '0' || c == '1'
    } else if radix == 8 {
        spec_is_octal_digit(c)
    } else if radix == 16 {
        spec_is_hex_digit(c)
    } else {
        spec_is_digit(c)
    }
}

fn is_digit_of(c: char, radix: u32) -> (r: bool)
    ensures
        r == spec_is_digit_of(c, radix),
{
    if radix == 2 {
        c == '0' || c == '1'
    } else if radix == 8 {
        is_octal_digit(c)
    } else if radix == 16 {
        is_hex_digit(c)
    } else {
        is_digit(c)
    }
}

/// A run of digits of one radix, with `_` separators, from `p`.
pub struct DigitRun {
    pub end: usize,
    pub has_separator: bool,
    pub has_digit: bool,
}

/// Scans digits of `radix` and separators from `p`, reporting each misplaced
/// separator.
pub fn digit_run(
    text: &[char],
    p: usize,
    end: usize,
    radix: u32,
    errors: &mut Vec<ScanError>,
    report: bool,
) -> (r: DigitRun)
    requires
        p <= end <= text@.len(),
    ensures
        run_end(
            text@,
            p as int,
            r.end as int,
            end as int,
            digit_or_separator(radix),
        ),
        r.end == scan_while(
            text@,
            p as int,
            end as int,
            digit_or_separator(radix),
        ),
        r.has_separator == exists|i: int| p <= i < r.end && text@[i] == '_',
        r.has_digit == exists|i: int| p <= i < r.end && spec_is_digit_of(text@[i], radix),
        old(errors)@.len() <= final(errors)@.len(),
{
    let mut q = p;
    let mut allow_separator = false;
    let mut previous_separator = false;
    let mut has_separator = false;
    let mut has_digit = false;
    while q < end && (text[q] == '_' || is_digit_of(text[q], radix))
        invariant
            p <= q <= end <= text@.len(),
            forall|i: int|
                p <= i < q ==> (#[trigger] text@[i] == '_' || spec_is_digit_of(text@[i], radix)),
            has_separator == exists|i: int| p <= i < q && text@[i] == '_',
            has_digit == exists|i: int| p <= i < q && spec_is_digit_of(text@[i], radix),
            previous_separator ==> q > p && text@[q - 1] == '_',
            old(errors)@.len() <= errors@.len(),
        decreases end - q,
    {
        if text[q] == '_' {
            has_separator = true;
            if allow_separator {
                allow_separator = false;
                previous_separator = true;
            } else if previous_separator {
                report_error(
                    errors,
                    report,
                    ScanErrorKind::MultipleConsecutiveNumericSeparatorsAreNotPermitted,
                    q,
                    1,
                );
            } else {
                report_error(errors, report, ScanErrorKind::NumericSeparatorsAreNotAllowedHere, q, 1);
            }
        } else {
            has_digit = true;
            allow_separator = true;
            previous_separator = false;
        }
        q = q + 1;
    }
    if previous_separator {
        report_error(errors, report, ScanErrorKind::NumericSeparatorsAreNotAllowedHere, q - 1, 1);
    }
    proof {
        lemma_run_end_scan_while(
            text@,
            p as int,
            q as int,
            end as int,
            digit_or_separator(radix),
        );
    }
    DigitRun { end: q, has_separator, has_digit }
}

/// A string literal whose opening quote stands at `start`: where it ends, and
/// whether its closing quote was found.
pub struct StringScan {
    pub end: usize,
    pub terminated: bool,
    pub unicode_escape: bool,
    pub extended_unicode_escape: bool,
    pub invalid_escape: bool,
}

/// What the escape sequences of a literal showed.
pub struct EscapeFlags {
    pub unicode: bool,
    pub extended: bool,
    pub invalid: bool,
}

/// Reads the escape sequence after the backslash at `q - 1` and records its form;
/// an invalid one is reported unless `report_invalid` is false.
fn read_escape(
    text: &[char],
    q: usize,
    end: usize,
    seen: &mut EscapeFlags,
    report_invalid: bool,
    errors: &mut Vec<ScanError>,
    report: bool,
) -> (r: usize)
    requires
        q < end <= text@.len(),
    ensures
        q < r <= end,
        r as int == escape_of(text@, q as int, end as int).1,
        final(seen).unicode == (old(seen).unicode || escape_of(text@, q as int, end as int).0
            == EscapeKind::Unicode),
        final(seen).extended == (old(seen).extended || escape_of(text@, q as int, end as int).0
            == EscapeKind::ExtendedUnicode),
        final(seen).invalid == (old(seen).invalid || escape_of(text@, q as int, end as int).0
            == EscapeKind::Invalid),
        old(errors)@.len() <= final(errors)@.len(),
{
    let e = escape_sequence(text, q, end);
    match e.kind {
        EscapeKind::Unicode => {
            seen.unicode = true;
        },
        EscapeKind::ExtendedUnicode => {
            seen.extended = true;
        },
        EscapeKind::Invalid => {
            seen.invalid = true;
            if report_invalid {
                report_error(errors, report, ScanErrorKind::HexadecimalDigitExpected, q, e.end - q);
            }
        },
        _ => {},
    }
    e.end
}

/// A string literal's body scanned from `i`: where the literal ends, whether
/// its closing quote was found, and whether it holds a `\uXXXX` escape, a
/// `\u{...}` escape, or an invalid escape. A backslash takes the escape
/// sequence after it; an unescaped line break ends the literal unterminated
/// unless `multiline` allows it, as in JSX attribute strings, which know no escapes.
pub open spec fn string_scan(t: Seq<char>, i: int, end: int, quote: char, multiline: bool) -> (
    int,
    bool,
    bool,
    bool,
    bool,
)
    decreases end - i,
{
    if i < 0 || i >= end {
        (i, false, false, false, false)
    } else if t[i] == quote {
        (i + 1, true, false, false, false)
    } else if t[i] == '\\' && !multiline {
        if i + 1 < end {
            let (kind, e) = escape_of(t, i + 1, end);
            if e <= i + 1 || e > end {
                (i, false, false, false, false)
            } else {
                let r = string_scan(t, e, end, quote, multiline);
                (
                    r.0,
                    r.1,
                    r.2 || kind == EscapeKind::Unicode,
                    r.3 || kind == EscapeKind::ExtendedUnicode,
                    r.4 || kind == EscapeKind::Invalid,
                )
            }
        } else {
            string_scan(t, i + 1, end, quote, multiline)
        }
    } else if spec_is_line_break_char(t[i]) && !multiline {
        (i, false, false, false, false)
    } else {
        string_scan(t, i + 1, end, quote, multiline)
    }
}


/// Scans a string literal from its opening quote, as `string_scan` says.
pub fn string_literal(
    text: &[char],
    start: usize,
    end: usize,
    multiline: bool,
    errors: &mut Vec<ScanError>,
    report: bool,
) -> (r: StringScan)
    requires
        start < end <= text@.len(),
    ensures
        start + 1 <= r.end <= end,
        (r.end as int, r.terminated, r.unicode_escape, r.extended_unicode_escape, r.invalid_escape)
            == string_scan(text@, start + 1, end as int, text@[start as int], multiline),
        r.terminated ==> r.end >= start + 2 && text@[r.end - 1] == text@[start as int],
        !r.terminated ==> (r.end == end || spec_is_line_break_char(text@[r.end as int])),
        old(errors)@.len() <= final(errors)@.len(),
{
    let quote = text[start];
    let mut q = start + 1;
    let mut seen = EscapeFlags { unicode: false, extended: false, invalid: false };
    loop
        invariant
            start + 1 <= q <= end <= text@.len(),
            quote == text@[start as int],
            old(errors)@.len() <= errors@.len(),
            ({
                let r = string_scan(text@, q as int, end as int, quote, multiline);
                string_scan(text@, start + 1, end as int, quote, multiline) == (
                    r.0,
                    r.1,
                    seen.unicode || r.2,
                    seen.extended || r.3,
                    seen.invalid || r.4,
                )
            }),
        decreases end - q,
    {
        if q >= end {
            report_error(errors, report, ScanErrorKind::UnterminatedStringLiteral, q, 0);
            return StringScan {
                end: q,
                terminated: false,
                unicode_escape: seen.unicode,
                extended_unicode_escape: seen.extended,
                invalid_escape: seen.invalid,
            };
        }
        let c = text[q];
        if c == quote {
            return StringScan {
                end: q + 1,
                terminated: true,
                unicode_escape: seen.unicode,
                extended_unicode_escape: seen.extended,
                invalid_escape: seen.invalid,
            };
        }
        if c == '\\' && !multiline {
            if q + 1 < end {
                q = read_escape(text, q + 1, end, &mut seen, true, errors, report);
            } else {
                q = q + 1;
            }
        } else if is_line_break_char(c) && !multiline {
            report_error(errors, report, ScanErrorKind::UnterminatedStringLiteral, q, 0);
            return StringScan {
                end: q,
                terminated: false,
                unicode_escape: seen.unicode,
                extended_unicode_escape: seen.extended,
                invalid_escape: seen.invalid,
            };
        } else {
            q = q + 1;
        }
    }
}

/// A template piece's body scanned from `i`: where the piece ends, whether it
/// is closed, whether `${` (rather than a backtick) closes it, and whether it
/// holds a `\uXXXX` escape, a `\u{...}` escape, or an invalid escape.
pub open spec fn template_scan(t: Seq<char>, i: int, end: int) -> (int, bool, bool, bool, bool, bool)
    decreases end - i,
{
    if i < 0 || i >= end {
        (i, false, false, false, false, false)
    } else if t[i] == '`' {
        (i + 1, true, false, false, false, false)
    } else if t[i] == '$' && i + 1 < end && t[i + 1] == '{' {
        (i + 2, true, true, false, false, false)
    } else if t[i] == '\\' && i + 1 < end {
        let (kind, e) = escape_of(t, i + 1, end);
        if e <= i + 1 || e > end {
            (i, false, false, false, false, false)
        } else {
            let r = template_scan(t, e, end);
            (
                r.0,
                r.1,
                r.2,
                r.3 || kind == EscapeKind::Unicode,
                r.4 || kind == EscapeKind::ExtendedUnicode,
                r.5 || kind == EscapeKind::Invalid,
            )
        }
    } else {
        template_scan(t, i + 1, end)
    }
}

/// A template literal piece: where it ends, its kind, and whether it was closed.
pub struct TemplateScan {
    pub end: usize,
    pub kind: SyntaxKind,
    pub terminated: bool,
    pub escapes: EscapeFlags,
}

/// The kind of template piece that opens with a backtick (or with `}` when
/// `opened_by_backtick` is false) and closes with a backtick or with `${`.
pub open spec fn template_kind(opened_by_backtick: bool, closed_by_substitution: bool) -> SyntaxKind {
    if opened_by_backtick {
        if closed_by_substitution {
            SyntaxKind::PseudoLiterals(PseudoLiteralSyntaxKind::TemplateHead)
        } else {
            SyntaxKind::Literals(LiteralSyntaxKind::NoSubstitutionTemplateLiteral)
        }
    } else {
        if closed_by_substitution {
            SyntaxKind::PseudoLiterals(PseudoLiteralSyntaxKind::TemplateMiddle)
        } else {
            SyntaxKind::PseudoLiterals(PseudoLiteralSyntaxKind::TemplateTail)
        }
    }
}

/// Scans a template piece from its opening character at `start` (a backtick,
/// or the `}` that closes a substitution), as `template_scan` says. An invalid
/// escape sequence is an error unless the template is tagged, where it is only flagged.
pub fn template_piece(
    text: &[char],
    start: usize,
    end: usize,
    is_tagged: bool,
    errors: &mut Vec<ScanError>,
    report: bool,
) -> (r: TemplateScan)
    requires
        start < end <= text@.len(),
    ensures
        start + 1 <= r.end <= end,
        ({
            let m = template_scan(text@, start + 1, end as int);
            &&& r.end as int == m.0
            &&& r.terminated == m.1
            &&& r.kind == template_kind(text@[start as int] == '`', m.2)
            &&& r.escapes.unicode == m.3
            &&& r.escapes.extended == m.4
            &&& r.escapes.invalid == m.5
        }),
        !r.terminated ==> r.end == end,
        old(errors)@.len() <= final(errors)@.len(),
{
    let backtick = text[start] == '`';
    let mut q = start + 1;
    let mut seen = EscapeFlags { unicode: false, extended: false, invalid: false };
    loop
        invariant
            start + 1 <= q <= end <= text@.len(),
            backtick == (text@[start as int] == '`'),
            old(errors)@.len() <= errors@.len(),
            ({
                let m = template_scan(text@, q as int, end as int);
                template_scan(text@, start + 1, end as int) == (
                    m.0,
                    m.1,
                    m.2,
                    seen.unicode || m.3,
                    seen.extended || m.4,
                    seen.invalid || m.5,
                )
            }),
        decreases end - q,
    {
        if q >= end {
            report_error(errors, report, ScanErrorKind::UnterminatedTemplateLiteral, q, 0);
            let kind = if backtick {
                SyntaxKind::Literals(LiteralSyntaxKind::NoSubstitutionTemplateLiteral)
            } else {
                SyntaxKind::PseudoLiterals(PseudoLiteralSyntaxKind::TemplateTail)
            };
            return TemplateScan { end: q, kind, terminated: false, escapes: seen };
        }
        let c = text[q];
        if c == '`' {
            let kind = if backtick {
                SyntaxKind::Literals(LiteralSyntaxKind::NoSubstitutionTemplateLiteral)
            } else {
                SyntaxKind::PseudoLiterals(PseudoLiteralSyntaxKind::TemplateTail)
            };
            return TemplateScan { end: q + 1, kind, terminated: true, escapes: seen };
        }
        if c == '$' && q + 1 < end && text[q + 1] == '{' {
            let kind = if backtick {
                SyntaxKind::PseudoLiterals(PseudoLiteralSyntaxKind::TemplateHead)
            } else {
                SyntaxKind::PseudoLiterals(PseudoLiteralSyntaxKind::TemplateMiddle)
            };
            return TemplateScan { end: q + 2, kind, terminated: true, escapes: seen };
        }
        if c == '\\' && q + 1 < end {
            q = read_escape(text, q + 1, end, &mut seen, !is_tagged, errors, report);
        } else {
            q = q + 1;
        }
    }
}

} // verus!
