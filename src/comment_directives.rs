use vstd::prelude::*;
use crate::chars::text_equals;
use crate::types::CommentDirectiveType;

verus! {

/// The characters that a regular expression's `\s` matches.
pub open spec fn spec_is_pattern_space(c: char) -> bool {
    let ch = c as u32;
    ch == 0x09 || ch == 0x0A || ch == 0x0B || ch == 0x0C || ch == 0x0D || ch == 0x20 || ch
        == 0xA0 || ch == 0x1680 || (0x2000 <= ch <= 0x200A) || ch == 0x2028 || ch == 0x2029 || ch
        == 0x202F || ch == 0x205F || ch == 0x3000 || ch == 0xFEFF
}

#[verifier::when_used_as_spec(spec_is_pattern_space)]
pub fn is_pattern_space(c: char) -> (r: bool)
    ensures
        r == spec_is_pattern_space(c),
{
    let ch = c as u32;
    ch == 0x09 || ch == 0x0A || ch == 0x0B || ch == 0x0C || ch == 0x0D || ch == 0x20 || ch
        == 0xA0 || ch == 0x1680 || (0x2000 <= ch && ch <= 0x200A) || ch == 0x2028 || ch == 0x2029
        || ch == 0x202F || ch == 0x205F || ch == 0x3000 || ch == 0xFEFF
}

/// The first index at or after `i`, and before `end`, that holds no `\s` character.
pub open spec fn skip_pattern_spaces(t: Seq<char>, i: int, end: int) -> int
    decreases end - i,
{
    if 0 <= i < end && spec_is_pattern_space(t[i]) {
        skip_pattern_spaces(t, i + 1, end)
    } else {
        i
    }
}

/// The first index at or after `i`, and before `end`, that holds neither `/` nor `*`.
pub open spec fn skip_comment_marks(t: Seq<char>, i: int, end: int) -> int
    decreases end - i,
{
    if 0 <= i < end && (t[i] == '/' || t[i] == '*') {
        skip_comment_marks(t, i + 1, end)
    } else {
        i
    }
}

/// `w` stands in `t` from index `i`, before `end`.
pub open spec fn word_at(t: Seq<char>, i: int, end: int, w: Seq<char>) -> bool {
    0 <= i && i + w.len() <= end && t.subrange(i, i + w.len()) == w
}

/// The directive named after optional whitespace from index `i`.
pub open spec fn directive_at(t: Seq<char>, i: int, end: int) -> Option<CommentDirectiveType> {
    let k = skip_pattern_spaces(t, i, end);
    if word_at(t, k, end, "@ts-expect-error"@) {
        Some(CommentDirectiveType::ExpectError)
    } else if word_at(t, k, end, "@ts-ignore"@) {
        Some(CommentDirectiveType::Ignore)
    } else {
        None
    }
}

/// The directive of a single-line comment `t[start..end]`: `//` or `///`,
/// optional whitespace, then `@ts-expect-error` or `@ts-ignore`.
pub open spec fn single_line_directive(t: Seq<char>, start: int, end: int) -> Option<
    CommentDirectiveType,
> {
    if start + 2 <= end && t[start] == '/' && t[start + 1] == '/' {
        if start + 3 <= end && t[start + 2] == '/' {
            directive_at(t, start + 3, end)
        } else {
            directive_at(t, start + 2, end)
        }
    } else {
        None
    }
}

/// The directive of a line `t[start..end]` of a multi-line comment: any run of
/// `/` and `*`, optional whitespace, then `@ts-expect-error` or `@ts-ignore`.
pub open spec fn multi_line_directive(t: Seq<char>, start: int, end: int) -> Option<
    CommentDirectiveType,
> {
    directive_at(t, skip_comment_marks(t, start, end), end)
}

fn word_at_exec(text: &[char], i: usize, end: usize, w: &str) -> (r: bool)
    requires
        i <= end <= text@.len(),
    ensures
        r == word_at(text@, i as int, end as int, w@),
{
    let n = w.unicode_len();
    if n > end - i {
        return false;
    }
    text_equals(text, i, i + n, w)
}

fn skip_pattern_spaces_exec(text: &[char], i: usize, end: usize) -> (r: usize)
    requires
        i <= end <= text@.len(),
    ensures
        r == skip_pattern_spaces(text@, i as int, end as int),
        i <= r <= end,
{
    let mut k = i;
    while k < end && is_pattern_space(text[k])
        invariant
            i <= k <= end <= text@.len(),
            skip_pattern_spaces(text@, k as int, end as int) == skip_pattern_spaces(
                text@,
                i as int,
                end as int,
            ),
        decreases end - k,
    {
        k = k + 1;
    }
    k
}

fn directive_at_exec(text: &[char], i: usize, end: usize) -> (r: Option<CommentDirectiveType>)
    requires
        i <= end <= text@.len(),
    ensures
        r == directive_at(text@, i as int, end as int),
{
    let k = skip_pattern_spaces_exec(text, i, end);
    if word_at_exec(text, k, end, "@ts-expect-error") {
        Some(CommentDirectiveType::ExpectError)
    } else if word_at_exec(text, k, end, "@ts-ignore") {
        Some(CommentDirectiveType::Ignore)
    } else {
        None
    }
}

/// The directive that the single-line comment `text[start..end]` opens with, if any.
pub fn single_line_comment_directive(text: &[char], start: usize, end: usize) -> (r: Option<
    CommentDirectiveType,
>)
    requires
        start <= end <= text@.len(),
    ensures
        r == single_line_directive(text@, start as int, end as int),
{
    if end - start >= 2 && text[start] == '/' && text[start + 1] == '/' {
        if end - start >= 3 && text[start + 2] == '/' {
            directive_at_exec(text, start + 3, end)
        } else {
            directive_at_exec(text, start + 2, end)
        }
    } else {
        None
    }
}

/// The directive that the line `text[start..end]` of a multi-line comment opens with, if any.
pub fn multi_line_comment_directive(text: &[char], start: usize, end: usize) -> (r: Option<
    CommentDirectiveType,
>)
    requires
        start <= end <= text@.len(),
    ensures
        r == multi_line_directive(text@, start as int, end as int),
{
    let mut k = start;
    while k < end && (text[k] == '/' || text[k] == '*')
        invariant
            start <= k <= end <= text@.len(),
            skip_comment_marks(text@, k as int, end as int) == skip_comment_marks(
                text@,
                start as int,
                end as int,
            ),
        decreases end - k,
    {
        k = k + 1;
    }
    directive_at_exec(text, k, end)
}

} // verus!
