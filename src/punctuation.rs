use vstd::prelude::*;
use crate::chars::{is_digit, spec_is_digit};
use crate::types::PunctuationSyntaxKind;

verus! {

/// The characters that spell each punctuation token.
pub open spec fn punct_text(k: PunctuationSyntaxKind) -> Seq<char> {
    match k {
        PunctuationSyntaxKind::OpenBraceToken => seq!['{'],
        PunctuationSyntaxKind::CloseBraceToken => seq!['}'],
        PunctuationSyntaxKind::OpenParenToken => seq!['('],
        PunctuationSyntaxKind::CloseParenToken => seq![')'],
        PunctuationSyntaxKind::OpenBracketToken => seq!['['],
        PunctuationSyntaxKind::CloseBracketToken => seq![']'],
        PunctuationSyntaxKind::DotToken => seq!['.'],
        PunctuationSyntaxKind::DotDotDotToken => seq!['.', '.', '.'],
        PunctuationSyntaxKind::SemicolonToken => seq![';'],
        PunctuationSyntaxKind::CommaToken => seq![','],
        PunctuationSyntaxKind::QuestionDotToken => seq!['?', '.'],
        PunctuationSyntaxKind::LessThanToken => seq!['<'],
        PunctuationSyntaxKind::LessThanSlashToken => seq!['<', '/'],
        PunctuationSyntaxKind::GreaterThanToken => seq!['>'],
        PunctuationSyntaxKind::LessThanEqualsToken => seq!['<', '='],
        PunctuationSyntaxKind::GreaterThanEqualsToken => seq!['>', '='],
        PunctuationSyntaxKind::EqualsEqualsToken => seq!['=', '='],
        PunctuationSyntaxKind::ExclamationEqualsToken => seq!['!', '='],
        PunctuationSyntaxKind::EqualsEqualsEqualsToken => seq!['=', '=', '='],
        PunctuationSyntaxKind::ExclamationEqualsEqualsToken => seq!['!', '=', '='],
        PunctuationSyntaxKind::EqualsGreaterThanToken => seq!['=', '>'],
        PunctuationSyntaxKind::PlusToken => seq!['+'],
        PunctuationSyntaxKind::MinusToken => seq!['-'],
        PunctuationSyntaxKind::AsteriskToken => seq!['*'],
        PunctuationSyntaxKind::AsteriskAsteriskToken => seq!['*', '*'],
        PunctuationSyntaxKind::SlashToken => seq!['/'],
        PunctuationSyntaxKind::PercentToken => seq!['%'],
        PunctuationSyntaxKind::PlusPlusToken => seq!['+', '+'],
        PunctuationSyntaxKind::MinusMinusToken => seq!['-', '-'],
        PunctuationSyntaxKind::LessThanLessThanToken => seq!['<', '<'],
        PunctuationSyntaxKind::GreaterThanGreaterThanToken => seq!['>', '>'],
        PunctuationSyntaxKind::GreaterThanGreaterThanGreaterThanToken => seq!['>', '>', '>'],
        PunctuationSyntaxKind::AmpersandToken => seq!['&'],
        PunctuationSyntaxKind::BarToken => seq!['|'],
        PunctuationSyntaxKind::CaretToken => seq!['^'],
        PunctuationSyntaxKind::ExclamationToken => seq!['!'],
        PunctuationSyntaxKind::TildeToken => seq!['~'],
        PunctuationSyntaxKind::AmpersandAmpersandToken => seq!['&', '&'],
        PunctuationSyntaxKind::BarBarToken => seq!['|', '|'],
        PunctuationSyntaxKind::QuestionToken => seq!['?'],
        PunctuationSyntaxKind::ColonToken => seq![':'],
        PunctuationSyntaxKind::AtToken => seq!['@'],
        PunctuationSyntaxKind::QuestionQuestionToken => seq!['?', '?'],
        PunctuationSyntaxKind::BacktickToken => seq!['`'],
        PunctuationSyntaxKind::HashToken => seq!['#'],
        PunctuationSyntaxKind::EqualsToken => seq!['='],
        PunctuationSyntaxKind::PlusEqualsToken => seq!['+', '='],
        PunctuationSyntaxKind::MinusEqualsToken => seq!['-', '='],
        PunctuationSyntaxKind::AsteriskEqualsToken => seq!['*', '='],
        PunctuationSyntaxKind::AsteriskAsteriskEqualsToken => seq!['*', '*', '='],
        PunctuationSyntaxKind::SlashEqualsToken => seq!['/', '='],
        PunctuationSyntaxKind::PercentEqualsToken => seq!['%', '='],
        PunctuationSyntaxKind::LessThanLessThanEqualsToken => seq!['<', '<', '='],
        PunctuationSyntaxKind::GreaterThanGreaterThanEqualsToken => seq!['>', '>', '='],
        PunctuationSyntaxKind::GreaterThanGreaterThanGreaterThanEqualsToken => seq!['>', '>', '>', '='],
        PunctuationSyntaxKind::AmpersandEqualsToken => seq!['&', '='],
        PunctuationSyntaxKind::BarEqualsToken => seq!['|', '='],
        PunctuationSyntaxKind::BarBarEqualsToken => seq!['|', '|', '='],
        PunctuationSyntaxKind::AmpersandAmpersandEqualsToken => seq!['&', '&', '='],
        PunctuationSyntaxKind::QuestionQuestionEqualsToken => seq!['?', '?', '='],
        PunctuationSyntaxKind::CaretEqualsToken => seq!['^', '='],
    }
}

/// A character with which some punctuation token of the main scanner begins.
pub open spec fn is_punctuation_start(c: char) -> bool {
    c == '{' || c == '}' || c == '(' || c == ')' || c == '[' || c == ']' || c == ';' || c == ','
        || c == ':' || c == '~' || c == '@' || c == '.' || c == '<' || c == '>' || c == '=' || c
        == '!' || c == '+' || c == '-' || c == '*' || c == '/' || c == '%' || c == '&' || c == '|'
        || c == '^' || c == '?'
}

/// The character `k` places after `p`, or NUL at and past `end`.
pub open spec fn char_after_spec(t: Seq<char>, p: int, k: int, end: int) -> char {
    if p + k < end {
        t[p + k]
    } else {
        '\0'
    }
}

/// The punctuation token that starts at `p`, by longest match: for each first
/// character its tokens are tried from the longest down. `>` stands alone (its
/// longer forms come from rescanning), `?.` is not taken before a digit, and
/// `</` is a token only in JSX where no `*` follows. `/` stands here only as
/// `/` or `/=`: comments are found before.
pub open spec fn punct_spec(t: Seq<char>, p: int, end: int, jsx: bool) -> Option<
    (PunctuationSyntaxKind, int),
> {
    let c = t[p];
    let n1 = char_after_spec(t, p, 1, end);
    let n2 = char_after_spec(t, p, 2, end);
    if c == '{' {
        Some((PunctuationSyntaxKind::OpenBraceToken, p + 1))
    } else if c == '}' {
        Some((PunctuationSyntaxKind::CloseBraceToken, p + 1))
    } else if c == '(' {
        Some((PunctuationSyntaxKind::OpenParenToken, p + 1))
    } else if c == ')' {
        Some((PunctuationSyntaxKind::CloseParenToken, p + 1))
    } else if c == '[' {
        Some((PunctuationSyntaxKind::OpenBracketToken, p + 1))
    } else if c == ']' {
        Some((PunctuationSyntaxKind::CloseBracketToken, p + 1))
    } else if c == ';' {
        Some((PunctuationSyntaxKind::SemicolonToken, p + 1))
    } else if c == ',' {
        Some((PunctuationSyntaxKind::CommaToken, p + 1))
    } else if c == ':' {
        Some((PunctuationSyntaxKind::ColonToken, p + 1))
    } else if c == '~' {
        Some((PunctuationSyntaxKind::TildeToken, p + 1))
    } else if c == '@' {
        Some((PunctuationSyntaxKind::AtToken, p + 1))
    } else if c == '.' {
        if n1 == '.' && n2 == '.' {
            Some((PunctuationSyntaxKind::DotDotDotToken, p + 3))
        } else {
            Some((PunctuationSyntaxKind::DotToken, p + 1))
        }
    } else if c == '<' {
        if n1 == '<' && n2 == '=' {
            Some((PunctuationSyntaxKind::LessThanLessThanEqualsToken, p + 3))
        } else if n1 == '<' {
            Some((PunctuationSyntaxKind::LessThanLessThanToken, p + 2))
        } else if n1 == '=' {
            Some((PunctuationSyntaxKind::LessThanEqualsToken, p + 2))
        } else if jsx && n1 == '/' && n2 != '*' {
            Some((PunctuationSyntaxKind::LessThanSlashToken, p + 2))
        } else {
            Some((PunctuationSyntaxKind::LessThanToken, p + 1))
        }
    } else if c == '>' {
        Some((PunctuationSyntaxKind::GreaterThanToken, p + 1))
    } else if c == '=' {
        if n1 == '=' && n2 == '=' {
            Some((PunctuationSyntaxKind::EqualsEqualsEqualsToken, p + 3))
        } else if n1 == '=' {
            Some((PunctuationSyntaxKind::EqualsEqualsToken, p + 2))
        } else if n1 == '>' {
            Some((PunctuationSyntaxKind::EqualsGreaterThanToken, p + 2))
        } else {
            Some((PunctuationSyntaxKind::EqualsToken, p + 1))
        }
    } else if c == '!' {
        if n1 == '=' && n2 == '=' {
            Some((PunctuationSyntaxKind::ExclamationEqualsEqualsToken, p + 3))
        } else if n1 == '=' {
            Some((PunctuationSyntaxKind::ExclamationEqualsToken, p + 2))
        } else {
            Some((PunctuationSyntaxKind::ExclamationToken, p + 1))
        }
    } else if c == '+' {
        if n1 == '+' {
            Some((PunctuationSyntaxKind::PlusPlusToken, p + 2))
        } else if n1 == '=' {
            Some((PunctuationSyntaxKind::PlusEqualsToken, p + 2))
        } else {
            Some((PunctuationSyntaxKind::PlusToken, p + 1))
        }
    } else if c == '-' {
        if n1 == '-' {
            Some((PunctuationSyntaxKind::MinusMinusToken, p + 2))
        } else if n1 == '=' {
            Some((PunctuationSyntaxKind::MinusEqualsToken, p + 2))
        } else {
            Some((PunctuationSyntaxKind::MinusToken, p + 1))
        }
    } else if c == '*' {
        if n1 == '=' {
            Some((PunctuationSyntaxKind::AsteriskEqualsToken, p + 2))
        } else if n1 == '*' && n2 == '=' {
            Some((PunctuationSyntaxKind::AsteriskAsteriskEqualsToken, p + 3))
        } else if n1 == '*' {
            Some((PunctuationSyntaxKind::AsteriskAsteriskToken, p + 2))
        } else {
            Some((PunctuationSyntaxKind::AsteriskToken, p + 1))
        }
    } else if c == '/' {
        if n1 == '=' {
            Some((PunctuationSyntaxKind::SlashEqualsToken, p + 2))
        } else {
            Some((PunctuationSyntaxKind::SlashToken, p + 1))
        }
    } else if c == '%' {
        if n1 == '=' {
            Some((PunctuationSyntaxKind::PercentEqualsToken, p + 2))
        } else {
            Some((PunctuationSyntaxKind::PercentToken, p + 1))
        }
    } else if c == '&' {
        if n1 == '&' && n2 == '=' {
            Some((PunctuationSyntaxKind::AmpersandAmpersandEqualsToken, p + 3))
        } else if n1 == '&' {
            Some((PunctuationSyntaxKind::AmpersandAmpersandToken, p + 2))
        } else if n1 == '=' {
            Some((PunctuationSyntaxKind::AmpersandEqualsToken, p + 2))
        } else {
            Some((PunctuationSyntaxKind::AmpersandToken, p + 1))
        }
    } else if c == '|' {
        if n1 == '|' && n2 == '=' {
            Some((PunctuationSyntaxKind::BarBarEqualsToken, p + 3))
        } else if n1 == '|' {
            Some((PunctuationSyntaxKind::BarBarToken, p + 2))
        } else if n1 == '=' {
            Some((PunctuationSyntaxKind::BarEqualsToken, p + 2))
        } else {
            Some((PunctuationSyntaxKind::BarToken, p + 1))
        }
    } else if c == '^' {
        if n1 == '=' {
            Some((PunctuationSyntaxKind::CaretEqualsToken, p + 2))
        } else {
            Some((PunctuationSyntaxKind::CaretToken, p + 1))
        }
    } else if c == '?' {
        if n1 == '.' && !spec_is_digit(n2) {
            Some((PunctuationSyntaxKind::QuestionDotToken, p + 2))
        } else if n1 == '?' && n2 == '=' {
            Some((PunctuationSyntaxKind::QuestionQuestionEqualsToken, p + 3))
        } else if n1 == '?' {
            Some((PunctuationSyntaxKind::QuestionQuestionToken, p + 2))
        } else {
            Some((PunctuationSyntaxKind::QuestionToken, p + 1))
        }
    } else {
        None
    }
}

/// The character `k` places after `p`, or NUL at and past `end`.
fn char_after(text: &[char], p: usize, k: usize, end: usize) -> (c: char)
    requires
        p < end <= text@.len(),
    ensures
        p + k < end ==> c == text@[p + k],
        p + k >= end ==> c == '\0',
        c == char_after_spec(text@, p as int, k as int, end as int),
{
    if k < end - p {
        text[p + k]
    } else {
        '\0'
    }
}

fn found(text: &[char], p: usize, q: usize, end: usize, k: PunctuationSyntaxKind) -> (r: Option<
    (PunctuationSyntaxKind, usize),
>)
    requires
        p < q <= end <= text@.len(),
        text@.subrange(p as int, q as int) =~= punct_text(k),
    ensures
        r == Some((k, q)),
        text@.subrange(p as int, q as int) == punct_text(k),
{
    Some((k, q))
}

/// The longest punctuation token that starts at `p`, by the main scanner's
/// rules: `>` stands alone (its longer forms come from rescanning), `?.` is
/// not taken before a digit, and `</` is a token only in JSX text where no `*`
/// follows. `/` stands here only as `/` or `/=`: comments are found before.
#[verifier::rlimit(40)]
pub fn punctuation_at(text: &[char], p: usize, end: usize, jsx: bool) -> (r: Option<
    (PunctuationSyntaxKind, usize),
>)
    requires
        p < end <= text@.len(),
    ensures
        r matches Some((k, q)) ==> p < q <= end && text@.subrange(p as int, q as int) == punct_text(
            k,
        ),
        r is None ==> !is_punctuation_start(text@[p as int]),
        r is None <==> punct_spec(text@, p as int, end as int, jsx) is None,
        r matches Some((k, q)) ==> punct_spec(text@, p as int, end as int, jsx) == Some(
            (k, q as int),
        ),
{
    let c = text[p];
    let n1 = char_after(text, p, 1, end);
    let n2 = char_after(text, p, 2, end);
    let r = if c == '{' {
        found(text, p, p + 1, end, PunctuationSyntaxKind::OpenBraceToken)
    } else if c == '}' {
        found(text, p, p + 1, end, PunctuationSyntaxKind::CloseBraceToken)
    } else if c == '(' {
        found(text, p, p + 1, end, PunctuationSyntaxKind::OpenParenToken)
    } else if c == ')' {
        found(text, p, p + 1, end, PunctuationSyntaxKind::CloseParenToken)
    } else if c == '[' {
        found(text, p, p + 1, end, PunctuationSyntaxKind::OpenBracketToken)
    } else if c == ']' {
        found(text, p, p + 1, end, PunctuationSyntaxKind::CloseBracketToken)
    } else if c == ';' {
        found(text, p, p + 1, end, PunctuationSyntaxKind::SemicolonToken)
    } else if c == ',' {
        found(text, p, p + 1, end, PunctuationSyntaxKind::CommaToken)
    } else if c == ':' {
        found(text, p, p + 1, end, PunctuationSyntaxKind::ColonToken)
    } else if c == '~' {
        found(text, p, p + 1, end, PunctuationSyntaxKind::TildeToken)
    } else if c == '@' {
        found(text, p, p + 1, end, PunctuationSyntaxKind::AtToken)
    } else if c == '.' {
        if n1 == '.' && n2 == '.' {
            found(text, p, p + 3, end, PunctuationSyntaxKind::DotDotDotToken)
        } else {
            found(text, p, p + 1, end, PunctuationSyntaxKind::DotToken)
        }
    } else if c == '<' {
        if n1 == '<' && n2 == '=' {
            found(text, p, p + 3, end, PunctuationSyntaxKind::LessThanLessThanEqualsToken)
        } else if n1 == '<' {
            found(text, p, p + 2, end, PunctuationSyntaxKind::LessThanLessThanToken)
        } else if n1 == '=' {
            found(text, p, p + 2, end, PunctuationSyntaxKind::LessThanEqualsToken)
        } else if jsx && n1 == '/' && n2 != '*' {
            found(text, p, p + 2, end, PunctuationSyntaxKind::LessThanSlashToken)
        } else {
            found(text, p, p + 1, end, PunctuationSyntaxKind::LessThanToken)
        }
    } else if c == '>' {
        found(text, p, p + 1, end, PunctuationSyntaxKind::GreaterThanToken)
    } else if c == '=' {
        if n1 == '=' && n2 == '=' {
            found(text, p, p + 3, end, PunctuationSyntaxKind::EqualsEqualsEqualsToken)
        } else if n1 == '=' {
            found(text, p, p + 2, end, PunctuationSyntaxKind::EqualsEqualsToken)
        } else if n1 == '>' {
            found(text, p, p + 2, end, PunctuationSyntaxKind::EqualsGreaterThanToken)
        } else {
            found(text, p, p + 1, end, PunctuationSyntaxKind::EqualsToken)
        }
    } else if c == '!' {
        if n1 == '=' && n2 == '=' {
            found(text, p, p + 3, end, PunctuationSyntaxKind::ExclamationEqualsEqualsToken)
        } else if n1 == '=' {
            found(text, p, p + 2, end, PunctuationSyntaxKind::ExclamationEqualsToken)
        } else {
            found(text, p, p + 1, end, PunctuationSyntaxKind::ExclamationToken)
        }
    } else if c == '+' {
        if n1 == '+' {
            found(text, p, p + 2, end, PunctuationSyntaxKind::PlusPlusToken)
        } else if n1 == '=' {
            found(text, p, p + 2, end, PunctuationSyntaxKind::PlusEqualsToken)
        } else {
            found(text, p, p + 1, end, PunctuationSyntaxKind::PlusToken)
        }
    } else if c == '-' {
        if n1 == '-' {
            found(text, p, p + 2, end, PunctuationSyntaxKind::MinusMinusToken)
        } else if n1 == '=' {
            found(text, p, p + 2, end, PunctuationSyntaxKind::MinusEqualsToken)
        } else {
            found(text, p, p + 1, end, PunctuationSyntaxKind::MinusToken)
        }
    } else if c == '*' {
        if n1 == '=' {
            found(text, p, p + 2, end, PunctuationSyntaxKind::AsteriskEqualsToken)
        } else if n1 == '*' && n2 == '=' {
            found(text, p, p + 3, end, PunctuationSyntaxKind::AsteriskAsteriskEqualsToken)
        } else if n1 == '*' {
            found(text, p, p + 2, end, PunctuationSyntaxKind::AsteriskAsteriskToken)
        } else {
            found(text, p, p + 1, end, PunctuationSyntaxKind::AsteriskToken)
        }
    } else if c == '/' {
        if n1 == '=' {
            found(text, p, p + 2, end, PunctuationSyntaxKind::SlashEqualsToken)
        } else {
            found(text, p, p + 1, end, PunctuationSyntaxKind::SlashToken)
        }
    } else if c == '%' {
        if n1 == '=' {
            found(text, p, p + 2, end, PunctuationSyntaxKind::PercentEqualsToken)
        } else {
            found(text, p, p + 1, end, PunctuationSyntaxKind::PercentToken)
        }
    } else if c == '&' {
        if n1 == '&' && n2 == '=' {
            found(text, p, p + 3, end, PunctuationSyntaxKind::AmpersandAmpersandEqualsToken)
        } else if n1 == '&' {
            found(text, p, p + 2, end, PunctuationSyntaxKind::AmpersandAmpersandToken)
        } else if n1 == '=' {
            found(text, p, p + 2, end, PunctuationSyntaxKind::AmpersandEqualsToken)
        } else {
            found(text, p, p + 1, end, PunctuationSyntaxKind::AmpersandToken)
        }
    } else if c == '|' {
        if n1 == '|' && n2 == '=' {
            found(text, p, p + 3, end, PunctuationSyntaxKind::BarBarEqualsToken)
        } else if n1 == '|' {
            found(text, p, p + 2, end, PunctuationSyntaxKind::BarBarToken)
        } else if n1 == '=' {
            found(text, p, p + 2, end, PunctuationSyntaxKind::BarEqualsToken)
        } else {
            found(text, p, p + 1, end, PunctuationSyntaxKind::BarToken)
        }
    } else if c == '^' {
        if n1 == '=' {
            found(text, p, p + 2, end, PunctuationSyntaxKind::CaretEqualsToken)
        } else {
            found(text, p, p + 1, end, PunctuationSyntaxKind::CaretToken)
        }
    } else if c == '?' {
        if n1 == '.' && !is_digit(n2) {
            found(text, p, p + 2, end, PunctuationSyntaxKind::QuestionDotToken)
        } else if n1 == '?' && n2 == '=' {
            found(text, p, p + 3, end, PunctuationSyntaxKind::QuestionQuestionEqualsToken)
        } else if n1 == '?' {
            found(text, p, p + 2, end, PunctuationSyntaxKind::QuestionQuestionToken)
        } else {
            found(text, p, p + 1, end, PunctuationSyntaxKind::QuestionToken)
        }
    } else {
        None
    };
    r
}

} // verus!
