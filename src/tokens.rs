use vstd::prelude::*;
use crate::types::{PunctuationSyntaxKind, SyntaxKind, TokenSyntaxKind};

verus! {

pub open spec fn token_is_identifier_or_keyword_spec(token: SyntaxKind) -> bool {
    token == SyntaxKind::Tokens(TokenSyntaxKind::Identifier) || token is Keywords
}

/// Whether `token` is an identifier or a keyword.
#[allow(non_snake_case)]
pub fn tokenIsIdentifierOrKeyword(token: SyntaxKind) -> (r: bool)
    ensures
        r == token_is_identifier_or_keyword_spec(token),
{
    match token {
        SyntaxKind::Tokens(TokenSyntaxKind::Identifier) => true,
        SyntaxKind::Keywords(_) => true,
        _ => false,
    }
}

/// Whether `token` is an identifier, a keyword, or `>`.
pub fn token_is_identifier_or_keyword_or_greater_than(token: SyntaxKind) -> (r: bool)
    ensures
        r == (token == SyntaxKind::Punctuations(PunctuationSyntaxKind::GreaterThanToken)
            || token_is_identifier_or_keyword_spec(token)),
{
    if let SyntaxKind::Punctuations(PunctuationSyntaxKind::GreaterThanToken) = token {
        return true;
    }
    tokenIsIdentifierOrKeyword(token)
}

} // verus!
