use vstd::prelude::*;
use crate::chars::{
    is_identifier_part, is_identifier_start, is_line_break_char, is_white_space_like,
    is_white_space_single_line, keyword_of, keyword_of_text, spec_is_identifier_part,
    spec_is_identifier_start, spec_is_line_break_char, spec_is_white_space_like, usable_table,
};
use crate::diagnostics::{report_error, ScanErrorKind};
use crate::flags::{flag_word, literal_word, compose_flags, has_flag, literal_flags};
use crate::lexemes::{string_scan, 
    has_line_break_in, identifier_parts_end, lemma_line_break_split, run_end, string_literal,
    white_space_end,
};
use crate::tokens::token_is_identifier_or_keyword_spec;
use crate::types::{CommentDirective, 
    JSDocSyntaxKind, JsxTokenSyntaxKind, LiteralSyntaxKind, PunctuationSyntaxKind, SyntaxKind,
    TokenFlags, TokenSyntaxKind, TriviaSyntaxKind,
};

use super::{scan_directives, scan_result, eof_token, identifier_token, punct, same_config, token_chars, Scanner, ScannerState};

verus! {

/// How the scanner records a token of the JSX text mode.
pub open spec fn jsx_token_kind(k: JsxTokenSyntaxKind) -> SyntaxKind {
    match k {
        JsxTokenSyntaxKind::LessThanSlashToken => punct(PunctuationSyntaxKind::LessThanSlashToken),
        JsxTokenSyntaxKind::EndOfFileToken => eof_token(),
        JsxTokenSyntaxKind::ConflictMarkerTrivia => SyntaxKind::Trivias(
            TriviaSyntaxKind::ConflictMarkerTrivia,
        ),
        JsxTokenSyntaxKind::JsxText => SyntaxKind::Literals(LiteralSyntaxKind::JsxText),
        JsxTokenSyntaxKind::JsxTextAllWhiteSpaces => SyntaxKind::Literals(
            LiteralSyntaxKind::JsxTextAllWhiteSpaces,
        ),
        JsxTokenSyntaxKind::OpenBraceToken => punct(PunctuationSyntaxKind::OpenBraceToken),
        JsxTokenSyntaxKind::LessThanToken => punct(PunctuationSyntaxKind::LessThanToken),
    }
}

/// How the scanner records a token of the JSDoc mode.
pub open spec fn jsdoc_token_kind(k: JSDocSyntaxKind) -> SyntaxKind {
    match k {
        JSDocSyntaxKind::EndOfFileToken => eof_token(),
        JSDocSyntaxKind::WhitespaceTrivia => SyntaxKind::Trivias(TriviaSyntaxKind::WhitespaceTrivia),
        JSDocSyntaxKind::AtToken => punct(PunctuationSyntaxKind::AtToken),
        JSDocSyntaxKind::NewLineTrivia => SyntaxKind::Trivias(TriviaSyntaxKind::NewLineTrivia),
        JSDocSyntaxKind::AsteriskToken => punct(PunctuationSyntaxKind::AsteriskToken),
        JSDocSyntaxKind::OpenBraceToken => punct(PunctuationSyntaxKind::OpenBraceToken),
        JSDocSyntaxKind::CloseBraceToken => punct(PunctuationSyntaxKind::CloseBraceToken),
        JSDocSyntaxKind::LessThanToken => punct(PunctuationSyntaxKind::LessThanToken),
        JSDocSyntaxKind::GreaterThanToken => punct(PunctuationSyntaxKind::GreaterThanToken),
        JSDocSyntaxKind::OpenBracketToken => punct(PunctuationSyntaxKind::OpenBracketToken),
        JSDocSyntaxKind::CloseBracketToken => punct(PunctuationSyntaxKind::CloseBracketToken),
        JSDocSyntaxKind::EqualsToken => punct(PunctuationSyntaxKind::EqualsToken),
        JSDocSyntaxKind::CommaToken => punct(PunctuationSyntaxKind::CommaToken),
        JSDocSyntaxKind::DotToken => punct(PunctuationSyntaxKind::DotToken),
        JSDocSyntaxKind::Identifier => identifier_token(),
        JSDocSyntaxKind::BacktickToken => punct(PunctuationSyntaxKind::BacktickToken),
        JSDocSyntaxKind::HashToken => punct(PunctuationSyntaxKind::HashToken),
        JSDocSyntaxKind::Unknown => SyntaxKind::Tokens(TokenSyntaxKind::Unknown),
        JSDocSyntaxKind::Keywords(k) => SyntaxKind::Keywords(k),
    }
}

/// The single-character tokens of the JSDoc mode, by their character.
pub open spec fn jsdoc_single(c: char) -> Option<JSDocSyntaxKind> {
    if c == '@' {
        Some(JSDocSyntaxKind::AtToken)
    } else if c == '*' {
        Some(JSDocSyntaxKind::AsteriskToken)
    } else if c == '{' {
        Some(JSDocSyntaxKind::OpenBraceToken)
    } else if c == '}' {
        Some(JSDocSyntaxKind::CloseBraceToken)
    } else if c == '<' {
        Some(JSDocSyntaxKind::LessThanToken)
    } else if c == '>' {
        Some(JSDocSyntaxKind::GreaterThanToken)
    } else if c == '[' {
        Some(JSDocSyntaxKind::OpenBracketToken)
    } else if c == ']' {
        Some(JSDocSyntaxKind::CloseBracketToken)
    } else if c == '=' {
        Some(JSDocSyntaxKind::EqualsToken)
    } else if c == ',' {
        Some(JSDocSyntaxKind::CommaToken)
    } else if c == '.' {
        Some(JSDocSyntaxKind::DotToken)
    } else if c == '`' {
        Some(JSDocSyntaxKind::BacktickToken)
    } else if c == '#' {
        Some(JSDocSyntaxKind::HashToken)
    } else {
        None
    }
}

fn jsdoc_single_exec(c: char) -> (r: Option<JSDocSyntaxKind>)
    ensures
        r == jsdoc_single(c),
{
    if c == '@' {
        Some(JSDocSyntaxKind::AtToken)
    } else if c == '*' {
        Some(JSDocSyntaxKind::AsteriskToken)
    } else if c == '{' {
        Some(JSDocSyntaxKind::OpenBraceToken)
    } else if c == '}' {
        Some(JSDocSyntaxKind::CloseBraceToken)
    } else if c == '<' {
        Some(JSDocSyntaxKind::LessThanToken)
    } else if c == '>' {
        Some(JSDocSyntaxKind::GreaterThanToken)
    } else if c == '[' {
        Some(JSDocSyntaxKind::OpenBracketToken)
    } else if c == ']' {
        Some(JSDocSyntaxKind::CloseBracketToken)
    } else if c == '=' {
        Some(JSDocSyntaxKind::EqualsToken)
    } else if c == ',' {
        Some(JSDocSyntaxKind::CommaToken)
    } else if c == '.' {
        Some(JSDocSyntaxKind::DotToken)
    } else if c == '`' {
        Some(JSDocSyntaxKind::BacktickToken)
    } else if c == '#' {
        Some(JSDocSyntaxKind::HashToken)
    } else {
        None
    }
}

/// All characters of `t[a..b)` are whitespace, and a line break is among them.
pub open spec fn all_white_space_with_line_break(t: Seq<char>, a: int, b: int) -> bool {
    &&& forall|i: int| a <= i < b ==> spec_is_white_space_like(#[trigger] t[i])
    &&& has_line_break_in(t, a, b)
}

/// Where a run of JSX text scanned from `i` ends: at the next `{` or `<`, or,
/// when multi-line text is not allowed, at a line break that follows text
/// other than whitespace. `only_white_space` says whether all before `i` was whitespace.
pub open spec fn jsx_text_end(t: Seq<char>, i: int, end: int, allow_multiline: bool, only_white_space: bool) -> int
    decreases end - i,
{
    if i < 0 || i >= end {
        i
    } else if t[i] == '{' || t[i] == '<' {
        i
    } else if spec_is_line_break_char(t[i]) && !only_white_space && !allow_multiline {
        i
    } else {
        jsx_text_end(
            t,
            i + 1,
            end,
            allow_multiline,
            only_white_space && spec_is_white_space_like(t[i]),
        )
    }
}

/// The current token is a run of JSX text: no `{` or `<` in it, ended by one of
/// them, by the end of the text, or (when multi-line text is not allowed) by a
/// line break; `all_white_space` tells whether it is whitespace holding a line break.
pub open spec fn jsx_text_run(s: ScannerState, allow_multiline: bool, all_white_space: bool) -> bool {
    let t = s.text;
    &&& forall|i: int| s.token_start <= i < s.pos ==> #[trigger] t[i] != '{' && t[i] != '<'
    &&& all_white_space == all_white_space_with_line_break(t, s.token_start as int, s.pos as int)
    &&& (s.pos == s.end || t[s.pos as int] == '{' || t[s.pos as int] == '<' || (!allow_multiline
        && spec_is_line_break_char(t[s.pos as int])))
}

/// The state after scanning a JSX attribute value from `o`: a quoted string
/// that knows no escapes and may span lines, or else what `scan` gives.
pub open spec fn jsx_attribute_value_result(o: ScannerState) -> ScannerState {
    let t = o.text;
    let i = o.pos as int;
    if i < o.end && (t[i] == '"' || t[i] == '\'') {
        let r = string_scan(t, i + 1, o.end as int, t[i], true);
        ScannerState {
            full_start: o.pos,
            token_start: o.pos,
            pos: r.0 as usize,
            token: SyntaxKind::Literals(LiteralSyntaxKind::StringLiteral),
            flags: flag_word(false, false, literal_word(r.1, false, false, false)),
            ..o
        }
    } else {
        scan_result(o)
    }
}

/// The comment directives that scanning a JSX attribute value from `o` collects.
pub open spec fn jsx_attribute_value_directives(o: ScannerState) -> Seq<CommentDirective> {
    let i = o.pos as int;
    if i < o.end && (o.text[i] == '"' || o.text[i] == '\'') {
        seq![]
    } else {
        scan_directives(o)
    }
}

/// The cursor moved to `p`, where the next token starts with no trivia before it.
pub open spec fn restarted_at(s: ScannerState, o: ScannerState, p: usize) -> bool {
    &&& same_config(o, s)
    &&& s.full_start == p
    &&& s.token_start == p
    &&& s.token_start <= s.pos
}

impl<'a> Scanner<'a> {
    /// Scans one token of JSX text mode from `pos`: `<`, `</`, `{`, or a run
    /// of text up to the next `{` or `<` (or up to a line break after text, when
    /// multi-line text is not allowed). A run of whitespace that holds a line
    /// break is told apart from other text.
    pub fn scan_jsx_token(&mut self, allow_multiline_jsx_text: bool) -> (r: JsxTokenSyntaxKind)
        requires
            old(self).wf(),
        ensures
            final(self).wf(),
            final(self)@.token == jsx_token_kind(r),
            restarted_at(final(self)@, old(self)@, old(self)@.pos),
            final(self).directives() == old(self).directives(),
            (r == JsxTokenSyntaxKind::EndOfFileToken) == (old(self)@.pos >= old(self)@.end),
            r != JsxTokenSyntaxKind::EndOfFileToken ==> final(self)@.pos > final(self)@.token_start,
            r == JsxTokenSyntaxKind::LessThanSlashToken ==> token_chars(final(self)@) == seq!['<', '/'],
            r == JsxTokenSyntaxKind::LessThanToken ==> token_chars(final(self)@) == seq!['<'],
            r == JsxTokenSyntaxKind::OpenBraceToken ==> token_chars(final(self)@) == seq!['{'],
            r == JsxTokenSyntaxKind::JsxText || r == JsxTokenSyntaxKind::JsxTextAllWhiteSpaces
                ==> jsx_text_run(
                final(self)@,
                allow_multiline_jsx_text,
                r == JsxTokenSyntaxKind::JsxTextAllWhiteSpaces,
            ) && final(self)@.pos as int == jsx_text_end(
                old(self)@.text,
                old(self)@.pos as int,
                old(self)@.end as int,
                allow_multiline_jsx_text,
                true,
            ),
    {
        let text = self.text;
        let end = self.end;
        let p = self.pos;
        self.full_start_pos = p;
        self.token_pos = p;
        self.token_flags = 0;
        if p >= end {
            self.token = SyntaxKind::Tokens(TokenSyntaxKind::EndOfFileToken);
            return JsxTokenSyntaxKind::EndOfFileToken;
        }
        let c = text[p];
        if c == '<' {
            if p + 1 < end && text[p + 1] == '/' {
                self.pos = p + 2;
                self.token = SyntaxKind::Punctuations(PunctuationSyntaxKind::LessThanSlashToken);
                assert(token_chars(self@) =~= seq!['<', '/']);
                return JsxTokenSyntaxKind::LessThanSlashToken;
            }
            self.pos = p + 1;
            self.token = SyntaxKind::Punctuations(PunctuationSyntaxKind::LessThanToken);
            assert(token_chars(self@) =~= seq!['<']);
            return JsxTokenSyntaxKind::LessThanToken;
        }
        if c == '{' {
            self.pos = p + 1;
            self.token = SyntaxKind::Punctuations(PunctuationSyntaxKind::OpenBraceToken);
            assert(token_chars(self@) =~= seq!['{']);
            return JsxTokenSyntaxKind::OpenBraceToken;
        }
        let mut q = p;
        let mut only_white_space = true;
        let mut saw_line_break = false;
        let ghost s0 = self@;
        let ghost d0 = self.directives();
        while q < end
            invariant
                p <= q <= end <= text@.len(),
                self@ == s0,
                self.directives() == d0,
                p < end,
                text@[p as int] != '{' && text@[p as int] != '<',
                q == p ==> only_white_space,
                jsx_text_end(text@, q as int, end as int, allow_multiline_jsx_text, only_white_space)
                    == jsx_text_end(text@, p as int, end as int, allow_multiline_jsx_text, true),
                text@ == self@.text,
                forall|i: int| p <= i < q ==> #[trigger] text@[i] != '{' && text@[i] != '<',
                only_white_space == forall|i: int|
                    p <= i < q ==> spec_is_white_space_like(#[trigger] text@[i]),
                saw_line_break == has_line_break_in(text@, p as int, q as int),
            ensures
                q as int == jsx_text_end(text@, p as int, end as int, allow_multiline_jsx_text, true),
                self@ == s0,
                self.directives() == d0,
                p < q,
                p <= q <= end,
                forall|i: int| p <= i < q ==> #[trigger] text@[i] != '{' && text@[i] != '<',
                only_white_space == forall|i: int|
                    p <= i < q ==> spec_is_white_space_like(#[trigger] text@[i]),
                saw_line_break == has_line_break_in(text@, p as int, q as int),
                q == end || text@[q as int] == '{' || text@[q as int] == '<' || (
                !allow_multiline_jsx_text && spec_is_line_break_char(text@[q as int])),
            decreases end - q,
        {
            let ch = text[q];
            if ch == '{' || ch == '<' {
                break ;
            }
            if ch == '>' || ch == '}' {
                report_error(&mut self.errors, self.reports_errors, ScanErrorKind::UnexpectedToken, q, 1);
            }
            let lb = is_line_break_char(ch);
            if lb && !only_white_space && !allow_multiline_jsx_text {
                break ;
            }
            proof {
                lemma_line_break_split(text@, p as int, q as int, q + 1);
                assert(has_line_break_in(text@, q as int, q + 1) == spec_is_line_break_char(
                    text@[q as int],
                ));
            }
            if lb {
                saw_line_break = true;
            }
            if !is_white_space_like(ch) {
                only_white_space = false;
            }
            q = q + 1;
        }
        self.pos = q;
        if only_white_space && saw_line_break {
            self.token = SyntaxKind::Literals(LiteralSyntaxKind::JsxTextAllWhiteSpaces);
            JsxTokenSyntaxKind::JsxTextAllWhiteSpaces
        } else {
            self.token = SyntaxKind::Literals(LiteralSyntaxKind::JsxText);
            JsxTokenSyntaxKind::JsxText
        }
    }

    /// Rescans the current token, from where its scan began, in JSX text mode.
    pub fn re_scan_jsx_token(&mut self, allow_multiline_jsx_text: Option<bool>) -> (r:
        JsxTokenSyntaxKind)
        requires
            old(self).wf(),
        ensures
            final(self).wf(),
            final(self)@.token == jsx_token_kind(r),
            restarted_at(final(self)@, old(self)@, old(self)@.full_start),
            final(self).directives() == old(self).directives(),
            (r == JsxTokenSyntaxKind::EndOfFileToken) == (old(self)@.full_start >= old(self)@.end),
    {
        self.pos = self.full_start_pos;
        self.token_pos = self.full_start_pos;
        let allow = match allow_multiline_jsx_text {
            Some(a) => a,
            None => true,
        };
        self.scan_jsx_token(allow)
    }

    /// Extends an identifier or keyword token over the `-` and identifier
    /// characters that follow it, as JSX names allow, and classifies the whole
    /// name again. Any other token is kept.
    pub fn scan_jsx_identifier(&mut self) -> (r: SyntaxKind)
        requires
            old(self).wf(),
        ensures
            final(self).wf(),
            r == final(self)@.token,
            final(self).directives() == old(self).directives(),
            final(self).errors() == old(self).errors(),
            !token_is_identifier_or_keyword_spec(old(self)@.token) ==> final(self)@ == old(self)@,
            token_is_identifier_or_keyword_spec(old(self)@.token) ==> {
                &&& final(self)@ == (ScannerState { pos: final(self)@.pos, token: r, ..old(self)@ })
                &&& run_end(
                    old(self)@.text,
                    old(self)@.pos as int,
                    final(self)@.pos as int,
                    old(self)@.end as int,
                    |c: char| c == '-' || spec_is_identifier_part(c, old(self)@.identifier_part),
                )
                &&& r == match keyword_of_text(token_chars(final(self)@)) {
                    Some(k) => SyntaxKind::Keywords(k),
                    None => identifier_token(),
                }
            },
    {
        if crate::tokens::tokenIsIdentifierOrKeyword(self.token) {
            proof {
                use_type_invariant(self.tables);
            }
            let text = self.text;
            let end = self.end;
            let mut q = self.pos;
            while q < end && (text[q] == '-' || is_identifier_part(
                text[q],
                self.tables.part.as_slice(),
            ))
                invariant
                    self.pos <= q <= end <= text@.len(),
                    text@ == self@.text,
                    end == self@.end,
                    usable_table(self@.identifier_part),
                    forall|i: int|
                        self.pos <= i < q ==> #[trigger] text@[i] == '-' || spec_is_identifier_part(
                            text@[i],
                            self@.identifier_part,
                        ),
                decreases end - q,
            {
                q = q + 1;
            }
            self.pos = q;
            self.token = match keyword_of(text, self.token_pos, q) {
                Some(k) => SyntaxKind::Keywords(k),
                None => SyntaxKind::Tokens(TokenSyntaxKind::Identifier),
            };
        }
        self.token
    }

    /// Scans a JSX attribute value from `pos`: a quoted string, which knows no
    /// escapes and may span lines, or else an ordinary token.
    pub fn scan_jsx_attribute_value(&mut self) -> (r: SyntaxKind)
        requires
            old(self).wf(),
        ensures
            final(self).wf(),
            r == final(self)@.token,
            same_config(old(self)@, final(self)@),
            final(self)@.full_start == old(self)@.pos,
            final(self)@ == jsx_attribute_value_result(old(self)@),
            final(self).directives() == old(self).directives() + jsx_attribute_value_directives(
                old(self)@,
            ),
            old(self)@.pos < old(self)@.end && (old(self)@.text[old(self)@.pos as int] == '"'
                || old(self)@.text[old(self)@.pos as int] == '\'') ==> {
                &&& r == SyntaxKind::Literals(LiteralSyntaxKind::StringLiteral)
                &&& final(self)@.token_start == old(self)@.pos
                &&& final(self)@.pos > final(self)@.token_start
            },
    {
        let p = self.pos;
        if p < self.end && (self.text[p] == '"' || self.text[p] == '\'') {
            self.full_start_pos = p;
            self.token_pos = p;
            let ghost d0 = self.directives();
            let s = string_literal(self.text, p, self.end, true, &mut self.errors, self.reports_errors);
            let own = literal_flags(s.terminated, false, false, false);
            self.token_flags = compose_flags(false, false, own);
            self.pos = s.end;
            self.token = SyntaxKind::Literals(LiteralSyntaxKind::StringLiteral);
            assert(self.directives() =~= d0 + jsx_attribute_value_directives(old(self)@));
            self.token
        } else {
            self.scan()
        }
    }

    /// Rescans the current token, from where its scan began, as a JSX attribute value.
    pub fn re_scan_jsx_attribute_value(&mut self) -> (r: SyntaxKind)
        requires
            old(self).wf(),
        ensures
            final(self).wf(),
            r == final(self)@.token,
            same_config(old(self)@, final(self)@),
            final(self)@.full_start == old(self)@.full_start,
            final(self)@ == jsx_attribute_value_result(
                (ScannerState {
                    pos: old(self)@.full_start,
                    token_start: old(self)@.full_start,
                    ..old(self)@
                }),
            ),
    {
        self.pos = self.full_start_pos;
        self.token_pos = self.full_start_pos;
        self.scan_jsx_attribute_value()
    }

    /// Rescans an unknown token from its start as an identifier, when an
    /// identifier can start there; else moves past its first character.
    pub fn re_scan_invalid_identifier(&mut self) -> (r: SyntaxKind)
        requires
            old(self).wf(),
        ensures
            final(self).wf(),
            r == final(self)@.token,
            final(self).directives() == old(self).directives(),
            old(self)@.token != SyntaxKind::Tokens(TokenSyntaxKind::Unknown) ==> final(self)@ == old(
                self,
            )@,
            old(self)@.token == SyntaxKind::Tokens(TokenSyntaxKind::Unknown) && old(self)@.token_start
                < old(self)@.end ==> {
                &&& same_config(old(self)@, final(self)@)
                &&& final(self)@.token_start == old(self)@.token_start
                &&& final(self)@.pos > final(self)@.token_start
                &&& (spec_is_identifier_start(
                    old(self)@.text[old(self)@.token_start as int],
                    old(self)@.identifier_start,
                ) ==> r == match keyword_of_text(token_chars(final(self)@)) {
                    Some(k) => SyntaxKind::Keywords(k),
                    None => identifier_token(),
                })
            },
    {
        if self.token == SyntaxKind::Tokens(TokenSyntaxKind::Unknown) && self.token_pos < self.end {
            proof {
                use_type_invariant(self.tables);
            }
            let p = self.token_pos;
            self.token_flags = 0;
            if is_identifier_start(self.text[p], self.tables.start.as_slice()) {
                let q = identifier_parts_end(self.text, p + 1, self.end, self.tables.part.as_slice());
                self.pos = q;
                self.token = match keyword_of(self.text, p, q) {
                    Some(k) => SyntaxKind::Keywords(k),
                    None => SyntaxKind::Tokens(TokenSyntaxKind::Identifier),
                };
            } else {
                self.pos = p + 1;
            }
        }
        self.token
    }

    /// Scans one token of JSDoc mode from `pos`: whitespace runs, line breaks,
    /// the single-character tokens of `jsdoc_single`, and identifiers (which
    /// may hold `-`) or keywords; anything else is one unknown character.
    pub fn scan_js_doc_token(&mut self) -> (r: JSDocSyntaxKind)
        requires
            old(self).wf(),
        ensures
            final(self).wf(),
            final(self)@.token == jsdoc_token_kind(r),
            restarted_at(final(self)@, old(self)@, old(self)@.pos),
            final(self).directives() == old(self).directives(),
            final(self).errors() == old(self).errors(),
            (r == JSDocSyntaxKind::EndOfFileToken) == (old(self)@.pos >= old(self)@.end),
            r != JSDocSyntaxKind::EndOfFileToken ==> final(self)@.pos > final(self)@.token_start,
            old(self)@.pos < old(self)@.end ==> {
                let c = old(self)@.text[old(self)@.pos as int];
                &&& (jsdoc_single(c) matches Some(k) ==> r == k && final(self)@.pos == old(self)@.pos
                    + 1)
                &&& (r == JSDocSyntaxKind::NewLineTrivia <==> spec_is_line_break_char(c))
                &&& (r == JSDocSyntaxKind::NewLineTrivia ==> has_flag(
                    final(self)@.flags,
                    TokenFlags::PrecedingLineBreak,
                ))
                &&& (r == JSDocSyntaxKind::Identifier || r is Keywords ==> r == match keyword_of_text(
                    token_chars(final(self)@),
                ) {
                    Some(k) => JSDocSyntaxKind::Keywords(k),
                    None => JSDocSyntaxKind::Identifier,
                })
            },
    {
        proof {
            use_type_invariant(self.tables);
        }
        let text = self.text;
        let end = self.end;
        let p = self.pos;
        self.full_start_pos = p;
        self.token_pos = p;
        self.token_flags = compose_flags(false, false, 0);
        if p >= end {
            self.token = SyntaxKind::Tokens(TokenSyntaxKind::EndOfFileToken);
            return JSDocSyntaxKind::EndOfFileToken;
        }
        let c = text[p];
        if let Some(k) = jsdoc_single_exec(c) {
            self.pos = p + 1;
            self.token = match k {
                JSDocSyntaxKind::AtToken => SyntaxKind::Punctuations(PunctuationSyntaxKind::AtToken),
                JSDocSyntaxKind::AsteriskToken => SyntaxKind::Punctuations(
                    PunctuationSyntaxKind::AsteriskToken,
                ),
                JSDocSyntaxKind::OpenBraceToken => SyntaxKind::Punctuations(
                    PunctuationSyntaxKind::OpenBraceToken,
                ),
                JSDocSyntaxKind::CloseBraceToken => SyntaxKind::Punctuations(
                    PunctuationSyntaxKind::CloseBraceToken,
                ),
                JSDocSyntaxKind::LessThanToken => SyntaxKind::Punctuations(
                    PunctuationSyntaxKind::LessThanToken,
                ),
                JSDocSyntaxKind::GreaterThanToken => SyntaxKind::Punctuations(
                    PunctuationSyntaxKind::GreaterThanToken,
                ),
                JSDocSyntaxKind::OpenBracketToken => SyntaxKind::Punctuations(
                    PunctuationSyntaxKind::OpenBracketToken,
                ),
                JSDocSyntaxKind::CloseBracketToken => SyntaxKind::Punctuations(
                    PunctuationSyntaxKind::CloseBracketToken,
                ),
                JSDocSyntaxKind::EqualsToken => SyntaxKind::Punctuations(
                    PunctuationSyntaxKind::EqualsToken,
                ),
                JSDocSyntaxKind::CommaToken => SyntaxKind::Punctuations(
                    PunctuationSyntaxKind::CommaToken,
                ),
                JSDocSyntaxKind::DotToken => SyntaxKind::Punctuations(PunctuationSyntaxKind::DotToken),
                JSDocSyntaxKind::BacktickToken => SyntaxKind::Punctuations(
                    PunctuationSyntaxKind::BacktickToken,
                ),
                _ => SyntaxKind::Punctuations(PunctuationSyntaxKind::HashToken),
            };
            return k;
        }
        if is_line_break_char(c) {
            let q = if c == '\r' && p + 1 < end && text[p + 1] == '\n' {
                p + 2
            } else {
                p + 1
            };
            self.pos = q;
            self.token_flags = compose_flags(true, false, 0);
            self.token = SyntaxKind::Trivias(TriviaSyntaxKind::NewLineTrivia);
            return JSDocSyntaxKind::NewLineTrivia;
        }
        if is_white_space_single_line(c) {
            self.pos = white_space_end(text, p, end);
            self.token = SyntaxKind::Trivias(TriviaSyntaxKind::WhitespaceTrivia);
            return JSDocSyntaxKind::WhitespaceTrivia;
        }
        if is_identifier_start(c, self.tables.start.as_slice()) {
            let mut q = p + 1;
            while q < end && (text[q] == '-' || is_identifier_part(
                text[q],
                self.tables.part.as_slice(),
            ))
                invariant
                    p < q <= end <= text@.len(),
                    usable_table(self@.identifier_part),
                decreases end - q,
            {
                q = q + 1;
            }
            self.pos = q;
            return match keyword_of(text, p, q) {
                Some(k) => {
                    self.token = SyntaxKind::Keywords(k);
                    JSDocSyntaxKind::Keywords(k)
                },
                None => {
                    self.token = SyntaxKind::Tokens(TokenSyntaxKind::Identifier);
                    JSDocSyntaxKind::Identifier
                },
            };
        }
        self.pos = p + 1;
        self.token = SyntaxKind::Tokens(TokenSyntaxKind::Unknown);
        JSDocSyntaxKind::Unknown
    }
}

} // verus!
