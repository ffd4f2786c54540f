use vstd::prelude::*;
use crate::chars::{is_line_break_char, spec_is_identifier_part, spec_is_line_break_char};
use crate::diagnostics::{report_error, ScanErrorKind};
use crate::flags::{
    compose_flags, flag_word, has_flag, lemma_flag_within, literal_flags, literal_word,
};
use crate::lexemes::{
    identifier_part_of, identifier_parts_end, scan_while, template_kind, template_piece,
    template_scan,
};
use crate::punctuation::punct_text;
use crate::types::{
    LiteralSyntaxKind, PseudoLiteralSyntaxKind, PunctuationSyntaxKind, SyntaxKind, TokenFlags,
};

use super::{punct, same_config, Scanner, ScannerState};

verus! {

/// The `>`-led token that rescanning a `>` at `i` (whose next unread offset is
/// `p`) yields: the longest of `>>>=`, `>>>`, `>>=`, `>>`, `>=`, `>`.
pub open spec fn greater_rescan(t: Seq<char>, p: int, end: int) -> PunctuationSyntaxKind {
    if p < end && t[p] == '>' {
        if p + 1 < end && t[p + 1] == '>' {
            if p + 2 < end && t[p + 2] == '=' {
                PunctuationSyntaxKind::GreaterThanGreaterThanGreaterThanEqualsToken
            } else {
                PunctuationSyntaxKind::GreaterThanGreaterThanGreaterThanToken
            }
        } else if p + 1 < end && t[p + 1] == '=' {
            PunctuationSyntaxKind::GreaterThanGreaterThanEqualsToken
        } else {
            PunctuationSyntaxKind::GreaterThanGreaterThanToken
        }
    } else if p < end && t[p] == '=' {
        PunctuationSyntaxKind::GreaterThanEqualsToken
    } else {
        PunctuationSyntaxKind::GreaterThanToken
    }
}

/// The state after rescanning, from the current token's start, a template
/// piece: it ends just past the first unescaped backtick or `${` (or at `end`,
/// unterminated), and it is a head or middle exactly when `${` closes it.
pub open spec fn template_rescan(o: ScannerState) -> ScannerState {
    let m = template_scan(o.text, o.token_start + 1, o.end as int);
    ScannerState {
        pos: m.0 as usize,
        token: template_kind(o.text[o.token_start as int] == '`', m.2),
        flags: flag_word(
            has_flag(o.flags, TokenFlags::PrecedingLineBreak),
            has_flag(o.flags, TokenFlags::PrecedingJSDocComment),
            literal_word(m.1, m.3, m.4, m.5),
        ),
        ..o
    }
}

/// A regular expression body scanned from `i`: where it ends and whether a
/// closing `/` was found. A `/` outside a character class and not escaped
/// closes it; a line break or the end of the text leaves it unterminated.
pub open spec fn regex_body(t: Seq<char>, i: int, end: int, in_escape: bool, in_class: bool) -> (
    int,
    bool,
)
    decreases end - i,
{
    if i < 0 || i >= end {
        (i, false)
    } else {
        let c = t[i];
        if spec_is_line_break_char(c) {
            (i, false)
        } else if in_escape {
            regex_body(t, i + 1, end, false, in_class)
        } else if c == '/' && !in_class {
            (i + 1, true)
        } else if c == '[' {
            regex_body(t, i + 1, end, false, true)
        } else if c == '\\' {
            regex_body(t, i + 1, end, true, in_class)
        } else if c == ']' {
            regex_body(t, i + 1, end, false, false)
        } else {
            regex_body(t, i + 1, end, false, in_class)
        }
    }
}

/// The state after rescanning the current `/` or `/=` token as a regular
/// expression literal: its body, then the identifier characters of its flags.
pub open spec fn regex_rescan(o: ScannerState) -> ScannerState {
    let b = regex_body(o.text, o.token_start + 1, o.end as int, false, false);
    ScannerState {
        pos: scan_while(o.text, b.0, o.end as int, identifier_part_of(o.identifier_part)) as usize,
        token: SyntaxKind::Literals(LiteralSyntaxKind::RegularExpressionLiteral),
        flags: flag_word(
            has_flag(o.flags, TokenFlags::PrecedingLineBreak),
            has_flag(o.flags, TokenFlags::PrecedingJSDocComment),
            if b.1 {
                0u32
            } else {
                4u32
            },
        ),
        ..o
    }
}

/// The current token is a `}` that a template piece may continue from.
pub open spec fn rescans_close_brace(s: ScannerState) -> bool {
    &&& s.token == punct(PunctuationSyntaxKind::CloseBraceToken)
    &&& s.token_start < s.end
    &&& s.text[s.token_start as int] == '}'
}

impl<'a> Scanner<'a> {
    /// Rescans a `>` token as the longest of `>>>=`, `>>>`, `>>=`, `>>`, `>=`
    /// and `>`, reading on from the end of the `>`; any other token is kept.
    pub fn re_scan_greater_token(&mut self) -> (r: SyntaxKind)
        requires
            old(self).wf(),
        ensures
            final(self).wf(),
            r == final(self)@.token,
            final(self).directives() == old(self).directives(),
            final(self).errors() == old(self).errors(),
            old(self)@.token != punct(PunctuationSyntaxKind::GreaterThanToken) ==> final(self)@
                == old(self)@,
            old(self)@.token == punct(PunctuationSyntaxKind::GreaterThanToken) ==> {
                let k = greater_rescan(old(self)@.text, old(self)@.pos as int, old(self)@.end as int);
                &&& r == punct(k)
                &&& final(self)@.pos >= old(self)@.pos
                &&& final(self)@.text.subrange(old(self)@.pos as int, final(self)@.pos as int)
                    == punct_text(k).subrange(1, punct_text(k).len() as int)
                &&& final(self)@ == (ScannerState {
                    pos: final(self)@.pos,
                    token: r,
                    ..old(self)@
                })
            },
    {
        if self.token == SyntaxKind::Punctuations(PunctuationSyntaxKind::GreaterThanToken) {
            let p = self.pos;
            let end = self.end;
            let text = self.text;
            let (k, q) = if p < end && text[p] == '>' {
                if p + 1 < end && text[p + 1] == '>' {
                    if p + 2 < end && text[p + 2] == '=' {
                        (PunctuationSyntaxKind::GreaterThanGreaterThanGreaterThanEqualsToken, p + 3)
                    } else {
                        (PunctuationSyntaxKind::GreaterThanGreaterThanGreaterThanToken, p + 2)
                    }
                } else if p + 1 < end && text[p + 1] == '=' {
                    (PunctuationSyntaxKind::GreaterThanGreaterThanEqualsToken, p + 2)
                } else {
                    (PunctuationSyntaxKind::GreaterThanGreaterThanToken, p + 1)
                }
            } else if p < end && text[p] == '=' {
                (PunctuationSyntaxKind::GreaterThanEqualsToken, p + 1)
            } else {
                (PunctuationSyntaxKind::GreaterThanToken, p)
            };
            proof {
                assert(text@.subrange(p as int, q as int) =~= punct_text(k).subrange(
                    1,
                    punct_text(k).len() as int,
                ));
            }
            self.pos = q;
            self.token = SyntaxKind::Punctuations(k);
        }
        self.token
    }

    /// Rescans a `/` or `/=` token as a regular expression literal: up to the
    /// next `/` outside a character class and not escaped, then its flags. An
    /// unescaped line break or the end of the text leaves it unterminated.
    pub fn re_scan_slash_token(&mut self) -> (r: SyntaxKind)
        requires
            old(self).wf(),
        ensures
            final(self).wf(),
            r == final(self)@.token,
            final(self).directives() == old(self).directives(),
            !((old(self)@.token == punct(PunctuationSyntaxKind::SlashToken) || old(self)@.token
                == punct(PunctuationSyntaxKind::SlashEqualsToken)) && old(self)@.token_start < old(
                self,
            )@.end) ==> final(self)@ == old(self)@,
            (old(self)@.token == punct(PunctuationSyntaxKind::SlashToken) || old(self)@.token
                == punct(PunctuationSyntaxKind::SlashEqualsToken)) && old(self)@.token_start < old(
                self,
            )@.end ==> {
                &&& r == SyntaxKind::Literals(LiteralSyntaxKind::RegularExpressionLiteral)
                &&& final(self)@ == regex_rescan(old(self)@)
                &&& same_config(old(self)@, final(self)@)
                &&& final(self)@.token_start == old(self)@.token_start
                &&& final(self)@.full_start == old(self)@.full_start
                &&& final(self)@.pos > old(self)@.token_start
                &&& (has_flag(final(self)@.flags, TokenFlags::Unterminated) || final(self)@.text[
                    final(self)@.pos - 1] == '/' || spec_is_identifier_part(
                    final(self)@.text[final(self)@.pos - 1],
                    final(self)@.identifier_part,
                ))
            },
    {
        if (self.token == SyntaxKind::Punctuations(PunctuationSyntaxKind::SlashToken) || self.token
            == SyntaxKind::Punctuations(PunctuationSyntaxKind::SlashEqualsToken)) && self.token_pos
            < self.end {
            proof {
                use_type_invariant(self.tables);
            }
            let text = self.text;
            let end = self.end;
            let mut p = self.token_pos + 1;
            let mut in_escape = false;
            let mut in_class = false;
            let mut terminated = false;
            while p < end
                invariant_except_break
                    !terminated,
                invariant
                    self.token_pos < end <= text@.len(),
                    self.token_pos < p <= end,
                    terminated ==> text@[p - 1] == '/',
                    !terminated ==> regex_body(text@, p as int, end as int, in_escape, in_class)
                        == regex_body(text@, self.token_pos + 1, end as int, false, false),
                    terminated ==> regex_body(text@, self.token_pos + 1, end as int, false, false)
                        == (p as int, true),
                ensures
                    terminated ==> text@[p - 1] == '/',
                    !terminated ==> regex_body(text@, p as int, end as int, in_escape, in_class)
                        == (p as int, false),
                    terminated ==> regex_body(text@, self.token_pos + 1, end as int, false, false)
                        == (p as int, true),
                decreases end - p,
            {
                let c = text[p];
                if is_line_break_char(c) {
                    break ;
                }
                p = p + 1;
                if in_escape {
                    in_escape = false;
                } else if c == '/' && !in_class {
                    terminated = true;
                    break ;
                } else if c == '[' {
                    in_class = true;
                } else if c == '\\' {
                    in_escape = true;
                } else if c == ']' {
                    in_class = false;
                }
            }
            let mut own: u32 = 0;
            if !terminated {
                report_error(
                    &mut self.errors,
                    self.reports_errors,
                    ScanErrorKind::UnterminatedRegularExpressionLiteral,
                    self.token_pos,
                    p - self.token_pos,
                );
                own = 4;
            }
            let q = identifier_parts_end(text, p, end, self.tables.part.as_slice());
            let line_break = self.token_flags & 1 != 0;
            let jsdoc = self.token_flags & 2 != 0;
            self.token_flags = compose_flags(line_break, jsdoc, own);
            proof {
                if !terminated {
                    assert(4u32 & 4u32 != 0) by (bit_vector);
                    lemma_flag_within(self.token_flags, own, TokenFlags::Unterminated);
                }
            }
            self.pos = q;
            self.token = SyntaxKind::Literals(LiteralSyntaxKind::RegularExpressionLiteral);
        }
        self.token
    }

    /// Splits a `*=` token: the `=` becomes the current token, starting after the `*`.
    pub fn re_scan_asterisk_equals_token(&mut self) -> (r: SyntaxKind)
        requires
            old(self).wf(),
        ensures
            final(self).wf(),
            r == final(self)@.token,
            final(self).directives() == old(self).directives(),
            final(self).errors() == old(self).errors(),
            old(self)@.token != punct(PunctuationSyntaxKind::AsteriskEqualsToken) ==> final(self)@
                == old(self)@,
            old(self)@.token == punct(PunctuationSyntaxKind::AsteriskEqualsToken) && old(self)@.pos
                > old(self)@.token_start ==> final(self)@ == (ScannerState {
                token_start: (old(self)@.token_start + 1) as usize,
                token: punct(PunctuationSyntaxKind::EqualsToken),
                ..old(self)@
            }),
    {
        if self.token == SyntaxKind::Punctuations(PunctuationSyntaxKind::AsteriskEqualsToken)
            && self.pos > self.token_pos {
            self.token_pos = self.token_pos + 1;
            self.token = SyntaxKind::Punctuations(PunctuationSyntaxKind::EqualsToken);
        }
        self.token
    }

    /// Splits a `<<` token: its first `<` becomes the current token.
    pub fn re_scan_less_than_token(&mut self) -> (r: SyntaxKind)
        requires
            old(self).wf(),
        ensures
            final(self).wf(),
            r == final(self)@.token,
            final(self).directives() == old(self).directives(),
            final(self).errors() == old(self).errors(),
            old(self)@.token != punct(PunctuationSyntaxKind::LessThanLessThanToken) ==> final(self)@
                == old(self)@,
            old(self)@.token == punct(PunctuationSyntaxKind::LessThanLessThanToken) && old(self)@.pos
                > old(self)@.token_start ==> final(self)@ == (ScannerState {
                pos: (old(self)@.token_start + 1) as usize,
                token: punct(PunctuationSyntaxKind::LessThanToken),
                ..old(self)@
            }),
    {
        if self.token == SyntaxKind::Punctuations(PunctuationSyntaxKind::LessThanLessThanToken)
            && self.pos > self.token_pos {
            self.pos = self.token_pos + 1;
            self.token = SyntaxKind::Punctuations(PunctuationSyntaxKind::LessThanToken);
        }
        self.token
    }

    /// Splits a private identifier: its `#` becomes the current token.
    pub fn re_scan_hash_token(&mut self) -> (r: SyntaxKind)
        requires
            old(self).wf(),
        ensures
            final(self).wf(),
            r == final(self)@.token,
            final(self).directives() == old(self).directives(),
            final(self).errors() == old(self).errors(),
            old(self)@.token != SyntaxKind::PrivateIdentifier ==> final(self)@ == old(self)@,
            old(self)@.token == SyntaxKind::PrivateIdentifier && old(self)@.pos > old(self)@.token_start
                ==> final(self)@ == (ScannerState {
                pos: (old(self)@.token_start + 1) as usize,
                token: punct(PunctuationSyntaxKind::HashToken),
                ..old(self)@
            }),
    {
        if self.token == SyntaxKind::PrivateIdentifier && self.pos > self.token_pos {
            self.pos = self.token_pos + 1;
            self.token = SyntaxKind::Punctuations(PunctuationSyntaxKind::HashToken);
        }
        self.token
    }

    /// Splits a `??` token: its first `?` becomes the current token.
    pub fn re_scan_question_token(&mut self) -> (r: SyntaxKind)
        requires
            old(self).wf(),
        ensures
            final(self).wf(),
            r == final(self)@.token,
            final(self).directives() == old(self).directives(),
            final(self).errors() == old(self).errors(),
            old(self)@.token != punct(PunctuationSyntaxKind::QuestionQuestionToken) ==> final(self)@
                == old(self)@,
            old(self)@.token == punct(PunctuationSyntaxKind::QuestionQuestionToken) && old(self)@.pos
                > old(self)@.token_start ==> final(self)@ == (ScannerState {
                pos: (old(self)@.token_start + 1) as usize,
                token: punct(PunctuationSyntaxKind::QuestionToken),
                ..old(self)@
            }),
    {
        if self.token == SyntaxKind::Punctuations(PunctuationSyntaxKind::QuestionQuestionToken)
            && self.pos > self.token_pos {
            self.pos = self.token_pos + 1;
            self.token = SyntaxKind::Punctuations(PunctuationSyntaxKind::QuestionToken);
        }
        self.token
    }

    /// Rescans from the current token's start a template piece that a `}`
    /// opens: a template middle when `${` closes it, else a template tail.
    /// Any other token is kept.
    pub fn re_scan_template_token(&mut self, is_tagged_template: bool) -> (r: SyntaxKind)
        requires
            old(self).wf(),
        ensures
            final(self).wf(),
            r == final(self)@.token,
            final(self).directives() == old(self).directives(),
            !rescans_close_brace(old(self)@) ==> final(self)@ == old(self)@,
            rescans_close_brace(old(self)@) ==> {
                &&& r == SyntaxKind::PseudoLiterals(PseudoLiteralSyntaxKind::TemplateMiddle) || r
                    == SyntaxKind::PseudoLiterals(PseudoLiteralSyntaxKind::TemplateTail)
                &&& final(self)@ == template_rescan(old(self)@)
                &&& same_config(old(self)@, final(self)@)
                &&& final(self)@.token_start == old(self)@.token_start
                &&& final(self)@.full_start == old(self)@.full_start
                &&& final(self)@.pos > final(self)@.token_start
            },
    {
        self.rescan_template_from_token_start(false, is_tagged_template)
    }

    /// Rescans from the current token's start a template piece that a
    /// backtick opens: a template head when `${` closes it, else a template
    /// without substitutions. A token that does not start with a backtick is kept.
    pub fn re_scan_template_head_or_no_substitution_template(&mut self) -> (r: SyntaxKind)
        requires
            old(self).wf(),
        ensures
            final(self).wf(),
            r == final(self)@.token,
            final(self).directives() == old(self).directives(),
            old(self)@.token_start >= old(self)@.end || old(self)@.text[old(self)@.token_start as int]
                != '`' ==> final(self)@ == old(self)@,
            old(self)@.token_start < old(self)@.end && old(self)@.text[old(self)@.token_start as int]
                == '`' ==> {
                &&& r == SyntaxKind::PseudoLiterals(PseudoLiteralSyntaxKind::TemplateHead) || r
                    == SyntaxKind::Literals(LiteralSyntaxKind::NoSubstitutionTemplateLiteral)
                &&& final(self)@ == template_rescan(old(self)@)
                &&& same_config(old(self)@, final(self)@)
                &&& final(self)@.token_start == old(self)@.token_start
                &&& final(self)@.full_start == old(self)@.full_start
                &&& final(self)@.pos > final(self)@.token_start
            },
    {
        self.rescan_template_from_token_start(true, true)
    }

    fn rescan_template_from_token_start(&mut self, backtick: bool, is_tagged: bool) -> (r:
        SyntaxKind)
        requires
            old(self).wf(),
        ensures
            final(self).wf(),
            r == final(self)@.token,
            final(self).directives() == old(self).directives(),
            !backtick && !rescans_close_brace(old(self)@) ==> final(self)@ == old(self)@,
            backtick && (old(self)@.token_start >= old(self)@.end || old(self)@.text[old(
                self,
            )@.token_start as int] != '`') ==> final(self)@ == old(self)@,
            (if backtick {
                old(self)@.token_start < old(self)@.end && old(self)@.text[old(
                    self,
                )@.token_start as int] == '`'
            } else {
                rescans_close_brace(old(self)@)
            }) ==> {
                &&& (r == crate::lexemes::template_kind(
                    old(self)@.text[old(self)@.token_start as int] == '`',
                    true,
                ) || r == crate::lexemes::template_kind(
                    old(self)@.text[old(self)@.token_start as int] == '`',
                    false,
                ))
                &&& final(self)@ == template_rescan(old(self)@)
                &&& same_config(old(self)@, final(self)@)
                &&& final(self)@.token_start == old(self)@.token_start
                &&& final(self)@.full_start == old(self)@.full_start
                &&& final(self)@.pos > final(self)@.token_start
            },
    {
        let applies = if backtick {
            self.token_pos < self.end && self.text[self.token_pos] == '`'
        } else {
            self.token == SyntaxKind::Punctuations(PunctuationSyntaxKind::CloseBraceToken)
                && self.token_pos < self.end && self.text[self.token_pos] == '}'
        };
        if applies {
            let t = template_piece(
                self.text,
                self.token_pos,
                self.end,
                is_tagged,
                &mut self.errors,
                self.reports_errors,
            );
            let line_break = self.token_flags & 1 != 0;
            let jsdoc = self.token_flags & 2 != 0;
            let own = literal_flags(
                t.terminated,
                t.escapes.unicode,
                t.escapes.extended,
                t.escapes.invalid,
            );
            self.token_flags = compose_flags(line_break, jsdoc, own);
            self.pos = t.end;
            self.token = t.kind;
        }
        self.token
    }
}

} // verus!
