use ts_scanner::comment_directives::{multi_line_comment_directive, single_line_comment_directive};
use ts_scanner::diagnostics::{ScanError, ScanErrorKind};
use ts_scanner::line_index::{
    compute_line_and_character_of_position, compute_line_starts, is_line_break,
};
use ts_scanner::scanner::{IdentifierTables, Scanner};
use ts_scanner::tokens::{tokenIsIdentifierOrKeyword, token_is_identifier_or_keyword_or_greater_than};
use ts_scanner::types::{
    CommentDirective, CommentDirectiveType, DiagnosticCategory, JSDocSyntaxKind,
    JsxTokenSyntaxKind, KeywordSyntaxKind, KeywordTypeSyntaxKind, LanguageVariant,
    LiteralSyntaxKind, ModifierSyntaxKind, PseudoLiteralSyntaxKind, PunctuationSyntaxKind,
    ScriptTarget, SyntaxKind, TextRange, TokenFlags, TokenSyntaxKind, TriviaSyntaxKind,
};

fn chars(s: &str) -> Vec<char> {
    s.chars().collect()
}

fn punct(k: PunctuationSyntaxKind) -> SyntaxKind {
    SyntaxKind::Punctuations(k)
}

fn ident() -> SyntaxKind {
    SyntaxKind::Tokens(TokenSyntaxKind::Identifier)
}

fn eof() -> SyntaxKind {
    SyntaxKind::Tokens(TokenSyntaxKind::EndOfFileToken)
}

fn numeric() -> SyntaxKind {
    SyntaxKind::Literals(LiteralSyntaxKind::NumericLiteral)
}

/// Scans all of `src` (skipping trivia) and returns each token with its bounds.
fn tokens(src: &str) -> Vec<(SyntaxKind, usize, usize)> {
    let text = chars(src);
    let tables = IdentifierTables::new().unwrap();
    let mut s = Scanner::new(ScriptTarget::ESNext, true, LanguageVariant::Standard, &text, &tables);
    let mut out = Vec::new();
    loop {
        let t = s.scan();
        out.push((t, s.get_token_pos(), s.get_text_pos()));
        if t == eof() {
            break;
        }
    }
    out
}

fn errors_of(src: &str) -> Vec<ScanErrorKind> {
    let text = chars(src);
    let tables = IdentifierTables::new().unwrap();
    let mut s = Scanner::new(ScriptTarget::ESNext, true, LanguageVariant::Standard, &text, &tables);
    while s.scan() != eof() {}
    s.get_errors().iter().map(|e: &ScanError| e.kind).collect()
}

#[test]
fn zero_is_a_numeric_literal_without_flags() {
    let text = chars("0");
    let tables = IdentifierTables::new().unwrap();
    let mut s = Scanner::new(ScriptTarget::ESNext, true, LanguageVariant::Standard, &text, &tables);
    assert_eq!(s.scan(), numeric());
    assert_eq!(s.get_token_pos(), 0);
    assert_eq!(s.get_text_pos(), 1);
    assert_eq!(s.get_token_flags(), 0);
    assert_eq!(s.scan(), eof());
}

#[test]
fn hex_literal_has_hex_specifier_flag() {
    let text = chars("0x1F");
    let tables = IdentifierTables::new().unwrap();
    let mut s = Scanner::new(ScriptTarget::ESNext, true, LanguageVariant::Standard, &text, &tables);
    assert_eq!(s.scan(), numeric());
    assert_eq!(s.get_text_pos(), 4);
    assert_ne!(s.get_token_flags() & TokenFlags::HexSpecifier.bit(), 0);
    assert_eq!(s.get_numeric_literal_flags(), TokenFlags::HexSpecifier.bit());
    assert_eq!(s.get_token_text(), "0x1F");
}

#[test]
fn numeric_literal_flags() {
    let cases: Vec<(&str, u32)> = vec![
        ("0b101", TokenFlags::BinarySpecifier.bit()),
        ("0o17", TokenFlags::OctalSpecifier.bit()),
        ("017", TokenFlags::Octal.bit()),
        ("1e10", TokenFlags::Scientific.bit()),
        ("1_000", TokenFlags::ContainsSeparator.bit()),
        ("12.5", 0),
    ];
    for (src, flags) in cases {
        let text = chars(src);
        let tables = IdentifierTables::new().unwrap();
        let mut s =
            Scanner::new(ScriptTarget::ESNext, true, LanguageVariant::Standard, &text, &tables);
        assert_eq!(s.scan(), numeric(), "{}", src);
        assert_eq!(s.get_text_pos(), text.len(), "{}", src);
        assert_eq!(s.get_numeric_literal_flags(), flags, "{}", src);
    }
}

#[test]
fn big_int_literal() {
    assert_eq!(
        tokens("10n"),
        vec![(SyntaxKind::Literals(LiteralSyntaxKind::BigIntLiteral), 0, 3), (eof(), 3, 3)]
    );
}

#[test]
fn leading_dot_number() {
    assert_eq!(tokens(".5"), vec![(numeric(), 0, 2), (eof(), 2, 2)]);
}

#[test]
fn ts_ignore_comment_directive() {
    let text = chars("// @ts-ignore\n");
    let tables = IdentifierTables::new().unwrap();
    let mut s = Scanner::new(ScriptTarget::ESNext, false, LanguageVariant::Standard, &text, &tables);
    assert_eq!(s.scan(), SyntaxKind::Trivias(TriviaSyntaxKind::SingleLineCommentTrivia));
    assert_eq!(s.get_token_pos(), 0);
    assert_eq!(s.get_text_pos(), 13);
    assert_eq!(
        s.get_comment_directives().to_vec(),
        vec![CommentDirective {
            range: TextRange { pos: 0, end: 13 },
            _type: CommentDirectiveType::Ignore
        }]
    );
    assert_eq!(s.scan(), SyntaxKind::Trivias(TriviaSyntaxKind::NewLineTrivia));
    assert!(s.has_preceding_line_break());
    assert_eq!(s.scan(), eof());
    s.clear_comment_directives();
    assert!(s.get_comment_directives().is_empty());
}

#[test]
fn directives_are_collected_while_skipping_trivia() {
    let text = chars("/// @ts-expect-error\nx /* @ts-ignore */ y // plain\n");
    let tables = IdentifierTables::new().unwrap();
    let mut s = Scanner::new(ScriptTarget::ESNext, true, LanguageVariant::Standard, &text, &tables);
    while s.scan() != eof() {}
    assert_eq!(
        s.get_comment_directives().to_vec(),
        vec![
            CommentDirective {
                range: TextRange { pos: 0, end: 20 },
                _type: CommentDirectiveType::ExpectError
            },
            CommentDirective {
                range: TextRange { pos: 23, end: 39 },
                _type: CommentDirectiveType::Ignore
            },
        ]
    );
}

#[test]
fn directive_patterns() {
    let t = chars("//  @ts-ignore");
    assert_eq!(single_line_comment_directive(&t, 0, t.len()), Some(CommentDirectiveType::Ignore));
    let t = chars("// x @ts-ignore");
    assert_eq!(single_line_comment_directive(&t, 0, t.len()), None);
    let t = chars("/** @ts-expect-error */");
    assert_eq!(
        multi_line_comment_directive(&t, 0, t.len()),
        Some(CommentDirectiveType::ExpectError)
    );
    let t = chars("/* @ts-nocheck */");
    assert_eq!(multi_line_comment_directive(&t, 0, t.len()), None);
}

#[test]
fn line_break_before_identifier() {
    let text = chars("a\nb");
    assert_eq!(compute_line_starts(&text), vec![0, 2]);
    let tables = IdentifierTables::new().unwrap();
    let mut s = Scanner::new(ScriptTarget::ESNext, true, LanguageVariant::Standard, &text, &tables);
    assert_eq!(s.scan(), ident());
    assert!(!s.has_preceding_line_break());
    assert_eq!(s.scan(), ident());
    assert_eq!(s.get_token_pos(), 2);
    assert_eq!(s.get_start_pos(), 1);
    assert!(s.has_preceding_line_break());
    assert_eq!(s.get_token_text(), "b");
}

#[test]
fn rescan_greater_than_pair() {
    let text = chars(">>");
    let tables = IdentifierTables::new().unwrap();
    let mut s = Scanner::new(ScriptTarget::ESNext, true, LanguageVariant::Standard, &text, &tables);
    assert_eq!(s.scan(), punct(PunctuationSyntaxKind::GreaterThanToken));
    assert_eq!(s.get_text_pos(), 1);
    assert_eq!(s.re_scan_greater_token(), punct(PunctuationSyntaxKind::GreaterThanGreaterThanToken));
    assert_eq!(s.get_token_pos(), 0);
    assert_eq!(s.get_text_pos(), 2);
    assert_eq!(s.scan(), eof());
}

#[test]
fn rescan_greater_than_forms() {
    let cases = vec![
        (">>>=", PunctuationSyntaxKind::GreaterThanGreaterThanGreaterThanEqualsToken),
        (">>>", PunctuationSyntaxKind::GreaterThanGreaterThanGreaterThanToken),
        (">>=", PunctuationSyntaxKind::GreaterThanGreaterThanEqualsToken),
        (">=", PunctuationSyntaxKind::GreaterThanEqualsToken),
        ("> =", PunctuationSyntaxKind::GreaterThanToken),
    ];
    for (src, k) in cases {
        let text = chars(src);
        let tables = IdentifierTables::new().unwrap();
        let mut s =
            Scanner::new(ScriptTarget::ESNext, true, LanguageVariant::Standard, &text, &tables);
        s.scan();
        assert_eq!(s.re_scan_greater_token(), punct(k), "{}", src);
    }
}

#[test]
fn range_table_lookup_scenarios() {
    let table: Vec<u32> = vec![10, 20, 30, 40];
    assert!(!ts_scanner::unicode::lookup_in_unicode_map(25, &table));
    assert!(ts_scanner::unicode::lookup_in_unicode_map(15, &table));
    assert!(!ts_scanner::unicode::lookup_in_unicode_map(5, &table));
    assert!(ts_scanner::unicode::lookup_in_unicode_map(40, &table));
    assert!(!ts_scanner::unicode::lookup_in_unicode_map(41, &table));
}

#[test]
fn range_table_lookup_agrees_with_linear_scan() {
    let table: Vec<u32> = vec![3, 3, 7, 9, 12, 20, 21, 21, 50, 60, 100, 200];
    for cp in 0..260u32 {
        let linear = table.chunks(2).any(|p| p[0] <= cp && cp <= p[1]);
        assert_eq!(ts_scanner::unicode::lookup_in_unicode_map(cp, &table), linear, "{}", cp);
    }
}

#[test]
fn table_well_formedness_check() {
    assert!(ts_scanner::unicode::is_well_formed_table(&[1, 2, 3, 4]));
    assert!(!ts_scanner::unicode::is_well_formed_table(&[]));
    assert!(!ts_scanner::unicode::is_well_formed_table(&[1, 2, 3]));
    assert!(!ts_scanner::unicode::is_well_formed_table(&[5, 2]));
    assert!(!ts_scanner::unicode::is_well_formed_table(&[1, 5, 5, 9]));
    assert!(ts_scanner::unicode::is_well_formed_table(&[1, 5, 6, 9]));
}

#[test]
fn line_index_shapes() {
    assert_eq!(compute_line_starts(&chars("")), vec![0]);
    assert_eq!(compute_line_starts(&chars("abc")), vec![0]);
    assert_eq!(compute_line_starts(&chars("a\r\nb\rc\u{2028}d\u{2029}")), vec![0, 3, 5, 7, 9]);
    assert_eq!(compute_line_starts(&chars("\n\n")), vec![0, 1, 2]);
}

#[test]
fn line_and_column_round_trip() {
    let text = chars("ab\ncde\n\nf");
    let starts = compute_line_starts(&text);
    assert_eq!(starts, vec![0, 3, 7, 8]);
    for pos in 0..=text.len() {
        let (line, col) = compute_line_and_character_of_position(&starts, pos);
        assert_eq!(starts[line] + col, pos);
    }
    assert_eq!(compute_line_and_character_of_position(&starts, 5), (1, 2));
    assert_eq!(compute_line_and_character_of_position(&starts, 7), (2, 0));
    assert_eq!(compute_line_and_character_of_position(&starts, 9), (3, 1));
}

#[test]
fn is_line_break_codes() {
    assert!(is_line_break(0x0A));
    assert!(is_line_break(0x0D));
    assert!(is_line_break(0x2028));
    assert!(is_line_break(0x2029));
    assert!(!is_line_break(0x20));
}

#[test]
fn look_ahead_restores_state() {
    let text = chars("a + b");
    let tables = IdentifierTables::new().unwrap();
    let mut s = Scanner::new(ScriptTarget::ESNext, true, LanguageVariant::Standard, &text, &tables);
    s.scan();
    let before = (s.get_text_pos(), s.get_token_pos(), s.get_start_pos(), s.get_token(), s.get_token_flags());
    let seen = s.look_ahead(|sc: &mut Scanner| {
        sc.scan();
        sc.scan()
    });
    assert_eq!(seen, ident());
    let after = (s.get_text_pos(), s.get_token_pos(), s.get_start_pos(), s.get_token(), s.get_token_flags());
    assert_eq!(before, after);
    assert_eq!(s.scan(), punct(PunctuationSyntaxKind::PlusToken));
}

#[test]
fn try_scan_commits_only_on_success() {
    let text = chars("x => y");
    let tables = IdentifierTables::new().unwrap();
    let mut s = Scanner::new(ScriptTarget::ESNext, true, LanguageVariant::Standard, &text, &tables);
    s.scan();
    let before = (s.get_text_pos(), s.get_token());
    assert!(!s.try_scan(|sc: &mut Scanner| sc.scan() == punct(PunctuationSyntaxKind::PlusToken)));
    assert!(!s.try_scan(|sc: &mut Scanner| {
        sc.scan();
        sc.scan() == eof()
    }));
    assert_eq!((s.get_text_pos(), s.get_token()), before);
    assert!(s.try_scan(|sc: &mut Scanner| sc.scan()
        == punct(PunctuationSyntaxKind::EqualsGreaterThanToken)));
    assert_eq!(s.get_token(), punct(PunctuationSyntaxKind::EqualsGreaterThanToken));
    assert_eq!(s.get_text_pos(), 4);
}

#[test]
fn scan_range_restores_bounds() {
    let text = chars("foo(bar, baz)");
    let tables = IdentifierTables::new().unwrap();
    let mut s = Scanner::new(ScriptTarget::ESNext, true, LanguageVariant::Standard, &text, &tables);
    s.scan();
    let before = (s.get_text_pos(), s.get_token_pos(), s.get_token());
    let inner = s.scan_range(4, 3, |sc: &mut Scanner| {
        let a = sc.scan();
        let text_a = sc.get_token_text();
        let b = sc.scan();
        (a, text_a, b)
    });
    assert_eq!(inner, (ident(), "bar".to_string(), eof()));
    assert_eq!((s.get_text_pos(), s.get_token_pos(), s.get_token()), before);
    assert_eq!(s.get_text().len(), text.len());
    assert_eq!(s.scan(), punct(PunctuationSyntaxKind::OpenParenToken));
}

#[test]
fn keywords_and_identifiers() {
    let toks = tokens("const x = typeof y; interface I {} async");
    let kinds: Vec<SyntaxKind> = toks.iter().map(|t| t.0).collect();
    assert_eq!(
        kinds,
        vec![
            SyntaxKind::Keywords(KeywordSyntaxKind::Modifiers(ModifierSyntaxKind::ConstKeyword)),
            ident(),
            punct(PunctuationSyntaxKind::EqualsToken),
            SyntaxKind::Keywords(KeywordSyntaxKind::TypeOfKeyword),
            ident(),
            punct(PunctuationSyntaxKind::SemicolonToken),
            SyntaxKind::Keywords(KeywordSyntaxKind::InterfaceKeyword),
            ident(),
            punct(PunctuationSyntaxKind::OpenBraceToken),
            punct(PunctuationSyntaxKind::CloseBraceToken),
            SyntaxKind::Keywords(KeywordSyntaxKind::Modifiers(ModifierSyntaxKind::AsyncKeyword)),
            eof(),
        ]
    );
}

#[test]
fn reserved_words_and_identifiers() {
    let text = chars("void of");
    let tables = IdentifierTables::new().unwrap();
    let mut s = Scanner::new(ScriptTarget::ESNext, true, LanguageVariant::Standard, &text, &tables);
    assert_eq!(
        s.scan(),
        SyntaxKind::Keywords(KeywordSyntaxKind::KeywordType(KeywordTypeSyntaxKind::VoidKeyword))
    );
    assert!(s.is_reserved_word());
    assert!(!s.is_identifier());
    assert_eq!(s.scan(), SyntaxKind::Keywords(KeywordSyntaxKind::OfKeyword));
    assert!(!s.is_reserved_word());
    assert!(s.is_identifier());
}

#[test]
fn punctuation_longest_match() {
    let toks = tokens("a ??= b?.c ... === !== ** **= >>= ?.5");
    let kinds: Vec<SyntaxKind> = toks.iter().map(|t| t.0).collect();
    assert_eq!(
        kinds,
        vec![
            ident(),
            punct(PunctuationSyntaxKind::QuestionQuestionEqualsToken),
            ident(),
            punct(PunctuationSyntaxKind::QuestionDotToken),
            ident(),
            punct(PunctuationSyntaxKind::DotDotDotToken),
            punct(PunctuationSyntaxKind::EqualsEqualsEqualsToken),
            punct(PunctuationSyntaxKind::ExclamationEqualsEqualsToken),
            punct(PunctuationSyntaxKind::AsteriskAsteriskToken),
            punct(PunctuationSyntaxKind::AsteriskAsteriskEqualsToken),
            punct(PunctuationSyntaxKind::GreaterThanToken),
            punct(PunctuationSyntaxKind::GreaterThanToken),
            punct(PunctuationSyntaxKind::EqualsToken),
            punct(PunctuationSyntaxKind::QuestionToken),
            numeric(),
            eof(),
        ]
    );
}

#[test]
fn strings_and_values() {
    let text = chars("'a\\n\\'b' \"unterminated");
    let tables = IdentifierTables::new().unwrap();
    let mut s = Scanner::new(ScriptTarget::ESNext, true, LanguageVariant::Standard, &text, &tables);
    assert_eq!(s.scan(), SyntaxKind::Literals(LiteralSyntaxKind::StringLiteral));
    assert_eq!(s.get_token_text(), "'a\\n\\'b'");
    assert_eq!(s.get_token_value(), "a\n'b");
    assert!(!s.is_unterminated());
    assert_eq!(s.scan(), SyntaxKind::Literals(LiteralSyntaxKind::StringLiteral));
    assert!(s.is_unterminated());
    assert_eq!(s.get_token_value(), "unterminated");
    assert_eq!(s.get_errors()[0].kind, ScanErrorKind::UnterminatedStringLiteral);
}

#[test]
fn templates_and_rescans() {
    let text = chars("`a${x}b`");
    let tables = IdentifierTables::new().unwrap();
    let mut s = Scanner::new(ScriptTarget::ESNext, true, LanguageVariant::Standard, &text, &tables);
    assert_eq!(s.scan(), SyntaxKind::PseudoLiterals(PseudoLiteralSyntaxKind::TemplateHead));
    assert_eq!(s.get_text_pos(), 4);
    assert_eq!(s.scan(), ident());
    assert_eq!(s.scan(), punct(PunctuationSyntaxKind::CloseBraceToken));
    assert_eq!(
        s.re_scan_template_token(false),
        SyntaxKind::PseudoLiterals(PseudoLiteralSyntaxKind::TemplateTail)
    );
    assert_eq!(s.get_token_pos(), 5);
    assert_eq!(s.get_text_pos(), 8);
    assert_eq!(
        tokens("`plain`")[0],
        (SyntaxKind::Literals(LiteralSyntaxKind::NoSubstitutionTemplateLiteral), 0, 7)
    );
}

#[test]
fn rescan_template_head() {
    let text = chars("`a${");
    let tables = IdentifierTables::new().unwrap();
    let mut s = Scanner::new(ScriptTarget::ESNext, true, LanguageVariant::Standard, &text, &tables);
    s.scan();
    assert_eq!(
        s.re_scan_template_head_or_no_substitution_template(),
        SyntaxKind::PseudoLiterals(PseudoLiteralSyntaxKind::TemplateHead)
    );
    assert_eq!(s.get_text_pos(), 4);
}

#[test]
fn regular_expression_rescan() {
    let text = chars("/a[/]b\\//gi;");
    let tables = IdentifierTables::new().unwrap();
    let mut s = Scanner::new(ScriptTarget::ESNext, true, LanguageVariant::Standard, &text, &tables);
    assert_eq!(s.scan(), punct(PunctuationSyntaxKind::SlashToken));
    assert_eq!(
        s.re_scan_slash_token(),
        SyntaxKind::Literals(LiteralSyntaxKind::RegularExpressionLiteral)
    );
    assert_eq!(s.get_text_pos(), 11);
    assert!(!s.is_unterminated());
    assert_eq!(s.scan(), punct(PunctuationSyntaxKind::SemicolonToken));
}

#[test]
fn unterminated_regular_expression() {
    let text = chars("/abc\nx");
    let tables = IdentifierTables::new().unwrap();
    let mut s = Scanner::new(ScriptTarget::ESNext, true, LanguageVariant::Standard, &text, &tables);
    s.scan();
    s.re_scan_slash_token();
    assert!(s.is_unterminated());
    assert_eq!(s.get_text_pos(), 4);
    assert_eq!(s.get_errors()[0].kind, ScanErrorKind::UnterminatedRegularExpressionLiteral);
}

#[test]
fn splitting_rescans() {
    let text = chars("<< ?? #x *=");
    let tables = IdentifierTables::new().unwrap();
    let mut s = Scanner::new(ScriptTarget::ESNext, true, LanguageVariant::Standard, &text, &tables);
    assert_eq!(s.scan(), punct(PunctuationSyntaxKind::LessThanLessThanToken));
    assert_eq!(s.re_scan_less_than_token(), punct(PunctuationSyntaxKind::LessThanToken));
    assert_eq!(s.get_text_pos(), 1);
    assert_eq!(s.scan(), punct(PunctuationSyntaxKind::LessThanToken));
    assert_eq!(s.scan(), punct(PunctuationSyntaxKind::QuestionQuestionToken));
    assert_eq!(s.re_scan_question_token(), punct(PunctuationSyntaxKind::QuestionToken));
    assert_eq!(s.scan(), punct(PunctuationSyntaxKind::QuestionToken));
    assert_eq!(s.scan(), SyntaxKind::PrivateIdentifier);
    assert_eq!(s.re_scan_hash_token(), punct(PunctuationSyntaxKind::HashToken));
    assert_eq!(s.scan(), ident());
    assert_eq!(s.scan(), punct(PunctuationSyntaxKind::AsteriskEqualsToken));
    assert_eq!(s.re_scan_asterisk_equals_token(), punct(PunctuationSyntaxKind::EqualsToken));
    assert_eq!(s.get_token_pos(), 10);
    assert_eq!(s.get_text_pos(), 11);
}

#[test]
fn trivia_tokens_when_not_skipping() {
    let text = chars("#!node\n  x/*a\nb*/");
    let tables = IdentifierTables::new().unwrap();
    let mut s = Scanner::new(ScriptTarget::ESNext, false, LanguageVariant::Standard, &text, &tables);
    assert_eq!(s.scan(), SyntaxKind::Trivias(TriviaSyntaxKind::ShebangTrivia));
    assert_eq!(s.scan(), SyntaxKind::Trivias(TriviaSyntaxKind::NewLineTrivia));
    assert_eq!(s.scan(), SyntaxKind::Trivias(TriviaSyntaxKind::WhitespaceTrivia));
    assert_eq!(s.get_text_pos(), 9);
    assert_eq!(s.scan(), ident());
    assert_eq!(s.scan(), SyntaxKind::Trivias(TriviaSyntaxKind::MultiLineCommentTrivia));
    assert!(s.has_preceding_line_break());
    assert_eq!(s.scan(), eof());
}

#[test]
fn jsdoc_comment_precedes_token() {
    let text = chars("/** doc */ x");
    let tables = IdentifierTables::new().unwrap();
    let mut s = Scanner::new(ScriptTarget::ESNext, true, LanguageVariant::Standard, &text, &tables);
    assert_eq!(s.scan(), ident());
    assert!(s.has_preceding_jsdoc_comment());
    assert!(!s.has_preceding_line_break());
}

#[test]
fn unicode_identifiers() {
    assert_eq!(tokens("café 日本"), vec![(ident(), 0, 4), (ident(), 5, 7), (eof(), 7, 7)]);
    let tables = IdentifierTables::new().unwrap();
    assert!(tables.is_identifier_start('é'));
    assert!(!tables.is_identifier_start('\u{0301}'));
    assert!(tables.is_identifier_part('\u{0301}'));
}

#[test]
fn each_error_kind_is_reported() {
    let cases = vec![
        ("'abc", ScanErrorKind::UnterminatedStringLiteral),
        ("`abc", ScanErrorKind::UnterminatedTemplateLiteral),
        ("/* abc", ScanErrorKind::AsteriskSlashExpected),
        ("\u{1}", ScanErrorKind::InvalidCharacter),
        ("1e", ScanErrorKind::DigitExpected),
        ("0x", ScanErrorKind::HexadecimalDigitExpected),
        ("0b", ScanErrorKind::BinaryDigitExpected),
        ("0o", ScanErrorKind::OctalDigitExpected),
        ("1_", ScanErrorKind::NumericSeparatorsAreNotAllowedHere),
        ("1__0", ScanErrorKind::MultipleConsecutiveNumericSeparatorsAreNotPermitted),
        ("1a", ScanErrorKind::IdentifierCannotFollowNumericLiteral),
        ("#1", ScanErrorKind::InvalidCharacter),
    ];
    for (src, kind) in cases {
        assert_eq!(errors_of(src), vec![kind], "{}", src);
    }
}

#[test]
fn error_reporting_can_be_turned_off() {
    let text = chars("'abc");
    let tables = IdentifierTables::new().unwrap();
    let mut s = Scanner::new(ScriptTarget::ESNext, true, LanguageVariant::Standard, &text, &tables);
    s.set_on_error(false);
    s.scan();
    assert!(s.get_errors().is_empty());
    assert!(s.is_unterminated());
}

#[test]
fn diagnostics_carry_key_and_code() {
    let d = ScanErrorKind::UnterminatedStringLiteral.diagnostic();
    assert_eq!(d.key(), "Unterminated_string_literal");
    assert_eq!(d.code(), 1002);
    assert_eq!(d.category(), DiagnosticCategory::Error);
}

#[test]
fn jsx_tokens() {
    let text = chars("<div>hello {x}</div>\n  <");
    let tables = IdentifierTables::new().unwrap();
    let mut s = Scanner::new(ScriptTarget::ESNext, true, LanguageVariant::JSX, &text, &tables);
    assert_eq!(s.scan_jsx_token(true), JsxTokenSyntaxKind::LessThanToken);
    s.scan();
    assert_eq!(s.scan_jsx_identifier(), ident());
    assert_eq!(s.scan(), punct(PunctuationSyntaxKind::GreaterThanToken));
    assert_eq!(s.scan_jsx_token(true), JsxTokenSyntaxKind::JsxText);
    assert_eq!(s.get_token_text(), "hello ");
    assert_eq!(s.scan_jsx_token(true), JsxTokenSyntaxKind::OpenBraceToken);
    s.scan();
    s.scan();
    assert_eq!(s.scan_jsx_token(true), JsxTokenSyntaxKind::LessThanSlashToken);
    s.scan();
    s.scan();
    assert_eq!(s.scan_jsx_token(true), JsxTokenSyntaxKind::JsxTextAllWhiteSpaces);
    assert_eq!(s.scan_jsx_token(true), JsxTokenSyntaxKind::LessThanToken);
    assert_eq!(s.scan_jsx_token(true), JsxTokenSyntaxKind::EndOfFileToken);
}

#[test]
fn jsx_identifier_with_dashes() {
    let text = chars("data-value=\"a\nb\"");
    let tables = IdentifierTables::new().unwrap();
    let mut s = Scanner::new(ScriptTarget::ESNext, true, LanguageVariant::JSX, &text, &tables);
    assert_eq!(s.scan(), ident());
    assert_eq!(s.scan_jsx_identifier(), ident());
    assert_eq!(s.get_token_text(), "data-value");
    assert_eq!(s.scan(), punct(PunctuationSyntaxKind::EqualsToken));
    assert_eq!(
        s.scan_jsx_attribute_value(),
        SyntaxKind::Literals(LiteralSyntaxKind::StringLiteral)
    );
    assert_eq!(s.get_text_pos(), text.len());
    assert!(!s.is_unterminated());
    assert_eq!(
        s.re_scan_jsx_attribute_value(),
        SyntaxKind::Literals(LiteralSyntaxKind::StringLiteral)
    );
    assert_eq!(s.get_token_pos(), 11);
}

#[test]
fn jsx_rescan_from_token_start() {
    let text = chars("a b<");
    let tables = IdentifierTables::new().unwrap();
    let mut s = Scanner::new(ScriptTarget::ESNext, true, LanguageVariant::JSX, &text, &tables);
    s.scan();
    assert_eq!(s.re_scan_jsx_token(None), JsxTokenSyntaxKind::JsxText);
    assert_eq!(s.get_text_pos(), 3);
}

#[test]
fn jsdoc_tokens() {
    let text = chars("@param {string} my-name\n*");
    let tables = IdentifierTables::new().unwrap();
    let mut s = Scanner::new(ScriptTarget::ESNext, true, LanguageVariant::Standard, &text, &tables);
    let mut kinds = Vec::new();
    loop {
        let k = s.scan_js_doc_token();
        kinds.push(k);
        if k == JSDocSyntaxKind::EndOfFileToken {
            break;
        }
    }
    assert_eq!(
        kinds,
        vec![
            JSDocSyntaxKind::AtToken,
            JSDocSyntaxKind::Identifier,
            JSDocSyntaxKind::WhitespaceTrivia,
            JSDocSyntaxKind::OpenBraceToken,
            JSDocSyntaxKind::Keywords(KeywordSyntaxKind::KeywordType(
                KeywordTypeSyntaxKind::StringKeyword
            )),
            JSDocSyntaxKind::CloseBraceToken,
            JSDocSyntaxKind::WhitespaceTrivia,
            JSDocSyntaxKind::Identifier,
            JSDocSyntaxKind::NewLineTrivia,
            JSDocSyntaxKind::AsteriskToken,
            JSDocSyntaxKind::EndOfFileToken,
        ]
    );
}

#[test]
fn invalid_identifier_rescan() {
    let text = chars("#x");
    let tables = IdentifierTables::new().unwrap();
    let mut s = Scanner::new(ScriptTarget::ESNext, true, LanguageVariant::Standard, &text, &tables);
    s.set_text_pos(0);
    assert_eq!(s.re_scan_invalid_identifier(), SyntaxKind::Tokens(TokenSyntaxKind::Unknown));
    assert_eq!(s.get_text_pos(), 1);
    s.set_text_pos(1);
    assert_eq!(s.re_scan_invalid_identifier(), ident());
    assert_eq!(s.get_text_pos(), 2);
}

#[test]
fn set_text_sub_range_and_configuration() {
    let text = chars("let a = 1;");
    let tables = IdentifierTables::new().unwrap();
    let mut s = Scanner::new(ScriptTarget::ES5, true, LanguageVariant::Standard, &text, &tables);
    s.set_text(&text, Some(4), Some(3));
    assert_eq!(s.scan(), ident());
    assert_eq!(s.scan(), punct(PunctuationSyntaxKind::EqualsToken));
    assert_eq!(s.scan(), eof());
    assert_eq!(s.get_text_pos(), 7);
    s.set_script_target(ScriptTarget::ESNext);
    s.set_language_variant(LanguageVariant::JSX);
    s.set_in_jsdoc_type(true);
    s.set_text_pos(0);
    assert_eq!(s.get_token(), SyntaxKind::Tokens(TokenSyntaxKind::Unknown));
    assert_eq!(ScriptTarget::ESNext.version(), 99);
}

#[test]
fn token_predicates() {
    assert!(tokenIsIdentifierOrKeyword(ident()));
    assert!(tokenIsIdentifierOrKeyword(SyntaxKind::Keywords(KeywordSyntaxKind::IfKeyword)));
    assert!(!tokenIsIdentifierOrKeyword(punct(PunctuationSyntaxKind::GreaterThanToken)));
    assert!(token_is_identifier_or_keyword_or_greater_than(punct(
        PunctuationSyntaxKind::GreaterThanToken
    )));
    assert!(!token_is_identifier_or_keyword_or_greater_than(punct(
        PunctuationSyntaxKind::LessThanToken
    )));
    assert!(token_is_identifier_or_keyword_or_greater_than(ident()));
}

#[test]
fn string_escape_sequences() {
    let text = chars("'\\u0041\\x42\\u{43}\\\nD' '\\uZZ' '\\uD800'");
    let tables = IdentifierTables::new().unwrap();
    let mut s = Scanner::new(ScriptTarget::ESNext, true, LanguageVariant::Standard, &text, &tables);
    assert_eq!(s.scan(), SyntaxKind::Literals(LiteralSyntaxKind::StringLiteral));
    assert_eq!(s.get_token_value(), "ABCD");
    assert!(s.has_unicode_escape());
    assert!(s.has_extended_unicode_escape());
    assert_eq!(s.get_token_flags() & TokenFlags::ContainsInvalidEscape.bit(), 0);
    assert!(s.get_errors().is_empty());
    assert_eq!(s.scan(), SyntaxKind::Literals(LiteralSyntaxKind::StringLiteral));
    assert_ne!(s.get_token_flags() & TokenFlags::ContainsInvalidEscape.bit(), 0);
    assert_eq!(s.get_token_value(), "\\uZZ");
    assert_eq!(s.get_errors()[0].kind, ScanErrorKind::HexadecimalDigitExpected);
    assert_eq!(s.scan(), SyntaxKind::Literals(LiteralSyntaxKind::StringLiteral));
    assert_eq!(s.get_token_value(), "\\uD800");
}

#[test]
fn invalid_escape_in_tagged_template_is_not_an_error() {
    assert_eq!(errors_of("`\\u`"), vec![ScanErrorKind::HexadecimalDigitExpected]);
    let text = chars("`\\u`");
    let tables = IdentifierTables::new().unwrap();
    let mut s = Scanner::new(ScriptTarget::ESNext, true, LanguageVariant::Standard, &text, &tables);
    s.set_on_error(false);
    s.scan();
    s.set_on_error(true);
    assert_eq!(
        s.re_scan_template_head_or_no_substitution_template(),
        SyntaxKind::Literals(LiteralSyntaxKind::NoSubstitutionTemplateLiteral)
    );
    assert!(s.get_errors().is_empty());
    assert_ne!(s.get_token_flags() & TokenFlags::ContainsInvalidEscape.bit(), 0);
}
