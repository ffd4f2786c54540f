use vstd::prelude::*;
use crate::chars::{
    is_digit, is_identifier_part, is_identifier_start, is_line_break_char, is_white_space_like,
    is_white_space_single_line, keyword_of, keyword_of_text, spec_is_digit, spec_is_identifier_part,
    spec_is_identifier_start, spec_is_line_break_char, spec_is_white_space_like,
    spec_is_white_space_single_line, usable_table,
};
use crate::comment_directives::{
    multi_line_comment_directive, multi_line_directive, single_line_comment_directive,
    single_line_directive,
};
use crate::diagnostics::{report_error, ScanError, ScanErrorKind};
use crate::flags::{
    compose_flags, flag_word, has_flag, literal_flags, literal_word, number_flags, number_word,
};
use crate::lexemes::{
    block_comment, block_end, has_line_break_in, identifier_part_of, identifier_parts_end,
    lemma_line_break_split, lemma_scan_while_class, line_end, not_line_break, scan_while,
    single_line_space, string_literal, string_scan, template_kind, template_piece, template_scan,
    white_space_end,
};
use crate::numbers::{number_scan, numeric_literal};
use crate::punctuation::{punct_spec, punctuation_at};
use crate::types::{
    CommentDirective, CommentDirectiveType, KeywordSyntaxKind, KeywordTypeSyntaxKind,
    LanguageVariant, LiteralSyntaxKind, ModifierSyntaxKind, PunctuationSyntaxKind, ScriptTarget,
    SyntaxKind, TextRange, TokenFlags, TokenSyntaxKind, TriviaSyntaxKind,
};
use crate::token_value::{cook_string, cooked_from};
use crate::unicode::{is_well_formed_table, well_formed_table};
use crate::unicode_tables::{
    identifier_part_ranges, identifier_part_table, identifier_start_ranges, identifier_start_table,
};


pub mod modes;
pub mod rescan;
pub mod speculation;

verus! {

/// What the scanner's state is, as its contracts speak of it.
pub struct ScannerState {
    /// The source, of which `[0, end)` is scanned.
    pub text: Seq<char>,
    /// The next unread offset.
    pub pos: usize,
    /// The exclusive scan boundary.
    pub end: usize,
    /// Where the last scan began, before any trivia it skipped.
    pub full_start: usize,
    /// Where the current token begins.
    pub token_start: usize,
    pub token: SyntaxKind,
    pub flags: u32,
    pub in_jsdoc_type: bool,
    pub language_variant: LanguageVariant,
    pub script_target: ScriptTarget,
    pub skip_trivia: bool,
    pub reports_errors: bool,
    pub identifier_start: Seq<u32>,
    pub identifier_part: Seq<u32>,
}

pub open spec fn eof_token() -> SyntaxKind {
    SyntaxKind::Tokens(TokenSyntaxKind::EndOfFileToken)
}

pub open spec fn identifier_token() -> SyntaxKind {
    SyntaxKind::Tokens(TokenSyntaxKind::Identifier)
}

/// The characters of the current token.
pub open spec fn token_chars(s: ScannerState) -> Seq<char> {
    s.text.subrange(s.token_start as int, s.pos as int)
}

/// What the scanner's configuration is: everything but the cursor and token.
pub open spec fn same_config(a: ScannerState, b: ScannerState) -> bool {
    &&& a.text == b.text
    &&& a.end == b.end
    &&& a.in_jsdoc_type == b.in_jsdoc_type
    &&& a.language_variant == b.language_variant
    &&& a.script_target == b.script_target
    &&& a.skip_trivia == b.skip_trivia
    &&& a.reports_errors == b.reports_errors
    &&& a.identifier_start == b.identifier_start
    &&& a.identifier_part == b.identifier_part
}

/// The directive entry that a comment at `[start, end)` adds: one, or none.
pub open spec fn directive_entry(d: Option<CommentDirectiveType>, start: usize, end: usize) -> Seq<
    CommentDirective,
> {
    match d {
        Some(kind) => seq![CommentDirective { range: TextRange { pos: start, end }, _type: kind }],
        None => seq![],
    }
}

/// A trivia item that starts at `i`: its kind, its end, whether it holds a
/// line break, whether it is a JSDoc comment (`/**` not followed by `/`), and
/// whether it is an unterminated multi-line comment. A line break is one
/// character (a carriage return and line feed, two); whitespace runs to the
/// next non-whitespace; `//` and `#!` run to the next line break; `/*` runs
/// past the next `*/`, or to the end.
pub open spec fn trivia_item(t: Seq<char>, i: int, end: int) -> (TriviaSyntaxKind, int, bool, bool, bool) {
    if spec_is_line_break_char(t[i]) {
        let e = if t[i] == '\r' && i + 1 < end && t[i + 1] == '\n' {
            i + 2
        } else {
            i + 1
        };
        (TriviaSyntaxKind::NewLineTrivia, e, true, false, false)
    } else if spec_is_white_space_single_line(t[i]) {
        (
            TriviaSyntaxKind::WhitespaceTrivia,
            scan_while(t, i, end, single_line_space()),
            false,
            false,
            false,
        )
    } else if t[i] == '/' && i + 1 < end && t[i + 1] == '/' {
        (
            TriviaSyntaxKind::SingleLineCommentTrivia,
            scan_while(t, i + 2, end, not_line_break()),
            false,
            false,
            false,
        )
    } else if t[i] == '/' && i + 1 < end && t[i + 1] == '*' {
        let (e, closed) = block_end(t, i + 2, end);
        (
            TriviaSyntaxKind::MultiLineCommentTrivia,
            e,
            has_line_break_in(t, i, e),
            i + 3 < end && t[i + 2] == '*' && t[i + 3] != '/',
            !closed,
        )
    } else {
        (TriviaSyntaxKind::ShebangTrivia, scan_while(t, i, end, not_line_break()), false, false, false)
    }
}

/// The comment directives that the trivia item at `i` adds.
pub open spec fn item_directives(t: Seq<char>, i: int, end: int) -> Seq<CommentDirective> {
    let it = trivia_item(t, i, end);
    if it.0 == TriviaSyntaxKind::SingleLineCommentTrivia {
        directive_entry(single_line_directive(t, i, it.1), i as usize, it.1 as usize)
    } else if it.0 == TriviaSyntaxKind::MultiLineCommentTrivia {
        directive_entry(multi_line_directive(t, i, it.1), i as usize, it.1 as usize)
    } else {
        seq![]
    }
}

/// Skipping trivia from `i`: where the next token starts, whether a line break
/// was skipped, whether a JSDoc comment was, and the directives collected.
pub open spec fn trivia_run(t: Seq<char>, i: int, end: int) -> (int, bool, bool, Seq<CommentDirective>)
    decreases end - i,
{
    if starts_trivia(t, i, end) {
        let it = trivia_item(t, i, end);
        if i < it.1 <= end {
            let r = trivia_run(t, it.1, end);
            (r.0, it.2 || r.1, it.3 || r.2, item_directives(t, i, end) + r.3)
        } else {
            (i, false, false, seq![])
        }
    } else {
        (i, false, false, seq![])
    }
}

/// A skipped trivia run reports a line break exactly when a line break stands
/// in the text it skipped, which is what sets a token's preceding-line-break flag.
pub proof fn lemma_trivia_run_line_break(t: Seq<char>, i: int, end: int)
    requires
        0 <= i <= end <= t.len(),
    ensures
        i <= trivia_run(t, i, end).0 <= end,
        trivia_run(t, i, end).1 == has_line_break_in(t, i, trivia_run(t, i, end).0),
    decreases end - i,
{
    let r = trivia_run(t, i, end);
    if starts_trivia(t, i, end) {
        let it = trivia_item(t, i, end);
        if spec_is_line_break_char(t[i]) {
        } else if spec_is_white_space_single_line(t[i]) {
            lemma_scan_while_class(t, i, end, single_line_space());
        } else if t[i] == '/' && i + 1 < end && t[i + 1] == '/' {
            lemma_scan_while_class(t, i + 2, end, not_line_break());
        } else if t[i] == '/' && i + 1 < end && t[i + 1] == '*' {
            lemma_block_end_bound(t, i + 2, end);
        } else {
            lemma_scan_while_class(t, i, end, not_line_break());
        }
        if i < it.1 <= end {
            lemma_trivia_run_line_break(t, it.1, end);
            lemma_line_break_split(t, i, it.1, r.0);
            if spec_is_line_break_char(t[i]) {
                assert(has_line_break_in(t, i, it.1)) by {
                    assert(i <= i < it.1 && spec_is_line_break_char(t[i]));
                }
            } else if !(t[i] == '/' && i + 1 < end && t[i + 1] == '*') {
                assert(!has_line_break_in(t, i, it.1)) by {
                    if has_line_break_in(t, i, it.1) {
                        let k = choose|k: int| i <= k < it.1 && #[trigger] spec_is_line_break_char(t[k]);
                        assert(k != i);
                        if t[i] == '/' {
                            assert(k != i + 1);
                        }
                    }
                }
            }
        }
    }
}

proof fn lemma_block_end_bound(t: Seq<char>, i: int, end: int)
    requires
        0 <= i,
        i <= end,
    ensures
        i <= block_end(t, i, end).0 <= end,
    decreases end - i,
{
    if i < end && !(t[i] == '*' && i + 1 < end && t[i + 1] == '/') {
        lemma_block_end_bound(t, i + 1, end);
    }
}

/// The token that starts at `i` (no trivia): its kind, its end, and its own flags.
pub open spec fn token_at(s: ScannerState, i: int) -> (SyntaxKind, int, u32) {
    let t = s.text;
    let end = s.end as int;
    let c = t[i];
    if spec_is_digit(c) || (c == '.' && i + 1 < end && spec_is_digit(t[i + 1])) {
        let n = number_scan(t, i, end);
        (n.1, n.0, number_word(n.2, n.3, exists|k: int| i <= k < n.0 && t[k] == '_'))
    } else if c == '"' || c == '\'' {
        let r = string_scan(t, i + 1, end, c, false);
        (SyntaxKind::Literals(LiteralSyntaxKind::StringLiteral), r.0, literal_word(r.1, r.2, r.3, r.4))
    } else if c == '`' {
        let m = template_scan(t, i + 1, end);
        (template_kind(true, m.2), m.0, literal_word(m.1, m.3, m.4, m.5))
    } else if c == '#' {
        if i + 1 < end && spec_is_identifier_start(t[i + 1], s.identifier_start) {
            (
                SyntaxKind::PrivateIdentifier,
                scan_while(t, i + 2, end, identifier_part_of(s.identifier_part)),
                0,
            )
        } else {
            (SyntaxKind::Tokens(TokenSyntaxKind::Unknown), i + 1, 0)
        }
    } else if spec_is_identifier_start(c, s.identifier_start) {
        let q = scan_while(t, i + 1, end, identifier_part_of(s.identifier_part));
        (
            match keyword_of_text(t.subrange(i, q)) {
                Some(k) => SyntaxKind::Keywords(k),
                None => identifier_token(),
            },
            q,
            0,
        )
    } else {
        match punct_spec(t, i, end, s.language_variant == LanguageVariant::JSX) {
            Some((k, q)) => (SyntaxKind::Punctuations(k), q, 0),
            None => (SyntaxKind::Tokens(TokenSyntaxKind::Unknown), i + 1, 0),
        }
    }
}

/// The state after one scan from `o`. When trivia is skipped, the token starts
/// where the trivia run ends, and its flags record the line breaks and JSDoc
/// comments skipped; otherwise a trivia item at `pos` is itself the token. At
/// `end` the token is the end of the file.
pub open spec fn scan_result(o: ScannerState) -> ScannerState {
    let t = o.text;
    let end = o.end as int;
    let i = o.pos as int;
    if o.skip_trivia {
        let r = trivia_run(t, i, end);
        if r.0 >= end {
            ScannerState {
                full_start: o.pos,
                token_start: r.0 as usize,
                pos: r.0 as usize,
                token: eof_token(),
                flags: flag_word(r.1, r.2, 0),
                ..o
            }
        } else {
            let k = token_at(o, r.0);
            ScannerState {
                full_start: o.pos,
                token_start: r.0 as usize,
                pos: k.1 as usize,
                token: k.0,
                flags: flag_word(r.1, r.2, k.2),
                ..o
            }
        }
    } else if i >= end {
        ScannerState {
            full_start: o.pos,
            token_start: o.pos,
            pos: o.pos,
            token: eof_token(),
            flags: flag_word(false, false, 0),
            ..o
        }
    } else if starts_trivia(t, i, end) {
        let it = trivia_item(t, i, end);
        ScannerState {
            full_start: o.pos,
            token_start: o.pos,
            pos: it.1 as usize,
            token: SyntaxKind::Trivias(it.0),
            flags: flag_word(
                it.2,
                it.3,
                if it.4 {
                    4u32
                } else {
                    0u32
                },
            ),
            ..o
        }
    } else {
        let k = token_at(o, i);
        ScannerState {
            full_start: o.pos,
            token_start: o.pos,
            pos: k.1 as usize,
            token: k.0,
            flags: flag_word(false, false, k.2),
            ..o
        }
    }
}

/// The comment directives that one scan from `o` collects.
pub open spec fn scan_directives(o: ScannerState) -> Seq<CommentDirective> {
    let t = o.text;
    let end = o.end as int;
    let i = o.pos as int;
    if o.skip_trivia {
        trivia_run(t, i, end).3
    } else if starts_trivia(t, i, end) {
        item_directives(t, i, end)
    } else {
        seq![]
    }
}

/// Trivia opens at `i`: whitespace, a line break, a comment, or a `#!` line at
/// the very start of the text.
pub open spec fn starts_trivia(t: Seq<char>, i: int, end: int) -> bool {
    &&& 0 <= i < end
    &&& (spec_is_white_space_like(t[i]) || starts_comment(t, i, end) || (i == 0 && t[i] == '#' && i
        + 1 < end && t[i + 1] == '!'))
}

/// A comment opens at `i`: `//` or `/*`.
pub open spec fn starts_comment(t: Seq<char>, i: int, end: int) -> bool {
    i + 1 < end && t[i] == '/' && (t[i + 1] == '/' || t[i + 1] == '*')
}

/// The identifier classification tables, read-only once built and shareable
/// by any number of scanners.
pub struct IdentifierTables {
    start: Vec<u32>,
    part: Vec<u32>,
}

impl IdentifierTables {
    #[verifier::type_invariant]
    spec fn tables_well_formed(&self) -> bool {
        well_formed_table(self.start@) && well_formed_table(self.part@)
    }

    /// The start table, as a range table.
    pub closed spec fn start_view(&self) -> Seq<u32> {
        self.start@
    }

    /// The part table, as a range table.
    pub closed spec fn part_view(&self) -> Seq<u32> {
        self.part@
    }

    /// The built-in tables of identifier characters, once each is checked to be
    /// a well-formed range table; none if either is not.
    pub fn new() -> (r: Option<IdentifierTables>)
        ensures
            r is Some == (well_formed_table(identifier_start_ranges()) && well_formed_table(
                identifier_part_ranges(),
            )),
            r matches Some(t) ==> t.start_view() == identifier_start_ranges() && t.part_view()
                == identifier_part_ranges(),
    {
        let start = identifier_start_table();
        let part = identifier_part_table();
        if is_well_formed_table(start.as_slice()) && is_well_formed_table(part.as_slice()) {
            Some(IdentifierTables { start, part })
        } else {
            None
        }
    }

    /// Whether `c` may begin an identifier.
    pub fn is_identifier_start(&self, c: char) -> (r: bool)
        ensures
            r == spec_is_identifier_start(c, self.start_view()),
    {
        proof {
            use_type_invariant(self);
        }
        is_identifier_start(c, self.start.as_slice())
    }

    /// Whether `c` may continue an identifier.
    pub fn is_identifier_part(&self, c: char) -> (r: bool)
        ensures
            r == spec_is_identifier_part(c, self.part_view()),
    {
        proof {
            use_type_invariant(self);
        }
        crate::chars::is_identifier_part(c, self.part.as_slice())
    }
}

/// The scanner: a cursor over borrowed source text that produces one token per
/// call of `scan`, and reclassifies the current token on request.
pub struct Scanner<'a> {
    text: &'a [char],
    pos: usize,
    end: usize,
    full_start_pos: usize,
    token_pos: usize,
    token: SyntaxKind,
    token_flags: u32,
    in_jsdoc_type: bool,
    language_variant: LanguageVariant,
    script_target: ScriptTarget,
    skip_trivia: bool,
    reports_errors: bool,
    errors: Vec<ScanError>,
    comment_directives: Vec<CommentDirective>,
    tables: &'a IdentifierTables,
}

impl<'a> View for Scanner<'a> {
    type V = ScannerState;

    closed spec fn view(&self) -> ScannerState {
        ScannerState {
            text: self.text@,
            pos: self.pos,
            end: self.end,
            full_start: self.full_start_pos,
            token_start: self.token_pos,
            token: self.token,
            flags: self.token_flags,
            in_jsdoc_type: self.in_jsdoc_type,
            language_variant: self.language_variant,
            script_target: self.script_target,
            skip_trivia: self.skip_trivia,
            reports_errors: self.reports_errors,
            identifier_start: self.tables.start_view(),
            identifier_part: self.tables.part_view(),
        }
    }
}

impl<'a> Scanner<'a> {
    /// The cursor invariant: `full_start <= token_start <= pos <= end <= len(text)`,
    /// and the identifier tables can be searched.
    pub open spec fn wf(&self) -> bool {
        &&& self@.full_start <= self@.token_start <= self@.pos <= self@.end <= self@.text.len()
        &&& usable_table(self@.identifier_start)
        &&& usable_table(self@.identifier_part)
    }

    /// The lexical errors reported so far, oldest first.
    pub closed spec fn errors(&self) -> Seq<ScanError> {
        self.errors@
    }

    /// The comment directives collected so far, in the order of their comments.
    pub closed spec fn directives(&self) -> Seq<CommentDirective> {
        self.comment_directives@
    }

    /// A scanner over all of `text`, positioned at its start.
    pub fn new(
        script_target: ScriptTarget,
        skip_trivia: bool,
        language_variant: LanguageVariant,
        text: &'a [char],
        tables: &'a IdentifierTables,
    ) -> (r: Scanner<'a>)
        ensures
            r@.identifier_start == tables.start_view(),
            r@.identifier_part == tables.part_view(),
            r.wf(),
            r@.text == text@,
            r@.pos == 0,
            r@.end == text@.len(),
            r@.full_start == 0,
            r@.token_start == 0,
            r@.token == SyntaxKind::Tokens(TokenSyntaxKind::Unknown),
            r@.flags == 0,
            !r@.in_jsdoc_type,
            r@.language_variant == language_variant,
            r@.script_target == script_target,
            r@.skip_trivia == skip_trivia,
            r@.reports_errors,
            r.errors().len() == 0,
            r.directives().len() == 0,
    {
        proof {
            use_type_invariant(tables);
        }
        Scanner {
            text,
            pos: 0,
            end: text.len(),
            full_start_pos: 0,
            token_pos: 0,
            token: SyntaxKind::Tokens(TokenSyntaxKind::Unknown),
            token_flags: 0,
            in_jsdoc_type: false,
            language_variant,
            script_target,
            skip_trivia,
            reports_errors: true,
            errors: Vec::new(),
            comment_directives: Vec::new(),
            tables,
        }
    }

    /// Scans the next token from `pos`, as `scan_result` says: trivia first
    /// (skipped, or produced as tokens of their own when trivia is not
    /// skipped), then one token.
    #[verifier::rlimit(100)]
    pub fn scan(&mut self) -> (r: SyntaxKind)
        requires
            old(self).wf(),
        ensures
            final(self).wf(),
            r == final(self)@.token,
            final(self)@ == scan_result(old(self)@),
            final(self).directives() == old(self).directives() + scan_directives(old(self)@),
    {
        let text = self.text;
        let end = self.end;
        let full_start = self.pos;
        let ghost o = self@;
        let ghost d0 = self.directives();
        self.full_start_pos = full_start;
        self.token_pos = full_start;
        if !self.skip_trivia {
            if full_start >= end {
                self.token_pos = full_start;
                self.token = SyntaxKind::Tokens(TokenSyntaxKind::EndOfFileToken);
                self.token_flags = compose_flags(false, false, 0);
                assert(self.directives() =~= d0 + scan_directives(o));
                return self.token;
            }
            if starts_trivia_exec(text, full_start, end) {
                let it = self.trivia_item_exec(full_start);
                let own: u32 = if it.unterminated {
                    4
                } else {
                    0
                };
                self.token_pos = full_start;
                self.pos = it.end;
                self.token = SyntaxKind::Trivias(it.kind);
                self.token_flags = compose_flags(it.line_break, it.jsdoc, own);
                return self.token;
            }
            let (kind, q, own) = self.token_at_exec(full_start);
            self.token_pos = full_start;
            self.pos = q;
            self.token = kind;
            self.token_flags = compose_flags(false, false, own);
            assert(self.directives() =~= d0 + scan_directives(o));
            return self.token;
        }
        let mut p = full_start;
        let mut line_break = false;
        let mut jsdoc = false;
        loop
            invariant
                self.wf(),
                text@ == o.text,
                end == o.end,
                full_start <= p <= end,
                self@ == (ScannerState { full_start: full_start, token_start: full_start, ..o }),
                o.skip_trivia,
                ({
                    let r = trivia_run(text@, p as int, end as int);
                    let r0 = trivia_run(text@, full_start as int, end as int);
                    &&& r0.0 == r.0
                    &&& r0.1 == (line_break || r.1)
                    &&& r0.2 == (jsdoc || r.2)
                    &&& d0 + r0.3 == self.directives() + r.3
                }),
            ensures
                !starts_trivia(text@, p as int, end as int),
            decreases end - p,
        {
            if !starts_trivia_exec(text, p, end) {
                break ;
            }
            let ghost before = self.directives();
            let it = self.trivia_item_exec(p);
            proof {
                let item = item_directives(text@, p as int, end as int);
                let rest = trivia_run(text@, it.end as int, end as int).3;
                assert(before + (item + rest) =~= self.directives() + rest);
            }
            line_break = line_break || it.line_break;
            jsdoc = jsdoc || it.jsdoc;
            p = it.end;
        }
        assert(trivia_run(text@, p as int, end as int).3 =~= seq![]);
        assert(d0 + scan_directives(o) =~= self.directives());
        self.token_pos = p;
        self.pos = p;
        if p >= end {
            self.token = SyntaxKind::Tokens(TokenSyntaxKind::EndOfFileToken);
            self.token_flags = compose_flags(line_break, jsdoc, 0);
            return self.token;
        }
        let (kind, q, own) = self.token_at_exec(p);
        self.token_pos = p;
        self.pos = q;
        self.token = kind;
        self.token_flags = compose_flags(line_break, jsdoc, own);
        self.token
    }
}

/// One trivia item: its kind, its end, and the facts its flags record.
pub struct TriviaItem {
    pub kind: TriviaSyntaxKind,
    pub end: usize,
    pub line_break: bool,
    pub jsdoc: bool,
    pub unterminated: bool,
}

fn starts_trivia_exec(text: &[char], i: usize, end: usize) -> (r: bool)
    requires
        end <= text@.len(),
    ensures
        r == starts_trivia(text@, i as int, end as int),
{
    i < end && (is_white_space_like(text[i]) || (text[i] == '/' && i + 1 < end && (text[i + 1]
        == '/' || text[i + 1] == '*')) || (i == 0 && text[i] == '#' && i + 1 < end && text[i + 1]
        == '!'))
}

impl<'a> Scanner<'a> {
    /// Reads the trivia item at `i` and collects its comment directive.
    fn trivia_item_exec(&mut self, i: usize) -> (r: TriviaItem)
        requires
            old(self).wf(),
            starts_trivia(old(self)@.text, i as int, old(self)@.end as int),
        ensures
            final(self)@ == old(self)@,
            final(self).wf(),
            ({
                let it = trivia_item(old(self)@.text, i as int, old(self)@.end as int);
                (r.kind, r.end as int, r.line_break, r.jsdoc, r.unterminated) == it
            }),
            i < r.end <= old(self)@.end,
            final(self).directives() == old(self).directives() + item_directives(
                old(self)@.text,
                i as int,
                old(self)@.end as int,
            ),
    {
        let text = self.text;
        let end = self.end;
        let c = text[i];
        let ghost d0 = self.directives();
        if is_line_break_char(c) {
            let q = if c == '\r' && i + 1 < end && text[i + 1] == '\n' {
                i + 2
            } else {
                i + 1
            };
            assert(self.directives() =~= d0 + item_directives(text@, i as int, end as int));
            return TriviaItem {
                kind: TriviaSyntaxKind::NewLineTrivia,
                end: q,
                line_break: true,
                jsdoc: false,
                unterminated: false,
            };
        }
        if is_white_space_single_line(c) {
            let q = white_space_end(text, i, end);
            assert(self.directives() =~= d0 + item_directives(text@, i as int, end as int));
            return TriviaItem {
                kind: TriviaSyntaxKind::WhitespaceTrivia,
                end: q,
                line_break: false,
                jsdoc: false,
                unterminated: false,
            };
        }
        if c == '/' && i + 1 < end && text[i + 1] == '/' {
            let q = line_end(text, i + 2, end);
            let d = single_line_comment_directive(text, i, q);
            if let Some(kind) = d {
                self.comment_directives.push(
                    CommentDirective { range: TextRange { pos: i, end: q }, _type: kind },
                );
            }
            assert(self.directives() =~= d0 + item_directives(text@, i as int, end as int));
            return TriviaItem {
                kind: TriviaSyntaxKind::SingleLineCommentTrivia,
                end: q,
                line_break: false,
                jsdoc: false,
                unterminated: false,
            };
        }
        if c == '/' && i + 1 < end && text[i + 1] == '*' {
            let comment = block_comment(text, i, end);
            let q = comment.end;
            if !comment.terminated {
                report_error(
                    &mut self.errors,
                    self.reports_errors,
                    ScanErrorKind::AsteriskSlashExpected,
                    q,
                    0,
                );
            }
            let jsdoc = end - i > 3 && text[i + 2] == '*' && text[i + 3] != '/';
            let d = multi_line_comment_directive(text, i, q);
            if let Some(kind) = d {
                self.comment_directives.push(
                    CommentDirective { range: TextRange { pos: i, end: q }, _type: kind },
                );
            }
            assert(self.directives() =~= d0 + item_directives(text@, i as int, end as int));
            return TriviaItem {
                kind: TriviaSyntaxKind::MultiLineCommentTrivia,
                end: q,
                line_break: comment.has_line_break,
                jsdoc,
                unterminated: !comment.terminated,
            };
        }
        let q = line_end(text, i, end);
        assert(self.directives() =~= d0 + item_directives(text@, i as int, end as int));
        TriviaItem {
            kind: TriviaSyntaxKind::ShebangTrivia,
            end: q,
            line_break: false,
            jsdoc: false,
            unterminated: false,
        }
    }

    /// Reads the token that starts at `p`, where no trivia starts.
    fn token_at_exec(&mut self, p: usize) -> (r: (SyntaxKind, usize, u32))
        requires
            old(self).wf(),
            p < old(self)@.end,
            !starts_trivia(old(self)@.text, p as int, old(self)@.end as int),
        ensures
            final(self)@ == old(self)@,
            final(self).wf(),
            final(self).directives() == old(self).directives(),
            (r.0, r.1 as int, r.2) == token_at(old(self)@, p as int),
            p < r.1 <= old(self)@.end,
            r.2 == 0 || r.2 == 4 || r.2 & 3 == 0,
    {
        let text = self.text;
        let end = self.end;
        let report = self.reports_errors;
        let c = text[p];
        let mut own: u32 = 0;
        let kind: SyntaxKind;
        let q: usize;
        if is_digit(c) || (c == '.' && p + 1 < end && is_digit(text[p + 1])) {
            let n = numeric_literal(
                text,
                p,
                end,
                self.tables.start.as_slice(),
                &mut self.errors,
                report,
            );
            own = number_flags(&n);
            kind = n.kind;
            q = n.end;
        } else if c == '"' || c == '\'' {
            let s = string_literal(text, p, end, false, &mut self.errors, report);
            own =
                literal_flags(
                    s.terminated,
                    s.unicode_escape,
                    s.extended_unicode_escape,
                    s.invalid_escape,
                );
            kind = SyntaxKind::Literals(LiteralSyntaxKind::StringLiteral);
            q = s.end;
        } else if c == '`' {
            let s = template_piece(text, p, end, false, &mut self.errors, report);
            own =
                literal_flags(
                    s.terminated,
                    s.escapes.unicode,
                    s.escapes.extended,
                    s.escapes.invalid,
                );
            kind = s.kind;
            q = s.end;
        } else if c == '#' {
            if p + 1 < end && is_identifier_start(text[p + 1], self.tables.start.as_slice()) {
                q = identifier_parts_end(text, p + 2, end, self.tables.part.as_slice());
                kind = SyntaxKind::PrivateIdentifier;
            } else {
                report_error(&mut self.errors, report, ScanErrorKind::InvalidCharacter, p, 1);
                q = p + 1;
                kind = SyntaxKind::Tokens(TokenSyntaxKind::Unknown);
            }
        } else if is_identifier_start(c, self.tables.start.as_slice()) {
            q = identifier_parts_end(text, p + 1, end, self.tables.part.as_slice());
            kind = match keyword_of(text, p, q) {
                Some(k) => SyntaxKind::Keywords(k),
                None => SyntaxKind::Tokens(TokenSyntaxKind::Identifier),
            };
        } else {
            match punctuation_at(text, p, end, self.language_variant == LanguageVariant::JSX) {
                Some((k, e)) => {
                    kind = SyntaxKind::Punctuations(k);
                    q = e;
                },
                None => {
                    report_error(&mut self.errors, report, ScanErrorKind::InvalidCharacter, p, 1);
                    q = p + 1;
                    kind = SyntaxKind::Tokens(TokenSyntaxKind::Unknown);
                },
            }
        }
        assert(0u32 & 3 == 0) by (bit_vector);
        (kind, q, own)
    }
}

/// Builds a `String` from characters.
/// Relies on `String::from_iter` over `char`s: the string holds the characters in order.
#[verifier::external_body]
fn string_from_chars(chars: &[char]) -> (r: String)
    ensures
        r@ == chars@,
{
    String::from_iter(chars)
}

/// The keywords that are reserved words: they never name an identifier.
pub open spec fn is_reserved_keyword(k: KeywordSyntaxKind) -> bool {
    match k {
        KeywordSyntaxKind::BreakKeyword | KeywordSyntaxKind::CaseKeyword
        | KeywordSyntaxKind::CatchKeyword | KeywordSyntaxKind::ClassKeyword
        | KeywordSyntaxKind::ContinueKeyword | KeywordSyntaxKind::DebuggerKeyword
        | KeywordSyntaxKind::DeleteKeyword | KeywordSyntaxKind::DoKeyword
        | KeywordSyntaxKind::ElseKeyword | KeywordSyntaxKind::EnumKeyword
        | KeywordSyntaxKind::ExtendsKeyword | KeywordSyntaxKind::FalseKeyword
        | KeywordSyntaxKind::FinallyKeyword | KeywordSyntaxKind::ForKeyword
        | KeywordSyntaxKind::FunctionKeyword | KeywordSyntaxKind::IfKeyword
        | KeywordSyntaxKind::ImportKeyword | KeywordSyntaxKind::InKeyword
        | KeywordSyntaxKind::InstanceOfKeyword | KeywordSyntaxKind::NewKeyword
        | KeywordSyntaxKind::NullKeyword | KeywordSyntaxKind::ReturnKeyword
        | KeywordSyntaxKind::SuperKeyword | KeywordSyntaxKind::SwitchKeyword
        | KeywordSyntaxKind::ThisKeyword | KeywordSyntaxKind::ThrowKeyword
        | KeywordSyntaxKind::TrueKeyword | KeywordSyntaxKind::TryKeyword
        | KeywordSyntaxKind::TypeOfKeyword | KeywordSyntaxKind::VarKeyword
        | KeywordSyntaxKind::WhileKeyword | KeywordSyntaxKind::WithKeyword => true,
        KeywordSyntaxKind::Modifiers(m) => m == ModifierSyntaxKind::ConstKeyword || m
            == ModifierSyntaxKind::DefaultKeyword || m == ModifierSyntaxKind::ExportKeyword,
        KeywordSyntaxKind::KeywordType(t) => t == KeywordTypeSyntaxKind::VoidKeyword,
        _ => false,
    }
}

fn reserved_keyword(k: KeywordSyntaxKind) -> (r: bool)
    ensures
        r == is_reserved_keyword(k),
{
    match k {
        KeywordSyntaxKind::BreakKeyword | KeywordSyntaxKind::CaseKeyword
        | KeywordSyntaxKind::CatchKeyword | KeywordSyntaxKind::ClassKeyword
        | KeywordSyntaxKind::ContinueKeyword | KeywordSyntaxKind::DebuggerKeyword
        | KeywordSyntaxKind::DeleteKeyword | KeywordSyntaxKind::DoKeyword
        | KeywordSyntaxKind::ElseKeyword | KeywordSyntaxKind::EnumKeyword
        | KeywordSyntaxKind::ExtendsKeyword | KeywordSyntaxKind::FalseKeyword
        | KeywordSyntaxKind::FinallyKeyword | KeywordSyntaxKind::ForKeyword
        | KeywordSyntaxKind::FunctionKeyword | KeywordSyntaxKind::IfKeyword
        | KeywordSyntaxKind::ImportKeyword | KeywordSyntaxKind::InKeyword
        | KeywordSyntaxKind::InstanceOfKeyword | KeywordSyntaxKind::NewKeyword
        | KeywordSyntaxKind::NullKeyword | KeywordSyntaxKind::ReturnKeyword
        | KeywordSyntaxKind::SuperKeyword | KeywordSyntaxKind::SwitchKeyword
        | KeywordSyntaxKind::ThisKeyword | KeywordSyntaxKind::ThrowKeyword
        | KeywordSyntaxKind::TrueKeyword | KeywordSyntaxKind::TryKeyword
        | KeywordSyntaxKind::TypeOfKeyword | KeywordSyntaxKind::VarKeyword
        | KeywordSyntaxKind::WhileKeyword | KeywordSyntaxKind::WithKeyword => true,
        KeywordSyntaxKind::Modifiers(m) => m == ModifierSyntaxKind::ConstKeyword || m
            == ModifierSyntaxKind::DefaultKeyword || m == ModifierSyntaxKind::ExportKeyword,
        KeywordSyntaxKind::KeywordType(t) => t == KeywordTypeSyntaxKind::VoidKeyword,
        _ => false,
    }
}


pub open spec fn punct(k: PunctuationSyntaxKind) -> SyntaxKind {
    SyntaxKind::Punctuations(k)
}
impl<'a> Scanner<'a> {
    /// Where the last scan began, before the trivia it skipped.
    pub fn get_start_pos(&self) -> (r: usize)
        ensures
            r == self@.full_start,
    {
        self.full_start_pos
    }

    pub fn get_token(&self) -> (r: SyntaxKind)
        ensures
            r == self@.token,
    {
        self.token
    }

    /// The next unread offset: the end of the current token.
    pub fn get_text_pos(&self) -> (r: usize)
        ensures
            r == self@.pos,
    {
        self.pos
    }

    /// Where the current token begins.
    pub fn get_token_pos(&self) -> (r: usize)
        ensures
            r == self@.token_start,
    {
        self.token_pos
    }

    /// The source characters of the current token.
    pub fn get_token_text(&self) -> (r: String)
        requires
            self.wf(),
        ensures
            r@ == token_chars(self@),
    {
        string_from_chars(&self.text[self.token_pos..self.pos])
    }

    /// The value of the current token: the cooked body of a string literal
    /// (its quotes removed, its escapes resolved), else the token's characters.
    pub fn get_token_value(&self) -> (r: String)
        requires
            self.wf(),
        ensures
            self@.token == SyntaxKind::Literals(LiteralSyntaxKind::StringLiteral) && self@.pos
                >= self@.token_start + 2 && self@.text[self@.pos - 1] == self@.text[self@.token_start as int]
                ==> r@ == cooked_from(self@.text, self@.token_start + 1, self@.pos - 1),
            !(self@.token == SyntaxKind::Literals(LiteralSyntaxKind::StringLiteral)) ==> r@
                == token_chars(self@),
    {
        if self.token == SyntaxKind::Literals(LiteralSyntaxKind::StringLiteral) && self.pos
            - self.token_pos >= 1 {
            let body_end = if self.pos - self.token_pos >= 2 && self.text[self.pos - 1]
                == self.text[self.token_pos] {
                self.pos - 1
            } else {
                self.pos
            };
            let v = cook_string(self.text, self.token_pos + 1, body_end);
            string_from_chars(v.as_slice())
        } else {
            string_from_chars(&self.text[self.token_pos..self.pos])
        }
    }

    pub fn has_unicode_escape(&self) -> (r: bool)
        ensures
            r == has_flag(self@.flags, TokenFlags::UnicodeEscape),
    {
        self.token_flags & 1024 != 0
    }

    pub fn has_extended_unicode_escape(&self) -> (r: bool)
        ensures
            r == has_flag(self@.flags, TokenFlags::ExtendedUnicodeEscape),
    {
        self.token_flags & 8 != 0
    }

    /// Whether a line break stands between the previous token and this one.
    pub fn has_preceding_line_break(&self) -> (r: bool)
        ensures
            r == has_flag(self@.flags, TokenFlags::PrecedingLineBreak),
    {
        self.token_flags & 1 != 0
    }

    pub fn has_preceding_jsdoc_comment(&self) -> (r: bool)
        ensures
            r == has_flag(self@.flags, TokenFlags::PrecedingJSDocComment),
    {
        self.token_flags & 2 != 0
    }

    /// Whether the current token names an identifier: an identifier, or a
    /// keyword that is not a reserved word.
    pub fn is_identifier(&self) -> (r: bool)
        ensures
            r == (self@.token == identifier_token() || (self@.token matches SyntaxKind::Keywords(
                k,
            ) && !is_reserved_keyword(k))),
    {
        match self.token {
            SyntaxKind::Tokens(TokenSyntaxKind::Identifier) => true,
            SyntaxKind::Keywords(k) => !reserved_keyword(k),
            _ => false,
        }
    }

    /// Whether the current token is a reserved word.
    pub fn is_reserved_word(&self) -> (r: bool)
        ensures
            r == (self@.token matches SyntaxKind::Keywords(k) && is_reserved_keyword(k)),
    {
        match self.token {
            SyntaxKind::Keywords(k) => reserved_keyword(k),
            _ => false,
        }
    }

    pub fn is_unterminated(&self) -> (r: bool)
        ensures
            r == has_flag(self@.flags, TokenFlags::Unterminated),
    {
        self.token_flags & 4 != 0
    }

    /// The flags of the current token that describe a numeric literal.
    pub fn get_numeric_literal_flags(&self) -> (r: u32)
        ensures
            r == self@.flags & TokenFlags::NumericLiteralFlags.spec_bit(),
    {
        self.token_flags & 1008
    }

    /// The comment directives collected since they were last cleared.
    pub fn get_comment_directives(&self) -> (r: &[CommentDirective])
        ensures
            r@ == self.directives(),
    {
        self.comment_directives.as_slice()
    }

    /// The lexical errors reported since they were last cleared.
    pub fn get_errors(&self) -> (r: &[ScanError])
        ensures
            r@ == self.errors(),
    {
        self.errors.as_slice()
    }

    pub fn clear_errors(&mut self)
        ensures
            final(self)@ == old(self)@,
            final(self).errors().len() == 0,
            final(self).directives() == old(self).directives(),
    {
        self.errors.clear();
    }

    pub fn get_token_flags(&self) -> (r: u32)
        ensures
            r == self@.flags,
    {
        self.token_flags
    }

    pub fn get_text(&self) -> (r: &'a [char])
        ensures
            r@ == self@.text,
    {
        self.text
    }

    pub fn clear_comment_directives(&mut self)
        ensures
            final(self)@ == old(self)@,
            final(self).directives().len() == 0,
            final(self).errors() == old(self).errors(),
    {
        self.comment_directives.clear();
    }

    /// Binds the scanner to `text`, or to its sub-range from `start` (default 0)
    /// of `length` characters (default: to the end), and resets the cursor there.
    pub fn set_text(&mut self, text: &'a [char], start: Option<usize>, length: Option<usize>)
        requires
            old(self).wf(),
            start matches Some(s) ==> s <= text@.len(),
            length matches Some(l) ==> (match start {
                Some(s) => s + l <= text@.len(),
                None => l <= text@.len(),
            }),
        ensures
            final(self).wf(),
            ({
                let s: usize = match start {
                    Some(s) => s,
                    None => 0,
                };
                let e: usize = match length {
                    Some(l) => (s + l) as usize,
                    None => text@.len() as usize,
                };
                final(self)@ == ScannerState {
                    text: text@,
                    pos: s,
                    end: e,
                    full_start: s,
                    token_start: s,
                    token: SyntaxKind::Tokens(TokenSyntaxKind::Unknown),
                    flags: 0,
                    ..old(self)@
                }
            }),
            final(self).directives() == old(self).directives(),
            final(self).errors() == old(self).errors(),
    {
        let n = text.len();
        let s: usize = match start {
            Some(s) => s,
            None => 0,
        };
        let e: usize = match length {
            Some(l) => s + l,
            None => text.len(),
        };
        self.text = text;
        self.end = e;
        self.pos = s;
        self.full_start_pos = s;
        self.token_pos = s;
        self.token = SyntaxKind::Tokens(TokenSyntaxKind::Unknown);
        self.token_flags = 0;
    }

    /// Turns the reporting of lexical errors on or off.
    pub fn set_on_error(&mut self, report: bool)
        ensures
            final(self)@ == (ScannerState { reports_errors: report, ..old(self)@ }),
            final(self).directives() == old(self).directives(),
            final(self).errors() == old(self).errors(),
    {
        self.reports_errors = report;
    }

    pub fn set_script_target(&mut self, script_target: ScriptTarget)
        ensures
            final(self)@ == (ScannerState { script_target, ..old(self)@ }),
            final(self).directives() == old(self).directives(),
            final(self).errors() == old(self).errors(),
    {
        self.script_target = script_target;
    }

    pub fn set_language_variant(&mut self, variant: LanguageVariant)
        ensures
            final(self)@ == (ScannerState { language_variant: variant, ..old(self)@ }),
            final(self).directives() == old(self).directives(),
            final(self).errors() == old(self).errors(),
    {
        self.language_variant = variant;
    }

    /// Moves the cursor to `text_pos`, with no current token.
    pub fn set_text_pos(&mut self, text_pos: usize)
        requires
            old(self).wf(),
            text_pos <= old(self)@.end,
        ensures
            final(self).wf(),
            final(self)@ == (ScannerState {
                pos: text_pos,
                full_start: text_pos,
                token_start: text_pos,
                token: SyntaxKind::Tokens(TokenSyntaxKind::Unknown),
                flags: 0,
                ..old(self)@
            }),
            final(self).directives() == old(self).directives(),
            final(self).errors() == old(self).errors(),
    {
        self.pos = text_pos;
        self.full_start_pos = text_pos;
        self.token_pos = text_pos;
        self.token = SyntaxKind::Tokens(TokenSyntaxKind::Unknown);
        self.token_flags = 0;
    }

    pub fn set_in_jsdoc_type(&mut self, in_type: bool)
        ensures
            final(self)@ == (ScannerState { in_jsdoc_type: in_type, ..old(self)@ }),
            final(self).directives() == old(self).directives(),
            final(self).errors() == old(self).errors(),
    {
        self.in_jsdoc_type = in_type;
    }

}

} // verus!
