use vstd::prelude::*;
use crate::types::{LanguageVariant, ScriptTarget, SyntaxKind, TokenSyntaxKind};

use super::{IdentifierTables, Scanner, ScannerState};

verus! {

/// The part of the state that a snapshot keeps: all of it but the error and
/// directive lists.
#[derive(Clone, Copy)]
struct Snapshot<'a> {
    text: &'a [char],
    pos: usize,
    end: usize,
    full_start_pos: usize,
    token_pos: usize,
    token: SyntaxKind,
    token_flags: u32,
    in_jsdoc_type: bool,
    language_variant: LanguageVariant,
    script_target: ScriptTarget,
    skip_trivia: bool,
    reports_errors: bool,
    tables: &'a IdentifierTables,
}

/// The state that `scan_range` gives its callback: the same scanner bound to
/// `[start, start + length)`, positioned at `start`, with no current token.
pub open spec fn ranged_state(s: ScannerState, start: usize, length: usize) -> ScannerState {
    ScannerState {
        pos: start,
        end: (start + length) as usize,
        full_start: start,
        token_start: start,
        token: SyntaxKind::Tokens(TokenSyntaxKind::Unknown),
        flags: 0,
        ..s
    }
}

/// A speculative scan that did not commit left the state as it found it.
pub open spec fn kept_unless_committed(before: ScannerState, after: ScannerState, committed: bool) -> bool {
    !committed ==> after == before
}

/// Two speculative scans in a row that both fail, whatever their probes, leave
/// the cursor and the current token as they were before the first.
pub proof fn lemma_failed_try_scans_keep_token(
    before: ScannerState,
    between: ScannerState,
    after: ScannerState,
)
    requires
        kept_unless_committed(before, between, false),
        kept_unless_committed(between, after, false),
    ensures
        after.pos == before.pos,
        after.token_start == before.token_start,
        after.token == before.token,
        after == before,
{
}
impl<'a> Scanner<'a> {
    fn snapshot(&self) -> (r: Snapshot<'a>)
        ensures
            r.text@ == self@.text,
            r.pos == self@.pos,
            r.end == self@.end,
            r.full_start_pos == self@.full_start,
            r.token_pos == self@.token_start,
            r.token == self@.token,
            r.token_flags == self@.flags,
            r.in_jsdoc_type == self@.in_jsdoc_type,
            r.language_variant == self@.language_variant,
            r.script_target == self@.script_target,
            r.skip_trivia == self@.skip_trivia,
            r.reports_errors == self@.reports_errors,
            r.tables.start_view() == self@.identifier_start,
            r.tables.part_view() == self@.identifier_part,
    {
        Snapshot {
            text: self.text,
            pos: self.pos,
            end: self.end,
            full_start_pos: self.full_start_pos,
            token_pos: self.token_pos,
            token: self.token,
            token_flags: self.token_flags,
            in_jsdoc_type: self.in_jsdoc_type,
            language_variant: self.language_variant,
            script_target: self.script_target,
            skip_trivia: self.skip_trivia,
            reports_errors: self.reports_errors,
            tables: self.tables,
        }
    }

    fn restore(&mut self, s: Snapshot<'a>)
        ensures
            final(self)@ == (ScannerState {
                text: s.text@,
                pos: s.pos,
                end: s.end,
                full_start: s.full_start_pos,
                token_start: s.token_pos,
                token: s.token,
                flags: s.token_flags,
                in_jsdoc_type: s.in_jsdoc_type,
                language_variant: s.language_variant,
                script_target: s.script_target,
                skip_trivia: s.skip_trivia,
                reports_errors: s.reports_errors,
                identifier_start: s.tables.start_view(),
                identifier_part: s.tables.part_view(),
            }),
    {
        self.text = s.text;
        self.pos = s.pos;
        self.end = s.end;
        self.full_start_pos = s.full_start_pos;
        self.token_pos = s.token_pos;
        self.token = s.token;
        self.token_flags = s.token_flags;
        self.in_jsdoc_type = s.in_jsdoc_type;
        self.language_variant = s.language_variant;
        self.script_target = s.script_target;
        self.skip_trivia = s.skip_trivia;
        self.reports_errors = s.reports_errors;
        self.tables = s.tables;
    }

    /// Calls `callback` on this scanner, then restores the scanner's state to
    /// what it was before the call, whatever the callback did; returns what the
    /// callback returned.
    pub fn look_ahead<T, F: FnOnce(&mut Scanner<'a>) -> T>(&mut self, callback: F) -> (r: T)
        requires
            old(self).wf(),
            forall|s: &mut Scanner<'a>| s.wf() ==> callback.requires((s,)),
        ensures
            final(self)@ == old(self)@,
            final(self).wf(),
            exists|s: &mut Scanner<'a>| *s == *old(self) && callback.ensures((s,), r),
    {
        let saved = self.snapshot();
        let r = callback(self);
        self.restore(saved);
        r
    }

    /// Calls `callback` on this scanner and keeps what it did if it returns
    /// true; otherwise restores the state to what it was before the call.
    /// Returns what the callback returned.
    pub fn try_scan<F: FnOnce(&mut Scanner<'a>) -> bool>(&mut self, callback: F) -> (r: bool)
        requires
            old(self).wf(),
            forall|s: &mut Scanner<'a>| s.wf() ==> callback.requires((s,)),
            forall|s: &mut Scanner<'a>, b: bool| callback.ensures((s,), b) ==> final(s).wf(),
        ensures
            final(self).wf(),
            kept_unless_committed(old(self)@, final(self)@, r),
            exists|s: &mut Scanner<'a>|
                *s == *old(self) && callback.ensures((s,), r) && (r ==> final(s)@ == final(self)@),
    {
        let saved = self.snapshot();
        let r = callback(self);
        if !r {
            self.restore(saved);
        }
        r
    }

    /// Calls `callback` with the scanner bound to `[start, start + length)` of
    /// the same text and positioned at `start`, then restores the text, bounds,
    /// cursor and token to what they were; returns what the callback returned.
    pub fn scan_range<T, F: FnOnce(&mut Scanner<'a>) -> T>(
        &mut self,
        start: usize,
        length: usize,
        callback: F,
    ) -> (r: T)
        requires
            old(self).wf(),
            start + length <= old(self)@.text.len(),
            forall|s: &mut Scanner<'a>| s.wf() ==> callback.requires((s,)),
        ensures
            final(self)@ == old(self)@,
            final(self).wf(),
            exists|s: &mut Scanner<'a>|
                s@ == ranged_state(old(self)@, start, length) && s.directives() == old(
                    self,
                ).directives() && s.errors() == old(self).errors() && callback.ensures((s,), r),
    {
        let saved = self.snapshot();
        let n = self.text.len();
        self.end = start + length;
        self.pos = start;
        self.full_start_pos = start;
        self.token_pos = start;
        self.token = SyntaxKind::Tokens(TokenSyntaxKind::Unknown);
        self.token_flags = 0;
        assert(self.wf());
        let r = callback(self);
        self.restore(saved);
        r
    }
}

} // verus!
