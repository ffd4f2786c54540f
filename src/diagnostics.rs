use vstd::prelude::*;
use crate::types::{DiagnosticCategory, IDiagnosticMessage};

verus! {

/// The lexical errors that scanning reports. None of them stops scanning.
#[derive(Clone, Copy, Debug, PartialEq, Eq, Structural, Hash)]
pub enum ScanErrorKind {
    UnterminatedStringLiteral,
    UnterminatedTemplateLiteral,
    UnterminatedRegularExpressionLiteral,
    AsteriskSlashExpected,
    InvalidCharacter,
    DigitExpected,
    HexadecimalDigitExpected,
    BinaryDigitExpected,
    OctalDigitExpected,
    NumericSeparatorsAreNotAllowedHere,
    MultipleConsecutiveNumericSeparatorsAreNotPermitted,
    IdentifierCannotFollowNumericLiteral,
    UnexpectedToken,
}

impl ScanErrorKind {
    /// The diagnostic code of the error.
    pub open spec fn spec_code(self) -> u16 {
        match self {
            ScanErrorKind::UnterminatedStringLiteral => 1002,
            ScanErrorKind::UnterminatedTemplateLiteral => 1160,
            ScanErrorKind::UnterminatedRegularExpressionLiteral => 1161,
            ScanErrorKind::AsteriskSlashExpected => 1010,
            ScanErrorKind::InvalidCharacter => 1127,
            ScanErrorKind::DigitExpected => 1124,
            ScanErrorKind::HexadecimalDigitExpected => 1125,
            ScanErrorKind::BinaryDigitExpected => 1177,
            ScanErrorKind::OctalDigitExpected => 1178,
            ScanErrorKind::NumericSeparatorsAreNotAllowedHere => 6188,
            ScanErrorKind::MultipleConsecutiveNumericSeparatorsAreNotPermitted => 6189,
            ScanErrorKind::IdentifierCannotFollowNumericLiteral => 1351,
            ScanErrorKind::UnexpectedToken => 1012,
        }
    }

    /// The diagnostic handed to callers for this error.
    pub fn diagnostic(self) -> (r: IDiagnosticMessage<'static>)
        ensures
            r.category == DiagnosticCategory::Error,
            r.code == self.spec_code(),
    {
        match self {
            ScanErrorKind::UnterminatedStringLiteral => IDiagnosticMessage::new(
                "Unterminated_string_literal",
                DiagnosticCategory::Error,
                1002,
                "Unterminated string literal.",
            ),
            ScanErrorKind::UnterminatedTemplateLiteral => IDiagnosticMessage::new(
                "Unterminated_template_literal",
                DiagnosticCategory::Error,
                1160,
                "Unterminated template literal.",
            ),
            ScanErrorKind::UnterminatedRegularExpressionLiteral => IDiagnosticMessage::new(
                "Unterminated_regular_expression_literal",
                DiagnosticCategory::Error,
                1161,
                "Unterminated regular expression literal.",
            ),
            ScanErrorKind::AsteriskSlashExpected => IDiagnosticMessage::new(
                "Asterisk_Slash_expected",
                DiagnosticCategory::Error,
                1010,
                "'*/' expected.",
            ),
            ScanErrorKind::InvalidCharacter => IDiagnosticMessage::new(
                "Invalid_character",
                DiagnosticCategory::Error,
                1127,
                "Invalid character.",
            ),
            ScanErrorKind::DigitExpected => IDiagnosticMessage::new(
                "Digit_expected",
                DiagnosticCategory::Error,
                1124,
                "Digit expected.",
            ),
            ScanErrorKind::HexadecimalDigitExpected => IDiagnosticMessage::new(
                "Hexadecimal_digit_expected",
                DiagnosticCategory::Error,
                1125,
                "Hexadecimal digit expected.",
            ),
            ScanErrorKind::BinaryDigitExpected => IDiagnosticMessage::new(
                "Binary_digit_expected",
                DiagnosticCategory::Error,
                1177,
                "Binary digit expected.",
            ),
            ScanErrorKind::OctalDigitExpected => IDiagnosticMessage::new(
                "Octal_digit_expected",
                DiagnosticCategory::Error,
                1178,
                "Octal digit expected.",
            ),
            ScanErrorKind::NumericSeparatorsAreNotAllowedHere => IDiagnosticMessage::new(
                "Numeric_separators_are_not_allowed_here",
                DiagnosticCategory::Error,
                6188,
                "Numeric separators are not allowed here.",
            ),
            ScanErrorKind::MultipleConsecutiveNumericSeparatorsAreNotPermitted => {
                IDiagnosticMessage::new(
                    "Multiple_consecutive_numeric_separators_are_not_permitted",
                    DiagnosticCategory::Error,
                    6189,
                    "Multiple consecutive numeric separators are not permitted.",
                )
            },
            ScanErrorKind::IdentifierCannotFollowNumericLiteral => IDiagnosticMessage::new(
                "An_identifier_or_keyword_cannot_immediately_follow_a_numeric_literal",
                DiagnosticCategory::Error,
                1351,
                "An identifier or keyword cannot immediately follow a numeric literal.",
            ),
            ScanErrorKind::UnexpectedToken => IDiagnosticMessage::new(
                "Unexpected_token",
                DiagnosticCategory::Error,
                1012,
                "Unexpected token.",
            ),
        }
    }
}

/// A lexical error at `[pos, pos + length)`.
#[derive(Clone, Copy, Debug, PartialEq, Eq, Structural, Hash)]
pub struct ScanError {
    pub kind: ScanErrorKind,
    pub pos: usize,
    pub length: usize,
}

/// Appends an error when errors are being reported.
pub fn report_error(
    errors: &mut Vec<ScanError>,
    report: bool,
    kind: ScanErrorKind,
    pos: usize,
    length: usize,
)
    ensures
        report ==> final(errors)@ == old(errors)@.push(ScanError { kind, pos, length }),
        !report ==> final(errors)@ == old(errors)@,
{
    if report {
        errors.push(ScanError { kind, pos, length });
    }
}

} // verus!
