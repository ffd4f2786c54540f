use vstd::prelude::*;
use crate::line_index::{is_line_break, spec_is_line_break};
use crate::types::{KeywordSyntaxKind, KeywordTypeSyntaxKind, ModifierSyntaxKind};
use crate::unicode::{lookup_in_unicode_map, table_contains, well_formed_table};

verus! {

/// A range table that classification may use: empty, or well formed.
pub open spec fn usable_table(t: Seq<u32>) -> bool {
    t.len() == 0 || well_formed_table(t)
}

pub open spec fn spec_is_white_space_single_line(c: char) -> bool {
    let ch = c as u32;
    ch == 0x20 || ch == 0x09 || ch == 0x0B || ch == 0x0C || ch == 0xA0 || ch == 0x85 || ch
        == 0x1680 || (0x2000 <= ch <= 0x200B) || ch == 0x202F || ch == 0x205F || ch == 0x3000
        || ch == 0xFEFF
}

/// Whitespace that does not end a line.
#[verifier::when_used_as_spec(spec_is_white_space_single_line)]
pub fn is_white_space_single_line(c: char) -> (r: bool)
    ensures
        r == spec_is_white_space_single_line(c),
{
    let ch = c as u32;
    ch == 0x20 || ch == 0x09 || ch == 0x0B || ch == 0x0C || ch == 0xA0 || ch == 0x85 || ch
        == 0x1680 || (0x2000 <= ch && ch <= 0x200B) || ch == 0x202F || ch == 0x205F || ch
        == 0x3000 || ch == 0xFEFF
}

pub open spec fn spec_is_line_break_char(c: char) -> bool {
    spec_is_line_break(c as u32)
}

#[verifier::when_used_as_spec(spec_is_line_break_char)]
pub fn is_line_break_char(c: char) -> (r: bool)
    ensures
        r == spec_is_line_break_char(c),
{
    is_line_break(c as u32)
}

pub open spec fn spec_is_white_space_like(c: char) -> bool {
    spec_is_white_space_single_line(c) || spec_is_line_break_char(c)
}

/// Whitespace of any kind, line terminators included.
#[verifier::when_used_as_spec(spec_is_white_space_like)]
pub fn is_white_space_like(c: char) -> (r: bool)
    ensures
        r == spec_is_white_space_like(c),
{
    is_white_space_single_line(c) || is_line_break_char(c)
}

pub open spec fn spec_is_digit(c: char) -> bool {
    0x30 <= c as u32 <= 0x39
}

#[verifier::when_used_as_spec(spec_is_digit)]
pub fn is_digit(c: char) -> (r: bool)
    ensures
        r == spec_is_digit(c),
{
    0x30 <= c as u32 && c as u32 <= 0x39
}

pub open spec fn spec_is_octal_digit(c: char) -> bool {
    0x30 <= c as u32 <= 0x37
}

#[verifier::when_used_as_spec(spec_is_octal_digit)]
pub fn is_octal_digit(c: char) -> (r: bool)
    ensures
        r == spec_is_octal_digit(c),
{
    0x30 <= c as u32 && c as u32 <= 0x37
}

pub open spec fn spec_is_hex_digit(c: char) -> bool {
    let ch = c as u32;
    (0x30 <= ch <= 0x39) || (0x41 <= ch <= 0x46) || (0x61 <= ch <= 0x66)
}

#[verifier::when_used_as_spec(spec_is_hex_digit)]
pub fn is_hex_digit(c: char) -> (r: bool)
    ensures
        r == spec_is_hex_digit(c),
{
    let ch = c as u32;
    (0x30 <= ch && ch <= 0x39) || (0x41 <= ch && ch <= 0x46) || (0x61 <= ch && ch <= 0x66)
}

pub open spec fn is_ascii_letter(c: char) -> bool {
    let ch = c as u32;
    (0x41 <= ch <= 0x5A) || (0x61 <= ch <= 0x7A)
}

/// A character that may begin an identifier: an ASCII letter, `$`, `_`, or a
/// non-ASCII character of the identifier-start table.
pub open spec fn spec_is_identifier_start(c: char, start_table: Seq<u32>) -> bool {
    ||| is_ascii_letter(c)
    ||| c == '$'
    ||| c == '_'
    ||| (c as u32 > 0x7F && start_table.len() > 0 && table_contains(start_table, c as u32))
}

/// A character that may continue an identifier: an ASCII letter or digit, `$`,
/// `_`, or a non-ASCII character of the identifier-part table.
pub open spec fn spec_is_identifier_part(c: char, part_table: Seq<u32>) -> bool {
    ||| is_ascii_letter(c)
    ||| spec_is_digit(c)
    ||| c == '$'
    ||| c == '_'
    ||| (c as u32 > 0x7F && part_table.len() > 0 && table_contains(part_table, c as u32))
}

pub fn is_identifier_start(c: char, start_table: &[u32]) -> (r: bool)
    requires
        usable_table(start_table@),
    ensures
        r == spec_is_identifier_start(c, start_table@),
{
    let ch = c as u32;
    if (0x41 <= ch && ch <= 0x5A) || (0x61 <= ch && ch <= 0x7A) || c == '$' || c == '_' {
        true
    } else if ch > 0x7F && start_table.len() > 0 {
        lookup_in_unicode_map(ch, start_table)
    } else {
        false
    }
}

pub fn is_identifier_part(c: char, part_table: &[u32]) -> (r: bool)
    requires
        usable_table(part_table@),
    ensures
        r == spec_is_identifier_part(c, part_table@),
{
    let ch = c as u32;
    if (0x41 <= ch && ch <= 0x5A) || (0x61 <= ch && ch <= 0x7A) || (0x30 <= ch && ch <= 0x39)
        || c == '$' || c == '_' {
        true
    } else if ch > 0x7F && part_table.len() > 0 {
        lookup_in_unicode_map(ch, part_table)
    } else {
        false
    }
}

/// Whether the characters `text[start..end]` spell `word`.
pub fn text_equals(text: &[char], start: usize, end: usize, word: &str) -> (r: bool)
    requires
        start <= end <= text@.len(),
    ensures
        r == (text@.subrange(start as int, end as int) == word@),
{
    let n = word.unicode_len();
    if end - start != n {
        return false;
    }
    let mut i: usize = 0;
    while i < n
        invariant
            start <= end <= text@.len(),
            end - start == n == word@.len(),
            i <= n,
            forall|k: int| 0 <= k < i ==> text@[start + k] == word@[k],
        decreases n - i,
    {
        if text[start + i] != word.get_char(i) {
            assert(text@.subrange(start as int, end as int)[i as int] != word@[i as int]);
            return false;
        }
        i = i + 1;
    }
    assert(text@.subrange(start as int, end as int) =~= word@);
    true
}

/// The keyword that `s` spells, if any.
pub open spec fn keyword_of_text(s: Seq<char>) -> Option<KeywordSyntaxKind> {
    if s == "abstract"@ {
        Some(KeywordSyntaxKind::Modifiers(ModifierSyntaxKind::AbstractKeyword))
    } else if s == "any"@ {
        Some(KeywordSyntaxKind::KeywordType(KeywordTypeSyntaxKind::AnyKeyword))
    } else if s == "as"@ {
        Some(KeywordSyntaxKind::AsKeyword)
    } else if s == "asserts"@ {
        Some(KeywordSyntaxKind::AssertsKeyword)
    } else if s == "async"@ {
        Some(KeywordSyntaxKind::Modifiers(ModifierSyntaxKind::AsyncKeyword))
    } else if s == "await"@ {
        Some(KeywordSyntaxKind::AwaitKeyword)
    } else if s == "bigint"@ {
        Some(KeywordSyntaxKind::KeywordType(KeywordTypeSyntaxKind::BigIntKeyword))
    } else if s == "boolean"@ {
        Some(KeywordSyntaxKind::KeywordType(KeywordTypeSyntaxKind::BooleanKeyword))
    } else if s == "break"@ {
        Some(KeywordSyntaxKind::BreakKeyword)
    } else if s == "case"@ {
        Some(KeywordSyntaxKind::CaseKeyword)
    } else if s == "catch"@ {
        Some(KeywordSyntaxKind::CatchKeyword)
    } else if s == "class"@ {
        Some(KeywordSyntaxKind::ClassKeyword)
    } else if s == "const"@ {
        Some(KeywordSyntaxKind::Modifiers(ModifierSyntaxKind::ConstKeyword))
    } else if s == "constructor"@ {
        Some(KeywordSyntaxKind::ConstructorKeyword)
    } else if s == "continue"@ {
        Some(KeywordSyntaxKind::ContinueKeyword)
    } else if s == "debugger"@ {
        Some(KeywordSyntaxKind::DebuggerKeyword)
    } else if s == "declare"@ {
        Some(KeywordSyntaxKind::Modifiers(ModifierSyntaxKind::DeclareKeyword))
    } else if s == "default"@ {
        Some(KeywordSyntaxKind::Modifiers(ModifierSyntaxKind::DefaultKeyword))
    } else if s == "delete"@ {
        Some(KeywordSyntaxKind::DeleteKeyword)
    } else if s == "do"@ {
        Some(KeywordSyntaxKind::DoKeyword)
    } else if s == "else"@ {
        Some(KeywordSyntaxKind::ElseKeyword)
    } else if s == "enum"@ {
        Some(KeywordSyntaxKind::EnumKeyword)
    } else if s == "export"@ {
        Some(KeywordSyntaxKind::Modifiers(ModifierSyntaxKind::ExportKeyword))
    } else if s == "extends"@ {
        Some(KeywordSyntaxKind::ExtendsKeyword)
    } else if s == "false"@ {
        Some(KeywordSyntaxKind::FalseKeyword)
    } else if s == "finally"@ {
        Some(KeywordSyntaxKind::FinallyKeyword)
    } else if s == "for"@ {
        Some(KeywordSyntaxKind::ForKeyword)
    } else if s == "from"@ {
        Some(KeywordSyntaxKind::FromKeyword)
    } else if s == "function"@ {
        Some(KeywordSyntaxKind::FunctionKeyword)
    } else if s == "get"@ {
        Some(KeywordSyntaxKind::GetKeyword)
    } else if s == "global"@ {
        Some(KeywordSyntaxKind::GlobalKeyword)
    } else if s == "if"@ {
        Some(KeywordSyntaxKind::IfKeyword)
    } else if s == "implements"@ {
        Some(KeywordSyntaxKind::ImplementsKeyword)
    } else if s == "import"@ {
        Some(KeywordSyntaxKind::ImportKeyword)
    } else if s == "in"@ {
        Some(KeywordSyntaxKind::InKeyword)
    } else if s == "infer"@ {
        Some(KeywordSyntaxKind::InferKeyword)
    } else if s == "instanceof"@ {
        Some(KeywordSyntaxKind::InstanceOfKeyword)
    } else if s == "interface"@ {
        Some(KeywordSyntaxKind::InterfaceKeyword)
    } else if s == "intrinsic"@ {
        Some(KeywordSyntaxKind::KeywordType(KeywordTypeSyntaxKind::IntrinsicKeyword))
    } else if s == "is"@ {
        Some(KeywordSyntaxKind::IsKeyword)
    } else if s == "keyof"@ {
        Some(KeywordSyntaxKind::KeyOfKeyword)
    } else if s == "let"@ {
        Some(KeywordSyntaxKind::LetKeyword)
    } else if s == "module"@ {
        Some(KeywordSyntaxKind::ModuleKeyword)
    } else if s == "namespace"@ {
        Some(KeywordSyntaxKind::NamespaceKeyword)
    } else if s == "never"@ {
        Some(KeywordSyntaxKind::KeywordType(KeywordTypeSyntaxKind::NeverKeyword))
    } else if s == "new"@ {
        Some(KeywordSyntaxKind::NewKeyword)
    } else if s == "null"@ {
        Some(KeywordSyntaxKind::NullKeyword)
    } else if s == "number"@ {
        Some(KeywordSyntaxKind::KeywordType(KeywordTypeSyntaxKind::NumberKeyword))
    } else if s == "object"@ {
        Some(KeywordSyntaxKind::KeywordType(KeywordTypeSyntaxKind::ObjectKeyword))
    } else if s == "of"@ {
        Some(KeywordSyntaxKind::OfKeyword)
    } else if s == "override"@ {
        Some(KeywordSyntaxKind::Modifiers(ModifierSyntaxKind::OverrideKeyword))
    } else if s == "package"@ {
        Some(KeywordSyntaxKind::PackageKeyword)
    } else if s == "private"@ {
        Some(KeywordSyntaxKind::Modifiers(ModifierSyntaxKind::PrivateKeyword))
    } else if s == "protected"@ {
        Some(KeywordSyntaxKind::Modifiers(ModifierSyntaxKind::ProtectedKeyword))
    } else if s == "public"@ {
        Some(KeywordSyntaxKind::Modifiers(ModifierSyntaxKind::PublicKeyword))
    } else if s == "readonly"@ {
        Some(KeywordSyntaxKind::Modifiers(ModifierSyntaxKind::ReadonlyKeyword))
    } else if s == "require"@ {
        Some(KeywordSyntaxKind::RequireKeyword)
    } else if s == "return"@ {
        Some(KeywordSyntaxKind::ReturnKeyword)
    } else if s == "set"@ {
        Some(KeywordSyntaxKind::SetKeyword)
    } else if s == "static"@ {
        Some(KeywordSyntaxKind::Modifiers(ModifierSyntaxKind::StaticKeyword))
    } else if s == "string"@ {
        Some(KeywordSyntaxKind::KeywordType(KeywordTypeSyntaxKind::StringKeyword))
    } else if s == "super"@ {
        Some(KeywordSyntaxKind::SuperKeyword)
    } else if s == "switch"@ {
        Some(KeywordSyntaxKind::SwitchKeyword)
    } else if s == "symbol"@ {
        Some(KeywordSyntaxKind::KeywordType(KeywordTypeSyntaxKind::SymbolKeyword))
    } else if s == "this"@ {
        Some(KeywordSyntaxKind::ThisKeyword)
    } else if s == "throw"@ {
        Some(KeywordSyntaxKind::ThrowKeyword)
    } else if s == "true"@ {
        Some(KeywordSyntaxKind::TrueKeyword)
    } else if s == "try"@ {
        Some(KeywordSyntaxKind::TryKeyword)
    } else if s == "type"@ {
        Some(KeywordSyntaxKind::TypeKeyword)
    } else if s == "typeof"@ {
        Some(KeywordSyntaxKind::TypeOfKeyword)
    } else if s == "undefined"@ {
        Some(KeywordSyntaxKind::KeywordType(KeywordTypeSyntaxKind::UndefinedKeyword))
    } else if s == "unique"@ {
        Some(KeywordSyntaxKind::UniqueKeyword)
    } else if s == "unknown"@ {
        Some(KeywordSyntaxKind::KeywordType(KeywordTypeSyntaxKind::UnknownKeyword))
    } else if s == "var"@ {
        Some(KeywordSyntaxKind::VarKeyword)
    } else if s == "void"@ {
        Some(KeywordSyntaxKind::KeywordType(KeywordTypeSyntaxKind::VoidKeyword))
    } else if s == "while"@ {
        Some(KeywordSyntaxKind::WhileKeyword)
    } else if s == "with"@ {
        Some(KeywordSyntaxKind::WithKeyword)
    } else if s == "yield"@ {
        Some(KeywordSyntaxKind::YieldKeyword)
    } else {
        None
    }
}

/// The keyword spelled by `text[start..end]`, if any.
#[verifier::rlimit(50)]
pub fn keyword_of(text: &[char], start: usize, end: usize) -> (r: Option<KeywordSyntaxKind>)
    requires
        start <= end <= text@.len(),
    ensures
        r == keyword_of_text(text@.subrange(start as int, end as int)),
{
    if text_equals(text, start, end, "abstract") {
        return Some(KeywordSyntaxKind::Modifiers(ModifierSyntaxKind::AbstractKeyword));
    }
    if text_equals(text, start, end, "any") {
        return Some(KeywordSyntaxKind::KeywordType(KeywordTypeSyntaxKind::AnyKeyword));
    }
    if text_equals(text, start, end, "as") {
        return Some(KeywordSyntaxKind::AsKeyword);
    }
    if text_equals(text, start, end, "asserts") {
        return Some(KeywordSyntaxKind::AssertsKeyword);
    }
    if text_equals(text, start, end, "async") {
        return Some(KeywordSyntaxKind::Modifiers(ModifierSyntaxKind::AsyncKeyword));
    }
    if text_equals(text, start, end, "await") {
        return Some(KeywordSyntaxKind::AwaitKeyword);
    }
    if text_equals(text, start, end, "bigint") {
        return Some(KeywordSyntaxKind::KeywordType(KeywordTypeSyntaxKind::BigIntKeyword));
    }
    if text_equals(text, start, end, "boolean") {
        return Some(KeywordSyntaxKind::KeywordType(KeywordTypeSyntaxKind::BooleanKeyword));
    }
    if text_equals(text, start, end, "break") {
        return Some(KeywordSyntaxKind::BreakKeyword);
    }
    if text_equals(text, start, end, "case") {
        return Some(KeywordSyntaxKind::CaseKeyword);
    }
    if text_equals(text, start, end, "catch") {
        return Some(KeywordSyntaxKind::CatchKeyword);
    }
    if text_equals(text, start, end, "class") {
        return Some(KeywordSyntaxKind::ClassKeyword);
    }
    if text_equals(text, start, end, "const") {
        return Some(KeywordSyntaxKind::Modifiers(ModifierSyntaxKind::ConstKeyword));
    }
    if text_equals(text, start, end, "constructor") {
        return Some(KeywordSyntaxKind::ConstructorKeyword);
    }
    if text_equals(text, start, end, "continue") {
        return Some(KeywordSyntaxKind::ContinueKeyword);
    }
    if text_equals(text, start, end, "debugger") {
        return Some(KeywordSyntaxKind::DebuggerKeyword);
    }
    if text_equals(text, start, end, "declare") {
        return Some(KeywordSyntaxKind::Modifiers(ModifierSyntaxKind::DeclareKeyword));
    }
    if text_equals(text, start, end, "default") {
        return Some(KeywordSyntaxKind::Modifiers(ModifierSyntaxKind::DefaultKeyword));
    }
    if text_equals(text, start, end, "delete") {
        return Some(KeywordSyntaxKind::DeleteKeyword);
    }
    if text_equals(text, start, end, "do") {
        return Some(KeywordSyntaxKind::DoKeyword);
    }
    if text_equals(text, start, end, "else") {
        return Some(KeywordSyntaxKind::ElseKeyword);
    }
    if text_equals(text, start, end, "enum") {
        return Some(KeywordSyntaxKind::EnumKeyword);
    }
    if text_equals(text, start, end, "export") {
        return Some(KeywordSyntaxKind::Modifiers(ModifierSyntaxKind::ExportKeyword));
    }
    if text_equals(text, start, end, "extends") {
        return Some(KeywordSyntaxKind::ExtendsKeyword);
    }
    if text_equals(text, start, end, "false") {
        return Some(KeywordSyntaxKind::FalseKeyword);
    }
    if text_equals(text, start, end, "finally") {
        return Some(KeywordSyntaxKind::FinallyKeyword);
    }
    if text_equals(text, start, end, "for") {
        return Some(KeywordSyntaxKind::ForKeyword);
    }
    if text_equals(text, start, end, "from") {
        return Some(KeywordSyntaxKind::FromKeyword);
    }
    if text_equals(text, start, end, "function") {
        return Some(KeywordSyntaxKind::FunctionKeyword);
    }
    if text_equals(text, start, end, "get") {
        return Some(KeywordSyntaxKind::GetKeyword);
    }
    if text_equals(text, start, end, "global") {
        return Some(KeywordSyntaxKind::GlobalKeyword);
    }
    if text_equals(text, start, end, "if") {
        return Some(KeywordSyntaxKind::IfKeyword);
    }
    if text_equals(text, start, end, "implements") {
        return Some(KeywordSyntaxKind::ImplementsKeyword);
    }
    if text_equals(text, start, end, "import") {
        return Some(KeywordSyntaxKind::ImportKeyword);
    }
    if text_equals(text, start, end, "in") {
        return Some(KeywordSyntaxKind::InKeyword);
    }
    if text_equals(text, start, end, "infer") {
        return Some(KeywordSyntaxKind::InferKeyword);
    }
    if text_equals(text, start, end, "instanceof") {
        return Some(KeywordSyntaxKind::InstanceOfKeyword);
    }
    if text_equals(text, start, end, "interface") {
        return Some(KeywordSyntaxKind::InterfaceKeyword);
    }
    if text_equals(text, start, end, "intrinsic") {
        return Some(KeywordSyntaxKind::KeywordType(KeywordTypeSyntaxKind::IntrinsicKeyword));
    }
    if text_equals(text, start, end, "is") {
        return Some(KeywordSyntaxKind::IsKeyword);
    }
    if text_equals(text, start, end, "keyof") {
        return Some(KeywordSyntaxKind::KeyOfKeyword);
    }
    if text_equals(text, start, end, "let") {
        return Some(KeywordSyntaxKind::LetKeyword);
    }
    if text_equals(text, start, end, "module") {
        return Some(KeywordSyntaxKind::ModuleKeyword);
    }
    if text_equals(text, start, end, "namespace") {
        return Some(KeywordSyntaxKind::NamespaceKeyword);
    }
    if text_equals(text, start, end, "never") {
        return Some(KeywordSyntaxKind::KeywordType(KeywordTypeSyntaxKind::NeverKeyword));
    }
    if text_equals(text, start, end, "new") {
        return Some(KeywordSyntaxKind::NewKeyword);
    }
    if text_equals(text, start, end, "null") {
        return Some(KeywordSyntaxKind::NullKeyword);
    }
    if text_equals(text, start, end, "number") {
        return Some(KeywordSyntaxKind::KeywordType(KeywordTypeSyntaxKind::NumberKeyword));
    }
    if text_equals(text, start, end, "object") {
        return Some(KeywordSyntaxKind::KeywordType(KeywordTypeSyntaxKind::ObjectKeyword));
    }
    if text_equals(text, start, end, "of") {
        return Some(KeywordSyntaxKind::OfKeyword);
    }
    if text_equals(text, start, end, "override") {
        return Some(KeywordSyntaxKind::Modifiers(ModifierSyntaxKind::OverrideKeyword));
    }
    if text_equals(text, start, end, "package") {
        return Some(KeywordSyntaxKind::PackageKeyword);
    }
    if text_equals(text, start, end, "private") {
        return Some(KeywordSyntaxKind::Modifiers(ModifierSyntaxKind::PrivateKeyword));
    }
    if text_equals(text, start, end, "protected") {
        return Some(KeywordSyntaxKind::Modifiers(ModifierSyntaxKind::ProtectedKeyword));
    }
    if text_equals(text, start, end, "public") {
        return Some(KeywordSyntaxKind::Modifiers(ModifierSyntaxKind::PublicKeyword));
    }
    if text_equals(text, start, end, "readonly") {
        return Some(KeywordSyntaxKind::Modifiers(ModifierSyntaxKind::ReadonlyKeyword));
    }
    if text_equals(text, start, end, "require") {
        return Some(KeywordSyntaxKind::RequireKeyword);
    }
    if text_equals(text, start, end, "return") {
        return Some(KeywordSyntaxKind::ReturnKeyword);
    }
    if text_equals(text, start, end, "set") {
        return Some(KeywordSyntaxKind::SetKeyword);
    }
    if text_equals(text, start, end, "static") {
        return Some(KeywordSyntaxKind::Modifiers(ModifierSyntaxKind::StaticKeyword));
    }
    if text_equals(text, start, end, "string") {
        return Some(KeywordSyntaxKind::KeywordType(KeywordTypeSyntaxKind::StringKeyword));
    }
    if text_equals(text, start, end, "super") {
        return Some(KeywordSyntaxKind::SuperKeyword);
    }
    if text_equals(text, start, end, "switch") {
        return Some(KeywordSyntaxKind::SwitchKeyword);
    }
    if text_equals(text, start, end, "symbol") {
        return Some(KeywordSyntaxKind::KeywordType(KeywordTypeSyntaxKind::SymbolKeyword));
    }
    if text_equals(text, start, end, "this") {
        return Some(KeywordSyntaxKind::ThisKeyword);
    }
    if text_equals(text, start, end, "throw") {
        return Some(KeywordSyntaxKind::ThrowKeyword);
    }
    if text_equals(text, start, end, "true") {
        return Some(KeywordSyntaxKind::TrueKeyword);
    }
    if text_equals(text, start, end, "try") {
        return Some(KeywordSyntaxKind::TryKeyword);
    }
    if text_equals(text, start, end, "type") {
        return Some(KeywordSyntaxKind::TypeKeyword);
    }
    if text_equals(text, start, end, "typeof") {
        return Some(KeywordSyntaxKind::TypeOfKeyword);
    }
    if text_equals(text, start, end, "undefined") {
        return Some(KeywordSyntaxKind::KeywordType(KeywordTypeSyntaxKind::UndefinedKeyword));
    }
    if text_equals(text, start, end, "unique") {
        return Some(KeywordSyntaxKind::UniqueKeyword);
    }
    if text_equals(text, start, end, "unknown") {
        return Some(KeywordSyntaxKind::KeywordType(KeywordTypeSyntaxKind::UnknownKeyword));
    }
    if text_equals(text, start, end, "var") {
        return Some(KeywordSyntaxKind::VarKeyword);
    }
    if text_equals(text, start, end, "void") {
        return Some(KeywordSyntaxKind::KeywordType(KeywordTypeSyntaxKind::VoidKeyword));
    }
    if text_equals(text, start, end, "while") {
        return Some(KeywordSyntaxKind::WhileKeyword);
    }
    if text_equals(text, start, end, "with") {
        return Some(KeywordSyntaxKind::WithKeyword);
    }
    if text_equals(text, start, end, "yield") {
        return Some(KeywordSyntaxKind::YieldKeyword);
    }
    None
}

} // verus!
