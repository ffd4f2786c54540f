use vstd::prelude::*;

verus! {

#[derive(Clone, Copy, Debug, PartialEq, Eq, Structural, Hash)]
pub enum TriviaSyntaxKind {
    SingleLineCommentTrivia,
    MultiLineCommentTrivia,
    NewLineTrivia,
    WhitespaceTrivia,
    // We detect and preserve #! on the first line
    ShebangTrivia,
    // We detect and provide better error recovery when we encounter a git merge marker.  This
    // allows us to edit files with git-conflict markers in them in a much more pleasant manner.
    ConflictMarkerTrivia,
}

#[derive(Clone, Copy, Debug, PartialEq, Eq, Structural, Hash)]
pub enum LiteralSyntaxKind {
    NumericLiteral,
    BigIntLiteral,
    StringLiteral,
    JsxText,
    JsxTextAllWhiteSpaces,
    RegularExpressionLiteral,
    NoSubstitutionTemplateLiteral,
}

#[derive(Clone, Copy, Debug, PartialEq, Eq, Structural, Hash)]
pub enum PseudoLiteralSyntaxKind {
    TemplateHead,
    TemplateMiddle,
    TemplateTail,
}

#[derive(Clone, Copy, Debug, PartialEq, Eq, Structural, Hash)]
pub enum PunctuationSyntaxKind {
    OpenBraceToken,
    CloseBraceToken,
    OpenParenToken,
    CloseParenToken,
    OpenBracketToken,
    CloseBracketToken,
    DotToken,
    DotDotDotToken,
    SemicolonToken,
    CommaToken,
    QuestionDotToken,
    LessThanToken,
    LessThanSlashToken,
    GreaterThanToken,
    LessThanEqualsToken,
    GreaterThanEqualsToken,
    EqualsEqualsToken,
    ExclamationEqualsToken,
    EqualsEqualsEqualsToken,
    ExclamationEqualsEqualsToken,
    EqualsGreaterThanToken,
    PlusToken,
    MinusToken,
    AsteriskToken,
    AsteriskAsteriskToken,
    SlashToken,
    PercentToken,
    PlusPlusToken,
    MinusMinusToken,
    LessThanLessThanToken,
    GreaterThanGreaterThanToken,
    GreaterThanGreaterThanGreaterThanToken,
    AmpersandToken,
    BarToken,
    CaretToken,
    ExclamationToken,
    TildeToken,
    AmpersandAmpersandToken,
    BarBarToken,
    QuestionToken,
    ColonToken,
    AtToken,
    QuestionQuestionToken,
    /// Only the JSDoc scanner produces BacktickToken. The normal scanner produces NoSubstitutionTemplateLiteral and related kinds.
    BacktickToken,
    /// Only the JSDoc scanner produces HashToken. The normal scanner produces PrivateIdentifier.
    HashToken,
    // Assignments
    EqualsToken,
    PlusEqualsToken,
    MinusEqualsToken,
    AsteriskEqualsToken,
    AsteriskAsteriskEqualsToken,
    SlashEqualsToken,
    PercentEqualsToken,
    LessThanLessThanEqualsToken,
    GreaterThanGreaterThanEqualsToken,
    GreaterThanGreaterThanGreaterThanEqualsToken,
    AmpersandEqualsToken,
    BarEqualsToken,
    BarBarEqualsToken,
    AmpersandAmpersandEqualsToken,
    QuestionQuestionEqualsToken,
    CaretEqualsToken,
}

#[derive(Clone, Copy, Debug, PartialEq, Eq, Structural, Hash)]
pub enum ModifierSyntaxKind {
    AbstractKeyword,
    AsyncKeyword,
    ConstKeyword,
    DeclareKeyword,
    DefaultKeyword,
    ExportKeyword,
    PrivateKeyword,
    ProtectedKeyword,
    PublicKeyword,
    ReadonlyKeyword,
    OverrideKeyword,
    StaticKeyword,
}

#[derive(Clone, Copy, Debug, PartialEq, Eq, Structural, Hash)]
pub enum KeywordTypeSyntaxKind {
    AnyKeyword,
    BigIntKeyword,
    VoidKeyword,
    BooleanKeyword,
    IntrinsicKeyword,
    NeverKeyword,
    NumberKeyword,
    ObjectKeyword,
    StringKeyword,
    SymbolKeyword,
    UndefinedKeyword,
    UnknownKeyword,
}

#[derive(Clone, Copy, Debug, PartialEq, Eq, Structural, Hash)]
pub enum KeywordSyntaxKind {
    // Reserved words
    BreakKeyword,
    CaseKeyword,
    CatchKeyword,
    ClassKeyword,
    ContinueKeyword,
    DebuggerKeyword,
    DeleteKeyword,
    DoKeyword,
    ElseKeyword,
    EnumKeyword,
    ExtendsKeyword,
    FalseKeyword,
    FinallyKeyword,
    ForKeyword,
    FunctionKeyword,
    IfKeyword,
    ImportKeyword,
    InKeyword,
    InstanceOfKeyword,
    NewKeyword,
    NullKeyword,
    ReturnKeyword,
    SuperKeyword,
    SwitchKeyword,
    ThisKeyword,
    ThrowKeyword,
    TrueKeyword,
    TryKeyword,
    TypeOfKeyword,
    VarKeyword,

    WhileKeyword,
    WithKeyword,

    Modifiers(ModifierSyntaxKind),

    KeywordType(KeywordTypeSyntaxKind),

    // Strict mode reserved words
    ImplementsKeyword,
    InterfaceKeyword,
    LetKeyword,
    PackageKeyword,
    YieldKeyword,
    // Contextual keywords
    AsKeyword,
    AssertsKeyword,

    AwaitKeyword,

    ConstructorKeyword,
    GetKeyword,
    InferKeyword,

    IsKeyword,
    KeyOfKeyword,
    ModuleKeyword,
    NamespaceKeyword,

    RequireKeyword,

    SetKeyword,

    TypeKeyword,

    UniqueKeyword,

    FromKeyword,
    GlobalKeyword,

    OfKeyword, // LastKeyword and LastToken and LastContextualKeyword
}

#[derive(Clone, Copy, Debug, PartialEq, Eq, Structural, Hash)]
pub enum TypeNodeSyntaxKind {
    TypePredicate,
    TypeReference,
    FunctionType,
    ConstructorType,
    TypeQuery,
    TypeLiteral,
    ArrayType,
    TupleType,
    OptionalType,
    RestType,
    UnionType,
    IntersectionType,
    ConditionalType,
    InferType,
    ParenthesizedType,
    ThisType,
    TypeOperator,
    IndexedAccessType,
    MappedType,
    LiteralType,
    NamedTupleMember,
    TemplateLiteralType,
    TemplateLiteralTypeSpan,
    ImportType,
    ExpressionWithTypeArguments,
    JSDocTypeExpression,
    JSDocAllType,     // The * type
    JSDocUnknownType, // The ? type
    JSDocNullableType,
    JSDocNonNullableType,
    JSDocOptionalType,
    JSDocFunctionType,
    JSDocVariadicType,
    JSDocNamepathType, // https://jsdoc.app/about-namepaths.html
    JSDocTypeLiteral,
    JSDocSignature,
}

#[derive(Clone, Copy, Debug, PartialEq, Eq, Structural, Hash)]
pub enum TokenSyntaxKind {
    Unknown,
    EndOfFileToken,
    Identifier,
    Trivias(TriviaSyntaxKind),
    Literals(LiteralSyntaxKind),
    PseudoLiterals(PseudoLiteralSyntaxKind),
    Punctuations(PunctuationSyntaxKind),
    Keywords(KeywordSyntaxKind),
}

#[derive(Clone, Copy, Debug, PartialEq, Eq, Structural, Hash)]
pub enum JsxTokenSyntaxKind {
    LessThanSlashToken,
    EndOfFileToken,
    ConflictMarkerTrivia,
    JsxText,
    JsxTextAllWhiteSpaces,
    OpenBraceToken,
    LessThanToken,
}

#[derive(Clone, Copy, Debug, PartialEq, Eq, Structural, Hash)]
pub enum JSDocSyntaxKind {
    EndOfFileToken,
    WhitespaceTrivia,
    AtToken,
    NewLineTrivia,
    AsteriskToken,
    OpenBraceToken,
    CloseBraceToken,
    LessThanToken,
    GreaterThanToken,
    OpenBracketToken,
    CloseBracketToken,
    EqualsToken,
    CommaToken,
    DotToken,
    Identifier,
    BacktickToken,
    HashToken,
    Unknown,
    Keywords(KeywordSyntaxKind),
}

#[derive(Clone, Copy, Debug, PartialEq, Eq, Structural, Hash)]
pub enum SyntaxKind {
    Trivias(TriviaSyntaxKind),

    // Literals
    Literals(LiteralSyntaxKind),
    // Pseudo-literals
    PseudoLiterals(PseudoLiteralSyntaxKind),
    // Punctuation
    Punctuations(PunctuationSyntaxKind),
    // Identifiers and PrivateIdentifiers
    PrivateIdentifier,

    // Keywords
    Keywords(KeywordSyntaxKind),

    // Names
    QualifiedName,
    ComputedPropertyName,
    // Signature elements
    TypeParameter,
    Parameter,
    Decorator,
    // TypeMember
    PropertySignature,
    PropertyDeclaration,
    MethodSignature,
    MethodDeclaration,
    Constructor,
    GetAccessor,
    SetAccessor,
    CallSignature,
    ConstructSignature,
    IndexSignature,
    // Type
    TypeNodes(TypeNodeSyntaxKind),

    // token syntax
    Tokens(TokenSyntaxKind),

    // Binding patterns
    ObjectBindingPattern,
    ArrayBindingPattern,
    BindingElement,
    // Expression
    ArrayLiteralExpression,
    ObjectLiteralExpression,
    PropertyAccessExpression,
    ElementAccessExpression,
    CallExpression,
    NewExpression,
    TaggedTemplateExpression,
    TypeAssertionExpression,
    ParenthesizedExpression,
    FunctionExpression,
    ArrowFunction,
    DeleteExpression,
    TypeOfExpression,
    VoidExpression,
    AwaitExpression,
    PrefixUnaryExpression,
    PostfixUnaryExpression,
    BinaryExpression,
    ConditionalExpression,
    TemplateExpression,
    YieldExpression,
    SpreadElement,
    ClassExpression,
    OmittedExpression,

    AsExpression,
    NonNullExpression,
    MetaProperty,
    SyntheticExpression,

    // Misc
    TemplateSpan,
    SemicolonClassElement,
    // Element
    Block,
    EmptyStatement,
    VariableStatement,
    ExpressionStatement,
    IfStatement,
    DoStatement,
    WhileStatement,
    ForStatement,
    ForInStatement,
    ForOfStatement,
    ContinueStatement,
    BreakStatement,
    ReturnStatement,
    WithStatement,
    SwitchStatement,
    LabeledStatement,
    ThrowStatement,
    TryStatement,
    DebuggerStatement,
    VariableDeclaration,
    VariableDeclarationList,
    FunctionDeclaration,
    ClassDeclaration,
    InterfaceDeclaration,
    TypeAliasDeclaration,
    EnumDeclaration,
    ModuleDeclaration,
    ModuleBlock,
    CaseBlock,
    NamespaceExportDeclaration,
    ImportEqualsDeclaration,
    ImportDeclaration,
    ImportClause,
    NamespaceImport,
    NamedImports,
    ImportSpecifier,
    ExportAssignment,
    ExportDeclaration,
    NamedExports,
    NamespaceExport,
    ExportSpecifier,
    MissingDeclaration,

    // Module references
    ExternalModuleReference,

    // JSX
    JsxElement,
    JsxSelfClosingElement,
    JsxOpeningElement,
    JsxClosingElement,
    JsxFragment,
    JsxOpeningFragment,
    JsxClosingFragment,
    JsxAttribute,
    JsxAttributes,
    JsxSpreadAttribute,
    JsxExpression,

    // Clauses
    CaseClause,
    DefaultClause,
    HeritageClause,
    CatchClause,

    // Property assignments
    PropertyAssignment,
    ShorthandPropertyAssignment,
    SpreadAssignment,

    // Enum
    EnumMember,
    // Unparsed
    UnparsedPrologue,
    UnparsedPrepend,
    UnparsedText,
    UnparsedInternalText,
    UnparsedSyntheticReference,

    // Top-level nodes
    SourceFile,
    Bundle,
    UnparsedSource,
    InputFiles,

    // JSDoc nodes
    JSDocNameReference,
    JSDocMemberName, // C#p

    JSDocComment,
    JSDocText,

    JSDocLink,
    JSDocLinkCode,
    JSDocLinkPlain,
    JSDocTag,
    JSDocAugmentsTag,
    JSDocImplementsTag,
    JSDocAuthorTag,
    JSDocDeprecatedTag,
    JSDocClassTag,
    JSDocPublicTag,
    JSDocPrivateTag,
    JSDocProtectedTag,
    JSDocReadonlyTag,
    JSDocOverrideTag,
    JSDocCallbackTag,
    JSDocEnumTag,
    JSDocParameterTag,
    JSDocReturnTag,
    JSDocThisTag,
    JSDocTypeTag,
    JSDocTemplateTag,
    JSDocTypedefTag,
    JSDocSeeTag,
    JSDocPropertyTag,

    // Synthesized list
    SyntaxList,

    // Transformation nodes
    NotEmittedStatement,
    PartiallyEmittedExpression,
    CommaListExpression,
    MergeDeclarationMarker,
    EndOfDeclarationMarker,
    SyntheticReferenceExpression,

    Count,
}

/// Secondary facts about the current token. Each variant stands for a bit of the
/// flag word kept by the scanner; `bit` gives that bit.
#[derive(Clone, Copy, Debug, PartialEq, Eq, Structural, Hash)]
pub enum TokenFlags {
    Empty,
    PrecedingLineBreak,
    PrecedingJSDocComment,
    Unterminated,
    ExtendedUnicodeEscape,
    /// e.g. `10e2`
    Scientific,
    /// e.g. `0777`
    Octal,
    /// e.g. `0x00000000`
    HexSpecifier,
    /// e.g. `0b0110010000000000`
    BinarySpecifier,
    /// e.g. `0o777`
    OctalSpecifier,
    /// e.g. `0b1100_0101`
    ContainsSeparator,
    UnicodeEscape,
    /// e.g. `\uhello`
    ContainsInvalidEscape,
    BinaryOrOctalSpecifier,
    NumericLiteralFlags,
}

impl TokenFlags {
    pub open spec fn spec_bit(self) -> u32 {
        match self {
            TokenFlags::Empty => 0,
            TokenFlags::PrecedingLineBreak => 1,
            TokenFlags::PrecedingJSDocComment => 2,
            TokenFlags::Unterminated => 4,
            TokenFlags::ExtendedUnicodeEscape => 8,
            TokenFlags::Scientific => 16,
            TokenFlags::Octal => 32,
            TokenFlags::HexSpecifier => 64,
            TokenFlags::BinarySpecifier => 128,
            TokenFlags::OctalSpecifier => 256,
            TokenFlags::ContainsSeparator => 512,
            TokenFlags::UnicodeEscape => 1024,
            TokenFlags::ContainsInvalidEscape => 2048,
            TokenFlags::BinaryOrOctalSpecifier => 384,
            TokenFlags::NumericLiteralFlags => 1008,
        }
    }

    /// The bit mask of the flag within a flag word.
    #[verifier::when_used_as_spec(spec_bit)]
    pub fn bit(self) -> (r: u32)
        ensures
            r == self.spec_bit(),
    {
        match self {
            TokenFlags::Empty => 0,
            TokenFlags::PrecedingLineBreak => 1,
            TokenFlags::PrecedingJSDocComment => 2,
            TokenFlags::Unterminated => 4,
            TokenFlags::ExtendedUnicodeEscape => 8,
            TokenFlags::Scientific => 16,
            TokenFlags::Octal => 32,
            TokenFlags::HexSpecifier => 64,
            TokenFlags::BinarySpecifier => 128,
            TokenFlags::OctalSpecifier => 256,
            TokenFlags::ContainsSeparator => 512,
            TokenFlags::UnicodeEscape => 1024,
            TokenFlags::ContainsInvalidEscape => 2048,
            TokenFlags::BinaryOrOctalSpecifier => 384,
            TokenFlags::NumericLiteralFlags => 1008,
        }
    }
}

#[derive(Clone, Copy, Debug, PartialEq, Eq, Structural, Hash)]
pub enum DiagnosticCategory {
    Warning,
    Error,
    Suggestion,
    Message,
}

/// A diagnostic message as handed to an error sink: a key, a category, a code
/// and the message text.
pub struct IDiagnosticMessage<'a> {
    pub key: &'a str,
    pub category: DiagnosticCategory,
    pub code: u16,
    pub message: &'a str,
}

impl<'a> IDiagnosticMessage<'a> {
    pub fn new(key: &'a str, category: DiagnosticCategory, code: u16, message: &'a str) -> (r: Self)
        ensures
            r.key@ == key@,
            r.category == category,
            r.code == code,
            r.message@ == message@,
    {
        IDiagnosticMessage { key, category, code, message }
    }

    pub fn key(&self) -> (r: &'a str)
        ensures
            r@ == self.key@,
    {
        self.key
    }

    pub fn category(&self) -> (r: DiagnosticCategory)
        ensures
            r == self.category,
    {
        self.category
    }

    pub fn code(&self) -> (r: u16)
        ensures
            r == self.code,
    {
        self.code
    }

    pub fn message(&self) -> (r: &'a str)
        ensures
            r@ == self.message@,
    {
        self.message
    }
}

/// A half-open range `[pos, end)` of source offsets.
#[derive(Clone, Copy, Debug, PartialEq, Eq, Structural, Hash)]
pub struct TextRange {
    pub pos: usize,
    pub end: usize,
}

#[derive(Clone, Copy, Debug, PartialEq, Eq, Structural, Hash)]
pub enum CommentDirectiveType {
    ExpectError,
    Ignore,
}

/// A suppression directive found at the start of a comment, with the comment's range.
#[derive(Clone, Copy, Debug, PartialEq, Eq, Structural, Hash)]
pub struct CommentDirective {
    pub range: TextRange,
    pub _type: CommentDirectiveType,
}

#[derive(Clone, Copy, Debug, PartialEq, Eq, Structural, Hash)]
pub enum ScriptTarget {
    ES3,
    ES5,
    ES2015,
    ES2016,
    ES2017,
    ES2018,
    ES2019,
    ES2020,
    ES2021,
    ESNext,
    JSON,
}

impl ScriptTarget {
    pub open spec fn spec_version(self) -> u32 {
        match self {
            ScriptTarget::ES3 => 0,
            ScriptTarget::ES5 => 1,
            ScriptTarget::ES2015 => 2,
            ScriptTarget::ES2016 => 3,
            ScriptTarget::ES2017 => 4,
            ScriptTarget::ES2018 => 5,
            ScriptTarget::ES2019 => 6,
            ScriptTarget::ES2020 => 7,
            ScriptTarget::ES2021 => 8,
            ScriptTarget::ESNext => 99,
            ScriptTarget::JSON => 100,
        }
    }

    /// The numeric version of the target; later language editions have larger numbers.
    #[verifier::when_used_as_spec(spec_version)]
    pub fn version(self) -> (r: u32)
        ensures
            r == self.spec_version(),
    {
        match self {
            ScriptTarget::ES3 => 0,
            ScriptTarget::ES5 => 1,
            ScriptTarget::ES2015 => 2,
            ScriptTarget::ES2016 => 3,
            ScriptTarget::ES2017 => 4,
            ScriptTarget::ES2018 => 5,
            ScriptTarget::ES2019 => 6,
            ScriptTarget::ES2020 => 7,
            ScriptTarget::ES2021 => 8,
            ScriptTarget::ESNext => 99,
            ScriptTarget::JSON => 100,
        }
    }
}

#[derive(Clone, Copy, Debug, PartialEq, Eq, Structural, Hash)]
pub enum LanguageVariant {
    Standard,
    JSX,
}

} // verus!
