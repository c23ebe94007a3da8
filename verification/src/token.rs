use vstd::prelude::*;

verus! {

/// The classification a scanned token carries.  The scanner itself only
/// produces a small subset of these kinds (punctuation, operators, numeric
/// literals, comment trivia, JSDoc, end-of-file); the rest name the full
/// lexical and syntactic taxonomy of the grammar so that later stages can
/// share one kind space.
#[derive(Debug, Clone, Copy, PartialEq, Eq, Structural)]
pub enum TokenType {
    Unknown,
    EndOfFile,
    SingleLineCommentTrivia,
    MultiLineCommentTrivia,
    NewLineTrivia,
    WhitespaceTrivia,
    ConflictMarkerTrivia,
    NonTextFileMarkerTrivia,
    NumericLiteral,
    BigIntLiteral,
    StringLiteral,
    JsxText,
    JsxTextAllWhiteSpaces,
    RegularExpressionLiteral,
    NoSubstitutionTemplateLiteral,
    // Pseudo-literals
    TemplateHead,
    TemplateMiddle,
    TemplateTail,
    // Punctuation
    LeftBraceToken,                         // {
    RightBraceToken,                        // }
    LeftParenToken,                         // (
    RightParenToken,                        // )
    LeftBracketToken,                       // [
    RightBracketToken,                      // ]
    DotToken,                               // .
    DotDotDotToken,                         // ...
    SemicolonToken,                         // ;
    CommaToken,                             // ,
    QuestionDotToken,                       // ?.
    LessThanToken,                          // <
    LessThanSlashToken,                     // </
    GreaterThanToken,                       // >
    LessThanEqualsToken,                    // <=
    GreaterThanEqualsToken,                 // >=
    EqualsEqualsToken,                      // ==
    ExclamationEqualsToken,                 // !=
    EqualsEqualsEqualsToken,                // ===
    ExclamationEqualsEqualsToken,           // !==
    EqualsGreaterThanToken,                 // =>
    PlusToken,                              // +
    MinusToken,                             // -
    AsteriskToken,                          // *
    AsteriskAsteriskToken,                  // **
    SlashToken,                             // /
    PercentToken,                           // %
    PlusPlusToken,                          // ++
    MinusMinusToken,                        // --
    LessThanLessThanToken,                  // <<
    GreaterThanGreaterThanToken,            // >>
    GreaterThanGreaterThanGreaterThanToken, // >>>
    AmpersandToken,                         // &
    BarToken,                               // |
    CaretToken,                             // ^
    ExclamationToken,                       // !
    TildeToken,                             // ~
    AmpersandAmpersandToken,                // &&
    BarBarToken,                            // ||
    QuestionToken,                          // ?
    ColonToken,                             // :
    AtToken,                                // @
    QuestionQuestionToken,                  // ??
    // Only the JSDoc scanner produces BacktickToken. The normal scanner produces NoSubstitutionTemplateLiteral and related kinds.
    BacktickToken, // `
    // Only the JSDoc scanner produces HashToken. The normal scanner produces PrivateIdentifier.
    HashToken, // #
    // Assignments
    EqualsToken,                                  // =
    PlusEqualsToken,                              // +=
    MinusEqualsToken,                             // -=
    AsteriskEqualsToken,                          // *=
    AsteriskAsteriskEqualsToken,                  // **=
    SlashEqualsToken,                             // /=
    PercentEqualsToken,                           // %=
    LessThanLessThanEqualsToken,                  // <<=
    GreaterThanGreaterThanEqualsToken,            // >>=
    GreaterThanGreaterThanGreaterThanEqualsToken, // >>>=
    AmpersandEqualsToken,                         // &=
    AmpersandAmpersandEqualsToken,                // &&=
    BarEqualsToken,                               // |=
    BarBarEqualsToken,                            // ||=
    QuestionQuestionEqualsToken,                  // ??=
    CaretEqualsToken,                             // ^=
    // Identifiers and PrivateIdentifier
    Identifier,
    PrivateIdentifier,
    JSDocCommentTextToken,
    // Reserved words
    BreakKeyword,      // break
    CaseKeyword,       // case
    CatchKeyword,      // catch
    ClassKeyword,      // class
    ConstKeyword,      // const
    ContinueKeyword,   // continue
    DebuggerKeyword,   // debugger
    DefaultKeyword,    // default
    DeleteKeyword,     // delete
    DoKeyword,         // do
    ElseKeyword,       // else
    EnumKeyword,       // enum
    ExportKeyword,     // export
    ExtendsKeyword,    // extends
    FalseKeyword,      // false
    FinallyKeyword,    // finally
    ForKeyword,        // for
    FunctionKeyword,   // function
    IfKeyword,         // if
    ImportKeyword,     // import
    InKeyword,         // in
    InstanceOfKeyword, //instance
    NewKeyword,        //new
    NullKeyword,       //null
    ReturnKeyword,     //return
    SuperKeyword,      //super
    SwitchKeyword,     //switch
    ThisKeyword,       //this
    ThrowKeyword,      //throw
    TrueKeyword,       //true
    TryKeyword,        //try
    TypeOfKeyword,     //typeof
    VarKeyword,        //var
    VoidKeyword,       //void
    WhileKeyword,      //while
    WithKeyword,       //with
    // Strict mode reserved words
    ImplementsKeyword, //implements
    InterfaceKeyword,  //interface
    LetKeyword,        //let
    PackageKeyword,    //package
    PrivateKeyword,    //private
    ProtectedKeyword,  //protected
    PublicKeyword,     //public
    StaticKeyword,     //static
    YieldKeyword,      //yield
    // Contextual keywords
    AbstractKeyword,    //abstract
    AccessorKeyword,    //accessor
    AsKeyword,          //as
    AssertsKeyword,     //asserts
    AssertKeyword,      //assert
    AnyKeyword,         //any
    AsyncKeyword,       //async
    AwaitKeyword,       //await
    BooleanKeyword,     //Boolean
    ConstructorKeyword, //constructor
    DeclareKeyword,     //declare
    GetKeyword,         //get
    ImmediateKeyword,   //immediate
    InferKeyword,       //infer
    IntrinsicKeyword,   //intrinsic
    IsKeyword,          //is
    KeyOfKeyword,       //keyof
    ModuleKeyword,      //module
    NamespaceKeyword,   //namespace
    NeverKeyword,       //never
    OutKeyword,         //out
    ReadonlyKeyword,    //readonly
    RequireKeyword,     //require
    NumberKeyword,      //number
    ObjectKeyword,      //object
    SatisfiesKeyword,   //satisfies
    SetKeyword,         //set
    StringKeyword,      // String
    SymbolKeyword,      //symbol
    TypeKeyword,        //type
    UndefinedKeyword,   //undefined
    UniqueKeyword,      //unique
    UnknownKeyword,     //unknown
    UsingKeyword,       //using
    FromKeyword,        //from
    GlobalKeyword,      //global
    BigIntKeyword,      //BigInt
    OverrideKeyword,    //override
    OfKeyword,          // of, LastKeyword and LastToken and LastContextualKeyword
    // Parse tree nodes
    // Names
    QualifiedName,
    ComputedPropertyName,
    // Signature elements
    TypeParameter,
    Parameter,
    Decorator,
    // TypeMember
    PropertySignature,
    PropertyDeclaration,
    MethodSignature,
    MethodDeclaration,
    ClassStaticBlockDeclaration,
    Constructor,
    GetAccessor,
    SetAccessor,
    CallSignature,
    ConstructSignature,
    IndexSignature,
    // Type
    TypePredicate,
    TypeReference,
    FunctionType,
    ConstructorType,
    TypeQuery,
    TypeLiteral,
    ArrayType,
    TupleType,
    OptionalType,
    RestType,
    UnionType,
    IntersectionType,
    ConditionalType,
    InferType,
    ParenthesizedType,
    ThisType,
    TypeOperator,
    IndexedAccessType,
    MappedType,
    LiteralType,
    NamedTupleMember,
    TemplateLiteralType,
    TemplateLiteralTypeSpan,
    ImportType,
    // Binding patterns
    ObjectBindingPattern,
    ArrayBindingPattern,
    BindingElement,
    // Expression
    ArrayLiteralExpression,
    ObjectLiteralExpression,
    PropertyAccessExpression,
    ElementAccessExpression,
    CallExpression,
    NewExpression,
    TaggedTemplateExpression,
    TypeAssertionExpression,
    ParenthesizedExpression,
    FunctionExpression,
    ArrowFunction,
    DeleteExpression,
    TypeOfExpression,
    VoidExpression,
    AwaitExpression,
    PrefixUnaryExpression,
    PostfixUnaryExpression,
    BinaryExpression,
    ConditionalExpression,
    TemplateExpression,
    YieldExpression,
    SpreadElement,
    ClassExpression,
    OmittedExpression,
    ExpressionWithTypeArguments,
    AsExpression,
    NonNullExpression,
    MetaProperty,
    SyntheticExpression,
    SatisfiesExpression,
    // Misc
    TemplateSpan,
    SemicolonClassElement,
    // Element
    Block,
    EmptyStatement,
    VariableStatement,
    ExpressionStatement,
    IfStatement,
    DoStatement,
    WhileStatement,
    ForStatement,
    ForInStatement,
    ForOfStatement,
    ContinueStatement,
    BreakStatement,
    ReturnStatement,
    WithStatement,
    SwitchStatement,
    LabeledStatement,
    ThrowStatement,
    TryStatement,
    DebuggerStatement,
    VariableDeclaration,
    VariableDeclarationList,
    FunctionDeclaration,
    ClassDeclaration,
    InterfaceDeclaration,
    TypeAliasDeclaration,
    EnumDeclaration,
    ModuleDeclaration,
    ModuleBlock,
    CaseBlock,
    NamespaceExportDeclaration,
    ImportEqualsDeclaration,
    ImportDeclaration,
    ImportClause,
    NamespaceImport,
    NamedImports,
    ImportSpecifier,
    ExportAssignment,
    ExportDeclaration,
    NamedExports,
    NamespaceExport,
    ExportSpecifier,
    MissingDeclaration,
    // Module references
    ExternalModuleReference,
    // JSX
    JsxElement,
    JsxSelfClosingElement,
    JsxOpeningElement,
    JsxClosingElement,
    JsxFragment,
    JsxOpeningFragment,
    JsxClosingFragment,
    JsxAttribute,
    JsxAttributes,
    JsxSpreadAttribute,
    JsxExpression,
    JsxNamespacedName,
    // Clauses
    CaseClause,
    DefaultClause,
    HeritageClause,
    CatchClause,
    // Import attributes
    ImportAttributes,
    ImportAttribute,
    // Property assignments
    PropertyAssignment,
    ShorthandPropertyAssignment,
    SpreadAssignment,
    // Enum
    EnumMember,
    // Top-level nodes
    SourceFile,
    Bundle,
    // JSDoc nodes
    JSDocTypeExpression,
    JSDocNameReference,
    JSDocMemberName, // C#p
    JSDocAllType,    // The * type
    JSDocNullableType,
    JSDocNonNullableType,
    JSDocOptionalType,
    JSDocVariadicType,
    JSDoc,
    JSDocText,
    JSDocTypeLiteral,
    JSDocSignature,
    JSDocLink,
    JSDocLinkCode,
    JSDocLinkPlain,
    JSDocTag,
    JSDocAugmentsTag,
    JSDocImplementsTag,
    JSDocDeprecatedTag,
    JSDocPublicTag,
    JSDocPrivateTag,
    JSDocProtectedTag,
    JSDocReadonlyTag,
    JSDocOverrideTag,
    JSDocCallbackTag,
    JSDocOverloadTag,
    JSDocParameterTag,
    JSDocReturnTag,
    JSDocThisTag,
    JSDocTypeTag,
    JSDocTemplateTag,
    JSDocTypedefTag,
    JSDocSeeTag,
    JSDocPropertyTag,
    JSDocSatisfiesTag,
    JSDocImportTag,
    // Synthesized list
    SyntaxList,
    // Reparsed JS nodes
    JSTypeAliasDeclaration,
    JSExportAssignment,
    CommonJSExport,
    JSImportDeclaration,
    // Transformation nodes
    NotEmittedStatement,
    PartiallyEmittedExpression,
    CommaListExpression,
    SyntheticReferenceExpression,
    NotEmittedTypeElement,
    // Enum value count
    Count,
    // Markers
    FirstAssignment,         // = EqualsToken
    LastAssignment,          // = CaretEqualsToken
    FirstCompoundAssignment, // = PlusEqualsToken
    LastCompoundAssignment,  // = CaretEqualsToken
    FirstReservedWord,       // = BreakKeyword
    LastReservedWord,        // = WithKeyword
    FirstKeyword,            // = BreakKeyword
    LastKeyword,             // = OfKeyword
    FirstFutureReservedWord, // = ImplementsKeyword
    LastFutureReservedWord,  // = YieldKeyword
    FirstTypeNode,           // = TypePredicate
    LastTypeNode,            // = ImportType
    FirstPunctuation,        // = LeftBraceToken
    LastPunctuation,         // = CaretEqualsToken
    FirstToken,              // = Unknown
    LastToken,               // = LastKeyword
    FirstLiteralToken,       // = NumericLiteral
    LastLiteralToken,        // = NoSubstitutionTemplateLiteral
    FirstTemplateToken,      // = NoSubstitutionTemplateLiteral
    LastTemplateToken,       // = TemplateTail
    FirstBinaryOperator,     // = LessThanToken
    LastBinaryOperator,      // = CaretEqualsToken
    FirstStatement,          // = VariableStatement
    LastStatement,           // = DebuggerStatement
    FirstNode,               // = QualifiedName
    FirstJSDocNode,          // = JSDocTypeExpression
    LastJSDocNode,           // = JSDocImportTag
    FirstJSDocTagNode,       // = JSDocTag
    LastJSDocTagNode,        // = JSDocImportTag
    FirstContextualKeyword,  // = AbstractKeyword
    LastContextualKeyword,   // = OfKeyword
    Comment,                 // = SingleLineCommentTrivia | KindMultiLineCommentTrivia
    FirstTriviaToken,        // = SingleLineCommentTrivia
    LastTriviaToken,         // = ConflictMarkerTrivia
}

/// A half-open range of positions into the source text, identifying a
/// substring without copying it.
#[derive(Debug, Clone, Copy, PartialEq, Eq, Structural)]
pub struct StrSpan {
    pub start: usize,
    pub end: usize,
}

/// The mathematical value of a `StrSpan`: the same half-open range over
/// unbounded integers.
pub ghost struct SpanModel {
    pub start: int,
    pub end: int,
}

impl View for StrSpan {
    type V = SpanModel;

    open spec fn view(&self) -> SpanModel {
        SpanModel { start: self.start as int, end: self.end as int }
    }
}

/// One classified, positioned unit of lexical meaning.  `lexeme` and
/// `literal_value`, when present, are ranges into the source the token was
/// scanned from; the token owns no text of its own.
#[derive(Debug, Clone, Copy)]
pub struct Token {
    pub token_type: TokenType,
    pub line: usize,
    pub start: usize,
    pub end: usize,
    pub lexeme: Option<StrSpan>,
    pub literal_value: Option<StrSpan>,
}

/// The mathematical value of a `Token`, with positions as unbounded integers.
pub ghost struct TokenModel {
    pub token_type: TokenType,
    pub line: int,
    pub start: int,
    pub end: int,
    pub lexeme: Option<SpanModel>,
    pub literal_value: Option<SpanModel>,
}

pub open spec fn span_model(s: Option<StrSpan>) -> Option<SpanModel> {
    match s {
        Some(sp) => Some(sp@),
        None => None,
    }
}

impl View for Token {
    type V = TokenModel;

    open spec fn view(&self) -> TokenModel {
        TokenModel {
            token_type: self.token_type,
            line: self.line as int,
            start: self.start as int,
            end: self.end as int,
            lexeme: span_model(self.lexeme),
            literal_value: span_model(self.literal_value),
        }
    }
}

impl Token {
    /// Builds a token outright from its parts.
    pub fn new(
        token_type: TokenType,
        line: usize,
        start: usize,
        end: usize,
        lexeme: Option<StrSpan>,
        literal_value: Option<StrSpan>,
    ) -> (t: Token)
        ensures
            t@ == (TokenModel {
                token_type,
                line: line as int,
                start: start as int,
                end: end as int,
                lexeme: span_model(lexeme),
                literal_value: span_model(literal_value),
            }),
    {
        Token { token_type, line, start, end, lexeme, literal_value }
    }
}

} // verus!
