//! Classification of raw cursor data into the library's typed node kinds.
//!
//! The analyzer describes each node of a parsed translation unit through
//! plain readings: an integer kind code, a spelling, a source span, type
//! and access codes, and a handful of boolean predicates. [`CursorInfo`]
//! bundles one node's readings; the functions here turn them into the
//! closed tagged unions [`CursorType`], [`AccessSpecifierType`],
//! [`Virtuality`], [`ConstructorType`] and [`CursorKind`]. Classification
//! never fails: an unrecognized code degrades to a `NotSupported` value.

use vstd::prelude::*;

use crate::codes;

verus! {

/// Access level the analyzer reports for a C++ class member.
#[derive(Debug, PartialEq, Eq, Clone, Copy)]
pub enum AccessSpecifierType {
    Invalid,
    Public,
    Protected,
    Private,
}

/// The access level a raw access-specifier code denotes; every code
/// outside the three known ones is `Invalid`.
pub open spec fn access_specifier_of(code: i32) -> AccessSpecifierType {
    if code == codes::ACCESS_PRIVATE {
        AccessSpecifierType::Private
    } else if code == codes::ACCESS_PROTECTED {
        AccessSpecifierType::Protected
    } else if code == codes::ACCESS_PUBLIC {
        AccessSpecifierType::Public
    } else {
        AccessSpecifierType::Invalid
    }
}

impl core::convert::From<i32> for AccessSpecifierType {
    /// Classifies a raw access-specifier code.
    fn from(code: i32) -> (r: AccessSpecifierType) {
        if code == codes::ACCESS_PRIVATE {
            AccessSpecifierType::Private
        } else if code == codes::ACCESS_PROTECTED {
            AccessSpecifierType::Protected
        } else if code == codes::ACCESS_PUBLIC {
            AccessSpecifierType::Public
        } else {
            AccessSpecifierType::Invalid
        }
    }
}

impl vstd::std_specs::convert::FromSpecImpl<i32> for AccessSpecifierType {
    open spec fn obeys_from_spec() -> bool {
        true
    }

    open spec fn from_spec(code: i32) -> AccessSpecifierType {
        access_specifier_of(code)
    }
}

/// Type of a cursor, mirroring the analyzer's builtin and compound type
/// kinds; a code that matches no known kind is kept as `NotSupported`.
#[derive(Debug, PartialEq, Eq, Clone, Copy)]
pub enum CursorType {
    Unexposed,
    Void,
    Bool,
    CharU,
    UnsignedChar,
    Char16,
    Char32,
    UnsignedShort,
    UnsignedInt,
    UnsignedLong,
    UnsignedLongLong,
    UnsignedInt128,
    CharS,
    SignedChar,
    WideChar,
    Short,
    Int,
    Long,
    LongLong,
    Int128,
    Float,
    Double,
    LongDouble,
    Nullptr,
    Overload,
    Dependent,
    Float128,
    Half,
    Float16,
    ShortAccum,
    Accum,
    LongAccum,
    UnsignedShortAccum,
    UnsignedAccum,
    UnsignedLongAccum,
    Complex,
    Pointer,
    BlockPointer,
    LValueReference,
    RValueReference,
    Record,
    Enum,
    Typedef,
    FunctionNoProto,
    FunctionProto,
    ConstantArray,
    Vector,
    IncompleteArray,
    VariableArray,
    DependentSizedArray,
    MemberPointer,
    Auto,
    Elaborated,
    Pipe,
    Attributed,
    Invalid,
    NotSupported(i32),
}

/// The typed kind a raw type code denotes.
pub open spec fn cursor_type_of(code: i32) -> CursorType {
    if code == codes::TYPE_UNEXPOSED {
        CursorType::Unexposed
    } else if code == codes::TYPE_VOID {
        CursorType::Void
    } else if code == codes::TYPE_BOOL {
        CursorType::Bool
    } else if code == codes::TYPE_CHAR_U {
        CursorType::CharU
    } else if code == codes::TYPE_UCHAR {
        CursorType::UnsignedChar
    } else if code == codes::TYPE_CHAR16 {
        CursorType::Char16
    } else if code == codes::TYPE_CHAR32 {
        CursorType::Char32
    } else if code == codes::TYPE_USHORT {
        CursorType::UnsignedShort
    } else if code == codes::TYPE_UINT {
        CursorType::UnsignedInt
    } else if code == codes::TYPE_ULONG {
        CursorType::UnsignedLong
    } else if code == codes::TYPE_ULONGLONG {
        CursorType::UnsignedLongLong
    } else if code == codes::TYPE_UINT128 {
        CursorType::UnsignedInt128
    } else if code == codes::TYPE_CHAR_S {
        CursorType::CharS
    } else if code == codes::TYPE_SCHAR {
        CursorType::SignedChar
    } else if code == codes::TYPE_WCHAR {
        CursorType::WideChar
    } else if code == codes::TYPE_SHORT {
        CursorType::Short
    } else if code == codes::TYPE_INT {
        CursorType::Int
    } else if code == codes::TYPE_LONG {
        CursorType::Long
    } else if code == codes::TYPE_LONGLONG {
        CursorType::LongLong
    } else if code == codes::TYPE_INT128 {
        CursorType::Int128
    } else if code == codes::TYPE_FLOAT {
        CursorType::Float
    } else if code == codes::TYPE_DOUBLE {
        CursorType::Double
    } else if code == codes::TYPE_LONG_DOUBLE {
        CursorType::LongDouble
    } else if code == codes::TYPE_NULLPTR {
        CursorType::Nullptr
    } else if code == codes::TYPE_OVERLOAD {
        CursorType::Overload
    } else if code == codes::TYPE_DEPENDENT {
        CursorType::Dependent
    } else if code == codes::TYPE_FLOAT128 {
        CursorType::Float128
    } else if code == codes::TYPE_HALF {
        CursorType::Half
    } else if code == codes::TYPE_FLOAT16 {
        CursorType::Float16
    } else if code == codes::TYPE_SHORT_ACCUM {
        CursorType::ShortAccum
    } else if code == codes::TYPE_ACCUM {
        CursorType::Accum
    } else if code == codes::TYPE_LONG_ACCUM {
        CursorType::LongAccum
    } else if code == codes::TYPE_USHORT_ACCUM {
        CursorType::UnsignedShortAccum
    } else if code == codes::TYPE_UACCUM {
        CursorType::UnsignedAccum
    } else if code == codes::TYPE_ULONG_ACCUM {
        CursorType::UnsignedLongAccum
    } else if code == codes::TYPE_COMPLEX {
        CursorType::Complex
    } else if code == codes::TYPE_POINTER {
        CursorType::Pointer
    } else if code == codes::TYPE_BLOCK_POINTER {
        CursorType::BlockPointer
    } else if code == codes::TYPE_LVALUE_REFERENCE {
        CursorType::LValueReference
    } else if code == codes::TYPE_RVALUE_REFERENCE {
        CursorType::RValueReference
    } else if code == codes::TYPE_RECORD {
        CursorType::Record
    } else if code == codes::TYPE_ENUM {
        CursorType::Enum
    } else if code == codes::TYPE_TYPEDEF {
        CursorType::Typedef
    } else if code == codes::TYPE_FUNCTION_NO_PROTO {
        CursorType::FunctionNoProto
    } else if code == codes::TYPE_FUNCTION_PROTO {
        CursorType::FunctionProto
    } else if code == codes::TYPE_CONSTANT_ARRAY {
        CursorType::ConstantArray
    } else if code == codes::TYPE_VECTOR {
        CursorType::Vector
    } else if code == codes::TYPE_INCOMPLETE_ARRAY {
        CursorType::IncompleteArray
    } else if code == codes::TYPE_VARIABLE_ARRAY {
        CursorType::VariableArray
    } else if code == codes::TYPE_DEPENDENT_SIZED_ARRAY {
        CursorType::DependentSizedArray
    } else if code == codes::TYPE_MEMBER_POINTER {
        CursorType::MemberPointer
    } else if code == codes::TYPE_AUTO {
        CursorType::Auto
    } else if code == codes::TYPE_ELABORATED {
        CursorType::Elaborated
    } else if code == codes::TYPE_PIPE {
        CursorType::Pipe
    } else if code == codes::TYPE_ATTRIBUTED {
        CursorType::Attributed
    } else {
        CursorType::NotSupported(code)
    }
}

impl core::convert::From<i32> for CursorType {
    /// Classifies a raw type code; unknown codes are preserved inside
    /// `NotSupported` rather than rejected.
    fn from(code: i32) -> (r: CursorType) {
        if code == codes::TYPE_UNEXPOSED {
            CursorType::Unexposed
        } else if code == codes::TYPE_VOID {
            CursorType::Void
        } else if code == codes::TYPE_BOOL {
            CursorType::Bool
        } else if code == codes::TYPE_CHAR_U {
            CursorType::CharU
        } else if code == codes::TYPE_UCHAR {
            CursorType::UnsignedChar
        } else if code == codes::TYPE_CHAR16 {
            CursorType::Char16
        } else if code == codes::TYPE_CHAR32 {
            CursorType::Char32
        } else if code == codes::TYPE_USHORT {
            CursorType::UnsignedShort
        } else if code == codes::TYPE_UINT {
            CursorType::UnsignedInt
        } else if code == codes::TYPE_ULONG {
            CursorType::UnsignedLong
        } else if code == codes::TYPE_ULONGLONG {
            CursorType::UnsignedLongLong
        } else if code == codes::TYPE_UINT128 {
            CursorType::UnsignedInt128
        } else if code == codes::TYPE_CHAR_S {
            CursorType::CharS
        } else if code == codes::TYPE_SCHAR {
            CursorType::SignedChar
        } else if code == codes::TYPE_WCHAR {
            CursorType::WideChar
        } else if code == codes::TYPE_SHORT {
            CursorType::Short
        } else if code == codes::TYPE_INT {
            CursorType::Int
        } else if code == codes::TYPE_LONG {
            CursorType::Long
        } else if code == codes::TYPE_LONGLONG {
            CursorType::LongLong
        } else if code == codes::TYPE_INT128 {
            CursorType::Int128
        } else if code == codes::TYPE_FLOAT {
            CursorType::Float
        } else if code == codes::TYPE_DOUBLE {
            CursorType::Double
        } else if code == codes::TYPE_LONG_DOUBLE {
            CursorType::LongDouble
        } else if code == codes::TYPE_NULLPTR {
            CursorType::Nullptr
        } else if code == codes::TYPE_OVERLOAD {
            CursorType::Overload
        } else if code == codes::TYPE_DEPENDENT {
            CursorType::Dependent
        } else if code == codes::TYPE_FLOAT128 {
            CursorType::Float128
        } else if code == codes::TYPE_HALF {
            CursorType::Half
        } else if code == codes::TYPE_FLOAT16 {
            CursorType::Float16
        } else if code == codes::TYPE_SHORT_ACCUM {
            CursorType::ShortAccum
        } else if code == codes::TYPE_ACCUM {
            CursorType::Accum
        } else if code == codes::TYPE_LONG_ACCUM {
            CursorType::LongAccum
        } else if code == codes::TYPE_USHORT_ACCUM {
            CursorType::UnsignedShortAccum
        } else if code == codes::TYPE_UACCUM {
            CursorType::UnsignedAccum
        } else if code == codes::TYPE_ULONG_ACCUM {
            CursorType::UnsignedLongAccum
        } else if code == codes::TYPE_COMPLEX {
            CursorType::Complex
        } else if code == codes::TYPE_POINTER {
            CursorType::Pointer
        } else if code == codes::TYPE_BLOCK_POINTER {
            CursorType::BlockPointer
        } else if code == codes::TYPE_LVALUE_REFERENCE {
            CursorType::LValueReference
        } else if code == codes::TYPE_RVALUE_REFERENCE {
            CursorType::RValueReference
        } else if code == codes::TYPE_RECORD {
            CursorType::Record
        } else if code == codes::TYPE_ENUM {
            CursorType::Enum
        } else if code == codes::TYPE_TYPEDEF {
            CursorType::Typedef
        } else if code == codes::TYPE_FUNCTION_NO_PROTO {
            CursorType::FunctionNoProto
        } else if code == codes::TYPE_FUNCTION_PROTO {
            CursorType::FunctionProto
        } else if code == codes::TYPE_CONSTANT_ARRAY {
            CursorType::ConstantArray
        } else if code == codes::TYPE_VECTOR {
            CursorType::Vector
        } else if code == codes::TYPE_INCOMPLETE_ARRAY {
            CursorType::IncompleteArray
        } else if code == codes::TYPE_VARIABLE_ARRAY {
            CursorType::VariableArray
        } else if code == codes::TYPE_DEPENDENT_SIZED_ARRAY {
            CursorType::DependentSizedArray
        } else if code == codes::TYPE_MEMBER_POINTER {
            CursorType::MemberPointer
        } else if code == codes::TYPE_AUTO {
            CursorType::Auto
        } else if code == codes::TYPE_ELABORATED {
            CursorType::Elaborated
        } else if code == codes::TYPE_PIPE {
            CursorType::Pipe
        } else if code == codes::TYPE_ATTRIBUTED {
            CursorType::Attributed
        } else {
            CursorType::NotSupported(code)
        }
    }
}

impl vstd::std_specs::convert::FromSpecImpl<i32> for CursorType {
    open spec fn obeys_from_spec() -> bool {
        true
    }

    open spec fn from_spec(code: i32) -> CursorType {
        cursor_type_of(code)
    }
}

/// Kind of a template argument; part of the public type surface.
#[derive(Debug, PartialEq, Eq, Clone, Copy)]
pub enum TemplateArgumentKind {
    Null,
    Type,
    Declaration,
    NullPtr,
    Integral,
    Template,
    TemplateExpansion,
    Expression,
    Pack,
    Invalid,
}

/// Subtype of a constructor, resolved from the analyzer's predicates.
#[derive(Debug, PartialEq, Eq, Clone, Copy)]
pub enum ConstructorType {
    Unclassified,
    Converting,
    Copy,
    Default,
    Move,
}

/// Constructor subtype under the fixed priority copy, move, default,
/// converting; the first predicate that holds wins.
pub open spec fn constructor_type_of(
    is_copy: bool,
    is_move: bool,
    is_default: bool,
    is_converting: bool,
) -> ConstructorType {
    if is_copy {
        ConstructorType::Copy
    } else if is_move {
        ConstructorType::Move
    } else if is_default {
        ConstructorType::Default
    } else if is_converting {
        ConstructorType::Converting
    } else {
        ConstructorType::Unclassified
    }
}

/// Resolves a constructor's subtype from the analyzer's four predicates,
/// first match wins: copy before move before default before converting.
pub fn get_constructor_type(
    is_copy: bool,
    is_move: bool,
    is_default: bool,
    is_converting: bool,
) -> (r: ConstructorType)
    ensures
        r == constructor_type_of(is_copy, is_move, is_default, is_converting),
{
    if is_copy {
        ConstructorType::Copy
    } else if is_move {
        ConstructorType::Move
    } else if is_default {
        ConstructorType::Default
    } else if is_converting {
        ConstructorType::Converting
    } else {
        ConstructorType::Unclassified
    }
}

/// Virtuality of a method or destructor.
#[derive(Debug, PartialEq, Eq, Clone, Copy)]
pub enum Virtuality {
    NonVirtual,
    PureVirtual,
    Virtual,
    Static,
}

/// Virtuality under the fixed priority pure-virtual, virtual, static;
/// the first predicate that holds wins.
pub open spec fn virtuality_of(is_pure_virtual: bool, is_virtual: bool, is_static: bool) -> Virtuality {
    if is_pure_virtual {
        Virtuality::PureVirtual
    } else if is_virtual {
        Virtuality::Virtual
    } else if is_static {
        Virtuality::Static
    } else {
        Virtuality::NonVirtual
    }
}

/// Resolves a method's virtuality from the analyzer's three predicates,
/// first match wins: pure-virtual before virtual before static.
pub fn get_cursor_virtuality(is_pure_virtual: bool, is_virtual: bool, is_static: bool) -> (r:
    Virtuality)
    ensures
        r == virtuality_of(is_pure_virtual, is_virtual, is_static),
{
    if is_pure_virtual {
        Virtuality::PureVirtual
    } else if is_virtual {
        Virtuality::Virtual
    } else if is_static {
        Virtuality::Static
    } else {
        Virtuality::NonVirtual
    }
}

/// One end of a source span: file, 1-based line and column.
#[derive(Debug, PartialEq, Eq, Clone)]
pub struct Position {
    pub file_name: String,
    pub line: u32,
    pub col: u32,
}

/// Mathematical image of a [`Position`].
#[verifier::ext_equal]
pub struct PositionView {
    pub file_name: Seq<char>,
    pub line: u32,
    pub col: u32,
}

impl View for Position {
    type V = PositionView;

    open spec fn view(&self) -> PositionView {
        PositionView { file_name: self.file_name@, line: self.line, col: self.col }
    }
}

impl Position {
    /// An owned copy with the same file, line and column.
    pub fn duplicate(&self) -> (r: Position)
        ensures
            r@ == self@,
    {
        Position { file_name: self.file_name.clone(), line: self.line, col: self.col }
    }
}

/// Source range a cursor covers, from its start to its end position.
#[derive(Debug, PartialEq, Eq, Clone)]
pub struct CodeSpan {
    pub start_pos: Position,
    pub end_pos: Position,
}

/// Mathematical image of a [`CodeSpan`].
#[verifier::ext_equal]
pub struct CodeSpanView {
    pub start_pos: PositionView,
    pub end_pos: PositionView,
}

impl View for CodeSpan {
    type V = CodeSpanView;

    open spec fn view(&self) -> CodeSpanView {
        CodeSpanView { start_pos: self.start_pos@, end_pos: self.end_pos@ }
    }
}

impl CodeSpan {
    /// An owned copy covering the same range.
    pub fn duplicate(&self) -> (r: CodeSpan)
        ensures
            r@ == self@,
    {
        CodeSpan { start_pos: self.start_pos.duplicate(), end_pos: self.end_pos.duplicate() }
    }
}


/// One node's raw readings from the analyzer: its kind code, spelling,
/// source span, type and access codes, and the boolean predicates that
/// refine methods and constructors. All further classification is a pure
/// function of these values.
#[derive(Debug, PartialEq, Eq, Clone)]
pub struct CursorInfo {
    pub kind_code: i32,
    pub spelling: String,
    pub span: CodeSpan,
    pub type_code: i32,
    pub result_type_code: i32,
    pub access_code: i32,
    pub is_pure_virtual: bool,
    pub is_virtual: bool,
    pub is_static: bool,
    pub is_copy_constructor: bool,
    pub is_move_constructor: bool,
    pub is_default_constructor: bool,
    pub is_converting_constructor: bool,
}

/// Mathematical image of a [`CursorInfo`].
#[verifier::ext_equal]
pub struct CursorInfoView {
    pub kind_code: i32,
    pub spelling: Seq<char>,
    pub span: CodeSpanView,
    pub type_code: i32,
    pub result_type_code: i32,
    pub access_code: i32,
    pub is_pure_virtual: bool,
    pub is_virtual: bool,
    pub is_static: bool,
    pub is_copy_constructor: bool,
    pub is_move_constructor: bool,
    pub is_default_constructor: bool,
    pub is_converting_constructor: bool,
}

impl View for CursorInfo {
    type V = CursorInfoView;

    open spec fn view(&self) -> CursorInfoView {
        CursorInfoView {
            kind_code: self.kind_code,
            spelling: self.spelling@,
            span: self.span@,
            type_code: self.type_code,
            result_type_code: self.result_type_code,
            access_code: self.access_code,
            is_pure_virtual: self.is_pure_virtual,
            is_virtual: self.is_virtual,
            is_static: self.is_static,
            is_copy_constructor: self.is_copy_constructor,
            is_move_constructor: self.is_move_constructor,
            is_default_constructor: self.is_default_constructor,
            is_converting_constructor: self.is_converting_constructor,
        }
    }
}

impl CursorInfo {
    /// An owned copy of one node's readings.
    pub fn duplicate(&self) -> (r: CursorInfo)
        ensures
            r@ == self@,
    {
        CursorInfo {
            kind_code: self.kind_code,
            spelling: self.spelling.clone(),
            span: self.span.duplicate(),
            type_code: self.type_code,
            result_type_code: self.result_type_code,
            access_code: self.access_code,
            is_pure_virtual: self.is_pure_virtual,
            is_virtual: self.is_virtual,
            is_static: self.is_static,
            is_copy_constructor: self.is_copy_constructor,
            is_move_constructor: self.is_move_constructor,
            is_default_constructor: self.is_default_constructor,
            is_converting_constructor: self.is_converting_constructor,
        }
    }
}

/// Kind of one node of the projected tree, a closed tagged union over the
/// declaration, expression, statement and reference kinds the analyzer
/// distinguishes. Name-bearing variants carry their spelling, located
/// variants their span; `Root` is the sentinel kind of a tree's root and
/// an unrecognized kind code is captured as `NotSupported` rather than
/// reported as an error.
#[derive(Debug, PartialEq, Eq, Clone)]

pub enum CursorKind {
    Unexposed(String),
    Struct(String, CodeSpan, AccessSpecifierType),
    Union(String, CodeSpan, AccessSpecifierType),
    Class(String, CodeSpan, AccessSpecifierType),
    Field(String, CodeSpan, AccessSpecifierType, CursorType),
    Enum(String, CodeSpan, AccessSpecifierType),
    EnumConstant(String, CodeSpan),
    Function {
        spelling: String,
        code_span: CodeSpan,
        cur_type: CursorType,
        return_type: CursorType,
    },
    Variable(String, CodeSpan, CursorType),
    Parameter(String, CodeSpan, CursorType),
    Typedef(String, CodeSpan, AccessSpecifierType),
    Method {
        spelling: String,
        code_span: CodeSpan,
        access_specifier: AccessSpecifierType,
        cur_type: CursorType,
        virtuality: Virtuality,
        return_type: CursorType,
    },
    Namespace(String, CodeSpan),
    LinkageSpec(String, CodeSpan),
    Constructor(String, CodeSpan, ConstructorType, AccessSpecifierType),
    Destructor(String, CodeSpan, Virtuality, AccessSpecifierType),
    ConversionFunction(String, CodeSpan, AccessSpecifierType),
    TemplateTypeParameter(String, CodeSpan),
    TemplateNonTypeParameter(String, CodeSpan),
    TemplateTemplateParameter(String, CodeSpan),
    FunctionTemplate(String, CodeSpan),
    ClassTemplate(String, CodeSpan),
    ClassTemplatePartial(String, CodeSpan),
    NamespaceAlias(String, CodeSpan),
    UsingDirective(String, CodeSpan),
    TypeAlias(String, CodeSpan, AccessSpecifierType),
    AccessSpecifier(CodeSpan, AccessSpecifierType),
    TypeReference(String, CodeSpan),
    BaseSpecifier(String, CodeSpan),
    TemplateReference(String, CodeSpan),
    NamespaceReference(String, CodeSpan),
    MemberReference(String, CodeSpan),
    LabelReference(String, CodeSpan),
    OverloadedDeclarationReference(String, CodeSpan),
    VariableReference(String),
    UnexposedExpression(String, CodeSpan),
    DeclarationReferenceExpression(String, CodeSpan),
    MemberReferenceExpression(String, CodeSpan),
    CallExpression(String, CodeSpan),
    BlockExpression(String, CodeSpan),
    IntegerLiteral(String, CodeSpan),
    FloatLiteral(CodeSpan),
    ImaginaryLiteral(String, CodeSpan),
    StringLiteral(String, CodeSpan),
    CharacterLiteral(String, CodeSpan),
    BoolLiteral(CodeSpan),
    UnaryOperator(String, CodeSpan),
    ArraySubscription(String, CodeSpan),
    BinaryOperator(CodeSpan),
    CompoundAssignOperator(String, CodeSpan),
    ConditionalOperator(String, CodeSpan),
    CStyleCast(String, CodeSpan),
    CompoundLiteralExpression(String, CodeSpan),
    InitializerListExpression(String, CodeSpan),
    CompoundStatement(CodeSpan),
    ReturnStatement(CodeSpan),
    DeclarationStatement(CodeSpan),
    ForStatement(CodeSpan),
    RangeBasedForStatement(CodeSpan),
    WhileStatement(CodeSpan),
    DoStatement(CodeSpan),
    SwitchStatement(CodeSpan),
    CaseStatement(CodeSpan),
    DefaultStatement(CodeSpan),
    BreakStatement(CodeSpan),
    ContinueStatement(CodeSpan),
    Root,
    NotSupported(String, CodeSpan, i32),
}

/// Mathematical image of a [`CursorKind`].
#[verifier::ext_equal]

pub enum CursorKindView {
    Unexposed(Seq<char>),
    Struct(Seq<char>, CodeSpanView, AccessSpecifierType),
    Union(Seq<char>, CodeSpanView, AccessSpecifierType),
    Class(Seq<char>, CodeSpanView, AccessSpecifierType),
    Field(Seq<char>, CodeSpanView, AccessSpecifierType, CursorType),
    Enum(Seq<char>, CodeSpanView, AccessSpecifierType),
    EnumConstant(Seq<char>, CodeSpanView),
    Function {
        spelling: Seq<char>,
        code_span: CodeSpanView,
        cur_type: CursorType,
        return_type: CursorType,
    },
    Variable(Seq<char>, CodeSpanView, CursorType),
    Parameter(Seq<char>, CodeSpanView, CursorType),
    Typedef(Seq<char>, CodeSpanView, AccessSpecifierType),
    Method {
        spelling: Seq<char>,
        code_span: CodeSpanView,
        access_specifier: AccessSpecifierType,
        cur_type: CursorType,
        virtuality: Virtuality,
        return_type: CursorType,
    },
    Namespace(Seq<char>, CodeSpanView),
    LinkageSpec(Seq<char>, CodeSpanView),
    Constructor(Seq<char>, CodeSpanView, ConstructorType, AccessSpecifierType),
    Destructor(Seq<char>, CodeSpanView, Virtuality, AccessSpecifierType),
    ConversionFunction(Seq<char>, CodeSpanView, AccessSpecifierType),
    TemplateTypeParameter(Seq<char>, CodeSpanView),
    TemplateNonTypeParameter(Seq<char>, CodeSpanView),
    TemplateTemplateParameter(Seq<char>, CodeSpanView),
    FunctionTemplate(Seq<char>, CodeSpanView),
    ClassTemplate(Seq<char>, CodeSpanView),
    ClassTemplatePartial(Seq<char>, CodeSpanView),
    NamespaceAlias(Seq<char>, CodeSpanView),
    UsingDirective(Seq<char>, CodeSpanView),
    TypeAlias(Seq<char>, CodeSpanView, AccessSpecifierType),
    AccessSpecifier(CodeSpanView, AccessSpecifierType),
    TypeReference(Seq<char>, CodeSpanView),
    BaseSpecifier(Seq<char>, CodeSpanView),
    TemplateReference(Seq<char>, CodeSpanView),
    NamespaceReference(Seq<char>, CodeSpanView),
    MemberReference(Seq<char>, CodeSpanView),
    LabelReference(Seq<char>, CodeSpanView),
    OverloadedDeclarationReference(Seq<char>, CodeSpanView),
    VariableReference(Seq<char>),
    UnexposedExpression(Seq<char>, CodeSpanView),
    DeclarationReferenceExpression(Seq<char>, CodeSpanView),
    MemberReferenceExpression(Seq<char>, CodeSpanView),
    CallExpression(Seq<char>, CodeSpanView),
    BlockExpression(Seq<char>, CodeSpanView),
    IntegerLiteral(Seq<char>, CodeSpanView),
    FloatLiteral(CodeSpanView),
    ImaginaryLiteral(Seq<char>, CodeSpanView),
    StringLiteral(Seq<char>, CodeSpanView),
    CharacterLiteral(Seq<char>, CodeSpanView),
    BoolLiteral(CodeSpanView),
    UnaryOperator(Seq<char>, CodeSpanView),
    ArraySubscription(Seq<char>, CodeSpanView),
    BinaryOperator(CodeSpanView),
    CompoundAssignOperator(Seq<char>, CodeSpanView),
    ConditionalOperator(Seq<char>, CodeSpanView),
    CStyleCast(Seq<char>, CodeSpanView),
    CompoundLiteralExpression(Seq<char>, CodeSpanView),
    InitializerListExpression(Seq<char>, CodeSpanView),
    CompoundStatement(CodeSpanView),
    ReturnStatement(CodeSpanView),
    DeclarationStatement(CodeSpanView),
    ForStatement(CodeSpanView),
    RangeBasedForStatement(CodeSpanView),
    WhileStatement(CodeSpanView),
    DoStatement(CodeSpanView),
    SwitchStatement(CodeSpanView),
    CaseStatement(CodeSpanView),
    DefaultStatement(CodeSpanView),
    BreakStatement(CodeSpanView),
    ContinueStatement(CodeSpanView),
    Root,
    NotSupported(Seq<char>, CodeSpanView, i32),
}

impl View for CursorKind {
    type V = CursorKindView;

    open spec fn view(&self) -> CursorKindView {
        match self {
            CursorKind::Unexposed(spelling) => CursorKindView::Unexposed(spelling@),
            CursorKind::Struct(spelling, span, access) => CursorKindView::Struct(spelling@, span@, *access),
            CursorKind::Union(spelling, span, access) => CursorKindView::Union(spelling@, span@, *access),
            CursorKind::Class(spelling, span, access) => CursorKindView::Class(spelling@, span@, *access),
            CursorKind::Field(spelling, span, access, cur_type) => CursorKindView::Field(spelling@, span@, *access, *cur_type),
            CursorKind::Enum(spelling, span, access) => CursorKindView::Enum(spelling@, span@, *access),
            CursorKind::EnumConstant(spelling, span) => CursorKindView::EnumConstant(spelling@, span@),
            CursorKind::Function { spelling, code_span, cur_type, return_type } => CursorKindView::Function {
                spelling: spelling@,
                code_span: code_span@,
                cur_type: *cur_type,
                return_type: *return_type,
            },
            CursorKind::Variable(spelling, span, cur_type) => CursorKindView::Variable(spelling@, span@, *cur_type),
            CursorKind::Parameter(spelling, span, cur_type) => CursorKindView::Parameter(spelling@, span@, *cur_type),
            CursorKind::Typedef(spelling, span, access) => CursorKindView::Typedef(spelling@, span@, *access),
            CursorKind::Method { spelling, code_span, access_specifier, cur_type, virtuality, return_type } => CursorKindView::Method {
                spelling: spelling@,
                code_span: code_span@,
                access_specifier: *access_specifier,
                cur_type: *cur_type,
                virtuality: *virtuality,
                return_type: *return_type,
            },
            CursorKind::Namespace(spelling, span) => CursorKindView::Namespace(spelling@, span@),
            CursorKind::LinkageSpec(spelling, span) => CursorKindView::LinkageSpec(spelling@, span@),
            CursorKind::Constructor(spelling, span, ctor, access) => CursorKindView::Constructor(spelling@, span@, *ctor, *access),
            CursorKind::Destructor(spelling, span, virtuality, access) => CursorKindView::Destructor(spelling@, span@, *virtuality, *access),
            CursorKind::ConversionFunction(spelling, span, access) => CursorKindView::ConversionFunction(spelling@, span@, *access),
            CursorKind::TemplateTypeParameter(spelling, span) => CursorKindView::TemplateTypeParameter(spelling@, span@),
            CursorKind::TemplateNonTypeParameter(spelling, span) => CursorKindView::TemplateNonTypeParameter(spelling@, span@),
            CursorKind::TemplateTemplateParameter(spelling, span) => CursorKindView::TemplateTemplateParameter(spelling@, span@),
            CursorKind::FunctionTemplate(spelling, span) => CursorKindView::FunctionTemplate(spelling@, span@),
            CursorKind::ClassTemplate(spelling, span) => CursorKindView::ClassTemplate(spelling@, span@),
            CursorKind::ClassTemplatePartial(spelling, span) => CursorKindView::ClassTemplatePartial(spelling@, span@),
            CursorKind::NamespaceAlias(spelling, span) => CursorKindView::NamespaceAlias(spelling@, span@),
            CursorKind::UsingDirective(spelling, span) => CursorKindView::UsingDirective(spelling@, span@),
            CursorKind::TypeAlias(spelling, span, access) => CursorKindView::TypeAlias(spelling@, span@, *access),
            CursorKind::AccessSpecifier(span, access) => CursorKindView::AccessSpecifier(span@, *access),
            CursorKind::TypeReference(spelling, span) => CursorKindView::TypeReference(spelling@, span@),
            CursorKind::BaseSpecifier(spelling, span) => CursorKindView::BaseSpecifier(spelling@, span@),
            CursorKind::TemplateReference(spelling, span) => CursorKindView::TemplateReference(spelling@, span@),
            CursorKind::NamespaceReference(spelling, span) => CursorKindView::NamespaceReference(spelling@, span@),
            CursorKind::MemberReference(spelling, span) => CursorKindView::MemberReference(spelling@, span@),
            CursorKind::LabelReference(spelling, span) => CursorKindView::LabelReference(spelling@, span@),
            CursorKind::OverloadedDeclarationReference(spelling, span) => CursorKindView::OverloadedDeclarationReference(spelling@, span@),
            CursorKind::VariableReference(spelling) => CursorKindView::VariableReference(spelling@),
            CursorKind::UnexposedExpression(spelling, span) => CursorKindView::UnexposedExpression(spelling@, span@),
            CursorKind::DeclarationReferenceExpression(spelling, span) => CursorKindView::DeclarationReferenceExpression(spelling@, span@),
            CursorKind::MemberReferenceExpression(spelling, span) => CursorKindView::MemberReferenceExpression(spelling@, span@),
            CursorKind::CallExpression(spelling, span) => CursorKindView::CallExpression(spelling@, span@),
            CursorKind::BlockExpression(spelling, span) => CursorKindView::BlockExpression(spelling@, span@),
            CursorKind::IntegerLiteral(spelling, span) => CursorKindView::IntegerLiteral(spelling@, span@),
            CursorKind::FloatLiteral(span) => CursorKindView::FloatLiteral(span@),
            CursorKind::ImaginaryLiteral(spelling, span) => CursorKindView::ImaginaryLiteral(spelling@, span@),
            CursorKind::StringLiteral(spelling, span) => CursorKindView::StringLiteral(spelling@, span@),
            CursorKind::CharacterLiteral(spelling, span) => CursorKindView::CharacterLiteral(spelling@, span@),
            CursorKind::BoolLiteral(span) => CursorKindView::BoolLiteral(span@),
            CursorKind::UnaryOperator(spelling, span) => CursorKindView::UnaryOperator(spelling@, span@),
            CursorKind::ArraySubscription(spelling, span) => CursorKindView::ArraySubscription(spelling@, span@),
            CursorKind::BinaryOperator(span) => CursorKindView::BinaryOperator(span@),
            CursorKind::CompoundAssignOperator(spelling, span) => CursorKindView::CompoundAssignOperator(spelling@, span@),
            CursorKind::ConditionalOperator(spelling, span) => CursorKindView::ConditionalOperator(spelling@, span@),
            CursorKind::CStyleCast(spelling, span) => CursorKindView::CStyleCast(spelling@, span@),
            CursorKind::CompoundLiteralExpression(spelling, span) => CursorKindView::CompoundLiteralExpression(spelling@, span@),
            CursorKind::InitializerListExpression(spelling, span) => CursorKindView::InitializerListExpression(spelling@, span@),
            CursorKind::CompoundStatement(span) => CursorKindView::CompoundStatement(span@),
            CursorKind::ReturnStatement(span) => CursorKindView::ReturnStatement(span@),
            CursorKind::DeclarationStatement(span) => CursorKindView::DeclarationStatement(span@),
            CursorKind::ForStatement(span) => CursorKindView::ForStatement(span@),
            CursorKind::RangeBasedForStatement(span) => CursorKindView::RangeBasedForStatement(span@),
            CursorKind::WhileStatement(span) => CursorKindView::WhileStatement(span@),
            CursorKind::DoStatement(span) => CursorKindView::DoStatement(span@),
            CursorKind::SwitchStatement(span) => CursorKindView::SwitchStatement(span@),
            CursorKind::CaseStatement(span) => CursorKindView::CaseStatement(span@),
            CursorKind::DefaultStatement(span) => CursorKindView::DefaultStatement(span@),
            CursorKind::BreakStatement(span) => CursorKindView::BreakStatement(span@),
            CursorKind::ContinueStatement(span) => CursorKindView::ContinueStatement(span@),
            CursorKind::Root => CursorKindView::Root,
            CursorKind::NotSupported(spelling, span, code) => CursorKindView::NotSupported(spelling@, span@, *code),
        }
    }
}

/// The node kind one cursor's readings denote; the span, spelling, type,
/// access and predicate payloads each variant carries follow the variant's
/// shape. A kind code outside the closed set degrades to `NotSupported`
/// with the raw code preserved.

pub open spec fn cursor_kind_of(info: CursorInfoView) -> CursorKindView {
    if info.kind_code == codes::KIND_UNEXPOSED_DECL {
        CursorKindView::Unexposed(info.spelling)
    } else if info.kind_code == codes::KIND_STRUCT_DECL {
        CursorKindView::Struct(info.spelling, info.span, access_specifier_of(info.access_code))
    } else if info.kind_code == codes::KIND_UNION_DECL {
        CursorKindView::Union(info.spelling, info.span, access_specifier_of(info.access_code))
    } else if info.kind_code == codes::KIND_CLASS_DECL {
        CursorKindView::Class(info.spelling, info.span, access_specifier_of(info.access_code))
    } else if info.kind_code == codes::KIND_FIELD_DECL {
        CursorKindView::Field(info.spelling, info.span, access_specifier_of(info.access_code), cursor_type_of(info.type_code))
    } else if info.kind_code == codes::KIND_ENUM_DECL {
        CursorKindView::Enum(info.spelling, info.span, access_specifier_of(info.access_code))
    } else if info.kind_code == codes::KIND_ENUM_CONSTANT_DECL {
        CursorKindView::EnumConstant(info.spelling, info.span)
    } else if info.kind_code == codes::KIND_FUNCTION_DECL {
        CursorKindView::Function {
            spelling: info.spelling,
            code_span: info.span,
            cur_type: cursor_type_of(info.type_code),
            return_type: cursor_type_of(info.result_type_code),
        }
    } else if info.kind_code == codes::KIND_VAR_DECL {
        CursorKindView::Variable(info.spelling, info.span, cursor_type_of(info.type_code))
    } else if info.kind_code == codes::KIND_PARM_DECL {
        CursorKindView::Parameter(info.spelling, info.span, cursor_type_of(info.type_code))
    } else if info.kind_code == codes::KIND_TYPEDEF_DECL {
        CursorKindView::Typedef(info.spelling, info.span, access_specifier_of(info.access_code))
    } else if info.kind_code == codes::KIND_CXX_METHOD {
        CursorKindView::Method {
            spelling: info.spelling,
            code_span: info.span,
            access_specifier: access_specifier_of(info.access_code),
            cur_type: cursor_type_of(info.type_code),
            virtuality: virtuality_of(info.is_pure_virtual, info.is_virtual, info.is_static),
            return_type: cursor_type_of(info.result_type_code),
        }
    } else if info.kind_code == codes::KIND_NAMESPACE {
        CursorKindView::Namespace(info.spelling, info.span)
    } else if info.kind_code == codes::KIND_LINKAGE_SPEC {
        CursorKindView::LinkageSpec(info.spelling, info.span)
    } else if info.kind_code == codes::KIND_CONSTRUCTOR {
        CursorKindView::Constructor(info.spelling, info.span, constructor_type_of(info.is_copy_constructor, info.is_move_constructor, info.is_default_constructor, info.is_converting_constructor), access_specifier_of(info.access_code))
    } else if info.kind_code == codes::KIND_DESTRUCTOR {
        CursorKindView::Destructor(info.spelling, info.span, virtuality_of(info.is_pure_virtual, info.is_virtual, info.is_static), access_specifier_of(info.access_code))
    } else if info.kind_code == codes::KIND_CONVERSION_FUNCTION {
        CursorKindView::ConversionFunction(info.spelling, info.span, access_specifier_of(info.access_code))
    } else if info.kind_code == codes::KIND_TEMPLATE_TYPE_PARAMETER {
        CursorKindView::TemplateTypeParameter(info.spelling, info.span)
    } else if info.kind_code == codes::KIND_NON_TYPE_TEMPLATE_PARAMETER {
        CursorKindView::TemplateNonTypeParameter(info.spelling, info.span)
    } else if info.kind_code == codes::KIND_TEMPLATE_TEMPLATE_PARAMETER {
        CursorKindView::TemplateTemplateParameter(info.spelling, info.span)
    } else if info.kind_code == codes::KIND_FUNCTION_TEMPLATE {
        CursorKindView::FunctionTemplate(info.spelling, info.span)
    } else if info.kind_code == codes::KIND_CLASS_TEMPLATE {
        CursorKindView::ClassTemplate(info.spelling, info.span)
    } else if info.kind_code == codes::KIND_CLASS_TEMPLATE_PARTIAL_SPECIALIZATION {
        CursorKindView::ClassTemplatePartial(info.spelling, info.span)
    } else if info.kind_code == codes::KIND_NAMESPACE_ALIAS {
        CursorKindView::NamespaceAlias(info.spelling, info.span)
    } else if info.kind_code == codes::KIND_USING_DIRECTIVE {
        CursorKindView::UsingDirective(info.spelling, info.span)
    } else if info.kind_code == codes::KIND_TYPE_ALIAS_DECL {
        CursorKindView::TypeAlias(info.spelling, info.span, access_specifier_of(info.access_code))
    } else if info.kind_code == codes::KIND_CXX_ACCESS_SPECIFIER {
        CursorKindView::AccessSpecifier(info.span, access_specifier_of(info.access_code))
    } else if info.kind_code == codes::KIND_TYPE_REF {
        CursorKindView::TypeReference(info.spelling, info.span)
    } else if info.kind_code == codes::KIND_CXX_BASE_SPECIFIER {
        CursorKindView::BaseSpecifier(info.spelling, info.span)
    } else if info.kind_code == codes::KIND_TEMPLATE_REF {
        CursorKindView::TemplateReference(info.spelling, info.span)
    } else if info.kind_code == codes::KIND_NAMESPACE_REF {
        CursorKindView::NamespaceReference(info.spelling, info.span)
    } else if info.kind_code == codes::KIND_MEMBER_REF {
        CursorKindView::MemberReference(info.spelling, info.span)
    } else if info.kind_code == codes::KIND_LABEL_REF {
        CursorKindView::LabelReference(info.spelling, info.span)
    } else if info.kind_code == codes::KIND_OVERLOADED_DECL_REF {
        CursorKindView::OverloadedDeclarationReference(info.spelling, info.span)
    } else if info.kind_code == codes::KIND_VARIABLE_REF {
        CursorKindView::VariableReference(info.spelling)
    } else if info.kind_code == codes::KIND_UNEXPOSED_EXPR {
        CursorKindView::UnexposedExpression(info.spelling, info.span)
    } else if info.kind_code == codes::KIND_DECL_REF_EXPR {
        CursorKindView::DeclarationReferenceExpression(info.spelling, info.span)
    } else if info.kind_code == codes::KIND_MEMBER_REF_EXPR {
        CursorKindView::MemberReferenceExpression(info.spelling, info.span)
    } else if info.kind_code == codes::KIND_CALL_EXPR {
        CursorKindView::CallExpression(info.spelling, info.span)
    } else if info.kind_code == codes::KIND_BLOCK_EXPR {
        CursorKindView::BlockExpression(info.spelling, info.span)
    } else if info.kind_code == codes::KIND_INTEGER_LITERAL {
        CursorKindView::IntegerLiteral(info.spelling, info.span)
    } else if info.kind_code == codes::KIND_FLOATING_LITERAL {
        CursorKindView::FloatLiteral(info.span)
    } else if info.kind_code == codes::KIND_IMAGINARY_LITERAL {
        CursorKindView::ImaginaryLiteral(info.spelling, info.span)
    } else if info.kind_code == codes::KIND_STRING_LITERAL {
        CursorKindView::StringLiteral(info.spelling, info.span)
    } else if info.kind_code == codes::KIND_CHARACTER_LITERAL {
        CursorKindView::CharacterLiteral(info.spelling, info.span)
    } else if info.kind_code == codes::KIND_CXX_BOOL_LITERAL_EXPR {
        CursorKindView::BoolLiteral(info.span)
    } else if info.kind_code == codes::KIND_UNARY_OPERATOR {
        CursorKindView::UnaryOperator(info.spelling, info.span)
    } else if info.kind_code == codes::KIND_ARRAY_SUBSCRIPT_EXPR {
        CursorKindView::ArraySubscription(info.spelling, info.span)
    } else if info.kind_code == codes::KIND_BINARY_OPERATOR {
        CursorKindView::BinaryOperator(info.span)
    } else if info.kind_code == codes::KIND_COMPOUND_ASSIGN_OPERATOR {
        CursorKindView::CompoundAssignOperator(info.spelling, info.span)
    } else if info.kind_code == codes::KIND_CONDITIONAL_OPERATOR {
        CursorKindView::ConditionalOperator(info.spelling, info.span)
    } else if info.kind_code == codes::KIND_C_STYLE_CAST_EXPR {
        CursorKindView::CStyleCast(info.spelling, info.span)
    } else if info.kind_code == codes::KIND_COMPOUND_LITERAL_EXPR {
        CursorKindView::CompoundLiteralExpression(info.spelling, info.span)
    } else if info.kind_code == codes::KIND_INIT_LIST_EXPR {
        CursorKindView::InitializerListExpression(info.spelling, info.span)
    } else if info.kind_code == codes::KIND_COMPOUND_STMT {
        CursorKindView::CompoundStatement(info.span)
    } else if info.kind_code == codes::KIND_RETURN_STMT {
        CursorKindView::ReturnStatement(info.span)
    } else if info.kind_code == codes::KIND_DECL_STMT {
        CursorKindView::DeclarationStatement(info.span)
    } else if info.kind_code == codes::KIND_FOR_STMT {
        CursorKindView::ForStatement(info.span)
    } else if info.kind_code == codes::KIND_CXX_FOR_RANGE_STMT {
        CursorKindView::RangeBasedForStatement(info.span)
    } else if info.kind_code == codes::KIND_WHILE_STMT {
        CursorKindView::WhileStatement(info.span)
    } else if info.kind_code == codes::KIND_DO_STMT {
        CursorKindView::DoStatement(info.span)
    } else if info.kind_code == codes::KIND_SWITCH_STMT {
        CursorKindView::SwitchStatement(info.span)
    } else if info.kind_code == codes::KIND_CASE_STMT {
        CursorKindView::CaseStatement(info.span)
    } else if info.kind_code == codes::KIND_DEFAULT_STMT {
        CursorKindView::DefaultStatement(info.span)
    } else if info.kind_code == codes::KIND_BREAK_STMT {
        CursorKindView::BreakStatement(info.span)
    } else if info.kind_code == codes::KIND_CONTINUE_STMT {
        CursorKindView::ContinueStatement(info.span)
    } else {
        CursorKindView::NotSupported(info.spelling, info.span, info.kind_code)
    }
}

impl CursorKind {
    /// Classifies one node from its raw readings; total, never fails.
    ///
    /// Composes the type, access, virtuality and constructor classifiers
    /// in one pass over the readings.
    pub fn from_info(info: CursorInfo) -> (r: CursorKind)
        ensures
            r@ == cursor_kind_of(info@),
    {
        if info.kind_code == codes::KIND_UNEXPOSED_DECL {
            CursorKind::Unexposed(info.spelling)
        } else if info.kind_code == codes::KIND_STRUCT_DECL {
            CursorKind::Struct(info.spelling, info.span, AccessSpecifierType::from(info.access_code))
        } else if info.kind_code == codes::KIND_UNION_DECL {
            CursorKind::Union(info.spelling, info.span, AccessSpecifierType::from(info.access_code))
        } else if info.kind_code == codes::KIND_CLASS_DECL {
            CursorKind::Class(info.spelling, info.span, AccessSpecifierType::from(info.access_code))
        } else if info.kind_code == codes::KIND_FIELD_DECL {
            CursorKind::Field(info.spelling, info.span, AccessSpecifierType::from(info.access_code), CursorType::from(info.type_code))
        } else if info.kind_code == codes::KIND_ENUM_DECL {
            CursorKind::Enum(info.spelling, info.span, AccessSpecifierType::from(info.access_code))
        } else if info.kind_code == codes::KIND_ENUM_CONSTANT_DECL {
            CursorKind::EnumConstant(info.spelling, info.span)
        } else if info.kind_code == codes::KIND_FUNCTION_DECL {
            CursorKind::Function {
            spelling: info.spelling,
            code_span: info.span,
            cur_type: CursorType::from(info.type_code),
            return_type: CursorType::from(info.result_type_code),
        }
        } else if info.kind_code == codes::KIND_VAR_DECL {
            CursorKind::Variable(info.spelling, info.span, CursorType::from(info.type_code))
        } else if info.kind_code == codes::KIND_PARM_DECL {
            CursorKind::Parameter(info.spelling, info.span, CursorType::from(info.type_code))
        } else if info.kind_code == codes::KIND_TYPEDEF_DECL {
            CursorKind::Typedef(info.spelling, info.span, AccessSpecifierType::from(info.access_code))
        } else if info.kind_code == codes::KIND_CXX_METHOD {
            CursorKind::Method {
            spelling: info.spelling,
            code_span: info.span,
            access_specifier: AccessSpecifierType::from(info.access_code),
            cur_type: CursorType::from(info.type_code),
            virtuality: get_cursor_virtuality(info.is_pure_virtual, info.is_virtual, info.is_static),
            return_type: CursorType::from(info.result_type_code),
        }
        } else if info.kind_code == codes::KIND_NAMESPACE {
            CursorKind::Namespace(info.spelling, info.span)
        } else if info.kind_code == codes::KIND_LINKAGE_SPEC {
            CursorKind::LinkageSpec(info.spelling, info.span)
        } else if info.kind_code == codes::KIND_CONSTRUCTOR {
            CursorKind::Constructor(info.spelling, info.span, get_constructor_type(
            info.is_copy_constructor,
            info.is_move_constructor,
            info.is_default_constructor,
            info.is_converting_constructor,
        ), AccessSpecifierType::from(info.access_code))
        } else if info.kind_code == codes::KIND_DESTRUCTOR {
            CursorKind::Destructor(info.spelling, info.span, get_cursor_virtuality(info.is_pure_virtual, info.is_virtual, info.is_static), AccessSpecifierType::from(info.access_code))
        } else if info.kind_code == codes::KIND_CONVERSION_FUNCTION {
            CursorKind::ConversionFunction(info.spelling, info.span, AccessSpecifierType::from(info.access_code))
        } else if info.kind_code == codes::KIND_TEMPLATE_TYPE_PARAMETER {
            CursorKind::TemplateTypeParameter(info.spelling, info.span)
        } else if info.kind_code == codes::KIND_NON_TYPE_TEMPLATE_PARAMETER {
            CursorKind::TemplateNonTypeParameter(info.spelling, info.span)
        } else if info.kind_code == codes::KIND_TEMPLATE_TEMPLATE_PARAMETER {
            CursorKind::TemplateTemplateParameter(info.spelling, info.span)
        } else if info.kind_code == codes::KIND_FUNCTION_TEMPLATE {
            CursorKind::FunctionTemplate(info.spelling, info.span)
        } else if info.kind_code == codes::KIND_CLASS_TEMPLATE {
            CursorKind::ClassTemplate(info.spelling, info.span)
        } else if info.kind_code == codes::KIND_CLASS_TEMPLATE_PARTIAL_SPECIALIZATION {
            CursorKind::ClassTemplatePartial(info.spelling, info.span)
        } else if info.kind_code == codes::KIND_NAMESPACE_ALIAS {
            CursorKind::NamespaceAlias(info.spelling, info.span)
        } else if info.kind_code == codes::KIND_USING_DIRECTIVE {
            CursorKind::UsingDirective(info.spelling, info.span)
        } else if info.kind_code == codes::KIND_TYPE_ALIAS_DECL {
            CursorKind::TypeAlias(info.spelling, info.span, AccessSpecifierType::from(info.access_code))
        } else if info.kind_code == codes::KIND_CXX_ACCESS_SPECIFIER {
            CursorKind::AccessSpecifier(info.span, AccessSpecifierType::from(info.access_code))
        } else if info.kind_code == codes::KIND_TYPE_REF {
            CursorKind::TypeReference(info.spelling, info.span)
        } else if info.kind_code == codes::KIND_CXX_BASE_SPECIFIER {
            CursorKind::BaseSpecifier(info.spelling, info.span)
        } else if info.kind_code == codes::KIND_TEMPLATE_REF {
            CursorKind::TemplateReference(info.spelling, info.span)
        } else if info.kind_code == codes::KIND_NAMESPACE_REF {
            CursorKind::NamespaceReference(info.spelling, info.span)
        } else if info.kind_code == codes::KIND_MEMBER_REF {
            CursorKind::MemberReference(info.spelling, info.span)
        } else if info.kind_code == codes::KIND_LABEL_REF {
            CursorKind::LabelReference(info.spelling, info.span)
        } else if info.kind_code == codes::KIND_OVERLOADED_DECL_REF {
            CursorKind::OverloadedDeclarationReference(info.spelling, info.span)
        } else if info.kind_code == codes::KIND_VARIABLE_REF {
            CursorKind::VariableReference(info.spelling)
        } else if info.kind_code == codes::KIND_UNEXPOSED_EXPR {
            CursorKind::UnexposedExpression(info.spelling, info.span)
        } else if info.kind_code == codes::KIND_DECL_REF_EXPR {
            CursorKind::DeclarationReferenceExpression(info.spelling, info.span)
        } else if info.kind_code == codes::KIND_MEMBER_REF_EXPR {
            CursorKind::MemberReferenceExpression(info.spelling, info.span)
        } else if info.kind_code == codes::KIND_CALL_EXPR {
            CursorKind::CallExpression(info.spelling, info.span)
        } else if info.kind_code == codes::KIND_BLOCK_EXPR {
            CursorKind::BlockExpression(info.spelling, info.span)
        } else if info.kind_code == codes::KIND_INTEGER_LITERAL {
            CursorKind::IntegerLiteral(info.spelling, info.span)
        } else if info.kind_code == codes::KIND_FLOATING_LITERAL {
            CursorKind::FloatLiteral(info.span)
        } else if info.kind_code == codes::KIND_IMAGINARY_LITERAL {
            CursorKind::ImaginaryLiteral(info.spelling, info.span)
        } else if info.kind_code == codes::KIND_STRING_LITERAL {
            CursorKind::StringLiteral(info.spelling, info.span)
        } else if info.kind_code == codes::KIND_CHARACTER_LITERAL {
            CursorKind::CharacterLiteral(info.spelling, info.span)
        } else if info.kind_code == codes::KIND_CXX_BOOL_LITERAL_EXPR {
            CursorKind::BoolLiteral(info.span)
        } else if info.kind_code == codes::KIND_UNARY_OPERATOR {
            CursorKind::UnaryOperator(info.spelling, info.span)
        } else if info.kind_code == codes::KIND_ARRAY_SUBSCRIPT_EXPR {
            CursorKind::ArraySubscription(info.spelling, info.span)
        } else if info.kind_code == codes::KIND_BINARY_OPERATOR {
            CursorKind::BinaryOperator(info.span)
        } else if info.kind_code == codes::KIND_COMPOUND_ASSIGN_OPERATOR {
            CursorKind::CompoundAssignOperator(info.spelling, info.span)
        } else if info.kind_code == codes::KIND_CONDITIONAL_OPERATOR {
            CursorKind::ConditionalOperator(info.spelling, info.span)
        } else if info.kind_code == codes::KIND_C_STYLE_CAST_EXPR {
            CursorKind::CStyleCast(info.spelling, info.span)
        } else if info.kind_code == codes::KIND_COMPOUND_LITERAL_EXPR {
            CursorKind::CompoundLiteralExpression(info.spelling, info.span)
        } else if info.kind_code == codes::KIND_INIT_LIST_EXPR {
            CursorKind::InitializerListExpression(info.spelling, info.span)
        } else if info.kind_code == codes::KIND_COMPOUND_STMT {
            CursorKind::CompoundStatement(info.span)
        } else if info.kind_code == codes::KIND_RETURN_STMT {
            CursorKind::ReturnStatement(info.span)
        } else if info.kind_code == codes::KIND_DECL_STMT {
            CursorKind::DeclarationStatement(info.span)
        } else if info.kind_code == codes::KIND_FOR_STMT {
            CursorKind::ForStatement(info.span)
        } else if info.kind_code == codes::KIND_CXX_FOR_RANGE_STMT {
            CursorKind::RangeBasedForStatement(info.span)
        } else if info.kind_code == codes::KIND_WHILE_STMT {
            CursorKind::WhileStatement(info.span)
        } else if info.kind_code == codes::KIND_DO_STMT {
            CursorKind::DoStatement(info.span)
        } else if info.kind_code == codes::KIND_SWITCH_STMT {
            CursorKind::SwitchStatement(info.span)
        } else if info.kind_code == codes::KIND_CASE_STMT {
            CursorKind::CaseStatement(info.span)
        } else if info.kind_code == codes::KIND_DEFAULT_STMT {
            CursorKind::DefaultStatement(info.span)
        } else if info.kind_code == codes::KIND_BREAK_STMT {
            CursorKind::BreakStatement(info.span)
        } else if info.kind_code == codes::KIND_CONTINUE_STMT {
            CursorKind::ContinueStatement(info.span)
        } else {
            CursorKind::NotSupported(info.spelling, info.span, info.kind_code)
        }
    }
}

} // verus!
