//! Raw code values of the analyzer's C interface.
//!
//! The analyzer reports cursor kinds, type kinds, access specifiers and
//! parse results as plain integers; these constants give those integers
//! names. The test suite checks each value against the constant of the
//! same meaning in the `clang_sys` crate.

use vstd::prelude::*;

verus! {

// Cursor kind codes (declarations).
pub const KIND_UNEXPOSED_DECL: i32 = 1;
pub const KIND_STRUCT_DECL: i32 = 2;
pub const KIND_UNION_DECL: i32 = 3;
pub const KIND_CLASS_DECL: i32 = 4;
pub const KIND_ENUM_DECL: i32 = 5;
pub const KIND_FIELD_DECL: i32 = 6;
pub const KIND_ENUM_CONSTANT_DECL: i32 = 7;
pub const KIND_FUNCTION_DECL: i32 = 8;
pub const KIND_VAR_DECL: i32 = 9;
pub const KIND_PARM_DECL: i32 = 10;
pub const KIND_TYPEDEF_DECL: i32 = 20;
pub const KIND_CXX_METHOD: i32 = 21;
pub const KIND_NAMESPACE: i32 = 22;
pub const KIND_LINKAGE_SPEC: i32 = 23;
pub const KIND_CONSTRUCTOR: i32 = 24;
pub const KIND_DESTRUCTOR: i32 = 25;
pub const KIND_CONVERSION_FUNCTION: i32 = 26;
pub const KIND_TEMPLATE_TYPE_PARAMETER: i32 = 27;
pub const KIND_NON_TYPE_TEMPLATE_PARAMETER: i32 = 28;
pub const KIND_TEMPLATE_TEMPLATE_PARAMETER: i32 = 29;
pub const KIND_FUNCTION_TEMPLATE: i32 = 30;
pub const KIND_CLASS_TEMPLATE: i32 = 31;
pub const KIND_CLASS_TEMPLATE_PARTIAL_SPECIALIZATION: i32 = 32;
pub const KIND_NAMESPACE_ALIAS: i32 = 33;
pub const KIND_USING_DIRECTIVE: i32 = 34;
pub const KIND_TYPE_ALIAS_DECL: i32 = 36;
pub const KIND_CXX_ACCESS_SPECIFIER: i32 = 39;

// Cursor kind codes (references).
pub const KIND_TYPE_REF: i32 = 43;
pub const KIND_CXX_BASE_SPECIFIER: i32 = 44;
pub const KIND_TEMPLATE_REF: i32 = 45;
pub const KIND_NAMESPACE_REF: i32 = 46;
pub const KIND_MEMBER_REF: i32 = 47;
pub const KIND_LABEL_REF: i32 = 48;
pub const KIND_OVERLOADED_DECL_REF: i32 = 49;
pub const KIND_VARIABLE_REF: i32 = 50;

// Cursor kind codes (expressions).
pub const KIND_UNEXPOSED_EXPR: i32 = 100;
pub const KIND_DECL_REF_EXPR: i32 = 101;
pub const KIND_MEMBER_REF_EXPR: i32 = 102;
pub const KIND_CALL_EXPR: i32 = 103;
pub const KIND_BLOCK_EXPR: i32 = 105;
pub const KIND_INTEGER_LITERAL: i32 = 106;
pub const KIND_FLOATING_LITERAL: i32 = 107;
pub const KIND_IMAGINARY_LITERAL: i32 = 108;
pub const KIND_STRING_LITERAL: i32 = 109;
pub const KIND_CHARACTER_LITERAL: i32 = 110;
pub const KIND_UNARY_OPERATOR: i32 = 112;
pub const KIND_ARRAY_SUBSCRIPT_EXPR: i32 = 113;
pub const KIND_BINARY_OPERATOR: i32 = 114;
pub const KIND_COMPOUND_ASSIGN_OPERATOR: i32 = 115;
pub const KIND_CONDITIONAL_OPERATOR: i32 = 116;
pub const KIND_C_STYLE_CAST_EXPR: i32 = 117;
pub const KIND_COMPOUND_LITERAL_EXPR: i32 = 118;
pub const KIND_INIT_LIST_EXPR: i32 = 119;
pub const KIND_CXX_BOOL_LITERAL_EXPR: i32 = 130;

// Cursor kind codes (statements).
pub const KIND_COMPOUND_STMT: i32 = 202;
pub const KIND_CASE_STMT: i32 = 203;
pub const KIND_DEFAULT_STMT: i32 = 204;
pub const KIND_SWITCH_STMT: i32 = 206;
pub const KIND_WHILE_STMT: i32 = 207;
pub const KIND_DO_STMT: i32 = 208;
pub const KIND_FOR_STMT: i32 = 209;
pub const KIND_CONTINUE_STMT: i32 = 212;
pub const KIND_BREAK_STMT: i32 = 213;
pub const KIND_RETURN_STMT: i32 = 214;
pub const KIND_CXX_FOR_RANGE_STMT: i32 = 225;
pub const KIND_DECL_STMT: i32 = 231;

// Type kind codes.
pub const TYPE_UNEXPOSED: i32 = 1;
pub const TYPE_VOID: i32 = 2;
pub const TYPE_BOOL: i32 = 3;
pub const TYPE_CHAR_U: i32 = 4;
pub const TYPE_UCHAR: i32 = 5;
pub const TYPE_CHAR16: i32 = 6;
pub const TYPE_CHAR32: i32 = 7;
pub const TYPE_USHORT: i32 = 8;
pub const TYPE_UINT: i32 = 9;
pub const TYPE_ULONG: i32 = 10;
pub const TYPE_ULONGLONG: i32 = 11;
pub const TYPE_UINT128: i32 = 12;
pub const TYPE_CHAR_S: i32 = 13;
pub const TYPE_SCHAR: i32 = 14;
pub const TYPE_WCHAR: i32 = 15;
pub const TYPE_SHORT: i32 = 16;
pub const TYPE_INT: i32 = 17;
pub const TYPE_LONG: i32 = 18;
pub const TYPE_LONGLONG: i32 = 19;
pub const TYPE_INT128: i32 = 20;
pub const TYPE_FLOAT: i32 = 21;
pub const TYPE_DOUBLE: i32 = 22;
pub const TYPE_LONG_DOUBLE: i32 = 23;
pub const TYPE_NULLPTR: i32 = 24;
pub const TYPE_OVERLOAD: i32 = 25;
pub const TYPE_DEPENDENT: i32 = 26;
pub const TYPE_FLOAT128: i32 = 30;
pub const TYPE_HALF: i32 = 31;
pub const TYPE_FLOAT16: i32 = 32;
pub const TYPE_SHORT_ACCUM: i32 = 33;
pub const TYPE_ACCUM: i32 = 34;
pub const TYPE_LONG_ACCUM: i32 = 35;
pub const TYPE_USHORT_ACCUM: i32 = 36;
pub const TYPE_UACCUM: i32 = 37;
pub const TYPE_ULONG_ACCUM: i32 = 38;
pub const TYPE_COMPLEX: i32 = 100;
pub const TYPE_POINTER: i32 = 101;
pub const TYPE_BLOCK_POINTER: i32 = 102;
pub const TYPE_LVALUE_REFERENCE: i32 = 103;
pub const TYPE_RVALUE_REFERENCE: i32 = 104;
pub const TYPE_RECORD: i32 = 105;
pub const TYPE_ENUM: i32 = 106;
pub const TYPE_TYPEDEF: i32 = 107;
pub const TYPE_FUNCTION_NO_PROTO: i32 = 110;
pub const TYPE_FUNCTION_PROTO: i32 = 111;
pub const TYPE_CONSTANT_ARRAY: i32 = 112;
pub const TYPE_VECTOR: i32 = 113;
pub const TYPE_INCOMPLETE_ARRAY: i32 = 114;
pub const TYPE_VARIABLE_ARRAY: i32 = 115;
pub const TYPE_DEPENDENT_SIZED_ARRAY: i32 = 116;
pub const TYPE_MEMBER_POINTER: i32 = 117;
pub const TYPE_AUTO: i32 = 118;
pub const TYPE_ELABORATED: i32 = 119;
pub const TYPE_PIPE: i32 = 120;
pub const TYPE_ATTRIBUTED: i32 = 163;
pub const TYPE_INVALID: i32 = 0;

// Access specifier codes.
pub const ACCESS_INVALID: i32 = 0;
pub const ACCESS_PUBLIC: i32 = 1;
pub const ACCESS_PROTECTED: i32 = 2;
pub const ACCESS_PRIVATE: i32 = 3;

// Parse result codes.
pub const RESULT_SUCCESS: i32 = 0;
pub const RESULT_FAILURE: i32 = 1;
pub const RESULT_CRASHED: i32 = 2;
pub const RESULT_INVALID_ARGUMENTS: i32 = 3;
pub const RESULT_AST_READ_ERROR: i32 = 4;

// Translation-unit option flags.
pub const OPTION_NONE: i32 = 0;
pub const OPTION_DETAILED_PREPROCESSING_RECORD: i32 = 1;
pub const OPTION_INCOMPLETE: i32 = 2;
pub const OPTION_PRECOMPILED_PREAMBLE: i32 = 4;
pub const OPTION_CACHE_COMPLETION_RESULTS: i32 = 8;
pub const OPTION_FOR_SERIALIZATION: i32 = 16;
pub const OPTION_CHAINED_PHC: i32 = 32;
pub const OPTION_SKIP_FUNCTION_BODIES: i32 = 64;
pub const OPTION_INCLUDE_BRIEF_COMMENTS_IN_CODE_COMPLETION: i32 = 128;

} // verus!
