use libclang_wrapper::cursor::AccessSpecifierType;
use libclang_wrapper::cursor::CodeSpan;
use libclang_wrapper::cursor::ConstructorType;
use libclang_wrapper::cursor::CursorInfo;
use libclang_wrapper::cursor::CursorKind;
use libclang_wrapper::cursor::CursorType;
use libclang_wrapper::cursor::Position;
use libclang_wrapper::cursor::Virtuality;
use libclang_wrapper::database::CompilationDatabase;
use libclang_wrapper::database::Parsed;
use libclang_wrapper::parse::AnalyzerReply;
use libclang_wrapper::parse::Source;
use libclang_wrapper::parse::UnitReport;
use libclang_wrapper::tree::Entry;
use libclang_wrapper::tree::RawNode;
use libclang_wrapper::tree::get_ast;

fn pos(file: &str, line: u32, col: u32) -> Position {
    Position { file_name: file.to_owned(), line, col }
}

fn span(file: &str, l1: u32, c1: u32, l2: u32, c2: u32) -> CodeSpan {
    CodeSpan { start_pos: pos(file, l1, c1), end_pos: pos(file, l2, c2) }
}

fn info(
    kind_code: i32,
    spelling: &str,
    sp: CodeSpan,
    type_code: i32,
    result_type_code: i32,
    access_code: i32,
) -> CursorInfo {
    CursorInfo {
        kind_code,
        spelling: spelling.to_owned(),
        span: sp,
        type_code,
        result_type_code,
        access_code,
        is_pure_virtual: false,
        is_virtual: false,
        is_static: false,
        is_copy_constructor: false,
        is_move_constructor: false,
        is_default_constructor: false,
        is_converting_constructor: false,
    }
}

fn node(i: CursorInfo, children: Vec<RawNode>) -> RawNode {
    RawNode { info: i, in_system_header: false, children }
}

// Raw kind codes as the analyzer reports them.
const FUNCTION_DECL: i32 = 8;
const PARM_DECL: i32 = 10;
const COMPOUND_STMT: i32 = 202;
const BINARY_OPERATOR: i32 = 114;
const DECL_REF_EXPR: i32 = 101;
const FLOATING_LITERAL: i32 = 107;
const RETURN_STMT: i32 = 214;
const NAMESPACE: i32 = 22;
const CLASS_DECL: i32 = 4;
const STRUCT_DECL: i32 = 2;
const FIELD_DECL: i32 = 6;
const ACCESS_SPECIFIER: i32 = 39;
const CONSTRUCTOR: i32 = 24;
const CXX_METHOD: i32 = 21;
const TYPE_REF: i32 = 43;

const FUNCTION_PROTO: i32 = 111;
const TYPE_INT: i32 = 17;
const TYPE_FLOAT: i32 = 21;
const TYPE_BOOL: i32 = 3;
const TYPE_VOID: i32 = 2;
const LVALUE_REFERENCE: i32 = 103;
const RVALUE_REFERENCE: i32 = 104;
const TYPE_INVALID: i32 = 0;

const ACCESS_NONE: i32 = 0;
const PUBLIC: i32 = 1;
const PROTECTED: i32 = 2;
const PRIVATE: i32 = 3;

/// The snapshot the analyzer reports for a header with `int add(int, int)`
/// and `float& function_with_param(float& k) { k = 1.0; return k; }`
/// projects to exactly the tree of those declarations.
#[test]
fn parse_single_function() {
    let h = "tests/header.h";
    let snapshot = vec![
        node(
            info(FUNCTION_DECL, "add", span(h, 4, 1, 4, 22), FUNCTION_PROTO, TYPE_INT, ACCESS_NONE),
            vec![
                node(
                    info(PARM_DECL, "a", span(h, 4, 9, 4, 14), TYPE_INT, TYPE_INVALID, ACCESS_NONE),
                    vec![],
                ),
                node(
                    info(PARM_DECL, "b", span(h, 4, 16, 4, 21), TYPE_INT, TYPE_INVALID, ACCESS_NONE),
                    vec![],
                ),
            ],
        ),
        node(
            info(
                FUNCTION_DECL,
                "function_with_param",
                span(h, 6, 1, 9, 2),
                FUNCTION_PROTO,
                LVALUE_REFERENCE,
                ACCESS_NONE,
            ),
            vec![
                node(
                    info(
                        PARM_DECL,
                        "k",
                        span(h, 6, 28, 6, 36),
                        LVALUE_REFERENCE,
                        TYPE_INVALID,
                        ACCESS_NONE,
                    ),
                    vec![],
                ),
                node(
                    info(
                        COMPOUND_STMT,
                        "",
                        span(h, 6, 38, 9, 2),
                        TYPE_INVALID,
                        TYPE_INVALID,
                        ACCESS_NONE,
                    ),
                    vec![
                        node(
                            info(
                                BINARY_OPERATOR,
                                "",
                                span(h, 7, 3, 7, 10),
                                TYPE_FLOAT,
                                TYPE_INVALID,
                                ACCESS_NONE,
                            ),
                            vec![
                                node(
                                    info(
                                        DECL_REF_EXPR,
                                        "k",
                                        span(h, 7, 3, 7, 4),
                                        LVALUE_REFERENCE,
                                        TYPE_INVALID,
                                        ACCESS_NONE,
                                    ),
                                    vec![],
                                ),
                                node(
                                    info(
                                        FLOATING_LITERAL,
                                        "",
                                        span(h, 7, 7, 7, 10),
                                        TYPE_FLOAT,
                                        TYPE_INVALID,
                                        ACCESS_NONE,
                                    ),
                                    vec![],
                                ),
                            ],
                        ),
                        node(
                            info(
                                RETURN_STMT,
                                "",
                                span(h, 8, 3, 8, 11),
                                TYPE_INVALID,
                                TYPE_INVALID,
                                ACCESS_NONE,
                            ),
                            vec![node(
                                info(
                                    DECL_REF_EXPR,
                                    "k",
                                    span(h, 8, 10, 8, 11),
                                    LVALUE_REFERENCE,
                                    TYPE_INVALID,
                                    ACCESS_NONE,
                                ),
                                vec![],
                            )],
                        ),
                    ],
                ),
            ],
        ),
    ];
    let ast = get_ast(&snapshot);
    assert_eq!(
        ast,
        Entry {
            current_kind: CursorKind::Root,
            children: vec![
                Entry {
                    current_kind: CursorKind::Function {
                        spelling: "add".to_owned(),
                        code_span: span(h, 4, 1, 4, 22),
                        cur_type: CursorType::FunctionProto,
                        return_type: CursorType::Int,
                    },
                    children: vec![
                        Entry {
                            current_kind: CursorKind::Parameter(
                                "a".to_owned(),
                                span(h, 4, 9, 4, 14),
                                CursorType::Int,
                            ),
                            children: vec![],
                        },
                        Entry {
                            current_kind: CursorKind::Parameter(
                                "b".to_owned(),
                                span(h, 4, 16, 4, 21),
                                CursorType::Int,
                            ),
                            children: vec![],
                        },
                    ],
                },
                Entry {
                    current_kind: CursorKind::Function {
                        spelling: "function_with_param".to_owned(),
                        code_span: span(h, 6, 1, 9, 2),
                        cur_type: CursorType::FunctionProto,
                        return_type: CursorType::LValueReference,
                    },
                    children: vec![
                        Entry {
                            current_kind: CursorKind::Parameter(
                                "k".to_owned(),
                                span(h, 6, 28, 6, 36),
                                CursorType::LValueReference,
                            ),
                            children: vec![],
                        },
                        Entry {
                            current_kind: CursorKind::CompoundStatement(span(h, 6, 38, 9, 2)),
                            children: vec![
                                Entry {
                                    current_kind: CursorKind::BinaryOperator(span(h, 7, 3, 7, 10)),
                                    children: vec![
                                        Entry {
                                            current_kind: CursorKind::DeclarationReferenceExpression(
                                                "k".to_owned(),
                                                span(h, 7, 3, 7, 4),
                                            ),
                                            children: vec![],
                                        },
                                        Entry {
                                            current_kind: CursorKind::FloatLiteral(span(
                                                h, 7, 7, 7, 10,
                                            )),
                                            children: vec![],
                                        },
                                    ],
                                },
                                Entry {
                                    current_kind: CursorKind::ReturnStatement(span(h, 8, 3, 8, 11)),
                                    children: vec![Entry {
                                        current_kind: CursorKind::DeclarationReferenceExpression(
                                            "k".to_owned(),
                                            span(h, 8, 10, 8, 11),
                                        ),
                                        children: vec![],
                                    }],
                                },
                            ],
                        },
                    ],
                },
            ],
        }
    );
}

/// The snapshot of a namespace holding a class with fields, access
/// specifiers, three constructors, a pure-virtual operator and a plain
/// method projects to exactly that member sequence.
#[test]
fn parse_class_in_namespace() {
    let h = "tests/class.h";
    let cls = "class my_namespace::MyTestClass";
    let mut default_ctor = info(
        CONSTRUCTOR,
        "MyTestClass",
        span(h, 11, 3, 11, 16),
        FUNCTION_PROTO,
        TYPE_VOID,
        PUBLIC,
    );
    default_ctor.is_default_constructor = true;
    let mut copy_ctor = info(
        CONSTRUCTOR,
        "MyTestClass",
        span(h, 12, 3, 12, 35),
        FUNCTION_PROTO,
        TYPE_VOID,
        PUBLIC,
    );
    copy_ctor.is_copy_constructor = true;
    copy_ctor.is_converting_constructor = true;
    let mut assign = info(
        CXX_METHOD,
        "operator=",
        span(h, 13, 3, 13, 58),
        FUNCTION_PROTO,
        LVALUE_REFERENCE,
        PUBLIC,
    );
    assign.is_pure_virtual = true;
    assign.is_virtual = true;
    let mut move_ctor = info(
        CONSTRUCTOR,
        "MyTestClass",
        span(h, 18, 3, 18, 30),
        FUNCTION_PROTO,
        TYPE_VOID,
        PROTECTED,
    );
    move_ctor.is_move_constructor = true;
    let snapshot = vec![node(
        info(
            NAMESPACE,
            "my_namespace",
            span(h, 4, 1, 20, 2),
            TYPE_INVALID,
            TYPE_INVALID,
            ACCESS_NONE,
        ),
        vec![node(
            info(
                CLASS_DECL,
                "MyTestClass",
                span(h, 5, 1, 19, 2),
                105,
                TYPE_INVALID,
                ACCESS_NONE,
            ),
            vec![
                node(
                    info(
                        STRUCT_DECL,
                        "PrivateStruct",
                        span(h, 6, 3, 6, 26),
                        105,
                        TYPE_INVALID,
                        PRIVATE,
                    ),
                    vec![],
                ),
                node(
                    info(FIELD_DECL, "field", span(h, 7, 3, 7, 12), TYPE_INT, TYPE_INVALID, PRIVATE),
                    vec![],
                ),
                node(
                    info(
                        ACCESS_SPECIFIER,
                        "",
                        span(h, 9, 1, 9, 8),
                        TYPE_INVALID,
                        TYPE_INVALID,
                        PUBLIC,
                    ),
                    vec![],
                ),
                node(
                    info(
                        FIELD_DECL,
                        "field1",
                        span(h, 10, 3, 10, 15),
                        TYPE_FLOAT,
                        TYPE_INVALID,
                        PUBLIC,
                    ),
                    vec![],
                ),
                node(default_ctor, vec![]),
                node(
                    copy_ctor,
                    vec![node(
                        info(
                            PARM_DECL,
                            "",
                            span(h, 12, 15, 12, 34),
                            LVALUE_REFERENCE,
                            TYPE_INVALID,
                            ACCESS_NONE,
                        ),
                        vec![node(
                            info(
                                TYPE_REF,
                                cls,
                                span(h, 12, 21, 12, 32),
                                105,
                                TYPE_INVALID,
                                ACCESS_NONE,
                            ),
                            vec![],
                        )],
                    )],
                ),
                node(
                    assign,
                    vec![
                        node(
                            info(
                                TYPE_REF,
                                cls,
                                span(h, 13, 11, 13, 22),
                                105,
                                TYPE_INVALID,
                                ACCESS_NONE,
                            ),
                            vec![],
                        ),
                        node(
                            info(
                                PARM_DECL,
                                "",
                                span(h, 13, 34, 13, 53),
                                LVALUE_REFERENCE,
                                TYPE_INVALID,
                                ACCESS_NONE,
                            ),
                            vec![node(
                                info(
                                    TYPE_REF,
                                    cls,
                                    span(h, 13, 40, 13, 51),
                                    105,
                                    TYPE_INVALID,
                                    ACCESS_NONE,
                                ),
                                vec![],
                            )],
                        ),
                    ],
                ),
                node(
                    info(
                        ACCESS_SPECIFIER,
                        "",
                        span(h, 15, 1, 15, 11),
                        TYPE_INVALID,
                        TYPE_INVALID,
                        PROTECTED,
                    ),
                    vec![],
                ),
                node(
                    info(
                        FIELD_DECL,
                        "field3",
                        span(h, 16, 3, 16, 14),
                        TYPE_BOOL,
                        TYPE_INVALID,
                        PROTECTED,
                    ),
                    vec![],
                ),
                node(
                    info(
                        CXX_METHOD,
                        "test_method",
                        span(h, 17, 3, 17, 21),
                        FUNCTION_PROTO,
                        TYPE_VOID,
                        PROTECTED,
                    ),
                    vec![],
                ),
                node(
                    move_ctor,
                    vec![node(
                        info(
                            PARM_DECL,
                            "",
                            span(h, 18, 15, 18, 29),
                            RVALUE_REFERENCE,
                            TYPE_INVALID,
                            ACCESS_NONE,
                        ),
                        vec![node(
                            info(
                                TYPE_REF,
                                cls,
                                span(h, 18, 15, 18, 26),
                                105,
                                TYPE_INVALID,
                                ACCESS_NONE,
                            ),
                            vec![],
                        )],
                    )],
                ),
            ],
        )],
    )];
    let ast = get_ast(&snapshot);
    let expected = Entry {
        current_kind: CursorKind::Root,
        children: vec![Entry {
            current_kind: CursorKind::Namespace("my_namespace".to_owned(), span(h, 4, 1, 20, 2)),
            children: vec![Entry {
                current_kind: CursorKind::Class(
                    "MyTestClass".to_owned(),
                    span(h, 5, 1, 19, 2),
                    AccessSpecifierType::Invalid,
                ),
                children: vec![
                    Entry {
                        current_kind: CursorKind::Struct(
                            "PrivateStruct".to_owned(),
                            span(h, 6, 3, 6, 26),
                            AccessSpecifierType::Private,
                        ),
                        children: vec![],
                    },
                    Entry {
                        current_kind: CursorKind::Field(
                            "field".to_owned(),
                            span(h, 7, 3, 7, 12),
                            AccessSpecifierType::Private,
                            CursorType::Int,
                        ),
                        children: vec![],
                    },
                    Entry {
                        current_kind: CursorKind::AccessSpecifier(
                            span(h, 9, 1, 9, 8),
                            AccessSpecifierType::Public,
                        ),
                        children: vec![],
                    },
                    Entry {
                        current_kind: CursorKind::Field(
                            "field1".to_owned(),
                            span(h, 10, 3, 10, 15),
                            AccessSpecifierType::Public,
                            CursorType::Float,
                        ),
                        children: vec![],
                    },
                    Entry {
                        current_kind: CursorKind::Constructor(
                            "MyTestClass".to_owned(),
                            span(h, 11, 3, 11, 16),
                            ConstructorType::Default,
                            AccessSpecifierType::Public,
                        ),
                        children: vec![],
                    },
                    Entry {
                        current_kind: CursorKind::Constructor(
                            "MyTestClass".to_owned(),
                            span(h, 12, 3, 12, 35),
                            ConstructorType::Copy,
                            AccessSpecifierType::Public,
                        ),
                        children: vec![Entry {
                            current_kind: CursorKind::Parameter(
                                "".to_owned(),
                                span(h, 12, 15, 12, 34),
                                CursorType::LValueReference,
                            ),
                            children: vec![Entry {
                                current_kind: CursorKind::TypeReference(
                                    cls.to_owned(),
                                    span(h, 12, 21, 12, 32),
                                ),
                                children: vec![],
                            }],
                        }],
                    },
                    Entry {
                        current_kind: CursorKind::Method {
                            spelling: "operator=".to_owned(),
                            code_span: span(h, 13, 3, 13, 58),
                            access_specifier: AccessSpecifierType::Public,
                            cur_type: CursorType::FunctionProto,
                            virtuality: Virtuality::PureVirtual,
                            return_type: CursorType::LValueReference,
                        },
                        children: vec![
                            Entry {
                                current_kind: CursorKind::TypeReference(
                                    cls.to_owned(),
                                    span(h, 13, 11, 13, 22),
                                ),
                                children: vec![],
                            },
                            Entry {
                                current_kind: CursorKind::Parameter(
                                    "".to_owned(),
                                    span(h, 13, 34, 13, 53),
                                    CursorType::LValueReference,
                                ),
                                children: vec![Entry {
                                    current_kind: CursorKind::TypeReference(
                                        cls.to_owned(),
                                        span(h, 13, 40, 13, 51),
                                    ),
                                    children: vec![],
                                }],
                            },
                        ],
                    },
                    Entry {
                        current_kind: CursorKind::AccessSpecifier(
                            span(h, 15, 1, 15, 11),
                            AccessSpecifierType::Protected,
                        ),
                        children: vec![],
                    },
                    Entry {
                        current_kind: CursorKind::Field(
                            "field3".to_owned(),
                            span(h, 16, 3, 16, 14),
                            AccessSpecifierType::Protected,
                            CursorType::Bool,
                        ),
                        children: vec![],
                    },
                    Entry {
                        current_kind: CursorKind::Method {
                            spelling: "test_method".to_owned(),
                            code_span: span(h, 17, 3, 17, 21),
                            access_specifier: AccessSpecifierType::Protected,
                            cur_type: CursorType::FunctionProto,
                            virtuality: Virtuality::NonVirtual,
                            return_type: CursorType::Void,
                        },
                        children: vec![],
                    },
                    Entry {
                        current_kind: CursorKind::Constructor(
                            "MyTestClass".to_owned(),
                            span(h, 18, 3, 18, 30),
                            ConstructorType::Move,
                            AccessSpecifierType::Protected,
                        ),
                        children: vec![Entry {
                            current_kind: CursorKind::Parameter(
                                "".to_owned(),
                                span(h, 18, 15, 18, 29),
                                CursorType::RValueReference,
                            ),
                            children: vec![Entry {
                                current_kind: CursorKind::TypeReference(
                                    cls.to_owned(),
                                    span(h, 18, 15, 18, 26),
                                ),
                                children: vec![],
                            }],
                        }],
                    },
                ],
            }],
        }],
    };
    assert_eq!(&ast, &expected);
}

const TEST_COMPILE_COMMANDS: &str = r#"[
  {
    "directory": "/home/user/project",
    "command": "/usr/bin/clang++-10 -fno-limit-debug-info -fPIC -x c++ -std=c++14",
    "file": "./tests/class.h"
  },
  {
    "directory": "/home/user/project",
    "command": "/usr/bin/clang++-10 -fno-limit-debug-info -fPIC -std=gnu++14",
    "file": "./tests/header.h"
  }
]"#;

#[test]
fn test_compilation_database() {
    let compile_database = CompilationDatabase::new(TEST_COMPILE_COMMANDS).unwrap();
    assert_eq!(
        compile_database.commands,
        vec![
            Parsed {
                args: vec![
                    "/usr/bin/clang++-10".to_owned(),
                    "-fno-limit-debug-info".to_owned(),
                    "-fPIC".to_owned(),
                    "-x".to_owned(),
                    "c++".to_owned(),
                    "-std=c++14".to_owned()
                ],
                file: "./tests/class.h".to_owned()
            },
            Parsed {
                args: vec![
                    "/usr/bin/clang++-10".to_owned(),
                    "-fno-limit-debug-info".to_owned(),
                    "-fPIC".to_owned(),
                    "-std=gnu++14".to_owned()
                ],
                file: "./tests/header.h".to_owned()
            }
        ]
    );
}

#[test]
fn test_parsing_with_compilation_database() {
    let compile_database = CompilationDatabase::new(TEST_COMPILE_COMMANDS).unwrap();
    let reports: Vec<UnitReport> = compile_database
        .commands
        .iter()
        .map(|command| UnitReport {
            file: command.file.clone(),
            reply: AnalyzerReply::ParseSucceeded(vec![]),
        })
        .collect();
    let source = Source::from_compilation_database(compile_database, reports).unwrap();
    let (success, errors): (Vec<_>, Vec<_>) = source
        .translation_units
        .into_iter()
        .partition(Result::is_ok);
    assert_eq!(success.len(), 2);
    assert_eq!(errors.len(), 0);
}
