use mini_c::ast::enumm::{Enum, EnumEntry};
use mini_c::ast::expression::{Atom, BinOp, ExprTail, Expression, UnaryOp};
use mini_c::ast::function::{Function, FunctionHeader, Parameter};
use mini_c::ast::identifier::Identifier;
use mini_c::ast::program::Program;
use mini_c::ast::sstruct::{Struct, StructField, StructMember};
use mini_c::ast::statement::{CaseStatement, ConditionBody, IdentifierExpression, Statement};
use mini_c::ast::toplevel::TopLevel;
use mini_c::ast::typedef::{TypeDef, TypeDefInner};
use mini_c::ast::types::{Type, TypeType};
use mini_c::ast::union::Union;
use mini_c::codegen::simple::{IndentCodeGen, ModuleMemberCodeGen, PureCodeGen, SimpleCodeGen};

fn plain_type(name: &str) -> Type {
    Type { typetype: TypeType::Simple, name: Identifier::Plain(name.to_string()), pointer_layers: 0 }
}

fn atom_expr(atom: Atom) -> Expression {
    Expression { atom, tail: ExprTail::End }
}

fn var(name: &str) -> Expression {
    atom_expr(Atom::Identifier(Identifier::Plain(name.to_string())))
}

fn num(v: i32) -> Expression {
    atom_expr(Atom::Int(v))
}

fn binary(left: Expression, op: BinOp, right: Expression) -> Expression {
    Expression {
        atom: left.atom,
        tail: ExprTail::BinaryOp { op, right: Box::new(right), next: Box::new(ExprTail::End) },
    }
}

fn field(typ: &str, name: &str) -> StructField {
    StructField { typ: plain_type(typ), name: name.to_string() }
}

#[test]
fn literal_long_has_suffix() {
    assert_eq!(Atom::TrueLong(5).generate(), "5L");
}

#[test]
fn literal_float_has_suffix() {
    assert_eq!(Atom::Float(2.5f32.to_string()).generate(), "2.5f");
}

#[test]
fn literal_boolean_is_digit() {
    assert_eq!(Atom::Boolean(true).generate(), "1");
    assert_eq!(Atom::Boolean(false).generate(), "0");
}

#[test]
fn literal_short_is_cast() {
    assert_eq!(Atom::Short(3).generate(), "(short)3");
    assert_eq!(Atom::Short(-32768).generate(), "(short)-32768");
}

#[test]
fn literal_numbers_in_decimal() {
    assert_eq!(Atom::Int(0).generate(), "0");
    assert_eq!(Atom::Int(-42).generate(), "-42");
    assert_eq!(Atom::Int(2147483647).generate(), "2147483647");
    assert_eq!(Atom::TrueLong(i64::MIN).generate(), "-9223372036854775808L");
    assert_eq!(Atom::Double(0.125f64.to_string()).generate(), "0.125");
}

#[test]
fn literal_char_and_string_are_quoted() {
    assert_eq!(Atom::Char(b'a').generate(), "'a'");
    assert_eq!(Atom::String("hi\\n".to_string()).generate(), "\"hi\\n\"");
}

#[test]
fn atoms_wrap_their_expressions() {
    let cast = Atom::TypeCast { typ: plain_type("int"), value: Box::new(var("x")) };
    assert_eq!(cast.generate(), "(int)x");
    let neg = Atom::UnaryOperation { op: UnaryOp::Minus, value: Box::new(var("y")) };
    assert_eq!(neg.generate(), "-y");
    let size = Atom::SizeOf(Type {
        typetype: TypeType::Struct,
        name: Identifier::Plain("node".to_string()),
        pointer_layers: 2,
    });
    assert_eq!(size.generate(), "sizeof(struct node**)");
    let wrapped = Atom::Wrapped(Box::new(binary(var("a"), BinOp::Add, var("b"))));
    assert_eq!(wrapped.generate(), "(a+b)");
}

#[test]
fn tail_chain_folds_left_to_right() {
    let e = Expression {
        atom: Atom::Identifier(Identifier::Plain("f".to_string())),
        tail: ExprTail::Call {
            body: vec![num(1), var("x")],
            next: Box::new(ExprTail::Index {
                inner: Box::new(num(0)),
                next: Box::new(ExprTail::MemberAccess {
                    member: "m".to_string(),
                    next: Box::new(ExprTail::PointerAccess {
                        member: "p".to_string(),
                        next: Box::new(ExprTail::TernaryConditional {
                            second: Box::new(num(2)),
                            third: Box::new(num(3)),
                            next: Box::new(ExprTail::End),
                        }),
                    }),
                }),
            }),
        },
    };
    assert_eq!(e.generate(), "f(1, x)[0].m->p ? 2 : 3");
}

#[test]
fn module_qualified_identifier_is_mangled() {
    let id = Identifier::Module("math".to_string(), "pi".to_string());
    assert_eq!(id.generate(), "mod__math__pi");
}

#[test]
fn enum_entries_are_comma_separated() {
    let e = Enum {
        name: "color".to_string(),
        entries: vec![
            EnumEntry { name: "RED".to_string(), value: None },
            EnumEntry { name: "GREEN".to_string(), value: Some(-3) },
            EnumEntry { name: "BLUE".to_string(), value: Some(10) },
        ],
        is_anonymous: false,
    };
    assert_eq!(
        ModuleMemberCodeGen::generate(&e, &String::new()),
        "typedef enum color__enum {\n    RED,\n    GREEN = -3,\n    BLUE = 10\n} color;"
    );
    assert_eq!(e.generate_pure(0), "enum color {\n    RED,\n    GREEN = -3,\n    BLUE = 10\n}");
}

#[test]
fn empty_enum_has_empty_body() {
    let e = Enum { name: "none".to_string(), entries: vec![], is_anonymous: false };
    assert_eq!(e.generate_pure(1), "    enum none {\n    }");
}

#[test]
fn struct_with_nested_anonymous_union() {
    let inner = Struct {
        name: String::new(),
        members: vec![StructMember::Field(field("int", "i")), StructMember::Field(field("float", "f"))],
        is_anonymous: true,
        is_union: true,
    };
    let s = Struct {
        name: "value".to_string(),
        members: vec![StructMember::Field(field("int", "kind")), StructMember::AnonStruct(inner)],
        is_anonymous: false,
        is_union: false,
    };
    assert_eq!(
        ModuleMemberCodeGen::generate(&s, &"mod__m__".to_string()),
        "typedef struct value__struct {\n    int kind;\n    union {\n        int i;\n        float f;\n    };\n} mod__m__value;"
    );
}

#[test]
fn anonymous_struct_forced_to_pure_mode() {
    let s = Struct {
        name: String::new(),
        members: vec![StructMember::Field(field("int", "x"))],
        is_anonymous: true,
        is_union: false,
    };
    assert_eq!(ModuleMemberCodeGen::generate(&s, &"mod__m__".to_string()), s.generate_pure(0));
    assert_eq!(s.generate_pure(0), "struct {\n    int x;\n}");
}

#[test]
fn anonymous_union_and_enum_forced_to_pure_mode() {
    let u = Union { name: String::new(), fields: vec![field("int", "a")], is_anonymous: true };
    assert_eq!(ModuleMemberCodeGen::generate(&u, &"p_".to_string()), u.generate_pure(0));
    let e = Enum {
        name: String::new(),
        entries: vec![EnumEntry { name: "A".to_string(), value: None }],
        is_anonymous: true,
    };
    assert_eq!(ModuleMemberCodeGen::generate(&e, &"p_".to_string()), e.generate_pure(0));
    assert_eq!(e.generate_pure(0), "enum {\n    A\n}");
}

#[test]
fn union_member_mode() {
    let u = Union { name: "num".to_string(), fields: vec![field("int", "i"), field("long", "l")], is_anonymous: false };
    assert_eq!(
        ModuleMemberCodeGen::generate(&u, &String::new()),
        "typedef union num__union {\n    int i;\n    long l;\n} num;"
    );
    assert_eq!(u.generate_pure(1), "    union num {\n        int i;\n        long l;\n    }");
}

#[test]
fn typedef_of_type_and_struct() {
    let t = TypeDef {
        name: "handle".to_string(),
        typ: TypeDefInner::Type(Type {
            typetype: TypeType::Simple,
            name: Identifier::Plain("int".to_string()),
            pointer_layers: 1,
        }),
    };
    assert_eq!(t.generate(&String::new()), "typedef int* handle;");
    let s = TypeDef {
        name: "point".to_string(),
        typ: TypeDefInner::Struct(Struct {
            name: String::new(),
            members: vec![StructMember::Field(field("int", "x"))],
            is_anonymous: true,
            is_union: false,
        }),
    };
    assert_eq!(s.generate(&"mod__g__".to_string()), "typedef struct {\n    int x;\n} mod__g__point;");
}

#[test]
fn switch_with_two_cases_and_no_default() {
    let sw = Statement::Switch {
        atom: Atom::Identifier(Identifier::Plain("x".to_string())),
        cases: vec![
            CaseStatement { atom: Atom::Int(1), body: vec![Statement::Break] },
            CaseStatement { atom: Atom::Int(2), body: vec![Statement::Return(None)] },
        ],
        default: None,
    };
    let text = sw.generate(0);
    assert_eq!(text.matches("case ").count(), 2);
    assert_eq!(text.matches("default:").count(), 0);
    assert_eq!(text, "switch (x) {\n    case 1:\n        break;\n    case 2:\n        return;\n}\n");
}

#[test]
fn switch_default_comes_after_all_cases() {
    let sw = Statement::Switch {
        atom: Atom::Identifier(Identifier::Plain("x".to_string())),
        cases: vec![
            CaseStatement { atom: Atom::Int(1), body: vec![] },
            CaseStatement { atom: Atom::Int(2), body: vec![Statement::Break] },
        ],
        default: Some(vec![Statement::Continue]),
    };
    let text = sw.generate(1);
    let last_case = text.rfind("case ").unwrap();
    let default = text.find("default:").unwrap();
    assert!(default > last_case);
    assert_eq!(
        text,
        "    switch (x) {\n        case 1:\n        case 2:\n            break;\n        default:\n            continue;\n    }\n"
    );
}

#[test]
fn for_header_holds_headless_slots() {
    let init = Statement::VarDec { typ: plain_type("int"), name: "i".to_string(), right: Some(num(0)), modifier: vec![] };
    let increment = Statement::IncDec { identifier: IdentifierExpression::Standard("i".to_string()), is_inc: true };
    assert_eq!(init.generate(0), "int i = 0;");
    assert_eq!(init.generate_headless(), "int i = 0");
    assert_eq!(increment.generate_headless(), "i++");
    let f = Statement::For {
        init: Box::new(init),
        condition: binary(var("i"), BinOp::IsLT, num(10)),
        increment: Box::new(increment),
        body: vec![Statement::Expression(var("work"))],
    };
    assert_eq!(f.generate(1), "    for (int i = 0;i<10;i++) {\n        work;\n    }");
    assert!(!f.has_terminator());
}

#[test]
fn if_chain_and_loops_indent_bodies() {
    let s = Statement::If {
        base: ConditionBody { condition: var("a"), body: vec![Statement::Break] },
        elseifs: vec![ConditionBody { condition: var("b"), body: vec![Statement::Continue] }],
        tail: Some(vec![Statement::Return(Some(num(1)))]),
    };
    assert_eq!(
        s.generate(1),
        "    if (a) {\n        break;\n    }else if (b) {\n        continue;\n    }else {\n        return 1;\n    }"
    );
    let w = Statement::While(ConditionBody { condition: var("c"), body: vec![] });
    assert_eq!(w.generate(0), "while (c) {\n}");
    let d = Statement::DoWhile { condition: var("c"), body: vec![Statement::Break] };
    assert_eq!(d.generate(0), "do {\n    break;\n} while (c);");
}

#[test]
fn assignments_and_declarations() {
    let target = IdentifierExpression::Pointer(atom_expr(Atom::UnaryOperation {
        op: UnaryOp::Dereference,
        value: Box::new(var("p")),
    }));
    let assign = Statement::BinOpVarAssign { identifier: target, op: BinOp::LeftShift, right: num(2) };
    assert_eq!(assign.generate(0), "*p <<= 2;");
    let plain = Statement::VarAssign { identifier: IdentifierExpression::Standard("x".to_string()), right: num(1) };
    assert_eq!(plain.generate(2), "        x = 1;");
    let dec = Statement::VarDec {
        typ: plain_type("int"),
        name: "n".to_string(),
        right: None,
        modifier: vec!["static".to_string(), "const".to_string()],
    };
    assert_eq!(dec.generate(0), "static const int n;");
}

#[test]
fn function_and_header_generation() {
    let header = FunctionHeader {
        return_type: plain_type("int"),
        name: "add".to_string(),
        params: vec![
            Parameter { name: "a".to_string(), typ: plain_type("int") },
            Parameter { name: "b".to_string(), typ: plain_type("int") },
        ],
        is_extern: true,
    };
    assert_eq!(header.generate(&String::new()), "extern int add(int a, int b)");
    let f = Function {
        header: FunctionHeader { return_type: plain_type("void"), name: "run".to_string(), params: vec![], is_extern: false },
        body: vec![Statement::Return(None)],
    };
    assert_eq!(f.generate(&String::new()), "void run() {\n    return;\n}\n");
}

#[test]
fn module_member_names_are_mangled() {
    let add = Function {
        header: FunctionHeader { return_type: plain_type("int"), name: "add".to_string(), params: vec![], is_extern: false },
        body: vec![Statement::Return(Some(num(0)))],
    };
    let module = TopLevel::Module { name: "math".to_string(), body: vec![TopLevel::Function(add)] };
    let text = module.generate(&String::new());
    assert!(text.contains("int mod__math__add()"));
    assert_eq!(text, "int mod__math__add() {\n    return 0;\n}\n\n");
}

#[test]
fn nested_modules_accumulate_prefixes() {
    let global = TopLevel::VarDeclaration { typ: plain_type("int"), name: "x".to_string(), right: Some(num(1)), modifier: vec![] };
    let inner = TopLevel::Module { name: "inner".to_string(), body: vec![global] };
    let outer = TopLevel::Module { name: "outer".to_string(), body: vec![inner] };
    assert_eq!(outer.generate(&String::new()), "int mod__outer__mod__inner__x = 1;\n\n");
}

#[test]
fn imports_and_directives() {
    let lib = TopLevel::Import { name: "stdio.h".to_string(), is_lib: true };
    let file = TopLevel::Import { name: "util.h".to_string(), is_lib: false };
    let directive = TopLevel::PreprocessorDirective("define N 4".to_string());
    assert_eq!(lib.generate(&String::new()), "#include <stdio.h>");
    assert_eq!(file.generate(&String::new()), "#include \"util.h\"");
    assert_eq!(directive.generate(&String::new()), "#define N 4");
}

#[test]
fn program_items_keep_their_order() {
    let p = Program {
        statements: vec![
            TopLevel::Import { name: "a.h".to_string(), is_lib: false },
            TopLevel::PreprocessorDirective("pragma once".to_string()),
            TopLevel::Import { name: "b.h".to_string(), is_lib: true },
        ],
    };
    assert_eq!(p.generate(), "#include \"a.h\"\n#pragma once\n#include <b.h>\n");
}

#[test]
fn empty_program_gives_empty_text() {
    let p = Program { statements: vec![] };
    assert_eq!(p.generate(), "");
}
