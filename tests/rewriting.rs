use mini_c::ast::expression::{Atom, BinOp, ExprTail, Expression};
use mini_c::ast::function::{Function, FunctionHeader};
use mini_c::ast::identifier::Identifier;
use mini_c::ast::program::Program;
use mini_c::ast::statement::{ConditionBody, IdentifierExpression, Statement};
use mini_c::ast::toplevel::TopLevel;
use mini_c::ast::types::{Type, TypeType};
use mini_c::codegen::full::CodeGenerator;
use mini_c::codegen::simple::IndentCodeGen;
use mini_c::mutating::mutator::Mutator;
use mini_c::mutating::semantics::MutateError;

type ExprFn = fn(Expression) -> Result<Expression, String>;
type StmtFn = fn(Statement) -> Result<Statement, String>;

fn plain_type(name: &str) -> Type {
    Type { typetype: TypeType::Simple, name: Identifier::Plain(name.to_string()), pointer_layers: 0 }
}

fn var(name: &str) -> Expression {
    Expression { atom: Atom::Identifier(Identifier::Plain(name.to_string())), tail: ExprTail::End }
}

fn num(v: i32) -> Expression {
    Expression { atom: Atom::Int(v), tail: ExprTail::End }
}

fn function(name: &str, body: Vec<Statement>) -> TopLevel {
    TopLevel::Function(Function {
        header: FunctionHeader { return_type: plain_type("int"), name: name.to_string(), params: vec![], is_extern: false },
        body,
    })
}

fn sample_program() -> Program {
    let sum = Expression {
        atom: Atom::Identifier(Identifier::Plain("a".to_string())),
        tail: ExprTail::BinaryOp { op: BinOp::Add, right: Box::new(var("b")), next: Box::new(ExprTail::End) },
    };
    Program {
        statements: vec![
            TopLevel::Import { name: "stdio.h".to_string(), is_lib: true },
            TopLevel::VarDeclaration { typ: plain_type("int"), name: "g".to_string(), right: Some(num(7)), modifier: vec![] },
            TopLevel::Module {
                name: "math".to_string(),
                body: vec![function("add", vec![Statement::Return(Some(sum))])],
            },
            function(
                "main",
                vec![
                    Statement::While(ConditionBody { condition: var("x"), body: vec![Statement::Break] }),
                    Statement::Return(Some(num(0))),
                ],
            ),
        ],
    }
}

fn rename_x(e: Expression) -> Result<Expression, String> {
    match e.atom {
        Atom::Identifier(Identifier::Plain(ref n)) if n == "x" => {
            Ok(Expression { atom: Atom::Identifier(Identifier::Plain("y".to_string())), tail: e.tail })
        },
        _ => Ok(e),
    }
}

fn reject_return(s: Statement) -> Result<Statement, String> {
    match s {
        Statement::Return(_) => Err("return is not allowed".to_string()),
        other => Ok(other),
    }
}

fn break_to_continue(s: Statement) -> Result<Statement, String> {
    match s {
        Statement::Break => Ok(Statement::Continue),
        other => Ok(other),
    }
}

fn continue_to_return(s: Statement) -> Result<Statement, String> {
    match s {
        Statement::Continue => Ok(Statement::Return(None)),
        other => Ok(other),
    }
}

#[test]
fn no_transformers_keeps_the_text() {
    let direct = sample_program().generate();
    let mut generator: CodeGenerator<ExprFn, StmtFn> = CodeGenerator::new();
    let rewritten = generator.code_gen(sample_program()).ok().unwrap();
    assert_eq!(rewritten, direct);
    assert_eq!(
        direct,
        "#include <stdio.h>\nint g = 7;\nint mod__math__add() {\n    return a+b;\n}\n\n\nint main() {\n    while (x) {\n        break;\n    }\n    return 0;\n}\n\n"
    );
}

#[test]
fn expression_transformer_reaches_nested_expressions() {
    let mut generator: CodeGenerator<ExprFn, StmtFn> = CodeGenerator::new();
    generator.add_expression_mutator(rename_x as ExprFn);
    let text = generator.code_gen(sample_program()).ok().unwrap();
    assert!(text.contains("while (y) {"));
    assert!(!text.contains("(x)"));
}

#[test]
fn statement_transformers_run_in_registration_order() {
    let mut first: Mutator<ExprFn, StmtFn> = Mutator::new();
    first.add_statement_mutator(break_to_continue as StmtFn);
    first.add_statement_mutator(continue_to_return as StmtFn);
    let out = first.mutate_statement(Statement::Break).ok().unwrap();
    assert_eq!(out.generate(0), "return;");

    let mut second: Mutator<ExprFn, StmtFn> = Mutator::new();
    second.add_statement_mutator(continue_to_return as StmtFn);
    second.add_statement_mutator(break_to_continue as StmtFn);
    let out = second.mutate_statement(Statement::Break).ok().unwrap();
    assert_eq!(out.generate(0), "continue;");
}

#[test]
fn statement_transformers_reach_nested_bodies() {
    let mut m: Mutator<ExprFn, StmtFn> = Mutator::new();
    m.add_statement_mutator(break_to_continue as StmtFn);
    let body = vec![Statement::While(ConditionBody { condition: var("x"), body: vec![Statement::Break] })];
    let out = m.mutate_body(body).ok().unwrap();
    assert_eq!(out[0].generate(0), "while (x) {\n    continue;\n}");
}

#[test]
fn failing_statement_transformer_aborts_code_gen() {
    let mut generator: CodeGenerator<ExprFn, StmtFn> = CodeGenerator::new();
    generator.add_statement_mutator(reject_return as StmtFn);
    match generator.code_gen(sample_program()) {
        Err(MutateError::Transformer(msg)) => assert_eq!(msg, "return is not allowed"),
        Err(MutateError::TooDeep) => panic!("unexpected depth failure"),
        Ok(_) => panic!("a failing transformer must abort the pipeline"),
    }
}

#[test]
fn declarations_pass_through_unchanged() {
    let m: Mutator<ExprFn, StmtFn> = Mutator::new();
    let p = Program { statements: vec![TopLevel::Import { name: "a.h".to_string(), is_lib: false }] };
    let out = m.mutate_program(p).ok().unwrap();
    assert_eq!(out.generate(), "#include \"a.h\"\n");
}

#[test]
fn deep_nesting_without_transformers_keeps_the_text() {
    let mut e = var("x");
    for _ in 0..600 {
        e = Expression { atom: Atom::Wrapped(Box::new(e)), tail: ExprTail::End };
    }
    let p = Program { statements: vec![function("deep", vec![Statement::Return(Some(e))])] };
    let direct = p.generate();
    let mut generator: CodeGenerator<ExprFn, StmtFn> = CodeGenerator::new();
    let rewritten = generator.code_gen(p).ok().unwrap();
    assert_eq!(rewritten, direct);
    assert!(direct.contains(&format!("return {}x{};", "(".repeat(600), ")".repeat(600))));
}

#[test]
fn identifiers_of_assignments_are_not_rewritten() {
    let mut m: Mutator<ExprFn, StmtFn> = Mutator::new();
    m.add_expression_mutator(rename_x as ExprFn);
    let s = Statement::VarAssign { identifier: IdentifierExpression::Pointer(var("x")), right: var("x") };
    let out = m.mutate_statement(s).ok().unwrap();
    assert_eq!(out.generate(0), "x = y;");
}

fn reject_break(s: Statement) -> Result<Statement, String> {
    match s {
        Statement::Break => Err("break is not allowed".to_string()),
        other => Ok(other),
    }
}

#[test]
fn nested_statement_failure_aborts_code_gen() {
    let mut generator: CodeGenerator<ExprFn, StmtFn> = CodeGenerator::new();
    generator.add_statement_mutator(reject_break as StmtFn);
    match generator.code_gen(sample_program()) {
        Err(MutateError::Transformer(msg)) => assert_eq!(msg, "break is not allowed"),
        _ => panic!("a failure inside a loop body must abort the pipeline"),
    }
}
