use vstd::prelude::*;

use crate::ast::expression::{Atom, ExprTail, Expression};
use crate::ast::program::Program;
use crate::ast::statement::{CaseStatement, ConditionBody, Statement};
use crate::ast::toplevel::TopLevel;

verus! {

/// Why a rewrite failed.
pub enum MutateError {
    /// A registered transformer failed, with this message.
    Transformer(String),
    /// The walk went deeper than `MAX_REWRITE_DEPTH` nested expressions and
    /// statements. That bound is the largest count a `usize` holds, so no
    /// tree that fits in memory reaches it; it bounds the walk only so that
    /// the walk provably ends whatever the transformers return.
    TooDeep,
}

/// How many levels of nested expressions and statements a rewrite may
/// descend: as many as a `usize` counts, a machine bound that no real input
/// reaches.
pub const MAX_REWRITE_DEPTH: usize = usize::MAX;

/// The first failure of two steps taken in order.
pub open spec fn first_failure(first: Option<MutateError>, second: Option<MutateError>) -> Option<MutateError> {
    if first is Some {
        first
    } else {
        second
    }
}

/// A transformer is a pure function: it accepts every node and gives one
/// result for each.
pub open spec fn is_pure_expr_transformer<FE: Fn(Expression) -> Result<Expression, String>>(f: FE) -> bool {
    &&& forall|e: Expression| call_requires(f, (e,))
    &&& forall|e: Expression, r1: Result<Expression, String>, r2: Result<Expression, String>|
        call_ensures(f, (e,), r1) && call_ensures(f, (e,), r2) ==> r1 == r2
}

/// A transformer is a pure function: it accepts every node and gives one
/// result for each.
pub open spec fn is_pure_stmt_transformer<FS: Fn(Statement) -> Result<Statement, String>>(f: FS) -> bool {
    &&& forall|s: Statement| call_requires(f, (s,))
    &&& forall|s: Statement, r1: Result<Statement, String>, r2: Result<Statement, String>|
        call_ensures(f, (s,), r1) && call_ensures(f, (s,), r2) ==> r1 == r2
}

/// What a pure transformer gives for `e`.
pub open spec fn expr_step<FE: Fn(Expression) -> Result<Expression, String>>(f: FE, e: Expression) -> Result<Expression, String> {
    choose|r: Result<Expression, String>| call_ensures(f, (e,), r)
}

/// What a pure transformer gives for `s`.
pub open spec fn stmt_step<FS: Fn(Statement) -> Result<Statement, String>>(f: FS, s: Statement) -> Result<Statement, String> {
    choose|r: Result<Statement, String>| call_ensures(f, (s,), r)
}

/// The expression after each transformer of `ef` ran on it in order; the
/// first failure ends the chain.
pub open spec fn apply_expr_transformers<FE: Fn(Expression) -> Result<Expression, String>>(
    ef: Seq<FE>,
    e: Expression,
) -> Result<Expression, String>
    decreases ef.len(),
{
    if ef.len() == 0 {
        Ok(e)
    } else {
        match apply_expr_transformers(ef.drop_last(), e) {
            Ok(x) => expr_step(ef.last(), x),
            Err(m) => Err(m),
        }
    }
}

/// The statement after each transformer of `sf` ran on it in order; the
/// first failure ends the chain.
pub open spec fn apply_stmt_transformers<FS: Fn(Statement) -> Result<Statement, String>>(
    sf: Seq<FS>,
    s: Statement,
) -> Result<Statement, String>
    decreases sf.len(),
{
    if sf.len() == 0 {
        Ok(s)
    } else {
        match apply_stmt_transformers(sf.drop_last(), s) {
            Ok(x) => stmt_step(sf.last(), x),
            Err(m) => Err(m),
        }
    }
}

// Failure: which error, if any, the rewrite of a node ends with. Each node
// first goes through the transformers of its kind, then its children are
// rewritten from left to right; the first failure wins.

pub open spec fn expr_outcome<FE: Fn(Expression) -> Result<Expression, String>>(
    ef: Seq<FE>,
    e: Expression,
    fuel: nat,
) -> Option<MutateError>
    decreases fuel, e,
{
    if fuel == 0 {
        Some(MutateError::TooDeep)
    } else {
        match apply_expr_transformers(ef, e) {
            Err(m) => Some(MutateError::Transformer(m)),
            Ok(e1) => first_failure(
                atom_outcome(ef, e1.atom, (fuel - 1) as nat),
                tail_outcome(ef, e1.tail, (fuel - 1) as nat),
            ),
        }
    }
}

pub open spec fn atom_outcome<FE: Fn(Expression) -> Result<Expression, String>>(
    ef: Seq<FE>,
    a: Atom,
    fuel: nat,
) -> Option<MutateError>
    decreases fuel, a,
{
    match a {
        Atom::TypeCast { typ, value } => expr_outcome(ef, *value, fuel),
        Atom::UnaryOperation { op, value } => expr_outcome(ef, *value, fuel),
        Atom::Wrapped(value) => expr_outcome(ef, *value, fuel),
        _ => None,
    }
}

pub open spec fn tail_outcome<FE: Fn(Expression) -> Result<Expression, String>>(
    ef: Seq<FE>,
    t: ExprTail,
    fuel: nat,
) -> Option<MutateError>
    decreases fuel, t,
{
    match t {
        ExprTail::End => None,
        ExprTail::Call { body, next } => first_failure(args_outcome(ef, body@, fuel), tail_outcome(ef, *next, fuel)),
        ExprTail::BinaryOp { op, right, next } => first_failure(
            expr_outcome(ef, *right, fuel),
            tail_outcome(ef, *next, fuel),
        ),
        ExprTail::MemberAccess { member, next } => tail_outcome(ef, *next, fuel),
        ExprTail::PointerAccess { member, next } => tail_outcome(ef, *next, fuel),
        ExprTail::Index { inner, next } => first_failure(expr_outcome(ef, *inner, fuel), tail_outcome(ef, *next, fuel)),
        ExprTail::TernaryConditional { second, third, next } => first_failure(
            expr_outcome(ef, *second, fuel),
            first_failure(expr_outcome(ef, *third, fuel), tail_outcome(ef, *next, fuel)),
        ),
    }
}

pub open spec fn args_outcome<FE: Fn(Expression) -> Result<Expression, String>>(
    ef: Seq<FE>,
    args: Seq<Expression>,
    fuel: nat,
) -> Option<MutateError>
    decreases fuel, args,
{
    if args.len() == 0 {
        None
    } else {
        first_failure(args_outcome(ef, args.drop_last(), fuel), expr_outcome(ef, args.last(), fuel))
    }
}

pub open spec fn opt_expr_outcome<FE: Fn(Expression) -> Result<Expression, String>>(
    ef: Seq<FE>,
    e: Option<Expression>,
    fuel: nat,
) -> Option<MutateError> {
    match e {
        Some(x) => expr_outcome(ef, x, fuel),
        None => None,
    }
}

// Success: how the rewritten node relates to the input node. A node that the
// rewrite does not descend into is moved over unchanged.

pub open spec fn expr_result<FE: Fn(Expression) -> Result<Expression, String>>(
    ef: Seq<FE>,
    e: Expression,
    fuel: nat,
    r: Expression,
) -> bool
    decreases fuel, e,
{
    if fuel == 0 {
        false
    } else {
        match apply_expr_transformers(ef, e) {
            Err(_) => false,
            Ok(e1) => atom_result(ef, e1.atom, (fuel - 1) as nat, r.atom) && tail_result(
                ef,
                e1.tail,
                (fuel - 1) as nat,
                r.tail,
            ),
        }
    }
}

pub open spec fn atom_result<FE: Fn(Expression) -> Result<Expression, String>>(
    ef: Seq<FE>,
    a: Atom,
    fuel: nat,
    r: Atom,
) -> bool
    decreases fuel, a,
{
    match a {
        Atom::TypeCast { typ, value } => match r {
            Atom::TypeCast { typ: typ2, value: value2 } => typ2 == typ && expr_result(ef, *value, fuel, *value2),
            _ => false,
        },
        Atom::UnaryOperation { op, value } => match r {
            Atom::UnaryOperation { op: op2, value: value2 } => op2 == op && expr_result(ef, *value, fuel, *value2),
            _ => false,
        },
        Atom::Wrapped(value) => match r {
            Atom::Wrapped(value2) => expr_result(ef, *value, fuel, *value2),
            _ => false,
        },
        _ => r == a,
    }
}

pub open spec fn tail_result<FE: Fn(Expression) -> Result<Expression, String>>(
    ef: Seq<FE>,
    t: ExprTail,
    fuel: nat,
    r: ExprTail,
) -> bool
    decreases fuel, t,
{
    match t {
        ExprTail::End => r is End,
        ExprTail::Call { body, next } => match r {
            ExprTail::Call { body: body2, next: next2 } => args_result(ef, body@, fuel, body2@) && tail_result(
                ef,
                *next,
                fuel,
                *next2,
            ),
            _ => false,
        },
        ExprTail::BinaryOp { op, right, next } => match r {
            ExprTail::BinaryOp { op: op2, right: right2, next: next2 } => op2 == op && expr_result(
                ef,
                *right,
                fuel,
                *right2,
            ) && tail_result(ef, *next, fuel, *next2),
            _ => false,
        },
        ExprTail::MemberAccess { member, next } => match r {
            ExprTail::MemberAccess { member: member2, next: next2 } => member2 == member && tail_result(
                ef,
                *next,
                fuel,
                *next2,
            ),
            _ => false,
        },
        ExprTail::PointerAccess { member, next } => match r {
            ExprTail::PointerAccess { member: member2, next: next2 } => member2 == member && tail_result(
                ef,
                *next,
                fuel,
                *next2,
            ),
            _ => false,
        },
        ExprTail::Index { inner, next } => match r {
            ExprTail::Index { inner: inner2, next: next2 } => expr_result(ef, *inner, fuel, *inner2) && tail_result(
                ef,
                *next,
                fuel,
                *next2,
            ),
            _ => false,
        },
        ExprTail::TernaryConditional { second, third, next } => match r {
            ExprTail::TernaryConditional { second: second2, third: third2, next: next2 } => expr_result(
                ef,
                *second,
                fuel,
                *second2,
            ) && expr_result(ef, *third, fuel, *third2) && tail_result(ef, *next, fuel, *next2),
            _ => false,
        },
    }
}

pub open spec fn args_result<FE: Fn(Expression) -> Result<Expression, String>>(
    ef: Seq<FE>,
    args: Seq<Expression>,
    fuel: nat,
    r: Seq<Expression>,
) -> bool
    decreases fuel, args,
{
    r.len() == args.len() && if args.len() == 0 {
        true
    } else {
        args_result(ef, args.drop_last(), fuel, r.drop_last()) && expr_result(ef, args.last(), fuel, r.last())
    }
}

pub open spec fn opt_expr_result<FE: Fn(Expression) -> Result<Expression, String>>(
    ef: Seq<FE>,
    e: Option<Expression>,
    fuel: nat,
    r: Option<Expression>,
) -> bool {
    match e {
        Some(x) => match r {
            Some(y) => expr_result(ef, x, fuel, y),
            None => false,
        },
        None => r is None,
    }
}

// Statements: the same scheme, with the statement transformers `sf` run on
// each statement and the expression transformers `ef` on each expression.

pub open spec fn stmt_outcome<FE: Fn(Expression) -> Result<Expression, String>, FS: Fn(Statement) -> Result<Statement, String>>(
    ef: Seq<FE>,
    sf: Seq<FS>,
    s: Statement,
    fuel: nat,
) -> Option<MutateError>
    decreases fuel, s, 1nat,
{
    if fuel == 0 {
        Some(MutateError::TooDeep)
    } else {
        match apply_stmt_transformers(sf, s) {
            Err(m) => Some(MutateError::Transformer(m)),
            Ok(s1) => stmt_parts_outcome(ef, sf, s1, (fuel - 1) as nat),
        }
    }
}

/// Failure in the children of a statement that already went through the
/// statement transformers.
pub open spec fn stmt_parts_outcome<FE: Fn(Expression) -> Result<Expression, String>, FS: Fn(Statement) -> Result<Statement, String>>(
    ef: Seq<FE>,
    sf: Seq<FS>,
    s: Statement,
    fuel: nat,
) -> Option<MutateError>
    decreases fuel, s, 0nat,
{
    match s {
        Statement::Expression(e) => expr_outcome(ef, e, fuel),
        Statement::VarDec { right, .. } => opt_expr_outcome(ef, right, fuel),
        Statement::VarAssign { right, .. } => expr_outcome(ef, right, fuel),
        Statement::BinOpVarAssign { right, .. } => expr_outcome(ef, right, fuel),
        Statement::IncDec { .. } => None,
        Statement::Return(value) => opt_expr_outcome(ef, value, fuel),
        Statement::If { base, elseifs, tail } => first_failure(
            cond_outcome(ef, sf, base, fuel),
            first_failure(conds_outcome(ef, sf, elseifs@, fuel), opt_body_outcome(ef, sf, tail, fuel)),
        ),
        Statement::While(cb) => cond_outcome(ef, sf, cb, fuel),
        Statement::DoWhile { condition, body } => first_failure(
            expr_outcome(ef, condition, fuel),
            body_outcome(ef, sf, body@, fuel),
        ),
        Statement::For { init, condition, increment, body } => first_failure(
            stmt_outcome(ef, sf, *init, fuel),
            first_failure(
                expr_outcome(ef, condition, fuel),
                first_failure(stmt_outcome(ef, sf, *increment, fuel), body_outcome(ef, sf, body@, fuel)),
            ),
        ),
        Statement::Switch { atom, cases, default } => first_failure(
            atom_outcome(ef, atom, fuel),
            first_failure(cases_outcome(ef, sf, cases@, fuel), opt_body_outcome(ef, sf, default, fuel)),
        ),
        Statement::Continue => None,
        Statement::Break => None,
    }
}

pub open spec fn body_outcome<FE: Fn(Expression) -> Result<Expression, String>, FS: Fn(Statement) -> Result<Statement, String>>(
    ef: Seq<FE>,
    sf: Seq<FS>,
    body: Seq<Statement>,
    fuel: nat,
) -> Option<MutateError>
    decreases fuel, body, 0nat,
{
    if body.len() == 0 {
        None
    } else {
        first_failure(body_outcome(ef, sf, body.drop_last(), fuel), stmt_outcome(ef, sf, body.last(), fuel))
    }
}

pub open spec fn opt_body_outcome<FE: Fn(Expression) -> Result<Expression, String>, FS: Fn(Statement) -> Result<Statement, String>>(
    ef: Seq<FE>,
    sf: Seq<FS>,
    body: Option<Vec<Statement>>,
    fuel: nat,
) -> Option<MutateError>
    decreases fuel, body, 0nat,
{
    match body {
        Some(b) => body_outcome(ef, sf, b@, fuel),
        None => None,
    }
}

pub open spec fn cond_outcome<FE: Fn(Expression) -> Result<Expression, String>, FS: Fn(Statement) -> Result<Statement, String>>(
    ef: Seq<FE>,
    sf: Seq<FS>,
    cb: ConditionBody,
    fuel: nat,
) -> Option<MutateError>
    decreases fuel, cb, 0nat,
{
    first_failure(expr_outcome(ef, cb.condition, fuel), body_outcome(ef, sf, cb.body@, fuel))
}

pub open spec fn conds_outcome<FE: Fn(Expression) -> Result<Expression, String>, FS: Fn(Statement) -> Result<Statement, String>>(
    ef: Seq<FE>,
    sf: Seq<FS>,
    cbs: Seq<ConditionBody>,
    fuel: nat,
) -> Option<MutateError>
    decreases fuel, cbs, 0nat,
{
    if cbs.len() == 0 {
        None
    } else {
        first_failure(conds_outcome(ef, sf, cbs.drop_last(), fuel), cond_outcome(ef, sf, cbs.last(), fuel))
    }
}

pub open spec fn case_outcome<FE: Fn(Expression) -> Result<Expression, String>, FS: Fn(Statement) -> Result<Statement, String>>(
    ef: Seq<FE>,
    sf: Seq<FS>,
    c: CaseStatement,
    fuel: nat,
) -> Option<MutateError>
    decreases fuel, c, 0nat,
{
    first_failure(atom_outcome(ef, c.atom, fuel), body_outcome(ef, sf, c.body@, fuel))
}

pub open spec fn cases_outcome<FE: Fn(Expression) -> Result<Expression, String>, FS: Fn(Statement) -> Result<Statement, String>>(
    ef: Seq<FE>,
    sf: Seq<FS>,
    cases: Seq<CaseStatement>,
    fuel: nat,
) -> Option<MutateError>
    decreases fuel, cases, 0nat,
{
    if cases.len() == 0 {
        None
    } else {
        first_failure(cases_outcome(ef, sf, cases.drop_last(), fuel), case_outcome(ef, sf, cases.last(), fuel))
    }
}

pub open spec fn stmt_result<FE: Fn(Expression) -> Result<Expression, String>, FS: Fn(Statement) -> Result<Statement, String>>(
    ef: Seq<FE>,
    sf: Seq<FS>,
    s: Statement,
    fuel: nat,
    r: Statement,
) -> bool
    decreases fuel, s, 1nat,
{
    if fuel == 0 {
        false
    } else {
        match apply_stmt_transformers(sf, s) {
            Err(_) => false,
            Ok(s1) => stmt_parts_result(ef, sf, s1, (fuel - 1) as nat, r),
        }
    }
}

/// The rewritten statement, given the statement that came out of the
/// statement transformers.
pub open spec fn stmt_parts_result<FE: Fn(Expression) -> Result<Expression, String>, FS: Fn(Statement) -> Result<Statement, String>>(
    ef: Seq<FE>,
    sf: Seq<FS>,
    s: Statement,
    fuel: nat,
    r: Statement,
) -> bool
    decreases fuel, s, 0nat,
{
    match s {
        Statement::Expression(e) => match r {
            Statement::Expression(e2) => expr_result(ef, e, fuel, e2),
            _ => false,
        },
        Statement::VarDec { typ, name, right, modifier } => match r {
            Statement::VarDec { typ: typ2, name: name2, right: right2, modifier: modifier2 } => typ2 == typ
                && name2 == name && modifier2 == modifier && opt_expr_result(ef, right, fuel, right2),
            _ => false,
        },
        Statement::VarAssign { identifier, right } => match r {
            Statement::VarAssign { identifier: identifier2, right: right2 } => identifier2 == identifier
                && expr_result(ef, right, fuel, right2),
            _ => false,
        },
        Statement::BinOpVarAssign { identifier, op, right } => match r {
            Statement::BinOpVarAssign { identifier: identifier2, op: op2, right: right2 } => identifier2
                == identifier && op2 == op && expr_result(ef, right, fuel, right2),
            _ => false,
        },
        Statement::Return(value) => match r {
            Statement::Return(value2) => opt_expr_result(ef, value, fuel, value2),
            _ => false,
        },
        Statement::If { base, elseifs, tail } => match r {
            Statement::If { base: base2, elseifs: elseifs2, tail: tail2 } => cond_result(ef, sf, base, fuel, base2)
                && conds_result(ef, sf, elseifs@, fuel, elseifs2@) && opt_body_result(ef, sf, tail, fuel, tail2),
            _ => false,
        },
        Statement::While(cb) => match r {
            Statement::While(cb2) => cond_result(ef, sf, cb, fuel, cb2),
            _ => false,
        },
        Statement::DoWhile { condition, body } => match r {
            Statement::DoWhile { condition: condition2, body: body2 } => expr_result(
                ef,
                condition,
                fuel,
                condition2,
            ) && body_result(ef, sf, body@, fuel, body2@),
            _ => false,
        },
        Statement::For { init, condition, increment, body } => match r {
            Statement::For { init: init2, condition: condition2, increment: increment2, body: body2 } =>
                stmt_result(ef, sf, *init, fuel, *init2) && expr_result(ef, condition, fuel, condition2)
                && stmt_result(ef, sf, *increment, fuel, *increment2) && body_result(ef, sf, body@, fuel, body2@),
            _ => false,
        },
        Statement::Switch { atom, cases, default } => match r {
            Statement::Switch { atom: atom2, cases: cases2, default: default2 } => atom_result(ef, atom, fuel, atom2)
                && cases_result(ef, sf, cases@, fuel, cases2@) && opt_body_result(ef, sf, default, fuel, default2),
            _ => false,
        },
        _ => r == s,
    }
}

pub open spec fn body_result<FE: Fn(Expression) -> Result<Expression, String>, FS: Fn(Statement) -> Result<Statement, String>>(
    ef: Seq<FE>,
    sf: Seq<FS>,
    body: Seq<Statement>,
    fuel: nat,
    r: Seq<Statement>,
) -> bool
    decreases fuel, body, 0nat,
{
    r.len() == body.len() && if body.len() == 0 {
        true
    } else {
        body_result(ef, sf, body.drop_last(), fuel, r.drop_last()) && stmt_result(ef, sf, body.last(), fuel, r.last())
    }
}

pub open spec fn opt_body_result<FE: Fn(Expression) -> Result<Expression, String>, FS: Fn(Statement) -> Result<Statement, String>>(
    ef: Seq<FE>,
    sf: Seq<FS>,
    body: Option<Vec<Statement>>,
    fuel: nat,
    r: Option<Vec<Statement>>,
) -> bool
    decreases fuel, body, 0nat,
{
    match body {
        Some(b) => match r {
            Some(b2) => body_result(ef, sf, b@, fuel, b2@),
            None => false,
        },
        None => r is None,
    }
}

pub open spec fn cond_result<FE: Fn(Expression) -> Result<Expression, String>, FS: Fn(Statement) -> Result<Statement, String>>(
    ef: Seq<FE>,
    sf: Seq<FS>,
    cb: ConditionBody,
    fuel: nat,
    r: ConditionBody,
) -> bool
    decreases fuel, cb, 0nat,
{
    expr_result(ef, cb.condition, fuel, r.condition) && body_result(ef, sf, cb.body@, fuel, r.body@)
}

pub open spec fn conds_result<FE: Fn(Expression) -> Result<Expression, String>, FS: Fn(Statement) -> Result<Statement, String>>(
    ef: Seq<FE>,
    sf: Seq<FS>,
    cbs: Seq<ConditionBody>,
    fuel: nat,
    r: Seq<ConditionBody>,
) -> bool
    decreases fuel, cbs, 0nat,
{
    r.len() == cbs.len() && if cbs.len() == 0 {
        true
    } else {
        conds_result(ef, sf, cbs.drop_last(), fuel, r.drop_last()) && cond_result(ef, sf, cbs.last(), fuel, r.last())
    }
}

pub open spec fn case_result<FE: Fn(Expression) -> Result<Expression, String>, FS: Fn(Statement) -> Result<Statement, String>>(
    ef: Seq<FE>,
    sf: Seq<FS>,
    c: CaseStatement,
    fuel: nat,
    r: CaseStatement,
) -> bool
    decreases fuel, c, 0nat,
{
    atom_result(ef, c.atom, fuel, r.atom) && body_result(ef, sf, c.body@, fuel, r.body@)
}

pub open spec fn cases_result<FE: Fn(Expression) -> Result<Expression, String>, FS: Fn(Statement) -> Result<Statement, String>>(
    ef: Seq<FE>,
    sf: Seq<FS>,
    cases: Seq<CaseStatement>,
    fuel: nat,
    r: Seq<CaseStatement>,
) -> bool
    decreases fuel, cases, 0nat,
{
    r.len() == cases.len() && if cases.len() == 0 {
        true
    } else {
        cases_result(ef, sf, cases.drop_last(), fuel, r.drop_last()) && case_result(ef, sf, cases.last(), fuel, r.last())
    }
}

// Top-level items: only function bodies, module members and the
// initialisers of global variables are rewritten; every other declaration
// is moved over unchanged.

pub open spec fn toplevel_outcome<FE: Fn(Expression) -> Result<Expression, String>, FS: Fn(Statement) -> Result<Statement, String>>(
    ef: Seq<FE>,
    sf: Seq<FS>,
    t: TopLevel,
) -> Option<MutateError>
    decreases t, 0nat,
{
    match t {
        TopLevel::Module { name, body } => toplevels_outcome(ef, sf, body@),
        TopLevel::Function(f) => body_outcome(ef, sf, f.body@, MAX_REWRITE_DEPTH as nat),
        TopLevel::VarDeclaration { right, .. } => opt_expr_outcome(ef, right, MAX_REWRITE_DEPTH as nat),
        _ => None,
    }
}

pub open spec fn toplevels_outcome<FE: Fn(Expression) -> Result<Expression, String>, FS: Fn(Statement) -> Result<Statement, String>>(
    ef: Seq<FE>,
    sf: Seq<FS>,
    items: Seq<TopLevel>,
) -> Option<MutateError>
    decreases items, 0nat,
{
    if items.len() == 0 {
        None
    } else {
        first_failure(toplevels_outcome(ef, sf, items.drop_last()), toplevel_outcome(ef, sf, items.last()))
    }
}

pub open spec fn toplevel_result<FE: Fn(Expression) -> Result<Expression, String>, FS: Fn(Statement) -> Result<Statement, String>>(
    ef: Seq<FE>,
    sf: Seq<FS>,
    t: TopLevel,
    r: TopLevel,
) -> bool
    decreases t, 0nat,
{
    match t {
        TopLevel::Module { name, body } => match r {
            TopLevel::Module { name: name2, body: body2 } => name2 == name && toplevels_result(
                ef,
                sf,
                body@,
                body2@,
            ),
            _ => false,
        },
        TopLevel::Function(f) => match r {
            TopLevel::Function(f2) => f2.header == f.header && body_result(
                ef,
                sf,
                f.body@,
                MAX_REWRITE_DEPTH as nat,
                f2.body@,
            ),
            _ => false,
        },
        TopLevel::VarDeclaration { typ, name, right, modifier } => match r {
            TopLevel::VarDeclaration { typ: typ2, name: name2, right: right2, modifier: modifier2 } => typ2 == typ
                && name2 == name && modifier2 == modifier && opt_expr_result(
                ef,
                right,
                MAX_REWRITE_DEPTH as nat,
                right2,
            ),
            _ => false,
        },
        _ => r == t,
    }
}

pub open spec fn toplevels_result<FE: Fn(Expression) -> Result<Expression, String>, FS: Fn(Statement) -> Result<Statement, String>>(
    ef: Seq<FE>,
    sf: Seq<FS>,
    items: Seq<TopLevel>,
    r: Seq<TopLevel>,
) -> bool
    decreases items, 0nat,
{
    r.len() == items.len() && if items.len() == 0 {
        true
    } else {
        toplevels_result(ef, sf, items.drop_last(), r.drop_last()) && toplevel_result(
            ef,
            sf,
            items.last(),
            r.last(),
        )
    }
}

pub open spec fn program_outcome<FE: Fn(Expression) -> Result<Expression, String>, FS: Fn(Statement) -> Result<Statement, String>>(
    ef: Seq<FE>,
    sf: Seq<FS>,
    p: Program,
) -> Option<MutateError> {
    toplevels_outcome(ef, sf, p.statements@)
}

pub open spec fn program_result<FE: Fn(Expression) -> Result<Expression, String>, FS: Fn(Statement) -> Result<Statement, String>>(
    ef: Seq<FE>,
    sf: Seq<FS>,
    p: Program,
    r: Program,
) -> bool {
    toplevels_result(ef, sf, p.statements@, r.statements@)
}

} // verus!
