use vstd::prelude::*;

use crate::ast::expression::{args_text, atom_text, expr_text, tail_text, Atom, ExprTail, Expression};
use crate::ast::identifier::module_prefix_text;
use crate::ast::program::{lemma_program_text_in_order, program_text, Program};
use crate::ast::statement::{
    block_text, body_text, cases_text, default_text, else_text, elseifs_text, spec_has_terminator, stmt_core_text, CaseStatement, ConditionBody, Statement,
};
use crate::ast::toplevel::{toplevel_text, toplevels_text, TopLevel};
use crate::text::deeper_level;
use crate::codegen::full::code_gen_outcome;
use crate::mutating::semantics::{
    apply_expr_transformers, apply_stmt_transformers, args_outcome, args_result, atom_outcome, atom_result,
    body_outcome, body_result, case_outcome, case_result, cases_outcome, cond_outcome, cond_result, cases_result, conds_outcome, conds_result, expr_outcome, expr_result,
    program_outcome, program_result, stmt_outcome, stmt_parts_outcome, stmt_parts_result, stmt_result,
    tail_outcome, tail_result, toplevel_outcome, toplevel_result, toplevels_outcome, toplevels_result, MutateError,
    MAX_REWRITE_DEPTH,
};

verus! {

/// A block whose statements all rewrite without failure rewrites without
/// failure.
pub proof fn lemma_body_all_succeed<FE: Fn(Expression) -> Result<Expression, String>, FS: Fn(Statement) -> Result<Statement, String>>(
    ef: Seq<FE>,
    sf: Seq<FS>,
    body: Seq<Statement>,
    fuel: nat,
)
    requires
        forall|i: int| 0 <= i < body.len() ==> (#[trigger] stmt_outcome(ef, sf, body[i], fuel)) is None,
    ensures
        body_outcome(ef, sf, body, fuel) is None,
    decreases body.len(),
{
    if body.len() > 0 {
        assert forall|i: int| 0 <= i < body.drop_last().len() implies (#[trigger] stmt_outcome(
            ef,
            sf,
            body.drop_last()[i],
            fuel,
        )) is None by {
            assert(body.drop_last()[i] == body[i]);
        }
        lemma_body_all_succeed(ef, sf, body.drop_last(), fuel);
        assert(stmt_outcome(ef, sf, body[body.len() - 1], fuel) is None);
    }
}

/// A block fails with the failure of its first failing statement.
pub proof fn lemma_body_first_failure<FE: Fn(Expression) -> Result<Expression, String>, FS: Fn(Statement) -> Result<Statement, String>>(
    ef: Seq<FE>,
    sf: Seq<FS>,
    body: Seq<Statement>,
    fuel: nat,
    k: int,
)
    requires
        0 <= k < body.len(),
        forall|i: int| 0 <= i < k ==> (#[trigger] stmt_outcome(ef, sf, body[i], fuel)) is None,
        stmt_outcome(ef, sf, body[k], fuel) is Some,
    ensures
        body_outcome(ef, sf, body, fuel) == stmt_outcome(ef, sf, body[k], fuel),
    decreases body.len(),
{
    let prefix = body.drop_last();
    if k == body.len() - 1 {
        assert forall|i: int| 0 <= i < prefix.len() implies (#[trigger] stmt_outcome(ef, sf, prefix[i], fuel))
            is None by {
            assert(prefix[i] == body[i]);
        }
        lemma_body_all_succeed(ef, sf, prefix, fuel);
    } else {
        assert forall|i: int| 0 <= i < k implies (#[trigger] stmt_outcome(ef, sf, prefix[i], fuel)) is None by {
            assert(prefix[i] == body[i]);
        }
        assert(prefix[k] == body[k]);
        lemma_body_first_failure(ef, sf, prefix, fuel, k);
    }
}

/// A list of items whose members all rewrite without failure rewrites
/// without failure.
pub proof fn lemma_toplevels_all_succeed<FE: Fn(Expression) -> Result<Expression, String>, FS: Fn(Statement) -> Result<Statement, String>>(
    ef: Seq<FE>,
    sf: Seq<FS>,
    items: Seq<TopLevel>,
)
    requires
        forall|i: int| 0 <= i < items.len() ==> (#[trigger] toplevel_outcome(ef, sf, items[i])) is None,
    ensures
        toplevels_outcome(ef, sf, items) is None,
    decreases items.len(),
{
    if items.len() > 0 {
        assert forall|i: int| 0 <= i < items.drop_last().len() implies (#[trigger] toplevel_outcome(
            ef,
            sf,
            items.drop_last()[i],
        )) is None by {
            assert(items.drop_last()[i] == items[i]);
        }
        lemma_toplevels_all_succeed(ef, sf, items.drop_last());
        assert(toplevel_outcome(ef, sf, items[items.len() - 1]) is None);
    }
}

/// A list of items fails with the failure of its first failing item.
pub proof fn lemma_toplevels_first_failure<FE: Fn(Expression) -> Result<Expression, String>, FS: Fn(Statement) -> Result<Statement, String>>(
    ef: Seq<FE>,
    sf: Seq<FS>,
    items: Seq<TopLevel>,
    k: int,
)
    requires
        0 <= k < items.len(),
        forall|i: int| 0 <= i < k ==> (#[trigger] toplevel_outcome(ef, sf, items[i])) is None,
        toplevel_outcome(ef, sf, items[k]) is Some,
    ensures
        toplevels_outcome(ef, sf, items) == toplevel_outcome(ef, sf, items[k]),
    decreases items.len(),
{
    let prefix = items.drop_last();
    if k == items.len() - 1 {
        assert forall|i: int| 0 <= i < prefix.len() implies (#[trigger] toplevel_outcome(ef, sf, prefix[i]))
            is None by {
            assert(prefix[i] == items[i]);
        }
        lemma_toplevels_all_succeed(ef, sf, prefix);
    } else {
        assert forall|i: int| 0 <= i < k implies (#[trigger] toplevel_outcome(ef, sf, prefix[i])) is None by {
            assert(prefix[i] == items[i]);
        }
        assert(prefix[k] == items[k]);
        lemma_toplevels_first_failure(ef, sf, prefix, k);
    }
}

/// A statement transformer that fails on a statement of a function aborts
/// the whole pipeline with its message, and no text comes out: given that
/// the items before that function, and the statements before that one in
/// the function's body, rewrite without failure.
pub proof fn lemma_statement_failure_aborts<FE: Fn(Expression) -> Result<Expression, String>, FS: Fn(Statement) -> Result<Statement, String>>(
    ef: Seq<FE>,
    sf: Seq<FS>,
    p: Program,
    k: int,
    j: int,
    msg: String,
)
    requires
        0 <= k < p.statements@.len(),
        p.statements@[k] is Function,
        0 <= j < p.statements@[k]->Function_0.body@.len(),
        apply_stmt_transformers(sf, p.statements@[k]->Function_0.body@[j]) == Err::<Statement, String>(msg),
        forall|i: int| 0 <= i < k ==> (#[trigger] toplevel_outcome(ef, sf, p.statements@[i])) is None,
        forall|i: int|
            0 <= i < j ==> (#[trigger] stmt_outcome(
                ef,
                sf,
                p.statements@[k]->Function_0.body@[i],
                MAX_REWRITE_DEPTH as nat,
            )) is None,
    ensures
        program_outcome(ef, sf, p) == Some(MutateError::Transformer(msg)),
        forall|r: Result<String, MutateError>|
            code_gen_outcome(ef, sf, p, r) ==> r == Err::<String, MutateError>(MutateError::Transformer(msg)),
{
    let body = p.statements@[k]->Function_0.body@;
    let fuel = MAX_REWRITE_DEPTH as nat;
    assert(stmt_outcome(ef, sf, body[j], fuel) == Some(MutateError::Transformer(msg)));
    lemma_body_first_failure(ef, sf, body, fuel, j);
    assert(toplevel_outcome(ef, sf, p.statements@[k]) == Some(MutateError::Transformer(msg)));
    lemma_toplevels_first_failure(ef, sf, p.statements@, k);
}

// With no transformers registered, a rewrite gives back a tree with the
// same text as the input.

pub proof fn lemma_expr_text_kept<FE: Fn(Expression) -> Result<Expression, String>>(
    ef: Seq<FE>,
    e: Expression,
    fuel: nat,
    r: Expression,
)
    requires
        ef.len() == 0,
        expr_result(ef, e, fuel, r),
    ensures
        expr_text(r) == expr_text(e),
    decreases fuel, e,
{
    assert(apply_expr_transformers(ef, e) == Ok::<Expression, String>(e));
    lemma_atom_text_kept(ef, e.atom, (fuel - 1) as nat, r.atom);
    lemma_tail_text_kept(ef, e.tail, (fuel - 1) as nat, r.tail);
}

pub proof fn lemma_atom_text_kept<FE: Fn(Expression) -> Result<Expression, String>>(
    ef: Seq<FE>,
    a: Atom,
    fuel: nat,
    r: Atom,
)
    requires
        ef.len() == 0,
        atom_result(ef, a, fuel, r),
    ensures
        atom_text(r) == atom_text(a),
    decreases fuel, a,
{
    match a {
        Atom::TypeCast { typ, value } => {
            let value2 = r->TypeCast_value;
            lemma_expr_text_kept(ef, *value, fuel, *value2);
        },
        Atom::UnaryOperation { op, value } => {
            let value2 = r->UnaryOperation_value;
            lemma_expr_text_kept(ef, *value, fuel, *value2);
        },
        Atom::Wrapped(value) => {
            let value2 = r->Wrapped_0;
            lemma_expr_text_kept(ef, *value, fuel, *value2);
        },
        _ => {},
    }
}

pub proof fn lemma_tail_text_kept<FE: Fn(Expression) -> Result<Expression, String>>(
    ef: Seq<FE>,
    t: ExprTail,
    fuel: nat,
    r: ExprTail,
)
    requires
        ef.len() == 0,
        tail_result(ef, t, fuel, r),
    ensures
        tail_text(r) == tail_text(t),
    decreases fuel, t,
{
    match t {
        ExprTail::End => {},
        ExprTail::Call { body, next } => {
            lemma_args_text_kept(ef, body@, fuel, r->Call_body@);
            lemma_tail_text_kept(ef, *next, fuel, *r->Call_next);
        },
        ExprTail::BinaryOp { op, right, next } => {
            lemma_expr_text_kept(ef, *right, fuel, *r->BinaryOp_right);
            lemma_tail_text_kept(ef, *next, fuel, *r->BinaryOp_next);
        },
        ExprTail::MemberAccess { member, next } => {
            lemma_tail_text_kept(ef, *next, fuel, *r->MemberAccess_next);
        },
        ExprTail::PointerAccess { member, next } => {
            lemma_tail_text_kept(ef, *next, fuel, *r->PointerAccess_next);
        },
        ExprTail::Index { inner, next } => {
            lemma_expr_text_kept(ef, *inner, fuel, *r->Index_inner);
            lemma_tail_text_kept(ef, *next, fuel, *r->Index_next);
        },
        ExprTail::TernaryConditional { second, third, next } => {
            lemma_expr_text_kept(ef, *second, fuel, *r->TernaryConditional_second);
            lemma_expr_text_kept(ef, *third, fuel, *r->TernaryConditional_third);
            lemma_tail_text_kept(ef, *next, fuel, *r->TernaryConditional_next);
        },
    }
}

pub proof fn lemma_args_text_kept<FE: Fn(Expression) -> Result<Expression, String>>(
    ef: Seq<FE>,
    args: Seq<Expression>,
    fuel: nat,
    r: Seq<Expression>,
)
    requires
        ef.len() == 0,
        args_result(ef, args, fuel, r),
    ensures
        args_text(r) == args_text(args),
    decreases fuel, args,
{
    if args.len() > 0 {
        lemma_args_text_kept(ef, args.drop_last(), fuel, r.drop_last());
        lemma_expr_text_kept(ef, args.last(), fuel, r.last());
    }
}

pub proof fn lemma_stmt_text_kept<FE: Fn(Expression) -> Result<Expression, String>, FS: Fn(Statement) -> Result<Statement, String>>(
    ef: Seq<FE>,
    sf: Seq<FS>,
    s: Statement,
    fuel: nat,
    r: Statement,
    level: nat,
)
    requires
        ef.len() == 0,
        sf.len() == 0,
        stmt_result(ef, sf, s, fuel, r),
    ensures
        stmt_core_text(r, level) == stmt_core_text(s, level),
        spec_has_terminator(r) == spec_has_terminator(s),
    decreases fuel, s, 1nat,
{
    assert(apply_stmt_transformers(sf, s) == Ok::<Statement, String>(s));
    lemma_stmt_parts_text_kept(ef, sf, s, (fuel - 1) as nat, r, level);
}

pub proof fn lemma_stmt_parts_text_kept<FE: Fn(Expression) -> Result<Expression, String>, FS: Fn(Statement) -> Result<Statement, String>>(
    ef: Seq<FE>,
    sf: Seq<FS>,
    s: Statement,
    fuel: nat,
    r: Statement,
    level: nat,
)
    requires
        ef.len() == 0,
        sf.len() == 0,
        stmt_parts_result(ef, sf, s, fuel, r),
    ensures
        stmt_core_text(r, level) == stmt_core_text(s, level),
        spec_has_terminator(r) == spec_has_terminator(s),
    decreases fuel, s, 0nat,
{
    let inner = deeper_level(level);
    match s {
        Statement::Expression(e) => {
            lemma_expr_text_kept(ef, e, fuel, r->Expression_0);
        },
        Statement::VarDec { typ, name, right, modifier } => {
            if right is Some {
                lemma_expr_text_kept(ef, right->Some_0, fuel, r->VarDec_right->Some_0);
            }
        },
        Statement::VarAssign { identifier, right } => {
            lemma_expr_text_kept(ef, right, fuel, r->VarAssign_right);
        },
        Statement::BinOpVarAssign { identifier, op, right } => {
            lemma_expr_text_kept(ef, right, fuel, r->BinOpVarAssign_right);
        },
        Statement::Return(value) => {
            if value is Some {
                lemma_expr_text_kept(ef, value->Some_0, fuel, r->Return_0->Some_0);
            }
        },
        Statement::If { base, elseifs, tail } => {
            let base2 = r->If_base;
            lemma_expr_text_kept(ef, base.condition, fuel, base2.condition);
            lemma_body_text_kept(ef, sf, base.body@, fuel, base2.body@, inner);
            assert(block_text(base2.body@, level) == block_text(base.body@, level));
            lemma_conds_text_kept(ef, sf, elseifs@, fuel, r->If_elseifs@, level);
            if tail is Some {
                lemma_body_text_kept(ef, sf, tail->Some_0@, fuel, r->If_tail->Some_0@, inner);
                assert(block_text(r->If_tail->Some_0@, level) == block_text(tail->Some_0@, level));
            }
            assert(else_text(r->If_tail, level) == else_text(tail, level));
        },
        Statement::While(cb) => {
            let cb2 = r->While_0;
            lemma_expr_text_kept(ef, cb.condition, fuel, cb2.condition);
            lemma_body_text_kept(ef, sf, cb.body@, fuel, cb2.body@, inner);
            assert(block_text(cb2.body@, level) == block_text(cb.body@, level));
        },
        Statement::DoWhile { condition, body } => {
            lemma_expr_text_kept(ef, condition, fuel, r->DoWhile_condition);
            lemma_body_text_kept(ef, sf, body@, fuel, r->DoWhile_body@, inner);
            assert(block_text(r->DoWhile_body@, level) == block_text(body@, level));
        },
        Statement::For { init, condition, increment, body } => {
            lemma_stmt_text_kept(ef, sf, *init, fuel, *r->For_init, 0);
            lemma_expr_text_kept(ef, condition, fuel, r->For_condition);
            lemma_stmt_text_kept(ef, sf, *increment, fuel, *r->For_increment, 0);
            lemma_body_text_kept(ef, sf, body@, fuel, r->For_body@, inner);
            assert(block_text(r->For_body@, level) == block_text(body@, level));
        },
        Statement::Switch { atom, cases, default } => {
            lemma_atom_text_kept(ef, atom, fuel, r->Switch_atom);
            lemma_cases_text_kept(ef, sf, cases@, fuel, r->Switch_cases@, level);
            if default is Some {
                lemma_body_text_kept(ef, sf, default->Some_0@, fuel, r->Switch_default->Some_0@, deeper_level(inner));
            }
            assert(default_text(r->Switch_default, level) == default_text(default, level));
        },
        _ => {},
    }
}

pub proof fn lemma_body_text_kept<FE: Fn(Expression) -> Result<Expression, String>, FS: Fn(Statement) -> Result<Statement, String>>(
    ef: Seq<FE>,
    sf: Seq<FS>,
    body: Seq<Statement>,
    fuel: nat,
    r: Seq<Statement>,
    level: nat,
)
    requires
        ef.len() == 0,
        sf.len() == 0,
        body_result(ef, sf, body, fuel, r),
    ensures
        body_text(r, level) == body_text(body, level),
    decreases fuel, body, 0nat,
{
    if body.len() > 0 {
        lemma_body_text_kept(ef, sf, body.drop_last(), fuel, r.drop_last(), level);
        lemma_stmt_text_kept(ef, sf, body.last(), fuel, r.last(), level);
    }
}

pub proof fn lemma_conds_text_kept<FE: Fn(Expression) -> Result<Expression, String>, FS: Fn(Statement) -> Result<Statement, String>>(
    ef: Seq<FE>,
    sf: Seq<FS>,
    cbs: Seq<ConditionBody>,
    fuel: nat,
    r: Seq<ConditionBody>,
    level: nat,
)
    requires
        ef.len() == 0,
        sf.len() == 0,
        conds_result(ef, sf, cbs, fuel, r),
    ensures
        elseifs_text(r, level) == elseifs_text(cbs, level),
    decreases fuel, cbs, 0nat,
{
    if cbs.len() > 0 {
        lemma_conds_text_kept(ef, sf, cbs.drop_last(), fuel, r.drop_last(), level);
        let cb = cbs.last();
        assert(decreases_to!(cbs => cb));
        assert(cond_result(ef, sf, cb, fuel, r.last()));
        assert(block_text(r.last().body@, level) == block_text(cb.body@, level)) by {
            lemma_body_text_kept(ef, sf, cb.body@, fuel, r.last().body@, deeper_level(level));
        }
        lemma_expr_text_kept(ef, cb.condition, fuel, r.last().condition);
        lemma_body_text_kept(ef, sf, cb.body@, fuel, r.last().body@, deeper_level(level));
    }
}

pub proof fn lemma_cases_text_kept<FE: Fn(Expression) -> Result<Expression, String>, FS: Fn(Statement) -> Result<Statement, String>>(
    ef: Seq<FE>,
    sf: Seq<FS>,
    cases: Seq<CaseStatement>,
    fuel: nat,
    r: Seq<CaseStatement>,
    level: nat,
)
    requires
        ef.len() == 0,
        sf.len() == 0,
        cases_result(ef, sf, cases, fuel, r),
    ensures
        cases_text(r, level) == cases_text(cases, level),
    decreases fuel, cases, 0nat,
{
    if cases.len() > 0 {
        lemma_cases_text_kept(ef, sf, cases.drop_last(), fuel, r.drop_last(), level);
        let c = cases.last();
        assert(decreases_to!(cases => c));
        assert(case_result(ef, sf, c, fuel, r.last()));
        lemma_atom_text_kept(ef, c.atom, fuel, r.last().atom);
        lemma_body_text_kept(ef, sf, c.body@, fuel, r.last().body@, deeper_level(deeper_level(level)));
    }
}

pub proof fn lemma_toplevel_text_kept<FE: Fn(Expression) -> Result<Expression, String>, FS: Fn(Statement) -> Result<Statement, String>>(
    ef: Seq<FE>,
    sf: Seq<FS>,
    t: TopLevel,
    r: TopLevel,
    name_prefix: Seq<char>,
)
    requires
        ef.len() == 0,
        sf.len() == 0,
        toplevel_result(ef, sf, t, r),
    ensures
        toplevel_text(r, name_prefix) == toplevel_text(t, name_prefix),
    decreases t, 1nat,
{
    match t {
        TopLevel::Module { name, body } => {
            lemma_toplevels_text_kept(ef, sf, body@, r->Module_body@, name_prefix + module_prefix_text(name@));
        },
        TopLevel::Function(f) => {
            lemma_body_text_kept(ef, sf, f.body@, MAX_REWRITE_DEPTH as nat, r->Function_0.body@, 1);
        },
        TopLevel::VarDeclaration { typ, name, right, modifier } => {
            if right is Some {
                lemma_expr_text_kept(ef, right->Some_0, MAX_REWRITE_DEPTH as nat, r->VarDeclaration_right->Some_0);
            }
        },
        _ => {},
    }
}

pub proof fn lemma_toplevels_text_kept<FE: Fn(Expression) -> Result<Expression, String>, FS: Fn(Statement) -> Result<Statement, String>>(
    ef: Seq<FE>,
    sf: Seq<FS>,
    items: Seq<TopLevel>,
    r: Seq<TopLevel>,
    name_prefix: Seq<char>,
)
    requires
        ef.len() == 0,
        sf.len() == 0,
        toplevels_result(ef, sf, items, r),
    ensures
        toplevels_text(r, name_prefix) == toplevels_text(items, name_prefix),
    decreases items, 0nat,
{
    if items.len() > 0 {
        lemma_toplevels_text_kept(ef, sf, items.drop_last(), r.drop_last(), name_prefix);
        lemma_toplevel_text_kept(ef, sf, items.last(), r.last(), name_prefix);
    }
}

// Nesting: how many levels of expressions and statements a rewrite
// descends through, which the depth limit bounds.

pub open spec fn larger(a: nat, b: nat) -> nat {
    if a >= b {
        a
    } else {
        b
    }
}

pub open spec fn expr_nesting(e: Expression) -> nat
    decreases e,
{
    1 + larger(atom_nesting(e.atom), tail_nesting(e.tail))
}

pub open spec fn atom_nesting(a: Atom) -> nat
    decreases a,
{
    match a {
        Atom::TypeCast { typ, value } => expr_nesting(*value),
        Atom::UnaryOperation { op, value } => expr_nesting(*value),
        Atom::Wrapped(value) => expr_nesting(*value),
        _ => 0,
    }
}

pub open spec fn tail_nesting(t: ExprTail) -> nat
    decreases t,
{
    match t {
        ExprTail::End => 0,
        ExprTail::Call { body, next } => larger(args_nesting(body@), tail_nesting(*next)),
        ExprTail::BinaryOp { op, right, next } => larger(expr_nesting(*right), tail_nesting(*next)),
        ExprTail::MemberAccess { member, next } => tail_nesting(*next),
        ExprTail::PointerAccess { member, next } => tail_nesting(*next),
        ExprTail::Index { inner, next } => larger(expr_nesting(*inner), tail_nesting(*next)),
        ExprTail::TernaryConditional { second, third, next } => larger(
            expr_nesting(*second),
            larger(expr_nesting(*third), tail_nesting(*next)),
        ),
    }
}

pub open spec fn args_nesting(args: Seq<Expression>) -> nat
    decreases args,
{
    if args.len() == 0 {
        0
    } else {
        larger(args_nesting(args.drop_last()), expr_nesting(args.last()))
    }
}

pub open spec fn opt_expr_nesting(e: Option<Expression>) -> nat {
    match e {
        Some(x) => expr_nesting(x),
        None => 0,
    }
}

pub open spec fn stmt_nesting(s: Statement) -> nat
    decreases s, 1nat,
{
    1 + stmt_parts_nesting(s)
}

pub open spec fn stmt_parts_nesting(s: Statement) -> nat
    decreases s, 0nat,
{
    match s {
        Statement::Expression(e) => expr_nesting(e),
        Statement::VarDec { right, .. } => opt_expr_nesting(right),
        Statement::VarAssign { right, .. } => expr_nesting(right),
        Statement::BinOpVarAssign { right, .. } => expr_nesting(right),
        Statement::Return(value) => opt_expr_nesting(value),
        Statement::If { base, elseifs, tail } => larger(
            larger(expr_nesting(base.condition), body_nesting(base.body@)),
            larger(conds_nesting(elseifs@), opt_body_nesting(tail)),
        ),
        Statement::While(cb) => larger(expr_nesting(cb.condition), body_nesting(cb.body@)),
        Statement::DoWhile { condition, body } => larger(expr_nesting(condition), body_nesting(body@)),
        Statement::For { init, condition, increment, body } => larger(
            larger(stmt_nesting(*init), expr_nesting(condition)),
            larger(stmt_nesting(*increment), body_nesting(body@)),
        ),
        Statement::Switch { atom, cases, default } => larger(
            atom_nesting(atom),
            larger(cases_nesting(cases@), opt_body_nesting(default)),
        ),
        _ => 0,
    }
}

pub open spec fn body_nesting(body: Seq<Statement>) -> nat
    decreases body, 0nat,
{
    if body.len() == 0 {
        0
    } else {
        larger(body_nesting(body.drop_last()), stmt_nesting(body.last()))
    }
}

pub open spec fn opt_body_nesting(body: Option<Vec<Statement>>) -> nat
    decreases body, 0nat,
{
    match body {
        Some(b) => body_nesting(b@),
        None => 0,
    }
}

pub open spec fn conds_nesting(cbs: Seq<ConditionBody>) -> nat
    decreases cbs, 0nat,
{
    if cbs.len() == 0 {
        0
    } else {
        larger(
            conds_nesting(cbs.drop_last()),
            larger(expr_nesting(cbs.last().condition), body_nesting(cbs.last().body@)),
        )
    }
}

pub open spec fn cases_nesting(cases: Seq<CaseStatement>) -> nat
    decreases cases, 0nat,
{
    if cases.len() == 0 {
        0
    } else {
        larger(
            cases_nesting(cases.drop_last()),
            larger(atom_nesting(cases.last().atom), body_nesting(cases.last().body@)),
        )
    }
}

/// No function body or global initialiser of the item nests more deeply
/// than the depth limit.
pub open spec fn toplevel_fits(t: TopLevel) -> bool
    decreases t, 0nat,
{
    match t {
        TopLevel::Module { name, body } => toplevels_fit(body@),
        TopLevel::Function(f) => body_nesting(f.body@) <= MAX_REWRITE_DEPTH,
        TopLevel::VarDeclaration { right, .. } => opt_expr_nesting(right) <= MAX_REWRITE_DEPTH,
        _ => true,
    }
}

pub open spec fn toplevels_fit(items: Seq<TopLevel>) -> bool
    decreases items, 0nat,
{
    if items.len() == 0 {
        true
    } else {
        toplevels_fit(items.drop_last()) && toplevel_fits(items.last())
    }
}

pub proof fn lemma_expr_fits<FE: Fn(Expression) -> Result<Expression, String>>(ef: Seq<FE>, e: Expression, fuel: nat)
    requires
        ef.len() == 0,
        fuel >= expr_nesting(e),
    ensures
        expr_outcome(ef, e, fuel) is None,
    decreases fuel, e,
{
    assert(apply_expr_transformers(ef, e) == Ok::<Expression, String>(e));
    lemma_atom_fits(ef, e.atom, (fuel - 1) as nat);
    lemma_tail_fits(ef, e.tail, (fuel - 1) as nat);
}

pub proof fn lemma_atom_fits<FE: Fn(Expression) -> Result<Expression, String>>(ef: Seq<FE>, a: Atom, fuel: nat)
    requires
        ef.len() == 0,
        fuel >= atom_nesting(a),
    ensures
        atom_outcome(ef, a, fuel) is None,
    decreases fuel, a,
{
    match a {
        Atom::TypeCast { typ, value } => {
            lemma_expr_fits(ef, *value, fuel);
        },
        Atom::UnaryOperation { op, value } => {
            lemma_expr_fits(ef, *value, fuel);
        },
        Atom::Wrapped(value) => {
            lemma_expr_fits(ef, *value, fuel);
        },
        _ => {},
    }
}

pub proof fn lemma_tail_fits<FE: Fn(Expression) -> Result<Expression, String>>(ef: Seq<FE>, t: ExprTail, fuel: nat)
    requires
        ef.len() == 0,
        fuel >= tail_nesting(t),
    ensures
        tail_outcome(ef, t, fuel) is None,
    decreases fuel, t,
{
    match t {
        ExprTail::End => {},
        ExprTail::Call { body, next } => {
            lemma_args_fits(ef, body@, fuel);
            lemma_tail_fits(ef, *next, fuel);
        },
        ExprTail::BinaryOp { op, right, next } => {
            lemma_expr_fits(ef, *right, fuel);
            lemma_tail_fits(ef, *next, fuel);
        },
        ExprTail::MemberAccess { member, next } => {
            lemma_tail_fits(ef, *next, fuel);
        },
        ExprTail::PointerAccess { member, next } => {
            lemma_tail_fits(ef, *next, fuel);
        },
        ExprTail::Index { inner, next } => {
            lemma_expr_fits(ef, *inner, fuel);
            lemma_tail_fits(ef, *next, fuel);
        },
        ExprTail::TernaryConditional { second, third, next } => {
            lemma_expr_fits(ef, *second, fuel);
            lemma_expr_fits(ef, *third, fuel);
            lemma_tail_fits(ef, *next, fuel);
        },
    }
}

pub proof fn lemma_args_fits<FE: Fn(Expression) -> Result<Expression, String>>(
    ef: Seq<FE>,
    args: Seq<Expression>,
    fuel: nat,
)
    requires
        ef.len() == 0,
        fuel >= args_nesting(args),
    ensures
        args_outcome(ef, args, fuel) is None,
    decreases fuel, args,
{
    if args.len() > 0 {
        lemma_args_fits(ef, args.drop_last(), fuel);
        lemma_expr_fits(ef, args.last(), fuel);
    }
}

pub proof fn lemma_stmt_fits<FE: Fn(Expression) -> Result<Expression, String>, FS: Fn(Statement) -> Result<Statement, String>>(
    ef: Seq<FE>,
    sf: Seq<FS>,
    s: Statement,
    fuel: nat,
)
    requires
        ef.len() == 0,
        sf.len() == 0,
        fuel >= stmt_nesting(s),
    ensures
        stmt_outcome(ef, sf, s, fuel) is None,
    decreases fuel, s, 1nat,
{
    assert(apply_stmt_transformers(sf, s) == Ok::<Statement, String>(s));
    lemma_stmt_parts_fits(ef, sf, s, (fuel - 1) as nat);
}

pub proof fn lemma_stmt_parts_fits<FE: Fn(Expression) -> Result<Expression, String>, FS: Fn(Statement) -> Result<Statement, String>>(
    ef: Seq<FE>,
    sf: Seq<FS>,
    s: Statement,
    fuel: nat,
)
    requires
        ef.len() == 0,
        sf.len() == 0,
        fuel >= stmt_parts_nesting(s),
    ensures
        stmt_parts_outcome(ef, sf, s, fuel) is None,
    decreases fuel, s, 0nat,
{
    match s {
        Statement::Expression(e) => {
            lemma_expr_fits(ef, e, fuel);
        },
        Statement::VarDec { right, .. } => {
            if right is Some {
                lemma_expr_fits(ef, right->Some_0, fuel);
            }
        },
        Statement::VarAssign { right, .. } => {
            lemma_expr_fits(ef, right, fuel);
        },
        Statement::BinOpVarAssign { right, .. } => {
            lemma_expr_fits(ef, right, fuel);
        },
        Statement::Return(value) => {
            if value is Some {
                lemma_expr_fits(ef, value->Some_0, fuel);
            }
        },
        Statement::If { base, elseifs, tail } => {
            lemma_expr_fits(ef, base.condition, fuel);
            lemma_body_fits(ef, sf, base.body@, fuel);
            lemma_conds_fits(ef, sf, elseifs@, fuel);
            if tail is Some {
                lemma_body_fits(ef, sf, tail->Some_0@, fuel);
            }
        },
        Statement::While(cb) => {
            lemma_expr_fits(ef, cb.condition, fuel);
            lemma_body_fits(ef, sf, cb.body@, fuel);
        },
        Statement::DoWhile { condition, body } => {
            lemma_expr_fits(ef, condition, fuel);
            lemma_body_fits(ef, sf, body@, fuel);
        },
        Statement::For { init, condition, increment, body } => {
            lemma_stmt_fits(ef, sf, *init, fuel);
            lemma_expr_fits(ef, condition, fuel);
            lemma_stmt_fits(ef, sf, *increment, fuel);
            lemma_body_fits(ef, sf, body@, fuel);
        },
        Statement::Switch { atom, cases, default } => {
            lemma_atom_fits(ef, atom, fuel);
            lemma_cases_fits(ef, sf, cases@, fuel);
            if default is Some {
                lemma_body_fits(ef, sf, default->Some_0@, fuel);
            }
        },
        _ => {},
    }
}

pub proof fn lemma_body_fits<FE: Fn(Expression) -> Result<Expression, String>, FS: Fn(Statement) -> Result<Statement, String>>(
    ef: Seq<FE>,
    sf: Seq<FS>,
    body: Seq<Statement>,
    fuel: nat,
)
    requires
        ef.len() == 0,
        sf.len() == 0,
        fuel >= body_nesting(body),
    ensures
        body_outcome(ef, sf, body, fuel) is None,
    decreases fuel, body, 0nat,
{
    if body.len() > 0 {
        lemma_body_fits(ef, sf, body.drop_last(), fuel);
        lemma_stmt_fits(ef, sf, body.last(), fuel);
    }
}

pub proof fn lemma_conds_fits<FE: Fn(Expression) -> Result<Expression, String>, FS: Fn(Statement) -> Result<Statement, String>>(
    ef: Seq<FE>,
    sf: Seq<FS>,
    cbs: Seq<ConditionBody>,
    fuel: nat,
)
    requires
        ef.len() == 0,
        sf.len() == 0,
        fuel >= conds_nesting(cbs),
    ensures
        conds_outcome(ef, sf, cbs, fuel) is None,
    decreases fuel, cbs, 0nat,
{
    if cbs.len() > 0 {
        lemma_conds_fits(ef, sf, cbs.drop_last(), fuel);
        let cb = cbs.last();
        assert(decreases_to!(cbs => cb));
        lemma_expr_fits(ef, cb.condition, fuel);
        lemma_body_fits(ef, sf, cb.body@, fuel);
        assert(cond_outcome(ef, sf, cb, fuel) is None);
    }
}

pub proof fn lemma_cases_fits<FE: Fn(Expression) -> Result<Expression, String>, FS: Fn(Statement) -> Result<Statement, String>>(
    ef: Seq<FE>,
    sf: Seq<FS>,
    cases: Seq<CaseStatement>,
    fuel: nat,
)
    requires
        ef.len() == 0,
        sf.len() == 0,
        fuel >= cases_nesting(cases),
    ensures
        cases_outcome(ef, sf, cases, fuel) is None,
    decreases fuel, cases, 0nat,
{
    if cases.len() > 0 {
        lemma_cases_fits(ef, sf, cases.drop_last(), fuel);
        let c = cases.last();
        assert(decreases_to!(cases => c));
        lemma_atom_fits(ef, c.atom, fuel);
        lemma_body_fits(ef, sf, c.body@, fuel);
        assert(case_outcome(ef, sf, c, fuel) is None);
    }
}

pub proof fn lemma_toplevel_fits<FE: Fn(Expression) -> Result<Expression, String>, FS: Fn(Statement) -> Result<Statement, String>>(
    ef: Seq<FE>,
    sf: Seq<FS>,
    t: TopLevel,
)
    requires
        ef.len() == 0,
        sf.len() == 0,
        toplevel_fits(t),
    ensures
        toplevel_outcome(ef, sf, t) is None,
    decreases t, 1nat,
{
    match t {
        TopLevel::Module { name, body } => {
            lemma_toplevels_fit(ef, sf, body@);
        },
        TopLevel::Function(f) => {
            lemma_body_fits(ef, sf, f.body@, MAX_REWRITE_DEPTH as nat);
        },
        TopLevel::VarDeclaration { right, .. } => {
            if right is Some {
                lemma_expr_fits(ef, right->Some_0, MAX_REWRITE_DEPTH as nat);
            }
        },
        _ => {},
    }
}

pub proof fn lemma_toplevels_fit<FE: Fn(Expression) -> Result<Expression, String>, FS: Fn(Statement) -> Result<Statement, String>>(
    ef: Seq<FE>,
    sf: Seq<FS>,
    items: Seq<TopLevel>,
)
    requires
        ef.len() == 0,
        sf.len() == 0,
        toplevels_fit(items),
    ensures
        toplevels_outcome(ef, sf, items) is None,
    decreases items, 0nat,
{
    if items.len() > 0 {
        lemma_toplevels_fit(ef, sf, items.drop_last());
        lemma_toplevel_fits(ef, sf, items.last());
    }
}

/// Rewriting with no transformers registered changes nothing in the text:
/// the rewrite succeeds, every program it can give has the text of the
/// input, and the whole pipeline gives exactly the text that generating the
/// input directly gives. The premise only asks that no function body or
/// global initialiser nests more deeply than `MAX_REWRITE_DEPTH`, the
/// largest count a `usize` holds, which no tree in memory reaches.
pub proof fn lemma_no_transformers_same_text<FE: Fn(Expression) -> Result<Expression, String>, FS: Fn(Statement) -> Result<Statement, String>>(
    ef: Seq<FE>,
    sf: Seq<FS>,
    p: Program,
)
    requires
        ef.len() == 0,
        sf.len() == 0,
        toplevels_fit(p.statements@),
    ensures
        program_outcome(ef, sf, p) is None,
        forall|q: Program| program_result(ef, sf, p, q) ==> program_text(q) == program_text(p),
        forall|r: Result<String, MutateError>|
            code_gen_outcome(ef, sf, p, r) ==> r is Ok && r->Ok_0@ == program_text(p),
{
    lemma_toplevels_fit(ef, sf, p.statements@);
    assert forall|q: Program| program_result(ef, sf, p, q) implies program_text(q) == program_text(p) by {
        lemma_toplevels_text_kept(ef, sf, p.statements@, q.statements@, Seq::empty());
    }
}

// Two results of one rewrite have one text: the transformers' results are
// fixed by the rewritten node, so everything the text depends on is fixed.

pub proof fn lemma_expr_results_agree<FE: Fn(Expression) -> Result<Expression, String>>(
    ef: Seq<FE>,
    e: Expression,
    fuel: nat,
    r1: Expression,
    r2: Expression,
)
    requires
        expr_result(ef, e, fuel, r1),
        expr_result(ef, e, fuel, r2),
    ensures
        expr_text(r1) == expr_text(r2),
    decreases fuel, e,
{
    let e1 = apply_expr_transformers(ef, e)->Ok_0;
    lemma_atom_results_agree(ef, e1.atom, (fuel - 1) as nat, r1.atom, r2.atom);
    lemma_tail_results_agree(ef, e1.tail, (fuel - 1) as nat, r1.tail, r2.tail);
}

pub proof fn lemma_atom_results_agree<FE: Fn(Expression) -> Result<Expression, String>>(
    ef: Seq<FE>,
    a: Atom,
    fuel: nat,
    r1: Atom,
    r2: Atom,
)
    requires
        atom_result(ef, a, fuel, r1),
        atom_result(ef, a, fuel, r2),
    ensures
        atom_text(r1) == atom_text(r2),
    decreases fuel, a,
{
    match a {
        Atom::TypeCast { typ, value } => {
            lemma_expr_results_agree(ef, *value, fuel, *r1->TypeCast_value, *r2->TypeCast_value);
        },
        Atom::UnaryOperation { op, value } => {
            lemma_expr_results_agree(ef, *value, fuel, *r1->UnaryOperation_value, *r2->UnaryOperation_value);
        },
        Atom::Wrapped(value) => {
            lemma_expr_results_agree(ef, *value, fuel, *r1->Wrapped_0, *r2->Wrapped_0);
        },
        _ => {},
    }
}

pub proof fn lemma_tail_results_agree<FE: Fn(Expression) -> Result<Expression, String>>(
    ef: Seq<FE>,
    t: ExprTail,
    fuel: nat,
    r1: ExprTail,
    r2: ExprTail,
)
    requires
        tail_result(ef, t, fuel, r1),
        tail_result(ef, t, fuel, r2),
    ensures
        tail_text(r1) == tail_text(r2),
    decreases fuel, t,
{
    match t {
        ExprTail::End => {},
        ExprTail::Call { body, next } => {
            lemma_args_results_agree(ef, body@, fuel, r1->Call_body@, r2->Call_body@);
            lemma_tail_results_agree(ef, *next, fuel, *r1->Call_next, *r2->Call_next);
        },
        ExprTail::BinaryOp { op, right, next } => {
            lemma_expr_results_agree(ef, *right, fuel, *r1->BinaryOp_right, *r2->BinaryOp_right);
            lemma_tail_results_agree(ef, *next, fuel, *r1->BinaryOp_next, *r2->BinaryOp_next);
        },
        ExprTail::MemberAccess { member, next } => {
            lemma_tail_results_agree(ef, *next, fuel, *r1->MemberAccess_next, *r2->MemberAccess_next);
        },
        ExprTail::PointerAccess { member, next } => {
            lemma_tail_results_agree(ef, *next, fuel, *r1->PointerAccess_next, *r2->PointerAccess_next);
        },
        ExprTail::Index { inner, next } => {
            lemma_expr_results_agree(ef, *inner, fuel, *r1->Index_inner, *r2->Index_inner);
            lemma_tail_results_agree(ef, *next, fuel, *r1->Index_next, *r2->Index_next);
        },
        ExprTail::TernaryConditional { second, third, next } => {
            lemma_expr_results_agree(
                ef,
                *second,
                fuel,
                *r1->TernaryConditional_second,
                *r2->TernaryConditional_second,
            );
            lemma_expr_results_agree(ef, *third, fuel, *r1->TernaryConditional_third, *r2->TernaryConditional_third);
            lemma_tail_results_agree(ef, *next, fuel, *r1->TernaryConditional_next, *r2->TernaryConditional_next);
        },
    }
}

pub proof fn lemma_args_results_agree<FE: Fn(Expression) -> Result<Expression, String>>(
    ef: Seq<FE>,
    args: Seq<Expression>,
    fuel: nat,
    r1: Seq<Expression>,
    r2: Seq<Expression>,
)
    requires
        args_result(ef, args, fuel, r1),
        args_result(ef, args, fuel, r2),
    ensures
        args_text(r1) == args_text(r2),
    decreases fuel, args,
{
    if args.len() > 0 {
        lemma_args_results_agree(ef, args.drop_last(), fuel, r1.drop_last(), r2.drop_last());
        lemma_expr_results_agree(ef, args.last(), fuel, r1.last(), r2.last());
    }
}

pub proof fn lemma_stmt_results_agree<FE: Fn(Expression) -> Result<Expression, String>, FS: Fn(Statement) -> Result<Statement, String>>(
    ef: Seq<FE>,
    sf: Seq<FS>,
    s: Statement,
    fuel: nat,
    r1: Statement,
    r2: Statement,
    level: nat,
)
    requires
        stmt_result(ef, sf, s, fuel, r1),
        stmt_result(ef, sf, s, fuel, r2),
    ensures
        stmt_core_text(r1, level) == stmt_core_text(r2, level),
        spec_has_terminator(r1) == spec_has_terminator(r2),
    decreases fuel, s, 1nat,
{
    let s1 = apply_stmt_transformers(sf, s)->Ok_0;
    lemma_stmt_parts_results_agree(ef, sf, s1, (fuel - 1) as nat, r1, r2, level);
}

pub proof fn lemma_stmt_parts_results_agree<FE: Fn(Expression) -> Result<Expression, String>, FS: Fn(Statement) -> Result<Statement, String>>(
    ef: Seq<FE>,
    sf: Seq<FS>,
    s: Statement,
    fuel: nat,
    r1: Statement,
    r2: Statement,
    level: nat,
)
    requires
        stmt_parts_result(ef, sf, s, fuel, r1),
        stmt_parts_result(ef, sf, s, fuel, r2),
    ensures
        stmt_core_text(r1, level) == stmt_core_text(r2, level),
        spec_has_terminator(r1) == spec_has_terminator(r2),
    decreases fuel, s, 0nat,
{
    let inner = deeper_level(level);
    match s {
        Statement::Expression(e) => {
            lemma_expr_results_agree(ef, e, fuel, r1->Expression_0, r2->Expression_0);
        },
        Statement::VarDec { typ, name, right, modifier } => {
            if right is Some {
                lemma_expr_results_agree(ef, right->Some_0, fuel, r1->VarDec_right->Some_0, r2->VarDec_right->Some_0);
            }
        },
        Statement::VarAssign { identifier, right } => {
            lemma_expr_results_agree(ef, right, fuel, r1->VarAssign_right, r2->VarAssign_right);
        },
        Statement::BinOpVarAssign { identifier, op, right } => {
            lemma_expr_results_agree(ef, right, fuel, r1->BinOpVarAssign_right, r2->BinOpVarAssign_right);
        },
        Statement::Return(value) => {
            if value is Some {
                lemma_expr_results_agree(ef, value->Some_0, fuel, r1->Return_0->Some_0, r2->Return_0->Some_0);
            }
        },
        Statement::If { base, elseifs, tail } => {
            let (b1, b2) = (r1->If_base, r2->If_base);
            lemma_expr_results_agree(ef, base.condition, fuel, b1.condition, b2.condition);
            lemma_body_results_agree(ef, sf, base.body@, fuel, b1.body@, b2.body@, inner);
            assert(block_text(b1.body@, level) == block_text(b2.body@, level));
            lemma_conds_results_agree(ef, sf, elseifs@, fuel, r1->If_elseifs@, r2->If_elseifs@, level);
            if tail is Some {
                lemma_body_results_agree(
                    ef,
                    sf,
                    tail->Some_0@,
                    fuel,
                    r1->If_tail->Some_0@,
                    r2->If_tail->Some_0@,
                    inner,
                );
                assert(block_text(r1->If_tail->Some_0@, level) == block_text(r2->If_tail->Some_0@, level));
            }
            assert(else_text(r1->If_tail, level) == else_text(r2->If_tail, level));
        },
        Statement::While(cb) => {
            let (c1, c2) = (r1->While_0, r2->While_0);
            lemma_expr_results_agree(ef, cb.condition, fuel, c1.condition, c2.condition);
            lemma_body_results_agree(ef, sf, cb.body@, fuel, c1.body@, c2.body@, inner);
            assert(block_text(c1.body@, level) == block_text(c2.body@, level));
        },
        Statement::DoWhile { condition, body } => {
            lemma_expr_results_agree(ef, condition, fuel, r1->DoWhile_condition, r2->DoWhile_condition);
            lemma_body_results_agree(ef, sf, body@, fuel, r1->DoWhile_body@, r2->DoWhile_body@, inner);
            assert(block_text(r1->DoWhile_body@, level) == block_text(r2->DoWhile_body@, level));
        },
        Statement::For { init, condition, increment, body } => {
            lemma_stmt_results_agree(ef, sf, *init, fuel, *r1->For_init, *r2->For_init, 0);
            lemma_expr_results_agree(ef, condition, fuel, r1->For_condition, r2->For_condition);
            lemma_stmt_results_agree(ef, sf, *increment, fuel, *r1->For_increment, *r2->For_increment, 0);
            lemma_body_results_agree(ef, sf, body@, fuel, r1->For_body@, r2->For_body@, inner);
            assert(block_text(r1->For_body@, level) == block_text(r2->For_body@, level));
        },
        Statement::Switch { atom, cases, default } => {
            lemma_atom_results_agree(ef, atom, fuel, r1->Switch_atom, r2->Switch_atom);
            lemma_cases_results_agree(ef, sf, cases@, fuel, r1->Switch_cases@, r2->Switch_cases@, level);
            if default is Some {
                lemma_body_results_agree(
                    ef,
                    sf,
                    default->Some_0@,
                    fuel,
                    r1->Switch_default->Some_0@,
                    r2->Switch_default->Some_0@,
                    deeper_level(inner),
                );
            }
            assert(default_text(r1->Switch_default, level) == default_text(r2->Switch_default, level));
        },
        _ => {},
    }
}

pub proof fn lemma_body_results_agree<FE: Fn(Expression) -> Result<Expression, String>, FS: Fn(Statement) -> Result<Statement, String>>(
    ef: Seq<FE>,
    sf: Seq<FS>,
    body: Seq<Statement>,
    fuel: nat,
    r1: Seq<Statement>,
    r2: Seq<Statement>,
    level: nat,
)
    requires
        body_result(ef, sf, body, fuel, r1),
        body_result(ef, sf, body, fuel, r2),
    ensures
        body_text(r1, level) == body_text(r2, level),
    decreases fuel, body, 0nat,
{
    if body.len() > 0 {
        lemma_body_results_agree(ef, sf, body.drop_last(), fuel, r1.drop_last(), r2.drop_last(), level);
        lemma_stmt_results_agree(ef, sf, body.last(), fuel, r1.last(), r2.last(), level);
    }
}

pub proof fn lemma_conds_results_agree<FE: Fn(Expression) -> Result<Expression, String>, FS: Fn(Statement) -> Result<Statement, String>>(
    ef: Seq<FE>,
    sf: Seq<FS>,
    cbs: Seq<ConditionBody>,
    fuel: nat,
    r1: Seq<ConditionBody>,
    r2: Seq<ConditionBody>,
    level: nat,
)
    requires
        conds_result(ef, sf, cbs, fuel, r1),
        conds_result(ef, sf, cbs, fuel, r2),
    ensures
        elseifs_text(r1, level) == elseifs_text(r2, level),
    decreases fuel, cbs, 0nat,
{
    if cbs.len() > 0 {
        lemma_conds_results_agree(ef, sf, cbs.drop_last(), fuel, r1.drop_last(), r2.drop_last(), level);
        let cb = cbs.last();
        assert(decreases_to!(cbs => cb));
        assert(cond_result(ef, sf, cb, fuel, r1.last()));
        assert(cond_result(ef, sf, cb, fuel, r2.last()));
        lemma_expr_results_agree(ef, cb.condition, fuel, r1.last().condition, r2.last().condition);
        assert(block_text(r1.last().body@, level) == block_text(r2.last().body@, level)) by {
            lemma_body_results_agree(ef, sf, cb.body@, fuel, r1.last().body@, r2.last().body@, deeper_level(level));
        }
    }
}

pub proof fn lemma_cases_results_agree<FE: Fn(Expression) -> Result<Expression, String>, FS: Fn(Statement) -> Result<Statement, String>>(
    ef: Seq<FE>,
    sf: Seq<FS>,
    cases: Seq<CaseStatement>,
    fuel: nat,
    r1: Seq<CaseStatement>,
    r2: Seq<CaseStatement>,
    level: nat,
)
    requires
        cases_result(ef, sf, cases, fuel, r1),
        cases_result(ef, sf, cases, fuel, r2),
    ensures
        cases_text(r1, level) == cases_text(r2, level),
    decreases fuel, cases, 0nat,
{
    if cases.len() > 0 {
        lemma_cases_results_agree(ef, sf, cases.drop_last(), fuel, r1.drop_last(), r2.drop_last(), level);
        let c = cases.last();
        assert(decreases_to!(cases => c));
        assert(case_result(ef, sf, c, fuel, r1.last()));
        assert(case_result(ef, sf, c, fuel, r2.last()));
        lemma_atom_results_agree(ef, c.atom, fuel, r1.last().atom, r2.last().atom);
        lemma_body_results_agree(
            ef,
            sf,
            c.body@,
            fuel,
            r1.last().body@,
            r2.last().body@,
            deeper_level(deeper_level(level)),
        );
    }
}

pub proof fn lemma_toplevel_results_agree<FE: Fn(Expression) -> Result<Expression, String>, FS: Fn(Statement) -> Result<Statement, String>>(
    ef: Seq<FE>,
    sf: Seq<FS>,
    t: TopLevel,
    r1: TopLevel,
    r2: TopLevel,
    name_prefix: Seq<char>,
)
    requires
        toplevel_result(ef, sf, t, r1),
        toplevel_result(ef, sf, t, r2),
    ensures
        toplevel_text(r1, name_prefix) == toplevel_text(r2, name_prefix),
    decreases t, 1nat,
{
    match t {
        TopLevel::Module { name, body } => {
            lemma_toplevels_results_agree(
                ef,
                sf,
                body@,
                r1->Module_body@,
                r2->Module_body@,
                name_prefix + module_prefix_text(name@),
            );
        },
        TopLevel::Function(f) => {
            lemma_body_results_agree(
                ef,
                sf,
                f.body@,
                MAX_REWRITE_DEPTH as nat,
                r1->Function_0.body@,
                r2->Function_0.body@,
                1,
            );
        },
        TopLevel::VarDeclaration { typ, name, right, modifier } => {
            if right is Some {
                lemma_expr_results_agree(
                    ef,
                    right->Some_0,
                    MAX_REWRITE_DEPTH as nat,
                    r1->VarDeclaration_right->Some_0,
                    r2->VarDeclaration_right->Some_0,
                );
            }
        },
        _ => {},
    }
}

pub proof fn lemma_toplevels_results_agree<FE: Fn(Expression) -> Result<Expression, String>, FS: Fn(Statement) -> Result<Statement, String>>(
    ef: Seq<FE>,
    sf: Seq<FS>,
    items: Seq<TopLevel>,
    r1: Seq<TopLevel>,
    r2: Seq<TopLevel>,
    name_prefix: Seq<char>,
)
    requires
        toplevels_result(ef, sf, items, r1),
        toplevels_result(ef, sf, items, r2),
    ensures
        toplevels_text(r1, name_prefix) == toplevels_text(r2, name_prefix),
    decreases items, 0nat,
{
    if items.len() > 0 {
        lemma_toplevels_results_agree(ef, sf, items.drop_last(), r1.drop_last(), r2.drop_last(), name_prefix);
        lemma_toplevel_results_agree(ef, sf, items.last(), r1.last(), r2.last(), name_prefix);
    }
}

/// The rewrite of a program fixes the text of its result: any two programs
/// it can give generate the same text. So the text that the pipeline gives
/// is the text of the program that `mutate_program` returns, item by item
/// in order.
pub proof fn lemma_code_gen_text_is_rewrite_text<FE: Fn(Expression) -> Result<Expression, String>, FS: Fn(Statement) -> Result<Statement, String>>(
    ef: Seq<FE>,
    sf: Seq<FS>,
    p: Program,
    q: Program,
    r: Result<String, MutateError>,
)
    requires
        program_result(ef, sf, p, q),
        code_gen_outcome(ef, sf, p, r),
        r is Ok,
    ensures
        r->Ok_0@ == program_text(q),
        forall|n: int|
            0 <= n < q.statements@.len() ==> r->Ok_0@ == toplevels_text(q.statements@.take(n), Seq::empty())
                + toplevel_text(#[trigger] q.statements@[n], Seq::empty()) + "\n"@ + toplevels_text(
                q.statements@.skip(n + 1),
                Seq::empty(),
            ),
{
    let q2 = choose|q2: Program| program_result(ef, sf, p, q2) && r->Ok_0@ == program_text(q2);
    lemma_toplevels_results_agree(ef, sf, p.statements@, q.statements@, q2.statements@, Seq::empty());
    assert forall|n: int| 0 <= n < q.statements@.len() implies r->Ok_0@ == toplevels_text(
        q.statements@.take(n),
        Seq::empty(),
    ) + toplevel_text(#[trigger] q.statements@[n], Seq::empty()) + "\n"@ + toplevels_text(
        q.statements@.skip(n + 1),
        Seq::empty(),
    ) by {
        lemma_program_text_in_order(q, n);
    }
}

// Failure at any depth: a path leads from a function body down through
// nested blocks to a statement on which the statement transformers fail.

/// The blocks of a statement, in the order its rewrite visits them: the
/// bodies of a loop, of an `if` (its own, each `else if`'s, then the
/// `else`), or of a switch (each case's, then the default).
pub open spec fn blocks_of(s: Statement) -> Seq<Seq<Statement>> {
    match s {
        Statement::While(cb) => seq![cb.body@],
        Statement::DoWhile { body, .. } => seq![body@],
        Statement::For { body, .. } => seq![body@],
        Statement::If { base, elseifs, tail } => seq![base.body@] + elseifs@.map_values(
            |cb: ConditionBody| cb.body@,
        ) + match tail {
            Some(t) => seq![t@],
            None => Seq::empty(),
        },
        Statement::Switch { cases, default, .. } => cases@.map_values(|c: CaseStatement| c.body@) + match default {
            Some(d) => seq![d@],
            None => Seq::empty(),
        },
        _ => Seq::empty(),
    }
}

/// Every part of a statement that is not one of its blocks rewrites
/// without failure: its conditions, case atoms, and a `for` loop's init and
/// increment.
pub open spec fn heads_succeed<FE: Fn(Expression) -> Result<Expression, String>, FS: Fn(Statement) -> Result<Statement, String>>(
    ef: Seq<FE>,
    sf: Seq<FS>,
    s: Statement,
    fuel: nat,
) -> bool {
    match s {
        Statement::While(cb) => expr_outcome(ef, cb.condition, fuel) is None,
        Statement::DoWhile { condition, .. } => expr_outcome(ef, condition, fuel) is None,
        Statement::For { init, condition, increment, .. } => stmt_outcome(ef, sf, *init, fuel) is None
            && expr_outcome(ef, condition, fuel) is None && stmt_outcome(ef, sf, *increment, fuel) is None,
        Statement::If { base, elseifs, .. } => expr_outcome(ef, base.condition, fuel) is None && forall|i: int|
            0 <= i < elseifs@.len() ==> (#[trigger] expr_outcome(ef, elseifs@[i].condition, fuel)) is None,
        Statement::Switch { atom, cases, .. } => atom_outcome(ef, atom, fuel) is None && forall|i: int|
            0 <= i < cases@.len() ==> (#[trigger] atom_outcome(ef, cases@[i].atom, fuel)) is None,
        _ => true,
    }
}

/// Every block of `s` but the `k`-th rewrites without failure.
pub open spec fn other_blocks_succeed<FE: Fn(Expression) -> Result<Expression, String>, FS: Fn(Statement) -> Result<Statement, String>>(
    ef: Seq<FE>,
    sf: Seq<FS>,
    s: Statement,
    k: int,
    fuel: nat,
) -> bool {
    forall|i: int|
        0 <= i < blocks_of(s).len() && i != k ==> (#[trigger] body_outcome(ef, sf, blocks_of(s)[i], fuel)) is None
}

/// `path` leads through `body` to a statement on which the statement
/// transformers fail with `msg`, and everything else the rewrite visits on
/// the way succeeds. Each step `(j, k)` picks the `j`-th statement of the
/// current block; unless it is the last step, the statement transformers
/// succeed on that statement and the walk goes on into the `k`-th block of
/// what they return.
pub open spec fn failure_path<FE: Fn(Expression) -> Result<Expression, String>, FS: Fn(Statement) -> Result<Statement, String>>(
    ef: Seq<FE>,
    sf: Seq<FS>,
    body: Seq<Statement>,
    fuel: nat,
    path: Seq<(int, int)>,
    msg: String,
) -> bool
    decreases path.len(),
{
    let j = path[0].0;
    let k = path[0].1;
    &&& path.len() > 0
    &&& fuel > 0
    &&& 0 <= j < body.len()
    &&& forall|i: int| 0 <= i < body.len() && i != j ==> (#[trigger] stmt_outcome(ef, sf, body[i], fuel)) is None
    &&& if path.len() == 1 {
        apply_stmt_transformers(sf, body[j]) == Err::<Statement, String>(msg)
    } else {
        let s1 = apply_stmt_transformers(sf, body[j])->Ok_0;
        &&& apply_stmt_transformers(sf, body[j]) is Ok
        &&& 0 <= k < blocks_of(s1).len()
        &&& heads_succeed(ef, sf, s1, (fuel - 1) as nat)
        &&& other_blocks_succeed(ef, sf, s1, k, (fuel - 1) as nat)
        &&& failure_path(ef, sf, blocks_of(s1)[k], (fuel - 1) as nat, path.drop_first(), msg)
    }
}

/// A list of condition bodies whose conditions all succeed fails with the
/// failure of its `k`-th body when every other body succeeds, and succeeds
/// when every body does.
proof fn lemma_conds_single_failure<FE: Fn(Expression) -> Result<Expression, String>, FS: Fn(Statement) -> Result<Statement, String>>(
    ef: Seq<FE>,
    sf: Seq<FS>,
    cbs: Seq<ConditionBody>,
    fuel: nat,
    k: int,
)
    requires
        forall|i: int| 0 <= i < cbs.len() ==> (#[trigger] expr_outcome(ef, cbs[i].condition, fuel)) is None,
        forall|i: int| 0 <= i < cbs.len() && i != k ==> (#[trigger] body_outcome(ef, sf, cbs[i].body@, fuel)) is None,
    ensures
        0 <= k < cbs.len() ==> conds_outcome(ef, sf, cbs, fuel) == body_outcome(ef, sf, cbs[k].body@, fuel),
        !(0 <= k < cbs.len()) ==> conds_outcome(ef, sf, cbs, fuel) is None,
    decreases cbs.len(),
{
    if cbs.len() > 0 {
        let prefix = cbs.drop_last();
        assert forall|i: int| 0 <= i < prefix.len() implies (#[trigger] expr_outcome(ef, prefix[i].condition, fuel))
            is None by {
            assert(prefix[i] == cbs[i]);
        }
        assert forall|i: int| 0 <= i < prefix.len() && i != k implies (#[trigger] body_outcome(
            ef,
            sf,
            prefix[i].body@,
            fuel,
        )) is None by {
            assert(prefix[i] == cbs[i]);
        }
        lemma_conds_single_failure(ef, sf, prefix, fuel, k);
        let last = cbs.len() - 1;
        assert(cbs.last() == cbs[last]);
        assert(expr_outcome(ef, cbs[last].condition, fuel) is None);
        assert(cond_outcome(ef, sf, cbs[last], fuel) == body_outcome(ef, sf, cbs[last].body@, fuel));
        if k != last {
            assert(body_outcome(ef, sf, cbs[last].body@, fuel) is None);
        }
        if 0 <= k < last {
            assert(prefix[k] == cbs[k]);
        }
    }
}

/// The same for the cases of a switch whose case atoms all succeed.
proof fn lemma_cases_single_failure<FE: Fn(Expression) -> Result<Expression, String>, FS: Fn(Statement) -> Result<Statement, String>>(
    ef: Seq<FE>,
    sf: Seq<FS>,
    cases: Seq<CaseStatement>,
    fuel: nat,
    k: int,
)
    requires
        forall|i: int| 0 <= i < cases.len() ==> (#[trigger] atom_outcome(ef, cases[i].atom, fuel)) is None,
        forall|i: int|
            0 <= i < cases.len() && i != k ==> (#[trigger] body_outcome(ef, sf, cases[i].body@, fuel)) is None,
    ensures
        0 <= k < cases.len() ==> cases_outcome(ef, sf, cases, fuel) == body_outcome(ef, sf, cases[k].body@, fuel),
        !(0 <= k < cases.len()) ==> cases_outcome(ef, sf, cases, fuel) is None,
    decreases cases.len(),
{
    if cases.len() > 0 {
        let prefix = cases.drop_last();
        assert forall|i: int| 0 <= i < prefix.len() implies (#[trigger] atom_outcome(ef, prefix[i].atom, fuel))
            is None by {
            assert(prefix[i] == cases[i]);
        }
        assert forall|i: int| 0 <= i < prefix.len() && i != k implies (#[trigger] body_outcome(
            ef,
            sf,
            prefix[i].body@,
            fuel,
        )) is None by {
            assert(prefix[i] == cases[i]);
        }
        lemma_cases_single_failure(ef, sf, prefix, fuel, k);
        let last = cases.len() - 1;
        assert(cases.last() == cases[last]);
        assert(atom_outcome(ef, cases[last].atom, fuel) is None);
        assert(case_outcome(ef, sf, cases[last], fuel) == body_outcome(ef, sf, cases[last].body@, fuel));
        if k != last {
            assert(body_outcome(ef, sf, cases[last].body@, fuel) is None);
        }
        if 0 <= k < last {
            assert(prefix[k] == cases[k]);
        }
    }
}

/// A statement whose heads and other blocks succeed fails exactly as its
/// `k`-th block does.
pub proof fn lemma_block_failure_fails_statement<FE: Fn(Expression) -> Result<Expression, String>, FS: Fn(Statement) -> Result<Statement, String>>(
    ef: Seq<FE>,
    sf: Seq<FS>,
    s: Statement,
    k: int,
    fuel: nat,
)
    requires
        0 <= k < blocks_of(s).len(),
        heads_succeed(ef, sf, s, fuel),
        other_blocks_succeed(ef, sf, s, k, fuel),
    ensures
        stmt_parts_outcome(ef, sf, s, fuel) == body_outcome(ef, sf, blocks_of(s)[k], fuel),
{
    let blocks = blocks_of(s);
    match s {
        Statement::If { base, elseifs, tail } => {
            let n = elseifs@.len() as int;
            assert(blocks[0] == base.body@);
            assert forall|i: int| 0 <= i < n implies #[trigger] blocks[i + 1] == elseifs@[i].body@ by {}
            assert forall|i: int| 0 <= i < n && i != k - 1 implies (#[trigger] body_outcome(
                ef,
                sf,
                elseifs@[i].body@,
                fuel,
            )) is None by {
                assert(blocks[i + 1] == elseifs@[i].body@);
            }
            lemma_conds_single_failure(ef, sf, elseifs@, fuel, k - 1);
            if tail is Some {
                assert(blocks[n + 1] == tail->Some_0@);
                if k != n + 1 {
                    assert(body_outcome(ef, sf, blocks[n + 1], fuel) is None);
                }
            }
            if k != 0 {
                assert(body_outcome(ef, sf, blocks[0], fuel) is None);
            }
            if 1 <= k <= n {
                assert(blocks[k] == elseifs@[k - 1].body@);
            }
        },
        Statement::Switch { atom, cases, default } => {
            let n = cases@.len() as int;
            assert forall|i: int| 0 <= i < n implies #[trigger] blocks[i] == cases@[i].body@ by {}
            assert forall|i: int| 0 <= i < n && i != k implies (#[trigger] body_outcome(
                ef,
                sf,
                cases@[i].body@,
                fuel,
            )) is None by {
                assert(blocks[i] == cases@[i].body@);
            }
            lemma_cases_single_failure(ef, sf, cases@, fuel, k);
            if default is Some {
                assert(blocks[n] == default->Some_0@);
                if k != n {
                    assert(body_outcome(ef, sf, blocks[n], fuel) is None);
                }
            }
            if 0 <= k < n {
                assert(blocks[k] == cases@[k].body@);
            }
        },
        _ => {},
    }
}

/// A statement transformer failing at the end of a failure path makes the
/// block at the start of the path fail with its message.
pub proof fn lemma_failure_path_fails_body<FE: Fn(Expression) -> Result<Expression, String>, FS: Fn(Statement) -> Result<Statement, String>>(
    ef: Seq<FE>,
    sf: Seq<FS>,
    body: Seq<Statement>,
    fuel: nat,
    path: Seq<(int, int)>,
    msg: String,
)
    requires
        failure_path(ef, sf, body, fuel, path, msg),
    ensures
        body_outcome(ef, sf, body, fuel) == Some(MutateError::Transformer(msg)),
    decreases path.len(),
{
    let j = path[0].0;
    let k = path[0].1;
    if path.len() == 1 {
        assert(stmt_outcome(ef, sf, body[j], fuel) == Some(MutateError::Transformer(msg)));
    } else {
        let s1 = apply_stmt_transformers(sf, body[j])->Ok_0;
        let inner = (fuel - 1) as nat;
        assert(fuel > 0);
        assert(apply_stmt_transformers(sf, body[j]) is Ok);
        lemma_failure_path_fails_body(ef, sf, blocks_of(s1)[k], inner, path.drop_first(), msg);
        lemma_block_failure_fails_statement(ef, sf, s1, k, inner);
        assert(stmt_parts_outcome(ef, sf, s1, inner) == Some(MutateError::Transformer(msg)));
        assert(stmt_outcome(ef, sf, body[j], fuel) == Some(MutateError::Transformer(msg)));
    }
    lemma_body_first_failure(ef, sf, body, fuel, j);
}

/// A statement transformer that fails on a statement at any depth inside a
/// function aborts the whole pipeline with its message, and no text comes
/// out: given that everything else the rewrite visits, in the other items
/// and along the way down to that statement, succeeds.
pub proof fn lemma_nested_statement_failure_aborts<FE: Fn(Expression) -> Result<Expression, String>, FS: Fn(Statement) -> Result<Statement, String>>(
    ef: Seq<FE>,
    sf: Seq<FS>,
    p: Program,
    k: int,
    path: Seq<(int, int)>,
    msg: String,
)
    requires
        0 <= k < p.statements@.len(),
        p.statements@[k] is Function,
        forall|i: int|
            0 <= i < p.statements@.len() && i != k ==> (#[trigger] toplevel_outcome(ef, sf, p.statements@[i])) is None,
        failure_path(ef, sf, p.statements@[k]->Function_0.body@, MAX_REWRITE_DEPTH as nat, path, msg),
    ensures
        program_outcome(ef, sf, p) == Some(MutateError::Transformer(msg)),
        forall|r: Result<String, MutateError>|
            code_gen_outcome(ef, sf, p, r) ==> r == Err::<String, MutateError>(MutateError::Transformer(msg)),
{
    lemma_failure_path_fails_body(
        ef,
        sf,
        p.statements@[k]->Function_0.body@,
        MAX_REWRITE_DEPTH as nat,
        path,
        msg,
    );
    assert(toplevel_outcome(ef, sf, p.statements@[k]) == Some(MutateError::Transformer(msg)));
    lemma_toplevels_first_failure(ef, sf, p.statements@, k);
}

} // verus!
