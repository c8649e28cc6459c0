use vstd::prelude::*;

use crate::ast::expression::{Atom, ExprTail, Expression};
use crate::ast::function::Function;
use crate::ast::program::Program;
use crate::ast::statement::{CaseStatement, ConditionBody, Statement};
use crate::ast::toplevel::TopLevel;
use crate::mutating::semantics::{
    apply_expr_transformers, apply_stmt_transformers, args_outcome, args_result, atom_outcome, atom_result,
    body_outcome, body_result, case_outcome, case_result, cases_outcome, cases_result, cond_outcome, cond_result,
    conds_outcome, conds_result, expr_outcome, expr_result, expr_step, first_failure, is_pure_expr_transformer,
    is_pure_stmt_transformer, opt_body_outcome, opt_body_result, opt_expr_outcome, opt_expr_result, program_outcome, program_result, stmt_outcome,
    stmt_parts_outcome, stmt_parts_result, stmt_result, stmt_step, tail_outcome, tail_result, toplevel_outcome,
    toplevel_result, toplevels_outcome, toplevels_result, MutateError, MAX_REWRITE_DEPTH,
};

verus! {

/// The rewrite engine: ordered lists of expression transformers and
/// statement transformers, applied over a whole program.
///
/// Each node first goes through every transformer of its kind, in the
/// order they were added; then its children are rewritten, left to right;
/// then the node is rebuilt from them. The first failure aborts the whole
/// rewrite.
pub struct Mutator<FE, FS> {
    expr_mutators: Vec<FE>,
    stmt_mutators: Vec<FS>,
}

impl<FE: Fn(Expression) -> Result<Expression, String>, FS: Fn(Statement) -> Result<Statement, String>> Mutator<FE, FS> {
    /// The expression transformers, in the order they were added.
    pub closed spec fn expression_transformers(&self) -> Seq<FE> {
        self.expr_mutators@
    }

    /// The statement transformers, in the order they were added.
    pub closed spec fn statement_transformers(&self) -> Seq<FS> {
        self.stmt_mutators@
    }

    /// Every registered transformer is a pure function.
    pub open spec fn wf(&self) -> bool {
        &&& forall|i: int|
            0 <= i < self.expression_transformers().len() ==> is_pure_expr_transformer(
                #[trigger] self.expression_transformers()[i],
            )
        &&& forall|i: int|
            0 <= i < self.statement_transformers().len() ==> is_pure_stmt_transformer(
                #[trigger] self.statement_transformers()[i],
            )
    }

    pub fn new() -> (r: Self)
        ensures
            r.expression_transformers() == Seq::<FE>::empty(),
            r.statement_transformers() == Seq::<FS>::empty(),
            r.wf(),
    {
        Mutator { expr_mutators: Vec::new(), stmt_mutators: Vec::new() }
    }

    /// Registers an expression transformer after those already registered.
    pub fn add_expression_mutator(&mut self, m: FE)
        requires
            old(self).wf(),
            is_pure_expr_transformer(m),
        ensures
            final(self).wf(),
            final(self).expression_transformers() == old(self).expression_transformers().push(m),
            final(self).statement_transformers() == old(self).statement_transformers(),
    {
        self.expr_mutators.push(m);
        proof {
            assert forall|i: int| 0 <= i < self.expression_transformers().len() implies is_pure_expr_transformer(
                #[trigger] self.expression_transformers()[i],
            ) by {
                if i < old(self).expression_transformers().len() {
                    assert(self.expression_transformers()[i] == old(self).expression_transformers()[i]);
                }
            }
            assert(self.statement_transformers() == old(self).statement_transformers());
        }
    }

    /// Registers a statement transformer after those already registered.
    pub fn add_statement_mutator(&mut self, m: FS)
        requires
            old(self).wf(),
            is_pure_stmt_transformer(m),
        ensures
            final(self).wf(),
            final(self).statement_transformers() == old(self).statement_transformers().push(m),
            final(self).expression_transformers() == old(self).expression_transformers(),
    {
        self.stmt_mutators.push(m);
        proof {
            assert forall|i: int| 0 <= i < self.statement_transformers().len() implies is_pure_stmt_transformer(
                #[trigger] self.statement_transformers()[i],
            ) by {
                if i < old(self).statement_transformers().len() {
                    assert(self.statement_transformers()[i] == old(self).statement_transformers()[i]);
                }
            }
            assert(self.expression_transformers() == old(self).expression_transformers());
        }
    }

    /// Runs every expression transformer on `e`, in order.
    fn run_expr_transformers(&self, e: Expression) -> (r: Result<Expression, String>)
        requires
            self.wf(),
        ensures
            r == apply_expr_transformers(self.expression_transformers(), e),
    {
        let ghost ef = self.expression_transformers();
        let mut cur = e;
        let mut i: usize = 0;
        while i < self.expr_mutators.len()
            invariant
                self.wf(),
                ef == self.expression_transformers(),
                i <= ef.len(),
                apply_expr_transformers(ef.take(i as int), e) == Ok::<Expression, String>(cur),
            decreases ef.len() - i,
        {
            proof {
                assert(ef.take(i + 1).drop_last() == ef.take(i as int));
                assert(ef.take(i + 1).last() == ef[i as int]);
                assert(is_pure_expr_transformer(ef[i as int]));
            }
            let f = &self.expr_mutators[i];
            let step = f(cur);
            proof {
                assert(call_ensures(ef[i as int], (cur,), step));
                assert(expr_step(ef[i as int], cur) == step);
            }
            match step {
                Ok(next) => {
                    cur = next;
                },
                Err(m) => {
                    proof {
                        lemma_expr_chain_failure_sticks(ef, e, i + 1);
                    }
                    return Err(m);
                },
            }
            i = i + 1;
        }
        proof {
            assert(ef.take(ef.len() as int) == ef);
        }
        Ok(cur)
    }
}

impl<FE: Fn(Expression) -> Result<Expression, String>, FS: Fn(Statement) -> Result<Statement, String>> Mutator<FE, FS> {
    /// Runs every statement transformer on `s`, in order.
    fn run_stmt_transformers(&self, s: Statement) -> (r: Result<Statement, String>)
        requires
            self.wf(),
        ensures
            r == apply_stmt_transformers(self.statement_transformers(), s),
    {
        let ghost sf = self.statement_transformers();
        let mut cur = s;
        let mut i: usize = 0;
        while i < self.stmt_mutators.len()
            invariant
                self.wf(),
                sf == self.statement_transformers(),
                i <= sf.len(),
                apply_stmt_transformers(sf.take(i as int), s) == Ok::<Statement, String>(cur),
            decreases sf.len() - i,
        {
            proof {
                assert(sf.take(i + 1).drop_last() == sf.take(i as int));
                assert(sf.take(i + 1).last() == sf[i as int]);
                assert(is_pure_stmt_transformer(sf[i as int]));
            }
            let f = &self.stmt_mutators[i];
            let step = f(cur);
            proof {
                assert(call_ensures(sf[i as int], (cur,), step));
                assert(stmt_step(sf[i as int], cur) == step);
            }
            match step {
                Ok(next) => {
                    cur = next;
                },
                Err(m) => {
                    proof {
                        lemma_stmt_chain_failure_sticks(sf, s, i + 1);
                    }
                    return Err(m);
                },
            }
            i = i + 1;
        }
        proof {
            assert(sf.take(sf.len() as int) == sf);
        }
        Ok(cur)
    }

    fn rewrite_expression(&self, e: Expression, fuel: usize) -> (r: Result<Expression, MutateError>)
        requires
            self.wf(),
        ensures
            match r {
                Ok(x) => expr_outcome(self.expression_transformers(), e, fuel as nat) is None && expr_result(
                    self.expression_transformers(),
                    e,
                    fuel as nat,
                    x,
                ),
                Err(err) => expr_outcome(self.expression_transformers(), e, fuel as nat) == Some(err),
            },
        decreases fuel, e,
    {
        if fuel == 0 {
            return Err(MutateError::TooDeep);
        }
        let e1 = match self.run_expr_transformers(e) {
            Ok(x) => x,
            Err(m) => {
                return Err(MutateError::Transformer(m));
            },
        };
        let Expression { atom, tail } = e1;
        let atom2 = match self.rewrite_atom(atom, fuel - 1) {
            Ok(a) => a,
            Err(err) => {
                return Err(err);
            },
        };
        let tail2 = match self.rewrite_tail(tail, fuel - 1) {
            Ok(t) => t,
            Err(err) => {
                return Err(err);
            },
        };
        Ok(Expression { atom: atom2, tail: tail2 })
    }

    fn rewrite_atom(&self, a: Atom, fuel: usize) -> (r: Result<Atom, MutateError>)
        requires
            self.wf(),
        ensures
            match r {
                Ok(x) => atom_outcome(self.expression_transformers(), a, fuel as nat) is None && atom_result(
                    self.expression_transformers(),
                    a,
                    fuel as nat,
                    x,
                ),
                Err(err) => atom_outcome(self.expression_transformers(), a, fuel as nat) == Some(err),
            },
        decreases fuel, a,
    {
        match a {
            Atom::TypeCast { typ, value } => match self.rewrite_expression(*value, fuel) {
                Ok(v) => Ok(Atom::TypeCast { typ, value: Box::new(v) }),
                Err(err) => Err(err),
            },
            Atom::UnaryOperation { op, value } => match self.rewrite_expression(*value, fuel) {
                Ok(v) => Ok(Atom::UnaryOperation { op, value: Box::new(v) }),
                Err(err) => Err(err),
            },
            Atom::Wrapped(value) => match self.rewrite_expression(*value, fuel) {
                Ok(v) => Ok(Atom::Wrapped(Box::new(v))),
                Err(err) => Err(err),
            },
            other => Ok(other),
        }
    }

    fn rewrite_tail(&self, t: ExprTail, fuel: usize) -> (r: Result<ExprTail, MutateError>)
        requires
            self.wf(),
        ensures
            match r {
                Ok(x) => tail_outcome(self.expression_transformers(), t, fuel as nat) is None && tail_result(
                    self.expression_transformers(),
                    t,
                    fuel as nat,
                    x,
                ),
                Err(err) => tail_outcome(self.expression_transformers(), t, fuel as nat) == Some(err),
            },
        decreases fuel, t,
    {
        match t {
            ExprTail::End => Ok(ExprTail::End),
            ExprTail::Call { body, next } => {
                proof {
                    assert(decreases_to!(t => body@));
                }
                let body2 = match self.rewrite_args(body, fuel) {
                    Ok(b) => b,
                    Err(err) => {
                        return Err(err);
                    },
                };
                match self.rewrite_tail(*next, fuel) {
                    Ok(n) => Ok(ExprTail::Call { body: body2, next: Box::new(n) }),
                    Err(err) => Err(err),
                }
            },
            ExprTail::BinaryOp { op, right, next } => {
                let right2 = match self.rewrite_expression(*right, fuel) {
                    Ok(x) => x,
                    Err(err) => {
                        return Err(err);
                    },
                };
                match self.rewrite_tail(*next, fuel) {
                    Ok(n) => Ok(ExprTail::BinaryOp { op, right: Box::new(right2), next: Box::new(n) }),
                    Err(err) => Err(err),
                }
            },
            ExprTail::MemberAccess { member, next } => match self.rewrite_tail(*next, fuel) {
                Ok(n) => Ok(ExprTail::MemberAccess { member, next: Box::new(n) }),
                Err(err) => Err(err),
            },
            ExprTail::PointerAccess { member, next } => match self.rewrite_tail(*next, fuel) {
                Ok(n) => Ok(ExprTail::PointerAccess { member, next: Box::new(n) }),
                Err(err) => Err(err),
            },
            ExprTail::Index { inner, next } => {
                let inner2 = match self.rewrite_expression(*inner, fuel) {
                    Ok(x) => x,
                    Err(err) => {
                        return Err(err);
                    },
                };
                match self.rewrite_tail(*next, fuel) {
                    Ok(n) => Ok(ExprTail::Index { inner: Box::new(inner2), next: Box::new(n) }),
                    Err(err) => Err(err),
                }
            },
            ExprTail::TernaryConditional { second, third, next } => {
                let second2 = match self.rewrite_expression(*second, fuel) {
                    Ok(x) => x,
                    Err(err) => {
                        return Err(err);
                    },
                };
                let third2 = match self.rewrite_expression(*third, fuel) {
                    Ok(x) => x,
                    Err(err) => {
                        return Err(err);
                    },
                };
                match self.rewrite_tail(*next, fuel) {
                    Ok(n) => Ok(
                        ExprTail::TernaryConditional {
                            second: Box::new(second2),
                            third: Box::new(third2),
                            next: Box::new(n),
                        },
                    ),
                    Err(err) => Err(err),
                }
            },
        }
    }

    /// Rewrites the arguments of a call, first to last.
    fn rewrite_args(&self, args: Vec<Expression>, fuel: usize) -> (r: Result<Vec<Expression>, MutateError>)
        requires
            self.wf(),
        ensures
            match r {
                Ok(x) => args_outcome(self.expression_transformers(), args@, fuel as nat) is None && args_result(
                    self.expression_transformers(),
                    args@,
                    fuel as nat,
                    x@,
                ),
                Err(err) => args_outcome(self.expression_transformers(), args@, fuel as nat) == Some(err),
            },
        decreases fuel, args@,
    {
        let mut rest = args;
        match rest.pop() {
            None => Ok(rest),
            Some(last) => {
                proof {
                    assert(rest@ == args@.drop_last());
                    assert(decreases_to!(args@ => args@.subrange(0, args@.len() - 1)));
                    assert(decreases_to!(args@ => args@[args@.len() - 1]));
                }
                let mut done = match self.rewrite_args(rest, fuel) {
                    Ok(x) => x,
                    Err(err) => {
                        return Err(err);
                    },
                };
                let last2 = match self.rewrite_expression(last, fuel) {
                    Ok(x) => x,
                    Err(err) => {
                        return Err(err);
                    },
                };
                let ghost before = done@;
                done.push(last2);
                proof {
                    assert(done@.drop_last() == before);
                }
                Ok(done)
            },
        }
    }

    fn rewrite_opt_expression(&self, e: Option<Expression>, fuel: usize) -> (r: Result<
        Option<Expression>,
        MutateError,
    >)
        requires
            self.wf(),
        ensures
            match r {
                Ok(x) => opt_expr_outcome(self.expression_transformers(), e, fuel as nat) is None
                    && opt_expr_result(self.expression_transformers(), e, fuel as nat, x),
                Err(err) => opt_expr_outcome(self.expression_transformers(), e, fuel as nat) == Some(err),
            },
    {
        match e {
            Some(x) => match self.rewrite_expression(x, fuel) {
                Ok(y) => Ok(Some(y)),
                Err(err) => Err(err),
            },
            None => Ok(None),
        }
    }
}

proof fn lemma_stmt_chain_failure_sticks<FS: Fn(Statement) -> Result<Statement, String>>(
    sf: Seq<FS>,
    s: Statement,
    k: int,
)
    requires
        0 <= k <= sf.len(),
        apply_stmt_transformers(sf.take(k), s) is Err,
    ensures
        apply_stmt_transformers(sf, s) == apply_stmt_transformers(sf.take(k), s),
    decreases sf.len() - k,
{
    if k < sf.len() {
        assert(sf.take(k + 1).drop_last() == sf.take(k));
        lemma_stmt_chain_failure_sticks(sf, s, k + 1);
    } else {
        assert(sf.take(k) == sf);
    }
}

impl<FE: Fn(Expression) -> Result<Expression, String>, FS: Fn(Statement) -> Result<Statement, String>> Mutator<FE, FS> {
    fn rewrite_statement(&self, s: Statement, fuel: usize) -> (r: Result<Statement, MutateError>)
        requires
            self.wf(),
        ensures
            match r {
                Ok(x) => stmt_outcome(self.expression_transformers(), self.statement_transformers(), s, fuel as nat)
                    is None && stmt_result(
                    self.expression_transformers(),
                    self.statement_transformers(),
                    s,
                    fuel as nat,
                    x,
                ),
                Err(err) => stmt_outcome(self.expression_transformers(), self.statement_transformers(), s, fuel as nat)
                    == Some(err),
            },
        decreases fuel, s, 1nat,
    {
        if fuel == 0 {
            return Err(MutateError::TooDeep);
        }
        match self.run_stmt_transformers(s) {
            Ok(s1) => self.rewrite_statement_parts(s1, fuel - 1),
            Err(m) => Err(MutateError::Transformer(m)),
        }
    }

    /// Rewrites the children of a statement that already went through the
    /// statement transformers.
    fn rewrite_statement_parts(&self, s: Statement, fuel: usize) -> (r: Result<Statement, MutateError>)
        requires
            self.wf(),
        ensures
            match r {
                Ok(x) => stmt_parts_outcome(
                    self.expression_transformers(),
                    self.statement_transformers(),
                    s,
                    fuel as nat,
                ) is None && stmt_parts_result(
                    self.expression_transformers(),
                    self.statement_transformers(),
                    s,
                    fuel as nat,
                    x,
                ),
                Err(err) => stmt_parts_outcome(
                    self.expression_transformers(),
                    self.statement_transformers(),
                    s,
                    fuel as nat,
                ) == Some(err),
            },
        decreases fuel, s, 0nat,
    {
        match s {
            Statement::Expression(e) => match self.rewrite_expression(e, fuel) {
                Ok(x) => Ok(Statement::Expression(x)),
                Err(err) => Err(err),
            },
            Statement::VarDec { typ, name, right, modifier } => match self.rewrite_opt_expression(right, fuel) {
                Ok(x) => Ok(Statement::VarDec { typ, name, right: x, modifier }),
                Err(err) => Err(err),
            },
            Statement::VarAssign { identifier, right } => match self.rewrite_expression(right, fuel) {
                Ok(x) => Ok(Statement::VarAssign { identifier, right: x }),
                Err(err) => Err(err),
            },
            Statement::BinOpVarAssign { identifier, op, right } => match self.rewrite_expression(right, fuel) {
                Ok(x) => Ok(Statement::BinOpVarAssign { identifier, op, right: x }),
                Err(err) => Err(err),
            },
            Statement::IncDec { identifier, is_inc } => Ok(Statement::IncDec { identifier, is_inc }),
            Statement::Return(value) => match self.rewrite_opt_expression(value, fuel) {
                Ok(x) => Ok(Statement::Return(x)),
                Err(err) => Err(err),
            },
            Statement::If { base, elseifs, tail } => {
                proof {
                    assert(decreases_to!(s => elseifs@));
                }
                let base2 = match self.rewrite_condition_body(base, fuel) {
                    Ok(x) => x,
                    Err(err) => {
                        return Err(err);
                    },
                };
                let elseifs2 = match self.rewrite_condition_bodies(elseifs, fuel) {
                    Ok(x) => x,
                    Err(err) => {
                        return Err(err);
                    },
                };
                match self.rewrite_opt_body(tail, fuel) {
                    Ok(x) => Ok(Statement::If { base: base2, elseifs: elseifs2, tail: x }),
                    Err(err) => Err(err),
                }
            },
            Statement::While(cb) => match self.rewrite_condition_body(cb, fuel) {
                Ok(x) => Ok(Statement::While(x)),
                Err(err) => Err(err),
            },
            Statement::DoWhile { condition, body } => {
                proof {
                    assert(decreases_to!(s => body@));
                }
                let condition2 = match self.rewrite_expression(condition, fuel) {
                    Ok(x) => x,
                    Err(err) => {
                        return Err(err);
                    },
                };
                match self.rewrite_body(body, fuel) {
                    Ok(x) => Ok(Statement::DoWhile { condition: condition2, body: x }),
                    Err(err) => Err(err),
                }
            },
            Statement::For { init, condition, increment, body } => {
                proof {
                    assert(decreases_to!(s => body@));
                }
                let init2 = match self.rewrite_statement(*init, fuel) {
                    Ok(x) => x,
                    Err(err) => {
                        return Err(err);
                    },
                };
                let condition2 = match self.rewrite_expression(condition, fuel) {
                    Ok(x) => x,
                    Err(err) => {
                        return Err(err);
                    },
                };
                let increment2 = match self.rewrite_statement(*increment, fuel) {
                    Ok(x) => x,
                    Err(err) => {
                        return Err(err);
                    },
                };
                match self.rewrite_body(body, fuel) {
                    Ok(x) => Ok(
                        Statement::For {
                            init: Box::new(init2),
                            condition: condition2,
                            increment: Box::new(increment2),
                            body: x,
                        },
                    ),
                    Err(err) => Err(err),
                }
            },
            Statement::Switch { atom, cases, default } => {
                proof {
                    assert(decreases_to!(s => cases@));
                }
                let atom2 = match self.rewrite_atom(atom, fuel) {
                    Ok(x) => x,
                    Err(err) => {
                        return Err(err);
                    },
                };
                let cases2 = match self.rewrite_cases(cases, fuel) {
                    Ok(x) => x,
                    Err(err) => {
                        return Err(err);
                    },
                };
                match self.rewrite_opt_body(default, fuel) {
                    Ok(x) => Ok(Statement::Switch { atom: atom2, cases: cases2, default: x }),
                    Err(err) => Err(err),
                }
            },
            Statement::Continue => Ok(Statement::Continue),
            Statement::Break => Ok(Statement::Break),
        }
    }

    /// Rewrites a block's statements, first to last.
    fn rewrite_body(&self, body: Vec<Statement>, fuel: usize) -> (r: Result<Vec<Statement>, MutateError>)
        requires
            self.wf(),
        ensures
            match r {
                Ok(x) => body_outcome(self.expression_transformers(), self.statement_transformers(), body@, fuel as nat)
                    is None && body_result(
                    self.expression_transformers(),
                    self.statement_transformers(),
                    body@,
                    fuel as nat,
                    x@,
                ),
                Err(err) => body_outcome(
                    self.expression_transformers(),
                    self.statement_transformers(),
                    body@,
                    fuel as nat,
                ) == Some(err),
            },
        decreases fuel, body@, 0nat,
    {
        let mut rest = body;
        match rest.pop() {
            None => Ok(rest),
            Some(last) => {
                proof {
                    assert(rest@ == body@.drop_last());
                    assert(decreases_to!(body@ => body@.subrange(0, body@.len() - 1)));
                    assert(decreases_to!(body@ => body@[body@.len() - 1]));
                }
                let mut done = match self.rewrite_body(rest, fuel) {
                    Ok(x) => x,
                    Err(err) => {
                        return Err(err);
                    },
                };
                let last2 = match self.rewrite_statement(last, fuel) {
                    Ok(x) => x,
                    Err(err) => {
                        return Err(err);
                    },
                };
                let ghost before = done@;
                done.push(last2);
                proof {
                    assert(done@.drop_last() == before);
                }
                Ok(done)
            },
        }
    }

    fn rewrite_opt_body(&self, body: Option<Vec<Statement>>, fuel: usize) -> (r: Result<
        Option<Vec<Statement>>,
        MutateError,
    >)
        requires
            self.wf(),
        ensures
            match r {
                Ok(x) => opt_body_outcome(
                    self.expression_transformers(),
                    self.statement_transformers(),
                    body,
                    fuel as nat,
                ) is None && opt_body_result(
                    self.expression_transformers(),
                    self.statement_transformers(),
                    body,
                    fuel as nat,
                    x,
                ),
                Err(err) => opt_body_outcome(
                    self.expression_transformers(),
                    self.statement_transformers(),
                    body,
                    fuel as nat,
                ) == Some(err),
            },
        decreases fuel, body, 1nat,
    {
        match body {
            Some(b) => {
                proof {
                    assert(decreases_to!(body => b@));
                }
                match self.rewrite_body(b, fuel) {
                    Ok(x) => Ok(Some(x)),
                    Err(err) => Err(err),
                }
            },
            None => Ok(None),
        }
    }

    fn rewrite_condition_body(&self, cb: ConditionBody, fuel: usize) -> (r: Result<ConditionBody, MutateError>)
        requires
            self.wf(),
        ensures
            match r {
                Ok(x) => cond_outcome(self.expression_transformers(), self.statement_transformers(), cb, fuel as nat)
                    is None && cond_result(
                    self.expression_transformers(),
                    self.statement_transformers(),
                    cb,
                    fuel as nat,
                    x,
                ),
                Err(err) => cond_outcome(self.expression_transformers(), self.statement_transformers(), cb, fuel as nat)
                    == Some(err),
            },
        decreases fuel, cb, 1nat,
    {
        let ConditionBody { condition, body } = cb;
        proof {
            assert(decreases_to!(cb => body@));
        }
        let condition2 = match self.rewrite_expression(condition, fuel) {
            Ok(x) => x,
            Err(err) => {
                return Err(err);
            },
        };
        match self.rewrite_body(body, fuel) {
            Ok(x) => Ok(ConditionBody { condition: condition2, body: x }),
            Err(err) => Err(err),
        }
    }

    fn rewrite_condition_bodies(&self, cbs: Vec<ConditionBody>, fuel: usize) -> (r: Result<
        Vec<ConditionBody>,
        MutateError,
    >)
        requires
            self.wf(),
        ensures
            match r {
                Ok(x) => conds_outcome(self.expression_transformers(), self.statement_transformers(), cbs@, fuel as nat)
                    is None && conds_result(
                    self.expression_transformers(),
                    self.statement_transformers(),
                    cbs@,
                    fuel as nat,
                    x@,
                ),
                Err(err) => conds_outcome(
                    self.expression_transformers(),
                    self.statement_transformers(),
                    cbs@,
                    fuel as nat,
                ) == Some(err),
            },
        decreases fuel, cbs@, 0nat,
    {
        let mut rest = cbs;
        match rest.pop() {
            None => Ok(rest),
            Some(last) => {
                proof {
                    assert(rest@ == cbs@.drop_last());
                    assert(decreases_to!(cbs@ => cbs@.subrange(0, cbs@.len() - 1)));
                    assert(decreases_to!(cbs@ => cbs@[cbs@.len() - 1]));
                }
                let mut done = match self.rewrite_condition_bodies(rest, fuel) {
                    Ok(x) => x,
                    Err(err) => {
                        return Err(err);
                    },
                };
                let last2 = match self.rewrite_condition_body(last, fuel) {
                    Ok(x) => x,
                    Err(err) => {
                        return Err(err);
                    },
                };
                let ghost before = done@;
                done.push(last2);
                proof {
                    assert(done@.drop_last() == before);
                }
                Ok(done)
            },
        }
    }

    fn rewrite_case(&self, c: CaseStatement, fuel: usize) -> (r: Result<CaseStatement, MutateError>)
        requires
            self.wf(),
        ensures
            match r {
                Ok(x) => case_outcome(self.expression_transformers(), self.statement_transformers(), c, fuel as nat)
                    is None && case_result(
                    self.expression_transformers(),
                    self.statement_transformers(),
                    c,
                    fuel as nat,
                    x,
                ),
                Err(err) => case_outcome(self.expression_transformers(), self.statement_transformers(), c, fuel as nat)
                    == Some(err),
            },
        decreases fuel, c, 1nat,
    {
        let CaseStatement { atom, body } = c;
        proof {
            assert(decreases_to!(c => body@));
        }
        let atom2 = match self.rewrite_atom(atom, fuel) {
            Ok(x) => x,
            Err(err) => {
                return Err(err);
            },
        };
        match self.rewrite_body(body, fuel) {
            Ok(x) => Ok(CaseStatement { atom: atom2, body: x }),
            Err(err) => Err(err),
        }
    }

    fn rewrite_cases(&self, cases: Vec<CaseStatement>, fuel: usize) -> (r: Result<Vec<CaseStatement>, MutateError>)
        requires
            self.wf(),
        ensures
            match r {
                Ok(x) => cases_outcome(self.expression_transformers(), self.statement_transformers(), cases@, fuel as nat)
                    is None && cases_result(
                    self.expression_transformers(),
                    self.statement_transformers(),
                    cases@,
                    fuel as nat,
                    x@,
                ),
                Err(err) => cases_outcome(
                    self.expression_transformers(),
                    self.statement_transformers(),
                    cases@,
                    fuel as nat,
                ) == Some(err),
            },
        decreases fuel, cases@, 0nat,
    {
        let mut rest = cases;
        match rest.pop() {
            None => Ok(rest),
            Some(last) => {
                proof {
                    assert(rest@ == cases@.drop_last());
                    assert(decreases_to!(cases@ => cases@.subrange(0, cases@.len() - 1)));
                    assert(decreases_to!(cases@ => cases@[cases@.len() - 1]));
                }
                let mut done = match self.rewrite_cases(rest, fuel) {
                    Ok(x) => x,
                    Err(err) => {
                        return Err(err);
                    },
                };
                let last2 = match self.rewrite_case(last, fuel) {
                    Ok(x) => x,
                    Err(err) => {
                        return Err(err);
                    },
                };
                let ghost before = done@;
                done.push(last2);
                proof {
                    assert(done@.drop_last() == before);
                }
                Ok(done)
            },
        }
    }
}

impl<FE: Fn(Expression) -> Result<Expression, String>, FS: Fn(Statement) -> Result<Statement, String>> Mutator<FE, FS> {
    fn rewrite_toplevel(&self, t: TopLevel) -> (r: Result<TopLevel, MutateError>)
        requires
            self.wf(),
        ensures
            match r {
                Ok(x) => toplevel_outcome(self.expression_transformers(), self.statement_transformers(), t) is None
                    && toplevel_result(self.expression_transformers(), self.statement_transformers(), t, x),
                Err(err) => toplevel_outcome(self.expression_transformers(), self.statement_transformers(), t) == Some(
                    err,
                ),
            },
        decreases t, 1nat,
    {
        match t {
            TopLevel::Module { name, body } => {
                proof {
                    assert(decreases_to!(t => body@));
                }
                match self.rewrite_toplevels(body) {
                    Ok(x) => Ok(TopLevel::Module { name, body: x }),
                    Err(err) => Err(err),
                }
            },
            TopLevel::Function(func) => {
                let Function { header, body } = func;
                match self.rewrite_body(body, MAX_REWRITE_DEPTH) {
                    Ok(x) => Ok(TopLevel::Function(Function { header, body: x })),
                    Err(err) => Err(err),
                }
            },
            TopLevel::VarDeclaration { typ, name, right, modifier } => match self.rewrite_opt_expression(
                right,
                MAX_REWRITE_DEPTH,
            ) {
                Ok(x) => Ok(TopLevel::VarDeclaration { typ, name, right: x, modifier }),
                Err(err) => Err(err),
            },
            other => Ok(other),
        }
    }

    /// Rewrites a list of top-level items, first to last.
    fn rewrite_toplevels(&self, items: Vec<TopLevel>) -> (r: Result<Vec<TopLevel>, MutateError>)
        requires
            self.wf(),
        ensures
            match r {
                Ok(x) => toplevels_outcome(self.expression_transformers(), self.statement_transformers(), items@)
                    is None && toplevels_result(
                    self.expression_transformers(),
                    self.statement_transformers(),
                    items@,
                    x@,
                ),
                Err(err) => toplevels_outcome(self.expression_transformers(), self.statement_transformers(), items@)
                    == Some(err),
            },
        decreases items@, 0nat,
    {
        let mut rest = items;
        match rest.pop() {
            None => Ok(rest),
            Some(last) => {
                proof {
                    assert(rest@ == items@.drop_last());
                    assert(decreases_to!(items@ => items@.subrange(0, items@.len() - 1)));
                    assert(decreases_to!(items@ => items@[items@.len() - 1]));
                }
                let mut done = match self.rewrite_toplevels(rest) {
                    Ok(x) => x,
                    Err(err) => {
                        return Err(err);
                    },
                };
                let last2 = match self.rewrite_toplevel(last) {
                    Ok(x) => x,
                    Err(err) => {
                        return Err(err);
                    },
                };
                let ghost before = done@;
                done.push(last2);
                proof {
                    assert(done@.drop_last() == before);
                }
                Ok(done)
            },
        }
    }

    /// Rewrites a whole program into a new one; the first failure aborts
    /// the rewrite and is returned.
    pub fn mutate_program(&self, p: Program) -> (r: Result<Program, MutateError>)
        requires
            self.wf(),
        ensures
            match r {
                Ok(x) => program_outcome(self.expression_transformers(), self.statement_transformers(), p) is None
                    && program_result(self.expression_transformers(), self.statement_transformers(), p, x),
                Err(err) => program_outcome(self.expression_transformers(), self.statement_transformers(), p) == Some(
                    err,
                ),
            },
    {
        match self.rewrite_toplevels(p.statements) {
            Ok(x) => Ok(Program { statements: x }),
            Err(err) => Err(err),
        }
    }

    /// Rewrites one expression: the expression transformers run on it, then
    /// on its sub-expressions.
    pub fn mutate_expression(&self, expression: Expression) -> (r: Result<Expression, MutateError>)
        requires
            self.wf(),
        ensures
            match r {
                Ok(x) => expr_outcome(self.expression_transformers(), expression, MAX_REWRITE_DEPTH as nat) is None
                    && expr_result(self.expression_transformers(), expression, MAX_REWRITE_DEPTH as nat, x),
                Err(err) => expr_outcome(self.expression_transformers(), expression, MAX_REWRITE_DEPTH as nat)
                    == Some(err),
            },
    {
        self.rewrite_expression(expression, MAX_REWRITE_DEPTH)
    }

    /// Rewrites one statement: the statement transformers run on it, then
    /// its nested statements and expressions are rewritten.
    pub fn mutate_statement(&self, statement: Statement) -> (r: Result<Statement, MutateError>)
        requires
            self.wf(),
        ensures
            match r {
                Ok(x) => stmt_outcome(
                    self.expression_transformers(),
                    self.statement_transformers(),
                    statement,
                    MAX_REWRITE_DEPTH as nat,
                ) is None && stmt_result(
                    self.expression_transformers(),
                    self.statement_transformers(),
                    statement,
                    MAX_REWRITE_DEPTH as nat,
                    x,
                ),
                Err(err) => stmt_outcome(
                    self.expression_transformers(),
                    self.statement_transformers(),
                    statement,
                    MAX_REWRITE_DEPTH as nat,
                ) == Some(err),
            },
    {
        self.rewrite_statement(statement, MAX_REWRITE_DEPTH)
    }

    /// Rewrites a block's statements, first to last.
    pub fn mutate_body(&self, body: Vec<Statement>) -> (r: Result<Vec<Statement>, MutateError>)
        requires
            self.wf(),
        ensures
            match r {
                Ok(x) => body_outcome(
                    self.expression_transformers(),
                    self.statement_transformers(),
                    body@,
                    MAX_REWRITE_DEPTH as nat,
                ) is None && body_result(
                    self.expression_transformers(),
                    self.statement_transformers(),
                    body@,
                    MAX_REWRITE_DEPTH as nat,
                    x@,
                ),
                Err(err) => body_outcome(
                    self.expression_transformers(),
                    self.statement_transformers(),
                    body@,
                    MAX_REWRITE_DEPTH as nat,
                ) == Some(err),
            },
    {
        self.rewrite_body(body, MAX_REWRITE_DEPTH)
    }
}

proof fn lemma_expr_chain_failure_sticks<FE: Fn(Expression) -> Result<Expression, String>>(
    ef: Seq<FE>,
    e: Expression,
    k: int,
)
    requires
        0 <= k <= ef.len(),
        apply_expr_transformers(ef.take(k), e) is Err,
    ensures
        apply_expr_transformers(ef, e) == apply_expr_transformers(ef.take(k), e),
    decreases ef.len() - k,
{
    if k < ef.len() {
        assert(ef.take(k + 1).drop_last() == ef.take(k));
        lemma_expr_chain_failure_sticks(ef, e, k + 1);
    } else {
        assert(ef.take(k) == ef);
    }
}

} // verus!
