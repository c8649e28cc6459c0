use vstd::prelude::*;

use crate::ast::expression::Expression;
use crate::ast::program::{program_text, Program};
use crate::ast::statement::Statement;
use crate::mutating::mutator::Mutator;
use crate::mutating::semantics::{is_pure_expr_transformer, is_pure_stmt_transformer, program_outcome, program_result, MutateError};

verus! {

/// The whole pipeline after parsing: rewrite the program with the
/// registered transformers, then generate its text.
pub struct CodeGenerator<FE, FS> {
    mutator: Mutator<FE, FS>,
}

/// What the pipeline gives for `p` under the transformers `ef` and `sf`:
/// the first failure of the rewrite, or the text of the rewritten program.
/// Every program the rewrite can give has that same text, so it is the text
/// of the program that `Mutator::mutate_program` returns.
pub open spec fn code_gen_outcome<FE: Fn(Expression) -> Result<Expression, String>, FS: Fn(Statement) -> Result<Statement, String>>(
    ef: Seq<FE>,
    sf: Seq<FS>,
    p: Program,
    r: Result<String, MutateError>,
) -> bool {
    match r {
        Ok(text) => program_outcome(ef, sf, p) is None && exists|q: Program|
            program_result(ef, sf, p, q) && text@ == program_text(q),
        Err(err) => program_outcome(ef, sf, p) == Some(err),
    }
}

impl<FE: Fn(Expression) -> Result<Expression, String>, FS: Fn(Statement) -> Result<Statement, String>> CodeGenerator<FE, FS> {
    /// The rewrite engine the generator runs first.
    pub closed spec fn rewriter(&self) -> Mutator<FE, FS> {
        self.mutator
    }

    pub fn new() -> (r: Self)
        ensures
            r.rewriter().expression_transformers() == Seq::<FE>::empty(),
            r.rewriter().statement_transformers() == Seq::<FS>::empty(),
            r.rewriter().wf(),
    {
        CodeGenerator { mutator: Mutator::new() }
    }

    /// Registers an expression transformer after those already registered.
    pub fn add_expression_mutator(&mut self, m: FE)
        requires
            old(self).rewriter().wf(),
            is_pure_expr_transformer(m),
        ensures
            final(self).rewriter().wf(),
            final(self).rewriter().expression_transformers() == old(self).rewriter().expression_transformers().push(m),
            final(self).rewriter().statement_transformers() == old(self).rewriter().statement_transformers(),
    {
        self.mutator.add_expression_mutator(m);
    }

    /// Registers a statement transformer after those already registered.
    pub fn add_statement_mutator(&mut self, m: FS)
        requires
            old(self).rewriter().wf(),
            is_pure_stmt_transformer(m),
        ensures
            final(self).rewriter().wf(),
            final(self).rewriter().statement_transformers() == old(self).rewriter().statement_transformers().push(m),
            final(self).rewriter().expression_transformers() == old(self).rewriter().expression_transformers(),
    {
        self.mutator.add_statement_mutator(m);
    }

    /// Rewrites `program`, then generates the text of the result: each
    /// top-level item, each followed by a newline. A failed rewrite gives
    /// its error and no text.
    pub fn code_gen(&mut self, program: Program) -> (r: Result<String, MutateError>)
        requires
            old(self).rewriter().wf(),
        ensures
            *final(self) == *old(self),
            code_gen_outcome(
                old(self).rewriter().expression_transformers(),
                old(self).rewriter().statement_transformers(),
                program,
                r,
            ),
    {
        match self.mutator.mutate_program(program) {
            Ok(mutated) => {
                let text = mutated.generate();
                Ok(text)
            },
            Err(err) => Err(err),
        }
    }
}

} // verus!
