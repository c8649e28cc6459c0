use vstd::prelude::*;

use crate::ast::expression::{atom_text, binop_text, expr_text, Atom, BinOp, Expression};
use crate::ast::types::{type_text, Type};
use crate::codegen::simple::{IndentCodeGen, SimpleCodeGen};
use crate::text::{deeper, deeper_level, indent, indent_text};

verus! {

/// A condition and the statements it guards.
pub struct ConditionBody {
    pub condition: Expression,
    pub body: Vec<Statement>,
}

/// One `case` of a switch: the atom it matches and its statements, which
/// fall through to the next case unless they break.
pub struct CaseStatement {
    pub atom: Atom,
    pub body: Vec<Statement>,
}

pub enum Statement {
    Expression(Expression),
    VarDec { typ: Type, name: String, right: Option<Expression>, modifier: Vec<String> },
    VarAssign { identifier: IdentifierExpression, right: Expression },
    BinOpVarAssign { identifier: IdentifierExpression, op: BinOp, right: Expression },
    IncDec { identifier: IdentifierExpression, is_inc: bool },
    Return(Option<Expression>),
    If { base: ConditionBody, elseifs: Vec<ConditionBody>, tail: Option<Vec<Statement>> },
    While(ConditionBody),
    DoWhile { condition: Expression, body: Vec<Statement> },
    For { init: Box<Statement>, condition: Expression, increment: Box<Statement>, body: Vec<Statement> },
    Switch { atom: Atom, cases: Vec<CaseStatement>, default: Option<Vec<Statement>> },
    Continue,
    Break,
}

/// The target of an assignment: a plain name or an expression that denotes
/// a place.
pub enum IdentifierExpression {
    Standard(String),
    Pointer(Expression),
}

pub open spec fn identifier_expression_text(i: IdentifierExpression) -> Seq<char> {
    match i {
        IdentifierExpression::Standard(name) => name@,
        IdentifierExpression::Pointer(e) => expr_text(e),
    }
}

/// Whether the statement ends with a `;`. The block-bodied control
/// statements (`if`, `while`, `for`, `switch`) end with their closing brace.
pub open spec fn spec_has_terminator(s: Statement) -> bool {
    match s {
        Statement::If { .. } | Statement::While(_) | Statement::For { .. } | Statement::Switch { .. } => false,
        _ => true,
    }
}

pub open spec fn terminator_text(s: Statement) -> Seq<char> {
    if spec_has_terminator(s) {
        ";"@
    } else {
        Seq::empty()
    }
}

/// Each modifier followed by a space.
pub open spec fn modifiers_text(m: Seq<String>) -> Seq<char>
    decreases m.len(),
{
    if m.len() == 0 {
        Seq::empty()
    } else {
        modifiers_text(m.drop_last()) + m.last()@ + " "@
    }
}

/// A braced block: the statements at one level deeper, then the closing
/// brace at `level`.
pub open spec fn block_text(body: Seq<Statement>, level: nat) -> Seq<char>
    decreases body, 1nat,
{
    "{\n"@ + body_text(body, deeper_level(level)) + indent_text(level) + "}"@
}

/// Each statement at `level`, each followed by a newline.
pub open spec fn body_text(body: Seq<Statement>, level: nat) -> Seq<char>
    decreases body, 0nat,
{
    if body.len() == 0 {
        Seq::empty()
    } else {
        body_text(body.drop_last(), level) + indent_text(level) + stmt_core_text(body.last(), level)
            + terminator_text(body.last()) + "\n"@
    }
}

pub open spec fn elseifs_text(elseifs: Seq<ConditionBody>, level: nat) -> Seq<char>
    decreases elseifs, 0nat,
{
    if elseifs.len() == 0 {
        Seq::empty()
    } else {
        elseifs_text(elseifs.drop_last(), level) + "else if ("@ + expr_text(elseifs.last().condition)
            + ") "@ + block_text(elseifs.last().body@, level)
    }
}

/// The `case` labels one level deeper than the switch, their statements
/// two levels deeper.
pub open spec fn cases_text(cases: Seq<CaseStatement>, level: nat) -> Seq<char>
    decreases cases, 0nat,
{
    if cases.len() == 0 {
        Seq::empty()
    } else {
        cases_text(cases.drop_last(), level) + indent_text(level) + "    case "@ + atom_text(cases.last().atom)
            + ":\n"@ + body_text(cases.last().body@, deeper_level(deeper_level(level)))
    }
}

pub open spec fn default_text(default: Option<Vec<Statement>>, level: nat) -> Seq<char>
    decreases default, 0nat,
{
    match default {
        Some(d) => indent_text(level) + "    default:\n"@ + body_text(d@, deeper_level(deeper_level(level))),
        None => Seq::empty(),
    }
}

pub open spec fn else_text(tail: Option<Vec<Statement>>, level: nat) -> Seq<char>
    decreases tail, 0nat,
{
    match tail {
        Some(t) => "else "@ + block_text(t@, level),
        None => Seq::empty(),
    }
}

/// The statement's text without its indentation and without its
/// terminator; nested blocks are laid out relative to `level`.
pub open spec fn stmt_core_text(s: Statement, level: nat) -> Seq<char>
    decreases s, 0nat,
{
    match s {
        Statement::Expression(e) => expr_text(e),
        Statement::VarDec { typ, name, right, modifier } => modifiers_text(modifier@) + type_text(typ) + " "@
            + name@ + match right {
            Some(e) => " = "@ + expr_text(e),
            None => Seq::empty(),
        },
        Statement::VarAssign { identifier, right } => identifier_expression_text(identifier) + " = "@
            + expr_text(right),
        Statement::BinOpVarAssign { identifier, op, right } => identifier_expression_text(identifier) + " "@
            + binop_text(op) + "= "@ + expr_text(right),
        Statement::IncDec { identifier, is_inc } => identifier_expression_text(identifier) + if is_inc {
            "++"@
        } else {
            "--"@
        },
        Statement::Return(value) => match value {
            Some(e) => "return "@ + expr_text(e),
            None => "return"@,
        },
        Statement::If { base, elseifs, tail } => "if ("@ + expr_text(base.condition) + ") "@ + block_text(
            base.body@,
            level,
        ) + elseifs_text(elseifs@, level) + else_text(tail, level),
        Statement::While(cb) => "while ("@ + expr_text(cb.condition) + ") "@ + block_text(cb.body@, level),
        Statement::DoWhile { condition, body } => "do "@ + block_text(body@, level) + " while ("@ + expr_text(
            condition,
        ) + ")"@,
        Statement::For { init, condition, increment, body } => "for ("@ + stmt_core_text(*init, 0) + ";"@
            + expr_text(condition) + ";"@ + stmt_core_text(*increment, 0) + ") "@ + block_text(body@, level),
        Statement::Switch { atom, cases, default } => "switch ("@ + atom_text(atom) + ") {\n"@ + cases_text(
            cases@,
            level,
        ) + default_text(default, level) + indent_text(level) + "}\n"@,
        Statement::Continue => "continue"@,
        Statement::Break => "break"@,
    }
}

/// A statement in standalone form: indentation, text, then terminator.
pub open spec fn stmt_text(s: Statement, level: nat) -> Seq<char> {
    indent_text(level) + stmt_core_text(s, level) + terminator_text(s)
}

/// The headless form of a statement, as it stands in a `for` header: no
/// indentation, no terminator, no trailing newline.
pub open spec fn headless_text(s: Statement) -> Seq<char> {
    stmt_core_text(s, 0)
}

impl SimpleCodeGen for IdentifierExpression {
    open spec fn text(&self) -> Seq<char> {
        identifier_expression_text(*self)
    }

    fn generate(&self) -> (r: String) {
        match self {
            IdentifierExpression::Standard(name) => String::from_str(name.as_str()),
            IdentifierExpression::Pointer(expr) => expr.generate(),
        }
    }
}

/// Appends a braced block: the statements one level deeper, then the
/// closing brace at `level`.
fn generate_block(out: &mut String, body: &Vec<Statement>, level: usize)
    ensures
        final(out)@ == old(out)@ + block_text(body@, level as nat),
    decreases body@, 1nat,
{
    out.append("{\n");
    generate_body(out, body, deeper(level));
    let closing = indent(level);
    out.append(closing.as_str());
    out.append("}");
}

/// Appends each statement at `level`, each followed by a newline.
fn generate_body(out: &mut String, body: &Vec<Statement>, level: usize)
    ensures
        final(out)@ == old(out)@ + body_text(body@, level as nat),
    decreases body@, 0nat,
{
    let ghost start = out@;
    let mut i: usize = 0;
    while i < body.len()
        invariant
            i <= body.len(),
            out@ == start + body_text(body@.take(i as int), level as nat),
        decreases body.len() - i,
    {
        proof {
            assert(body@.take(i + 1).drop_last() == body@.take(i as int));
            assert(decreases_to!(body@ => body@[i as int]));
        }
        let line = body[i].generate(level);
        out.append(line.as_str());
        out.append("\n");
        i = i + 1;
    }
    proof {
        assert(body@.take(body.len() as int) == body@);
    }
}

impl Statement {
    /// Whether the statement ends with a `;` in standalone form.
    pub fn has_terminator(&self) -> (r: bool)
        ensures
            r == spec_has_terminator(*self),
    {
        match self {
            Statement::If { .. } | Statement::While(_) | Statement::For { .. } | Statement::Switch { .. } => false,
            _ => true,
        }
    }

    /// The headless form: the statement as a `for` header embeds it, with
    /// no indentation, terminator or trailing newline.
    pub fn generate_headless(&self) -> (r: String)
        ensures
            r@ == headless_text(*self),
    {
        self.generate_core(0)
    }

    /// The statement without indentation or terminator, its nested blocks
    /// laid out relative to `level`.
    pub fn generate_core(&self, level: usize) -> (r: String)
        ensures
            r@ == stmt_core_text(*self, level as nat),
        decreases *self, 0nat,
    {
        let mut s = String::new();
        match self {
            Statement::Expression(expr) => {
                let e = expr.generate();
                s.append(e.as_str());
            },
            Statement::VarDec { typ, name, right, modifier } => {
                let mut i: usize = 0;
                while i < modifier.len()
                    invariant
                        i <= modifier.len(),
                        s@ == modifiers_text(modifier@.take(i as int)),
                    decreases modifier.len() - i,
                {
                    proof {
                        assert(modifier@.take(i + 1).drop_last() == modifier@.take(i as int));
                    }
                    s.append(modifier[i].as_str());
                    s.append(" ");
                    i = i + 1;
                }
                proof {
                    assert(modifier@.take(modifier.len() as int) == modifier@);
                }
                let t = typ.generate();
                s.append(t.as_str());
                s.append(" ");
                s.append(name.as_str());
                if let Some(body) = right {
                    s.append(" = ");
                    let e = body.generate();
                    s.append(e.as_str());
                }
            },
            Statement::VarAssign { identifier, right } => {
                let target = identifier.generate();
                s.append(target.as_str());
                s.append(" = ");
                let e = right.generate();
                s.append(e.as_str());
            },
            Statement::BinOpVarAssign { identifier, op, right } => {
                let target = identifier.generate();
                s.append(target.as_str());
                s.append(" ");
                let o = op.generate();
                s.append(o.as_str());
                s.append("= ");
                let e = right.generate();
                s.append(e.as_str());
            },
            Statement::Return(expr) => {
                if let Some(val) = expr {
                    s.append("return ");
                    let e = val.generate();
                    s.append(e.as_str());
                } else {
                    s.append("return");
                }
            },
            Statement::If { base, elseifs, tail } => {
                s.append("if (");
                let c = base.condition.generate();
                s.append(c.as_str());
                s.append(") ");
                generate_block(&mut s, &base.body, level);
                let ghost head = s@;
                let mut i: usize = 0;
                proof {
                    assert(decreases_to!(*self => elseifs@));
                }
                while i < elseifs.len()
                    invariant
                        i <= elseifs.len(),
                        decreases_to!(*self => elseifs@),
                        head =~= "if ("@ + expr_text(base.condition) + ") "@ + block_text(base.body@, level as nat),
                        s@ == head + elseifs_text(elseifs@.take(i as int), level as nat),
                    decreases elseifs.len() - i,
                {
                    proof {
                        assert(elseifs@.take(i + 1).drop_last() == elseifs@.take(i as int));
                        assert(decreases_to!(elseifs@ => elseifs@[i as int]));
                        assert(decreases_to!(elseifs@[i as int] => elseifs@[i as int].body));
                    }
                    let elseif = &elseifs[i];
                    s.append("else if (");
                    let c = elseif.condition.generate();
                    s.append(c.as_str());
                    s.append(") ");
                    generate_block(&mut s, &elseif.body, level);
                    i = i + 1;
                }
                proof {
                    assert(elseifs@.take(elseifs.len() as int) == elseifs@);
                }
                let ghost before = s@;
                if let Some(els) = tail {
                    s.append("else ");
                    generate_block(&mut s, els, level);
                    assert(s@ =~= before + else_text(*tail, level as nat));
                } else {
                    assert(s@ =~= before + else_text(*tail, level as nat));
                }
            },
            Statement::While(condition_body) => {
                s.append("while (");
                let c = condition_body.condition.generate();
                s.append(c.as_str());
                s.append(") ");
                generate_block(&mut s, &condition_body.body, level);
            },
            Statement::DoWhile { condition, body } => {
                s.append("do ");
                generate_block(&mut s, body, level);
                s.append(" while (");
                let c = condition.generate();
                s.append(c.as_str());
                s.append(")");
            },
            Statement::For { init, condition, increment, body } => {
                s.append("for (");
                let i = init.generate_core(0);
                s.append(i.as_str());
                s.append(";");
                let c = condition.generate();
                s.append(c.as_str());
                s.append(";");
                let inc = increment.generate_core(0);
                s.append(inc.as_str());
                s.append(") ");
                generate_block(&mut s, body, level);
            },
            Statement::IncDec { identifier, is_inc } => {
                let target = identifier.generate();
                s.append(target.as_str());
                if *is_inc {
                    s.append("++");
                } else {
                    s.append("--");
                }
            },
            Statement::Switch { atom, cases, default } => {
                s.append("switch (");
                let a = atom.generate();
                s.append(a.as_str());
                s.append(") {\n");
                let label_indent = indent(level);
                let inner = deeper(deeper(level));
                let ghost head = s@;
                let mut i: usize = 0;
                proof {
                    assert(decreases_to!(*self => cases@));
                }
                while i < cases.len()
                    invariant
                        i <= cases.len(),
                        decreases_to!(*self => cases@),
                        head =~= "switch ("@ + atom_text(*atom) + ") {\n"@,
                        label_indent@ == indent_text(level as nat),
                        inner as nat == deeper_level(deeper_level(level as nat)),
                        s@ == head + cases_text(cases@.take(i as int), level as nat),
                    decreases cases.len() - i,
                {
                    proof {
                        assert(cases@.take(i + 1).drop_last() == cases@.take(i as int));
                        assert(decreases_to!(cases@ => cases@[i as int]));
                        assert(decreases_to!(cases@[i as int] => cases@[i as int].body));
                    }
                    let case = &cases[i];
                    s.append(label_indent.as_str());
                    s.append("    case ");
                    let a = case.atom.generate();
                    s.append(a.as_str());
                    s.append(":\n");
                    generate_body(&mut s, &case.body, inner);
                    i = i + 1;
                }
                proof {
                    assert(cases@.take(cases.len() as int) == cases@);
                }
                let ghost before = s@;
                if let Some(the_default) = default {
                    s.append(label_indent.as_str());
                    s.append("    default:\n");
                    generate_body(&mut s, the_default, inner);
                    assert(s@ =~= before + default_text(*default, level as nat));
                } else {
                    assert(s@ =~= before + default_text(*default, level as nat));
                }
                s.append(label_indent.as_str());
                s.append("}\n");
            },
            Statement::Continue => {
                s.append("continue");
            },
            Statement::Break => {
                s.append("break");
            },
        }
        proof {
            assert(s@ =~= stmt_core_text(*self, level as nat));
        }
        s
    }
}

impl IndentCodeGen for Statement {
    open spec fn text_at(&self, indent_level: nat) -> Seq<char> {
        stmt_text(*self, indent_level)
    }

    fn generate(&self, indent_level: usize) -> (r: String)
        decreases *self, 1nat,
    {
        let mut s = indent(indent_level);
        let core = self.generate_core(indent_level);
        s.append(core.as_str());
        if self.has_terminator() {
            s.append(";");
        }
        s
    }
}

/// The slots of a `for` header hold the headless forms of its init and
/// increment statements: their standalone text at the outermost level with
/// the terminator taken off.
pub proof fn lemma_for_header_slots(
    init: Statement,
    condition: Expression,
    increment: Statement,
    body: Vec<Statement>,
    level: nat,
)
    ensures
        stmt_core_text(
            Statement::For { init: Box::new(init), condition, increment: Box::new(increment), body },
            level,
        ) == "for ("@ + headless_text(init) + ";"@ + expr_text(condition) + ";"@ + headless_text(increment)
            + ") "@ + block_text(body@, level),
        stmt_text(init, 0) == headless_text(init) + terminator_text(init),
        stmt_text(increment, 0) == headless_text(increment) + terminator_text(increment),
{
    assert(indent_text(0) == Seq::<char>::empty());
    assert(stmt_text(init, 0) =~= headless_text(init) + terminator_text(init));
    assert(stmt_text(increment, 0) =~= headless_text(increment) + terminator_text(increment));
}

/// The `case` line of a switch at `level`: one level deeper than the switch.
pub open spec fn case_label_text(c: CaseStatement, level: nat) -> Seq<char> {
    indent_text(level) + "    case "@ + atom_text(c.atom) + ":\n"@
}

/// The shape of a switch. With two cases and no default, its text holds the
/// two `case` lines, each followed by its statements two levels deeper, and
/// nothing else between the header and the closing brace. With a default,
/// the `default:` line and its statements come after every case, whatever
/// the cases are.
pub proof fn lemma_switch_shape(atom: Atom, cases: Vec<CaseStatement>, default: Option<Vec<Statement>>, level: nat)
    ensures
        cases@.len() == 2 && default is None ==> stmt_core_text(Statement::Switch { atom, cases, default }, level)
            == "switch ("@ + atom_text(atom) + ") {\n"@ + case_label_text(cases@[0], level) + body_text(
            cases@[0].body@,
            deeper_level(deeper_level(level)),
        ) + case_label_text(cases@[1], level) + body_text(cases@[1].body@, deeper_level(deeper_level(level)))
            + indent_text(level) + "}\n"@,
        default is Some ==> stmt_core_text(Statement::Switch { atom, cases, default }, level) == "switch ("@
            + atom_text(atom) + ") {\n"@ + cases_text(cases@, level) + indent_text(level) + "    default:\n"@
            + body_text(default->Some_0@, deeper_level(deeper_level(level))) + indent_text(level) + "}\n"@,
{
    let inner = deeper_level(deeper_level(level));
    if cases@.len() == 2 {
        let c = cases@;
        assert(c.drop_last().drop_last() == Seq::<CaseStatement>::empty());
        assert(c.drop_last().last() == c[0]);
        assert(c.last() == c[1]);
        assert(cases_text(c.drop_last().drop_last(), level) == Seq::<char>::empty());
        assert(cases_text(c.drop_last(), level) =~= case_label_text(c[0], level) + body_text(c[0].body@, inner));
        assert(cases_text(c, level) =~= case_label_text(c[0], level) + body_text(c[0].body@, inner)
            + case_label_text(c[1], level) + body_text(c[1].body@, inner));
    }
    if default is None {
        assert(default_text(default, level) == Seq::<char>::empty());
    }
    assert(stmt_core_text(Statement::Switch { atom, cases, default }, level) == "switch ("@ + atom_text(atom)
        + ") {\n"@ + cases_text(cases@, level) + default_text(default, level) + indent_text(level) + "}\n"@);
    if cases@.len() == 2 && default is None {
        assert(stmt_core_text(Statement::Switch { atom, cases, default }, level) =~= "switch ("@ + atom_text(atom)
            + ") {\n"@ + case_label_text(cases@[0], level) + body_text(cases@[0].body@, inner) + case_label_text(
            cases@[1],
            level,
        ) + body_text(cases@[1].body@, inner) + indent_text(level) + "}\n"@);
    }
    if default is Some {
        assert(stmt_core_text(Statement::Switch { atom, cases, default }, level) =~= "switch ("@ + atom_text(atom)
            + ") {\n"@ + cases_text(cases@, level) + indent_text(level) + "    default:\n"@ + body_text(
            default->Some_0@,
            inner,
        ) + indent_text(level) + "}\n"@);
    }
}

} // verus!
