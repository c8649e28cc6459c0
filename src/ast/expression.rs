use vstd::prelude::*;

use crate::ast::identifier::{identifier_text, Identifier};
use crate::ast::types::{type_text, Type};
use crate::codegen::simple::SimpleCodeGen;
use crate::text::{int_decimal, int_text, push_char};

verus! {

/// The head of an expression: a literal, a name, or a construct that wraps
/// a whole sub-expression.
///
/// `Float` and `Double` hold the literal's decimal text as the front end
/// read it (such as `2.5`); the suffix is added at generation.
pub enum Atom {
    Char(u8),
    Short(i16),
    Int(i32),
    TrueLong(i64),
    Float(String),
    Double(String),
    Boolean(bool),
    String(String),
    Identifier(Identifier),
    TypeCast { typ: Type, value: Box<Expression> },
    UnaryOperation { op: UnaryOp, value: Box<Expression> },
    SizeOf(Type),
    Wrapped(Box<Expression>),
}

/// The continuation of an expression after its atom, one step at a time;
/// each step owns the rest of the chain.
pub enum ExprTail {
    End,
    Call { body: Vec<Expression>, next: Box<ExprTail> },
    BinaryOp { op: BinOp, right: Box<Expression>, next: Box<ExprTail> },
    MemberAccess { member: String, next: Box<ExprTail> },
    PointerAccess { member: String, next: Box<ExprTail> },
    Index { inner: Box<Expression>, next: Box<ExprTail> },
    TernaryConditional { second: Box<Expression>, third: Box<Expression>, next: Box<ExprTail> },
}

/// An atom followed by its tail chain.
pub struct Expression {
    pub atom: Atom,
    pub tail: ExprTail,
}

pub enum BinOp {
    Add,
    Sub,
    Mul,
    Div,
    Mod,
    LeftShift,
    RightShift,
    BitOr,
    BitAnd,
    BitXor,
    LogicOr,
    LogicAnd,
    IsEqual,
    IsNotEqual,
    IsLT,
    IsLTE,
    IsGT,
    IsGTE,
}

pub enum UnaryOp {
    Plus,
    Minus,
    BitNot,
    LogicNot,
    AddressOf,
    Dereference,
    Increment,
    Decrement,
}

pub open spec fn binop_text(op: BinOp) -> Seq<char> {
    match op {
        BinOp::Add => "+"@,
        BinOp::Sub => "-"@,
        BinOp::Mul => "*"@,
        BinOp::Div => "/"@,
        BinOp::Mod => "%"@,
        BinOp::LeftShift => "<<"@,
        BinOp::RightShift => ">>"@,
        BinOp::BitOr => "|"@,
        BinOp::BitAnd => "&"@,
        BinOp::BitXor => "^"@,
        BinOp::LogicOr => "||"@,
        BinOp::LogicAnd => "&&"@,
        BinOp::IsEqual => "=="@,
        BinOp::IsNotEqual => "!="@,
        BinOp::IsLT => "<"@,
        BinOp::IsLTE => "<="@,
        BinOp::IsGT => ">"@,
        BinOp::IsGTE => ">="@,
    }
}

pub open spec fn unary_op_text(op: UnaryOp) -> Seq<char> {
    match op {
        UnaryOp::Plus => "+"@,
        UnaryOp::Minus => "-"@,
        UnaryOp::BitNot => "~"@,
        UnaryOp::LogicNot => "!"@,
        UnaryOp::AddressOf => "&"@,
        UnaryOp::Dereference => "*"@,
        UnaryOp::Increment => "++"@,
        UnaryOp::Decrement => "--"@,
    }
}

pub open spec fn atom_text(a: Atom) -> Seq<char>
    decreases a,
{
    match a {
        Atom::Char(c) => "'"@ + seq![c as char] + "'"@,
        Atom::Short(v) => "(short)"@ + int_text(v as int),
        Atom::Int(v) => int_text(v as int),
        Atom::TrueLong(v) => int_text(v as int) + "L"@,
        Atom::Float(v) => v@ + "f"@,
        Atom::Double(v) => v@,
        Atom::Boolean(v) => if v { "1"@ } else { "0"@ },
        Atom::String(v) => "\""@ + v@ + "\""@,
        Atom::Identifier(i) => identifier_text(i),
        Atom::TypeCast { typ, value } => "("@ + type_text(typ) + ")"@ + expr_text(*value),
        Atom::UnaryOperation { op, value } => unary_op_text(op) + expr_text(*value),
        Atom::SizeOf(typ) => "sizeof("@ + type_text(typ) + ")"@,
        Atom::Wrapped(e) => "("@ + expr_text(*e) + ")"@,
    }
}

/// The arguments of a call, separated by `", "`.
pub open spec fn args_text(args: Seq<Expression>) -> Seq<char>
    decreases args,
{
    if args.len() == 0 {
        Seq::empty()
    } else if args.len() == 1 {
        expr_text(args[0])
    } else {
        args_text(args.drop_last()) + ", "@ + expr_text(args.last())
    }
}

pub open spec fn tail_text(t: ExprTail) -> Seq<char>
    decreases t,
{
    match t {
        ExprTail::End => Seq::empty(),
        ExprTail::Call { body, next } => "("@ + args_text(body@) + ")"@ + tail_text(*next),
        ExprTail::BinaryOp { op, right, next } => binop_text(op) + expr_text(*right) + tail_text(*next),
        ExprTail::MemberAccess { member, next } => "."@ + member@ + tail_text(*next),
        ExprTail::PointerAccess { member, next } => "->"@ + member@ + tail_text(*next),
        ExprTail::Index { inner, next } => "["@ + expr_text(*inner) + "]"@ + tail_text(*next),
        ExprTail::TernaryConditional { second, third, next } =>
            " ? "@ + expr_text(*second) + " : "@ + expr_text(*third) + tail_text(*next),
    }
}

/// An expression's text: its atom's text, then its tail's, with no
/// indentation or terminator.
pub open spec fn expr_text(e: Expression) -> Seq<char>
    decreases e,
{
    atom_text(e.atom) + tail_text(e.tail)
}

impl SimpleCodeGen for BinOp {
    open spec fn text(&self) -> Seq<char> {
        binop_text(*self)
    }

    fn generate(&self) -> (r: String) {
        let s = match self {
            BinOp::Add => "+",
            BinOp::Sub => "-",
            BinOp::Mul => "*",
            BinOp::Div => "/",
            BinOp::Mod => "%",
            BinOp::LeftShift => "<<",
            BinOp::RightShift => ">>",
            BinOp::BitOr => "|",
            BinOp::BitAnd => "&",
            BinOp::BitXor => "^",
            BinOp::LogicOr => "||",
            BinOp::LogicAnd => "&&",
            BinOp::IsEqual => "==",
            BinOp::IsNotEqual => "!=",
            BinOp::IsLT => "<",
            BinOp::IsLTE => "<=",
            BinOp::IsGT => ">",
            BinOp::IsGTE => ">=",
        };
        String::from_str(s)
    }
}

impl SimpleCodeGen for UnaryOp {
    open spec fn text(&self) -> Seq<char> {
        unary_op_text(*self)
    }

    fn generate(&self) -> (r: String) {
        let s = match self {
            UnaryOp::Plus => "+",
            UnaryOp::Minus => "-",
            UnaryOp::BitNot => "~",
            UnaryOp::LogicNot => "!",
            UnaryOp::AddressOf => "&",
            UnaryOp::Dereference => "*",
            UnaryOp::Increment => "++",
            UnaryOp::Decrement => "--",
        };
        String::from_str(s)
    }
}

impl SimpleCodeGen for Atom {
    open spec fn text(&self) -> Seq<char> {
        atom_text(*self)
    }

    fn generate(&self) -> (r: String)
        decreases self,
    {
        match self {
            Atom::Char(c) => {
                let mut s = String::from_str("'");
                push_char(&mut s, *c as char);
                s.append("'");
                s
            },
            Atom::Short(v) => {
                let mut s = String::from_str("(short)");
                let digits = int_decimal(*v as i64);
                s.append(digits.as_str());
                s
            },
            Atom::Int(v) => int_decimal(*v as i64),
            Atom::TrueLong(v) => {
                let mut s = int_decimal(*v);
                s.append("L");
                s
            },
            Atom::Float(v) => {
                let mut s = String::from_str(v.as_str());
                s.append("f");
                s
            },
            Atom::Double(v) => String::from_str(v.as_str()),
            Atom::Boolean(v) => String::from_str(if *v { "1" } else { "0" }),
            Atom::String(v) => {
                let mut s = String::from_str("\"");
                s.append(v.as_str());
                s.append("\"");
                s
            },
            Atom::Identifier(ident) => ident.generate(),
            Atom::TypeCast { typ, value } => {
                let mut s = String::from_str("(");
                let t = typ.generate();
                s.append(t.as_str());
                s.append(")");
                let e = value.generate();
                s.append(e.as_str());
                s
            },
            Atom::UnaryOperation { op, value } => {
                let mut s = op.generate();
                let e = value.generate();
                s.append(e.as_str());
                s
            },
            Atom::SizeOf(typ) => {
                let mut s = String::from_str("sizeof(");
                let t = typ.generate();
                s.append(t.as_str());
                s.append(")");
                s
            },
            Atom::Wrapped(expr) => {
                let mut s = String::from_str("(");
                let e = expr.generate();
                s.append(e.as_str());
                s.append(")");
                s
            },
        }
    }
}

impl SimpleCodeGen for ExprTail {
    open spec fn text(&self) -> Seq<char> {
        tail_text(*self)
    }

    fn generate(&self) -> (r: String)
        decreases self,
    {
        match self {
            ExprTail::End => String::new(),
            ExprTail::Call { body, next } => {
                let mut s = String::from_str("(");
                let mut i: usize = 0;
                proof {
                    assert(decreases_to!(*self => body@));
                }
                while i < body.len()
                    invariant
                        decreases_to!(*self => body@),
                        i <= body.len(),
                        s@ == "("@ + args_text(body@.take(i as int)),
                    decreases body.len() - i,
                {
                    proof {
                        assert(body@.take(i + 1).drop_last() == body@.take(i as int));
                    }
                    if i > 0 {
                        s.append(", ");
                    }
                    proof {
                        assert(decreases_to!(body@ => body@[i as int]));
                    }
                    let arg = body[i].generate();
                    s.append(arg.as_str());
                    i = i + 1;
                }
                proof {
                    assert(body@.take(body.len() as int) == body@);
                }
                s.append(")");
                let rest = next.generate();
                s.append(rest.as_str());
                s
            },
            ExprTail::BinaryOp { op, right, next } => {
                let mut s = op.generate();
                let e = right.generate();
                s.append(e.as_str());
                let rest = next.generate();
                s.append(rest.as_str());
                s
            },
            ExprTail::Index { inner, next } => {
                let mut s = String::from_str("[");
                let e = inner.generate();
                s.append(e.as_str());
                s.append("]");
                let rest = next.generate();
                s.append(rest.as_str());
                s
            },
            ExprTail::MemberAccess { member, next } => {
                let mut s = String::from_str(".");
                s.append(member.as_str());
                let rest = next.generate();
                s.append(rest.as_str());
                s
            },
            ExprTail::PointerAccess { member, next } => {
                let mut s = String::from_str("->");
                s.append(member.as_str());
                let rest = next.generate();
                s.append(rest.as_str());
                s
            },
            ExprTail::TernaryConditional { second, third, next } => {
                let mut s = String::from_str(" ? ");
                let e2 = second.generate();
                s.append(e2.as_str());
                s.append(" : ");
                let e3 = third.generate();
                s.append(e3.as_str());
                let rest = next.generate();
                s.append(rest.as_str());
                s
            },
        }
    }
}

impl SimpleCodeGen for Expression {
    open spec fn text(&self) -> Seq<char> {
        expr_text(*self)
    }

    fn generate(&self) -> (r: String)
        decreases self,
    {
        let mut s = self.atom.generate();
        let t = self.tail.generate();
        s.append(t.as_str());
        s
    }
}

} // verus!
