use vstd::prelude::*;

use crate::ast::expression::{binop_text, unary_op_text, BinOp, UnaryOp};

verus! {

/// The mapping from operator tokens, as the front end reads them, to the
/// operators of the tree.
pub struct MyMiniCParser {}

/// Whether `op` reads exactly `token`.
fn reads(op: &String, token: &str) -> (r: bool)
    ensures
        r == (op@ == token@),
{
    let t = String::from_str(token);
    *op == t
}

pub open spec fn binop_error_text(op: Seq<char>) -> Seq<char> {
    "Invalid binary operator: '"@ + op + "'"@
}

pub open spec fn unary_op_error_text(op: Seq<char>) -> Seq<char> {
    "Invalid unary operator: '"@ + op + "'"@
}

impl MyMiniCParser {
    /// The binary operator whose token is `op`, or an error naming `op`
    /// when no operator has that token.
    pub fn parse_binop(op: String) -> (r: Result<BinOp, String>)
        ensures
            match r {
                Ok(b) => binop_text(b) == op@,
                Err(msg) => (forall|b: BinOp| binop_text(b) != op@) && msg@ == binop_error_text(op@),
            },
    {
        if reads(&op, "+") {
            Ok(BinOp::Add)
        } else if reads(&op, "-") {
            Ok(BinOp::Sub)
        } else if reads(&op, "*") {
            Ok(BinOp::Mul)
        } else if reads(&op, "/") {
            Ok(BinOp::Div)
        } else if reads(&op, "%") {
            Ok(BinOp::Mod)
        } else if reads(&op, "&") {
            Ok(BinOp::BitAnd)
        } else if reads(&op, "|") {
            Ok(BinOp::BitOr)
        } else if reads(&op, "^") {
            Ok(BinOp::BitXor)
        } else if reads(&op, "&&") {
            Ok(BinOp::LogicAnd)
        } else if reads(&op, "||") {
            Ok(BinOp::LogicOr)
        } else if reads(&op, "<<") {
            Ok(BinOp::LeftShift)
        } else if reads(&op, ">>") {
            Ok(BinOp::RightShift)
        } else if reads(&op, "==") {
            Ok(BinOp::IsEqual)
        } else if reads(&op, "!=") {
            Ok(BinOp::IsNotEqual)
        } else if reads(&op, ">") {
            Ok(BinOp::IsGT)
        } else if reads(&op, ">=") {
            Ok(BinOp::IsGTE)
        } else if reads(&op, "<") {
            Ok(BinOp::IsLT)
        } else if reads(&op, "<=") {
            Ok(BinOp::IsLTE)
        } else {
            let mut msg = String::from_str("Invalid binary operator: '");
            msg.append(op.as_str());
            msg.append("'");
            Err(msg)
        }
    }

    /// The unary operator whose token is `op`, or an error naming `op`
    /// when no operator has that token.
    pub fn parse_unary_op(op: String) -> (r: Result<UnaryOp, String>)
        ensures
            match r {
                Ok(u) => unary_op_text(u) == op@,
                Err(msg) => (forall|u: UnaryOp| unary_op_text(u) != op@) && msg@ == unary_op_error_text(op@),
            },
    {
        if reads(&op, "+") {
            Ok(UnaryOp::Plus)
        } else if reads(&op, "-") {
            Ok(UnaryOp::Minus)
        } else if reads(&op, "*") {
            Ok(UnaryOp::Dereference)
        } else if reads(&op, "&") {
            Ok(UnaryOp::AddressOf)
        } else if reads(&op, "!") {
            Ok(UnaryOp::LogicNot)
        } else if reads(&op, "~") {
            Ok(UnaryOp::BitNot)
        } else if reads(&op, "++") {
            Ok(UnaryOp::Increment)
        } else if reads(&op, "--") {
            Ok(UnaryOp::Decrement)
        } else {
            let mut msg = String::from_str("Invalid unary operator: '");
            msg.append(op.as_str());
            msg.append("'");
            Err(msg)
        }
    }
}

} // verus!
