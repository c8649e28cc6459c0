use mini_c::ast::expression::{BinOp, UnaryOp};
use mini_c::codegen::simple::SimpleCodeGen;
use mini_c::parser::MyMiniCParser;

#[test]
fn binary_operator_tokens_round_trip() {
    let tokens = [
        "+", "-", "*", "/", "%", "&", "|", "^", "&&", "||", "<<", ">>", "==", "!=", ">", ">=", "<", "<=",
    ];
    for t in tokens {
        let op = MyMiniCParser::parse_binop(t.to_string()).ok().unwrap();
        assert_eq!(op.generate(), t);
    }
    assert!(matches!(MyMiniCParser::parse_binop("<<".to_string()), Ok(BinOp::LeftShift)));
}

#[test]
fn unknown_binary_operator_is_rejected() {
    let err = MyMiniCParser::parse_binop("**".to_string()).err().unwrap();
    assert_eq!(err, "Invalid binary operator: '**'");
}

#[test]
fn unary_operator_tokens_round_trip() {
    let tokens = ["+", "-", "*", "&", "!", "~", "++", "--"];
    for t in tokens {
        let op = MyMiniCParser::parse_unary_op(t.to_string()).ok().unwrap();
        assert_eq!(op.generate(), t);
    }
    assert!(matches!(MyMiniCParser::parse_unary_op("*".to_string()), Ok(UnaryOp::Dereference)));
}

#[test]
fn unknown_unary_operator_is_rejected() {
    let err = MyMiniCParser::parse_unary_op("?".to_string()).err().unwrap();
    assert_eq!(err, "Invalid unary operator: '?'");
}
