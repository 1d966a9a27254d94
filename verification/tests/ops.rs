use jsparse::lex::Tok;
use jsparse::ops::{BinOp, UnOp};

#[test]
fn unop_from_tok_and_text() {
    assert_eq!(UnOp::from_tok(Tok::Not), UnOp::Not);
    assert_eq!(UnOp::from_tok(Tok::TypeOf), UnOp::TypeOf);
    assert_eq!(UnOp::from_tok(Tok::MinusMinus), UnOp::MinusMinus);
    assert_eq!(UnOp::Not.text(), "!");
    assert_eq!(UnOp::BNot.to_string(), "~");
    assert_eq!(UnOp::PostPlusPlus.to_string(), "++");
    assert_eq!(UnOp::TypeOf.to_string(), "typeof");
    assert_eq!(UnOp::Void.to_string(), "void");
}

#[test]
fn binop_from_tok_and_text() {
    assert_eq!(BinOp::from_tok(Tok::Plus), BinOp::Plus);
    assert_eq!(BinOp::from_tok(Tok::GTGTGTEq), BinOp::GTGTGTEq);
    assert_eq!(BinOp::from_tok(Tok::InstanceOf), BinOp::InstanceOf);
    assert_eq!(BinOp::Eq.text(), "=");
    assert_eq!(BinOp::NEqEq.to_string(), "!==");
    assert_eq!(BinOp::GTGTGTEq.to_string(), ">>>=");
    assert_eq!(BinOp::Comma.to_string(), ",");
    assert_eq!(BinOp::In.to_string(), "in");
}

#[test]
fn binop_tokens_give_distinct_operators() {
    let toks = [
        Tok::Eq, Tok::LT, Tok::GT, Tok::LTE, Tok::GTE, Tok::EqEq, Tok::NEq, Tok::EqEqEq,
        Tok::NEqEq, Tok::Plus, Tok::Minus, Tok::Star, Tok::Percent, Tok::StarStar, Tok::LTLT,
        Tok::GTGT, Tok::GTGTGT, Tok::BAnd, Tok::BOr, Tok::Xor, Tok::AndAnd, Tok::OrOr,
        Tok::PlusEq, Tok::MinusEq, Tok::StarEq, Tok::PercentEq, Tok::StarStarEq, Tok::LTLTEq,
        Tok::GTGTEq, Tok::GTGTGTEq, Tok::AndEq, Tok::OrEq, Tok::CaratEq, Tok::Div, Tok::DivEq,
        Tok::Comma, Tok::In, Tok::InstanceOf,
    ];
    let ops: Vec<BinOp> = toks.iter().map(|t| BinOp::from_tok(*t)).collect();
    for i in 0..ops.len() {
        for j in 0..ops.len() {
            assert_eq!(i == j, ops[i] == ops[j]);
        }
    }
}

#[test]
fn unop_tokens_give_distinct_operators() {
    let toks = [
        Tok::Not, Tok::BNot, Tok::PlusPlus, Tok::MinusMinus, Tok::Minus, Tok::Plus, Tok::Await,
        Tok::Delete, Tok::TypeOf, Tok::Void,
    ];
    let ops: Vec<UnOp> = toks.iter().map(|t| UnOp::from_tok(*t)).collect();
    for i in 0..ops.len() {
        for j in 0..ops.len() {
            assert_eq!(i == j, ops[i] == ops[j]);
        }
    }
}
