//! The unary and binary operators of the expression syntax.
use vstd::prelude::*;
use crate::lex::{tok_spelling, Tok};

verus! {

/// A unary operator.
#[derive(Debug, PartialEq, Eq, Structural, Clone, Copy)]
pub enum UnOp {
    Not,
    BNot,
    PlusPlus,
    MinusMinus,
    Minus,
    Plus,
    PostMinusMinus,
    PostPlusPlus,
    Await,
    Delete,
    TypeOf,
    Void,
}

/// The unary operator that a token stands for, where it stands for one.
pub open spec fn unop_of(t: Tok) -> Option<UnOp> {
    match t {
        Tok::Not => Some(UnOp::Not),
        Tok::BNot => Some(UnOp::BNot),
        Tok::PlusPlus => Some(UnOp::PlusPlus),
        Tok::MinusMinus => Some(UnOp::MinusMinus),
        Tok::Minus => Some(UnOp::Minus),
        Tok::Plus => Some(UnOp::Plus),
        Tok::Await => Some(UnOp::Await),
        Tok::Delete => Some(UnOp::Delete),
        Tok::TypeOf => Some(UnOp::TypeOf),
        Tok::Void => Some(UnOp::Void),
        _ => None,
    }
}

/// How a unary operator is written.
pub open spec fn unop_text(op: UnOp) -> Seq<char> {
    match op {
        UnOp::Not => "!"@,
        UnOp::BNot => "~"@,
        UnOp::PlusPlus => "++"@,
        UnOp::MinusMinus => "--"@,
        UnOp::Minus => "-"@,
        UnOp::Plus => "+"@,
        UnOp::PostMinusMinus => "--"@,
        UnOp::PostPlusPlus => "++"@,
        UnOp::Await => "await"@,
        UnOp::Delete => "delete"@,
        UnOp::TypeOf => "typeof"@,
        UnOp::Void => "void"@,
    }
}

/// A prefix operator token stands for the operator written the same way.
pub proof fn lemma_unop_of_spelling(t: Tok)
    ensures
        unop_of(t) matches Some(op) ==> unop_text(op) == tok_spelling(t),
{
}

/// Distinct tokens stand for distinct unary operators.
pub proof fn lemma_unop_of_injective(t1: Tok, t2: Tok)
    requires
        unop_of(t1) is Some,
        unop_of(t1) == unop_of(t2),
    ensures
        t1 == t2,
{
}

impl UnOp {
    /// The operator that the token `t` stands for.
    pub fn from_tok(t: Tok) -> (op: UnOp)
        requires
            unop_of(t) is Some,
        ensures
            unop_of(t) == Some(op),
            unop_text(op) == tok_spelling(t),
    {
        match t {
            Tok::Not => UnOp::Not,
            Tok::BNot => UnOp::BNot,
            Tok::PlusPlus => UnOp::PlusPlus,
            Tok::MinusMinus => UnOp::MinusMinus,
            Tok::Minus => UnOp::Minus,
            Tok::Plus => UnOp::Plus,
            Tok::Await => UnOp::Await,
            Tok::Delete => UnOp::Delete,
            Tok::TypeOf => UnOp::TypeOf,
            Tok::Void => UnOp::Void,
            _ => {
                proof {
                    assert(false);
                }
                UnOp::Not
            },
        }
    }

    /// How the operator is written.
    pub fn text(&self) -> (s: &'static str)
        ensures
            s@ == unop_text(*self),
    {
        match self {
            UnOp::Not => "!",
            UnOp::BNot => "~",
            UnOp::PlusPlus => "++",
            UnOp::MinusMinus => "--",
            UnOp::Minus => "-",
            UnOp::Plus => "+",
            UnOp::PostMinusMinus => "--",
            UnOp::PostPlusPlus => "++",
            UnOp::Await => "await",
            UnOp::Delete => "delete",
            UnOp::TypeOf => "typeof",
            UnOp::Void => "void",
        }
    }

    /// How the operator is written, as an owned string.
    pub fn to_string(&self) -> (s: String)
        ensures
            s@ == unop_text(*self),
    {
        String::from_str(self.text())
    }
}

/// A binary operator (assignments and the comma included).
#[derive(Debug, PartialEq, Eq, Structural, Clone, Copy)]
pub enum BinOp {
    Eq,
    LT,
    GT,
    LTE,
    GTE,
    EqEq,
    NEq,
    EqEqEq,
    NEqEq,
    Plus,
    Minus,
    Star,
    Percent,
    StarStar,
    LTLT,
    GTGT,
    GTGTGT,
    BAnd,
    BOr,
    Xor,
    AndAnd,
    OrOr,
    PlusEq,
    MinusEq,
    StarEq,
    PercentEq,
    StarStarEq,
    LTLTEq,
    GTGTEq,
    GTGTGTEq,
    AndEq,
    OrEq,
    CaratEq,
    Div,
    DivEq,
    Comma,
    In,
    InstanceOf,
}

/// The binary operator that a token stands for, where it stands for one.
pub open spec fn binop_of(t: Tok) -> Option<BinOp> {
    match t {
        Tok::Eq => Some(BinOp::Eq),
        Tok::LT => Some(BinOp::LT),
        Tok::GT => Some(BinOp::GT),
        Tok::LTE => Some(BinOp::LTE),
        Tok::GTE => Some(BinOp::GTE),
        Tok::EqEq => Some(BinOp::EqEq),
        Tok::NEq => Some(BinOp::NEq),
        Tok::EqEqEq => Some(BinOp::EqEqEq),
        Tok::NEqEq => Some(BinOp::NEqEq),
        Tok::Plus => Some(BinOp::Plus),
        Tok::Minus => Some(BinOp::Minus),
        Tok::Star => Some(BinOp::Star),
        Tok::Percent => Some(BinOp::Percent),
        Tok::StarStar => Some(BinOp::StarStar),
        Tok::LTLT => Some(BinOp::LTLT),
        Tok::GTGT => Some(BinOp::GTGT),
        Tok::GTGTGT => Some(BinOp::GTGTGT),
        Tok::BAnd => Some(BinOp::BAnd),
        Tok::BOr => Some(BinOp::BOr),
        Tok::Xor => Some(BinOp::Xor),
        Tok::AndAnd => Some(BinOp::AndAnd),
        Tok::OrOr => Some(BinOp::OrOr),
        Tok::PlusEq => Some(BinOp::PlusEq),
        Tok::MinusEq => Some(BinOp::MinusEq),
        Tok::StarEq => Some(BinOp::StarEq),
        Tok::PercentEq => Some(BinOp::PercentEq),
        Tok::StarStarEq => Some(BinOp::StarStarEq),
        Tok::LTLTEq => Some(BinOp::LTLTEq),
        Tok::GTGTEq => Some(BinOp::GTGTEq),
        Tok::GTGTGTEq => Some(BinOp::GTGTGTEq),
        Tok::AndEq => Some(BinOp::AndEq),
        Tok::OrEq => Some(BinOp::OrEq),
        Tok::CaratEq => Some(BinOp::CaratEq),
        Tok::Div => Some(BinOp::Div),
        Tok::DivEq => Some(BinOp::DivEq),
        Tok::Comma => Some(BinOp::Comma),
        Tok::In => Some(BinOp::In),
        Tok::InstanceOf => Some(BinOp::InstanceOf),
        _ => None,
    }
}

/// How a binary operator is written.
pub open spec fn binop_text(op: BinOp) -> Seq<char> {
    match op {
        BinOp::Eq => "="@,
        BinOp::LT => "<"@,
        BinOp::GT => ">"@,
        BinOp::LTE => "<="@,
        BinOp::GTE => ">="@,
        BinOp::EqEq => "=="@,
        BinOp::NEq => "!="@,
        BinOp::EqEqEq => "==="@,
        BinOp::NEqEq => "!=="@,
        BinOp::Plus => "+"@,
        BinOp::Minus => "-"@,
        BinOp::Star => "*"@,
        BinOp::Percent => "%"@,
        BinOp::StarStar => "**"@,
        BinOp::LTLT => "<<"@,
        BinOp::GTGT => ">>"@,
        BinOp::GTGTGT => ">>>"@,
        BinOp::BAnd => "&"@,
        BinOp::BOr => "|"@,
        BinOp::Xor => "^"@,
        BinOp::AndAnd => "&&"@,
        BinOp::OrOr => "||"@,
        BinOp::PlusEq => "+="@,
        BinOp::MinusEq => "-="@,
        BinOp::StarEq => "*="@,
        BinOp::PercentEq => "%="@,
        BinOp::StarStarEq => "**="@,
        BinOp::LTLTEq => "<<="@,
        BinOp::GTGTEq => ">>="@,
        BinOp::GTGTGTEq => ">>>="@,
        BinOp::AndEq => "&="@,
        BinOp::OrEq => "|="@,
        BinOp::CaratEq => "^="@,
        BinOp::Div => "/"@,
        BinOp::DivEq => "/="@,
        BinOp::Comma => ","@,
        BinOp::In => "in"@,
        BinOp::InstanceOf => "instanceof"@,
    }
}

/// A binary operator token stands for the operator written the same way:
/// `===` for strict equality, `!==` for strict inequality, and so on.
pub proof fn lemma_binop_of_spelling(t: Tok)
    ensures
        binop_of(t) matches Some(op) ==> binop_text(op) == tok_spelling(t),
{
}

/// Distinct tokens stand for distinct binary operators.
pub proof fn lemma_binop_of_injective(t1: Tok, t2: Tok)
    requires
        binop_of(t1) is Some,
        binop_of(t1) == binop_of(t2),
    ensures
        t1 == t2,
{
}

impl BinOp {
    /// The operator that the token `t` stands for.
    pub fn from_tok(t: Tok) -> (op: BinOp)
        requires
            binop_of(t) is Some,
        ensures
            binop_of(t) == Some(op),
            binop_text(op) == tok_spelling(t),
    {
        match t {
            Tok::Eq => BinOp::Eq,
            Tok::LT => BinOp::LT,
            Tok::GT => BinOp::GT,
            Tok::LTE => BinOp::LTE,
            Tok::GTE => BinOp::GTE,
            Tok::EqEq => BinOp::EqEq,
            Tok::NEq => BinOp::NEq,
            Tok::EqEqEq => BinOp::EqEqEq,
            Tok::NEqEq => BinOp::NEqEq,
            Tok::Plus => BinOp::Plus,
            Tok::Minus => BinOp::Minus,
            Tok::Star => BinOp::Star,
            Tok::Percent => BinOp::Percent,
            Tok::StarStar => BinOp::StarStar,
            Tok::LTLT => BinOp::LTLT,
            Tok::GTGT => BinOp::GTGT,
            Tok::GTGTGT => BinOp::GTGTGT,
            Tok::BAnd => BinOp::BAnd,
            Tok::BOr => BinOp::BOr,
            Tok::Xor => BinOp::Xor,
            Tok::AndAnd => BinOp::AndAnd,
            Tok::OrOr => BinOp::OrOr,
            Tok::PlusEq => BinOp::PlusEq,
            Tok::MinusEq => BinOp::MinusEq,
            Tok::StarEq => BinOp::StarEq,
            Tok::PercentEq => BinOp::PercentEq,
            Tok::StarStarEq => BinOp::StarStarEq,
            Tok::LTLTEq => BinOp::LTLTEq,
            Tok::GTGTEq => BinOp::GTGTEq,
            Tok::GTGTGTEq => BinOp::GTGTGTEq,
            Tok::AndEq => BinOp::AndEq,
            Tok::OrEq => BinOp::OrEq,
            Tok::CaratEq => BinOp::CaratEq,
            Tok::Div => BinOp::Div,
            Tok::DivEq => BinOp::DivEq,
            Tok::Comma => BinOp::Comma,
            Tok::In => BinOp::In,
            Tok::InstanceOf => BinOp::InstanceOf,
            _ => {
                proof {
                    assert(false);
                }
                BinOp::Comma
            },
        }
    }

    /// How the operator is written.
    pub fn text(&self) -> (s: &'static str)
        ensures
            s@ == binop_text(*self),
    {
        match self {
            BinOp::Eq => "=",
            BinOp::LT => "<",
            BinOp::GT => ">",
            BinOp::LTE => "<=",
            BinOp::GTE => ">=",
            BinOp::EqEq => "==",
            BinOp::NEq => "!=",
            BinOp::EqEqEq => "===",
            BinOp::NEqEq => "!==",
            BinOp::Plus => "+",
            BinOp::Minus => "-",
            BinOp::Star => "*",
            BinOp::Percent => "%",
            BinOp::StarStar => "**",
            BinOp::LTLT => "<<",
            BinOp::GTGT => ">>",
            BinOp::GTGTGT => ">>>",
            BinOp::BAnd => "&",
            BinOp::BOr => "|",
            BinOp::Xor => "^",
            BinOp::AndAnd => "&&",
            BinOp::OrOr => "||",
            BinOp::PlusEq => "+=",
            BinOp::MinusEq => "-=",
            BinOp::StarEq => "*=",
            BinOp::PercentEq => "%=",
            BinOp::StarStarEq => "**=",
            BinOp::LTLTEq => "<<=",
            BinOp::GTGTEq => ">>=",
            BinOp::GTGTGTEq => ">>>=",
            BinOp::AndEq => "&=",
            BinOp::OrEq => "|=",
            BinOp::CaratEq => "^=",
            BinOp::Div => "/",
            BinOp::DivEq => "/=",
            BinOp::Comma => ",",
            BinOp::In => "in",
            BinOp::InstanceOf => "instanceof",
        }
    }

    /// How the operator is written, as an owned string.
    pub fn to_string(&self) -> (s: String)
        ensures
            s@ == binop_text(*self),
    {
        String::from_str(self.text())
    }
}

} // verus!
