//! The grammar that the parser implements, written as functions from a
//! token cursor to the cursor after a construct and the construct read (or
//! why it could not be read).  The executable parser is proved to compute
//! exactly these functions.
//!
//! A few branches give `Fail::Abort`: those where the parser stops the
//! program (a declaration list in a `for` head that binds something other
//! than a plain name, for instance), and, as guards that no run reaches,
//! those where a construct would not have consumed any input.
use vstd::prelude::*;
use crate::ast::{
    ArrowBody, ArrowFunction, Binary, BindingPattern, Call, Case, Class, Expr, ExprNode, For,
    ForInOf, ForInit, Function, If, Label, Module, Object, ObjectBindingPattern, Property,
    PropertyKey, Regex, Scope, Stmt, Switch, Symbol, Ternary, Try, VarDecl, VarDeclType, VarDecls,
    While,
};
use crate::lex::{
    is_keyword, peek_next, put_back, read_next, tok_name, LexError, Lexer, Span, Tok, TokData, Token,
};
use crate::list::List;
use crate::ops::{binop_of, binop_text, unop_of, unop_text, BinOp, UnOp};

verus! {

/// Why a construct could not be read: a parse error (its message and where
/// it was found), or a state in which the parser stops the program.
pub enum Fail {
    Error(Seq<char>, Span),
    Abort,
}

/// The result of reading a construct.
pub type Outcome<T> = Result<T, Fail>;

/// `a` has fewer tokens left to read than `b`.
pub open spec fn past(a: Lexer, b: Lexer) -> bool {
    a.rem() < b.rem()
}

/// `a` has no more tokens left to read than `b`.
pub open spec fn within(a: Lexer, b: Lexer) -> bool {
    a.rem() <= b.rem()
}

/// The parse error that a lexical error becomes.
pub open spec fn lex_fail(e: LexError) -> Fail {
    Fail::Error(e.msg@, Span { start: e.pos, end: (e.pos + 1) as usize })
}

/// The error for having read `got` where `what` was expected.
pub open spec fn expected(got: Token, what: Seq<char>) -> Fail {
    Fail::Error("expected "@ + what + ", got "@ + tok_name(got.tok), got.span)
}

pub open spec fn read(l: Lexer) -> (Lexer, Outcome<Token>) {
    let (l1, r) = read_next(l);
    (
        l1,
        match r {
            Ok(t) => Ok(t),
            Err(e) => Err(lex_fail(e)),
        },
    )
}

pub open spec fn peek(l: Lexer) -> Outcome<Tok> {
    match peek_next(l) {
        Ok(t) => Ok(t),
        Err(e) => Err(lex_fail(e)),
    }
}

/// Reads a token of kind `tok`, giving the offset where it ends.
pub open spec fn expect(l: Lexer, tok: Tok) -> (Lexer, Outcome<usize>) {
    let (l1, r) = read(l);
    match r {
        Err(f) => (l1, Err(f)),
        Ok(token) => if token.tok == tok {
            (l1, Ok(token.span.end))
        } else {
            (l1, Err(expected(token, tok_name(tok))))
        },
    }
}

/// A symbol for a name read from the source.
pub open spec fn sym(name: String) -> Symbol {
    Symbol { name, renameable: true }
}

/// Whether a statement ends here: at a `;` (which is read), or, by
/// automatic semicolon insertion, before a token on a new line, a `}`, or
/// the end of the input.
pub open spec fn asi_semi(l: Lexer) -> (Lexer, Outcome<bool>) {
    let (l1, r) = read(l);
    match r {
        Err(f) => (l1, Err(f)),
        Ok(token) => if token.tok == Tok::Semi {
            (l1, Ok(true))
        } else if token.saw_newline {
            (put_back(l1, token), Ok(true))
        } else if token.tok == Tok::RBrace || token.tok == Tok::EOF {
            (put_back(l1, token), Ok(true))
        } else {
            (put_back(l1, token), Ok(false))
        },
    }
}

pub open spec fn expect_semi(l: Lexer) -> (Lexer, Outcome<()>) {
    let (l1, r) = asi_semi(l);
    match r {
        Err(f) => (l1, Err(f)),
        Ok(ended) => if ended {
            (l1, Ok(()))
        } else {
            let (l2, r2) = read(l1);
            match r2 {
                Err(f) => (l2, Err(f)),
                Ok(token) => (l2, Err(expected(token, "semicolon"@))),
            }
        },
    }
}

/// Automatic semicolon insertion: a statement may end at a `;`, which is
/// read, or before a token on a new line, a `}` or the end of the input,
/// where nothing is read; before any other token it may not, and the error
/// names that token.  A lexical error is passed on.
pub proof fn lemma_expect_semi(l: Lexer)
    requires
        l.wf(),
    ensures
        read_next(l).1 is Err ==> expect_semi(l).1 is Err,
        read_next(l).1 matches Ok(t) ==> {
            &&& (expect_semi(l).1 is Ok <==> (t.tok == Tok::Semi || t.saw_newline || t.tok
                == Tok::RBrace || t.tok == Tok::EOF))
            &&& (t.tok == Tok::Semi ==> expect_semi(l).0 == read_next(l).0)
            &&& (expect_semi(l).1 is Ok && t.tok != Tok::Semi ==> expect_semi(l).0 == l)
            &&& (expect_semi(l).1 is Err ==> expect_semi(l) == (
                read_next(l).0,
                Err::<(), Fail>(expected(t, "semicolon"@)),
            ))
        },
{
    if read_next(l).1 is Ok {
        crate::lex::lemma_back_undoes_read(l);
    }
}

/// The names of `{a, b, ...}` after the `{`, up to the first token that is
/// not a name (which is left unread).
pub open spec fn binding_props(l: Lexer, props: Seq<Symbol>) -> (Lexer, Outcome<Seq<Symbol>>)
    decreases l.rem(),
{
    let (l1, r) = read(l);
    match r {
        Err(f) => (l1, Err(f)),
        Ok(token) => if token.tok == Tok::Ident {
            let props2 = props.push(sym(token.text));
            match peek(l1) {
                Err(f) => (l1, Err(f)),
                Ok(t) => if t == Tok::Comma {
                    let (l2, r2) = read(l1);
                    match r2 {
                        Err(f) => (l2, Err(f)),
                        Ok(_) => if past(l2, l) {
                            binding_props(l2, props2)
                        } else {
                            (l2, Err(Fail::Abort))
                        },
                    }
                } else {
                    (l1, Ok(props2))
                },
            }
        } else {
            (put_back(l1, token), Ok(props))
        },
    }
}

/// A name, or `{a, b, ...}`, in a binding position.
pub open spec fn binding_pattern(l: Lexer) -> (Lexer, Outcome<BindingPattern>) {
    let (l1, r) = read(l);
    match r {
        Err(f) => (l1, Err(f)),
        Ok(token) => if token.tok == Tok::Ident {
            (l1, Ok(BindingPattern::Name(sym(token.text))))
        } else if token.tok == Tok::LBrace {
            let (l2, r2) = binding_props(l1, Seq::empty());
            match r2 {
                Err(f) => (l2, Err(f)),
                Ok(props) => {
                    let (l3, r3) = expect(l2, Tok::RBrace);
                    match r3 {
                        Err(f) => (l3, Err(f)),
                        Ok(_) => (
                            l3,
                            Ok(
                                BindingPattern::Object(
                                    ObjectBindingPattern { props: List::from_seq(props) },
                                ),
                            ),
                        ),
                    }
                },
            }
        } else {
            (l1, Err(expected(token, "binding element"@)))
        },
    }
}

/// The declarations that the expression after `var`, `let` or `const` in a
/// `for` head stands for, appended to `decls`: each name, or name `=`
/// value, of a comma-separated list.
pub open spec fn decls_from_expr(expr: ExprNode, decls: Seq<VarDecl>) -> Outcome<Seq<VarDecl>>
    decreases expr.1,
{
    match expr.1 {
        Expr::Ident(name) => Ok(decls.push(VarDecl { pattern: BindingPattern::Name(name), init: None })),
        Expr::Assign(lhs, rhs) => match lhs.1 {
            Expr::Ident(name) => Ok(
                decls.push(VarDecl { pattern: BindingPattern::Name(name), init: Some(*rhs) }),
            ),
            _ => Err(Fail::Abort),
        },
        Expr::Binary(bin) => if bin.op == BinOp::Comma {
            match decls_from_expr(bin.lhs, decls) {
                Err(f) => Err(f),
                Ok(d1) => decls_from_expr(bin.rhs, d1),
            }
        } else {
            Err(Fail::Error("failed to extract decls"@, expr.0))
        },
        _ => Err(Fail::Error("failed to extract decls"@, expr.0)),
    }
}

/// The declarations after `decls_from_expr` has run on `expr`, whether it
/// succeeded or not: those appended for the leaves before the first one
/// that is not a declaration.
pub open spec fn decls_after(expr: ExprNode, decls: Seq<VarDecl>) -> Seq<VarDecl>
    decreases expr.1,
{
    match expr.1 {
        Expr::Ident(name) => decls.push(VarDecl { pattern: BindingPattern::Name(name), init: None }),
        Expr::Assign(lhs, rhs) => match lhs.1 {
            Expr::Ident(name) => decls.push(
                VarDecl { pattern: BindingPattern::Name(name), init: Some(*rhs) },
            ),
            _ => decls,
        },
        Expr::Binary(bin) => if bin.op == BinOp::Comma {
            if decls_from_expr(bin.lhs, decls) is Ok {
                decls_after(bin.rhs, decls_after(bin.lhs, decls))
            } else {
                decls_after(bin.lhs, decls)
            }
        } else {
            decls
        },
        _ => decls,
    }
}

/// The parameters after `arrow_params_from_expr` has run on `expr`,
/// whether it succeeded or not: those appended for the leaves before the
/// first one that is not a name.
pub open spec fn params_after(
    expr: ExprNode,
    params: Seq<(BindingPattern, Option<ExprNode>)>,
) -> Seq<(BindingPattern, Option<ExprNode>)>
    decreases expr.1,
{
    match expr.1 {
        Expr::Ident(s) => params.push((BindingPattern::Name(s), None)),
        Expr::Binary(bin) => if bin.op == BinOp::Comma {
            if arrow_params_from_expr(bin.lhs, params) is Ok {
                params_after(bin.rhs, params_after(bin.lhs, params))
            } else {
                params_after(bin.lhs, params)
            }
        } else {
            params
        },
        _ => params,
    }
}

/// The message when the left side of `=>` is not a parameter list.
pub open spec fn arrow_params_msg() -> Seq<char> {
    "couldn't convert left side of arrow into parameter list"@
}

/// The parameters that the expression before `=>` stands for, appended to
/// `params`: `()`, a name, or a comma-separated list of names.
pub open spec fn arrow_params_from_expr(
    expr: ExprNode,
    params: Seq<(BindingPattern, Option<ExprNode>)>,
) -> Outcome<Seq<(BindingPattern, Option<ExprNode>)>>
    decreases expr.1,
{
    match expr.1 {
        Expr::EmptyParens => Ok(params),
        Expr::Ident(s) => Ok(params.push((BindingPattern::Name(s), None))),
        Expr::Binary(bin) => if bin.op == BinOp::Comma {
            match arrow_params_from_expr(bin.lhs, params) {
                Err(f) => Err(f),
                Ok(p1) => arrow_params_from_expr(bin.rhs, p1),
            }
        } else {
            Err(Fail::Error(arrow_params_msg(), expr.0))
        },
        _ => Err(Fail::Error(arrow_params_msg(), expr.0)),
    }
}

/// Whether the head of a `for` loop is `x in e`.
pub open spec fn is_for_in_of_head(expr: Expr) -> bool {
    match expr {
        Expr::Binary(bin) => bin.op == BinOp::In,
        _ => false,
    }
}

/// The kind of declaration that `var`, `let` or `const` introduces.
pub open spec fn decl_type_of(tok: Tok) -> Option<VarDeclType> {
    match tok {
        Tok::Var => Some(VarDeclType::Var),
        Tok::Let => Some(VarDeclType::Let),
        Tok::Const => Some(VarDeclType::Const),
        _ => None,
    }
}

pub open spec fn decl_type_for(tok: Tok) -> VarDeclType {
    match decl_type_of(tok) {
        Some(t) => t,
        None => VarDeclType::Var,
    }
}

/// The tokens that start a prefix operator applied at unary precedence.
pub open spec fn is_prefix_op(t: Tok) -> bool {
    match t {
        Tok::Not | Tok::BNot | Tok::Plus | Tok::Minus | Tok::PlusPlus | Tok::MinusMinus
        | Tok::Void | Tok::Delete => true,
        _ => false,
    }
}

pub open spec fn unop_for(t: Tok) -> UnOp {
    match unop_of(t) {
        Some(op) => op,
        None => UnOp::Not,
    }
}

pub open spec fn binop_for(t: Tok) -> BinOp {
    match binop_of(t) {
        Some(op) => op,
        None => BinOp::Comma,
    }
}

/// For a token that joins two operands into a binary expression: the
/// loosest precedence at which it may continue an expression, and the
/// precedence at which its right operand is read (equal for the
/// right-associative levels, one more for the left-associative ones).
pub open spec fn infix_levels(t: Tok) -> Option<(usize, usize)> {
    match t {
        Tok::Comma => Some((0, 1)),
        Tok::PlusEq | Tok::MinusEq | Tok::StarStarEq | Tok::StarEq | Tok::DivEq | Tok::PercentEq
        | Tok::LTLTEq | Tok::GTGTEq | Tok::GTGTGTEq | Tok::AndEq | Tok::OrEq | Tok::CaratEq => Some(
            (3, 3),
        ),
        Tok::OrOr => Some((5, 6)),
        Tok::AndAnd => Some((6, 7)),
        Tok::BOr => Some((7, 8)),
        Tok::Xor => Some((8, 9)),
        Tok::BAnd => Some((9, 10)),
        Tok::EqEq | Tok::NEq | Tok::EqEqEq | Tok::NEqEq => Some((10, 11)),
        Tok::LT | Tok::LTE | Tok::GT | Tok::GTE | Tok::In | Tok::InstanceOf => Some((11, 12)),
        Tok::LTLT | Tok::GTGT | Tok::GTGTGT => Some((12, 13)),
        Tok::Plus | Tok::Minus => Some((13, 14)),
        Tok::Star | Tok::Div | Tok::Percent => Some((14, 15)),
        _ => None,
    }
}

/// Whether the token `t` continues an expression being read at precedence
/// `prec` (with an operator, an assignment, an arrow, a conditional, a
/// postfix operator, a member access, an index or a call).
pub open spec fn continues(t: Tok, prec: usize) -> bool {
    ||| (infix_levels(t) matches Some((lvl, _)) && prec <= lvl)
    ||| (t == Tok::Eq || t == Tok::Arrow) && prec <= 3
    ||| t == Tok::Question && prec <= 4
    ||| (t == Tok::PlusPlus || t == Tok::MinusMinus) && prec <= 17
    ||| (t == Tok::Dot || t == Tok::LSquare || t == Tok::LParen) && prec <= 19
}

/// Precedence and associativity of the binary operators: another operator
/// `u` is taken into the right operand of an operator `t` exactly when it
/// binds tighter, or when both are assignments.  So `a - b - c` is
/// `(a - b) - c`, `a << b << c` is `(a << b) << c`, `a + b * c` is
/// `a + (b * c)`, and `a += b += c` is `a += (b += c)`.
pub proof fn lemma_operator_nesting(t: Tok, u: Tok)
    requires
        infix_levels(t) is Some,
        infix_levels(u) is Some,
    ensures
        continues(u, infix_levels(t)->Some_0.1) <==> (infix_levels(u)->Some_0.0
            > infix_levels(t)->Some_0.0 || infix_levels(u)->Some_0.0 == 3
            && infix_levels(t)->Some_0.0 == 3),
{
}

/// What `expect` does with the next token: reads it, and gives where it
/// ends if it is of the kind asked for, else an error that names both kinds
/// and has the token's span.
pub proof fn lemma_expect(l: Lexer, tok: Tok)
    requires
        read_next(l).1 is Ok,
    ensures
        ({
            let t = read_next(l).1->Ok_0;
            expect(l, tok) == (
                read_next(l).0,
                if t.tok == tok {
                    Ok::<usize, Fail>(t.span.end)
                } else {
                    Err::<usize, Fail>(
                        Fail::Error(
                            "expected "@ + tok_name(tok) + ", got "@ + tok_name(t.tok),
                            t.span,
                        ),
                    )
                },
            )
        }),
{
}

/// Whether a statement ends at the next token: at a `;`, which is read,
/// or before a token on a new line, a `}` or the end of the input, which is
/// left unread; before any other token it does not, and that token is left
/// unread too.
pub proof fn lemma_asi_semi(l: Lexer)
    requires
        l.wf(),
        read_next(l).1 is Ok,
    ensures
        ({
            let t = read_next(l).1->Ok_0;
            &&& asi_semi(l).1 == Ok::<bool, Fail>(
                t.tok == Tok::Semi || t.saw_newline || t.tok == Tok::RBrace || t.tok == Tok::EOF,
            )
            &&& asi_semi(l).0 == if t.tok == Tok::Semi {
                read_next(l).0
            } else {
                l
            }
        }),
{
    crate::lex::lemma_back_undoes_read(l);
}

/// A name in expression position: `null`, `undefined`, `true` and `false`
/// are literals, any other name is an identifier, and the expression has
/// the name's span.
pub proof fn lemma_primary_name(l: Lexer)
    requires
        read_next(l).1 matches Ok(t) && t.tok == Tok::Ident,
    ensures
        ({
            let t = read_next(l).1->Ok_0;
            &&& primary_expr(l) == (read_next(l).0, Ok::<ExprNode, Fail>((t.span, ident_expr(t.text))))
            &&& ident_expr(t.text) == if t.text@ == "null"@ {
                Expr::Null
            } else if t.text@ == "undefined"@ {
                Expr::Undefined
            } else if t.text@ == "true"@ {
                Expr::Bool(true)
            } else if t.text@ == "false"@ {
                Expr::Bool(false)
            } else {
                Expr::Ident(Symbol { name: t.text, renameable: true })
            }
        }),
{
}

/// A statement that starts with `break` is a `break`, and one that starts
/// with `continue` is a `continue`; directly followed by `;`, it has no
/// label.
pub proof fn lemma_jump_stmt(l: Lexer)
    requires
        l.wf(),
        read_next(l).1 matches Ok(t) && (t.tok == Tok::Break || t.tok == Tok::Continue),
    ensures
        ({
            let t = read_next(l).1->Ok_0;
            &&& (stmt(l).1 matches Ok(s) ==> (t.tok == Tok::Break ==> s is Break) && (t.tok
                == Tok::Continue ==> s is Continue))
            &&& (read_next(read_next(l).0).1 matches Ok(u) && u.tok == Tok::Semi) ==> stmt(l).1
                == Ok::<Stmt, Fail>(
                if t.tok == Tok::Break {
                    Stmt::Break(None)
                } else {
                    Stmt::Continue(None)
                },
            )
        }),
{
    let l1 = read_next(l).0;
    assert(l1.wf());
}

/// A conditional expression `c ? x : y`: once `c` has been read and a `?`
/// follows (at a precedence where a conditional may stand), the expression
/// read next, between `?` and `:`, is the value when `c` holds, and the one
/// read after `:` is the value when it does not; the conditional then
/// continues as an operand.
pub proof fn lemma_conditional(l: Lexer, prec: usize, cond: ExprNode)
    requires
        l.wf(),
        read_next(l).1 matches Ok(t) && t.tok == Tok::Question,
        prec <= 4,
        expr_ops(l, prec, cond).1 is Ok,
    ensures
        ({
            let l1 = read_next(l).0;
            let (l2, r2) = expr_prec(l1, 3);
            let (l3, r3) = expect(l2, Tok::Colon);
            let (l4, r4) = expr_prec(l3, 3);
            &&& r2 is Ok
            &&& r3 is Ok
            &&& r4 is Ok
            &&& expr_ops(l, prec, cond) == expr_ops(
                l4,
                prec,
                (
                    Span { start: cond.0.start, end: r4->Ok_0.0.end },
                    Expr::Ternary(
                        Box::new(Ternary { condition: cond, iftrue: r2->Ok_0, iffalse: r4->Ok_0 }),
                    ),
                ),
            )
        }),
{
}

/// The next token of `l` does not continue an expression read at
/// precedence `prec`: an expression is read as far as it goes.
pub open spec fn stops_expr(l: Lexer, prec: usize) -> bool {
    peek(l) matches Ok(t) && !continues(t, prec)
}

/// The next token of `l` closes a list of statements: a `}`, a `case`, a
/// `default` or the end of the input.
pub open spec fn ends_stmts(l: Lexer) -> bool {
    peek(l) matches Ok(t) && (t == Tok::RBrace || t == Tok::EOF || t == Tok::Case || t
        == Tok::Default)
}

/// The value of an identifier token's text in expression position.
pub open spec fn ident_expr(text: String) -> Expr {
    if text@ == "null"@ {
        Expr::Null
    } else if text@ == "undefined"@ {
        Expr::Undefined
    } else if text@ == "true"@ {
        Expr::Bool(true)
    } else if text@ == "false"@ {
        Expr::Bool(false)
    } else {
        Expr::Ident(sym(text))
    }
}

/// The span that the parser gives to some constructs whose extent it does
/// not track.
pub open spec fn no_span() -> Span {
    Span { start: 0, end: 0 }
}

// The mutually recursive part of the grammar.  Each function is measured by
// the number of tokens left and a rank; a function calls one of lower rank
// at the same point of the input, and any function only after input was
// consumed (the `past` guards).

/// `[e, e, ...]` after the `[` that starts at offset `start`.
pub open spec fn array_literal(l: Lexer, start: usize) -> (Lexer, Outcome<(Span, List<ExprNode>)>)
    decreases l.rem(), 3nat,
{
    let (l1, r) = array_elems(l, Seq::empty());
    match r {
        Err(f) => (l1, Err(f)),
        Ok(elems) => {
            let (l2, r2) = expect(l1, Tok::RSquare);
            match r2 {
                Err(f) => (l2, Err(f)),
                Ok(end) => (l2, Ok((Span { start, end }, List::from_seq(elems)))),
            }
        },
    }
}

/// The elements of an array literal, up to the closing `]` (left unread);
/// a comma with no element before it is skipped.
pub open spec fn array_elems(l: Lexer, elems: Seq<ExprNode>) -> (Lexer, Outcome<Seq<ExprNode>>)
    decreases l.rem(), 2nat,
{
    match peek(l) {
        Err(f) => (l, Err(f)),
        Ok(t) => if t == Tok::RSquare {
            (l, Ok(elems))
        } else if t == Tok::Comma {
            let (l1, r) = read(l);
            match r {
                Err(f) => (l1, Err(f)),
                Ok(_) => if past(l1, l) {
                    array_elems(l1, elems)
                } else {
                    (l1, Err(Fail::Abort))
                },
            }
        } else {
            let (l1, r) = expr_prec(l, 1);
            match r {
                Err(f) => (l1, Err(f)),
                Ok(e) => match peek(l1) {
                    Err(f) => (l1, Err(f)),
                    Ok(t2) => if t2 == Tok::Comma {
                        let (l2, r2) = read(l1);
                        match r2 {
                            Err(f) => (l2, Err(f)),
                            Ok(_) => if past(l2, l) {
                                array_elems(l2, elems.push(e))
                            } else {
                                (l2, Err(Fail::Abort))
                            },
                        }
                    } else {
                        (l1, Ok(elems.push(e)))
                    },
                },
            }
        },
    }
}

/// The key of an object property, with its span and whether it may stand
/// alone (`{a}`) or name a method (`{a() {}}`); `None` where no key starts.
pub open spec fn property_key(l: Lexer) -> (Lexer, Outcome<Option<(Span, PropertyKey, bool)>>) {
    match peek(l) {
        Err(f) => (l, Err(f)),
        Ok(t) => if t == Tok::Ident || is_keyword(t) {
            let (l1, r) = read(l);
            match r {
                Err(f) => (l1, Err(f)),
                Ok(token) => (l1, Ok(Some((token.span, PropertyKey::String(token.text), true)))),
            }
        } else if t == Tok::String {
            let (l1, r) = read(l);
            match r {
                Err(f) => (l1, Err(f)),
                Ok(token) => match token.data {
                    TokData::String(s) => (l1, Ok(Some((token.span, PropertyKey::String(s), false)))),
                    _ => (l1, Err(Fail::Abort)),
                },
            }
        } else if t == Tok::Number {
            let (l1, r) = read(l);
            match r {
                Err(f) => (l1, Err(f)),
                Ok(token) => match token.data {
                    TokData::Number(n) => (l1, Ok(Some((token.span, PropertyKey::Number(n), false)))),
                    _ => (l1, Err(Fail::Abort)),
                },
            }
        } else {
            (l, Ok(None))
        },
    }
}

/// The rest of an object property after its key: `: value`, a method's
/// parameters and body, or nothing (for a name standing for itself).
pub open spec fn property_value(l: Lexer, span: Span, name: PropertyKey, can_pun: bool) -> (
    Lexer,
    Outcome<Property>,
)
    decreases l.rem(), 1nat,
{
    match peek(l) {
        Err(f) => (l, Err(f)),
        Ok(t) => if t == Tok::Colon {
            let (l1, r) = read(l);
            match r {
                Err(f) => (l1, Err(f)),
                Ok(_) => if past(l1, l) {
                    let (l2, r2) = expr_prec(l1, 3);
                    match r2 {
                        Err(f) => (l2, Err(f)),
                        Ok(v) => (l2, Ok(Property { name, value: v })),
                    }
                } else {
                    (l1, Err(Fail::Abort))
                },
            }
        } else if t == Tok::LParen && can_pun {
            match name {
                PropertyKey::String(s) => {
                    let (l1, r) = function_from_paren(l, Some(sym(s)));
                    match r {
                        Err(f) => (l1, Err(f)),
                        Ok(func) => (
                            l1,
                            Ok(Property { name, value: (span, Expr::Function(Box::new(func))) }),
                        ),
                    }
                },
                _ => (l, Err(Fail::Abort)),
            }
        } else if can_pun {
            match name {
                PropertyKey::String(s) => (
                    l,
                    Ok(Property { name, value: (span, Expr::Ident(sym(s))) }),
                ),
                _ => (l, Err(Fail::Abort)),
            }
        } else {
            let (l1, r) = read(l);
            match r {
                Err(f) => (l1, Err(f)),
                Ok(token) => (l1, Err(expected(token, "property value"@))),
            }
        },
    }
}

/// The properties of an object literal, up to the token after the last
/// one (left unread).
pub open spec fn object_props(l: Lexer, props: Seq<Property>) -> (Lexer, Outcome<Seq<Property>>)
    decreases l.rem(), 0nat,
{
    let (l1, r) = property_key(l);
    match r {
        Err(f) => (l1, Err(f)),
        Ok(None) => (l1, Ok(props)),
        Ok(Some((span, name, can_pun))) => if past(l1, l) {
            let (l2, r2) = property_value(l1, span, name, can_pun);
            match r2 {
                Err(f) => (l2, Err(f)),
                Ok(prop) => match peek(l2) {
                    Err(f) => (l2, Err(f)),
                    Ok(t) => if t != Tok::Comma {
                        (l2, Ok(props.push(prop)))
                    } else {
                        let (l3, r3) = read(l2);
                        match r3 {
                            Err(f) => (l3, Err(f)),
                            Ok(_) => if past(l3, l) {
                                object_props(l3, props.push(prop))
                            } else {
                                (l3, Err(Fail::Abort))
                            },
                        }
                    },
                },
            }
        } else {
            (l1, Err(Fail::Abort))
        },
    }
}

/// An object literal after its `{`.
pub open spec fn object_literal(l: Lexer) -> (Lexer, Outcome<Object>)
    decreases l.rem(), 1nat,
{
    let (l1, r) = object_props(l, Seq::empty());
    match r {
        Err(f) => (l1, Err(f)),
        Ok(props) => {
            let (l2, r2) = expect(l1, Tok::RBrace);
            match r2 {
                Err(f) => (l2, Err(f)),
                Ok(_) => (l2, Ok(Object { props: List::from_seq(props) })),
            }
        },
    }
}

/// A primary expression: a literal, a name, `this`, a parenthesized
/// expression, `()`, or a function, class, array, object or regular
/// expression literal.
pub open spec fn primary_expr(l: Lexer) -> (Lexer, Outcome<ExprNode>)
    decreases l.rem(), 0nat,
{
    let (l1, r) = read(l);
    match r {
        Err(f) => (l1, Err(f)),
        Ok(token) => if token.tok == Tok::This {
            (l1, Ok((token.span, Expr::This)))
        } else if token.tok == Tok::Ident {
            (l1, Ok((token.span, ident_expr(token.text))))
        } else if token.tok == Tok::Number {
            match token.data {
                TokData::Number(n) => (l1, Ok((token.span, Expr::Number(n)))),
                _ => (l1, Err(Fail::Abort)),
            }
        } else if token.tok == Tok::String {
            (l1, Ok((token.span, Expr::String(token.text))))
        } else if !past(l1, l) {
            (l1, Err(expected(token, "primary expression"@)))
        } else if token.tok == Tok::LSquare {
            let (l2, r2) = array_literal(l1, token.span.start);
            match r2 {
                Err(f) => (l2, Err(f)),
                Ok((span, arr)) => (l2, Ok((span, Expr::Array(arr)))),
            }
        } else if token.tok == Tok::LBrace {
            let (l2, r2) = object_literal(l1);
            match r2 {
                Err(f) => (l2, Err(f)),
                Ok(obj) => (l2, Ok((no_span(), Expr::Object(Box::new(obj))))),
            }
        } else if token.tok == Tok::Function {
            let (l2, r2) = function(l1);
            match r2 {
                Err(f) => (l2, Err(f)),
                Ok(func) => (l2, Ok((no_span(), Expr::Function(Box::new(func))))),
            }
        } else if token.tok == Tok::Class {
            let (l2, r2) = class(l1);
            match r2 {
                Err(f) => (l2, Err(f)),
                Ok(c) => (l2, Ok((no_span(), Expr::Class(Box::new(c))))),
            }
        } else if token.tok == Tok::LParen {
            match peek(l1) {
                Err(f) => (l1, Err(f)),
                Ok(t) => if t == Tok::RParen {
                    let (l2, r2) = read(l1);
                    match r2 {
                        Err(f) => (l2, Err(f)),
                        Ok(close) => (l2, Ok((close.span, Expr::EmptyParens))),
                    }
                } else {
                    let (l2, r2) = expr(l1);
                    match r2 {
                        Err(f) => (l2, Err(f)),
                        Ok(e) => {
                            let (l3, r3) = expect(l2, Tok::RParen);
                            match r3 {
                                Err(f) => (l3, Err(f)),
                                Ok(_) => (l3, Ok(e)),
                            }
                        },
                    }
                },
            }
        } else if token.tok == Tok::Div {
            (l1, Ok((no_span(), Expr::Regex(Box::new(Regex { literal: token.text })))))
        } else {
            (l1, Err(expected(token, "primary expression"@)))
        },
    }
}

/// The methods of a class body, up to and including its `}`.
pub open spec fn class_methods(l: Lexer, methods: Seq<Function>) -> (Lexer, Outcome<Seq<Function>>)
    decreases l.rem(), 0nat,
{
    let (l1, r) = read(l);
    match r {
        Err(f) => (l1, Err(f)),
        Ok(token) => if token.tok == Tok::RBrace {
            (l1, Ok(methods))
        } else if token.tok != Tok::Ident && token.tok != Tok::Semi {
            (l1, Err(expected(token, "class body"@)))
        } else if !past(l1, l) {
            (l1, Err(Fail::Abort))
        } else if token.tok == Tok::Semi {
            class_methods(l1, methods)
        } else {
            let (l2, r2) = function_from_paren(l1, Some(sym(token.text)));
            match r2 {
                Err(f) => (l2, Err(f)),
                Ok(func) => if past(l2, l) {
                    class_methods(l2, methods.push(func))
                } else {
                    (l2, Err(Fail::Abort))
                },
            }
        },
    }
}

/// A class after the word `class`: an optional name, an optional
/// `extends` clause, and a body of methods.
pub open spec fn class(l: Lexer) -> (Lexer, Outcome<Class>)
    decreases l.rem(), 0nat,
{
    match peek(l) {
        Err(f) => (l, Err(f)),
        Ok(t) => {
            let (l1, r1) = if t == Tok::Ident {
                let (la, ra) = read(l);
                match ra {
                    Err(f) => (la, Err(f)),
                    Ok(token) => (la, Ok(Some(sym(token.text)))),
                }
            } else {
                (l, Ok(None))
            };
            match r1 {
                Err(f) => (l1, Err(f)),
                Ok(name) => match peek(l1) {
                    Err(f) => (l1, Err(f)),
                    Ok(t2) => {
                        let (l2, r2) = if t2 == Tok::Extends {
                            let (la, ra) = read(l1);
                            match ra {
                                Err(f) => (la, Err(f)),
                                Ok(_) => if past(la, l) {
                                    let (lb, rb) = expr_prec(la, 18);
                                    match rb {
                                        Err(f) => (lb, Err(f)),
                                        Ok(e) => (lb, Ok(Some(e))),
                                    }
                                } else {
                                    (la, Err(Fail::Abort))
                                },
                            }
                        } else {
                            (l1, Ok(None))
                        };
                        match r2 {
                            Err(f) => (l2, Err(f)),
                            Ok(extends) => {
                                let (l3, r3) = expect(l2, Tok::LBrace);
                                match r3 {
                                    Err(f) => (l3, Err(f)),
                                    Ok(_) => if past(l3, l) {
                                        let (l4, r4) = class_methods(l3, Seq::empty());
                                        match r4 {
                                            Err(f) => (l4, Err(f)),
                                            Ok(methods) => (
                                                l4,
                                                Ok(
                                                    Class {
                                                        name,
                                                        extends,
                                                        methods: List::from_seq(methods),
                                                    },
                                                ),
                                            ),
                                        }
                                    } else {
                                        (l3, Err(Fail::Abort))
                                    },
                                }
                            },
                        }
                    },
                },
            }
        },
    }
}

/// A function after the word `function`: an optional name, then the rest.
pub open spec fn function(l: Lexer) -> (Lexer, Outcome<Function>)
    decreases l.rem(), 1nat,
{
    match peek(l) {
        Err(f) => (l, Err(f)),
        Ok(t) => if t == Tok::Ident {
            let (l1, r) = read(l);
            match r {
                Err(f) => (l1, Err(f)),
                Ok(token) => if within(l1, l) {
                    function_from_paren(l1, Some(sym(token.text)))
                } else {
                    (l1, Err(Fail::Abort))
                },
            }
        } else {
            function_from_paren(l, None)
        },
    }
}

/// The parameters of a function, up to the `)` (left unread): each a
/// binding pattern with an optional `= default`, separated by commas.
pub open spec fn params(l: Lexer, ps: Seq<(BindingPattern, Option<ExprNode>)>) -> (
    Lexer,
    Outcome<Seq<(BindingPattern, Option<ExprNode>)>>,
)
    decreases l.rem(), 0nat,
{
    match peek(l) {
        Err(f) => (l, Err(f)),
        Ok(t) => if t == Tok::RParen {
            (l, Ok(ps))
        } else {
            let (l1, r1) = binding_pattern(l);
            match r1 {
                Err(f) => (l1, Err(f)),
                Ok(binding) => match peek(l1) {
                    Err(f) => (l1, Err(f)),
                    Ok(t1) => {
                        let (l2, r2) = if t1 == Tok::Eq {
                            let (la, ra) = read(l1);
                            match ra {
                                Err(f) => (la, Err(f)),
                                Ok(_) => if past(la, l) {
                                    let (lb, rb) = expr_prec(la, 3);
                                    match rb {
                                        Err(f) => (lb, Err(f)),
                                        Ok(e) => (lb, Ok(Some(e))),
                                    }
                                } else {
                                    (la, Err(Fail::Abort))
                                },
                            }
                        } else {
                            (l1, Ok(None))
                        };
                        match r2 {
                            Err(f) => (l2, Err(f)),
                            Ok(init) => match peek(l2) {
                                Err(f) => (l2, Err(f)),
                                Ok(t2) => if t2 == Tok::Comma {
                                    let (l3, r3) = read(l2);
                                    match r3 {
                                        Err(f) => (l3, Err(f)),
                                        Ok(_) => if past(l3, l) {
                                            params(l3, ps.push((binding, init)))
                                        } else {
                                            (l3, Err(Fail::Abort))
                                        },
                                    }
                                } else {
                                    (l2, Ok(ps.push((binding, init))))
                                },
                            },
                        }
                    },
                },
            }
        },
    }
}

/// Statements up to a `}` (left unread).
pub open spec fn body_stmts(l: Lexer, body: Seq<Stmt>) -> (Lexer, Outcome<Seq<Stmt>>)
    decreases l.rem(), 4nat,
{
    match peek(l) {
        Err(f) => (l, Err(f)),
        Ok(t) => if t == Tok::RBrace {
            (l, Ok(body))
        } else {
            let (l1, r1) = stmt(l);
            match r1 {
                Err(f) => (l1, Err(f)),
                Ok(s) => if past(l1, l) {
                    body_stmts(l1, body.push(s))
                } else {
                    (l1, Err(Fail::Abort))
                },
            }
        },
    }
}

/// A function from its parameter list on: `(params) { body }`.
pub open spec fn function_from_paren(l: Lexer, name: Option<Symbol>) -> (Lexer, Outcome<Function>)
    decreases l.rem(), 0nat,
{
    let (l1, r1) = expect(l, Tok::LParen);
    match r1 {
        Err(f) => (l1, Err(f)),
        Ok(_) => if !past(l1, l) {
            (l1, Err(Fail::Abort))
        } else {
            let (l2, r2) = params(l1, Seq::empty());
            match r2 {
                Err(f) => (l2, Err(f)),
                Ok(ps) => {
                    let (l3, r3) = expect(l2, Tok::RParen);
                    match r3 {
                        Err(f) => (l3, Err(f)),
                        Ok(_) => {
                            let (l4, r4) = expect(l3, Tok::LBrace);
                            match r4 {
                                Err(f) => (l4, Err(f)),
                                Ok(_) => if !past(l4, l) {
                                    (l4, Err(Fail::Abort))
                                } else {
                                    let (l5, r5) = body_stmts(l4, Seq::empty());
                                    match r5 {
                                        Err(f) => (l5, Err(f)),
                                        Ok(body) => {
                                            let (l6, r6) = expect(l5, Tok::RBrace);
                                            match r6 {
                                                Err(f) => (l6, Err(f)),
                                                Ok(_) => (
                                                    l6,
                                                    Ok(
                                                        Function {
                                                            scope: Scope { bindings: List::Nil },
                                                            name,
                                                            params: List::from_seq(ps),
                                                            body: List::from_seq(body),
                                                        },
                                                    ),
                                                ),
                                            }
                                        },
                                    }
                                },
                            }
                        },
                    }
                },
            }
        },
    }
}

/// The arguments of a call, up to the `)` (left unread).
pub open spec fn call_args(l: Lexer, args: Seq<ExprNode>) -> (Lexer, Outcome<Seq<ExprNode>>)
    decreases l.rem(), 2nat,
{
    match peek(l) {
        Err(f) => (l, Err(f)),
        Ok(t) => if t == Tok::RParen {
            (l, Ok(args))
        } else {
            let (l1, r1) = expr_prec(l, 3);
            match r1 {
                Err(f) => (l1, Err(f)),
                Ok(e) => match peek(l1) {
                    Err(f) => (l1, Err(f)),
                    Ok(t1) => if t1 == Tok::Comma {
                        let (l2, r2) = read(l1);
                        match r2 {
                            Err(f) => (l2, Err(f)),
                            Ok(_) => if past(l2, l) {
                                call_args(l2, args.push(e))
                            } else {
                                (l2, Err(Fail::Abort))
                            },
                        }
                    } else {
                        (l1, Ok(args.push(e)))
                    },
                },
            }
        },
    }
}

/// A call of `func`, after the `(`.
pub open spec fn function_call(l: Lexer, func: ExprNode) -> (Lexer, Outcome<ExprNode>)
    decreases l.rem(), 3nat,
{
    let (l1, r1) = call_args(l, Seq::empty());
    match r1 {
        Err(f) => (l1, Err(f)),
        Ok(args) => {
            let (l2, r2) = expect(l1, Tok::RParen);
            match r2 {
                Err(f) => (l2, Err(f)),
                Ok(end) => (
                    l2,
                    Ok(
                        (
                            Span { start: func.0.start, end },
                            Expr::Call(Box::new(Call { func, args: List::from_seq(args) })),
                        ),
                    ),
                ),
            }
        },
    }
}

/// An expression whose operators bind at precedence `prec` or tighter.
pub open spec fn expr_prec(l: Lexer, prec: usize) -> (Lexer, Outcome<ExprNode>)
    decreases l.rem(), 1nat,
{
    let (l1, r) = read(l);
    match r {
        Err(f) => (l1, Err(f)),
        Ok(token) => if (is_prefix_op(token.tok) || token.tok == Tok::TypeOf) && prec <= 16 || token.tok
            == Tok::New && prec <= 18 {
            if !past(l1, l) {
                (l1, Err(Fail::Abort))
            } else {
                let operand_prec: usize = if token.tok == Tok::New {
                    18
                } else {
                    16
                };
                let (l2, r2) = expr_prec(l1, operand_prec);
                match r2 {
                    Err(f) => (l2, Err(f)),
                    Ok(e) => {
                        let span = Span { start: token.span.start, end: e.0.end };
                        let node = if token.tok == Tok::TypeOf {
                            Expr::TypeOf(Box::new(e))
                        } else if token.tok == Tok::New {
                            Expr::New(Box::new(e))
                        } else {
                            Expr::Unary(unop_for(token.tok), Box::new(e))
                        };
                        if past(l2, l) {
                            expr_ops(l2, prec, (span, node))
                        } else {
                            (l2, Err(Fail::Abort))
                        }
                    },
                }
            }
        } else {
            let l2 = put_back(l1, token);
            if !within(l2, l) {
                (l2, Err(Fail::Abort))
            } else {
                let (l3, r3) = primary_expr(l2);
                match r3 {
                    Err(f) => (l3, Err(f)),
                    Ok(e) => if past(l3, l) {
                        expr_ops(l3, prec, e)
                    } else {
                        (l3, Err(Fail::Abort))
                    },
                }
            }
        },
    }
}

/// The operators that follow `expr` while they bind at precedence `prec`
/// or tighter, applied to it in turn; the first token that does not
/// continue the expression is left unread.
pub open spec fn expr_ops(l: Lexer, prec: usize, expr: ExprNode) -> (Lexer, Outcome<ExprNode>)
    decreases l.rem(), 0nat,
{
    let (l1, r) = read(l);
    match r {
        Err(f) => (l1, Err(f)),
        Ok(token) => {
            let t = token.tok;
            if !continues(t, prec) {
                (put_back(l1, token), Ok(expr))
            } else if !past(l1, l) {
                (l1, Err(Fail::Abort))
            } else {
                match infix_levels(t) {
                    Some((_, rhs_prec)) => {
                        let (l2, r2) = expr_prec(l1, rhs_prec);
                        match r2 {
                            Err(f) => (l2, Err(f)),
                            Ok(rhs) => if past(l2, l) {
                                expr_ops(
                                    l2,
                                    prec,
                                    (
                                        Span { start: expr.0.start, end: rhs.0.end },
                                        Expr::Binary(
                                            Box::new(Binary { op: binop_for(t), lhs: expr, rhs }),
                                        ),
                                    ),
                                )
                            } else {
                                (l2, Err(Fail::Abort))
                            },
                        }
                    },
                    None => if t == Tok::Eq {
                        let (l2, r2) = expr_prec(l1, 3);
                        match r2 {
                            Err(f) => (l2, Err(f)),
                            Ok(rhs) => if past(l2, l) {
                                expr_ops(
                                    l2,
                                    prec,
                                    (
                                        Span { start: expr.0.start, end: rhs.0.end },
                                        Expr::Assign(Box::new(expr), Box::new(rhs)),
                                    ),
                                )
                            } else {
                                (l2, Err(Fail::Abort))
                            },
                        }
                    } else if t == Tok::Arrow {
                        let start = expr.0.start;
                        match arrow_params_from_expr(expr, Seq::empty()) {
                            Err(f) => (l1, Err(f)),
                            Ok(ps) => match peek(l1) {
                                Err(f) => (l1, Err(f)),
                                Ok(t2) => {
                                    let (l2, r2) = if t2 == Tok::LBrace {
                                        let (la, ra) = read(l1);
                                        match ra {
                                            Err(f) => (la, Err(f)),
                                            Ok(_) => if past(la, l) {
                                                let (lb, rb) = body_stmts(la, Seq::empty());
                                                match rb {
                                                    Err(f) => (lb, Err(f)),
                                                    Ok(body) => {
                                                        let (lc, rc) = expect(lb, Tok::RBrace);
                                                        match rc {
                                                            Err(f) => (lc, Err(f)),
                                                            Ok(_) => (
                                                                lc,
                                                                Ok(ArrowBody::Stmts(List::from_seq(body))),
                                                            ),
                                                        }
                                                    },
                                                }
                                            } else {
                                                (la, Err(Fail::Abort))
                                            },
                                        }
                                    } else {
                                        let (lb, rb) = expr_prec(l1, 3);
                                        match rb {
                                            Err(f) => (lb, Err(f)),
                                            Ok(e) => (lb, Ok(ArrowBody::Expr(e))),
                                        }
                                    };
                                    match r2 {
                                        Err(f) => (l2, Err(f)),
                                        Ok(body) => if past(l2, l) {
                                            expr_ops(
                                                l2,
                                                prec,
                                                (
                                                    Span { start, end: start },
                                                    Expr::ArrowFunction(
                                                        Box::new(
                                                            ArrowFunction {
                                                                params: List::from_seq(ps),
                                                                body,
                                                            },
                                                        ),
                                                    ),
                                                ),
                                            )
                                        } else {
                                            (l2, Err(Fail::Abort))
                                        },
                                    }
                                },
                            },
                        }
                    } else if t == Tok::Question {
                        let (l2, r2) = expr_prec(l1, 3);
                        match r2 {
                            Err(f) => (l2, Err(f)),
                            Ok(iftrue) => {
                                let (l3, r3) = expect(l2, Tok::Colon);
                                match r3 {
                                    Err(f) => (l3, Err(f)),
                                    Ok(_) => if past(l3, l) {
                                        let (l4, r4) = expr_prec(l3, 3);
                                        match r4 {
                                            Err(f) => (l4, Err(f)),
                                            Ok(iffalse) => if past(l4, l) {
                                                expr_ops(
                                                    l4,
                                                    prec,
                                                    (
                                                        Span { start: expr.0.start, end: iffalse.0.end },
                                                        Expr::Ternary(
                                                            Box::new(
                                                                Ternary {
                                                                    condition: expr,
                                                                    iftrue,
                                                                    iffalse,
                                                                },
                                                            ),
                                                        ),
                                                    ),
                                                )
                                            } else {
                                                (l4, Err(Fail::Abort))
                                            },
                                        }
                                    } else {
                                        (l3, Err(Fail::Abort))
                                    },
                                }
                            },
                        }
                    } else if t == Tok::PlusPlus || t == Tok::MinusMinus {
                        let op = if t == Tok::PlusPlus {
                            UnOp::PostPlusPlus
                        } else {
                            UnOp::PostMinusMinus
                        };
                        expr_ops(
                            l1,
                            prec,
                            (
                                Span { start: expr.0.start, end: token.span.end },
                                Expr::Unary(op, Box::new(expr)),
                            ),
                        )
                    } else if t == Tok::Dot {
                        let (l2, r2) = read(l1);
                        match r2 {
                            Err(f) => (l2, Err(f)),
                            Ok(member) => if member.tok != Tok::Ident && !is_keyword(member.tok) {
                                (l2, Err(expected(member, "member"@)))
                            } else if past(l2, l) {
                                expr_ops(
                                    l2,
                                    prec,
                                    (
                                        Span { start: expr.0.start, end: member.span.end },
                                        Expr::Field(Box::new(expr), member.text),
                                    ),
                                )
                            } else {
                                (l2, Err(Fail::Abort))
                            },
                        }
                    } else if t == Tok::LSquare {
                        let (l2, r2) = self::expr(l1);
                        match r2 {
                            Err(f) => (l2, Err(f)),
                            Ok(index) => {
                                let (l3, r3) = expect(l2, Tok::RSquare);
                                match r3 {
                                    Err(f) => (l3, Err(f)),
                                    Ok(end) => if past(l3, l) {
                                        expr_ops(
                                            l3,
                                            prec,
                                            (
                                                Span { start: index.0.start, end },
                                                Expr::Index(Box::new(expr), Box::new(index)),
                                            ),
                                        )
                                    } else {
                                        (l3, Err(Fail::Abort))
                                    },
                                }
                            },
                        }
                    } else {
                        let (l2, r2) = function_call(l1, expr);
                        match r2 {
                            Err(f) => (l2, Err(f)),
                            Ok(call) => if past(l2, l) {
                                expr_ops(l2, prec, call)
                            } else {
                                (l2, Err(Fail::Abort))
                            },
                        }
                    },
                }
            }
        },
    }
}

/// A whole expression, commas included.
pub open spec fn expr(l: Lexer) -> (Lexer, Outcome<ExprNode>)
    decreases l.rem(), 2nat,
{
    expr_prec(l, 0)
}

/// Declarations after `var`, `let` or `const`: binding patterns with
/// optional initial values, separated by commas.
pub open spec fn bindings_list(l: Lexer, decls: Seq<VarDecl>) -> (Lexer, Outcome<Seq<VarDecl>>)
    decreases l.rem(), 0nat,
{
    let (l1, r1) = binding_pattern(l);
    match r1 {
        Err(f) => (l1, Err(f)),
        Ok(pattern) => match peek(l1) {
            Err(f) => (l1, Err(f)),
            Ok(t) => {
                let (l2, r2) = if t == Tok::Eq {
                    let (la, ra) = read(l1);
                    match ra {
                        Err(f) => (la, Err(f)),
                        Ok(_) => if past(la, l) {
                            let (lb, rb) = expr_prec(la, 1);
                            match rb {
                                Err(f) => (lb, Err(f)),
                                Ok(e) => (lb, Ok(Some(e))),
                            }
                        } else {
                            (la, Err(Fail::Abort))
                        },
                    }
                } else {
                    (l1, Ok(None))
                };
                match r2 {
                    Err(f) => (l2, Err(f)),
                    Ok(init) => match peek(l2) {
                        Err(f) => (l2, Err(f)),
                        Ok(t2) => if t2 == Tok::Comma {
                            let (l3, r3) = read(l2);
                            match r3 {
                                Err(f) => (l3, Err(f)),
                                Ok(_) => if past(l3, l) {
                                    bindings_list(l3, decls.push(VarDecl { pattern, init }))
                                } else {
                                    (l3, Err(Fail::Abort))
                                },
                            }
                        } else {
                            (l2, Ok(decls.push(VarDecl { pattern, init })))
                        },
                    },
                }
            },
        },
    }
}

pub open spec fn bindings(l: Lexer) -> (Lexer, Outcome<List<VarDecl>>)
    decreases l.rem(), 1nat,
{
    let (l1, r) = bindings_list(l, Seq::empty());
    match r {
        Err(f) => (l1, Err(f)),
        Ok(decls) => (l1, Ok(List::from_seq(decls))),
    }
}

/// `(cond) stmt [else stmt]`, after the word `if`.
pub open spec fn if_stmt(l: Lexer) -> (Lexer, Outcome<If>)
    decreases l.rem(), 0nat,
{
    let (l1, r1) = expect(l, Tok::LParen);
    match r1 {
        Err(f) => (l1, Err(f)),
        Ok(_) => if !past(l1, l) {
            (l1, Err(Fail::Abort))
        } else {
            let (l2, r2) = expr(l1);
            match r2 {
                Err(f) => (l2, Err(f)),
                Ok(cond) => {
                    let (l3, r3) = expect(l2, Tok::RParen);
                    match r3 {
                        Err(f) => (l3, Err(f)),
                        Ok(_) => if !past(l3, l) {
                            (l3, Err(Fail::Abort))
                        } else {
                            let (l4, r4) = stmt(l3);
                            match r4 {
                                Err(f) => (l4, Err(f)),
                                Ok(iftrue) => match peek(l4) {
                                    Err(f) => (l4, Err(f)),
                                    Ok(t) => if t == Tok::Else {
                                        let (l5, r5) = read(l4);
                                        match r5 {
                                            Err(f) => (l5, Err(f)),
                                            Ok(_) => if past(l5, l) {
                                                let (l6, r6) = stmt(l5);
                                                match r6 {
                                                    Err(f) => (l6, Err(f)),
                                                    Ok(s) => (
                                                        l6,
                                                        Ok(If { cond: cond.1, iftrue, else_: Some(s) }),
                                                    ),
                                                }
                                            } else {
                                                (l5, Err(Fail::Abort))
                                            },
                                        }
                                    } else {
                                        (l4, Ok(If { cond: cond.1, iftrue, else_: None }))
                                    },
                                },
                            }
                        },
                    }
                },
            }
        },
    }
}

/// `(cond) stmt`, after the word `while`.
pub open spec fn while_stmt(l: Lexer) -> (Lexer, Outcome<While>)
    decreases l.rem(), 0nat,
{
    let (l1, r1) = expect(l, Tok::LParen);
    match r1 {
        Err(f) => (l1, Err(f)),
        Ok(_) => if !past(l1, l) {
            (l1, Err(Fail::Abort))
        } else {
            let (l2, r2) = expr(l1);
            match r2 {
                Err(f) => (l2, Err(f)),
                Ok(cond) => {
                    let (l3, r3) = expect(l2, Tok::RParen);
                    match r3 {
                        Err(f) => (l3, Err(f)),
                        Ok(_) => if !past(l3, l) {
                            (l3, Err(Fail::Abort))
                        } else {
                            let (l4, r4) = stmt(l3);
                            match r4 {
                                Err(f) => (l4, Err(f)),
                                Ok(body) => (l4, Ok(While { cond: cond.1, body })),
                            }
                        },
                    }
                },
            }
        },
    }
}

/// `stmt while (cond);`, after the word `do`.
pub open spec fn do_while_stmt(l: Lexer) -> (Lexer, Outcome<While>)
    decreases l.rem(), 4nat,
{
    let (l1, r1) = stmt(l);
    match r1 {
        Err(f) => (l1, Err(f)),
        Ok(body) => {
            let (l2, r2) = expect(l1, Tok::While);
            match r2 {
                Err(f) => (l2, Err(f)),
                Ok(_) => {
                    let (l3, r3) = expect(l2, Tok::LParen);
                    match r3 {
                        Err(f) => (l3, Err(f)),
                        Ok(_) => if !past(l3, l) {
                            (l3, Err(Fail::Abort))
                        } else {
                            let (l4, r4) = expr(l3);
                            match r4 {
                                Err(f) => (l4, Err(f)),
                                Ok(cond) => {
                                    let (l5, r5) = expect(l4, Tok::RParen);
                                    match r5 {
                                        Err(f) => (l5, Err(f)),
                                        Ok(_) => {
                                            let (l6, r6) = expect_semi(l5);
                                            match r6 {
                                                Err(f) => (l6, Err(f)),
                                                Ok(_) => (l6, Ok(While { cond: cond.1, body })),
                                            }
                                        },
                                    }
                                },
                            }
                        },
                    }
                },
            }
        },
    }
}

/// The part of a `for (init; cond; iter) body` loop after its `init`.
pub open spec fn for_rest(l: Lexer, init: ForInit) -> (Lexer, Outcome<Stmt>)
    decreases l.rem(), 0nat,
{
    let (l1, r1) = expect(l, Tok::Semi);
    match r1 {
        Err(f) => (l1, Err(f)),
        Ok(_) => if !past(l1, l) {
            (l1, Err(Fail::Abort))
        } else {
            match peek(l1) {
                Err(f) => (l1, Err(f)),
                Ok(t1) => {
                    let (l2, r2) = if t1 != Tok::Semi {
                        let (la, ra) = expr(l1);
                        match ra {
                            Err(f) => (la, Err(f)),
                            Ok(c) => (la, Ok(Some(c.1))),
                        }
                    } else {
                        (l1, Ok(None))
                    };
                    match r2 {
                        Err(f) => (l2, Err(f)),
                        Ok(cond) => {
                            let (l3, r3) = expect(l2, Tok::Semi);
                            match r3 {
                                Err(f) => (l3, Err(f)),
                                Ok(_) => if !past(l3, l) {
                                    (l3, Err(Fail::Abort))
                                } else {
                                    match peek(l3) {
                                        Err(f) => (l3, Err(f)),
                                        Ok(t3) => {
                                            let (l4, r4) = if t3 != Tok::RParen {
                                                let (la, ra) = expr(l3);
                                                match ra {
                                                    Err(f) => (la, Err(f)),
                                                    Ok(i) => (la, Ok(Some(i.1))),
                                                }
                                            } else {
                                                (l3, Ok(None))
                                            };
                                            match r4 {
                                                Err(f) => (l4, Err(f)),
                                                Ok(iter) => {
                                                    let (l5, r5) = expect(l4, Tok::RParen);
                                                    match r5 {
                                                        Err(f) => (l5, Err(f)),
                                                        Ok(_) => if !past(l5, l) {
                                                            (l5, Err(Fail::Abort))
                                                        } else {
                                                            let (l6, r6) = stmt(l5);
                                                            match r6 {
                                                                Err(f) => (l6, Err(f)),
                                                                Ok(body) => (
                                                                    l6,
                                                                    Ok(
                                                                        Stmt::For(
                                                                            Box::new(
                                                                                For {
                                                                                    init,
                                                                                    cond,
                                                                                    iter,
                                                                                    body,
                                                                                },
                                                                            ),
                                                                        ),
                                                                    ),
                                                                ),
                                                            }
                                                        },
                                                    }
                                                },
                                            }
                                        },
                                    }
                                },
                            }
                        },
                    }
                },
            }
        },
    }
}

/// `(init; cond; iter) body` or `(x in e) body`, after the word `for`.
pub open spec fn for_stmt(l: Lexer) -> (Lexer, Outcome<Stmt>)
    decreases l.rem(), 0nat,
{
    let (l1, r1) = expect(l, Tok::LParen);
    match r1 {
        Err(f) => (l1, Err(f)),
        Ok(_) => if !past(l1, l) {
            (l1, Err(Fail::Abort))
        } else {
            match peek(l1) {
                Err(f) => (l1, Err(f)),
                Ok(tok) => if tok == Tok::Semi {
                    for_rest(l1, ForInit::Empty)
                } else {
                    let (l2, r2) = if decl_type_of(tok) is Some {
                        let (la, ra) = read(l1);
                        match ra {
                            Err(f) => (la, Err(f)),
                            Ok(_) => (la, Ok(decl_type_of(tok))),
                        }
                    } else {
                        (l1, Ok(None))
                    };
                    match r2 {
                        Err(f) => (l2, Err(f)),
                        Ok(decl_type) => if !within(l2, l1) {
                            (l2, Err(Fail::Abort))
                        } else {
                            let (l3, r3) = expr(l2);
                            match r3 {
                                Err(f) => (l3, Err(f)),
                                Ok(e) => if !past(l3, l) {
                                    (l3, Err(Fail::Abort))
                                } else if is_for_in_of_head(e.1) {
                                    match e.1 {
                                        Expr::Binary(bin) => match bin.lhs.1 {
                                            Expr::Ident(name) => {
                                                let (l4, r4) = expect(l3, Tok::RParen);
                                                match r4 {
                                                    Err(f) => (l4, Err(f)),
                                                    Ok(_) => if !past(l4, l) {
                                                        (l4, Err(Fail::Abort))
                                                    } else {
                                                        let (l5, r5) = stmt(l4);
                                                        match r5 {
                                                            Err(f) => (l5, Err(f)),
                                                            Ok(body) => (
                                                                l5,
                                                                Ok(
                                                                    Stmt::ForInOf(
                                                                        Box::new(
                                                                            ForInOf {
                                                                                decl_type,
                                                                                loop_var: BindingPattern::Name(
                                                                                    name,
                                                                                ),
                                                                                expr: bin.rhs,
                                                                                body,
                                                                            },
                                                                        ),
                                                                    ),
                                                                ),
                                                            ),
                                                        }
                                                    },
                                                }
                                            },
                                            _ => (l3, Err(Fail::Abort)),
                                        },
                                        _ => (l3, Err(Fail::Abort)),
                                    }
                                } else {
                                    match decl_type {
                                        Some(dt) => match decls_from_expr(e, Seq::empty()) {
                                            Err(f) => (l3, Err(f)),
                                            Ok(decls) => for_rest(
                                                l3,
                                                ForInit::Decls(
                                                    VarDecls { typ: dt, decls: List::from_seq(decls) },
                                                ),
                                            ),
                                        },
                                        None => for_rest(l3, ForInit::Expr(e.1)),
                                    }
                                },
                            }
                        },
                    }
                },
            }
        },
    }
}

/// The clauses of a `switch` body, up to the token after the last one
/// (left unread).
pub open spec fn switch_cases(l: Lexer, cases: Seq<Case>) -> (Lexer, Outcome<Seq<Case>>)
    decreases l.rem(), 0nat,
{
    match peek(l) {
        Err(f) => (l, Err(f)),
        Ok(t) => if t != Tok::Case && t != Tok::Default {
            (l, Ok(cases))
        } else {
            let (l1, r1) = read(l);
            match r1 {
                Err(f) => (l1, Err(f)),
                Ok(_) => if !past(l1, l) {
                    (l1, Err(Fail::Abort))
                } else {
                    let (l2, r2) = if t == Tok::Case {
                        let (la, ra) = expr(l1);
                        match ra {
                            Err(f) => (la, Err(f)),
                            Ok(e) => (la, Ok(Some(e.1))),
                        }
                    } else {
                        (l1, Ok(None))
                    };
                    match r2 {
                        Err(f) => (l2, Err(f)),
                        Ok(label) => {
                            let (l3, r3) = expect(l2, Tok::Colon);
                            match r3 {
                                Err(f) => (l3, Err(f)),
                                Ok(_) => if !past(l3, l) {
                                    (l3, Err(Fail::Abort))
                                } else {
                                    let (l4, r4) = stmts(l3);
                                    match r4 {
                                        Err(f) => (l4, Err(f)),
                                        Ok(body) => if past(l4, l) {
                                            switch_cases(l4, cases.push(Case { expr: label, stmts: body }))
                                        } else {
                                            (l4, Err(Fail::Abort))
                                        },
                                    }
                                },
                            }
                        },
                    }
                },
            }
        },
    }
}

/// `(e) { cases }`, after the word `switch`.
pub open spec fn switch(l: Lexer) -> (Lexer, Outcome<Switch>)
    decreases l.rem(), 0nat,
{
    let (l1, r1) = expect(l, Tok::LParen);
    match r1 {
        Err(f) => (l1, Err(f)),
        Ok(_) => if !past(l1, l) {
            (l1, Err(Fail::Abort))
        } else {
            let (l2, r2) = expr(l1);
            match r2 {
                Err(f) => (l2, Err(f)),
                Ok(e) => {
                    let (l3, r3) = expect(l2, Tok::RParen);
                    match r3 {
                        Err(f) => (l3, Err(f)),
                        Ok(_) => {
                            let (l4, r4) = expect(l3, Tok::LBrace);
                            match r4 {
                                Err(f) => (l4, Err(f)),
                                Ok(_) => if !past(l4, l) {
                                    (l4, Err(Fail::Abort))
                                } else {
                                    let (l5, r5) = switch_cases(l4, Seq::empty());
                                    match r5 {
                                        Err(f) => (l5, Err(f)),
                                        Ok(cases) => {
                                            let (l6, r6) = expect(l5, Tok::RBrace);
                                            match r6 {
                                                Err(f) => (l6, Err(f)),
                                                Ok(_) => (
                                                    l6,
                                                    Ok(Switch { expr: e.1, cases: List::from_seq(cases) }),
                                                ),
                                            }
                                        },
                                    }
                                },
                            }
                        },
                    }
                },
            }
        },
    }
}

/// `{ stmts }`.
pub open spec fn block(l: Lexer) -> (Lexer, Outcome<Stmt>)
    decreases l.rem(), 0nat,
{
    let (l1, r1) = expect(l, Tok::LBrace);
    match r1 {
        Err(f) => (l1, Err(f)),
        Ok(_) => if !past(l1, l) {
            (l1, Err(Fail::Abort))
        } else {
            let (l2, r2) = stmts(l1);
            match r2 {
                Err(f) => (l2, Err(f)),
                Ok(body) => {
                    let (l3, r3) = expect(l2, Tok::RBrace);
                    match r3 {
                        Err(f) => (l3, Err(f)),
                        Ok(_) => (l3, Ok(Stmt::Block(body))),
                    }
                },
            }
        },
    }
}

/// `block [catch (pattern) block] [finally block]`, after the word `try`.
pub open spec fn try_stmt(l: Lexer) -> (Lexer, Outcome<Try>)
    decreases l.rem(), 1nat,
{
    let (l1, r1) = block(l);
    match r1 {
        Err(f) => (l1, Err(f)),
        Ok(blk) => match peek(l1) {
            Err(f) => (l1, Err(f)),
            Ok(t) => {
                let (l2, r2) = if t == Tok::Catch {
                    let (la, ra) = read(l1);
                    match ra {
                        Err(f) => (la, Err(f)),
                        Ok(_) => {
                            let (lb, rb) = expect(la, Tok::LParen);
                            match rb {
                                Err(f) => (lb, Err(f)),
                                Ok(_) => {
                                    let (lc, rc) = binding_pattern(lb);
                                    match rc {
                                        Err(f) => (lc, Err(f)),
                                        Ok(param) => {
                                            let (ld, rd) = expect(lc, Tok::RParen);
                                            match rd {
                                                Err(f) => (ld, Err(f)),
                                                Ok(_) => if past(ld, l) {
                                                    let (le, re) = block(ld);
                                                    match re {
                                                        Err(f) => (le, Err(f)),
                                                        Ok(cb) => (le, Ok(Some((param, cb)))),
                                                    }
                                                } else {
                                                    (ld, Err(Fail::Abort))
                                                },
                                            }
                                        },
                                    }
                                },
                            }
                        },
                    }
                } else {
                    (l1, Ok(None))
                };
                match r2 {
                    Err(f) => (l2, Err(f)),
                    Ok(catch) => match peek(l2) {
                        Err(f) => (l2, Err(f)),
                        Ok(t2) => {
                            let (l3, r3) = if t2 == Tok::Finally {
                                let (la, ra) = read(l2);
                                match ra {
                                    Err(f) => (la, Err(f)),
                                    Ok(_) => if past(la, l) {
                                        let (lb, rb) = block(la);
                                        match rb {
                                            Err(f) => (lb, Err(f)),
                                            Ok(fb) => (lb, Ok(Some(fb))),
                                        }
                                    } else {
                                        (la, Err(Fail::Abort))
                                    },
                                }
                            } else {
                                (l2, Ok(None))
                            };
                            match r3 {
                                Err(f) => (l3, Err(f)),
                                Ok(finally) => (l3, Ok(Try { block: blk, catch, finally })),
                            }
                        },
                    },
                }
            },
        },
    }
}

/// The target of `break` or `continue`: none where the statement ends at
/// once, else a label followed by the end of the statement.
pub open spec fn jump_target(l: Lexer) -> (Lexer, Outcome<Option<String>>) {
    let (l1, r1) = asi_semi(l);
    match r1 {
        Err(f) => (l1, Err(f)),
        Ok(ended) => if ended {
            (l1, Ok(None))
        } else {
            let (l2, r2) = read(l1);
            match r2 {
                Err(f) => (l2, Err(f)),
                Ok(token) => if token.tok != Tok::Ident {
                    (l2, Err(expected(token, "label"@)))
                } else {
                    let (l3, r3) = expect_semi(l2);
                    match r3 {
                        Err(f) => (l3, Err(f)),
                        Ok(_) => (l3, Ok(Some(token.text))),
                    }
                },
            }
        },
    }
}

/// Whether a statement that starts with `t` is read by `keyword_stmt`.
pub open spec fn is_keyword_stmt(t: Tok) -> bool {
    ||| t == Tok::Class || t == Tok::Function || t == Tok::LBrace || decl_type_of(t) is Some
    ||| t == Tok::If || t == Tok::While || t == Tok::Do || t == Tok::For || t == Tok::Switch
    ||| t == Tok::Return || t == Tok::Throw || t == Tok::Try
}

/// A declaration or a statement that starts with the token `t` (already
/// read): a class, a function, a block, declarations, `if`, `while`, `do`,
/// `for`, `switch`, `return`, `throw` or `try`.
pub open spec fn keyword_stmt(l: Lexer, t: Tok) -> (Lexer, Outcome<Stmt>)
    decreases l.rem(), 6nat,
{
    if t == Tok::Class {
        let (l2, r2) = class(l);
        match r2 {
            Err(f) => (l2, Err(f)),
            Ok(c) => (l2, Ok(Stmt::Class(Box::new(c)))),
        }
    } else if t == Tok::Function {
        let (l2, r2) = function(l);
        match r2 {
            Err(f) => (l2, Err(f)),
            Ok(func) => (l2, Ok(Stmt::Function(Box::new(func)))),
        }
    } else if t == Tok::LBrace {
        let (l2, r2) = stmts(l);
        match r2 {
            Err(f) => (l2, Err(f)),
            Ok(body) => {
                let (l3, r3) = expect(l2, Tok::RBrace);
                match r3 {
                    Err(f) => (l3, Err(f)),
                    Ok(_) => (l3, Ok(Stmt::Block(body))),
                }
            },
        }
    } else if decl_type_of(t) is Some {
        let (l2, r2) = bindings(l);
        match r2 {
            Err(f) => (l2, Err(f)),
            Ok(decls) => {
                let (l3, r3) = expect_semi(l2);
                match r3 {
                    Err(f) => (l3, Err(f)),
                    Ok(_) => (
                        l3,
                        Ok(Stmt::Var(Box::new(VarDecls { typ: decl_type_for(t), decls }))),
                    ),
                }
            },
        }
    } else if t == Tok::If {
        let (l2, r2) = if_stmt(l);
        match r2 {
            Err(f) => (l2, Err(f)),
            Ok(s) => (l2, Ok(Stmt::If(Box::new(s)))),
        }
    } else if t == Tok::While {
        let (l2, r2) = while_stmt(l);
        match r2 {
            Err(f) => (l2, Err(f)),
            Ok(s) => (l2, Ok(Stmt::While(Box::new(s)))),
        }
    } else if t == Tok::Do {
        let (l2, r2) = do_while_stmt(l);
        match r2 {
            Err(f) => (l2, Err(f)),
            Ok(s) => (l2, Ok(Stmt::DoWhile(Box::new(s)))),
        }
    } else if t == Tok::For {
        for_stmt(l)
    } else if t == Tok::Switch {
        let (l2, r2) = switch(l);
        match r2 {
            Err(f) => (l2, Err(f)),
            Ok(s) => (l2, Ok(Stmt::Switch(Box::new(s)))),
        }
    } else if t == Tok::Return {
        let (l2, r2) = asi_semi(l);
        match r2 {
            Err(f) => (l2, Err(f)),
            Ok(ended) => if ended {
                (l2, Ok(Stmt::Return(None)))
    } else if !within(l2, l) {
                (l2, Err(Fail::Abort))
    } else {
                let (l3, r3) = expr(l2);
                match r3 {
                    Err(f) => (l3, Err(f)),
                    Ok(e) => {
                        let (l4, r4) = expect_semi(l3);
                        match r4 {
                            Err(f) => (l4, Err(f)),
                            Ok(_) => (l4, Ok(Stmt::Return(Some(Box::new(e.1))))),
                        }
                    },
                }
            },
        }
    } else if t == Tok::Throw {
        let (l2, r2) = expr(l);
        match r2 {
            Err(f) => (l2, Err(f)),
            Ok(e) => {
                let (l3, r3) = expect_semi(l2);
                match r3 {
                    Err(f) => (l3, Err(f)),
                    Ok(_) => (l3, Ok(Stmt::Throw(Box::new(e.1)))),
                }
            },
        }
    } else {
        let (l2, r2) = try_stmt(l);
        match r2 {
            Err(f) => (l2, Err(f)),
            Ok(s) => (l2, Ok(Stmt::Try(Box::new(s)))),
        }
    }
}

/// A statement or declaration.
pub open spec fn stmt(l: Lexer) -> (Lexer, Outcome<Stmt>)
    decreases l.rem(), 3nat,
{
    let (l1, r) = read(l);
    match r {
        Err(f) => (l1, Err(f)),
        Ok(token) => {
            let t = token.tok;
            if t == Tok::Semi {
                (l1, Ok(Stmt::Empty))
            } else if t == Tok::Break || t == Tok::Continue {
                let (l2, r2) = jump_target(l1);
                match r2 {
                    Err(f) => (l2, Err(f)),
                    Ok(target) => (
                        l2,
                        Ok(
                            if t == Tok::Break {
                                Stmt::Break(target)
                            } else {
                                Stmt::Continue(target)
                            },
                        ),
                    ),
                }
            } else if is_keyword_stmt(t) {
                if !past(l1, l) {
                    (l1, Err(Fail::Abort))
                } else {
                    keyword_stmt(l1, t)
                }
            } else {
                let label = if t == Tok::Ident {
                    match peek(l1) {
                        Err(f) => Err(f),
                        Ok(t2) => Ok(t2 == Tok::Colon),
                    }
                } else {
                    Ok(false)
                };
                match label {
                    Err(f) => (l1, Err(f)),
                    Ok(is_label) => if is_label {
                        let (l2, r2) = read(l1);
                        match r2 {
                            Err(f) => (l2, Err(f)),
                            Ok(_) => if !past(l2, l) {
                                (l2, Err(Fail::Abort))
                            } else {
                                let (l3, r3) = stmt(l2);
                                match r3 {
                                    Err(f) => (l3, Err(f)),
                                    Ok(s) => (
                                        l3,
                                        Ok(Stmt::Label(Box::new(Label { label: token.text, stmt: s }))),
                                    ),
                                }
                            },
                        }
                    } else {
                        let l2 = put_back(l1, token);
                        if !within(l2, l) {
                            (l2, Err(Fail::Abort))
                        } else {
                            let (l3, r3) = expr(l2);
                            match r3 {
                                Err(f) => (l3, Err(f)),
                                Ok(e) => {
                                    let (l4, r4) = expect_semi(l3);
                                    match r4 {
                                        Err(f) => (l4, Err(f)),
                                        Ok(_) => (l4, Ok(Stmt::Expr(e))),
                                    }
                                },
                            }
                        }
                    },
                }
            }
        },
    }
}

/// Statements up to a `}`, a `case`, a `default` or the end of the input
/// (left unread).
pub open spec fn stmts_list(l: Lexer, body: Seq<Stmt>) -> (Lexer, Outcome<Seq<Stmt>>)
    decreases l.rem(), 4nat,
{
    match peek(l) {
        Err(f) => (l, Err(f)),
        Ok(t) => if t == Tok::RBrace || t == Tok::EOF || t == Tok::Case || t == Tok::Default {
            (l, Ok(body))
        } else {
            let (l1, r1) = stmt(l);
            match r1 {
                Err(f) => (l1, Err(f)),
                Ok(s) => if past(l1, l) {
                    stmts_list(l1, body.push(s))
                } else {
                    (l1, Err(Fail::Abort))
                },
            }
        },
    }
}

pub open spec fn stmts(l: Lexer) -> (Lexer, Outcome<List<Stmt>>)
    decreases l.rem(), 5nat,
{
    let (l1, r) = stmts_list(l, Seq::empty());
    match r {
        Err(f) => (l1, Err(f)),
        Ok(body) => (l1, Ok(List::from_seq(body))),
    }
}

/// A whole program.
pub open spec fn module(l: Lexer) -> (Lexer, Outcome<Module>) {
    let (l1, r) = stmts(l);
    match r {
        Err(f) => (l1, Err(f)),
        Ok(body) => (l1, Ok(Module { scope: Scope { bindings: List::Nil }, stmts: body })),
    }
}

/// A binary operator `t` after an operand `lhs` (at a precedence where it
/// may stand): its right operand is the expression read next, at the
/// operator's right-operand precedence; the operator is the one spelled
/// like `t`; `lhs` stays on the left; the result continues as an operand.
pub proof fn lemma_binary(l: Lexer, prec: usize, lhs: ExprNode)
    requires
        l.wf(),
        read_next(l).1 matches Ok(t) && infix_levels(t.tok) is Some && prec <= infix_levels(
            t.tok,
        )->Some_0.0,
        expr_ops(l, prec, lhs).1 is Ok,
    ensures
        ({
            let t = read_next(l).1->Ok_0;
            let (l2, r2) = expr_prec(read_next(l).0, infix_levels(t.tok)->Some_0.1);
            &&& r2 is Ok
            &&& binop_of(t.tok) is Some
            &&& binop_text(binop_of(t.tok)->Some_0) == crate::lex::tok_spelling(t.tok)
            &&& expr_ops(l, prec, lhs) == expr_ops(
                l2,
                prec,
                (
                    Span { start: lhs.0.start, end: r2->Ok_0.0.end },
                    Expr::Binary(Box::new(Binary { op: binop_of(t.tok)->Some_0, lhs, rhs: r2->Ok_0 })),
                ),
            )
        }),
{
    crate::ops::lemma_binop_of_spelling(read_next(l).1->Ok_0.tok);
}

/// An assignment `lhs = rhs`: the target is the operand read before `=`,
/// the value the expression read after it (at assignment precedence, so
/// `a = b = c` assigns `b = c` to `a`).
pub proof fn lemma_assign(l: Lexer, prec: usize, lhs: ExprNode)
    requires
        l.wf(),
        read_next(l).1 matches Ok(t) && t.tok == Tok::Eq,
        prec <= 3,
        expr_ops(l, prec, lhs).1 is Ok,
    ensures
        ({
            let (l2, r2) = expr_prec(read_next(l).0, 3);
            &&& r2 is Ok
            &&& expr_ops(l, prec, lhs) == expr_ops(
                l2,
                prec,
                (
                    Span { start: lhs.0.start, end: r2->Ok_0.0.end },
                    Expr::Assign(Box::new(lhs), Box::new(r2->Ok_0)),
                ),
            )
        }),
{
}

/// `e++` and `e--` after an operand: the postfix increment for `++`, the
/// postfix decrement for `--`, applied to the operand.
pub proof fn lemma_postfix(l: Lexer, prec: usize, e: ExprNode)
    requires
        l.wf(),
        read_next(l).1 matches Ok(t) && (t.tok == Tok::PlusPlus || t.tok == Tok::MinusMinus),
        prec <= 17,
    ensures
        ({
            let t = read_next(l).1->Ok_0;
            expr_ops(l, prec, e) == expr_ops(
                read_next(l).0,
                prec,
                (
                    Span { start: e.0.start, end: t.span.end },
                    Expr::Unary(
                        if t.tok == Tok::PlusPlus {
                            UnOp::PostPlusPlus
                        } else {
                            UnOp::PostMinusMinus
                        },
                        Box::new(e),
                    ),
                ),
            )
        }),
{
}

/// `e.name`: the member read after the dot is a name (a reserved word
/// counts) and becomes the field, with `e` as the object; any other token
/// there is an error.
pub proof fn lemma_member(l: Lexer, prec: usize, e: ExprNode)
    requires
        l.wf(),
        read_next(l).1 matches Ok(t) && t.tok == Tok::Dot,
        prec <= 19,
        read_next(read_next(l).0).1 is Ok,
    ensures
        ({
            let l1 = read_next(l).0;
            let m = read_next(l1).1->Ok_0;
            &&& (m.tok == Tok::Ident || is_keyword(m.tok)) ==> expr_ops(l, prec, e) == expr_ops(
                read_next(l1).0,
                prec,
                (Span { start: e.0.start, end: m.span.end }, Expr::Field(Box::new(e), m.text)),
            )
            &&& !(m.tok == Tok::Ident || is_keyword(m.tok)) ==> expr_ops(l, prec, e) == (
                read_next(l1).0,
                Err::<ExprNode, Fail>(expected(m, "member"@)),
            )
        }),
{
    let l1 = read_next(l).0;
    assert(l1.wf());
    if read_next(l1).1->Ok_0.tok != Tok::EOF {
        assert(past(read_next(l1).0, l));
    }
}

/// `e[i]`: the object is the operand before `[`, the index the whole
/// expression read inside the brackets.
pub proof fn lemma_index(l: Lexer, prec: usize, e: ExprNode)
    requires
        l.wf(),
        read_next(l).1 matches Ok(t) && t.tok == Tok::LSquare,
        prec <= 19,
        expr_ops(l, prec, e).1 is Ok,
    ensures
        ({
            let (l2, r2) = expr(read_next(l).0);
            let (l3, r3) = expect(l2, Tok::RSquare);
            &&& r2 is Ok
            &&& r3 is Ok
            &&& expr_ops(l, prec, e) == expr_ops(
                l3,
                prec,
                (
                    Span { start: r2->Ok_0.0.start, end: r3->Ok_0 },
                    Expr::Index(Box::new(e), Box::new(r2->Ok_0)),
                ),
            )
        }),
{
}

/// `f(args)`: the callee is the operand before `(`, the arguments the
/// expressions read up to `)`, in order.
pub proof fn lemma_call(l: Lexer, prec: usize, e: ExprNode)
    requires
        l.wf(),
        read_next(l).1 matches Ok(t) && t.tok == Tok::LParen,
        prec <= 19,
        expr_ops(l, prec, e).1 is Ok,
    ensures
        ({
            let (l2, r2) = call_args(read_next(l).0, Seq::empty());
            let (l3, r3) = expect(l2, Tok::RParen);
            &&& r2 is Ok
            &&& r3 is Ok
            &&& expr_ops(l, prec, e) == expr_ops(
                l3,
                prec,
                (
                    Span { start: e.0.start, end: r3->Ok_0 },
                    Expr::Call(Box::new(Call { func: e, args: List::from_seq(r2->Ok_0) })),
                ),
            )
        }),
{
    let l1 = read_next(l).0;
    let (l2, r2) = call_args(l1, Seq::empty());
    let (l3, r3) = expect(l2, Tok::RParen);
    assert(function_call(l1, e) == match r2 {
        Err(f) => (l2, Err(f)),
        Ok(args) => match r3 {
            Err(f) => (l3, Err(f)),
            Ok(end) => (
                l3,
                Ok(
                    (
                        Span { start: e.0.start, end },
                        Expr::Call(Box::new(Call { func: e, args: List::from_seq(args) })),
                    ),
                ),
            ),
        },
    });
}

/// A prefix operator: its operand is the expression read after it (at
/// unary precedence, or at member precedence after `new`), and the
/// expression is that operator, spelled as the token, applied to it.
pub proof fn lemma_prefix(l: Lexer, prec: usize)
    requires
        l.wf(),
        read_next(l).1 matches Ok(t) && (is_prefix_op(t.tok) || t.tok == Tok::TypeOf || t.tok
            == Tok::New),
        prec <= 16,
        expr_prec(l, prec).1 is Ok,
    ensures
        ({
            let t = read_next(l).1->Ok_0;
            let (l2, r2) = expr_prec(
                read_next(l).0,
                if t.tok == Tok::New {
                    18usize
                } else {
                    16usize
                },
            );
            let span = Span { start: t.span.start, end: r2->Ok_0.0.end };
            &&& r2 is Ok
            &&& is_prefix_op(t.tok) ==> unop_of(t.tok) is Some && unop_text(unop_of(t.tok)->Some_0)
                == crate::lex::tok_spelling(t.tok) && expr_prec(l, prec) == expr_ops(
                l2,
                prec,
                (span, Expr::Unary(unop_of(t.tok)->Some_0, Box::new(r2->Ok_0))),
            )
            &&& t.tok == Tok::TypeOf ==> expr_prec(l, prec) == expr_ops(
                l2,
                prec,
                (span, Expr::TypeOf(Box::new(r2->Ok_0))),
            )
            &&& t.tok == Tok::New ==> expr_prec(l, prec) == expr_ops(
                l2,
                prec,
                (span, Expr::New(Box::new(r2->Ok_0))),
            )
        }),
{
    crate::ops::lemma_unop_of_spelling(read_next(l).1->Ok_0.tok);
}

/// The kind of statement that each leading token gives.
pub open spec fn stmt_starts_as(t: Tok, s: Stmt) -> bool {
    if t == Tok::Semi {
        s is Empty
    } else if t == Tok::Break {
        s is Break
    } else if t == Tok::Continue {
        s is Continue
    } else if t == Tok::Class {
        s is Class
    } else if t == Tok::Function {
        s is Function
    } else if t == Tok::LBrace {
        s is Block
    } else if t == Tok::Var || t == Tok::Let || t == Tok::Const {
        s matches Stmt::Var(d) && ((t == Tok::Var) == (d.typ == VarDeclType::Var)) && ((t
            == Tok::Let) == (d.typ == VarDeclType::Let))
    } else if t == Tok::If {
        s is If
    } else if t == Tok::While {
        s is While
    } else if t == Tok::Do {
        s is DoWhile
    } else if t == Tok::For {
        s is For || s is ForInOf
    } else if t == Tok::Switch {
        s is Switch
    } else if t == Tok::Return {
        s is Return
    } else if t == Tok::Throw {
        s is Throw
    } else if t == Tok::Try {
        s is Try
    } else if t == Tok::Ident {
        s is Expr || s is Label
    } else {
        s is Expr
    }
}

proof fn lemma_for_rest_kind(l: Lexer, init: ForInit)
    ensures
        for_rest(l, init).1 matches Ok(s) ==> s is For,
{
}

proof fn lemma_for_stmt_kind(l1: Lexer)
    ensures
        for_stmt(l1).1 matches Ok(s) ==> s is For || s is ForInOf,
{
    let (la, ra) = expect(l1, Tok::LParen);
    if ra is Ok && past(la, l1) {
        if let Ok(tok) = peek(la) {
            if tok == Tok::Semi {
                lemma_for_rest_kind(la, ForInit::Empty);
            } else {
                let (l2, r2) = if decl_type_of(tok) is Some {
                    let (lx, rx) = read(la);
                    match rx {
                        Err(f) => (lx, Err(f)),
                        Ok(_) => (lx, Ok(decl_type_of(tok))),
                    }
                } else {
                    (la, Ok(None))
                };
                let (l3, r3) = expr(l2);
                if let Ok(e) = r3 {
                    if let Some(dt) = decl_type_of(tok) {
                        if let Ok(decls) = decls_from_expr(e, Seq::empty()) {
                            lemma_for_rest_kind(
                                l3,
                                ForInit::Decls(VarDecls { typ: dt, decls: List::from_seq(decls) }),
                            );
                        }
                    } else {
                        lemma_for_rest_kind(l3, ForInit::Expr(e.1));
                    }
                }
            }
        }
    }
}

#[verifier::rlimit(50)]
proof fn lemma_keyword_stmt_kind(l: Lexer, t: Tok)
    requires
        is_keyword_stmt(t),
    ensures
        keyword_stmt(l, t).1 matches Ok(s) ==> stmt_starts_as(t, s),
{
    if t == Tok::For {
        lemma_for_stmt_kind(l);
    }
}

/// A statement is of the kind its first token announces: `while` gives a
/// `while` loop, `do` a `do`-`while` loop, `var`, `let` and `const` a
/// declaration of that kind, `break` a `break`, and so on; one that starts
/// with another token is an expression statement (or, for a name, a label).
#[verifier::rlimit(50)]
pub proof fn lemma_stmt_kind(l: Lexer)
    requires
        read_next(l).1 is Ok,
    ensures
        stmt(l).1 matches Ok(s) ==> stmt_starts_as(read_next(l).1->Ok_0.tok, s),
{
    let t = read_next(l).1->Ok_0.tok;
    if is_keyword_stmt(t) {
        lemma_keyword_stmt_kind(read_next(l).0, t);
    }
}

/// `if (c) s1 else s2`: the branch taken when `c` holds is the statement
/// read after the condition, and the `else` branch the statement read after
/// `else`, if one follows.
pub proof fn lemma_if(l: Lexer)
    requires
        l.wf(),
        if_stmt(l).1 is Ok,
    ensures
        ({
            let (l1, _) = expect(l, Tok::LParen);
            let (l2, r2) = expr(l1);
            let (l3, _) = expect(l2, Tok::RParen);
            let (l4, r4) = stmt(l3);
            let i = if_stmt(l).1->Ok_0;
            &&& r2 is Ok && r4 is Ok
            &&& i.cond == r2->Ok_0.1
            &&& i.iftrue == r4->Ok_0
            &&& peek(l4) == Ok::<Tok, Fail>(Tok::Else) ==> i.else_ == Some(
                stmt(read_next(l4).0).1->Ok_0,
            )
            &&& peek(l4) != Ok::<Tok, Fail>(Tok::Else) ==> i.else_ is None
        }),
{
}

/// `for (init; cond; iter) body`, from the first `;`: the condition is the
/// expression read after it (none if a `;` follows at once), the step the
/// expression read after the second `;` (none if `)` follows at once).
pub proof fn lemma_for_clauses(l: Lexer, init: ForInit)
    requires
        l.wf(),
        for_rest(l, init).1 is Ok,
    ensures
        ({
            let (l1, _) = expect(l, Tok::Semi);
            let cond_given = peek(l1) != Ok::<Tok, Fail>(Tok::Semi);
            let (l2, r2) = expr(l1);
            let lc = if cond_given {
                l2
            } else {
                l1
            };
            let (l3, _) = expect(lc, Tok::Semi);
            let iter_given = peek(l3) != Ok::<Tok, Fail>(Tok::RParen);
            let (l4, r4) = expr(l3);
            let f = for_rest(l, init).1->Ok_0;
            &&& f is For
            &&& f->For_0.init == init
            &&& cond_given ==> r2 is Ok && f->For_0.cond == Some(r2->Ok_0.1)
            &&& !cond_given ==> f->For_0.cond is None
            &&& iter_given ==> r4 is Ok && f->For_0.iter == Some(r4->Ok_0.1)
            &&& !iter_given ==> f->For_0.iter is None
        }),
{
}

/// The declarations that a `for` head's expression stands for, leaf by
/// leaf: a name declares itself with no value, `name = value` declares the
/// name with that value, `a, b` declares those of `a` and then those of
/// `b`; any other expression is an error at its own span.
pub proof fn lemma_decls_leaves(
    sp: Span,
    tsp: Span,
    n: Symbol,
    value: ExprNode,
    a: ExprNode,
    b: ExprNode,
    d: Seq<VarDecl>,
)
    ensures
        decls_from_expr((sp, Expr::Ident(n)), d) == Ok::<Seq<VarDecl>, Fail>(
            d.push(VarDecl { pattern: BindingPattern::Name(n), init: None }),
        ),
        decls_from_expr((sp, Expr::Assign(Box::new((tsp, Expr::Ident(n))), Box::new(value))), d)
            == Ok::<Seq<VarDecl>, Fail>(
            d.push(VarDecl { pattern: BindingPattern::Name(n), init: Some(value) }),
        ),
        decls_from_expr((sp, Expr::Binary(Box::new(Binary { op: BinOp::Comma, lhs: a, rhs: b }))), d)
            == match decls_from_expr(a, d) {
            Ok(d1) => decls_from_expr(b, d1),
            Err(f) => Err(f),
        },
        decls_from_expr((sp, Expr::This), d) == Err::<Seq<VarDecl>, Fail>(
            Fail::Error("failed to extract decls"@, sp),
        ),
{
}

/// The parameters that the left side of `=>` stands for, leaf by leaf:
/// `()` gives none, a name gives that parameter with no default, `a, b`
/// gives those of `a` and then those of `b`; any other expression is an
/// error at its own span.
pub proof fn lemma_arrow_params_leaves(
    sp: Span,
    n: Symbol,
    a: ExprNode,
    b: ExprNode,
    ps: Seq<(BindingPattern, Option<ExprNode>)>,
)
    ensures
        arrow_params_from_expr((sp, Expr::EmptyParens), ps) == Ok::<
            Seq<(BindingPattern, Option<ExprNode>)>,
            Fail,
        >(ps),
        arrow_params_from_expr((sp, Expr::Ident(n)), ps) == Ok::<
            Seq<(BindingPattern, Option<ExprNode>)>,
            Fail,
        >(ps.push((BindingPattern::Name(n), None))),
        arrow_params_from_expr(
            (sp, Expr::Binary(Box::new(Binary { op: BinOp::Comma, lhs: a, rhs: b }))),
            ps,
        ) == match arrow_params_from_expr(a, ps) {
            Ok(p1) => arrow_params_from_expr(b, p1),
            Err(f) => Err(f),
        },
        arrow_params_from_expr((sp, Expr::This), ps) == Err::<
            Seq<(BindingPattern, Option<ExprNode>)>,
            Fail,
        >(Fail::Error("couldn't convert left side of arrow into parameter list"@, sp)),
{
}

/// `return` with the statement ending at once (by a `;` or an inserted
/// one) returns nothing; otherwise it returns the expression read next,
/// which must end the statement.  `throw` throws the expression read next.
pub proof fn lemma_return_throw(l: Lexer)
    requires
        l.wf(),
    ensures
        ({
            let (l2, r2) = asi_semi(l);
            let (l3, r3) = expr(l2);
            &&& r2 == Ok::<bool, Fail>(true) ==> keyword_stmt(l, Tok::Return) == (
                l2,
                Ok::<Stmt, Fail>(Stmt::Return(None)),
            )
            &&& r2 == Ok::<bool, Fail>(false) && keyword_stmt(l, Tok::Return).1 is Ok ==> r3 is Ok
                && keyword_stmt(l, Tok::Return).1 == Ok::<Stmt, Fail>(
                Stmt::Return(Some(Box::new(r3->Ok_0.1))),
            )
        }),
        keyword_stmt(l, Tok::Throw).1 is Ok ==> expr(l).1 is Ok && keyword_stmt(l, Tok::Throw).1
            == Ok::<Stmt, Fail>(Stmt::Throw(Box::new(expr(l).1->Ok_0.1))),
{
}

/// A statement list keeps its statements in the order they are read: it
/// is empty before `}`, `case`, `default` or the end of the input, and
/// otherwise starts with the statement read first, followed by the list
/// read after it.
pub proof fn lemma_stmts_in_order(l: Lexer, body: Seq<Stmt>)
    ensures
        ends_stmts(l) ==> stmts_list(l, body) == (l, Ok::<Seq<Stmt>, Fail>(body)),
        peek(l) is Ok && !ends_stmts(l) && stmts_list(l, body).1 is Ok ==> stmt(l).1 is Ok
            && stmts_list(l, body) == stmts_list(stmt(l).0, body.push(stmt(l).1->Ok_0)),
{
}

/// A clause of a `switch`: after `case`, its label is the expression read
/// up to the `:`; `default` has none; its statements are those read after
/// the `:`; the clauses after it follow.
pub proof fn lemma_switch_clause(l: Lexer, cases: Seq<Case>)
    requires
        l.wf(),
        peek(l) matches Ok(t) && (t == Tok::Case || t == Tok::Default),
        switch_cases(l, cases).1 is Ok,
    ensures
        ({
            let is_case = peek(l) == Ok::<Tok, Fail>(Tok::Case);
            let l1 = read_next(l).0;
            let (la, ra) = expr(l1);
            let l2 = if is_case {
                la
            } else {
                l1
            };
            let label = if is_case {
                Some(ra->Ok_0.1)
            } else {
                None
            };
            let (l3, _) = expect(l2, Tok::Colon);
            let (l4, r4) = stmts(l3);
            &&& is_case ==> ra is Ok
            &&& r4 is Ok
            &&& switch_cases(l, cases) == switch_cases(
                l4,
                cases.push(Case { expr: label, stmts: r4->Ok_0 }),
            )
        }),
{
}

/// `name: stmt`: a name followed by `:` labels the statement read after
/// the colon with that name.
pub proof fn lemma_labelled(l: Lexer)
    requires
        l.wf(),
        read_next(l).1 matches Ok(t) && t.tok == Tok::Ident,
        peek(read_next(l).0) == Ok::<Tok, Fail>(Tok::Colon),
        stmt(l).1 is Ok,
    ensures
        ({
            let t = read_next(l).1->Ok_0;
            let l2 = read_next(read_next(l).0).0;
            &&& stmt(l2).1 is Ok
            &&& stmt(l) == (
                stmt(l2).0,
                Ok::<Stmt, Fail>(Stmt::Label(Box::new(Label { label: t.text, stmt: stmt(l2).1->Ok_0 }))),
            )
        }),
{
}

/// The elements of an array literal keep their order: before `]` there
/// are no more; a leading comma adds nothing; otherwise the element read
/// next comes first, then, after a comma, the ones read after it.
pub proof fn lemma_array_elems_in_order(l: Lexer, elems: Seq<ExprNode>)
    requires
        l.wf(),
        array_elems(l, elems).1 is Ok,
    ensures
        peek(l) == Ok::<Tok, Fail>(Tok::RSquare) ==> array_elems(l, elems) == (
            l,
            Ok::<Seq<ExprNode>, Fail>(elems),
        ),
        peek(l) == Ok::<Tok, Fail>(Tok::Comma) ==> array_elems(l, elems) == array_elems(
            read_next(l).0,
            elems,
        ),
        peek(l) != Ok::<Tok, Fail>(Tok::RSquare) && peek(l) != Ok::<Tok, Fail>(Tok::Comma) ==> {
            let (l1, r1) = expr_prec(l, 1);
            &&& r1 is Ok
            &&& peek(l1) == Ok::<Tok, Fail>(Tok::Comma) ==> array_elems(l, elems) == array_elems(
                read_next(l1).0,
                elems.push(r1->Ok_0),
            )
            &&& peek(l1) != Ok::<Tok, Fail>(Tok::Comma) ==> array_elems(l, elems) == (
                l1,
                Ok::<Seq<ExprNode>, Fail>(elems.push(r1->Ok_0)),
            )
        },
{
}

/// The arguments of a call keep their order: before `)` there are no
/// more; otherwise the argument read next comes first, then, after a
/// comma, the ones read after it.
pub proof fn lemma_call_args_in_order(l: Lexer, args: Seq<ExprNode>)
    requires
        l.wf(),
        call_args(l, args).1 is Ok,
    ensures
        peek(l) == Ok::<Tok, Fail>(Tok::RParen) ==> call_args(l, args) == (
            l,
            Ok::<Seq<ExprNode>, Fail>(args),
        ),
        peek(l) != Ok::<Tok, Fail>(Tok::RParen) ==> {
            let (l1, r1) = expr_prec(l, 3);
            &&& r1 is Ok
            &&& peek(l1) == Ok::<Tok, Fail>(Tok::Comma) ==> call_args(l, args) == call_args(
                read_next(l1).0,
                args.push(r1->Ok_0),
            )
            &&& peek(l1) != Ok::<Tok, Fail>(Tok::Comma) ==> call_args(l, args) == (
                l1,
                Ok::<Seq<ExprNode>, Fail>(args.push(r1->Ok_0)),
            )
        },
{
}

/// An object property `key: value` has the expression read after the
/// colon as its value; a bare name `{a}` stands for the variable of that
/// name; `name(...) {...}` is a method named by the key.
pub proof fn lemma_property_value(l: Lexer, span: Span, name: String)
    requires
        l.wf(),
    ensures
        peek(l) == Ok::<Tok, Fail>(Tok::Colon) && property_value(
            l,
            span,
            PropertyKey::String(name),
            true,
        ).1 is Ok ==> expr_prec(read_next(l).0, 3).1 is Ok && property_value(
            l,
            span,
            PropertyKey::String(name),
            true,
        ) == (
            expr_prec(read_next(l).0, 3).0,
            Ok::<Property, Fail>(
                Property {
                    name: PropertyKey::String(name),
                    value: expr_prec(read_next(l).0, 3).1->Ok_0,
                },
            ),
        ),
        peek(l) is Ok && peek(l) != Ok::<Tok, Fail>(Tok::Colon) && peek(l) != Ok::<Tok, Fail>(
            Tok::LParen,
        ) ==> property_value(l, span, PropertyKey::String(name), true) == (
            l,
            Ok::<Property, Fail>(
                Property {
                    name: PropertyKey::String(name),
                    value: (span, Expr::Ident(Symbol { name, renameable: true })),
                },
            ),
        ),
        peek(l) == Ok::<Tok, Fail>(Tok::LParen) && property_value(
            l,
            span,
            PropertyKey::String(name),
            true,
        ).1 is Ok ==> function_from_paren(l, Some(Symbol { name, renameable: true })).1 is Ok
            && property_value(l, span, PropertyKey::String(name), true).1 == Ok::<Property, Fail>(
            Property {
                name: PropertyKey::String(name),
                value: (
                    span,
                    Expr::Function(
                        Box::new(
                            function_from_paren(l, Some(Symbol { name, renameable: true })).1->Ok_0,
                        ),
                    ),
                ),
            },
        ),
{
}

/// `function name(...) {...}` is named by the name after the word, and
/// `function (...) {...}` has no name.
pub proof fn lemma_function_name(l: Lexer)
    requires
        l.wf(),
        function(l).1 is Ok,
    ensures
        read_next(l).1 matches Ok(t) && t.tok == Tok::Ident ==> function(l).1->Ok_0.name == Some(
            Symbol { name: read_next(l).1->Ok_0.text, renameable: true },
        ),
        read_next(l).1 matches Ok(t) && t.tok != Tok::Ident ==> function(l).1->Ok_0.name is None,
{
    let l1 = read_next(l).0;
    assert(function_from_paren(l1, Some(sym(read_next(l).1->Ok_0.text))).1 matches Ok(f) ==> f.name
        == Some(sym(read_next(l).1->Ok_0.text)));
    assert(function_from_paren(l, None).1 matches Ok(f) ==> f.name is None);
}

} // verus!
