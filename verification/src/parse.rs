//! A recursive-descent parser for a subset of JavaScript: expressions by
//! precedence climbing, statements with automatic semicolon insertion.
//! Every method computes exactly the function of the same name in
//! `grammar`.
use vstd::prelude::*;
use crate::ast::{
    ArrowBody, ArrowFunction, Binary, BindingPattern, Call, Case, Class, Expr, ExprNode, For,
    ForInOf, ForInit, Function, If, Label, Module, Object, ObjectBindingPattern, Property,
    PropertyKey, Regex, Scope, Stmt, Switch, Symbol, Ternary, Try, VarDecl, VarDeclType, VarDecls,
    While,
};
use crate::grammar;
use crate::grammar::{past, within, Fail, Outcome};
use crate::lex::{token_wf, LexError, Lexer, Span, Tok, TokData, Token};
use crate::list::List;
use crate::ops::{BinOp, UnOp};

verus! {

/// A parse error: what went wrong, and where.
#[derive(Debug)]
pub struct ParseError {
    pub msg: String,
    pub at: Span,
}

pub type ParseResult<T> = Result<T, ParseError>;

/// The executable result `r` is the grammar's outcome `s`: the same value,
/// or an error with the same message and place.
pub open spec fn agrees<T>(r: ParseResult<T>, s: Outcome<T>) -> bool {
    match r {
        Ok(v) => s == Ok::<T, Fail>(v),
        Err(e) => s == Err::<T, Fail>(Fail::Error(e.msg@, e.at)),
    }
}

/// The grammar's outcome is not a state in which the parser stops the
/// program.
pub open spec fn no_abort<T>(s: Outcome<T>) -> bool {
    !(s matches Err(Fail::Abort))
}

/// A step of the parser from cursor `before` to cursor `after` with result
/// `r` is the grammar's step `s`, and leaves a well-formed cursor that has
/// not moved back.
pub open spec fn follows<T>(before: Lexer, after: Lexer, r: ParseResult<T>, s: (Lexer, Outcome<T>)) -> bool {
    &&& after == s.0
    &&& agrees(r, s.1)
    &&& after.wf()
    &&& within(after, before)
}

/// How many offsets a span covers (none, if it ends before it starts).
pub open spec fn span_width(at: Span) -> nat {
    if at.end >= at.start {
        (at.end - at.start) as nat
    } else {
        0
    }
}

/// The line that marks where an error lies under its source line: a space
/// for each column before the error's, then a `^` for each offset it covers.
pub open spec fn marker_text(col: usize, at: Span) -> Seq<char> {
    Seq::new((col - 1) as nat, |_i: int| ' ') + Seq::new(span_width(at), |_i: int| '^')
}

impl ParseError {
    /// The line that marks this error under its source line, where the
    /// error starts at column `col` (counted from 1).
    pub fn marker(&self, col: usize) -> (s: String)
        requires
            col >= 1,
        ensures
            s@ == marker_text(col, self.at),
    {
        let mut mark = String::new();
        let mut i: usize = 1;
        while i < col
            invariant
                1 <= i <= col,
                mark@ == Seq::new((i - 1) as nat, |_i: int| ' '),
            decreases col - i,
        {
            proof {
                reveal_strlit(" ");
            }
            mark.append(" ");
            assert(mark@ =~= Seq::new(i as nat, |_i: int| ' '));
            i = i + 1;
        }
        let ghost spaces = mark@;
        let mut j = self.at.start;
        while j < self.at.end
            invariant
                self.at.start <= j,
                j <= self.at.end || j == self.at.start,
                mark@ == spaces + Seq::new((j - self.at.start) as nat, |_i: int| '^'),
            decreases self.at.end - j,
        {
            proof {
                reveal_strlit("^");
            }
            mark.append("^");
            assert(mark@ =~= spaces + Seq::new((j + 1 - self.at.start) as nat, |_i: int| '^'));
            j = j + 1;
        }
        assert(mark@ =~= marker_text(col, self.at));
        mark
    }

    fn from_lexerror(e: LexError) -> (p: ParseError)
        requires
            e.pos < usize::MAX,
        ensures
            Fail::Error(p.msg@, p.at) == grammar::lex_fail(e),
    {
        let LexError { msg, pos } = e;
        ParseError { msg, at: Span { start: pos, end: pos + 1 } }
    }
}

fn is_for_in_of_head(expr: &Expr) -> (b: bool)
    ensures
        b == grammar::is_for_in_of_head(*expr),
{
    match expr {
        Expr::Binary(bin) => bin.op == BinOp::In,
        _ => false,
    }
}

fn decl_type_from_tok(tok: Tok) -> (t: VarDeclType)
    requires
        grammar::decl_type_of(tok) is Some,
    ensures
        grammar::decl_type_of(tok) == Some(t),
{
    match tok {
        Tok::Var => VarDeclType::Var,
        Tok::Let => VarDeclType::Let,
        _ => VarDeclType::Const,
    }
}

/// Appends to `decls` the declarations that `expr` stands for, where it
/// follows `var`, `let` or `const` in the head of a `for` loop.
fn decls_from_expr(expr: ExprNode, decls: &mut Vec<VarDecl>) -> (r: ParseResult<()>)
    requires
        no_abort(grammar::decls_from_expr(expr, old(decls)@)),
    ensures
        match r {
            Ok(_) => grammar::decls_from_expr(expr, old(decls)@) == Ok::<Seq<VarDecl>, Fail>(
                final(decls)@,
            ),
            Err(e) => grammar::decls_from_expr(expr, old(decls)@) == Err::<Seq<VarDecl>, Fail>(
                Fail::Error(e.msg@, e.at),
            ),
        },
        final(decls)@ == grammar::decls_after(expr, old(decls)@),
    decreases expr.1,
{
    let (span, e) = expr;
    match e {
        Expr::Ident(name) => {
            decls.push(VarDecl { pattern: BindingPattern::Name(name), init: None });
        },
        Expr::Assign(lhs, rhs) => {
            let (_, target) = *lhs;
            match target {
                Expr::Ident(name) => {
                    decls.push(VarDecl { pattern: BindingPattern::Name(name), init: Some(*rhs) });
                },
                _ => {
                    proof {
                        assert(false);
                    }
                },
            }
        },
        Expr::Binary(bin) => {
            let bin = *bin;
            if bin.op == BinOp::Comma {
                decls_from_expr(bin.lhs, decls)?;
                decls_from_expr(bin.rhs, decls)?;
            } else {
                return Err(ParseError { msg: String::from_str("failed to extract decls"), at: span });
            }
        },
        _ => {
            return Err(ParseError { msg: String::from_str("failed to extract decls"), at: span });
        },
    }
    Ok(())
}

/// Appends to `params` the parameters that `expr`, the left side of an
/// arrow function, stands for.
fn arrow_params_from_expr(expr: ExprNode, params: &mut Vec<(BindingPattern, Option<ExprNode>)>) -> (r:
    ParseResult<()>)
    ensures
        match r {
            Ok(_) => grammar::arrow_params_from_expr(expr, old(params)@) == Ok::<
                Seq<(BindingPattern, Option<ExprNode>)>,
                Fail,
            >(final(params)@),
            Err(e) => grammar::arrow_params_from_expr(expr, old(params)@) == Err::<
                Seq<(BindingPattern, Option<ExprNode>)>,
                Fail,
            >(Fail::Error(e.msg@, e.at)),
        },
        final(params)@ == grammar::params_after(expr, old(params)@),
    decreases expr.1,
{
    let (span, e) = expr;
    match e {
        Expr::EmptyParens => {},
        Expr::Ident(sym) => {
            params.push((BindingPattern::Name(sym), None));
        },
        Expr::Binary(bin) => {
            let bin = *bin;
            if bin.op == BinOp::Comma {
                arrow_params_from_expr(bin.lhs, params)?;
                arrow_params_from_expr(bin.rhs, params)?;
            } else {
                return Err(
                    ParseError {
                        msg: String::from_str("couldn't convert left side of arrow into parameter list"),
                        at: span,
                    },
                );
            }
        },
        _ => {
            return Err(
                ParseError {
                    msg: String::from_str("couldn't convert left side of arrow into parameter list"),
                    at: span,
                },
            );
        },
    }
    Ok(())
}

/// A parser over a token stream.
pub struct Parser {
    pub lexer: Lexer,
}

impl Parser {
    pub fn new(lexer: Lexer) -> (p: Parser)
        ensures
            p.lexer == lexer,
    {
        Parser { lexer }
    }

    fn parse_error(&self, got: Token, expected: &str) -> (e: ParseError)
        ensures
            Fail::Error(e.msg@, e.at) == grammar::expected(got, expected@),
    {
        let mut msg = String::from_str("expected ");
        msg.append(expected);
        msg.append(", got ");
        msg.append(got.tok.name());
        ParseError { msg, at: got.span }
    }

    fn lex_read(&mut self) -> (r: ParseResult<Token>)
        requires
            old(self).lexer.wf(),
        ensures
            follows(old(self).lexer, final(self).lexer, r, grammar::read(old(self).lexer)),
            r matches Ok(t) ==> (t.tok != Tok::EOF <==> past(final(self).lexer, old(self).lexer)),
            r matches Ok(t) ==> (t.tok != Tok::EOF ==> token_wf(t) && final(self).lexer.pos
                == old(self).lexer.pos + 1),
    {
        match self.lexer.read() {
            Ok(t) => Ok(t),
            Err(e) => Err(ParseError::from_lexerror(e)),
        }
    }

    fn lex_peek(&self) -> (r: ParseResult<Tok>)
        requires
            self.lexer.wf(),
        ensures
            agrees(r, grammar::peek(self.lexer)),
    {
        match self.lexer.peek() {
            Ok(t) => Ok(t),
            Err(e) => Err(ParseError::from_lexerror(e)),
        }
    }

    fn expect(&mut self, tok: Tok) -> (r: ParseResult<usize>)
        requires
            old(self).lexer.wf(),
        ensures
            follows(old(self).lexer, final(self).lexer, r, grammar::expect(old(self).lexer, tok)),
            r is Ok && tok != Tok::EOF ==> past(final(self).lexer, old(self).lexer),
    {
        let token = self.lex_read()?;
        if token.tok == tok {
            Ok(token.span.end)
        } else {
            Err(self.parse_error(token, tok.name()))
        }
    }

    /// Reads a `;` if one comes next and says whether the statement ends
    /// here, with a semicolon inserted before a token on a new line, a `}`
    /// or the end of the input.
    fn asi_semi(&mut self) -> (r: ParseResult<bool>)
        requires
            old(self).lexer.wf(),
        ensures
            follows(old(self).lexer, final(self).lexer, r, grammar::asi_semi(old(self).lexer)),
    {
        let token = self.lex_read()?;
        match token.tok {
            Tok::Semi => Ok(true),
            _ if token.saw_newline => {
                self.lexer.back(token);
                Ok(true)
            },
            Tok::RBrace | Tok::EOF => {
                self.lexer.back(token);
                Ok(true)
            },
            _ => {
                self.lexer.back(token);
                Ok(false)
            },
        }
    }

    fn expect_semi(&mut self) -> (r: ParseResult<()>)
        requires
            old(self).lexer.wf(),
        ensures
            follows(old(self).lexer, final(self).lexer, r, grammar::expect_semi(old(self).lexer)),
    {
        if !self.asi_semi()? {
            let token = self.lex_read()?;
            return Err(self.parse_error(token, "semicolon"));
        }
        Ok(())
    }

    /// A name or `{a, b, ...}` in a binding position.
    #[verifier::loop_isolation(false)]
    fn binding_pattern(&mut self) -> (r: ParseResult<BindingPattern>)
        requires
            old(self).lexer.wf(),
        ensures
            follows(old(self).lexer, final(self).lexer, r, grammar::binding_pattern(old(self).lexer)),
            r is Ok ==> past(final(self).lexer, old(self).lexer),
    {
        let token = self.lex_read()?;
        match token.tok {
            Tok::Ident => {
                return Ok(BindingPattern::Name(Symbol::new(self.lexer.text(token))));
            },
            Tok::LBrace => {},
            _ => {
                return Err(self.parse_error(token, "binding element"));
            },
        }
        let ghost l1 = self.lexer;
        let mut props: Vec<Symbol> = Vec::new();
        loop
            invariant
                self.lexer.wf(),
                within(self.lexer, l1),
                grammar::binding_props(self.lexer, props@) == grammar::binding_props(l1, Seq::empty()),
            decreases self.lexer.rem(),
        {
            // BindingProperty
            let token = self.lex_read()?;
            match token.tok {
                Tok::Ident => {
                    props.push(Symbol::new(self.lexer.text(token)));
                },
                _ => {
                    self.lexer.back(token);
                    break ;
                },
            }
            if self.lex_peek()? == Tok::Comma {
                self.lex_read()?;
            } else {
                break ;
            }
        }
        self.expect(Tok::RBrace)?;
        Ok(BindingPattern::Object(ObjectBindingPattern { props: List::from_vec(props) }))
    }

    /// `[e, e, ...]`, after the `[` that starts at offset `start`.
    #[verifier::loop_isolation(false)]
    fn array_literal(&mut self, start: usize) -> (r: ParseResult<(Span, List<ExprNode>)>)
        requires
            old(self).lexer.wf(),
            no_abort(grammar::array_literal(old(self).lexer, start).1),
        ensures
            follows(
                old(self).lexer,
                final(self).lexer,
                r,
                grammar::array_literal(old(self).lexer, start),
            ),
            r is Ok ==> past(final(self).lexer, old(self).lexer),
        decreases old(self).lexer.rem(), 3nat,
    {
        let ghost l0 = self.lexer;
        let mut elems: Vec<ExprNode> = Vec::new();
        loop
            invariant
                self.lexer.wf(),
                within(self.lexer, l0),
                grammar::array_elems(self.lexer, elems@) == grammar::array_elems(l0, Seq::empty()),
            decreases self.lexer.rem(),
        {
            match self.lex_peek()? {
                Tok::RSquare => {
                    break ;
                },
                Tok::Comma => {
                    // An elided element.
                    self.lex_read()?;
                },
                _ => {
                    elems.push(self.expr_prec(1)?);
                    if self.lex_peek()? == Tok::Comma {
                        self.lex_read()?;
                    } else {
                        break ;
                    }
                },
            }
        }
        let end = self.expect(Tok::RSquare)?;
        Ok((Span::new(start, end), List::from_vec(elems)))
    }

    /// An object literal, after its `{`.
    #[verifier::loop_isolation(false)]
    #[verifier::rlimit(100)]
    #[verifier::spinoff_prover]
    fn object_literal(&mut self) -> (r: ParseResult<Object>)
        requires
            old(self).lexer.wf(),
            no_abort(grammar::object_literal(old(self).lexer).1),
        ensures
            follows(old(self).lexer, final(self).lexer, r, grammar::object_literal(old(self).lexer)),
            r is Ok ==> past(final(self).lexer, old(self).lexer),
        decreases old(self).lexer.rem(), 1nat,
    {
        let ghost l0 = self.lexer;
        let mut props: Vec<Property> = Vec::new();
        loop
            invariant
                self.lexer.wf(),
                within(self.lexer, l0),
                grammar::object_props(self.lexer, props@) == grammar::object_props(l0, Seq::empty()),
            decreases self.lexer.rem(),
        {
            let ghost li = self.lexer;
            let (span, name, can_pun) = match self.lex_peek()? {
                Tok::Ident => {
                    let token = self.lex_read()?;
                    (token.span, PropertyKey::String(self.lexer.text(token)), true)
                },
                tok if tok.is_kw() => {
                    let token = self.lex_read()?;
                    (token.span, PropertyKey::String(self.lexer.text(token)), true)
                },
                Tok::String => {
                    let token = self.lex_read()?;
                    match token.data {
                        TokData::String(s) => (token.span, PropertyKey::String(s), false),
                        _ => {
                            proof {
                                assert(false);
                            }
                            (token.span, PropertyKey::String(token.text), false)
                        },
                    }
                },
                Tok::Number => {
                    let token = self.lex_read()?;
                    match token.data {
                        TokData::Number(n) => (token.span, PropertyKey::Number(n), false),
                        _ => {
                            proof {
                                assert(false);
                            }
                            (token.span, PropertyKey::Number(token.text), false)
                        },
                    }
                },
                _ => {
                    break ;
                },
            };
            assert(grammar::property_key(li) == (
                self.lexer,
                Ok::<Option<(Span, PropertyKey, bool)>, Fail>(Some((span, name, can_pun))),
            ));
            let prop = self.property_value(span, name, can_pun)?;
            props.push(prop);

            if self.lex_peek()? != Tok::Comma {
                break ;
            }
            self.lex_read()?;
        }
        self.expect(Tok::RBrace)?;
        Ok(Object { props: List::from_vec(props) })
    }

    /// The rest of an object property after its key.
    fn property_value(&mut self, span: Span, name: PropertyKey, can_pun: bool) -> (r: ParseResult<
        Property,
    >)
        requires
            old(self).lexer.wf(),
            no_abort(grammar::property_value(old(self).lexer, span, name, can_pun).1),
        ensures
            follows(
                old(self).lexer,
                final(self).lexer,
                r,
                grammar::property_value(old(self).lexer, span, name, can_pun),
            ),
        decreases old(self).lexer.rem(), 1nat,
    {
        Ok(
            match self.lex_peek()? {
                Tok::Colon => {
                    // a: b
                    self.lex_read()?;
                    Property { name, value: self.expr_prec(3)? }
                },
                Tok::LParen if can_pun => {
                    // a(...) {}
                    let value = match &name {
                        PropertyKey::String(s) => {
                            let sym = Symbol::new(s.clone());
                            (span, Expr::Function(Box::new(self.function_from_paren(Some(sym))?)))
                        },
                        PropertyKey::Number(_) => {
                            proof {
                                assert(false);
                            }
                            (span, Expr::This)
                        },
                    };
                    Property { name, value }
                },
                _ if can_pun => {
                    // A name standing for itself, as in {a, b}.
                    let value = match &name {
                        PropertyKey::String(s) => (span, Expr::Ident(Symbol::new(s.clone()))),
                        PropertyKey::Number(_) => {
                            proof {
                                assert(false);
                            }
                            (span, Expr::This)
                        },
                    };
                    Property { name, value }
                },
                _ => {
                    let token = self.lex_read()?;
                    return Err(self.parse_error(token, "property value"));
                },
            },
        )
    }

    /// A primary expression.
    #[verifier::rlimit(60)]
    fn primary_expr(&mut self) -> (r: ParseResult<ExprNode>)
        requires
            old(self).lexer.wf(),
            no_abort(grammar::primary_expr(old(self).lexer).1),
        ensures
            follows(old(self).lexer, final(self).lexer, r, grammar::primary_expr(old(self).lexer)),
            r is Ok ==> past(final(self).lexer, old(self).lexer),
        decreases old(self).lexer.rem(), 0nat,
    {
        let token = self.lex_read()?;
        Ok(
            match token.tok {
                Tok::This => (token.span, Expr::This),
                Tok::Ident => {
                    let span = token.span;
                    let text = self.lexer.text(token);
                    (span, ident_expr(text))
                },
                Tok::Number => match token.data {
                    TokData::Number(n) => (token.span, Expr::Number(n)),
                    _ => {
                        proof {
                            assert(false);
                        }
                        (token.span, Expr::This)
                    },
                },
                Tok::String => {
                    let span = token.span;
                    (span, Expr::String(self.lexer.text(token)))
                },
                Tok::LSquare => {
                    let (span, arr) = self.array_literal(token.span.start)?;
                    (span, Expr::Array(arr))
                },
                Tok::LBrace => (todo_span(), Expr::Object(Box::new(self.object_literal()?))),
                Tok::Function => (todo_span(), Expr::Function(Box::new(self.function()?))),
                Tok::Class => (todo_span(), Expr::Class(Box::new(self.class()?))),
                Tok::LParen => {
                    if self.lex_peek()? == Tok::RParen {
                        let tok = self.lex_read()?;
                        (tok.span, Expr::EmptyParens)
                    } else {
                        let r = self.expr()?;
                        self.expect(Tok::RParen)?;
                        r
                    }
                },
                Tok::Div => {
                    // A regular expression literal, whose token holds its source text.
                    let literal = self.lexer.text(token);
                    (todo_span(), Expr::Regex(Box::new(Regex { literal })))
                },
                _ => {
                    return Err(self.parse_error(token, "primary expression"));
                },
            },
        )
    }

    /// A class, after the word `class`.
    #[verifier::loop_isolation(false)]
    #[verifier::rlimit(60)]
    fn class(&mut self) -> (r: ParseResult<Class>)
        requires
            old(self).lexer.wf(),
            no_abort(grammar::class(old(self).lexer).1),
        ensures
            follows(old(self).lexer, final(self).lexer, r, grammar::class(old(self).lexer)),
            r is Ok ==> past(final(self).lexer, old(self).lexer),
        decreases old(self).lexer.rem(), 0nat,
    {
        let name = match self.lex_peek()? {
            Tok::Ident => {
                let token = self.lex_read()?;
                Some(Symbol::new(self.lexer.text(token)))
            },
            _ => None,
        };
        let extends = if self.lex_peek()? == Tok::Extends {
            self.lex_read()?;
            Some(self.expr_prec(18)?)  // left-hand side expression

        } else {
            None
        };
        let mut methods: Vec<Function> = Vec::new();
        self.expect(Tok::LBrace)?;
        let ghost l3 = self.lexer;
        loop
            invariant
                self.lexer.wf(),
                within(self.lexer, l3),
                grammar::class_methods(self.lexer, methods@) == grammar::class_methods(l3, Seq::empty()),
            decreases self.lexer.rem(),
        {
            let token = self.lex_read()?;
            match token.tok {
                Tok::Ident => {
                    let name = Some(Symbol::new(self.lexer.text(token)));
                    methods.push(self.function_from_paren(name)?);
                },
                Tok::Semi => {
                    // Stray extra semis are allowed per spec.
                },
                Tok::RBrace => {
                    break ;
                },
                _ => {
                    return Err(self.parse_error(token, "class body"));
                },
            }
        }
        Ok(Class { name, extends, methods: List::from_vec(methods) })
    }

    /// A function, after the word `function`.
    fn function(&mut self) -> (r: ParseResult<Function>)
        requires
            old(self).lexer.wf(),
            no_abort(grammar::function(old(self).lexer).1),
        ensures
            follows(old(self).lexer, final(self).lexer, r, grammar::function(old(self).lexer)),
            r is Ok ==> past(final(self).lexer, old(self).lexer),
        decreases old(self).lexer.rem(), 1nat,
    {
        let name = match self.lex_peek()? {
            Tok::Ident => {
                let token = self.lex_read()?;
                Some(Symbol::new(self.lexer.text(token)))
            },
            _ => None,
        };
        self.function_from_paren(name)
    }

    /// A function from its parameter list on.
    #[verifier::loop_isolation(false)]
    fn function_from_paren(&mut self, name: Option<Symbol>) -> (r: ParseResult<Function>)
        requires
            old(self).lexer.wf(),
            no_abort(grammar::function_from_paren(old(self).lexer, name).1),
        ensures
            follows(
                old(self).lexer,
                final(self).lexer,
                r,
                grammar::function_from_paren(old(self).lexer, name),
            ),
            r is Ok ==> past(final(self).lexer, old(self).lexer),
        decreases old(self).lexer.rem(), 0nat,
    {
        self.expect(Tok::LParen)?;
        let ghost l1 = self.lexer;
        let mut params: Vec<(BindingPattern, Option<ExprNode>)> = Vec::new();
        loop
            invariant
                self.lexer.wf(),
                within(self.lexer, l1),
                grammar::params(self.lexer, params@) == grammar::params(l1, Seq::empty()),
            decreases self.lexer.rem(),
        {
            if self.lex_peek()? == Tok::RParen {
                break ;
            }
            let binding = self.binding_pattern()?;
            let mut init: Option<ExprNode> = None;
            if self.lex_peek()? == Tok::Eq {
                self.lex_read()?;
                init = Some(self.expr_prec(3)?);  // assignment expr

            }
            params.push((binding, init));

            if self.lex_peek()? == Tok::Comma {
                self.lex_read()?;
            } else {
                break ;
            }
        }
        self.expect(Tok::RParen)?;

        self.expect(Tok::LBrace)?;
        let body = self.stmts_until_rbrace()?;
        self.expect(Tok::RBrace)?;

        Ok(Function { scope: Scope::new(), name, params: List::from_vec(params), body })
    }

    /// Statements up to a `}`, which is left unread.
    #[verifier::loop_isolation(false)]
    fn stmts_until_rbrace(&mut self) -> (r: ParseResult<List<Stmt>>)
        requires
            old(self).lexer.wf(),
            no_abort(grammar::body_stmts(old(self).lexer, Seq::empty()).1),
        ensures
            follows(
                old(self).lexer,
                final(self).lexer,
                r,
                match grammar::body_stmts(old(self).lexer, Seq::empty()) {
                    (l, Ok(body)) => (l, Ok(List::from_seq(body))),
                    (l, Err(f)) => (l, Err(f)),
                },
            ),
        decreases old(self).lexer.rem(), 4nat,
    {
        let ghost l0 = self.lexer;
        let mut body: Vec<Stmt> = Vec::new();
        loop
            invariant
                self.lexer.wf(),
                within(self.lexer, l0),
                grammar::body_stmts(self.lexer, body@) == grammar::body_stmts(l0, Seq::empty()),
            decreases self.lexer.rem(),
        {
            if self.lex_peek()? == Tok::RBrace {
                break ;
            }
            body.push(self.stmt()?);
        }
        Ok(List::from_vec(body))
    }

    /// The arguments of a call of `func`, after the `(`.
    #[verifier::loop_isolation(false)]
    fn function_call(&mut self, func: ExprNode) -> (r: ParseResult<ExprNode>)
        requires
            old(self).lexer.wf(),
            no_abort(grammar::function_call(old(self).lexer, func).1),
        ensures
            follows(
                old(self).lexer,
                final(self).lexer,
                r,
                grammar::function_call(old(self).lexer, func),
            ),
            r is Ok ==> past(final(self).lexer, old(self).lexer),
        decreases old(self).lexer.rem(), 3nat,
    {
        let ghost l0 = self.lexer;
        let mut params: Vec<ExprNode> = Vec::new();
        loop
            invariant
                self.lexer.wf(),
                within(self.lexer, l0),
                grammar::call_args(self.lexer, params@) == grammar::call_args(l0, Seq::empty()),
            decreases self.lexer.rem(),
        {
            if self.lex_peek()? == Tok::RParen {
                break ;
            }
            params.push(self.expr_prec(3)?);
            if self.lex_peek()? == Tok::Comma {
                self.lex_read()?;
            } else {
                break ;
            }
        }
        let end = self.expect(Tok::RParen)?;
        Ok(
            (
                Span::new(func.0.start, end),
                Expr::Call(Box::new(Call { func, args: List::from_vec(params) })),
            ),
        )
    }

    /// An expression whose operators bind at precedence `prec` or tighter
    /// (from 0, where the comma operator joins, to 19, where member access
    /// and calls do).
    fn expr_prec(&mut self, prec: usize) -> (r: ParseResult<ExprNode>)
        requires
            old(self).lexer.wf(),
            no_abort(grammar::expr_prec(old(self).lexer, prec).1),
        ensures
            follows(old(self).lexer, final(self).lexer, r, grammar::expr_prec(old(self).lexer, prec)),
            r is Ok ==> past(final(self).lexer, old(self).lexer),
            r is Ok ==> grammar::stops_expr(final(self).lexer, prec),
        decreases old(self).lexer.rem(), 1nat,
    {
        // Parse a unary preceding op, or the primary expression itself.
        let token = self.lex_read()?;
        let expr = match token.tok {
            t if matches!(t, Tok::Not | Tok::BNot | Tok::Plus | Tok::Minus | Tok::PlusPlus | Tok::MinusMinus | Tok::Void | Tok::Delete) && prec <= 16 => {
                let expr = self.expr_prec(16)?;
                (
                    Span::new(token.span.start, expr.0.end),
                    Expr::Unary(UnOp::from_tok(token.tok), Box::new(expr)),
                )
            },
            Tok::TypeOf if prec <= 16 => {
                let expr = self.expr_prec(16)?;
                (Span::new(token.span.start, expr.0.end), Expr::TypeOf(Box::new(expr)))
            },
            Tok::New if prec <= 18 => {
                let expr = self.expr_prec(18)?;
                (Span::new(token.span.start, expr.0.end), Expr::New(Box::new(expr)))
            },
            _ => {
                self.lexer.back(token);
                self.primary_expr()?
            },
        };
        // Parse any following unary/binary ops.
        self.expr_ops(prec, expr)
    }

    /// Applies to `expr` the operators that follow it while they bind at
    /// precedence `prec` or tighter.
    #[verifier::loop_isolation(false)]
    #[verifier::rlimit(100)]
    #[verifier::spinoff_prover]
    fn expr_ops(&mut self, prec: usize, expr: ExprNode) -> (r: ParseResult<ExprNode>)
        requires
            old(self).lexer.wf(),
            no_abort(grammar::expr_ops(old(self).lexer, prec, expr).1),
        ensures
            follows(
                old(self).lexer,
                final(self).lexer,
                r,
                grammar::expr_ops(old(self).lexer, prec, expr),
            ),
            r is Ok ==> grammar::stops_expr(final(self).lexer, prec),
        decreases old(self).lexer.rem(), 0nat,
    {
        let ghost l0 = self.lexer;
        let ghost e0 = expr;
        let mut expr = expr;
        loop
            invariant
                self.lexer.wf(),
                within(self.lexer, l0),
                grammar::expr_ops(self.lexer, prec, expr) == grammar::expr_ops(l0, prec, e0),
            decreases self.lexer.rem(),
        {
            let ghost before = self.lexer;
            let token = self.lex_read()?;
            let t = token.tok;
            if let Some((level, rhs_prec)) = infix_levels(t) {
                if prec <= level {
                    let rhs = self.expr_prec(rhs_prec)?;
                    expr = (
                        Span::new(expr.0.start, rhs.0.end),
                        Expr::Binary(Box::new(Binary { op: BinOp::from_tok(t), lhs: expr, rhs })),
                    );
                    continue ;
                }
            }
            match t {
                Tok::Eq if prec <= 3 => {
                    let rhs = self.expr_prec(3)?;
                    expr = (Span::new(expr.0.start, rhs.0.end), Expr::Assign(Box::new(expr), Box::new(rhs)));
                },
                Tok::Arrow if prec <= 3 => {
                    let start = expr.0.start;
                    let end = start;
                    let mut params: Vec<(BindingPattern, Option<ExprNode>)> = Vec::new();
                    arrow_params_from_expr(expr, &mut params)?;
                    let body = if self.lex_peek()? == Tok::LBrace {
                        self.lex_read()?;
                        let body = self.stmts_until_rbrace()?;
                        self.expect(Tok::RBrace)?;
                        ArrowBody::Stmts(body)
                    } else {
                        ArrowBody::Expr(self.expr_prec(3)?)  // assignment expr

                    };
                    expr = (
                        Span::new(start, end),
                        Expr::ArrowFunction(Box::new(ArrowFunction { params: List::from_vec(params), body })),
                    );
                },
                Tok::Question if prec <= 4 => {
                    let iftrue = self.expr_prec(3)?;
                    self.expect(Tok::Colon)?;
                    let iffalse = self.expr_prec(3)?;
                    expr = (
                        Span::new(expr.0.start, iffalse.0.end),
                        Expr::Ternary(Box::new(Ternary { condition: expr, iftrue, iffalse })),
                    );
                },
                Tok::PlusPlus if prec <= 17 => {
                    expr = (
                        Span::new(expr.0.start, token.span.end),
                        Expr::Unary(UnOp::PostPlusPlus, Box::new(expr)),
                    );
                },
                Tok::MinusMinus if prec <= 17 => {
                    expr = (
                        Span::new(expr.0.start, token.span.end),
                        Expr::Unary(UnOp::PostMinusMinus, Box::new(expr)),
                    );
                },
                Tok::Dot if prec <= 19 => {
                    let token = self.lex_read()?;
                    if token.tok != Tok::Ident && !token.tok.is_kw() {
                        return Err(self.parse_error(token, "member"));
                    }
                    let span = Span::new(expr.0.start, token.span.end);
                    let field = self.lexer.text(token);
                    expr = (span, Expr::Field(Box::new(expr), field));
                },
                Tok::LSquare if prec <= 19 => {
                    let index = self.expr()?;
                    let end = self.expect(Tok::RSquare)?;
                    expr = (Span::new(index.0.start, end), Expr::Index(Box::new(expr), Box::new(index)));
                },
                Tok::LParen if prec <= 19 => {
                    expr = self.function_call(expr)?;
                },
                _ => {
                    self.lexer.back(token);
                    proof {
                        crate::lex::lemma_back_undoes_read(before);
                    }
                    return Ok(expr);
                },
            }
        }
    }

    /// A whole expression, commas included.
    pub fn expr(&mut self) -> (r: ParseResult<ExprNode>)
        requires
            old(self).lexer.wf(),
            no_abort(grammar::expr(old(self).lexer).1),
        ensures
            follows(old(self).lexer, final(self).lexer, r, grammar::expr(old(self).lexer)),
            r is Ok ==> past(final(self).lexer, old(self).lexer),
            r is Ok ==> grammar::stops_expr(final(self).lexer, 0),
        decreases old(self).lexer.rem(), 2nat,
    {
        self.expr_prec(0)
    }

    /// Declarations after `var`, `let` or `const`.
    #[verifier::loop_isolation(false)]
    fn bindings(&mut self) -> (r: ParseResult<List<VarDecl>>)
        requires
            old(self).lexer.wf(),
            no_abort(grammar::bindings(old(self).lexer).1),
        ensures
            follows(old(self).lexer, final(self).lexer, r, grammar::bindings(old(self).lexer)),
            r is Ok ==> past(final(self).lexer, old(self).lexer),
        decreases old(self).lexer.rem(), 1nat,
    {
        let ghost l0 = self.lexer;
        let mut decls: Vec<VarDecl> = Vec::new();
        loop
            invariant
                self.lexer.wf(),
                within(self.lexer, l0),
                decls@.len() > 0 ==> past(self.lexer, l0),
                grammar::bindings_list(self.lexer, decls@) == grammar::bindings_list(l0, Seq::empty()),
            decreases self.lexer.rem(),
        {
            let pattern = self.binding_pattern()?;
            let init = if self.lex_peek()? == Tok::Eq {
                self.lex_read()?;
                Some(self.expr_prec(1)?)
            } else {
                None
            };
            decls.push(VarDecl { pattern, init });

            if self.lex_peek()? == Tok::Comma {
                self.lex_read()?;
            } else {
                break ;
            }
        }
        Ok(List::from_vec(decls))
    }

    fn if_stmt(&mut self) -> (r: ParseResult<If>)
        requires
            old(self).lexer.wf(),
            no_abort(grammar::if_stmt(old(self).lexer).1),
        ensures
            follows(old(self).lexer, final(self).lexer, r, grammar::if_stmt(old(self).lexer)),
            r is Ok ==> past(final(self).lexer, old(self).lexer),
        decreases old(self).lexer.rem(), 0nat,
    {
        self.expect(Tok::LParen)?;
        let cond = self.expr()?;
        self.expect(Tok::RParen)?;
        let iftrue = self.stmt()?;
        let else_ = if self.lex_peek()? == Tok::Else {
            self.lex_read()?;
            Some(self.stmt()?)
        } else {
            None
        };
        Ok(If { cond: cond.1, iftrue, else_ })
    }

    fn while_stmt(&mut self) -> (r: ParseResult<While>)
        requires
            old(self).lexer.wf(),
            no_abort(grammar::while_stmt(old(self).lexer).1),
        ensures
            follows(old(self).lexer, final(self).lexer, r, grammar::while_stmt(old(self).lexer)),
            r is Ok ==> past(final(self).lexer, old(self).lexer),
        decreases old(self).lexer.rem(), 0nat,
    {
        self.expect(Tok::LParen)?;
        let cond = self.expr()?;
        self.expect(Tok::RParen)?;
        let body = self.stmt()?;
        Ok(While { cond: cond.1, body })
    }

    fn do_while_stmt(&mut self) -> (r: ParseResult<While>)
        requires
            old(self).lexer.wf(),
            no_abort(grammar::do_while_stmt(old(self).lexer).1),
        ensures
            follows(old(self).lexer, final(self).lexer, r, grammar::do_while_stmt(old(self).lexer)),
            r is Ok ==> past(final(self).lexer, old(self).lexer),
        decreases old(self).lexer.rem(), 4nat,
    {
        let body = self.stmt()?;
        self.expect(Tok::While)?;
        self.expect(Tok::LParen)?;
        let cond = self.expr()?;
        self.expect(Tok::RParen)?;
        self.expect_semi()?;
        Ok(While { cond: cond.1, body })
    }

    /// A `for` loop, after the word `for`.
    ///
    /// This is subtle because of the many possible forms of a `for`
    /// statement.  The head is first read as an expression, which covers
    /// both `for (x = 3; ...` and `for (x in y) ...`.
    fn for_stmt(&mut self) -> (r: ParseResult<Stmt>)
        requires
            old(self).lexer.wf(),
            no_abort(grammar::for_stmt(old(self).lexer).1),
        ensures
            follows(old(self).lexer, final(self).lexer, r, grammar::for_stmt(old(self).lexer)),
            r is Ok ==> past(final(self).lexer, old(self).lexer),
        decreases old(self).lexer.rem(), 0nat,
    {
        self.expect(Tok::LParen)?;

        let tok = self.lex_peek()?;
        let init = if tok == Tok::Semi {
            ForInit::Empty
        } else {
            let decl_type = match tok {
                Tok::Var | Tok::Let | Tok::Const => {
                    self.lex_read()?;
                    Some(decl_type_from_tok(tok))
                },
                _ => None,
            };
            let expr = self.expr()?;
            // Check if it's a for-in-of loop.
            if is_for_in_of_head(&expr.1) {
                match expr.1 {
                    Expr::Binary(bin) => {
                        let Binary { lhs, rhs, op: _ } = *bin;
                        let loop_var = match lhs.1 {
                            Expr::Ident(name) => BindingPattern::Name(name),
                            _ => {
                                proof {
                                    assert(false);
                                }
                                BindingPattern::Object(ObjectBindingPattern { props: List::Nil })
                            },
                        };
                        self.expect(Tok::RParen)?;
                        let body = self.stmt()?;
                        return Ok(
                            Stmt::ForInOf(Box::new(ForInOf { decl_type, loop_var, expr: rhs, body })),
                        );
                    },
                    _ => {
                        proof {
                            assert(false);
                        }
                        return Ok(Stmt::Empty);
                    },
                }
            }
            match decl_type {
                Some(decl_type) => {
                    let mut decls: Vec<VarDecl> = Vec::new();
                    decls_from_expr(expr, &mut decls)?;
                    ForInit::Decls(VarDecls { typ: decl_type, decls: List::from_vec(decls) })
                },
                None => ForInit::Expr(expr.1),
            }
        };
        self.for_rest(init)
    }

    /// The rest of a `for (init; cond; iter) body` loop, after its `init`.
    fn for_rest(&mut self, init: ForInit) -> (r: ParseResult<Stmt>)
        requires
            old(self).lexer.wf(),
            no_abort(grammar::for_rest(old(self).lexer, init).1),
        ensures
            follows(old(self).lexer, final(self).lexer, r, grammar::for_rest(old(self).lexer, init)),
            r is Ok ==> past(final(self).lexer, old(self).lexer),
        decreases old(self).lexer.rem(), 0nat,
    {
        self.expect(Tok::Semi)?;

        // for (a;b;c) loop.  Lexer is now pointed at 'b'.
        let cond = if self.lex_peek()? != Tok::Semi {
            Some(self.expr()?.1)
        } else {
            None
        };
        self.expect(Tok::Semi)?;

        let iter = if self.lex_peek()? != Tok::RParen {
            Some(self.expr()?.1)
        } else {
            None
        };
        self.expect(Tok::RParen)?;
        let body = self.stmt()?;
        Ok(Stmt::For(Box::new(For { init, cond, iter, body })))
    }

    #[verifier::loop_isolation(false)]
    #[verifier::rlimit(60)]
    fn switch(&mut self) -> (r: ParseResult<Switch>)
        requires
            old(self).lexer.wf(),
            no_abort(grammar::switch(old(self).lexer).1),
        ensures
            follows(old(self).lexer, final(self).lexer, r, grammar::switch(old(self).lexer)),
            r is Ok ==> past(final(self).lexer, old(self).lexer),
        decreases old(self).lexer.rem(), 0nat,
    {
        self.expect(Tok::LParen)?;
        let expr = self.expr()?;
        self.expect(Tok::RParen)?;
        self.expect(Tok::LBrace)?;
        let ghost l4 = self.lexer;
        let mut cases: Vec<Case> = Vec::new();
        loop
            invariant
                self.lexer.wf(),
                within(self.lexer, l4),
                grammar::switch_cases(self.lexer, cases@) == grammar::switch_cases(l4, Seq::empty()),
            decreases self.lexer.rem(),
        {
            let case = match self.lex_peek()? {
                Tok::Case => {
                    self.lex_read()?;
                    let expr = self.expr()?;
                    self.expect(Tok::Colon)?;
                    let stmts = self.stmts()?;
                    Case { expr: Some(expr.1), stmts }
                },
                Tok::Default => {
                    self.lex_read()?;
                    self.expect(Tok::Colon)?;
                    let stmts = self.stmts()?;
                    Case { expr: None, stmts }
                },
                _ => {
                    break ;
                },
            };
            cases.push(case);
        }
        self.expect(Tok::RBrace)?;
        Ok(Switch { expr: expr.1, cases: List::from_vec(cases) })
    }

    fn try_stmt(&mut self) -> (r: ParseResult<Try>)
        requires
            old(self).lexer.wf(),
            no_abort(grammar::try_stmt(old(self).lexer).1),
        ensures
            follows(old(self).lexer, final(self).lexer, r, grammar::try_stmt(old(self).lexer)),
            r is Ok ==> past(final(self).lexer, old(self).lexer),
        decreases old(self).lexer.rem(), 1nat,
    {
        let block = self.block()?;

        let catch = if self.lex_peek()? == Tok::Catch {
            self.lex_read()?;
            self.expect(Tok::LParen)?;
            let catch_expr = self.binding_pattern()?;
            self.expect(Tok::RParen)?;
            let catch_block = self.block()?;
            Some((catch_expr, catch_block))
        } else {
            None
        };

        let finally = if self.lex_peek()? == Tok::Finally {
            self.lex_read()?;
            let fin_block = self.block()?;
            Some(fin_block)
        } else {
            None
        };

        Ok(Try { block, catch, finally })
    }

    /// A statement or declaration.
    #[verifier::rlimit(60)]
    pub fn stmt(&mut self) -> (r: ParseResult<Stmt>)
        requires
            old(self).lexer.wf(),
            no_abort(grammar::stmt(old(self).lexer).1),
        ensures
            follows(old(self).lexer, final(self).lexer, r, grammar::stmt(old(self).lexer)),
            r is Ok ==> past(final(self).lexer, old(self).lexer),
        decreases old(self).lexer.rem(), 3nat,
    {
        let token = self.lex_read()?;
        let stmt = match token.tok {
            Tok::Class
            | Tok::Function
            | Tok::LBrace
            | Tok::Var
            | Tok::Let
            | Tok::Const
            | Tok::If
            | Tok::While
            | Tok::Do
            | Tok::For
            | Tok::Switch
            | Tok::Return
            | Tok::Throw
            | Tok::Try => self.keyword_stmt(token.tok)?,
            Tok::Semi => Stmt::Empty,
            Tok::Break | Tok::Continue => {
                let target = if self.asi_semi()? {
                    None
                } else {
                    let token = self.lex_read()?;
                    if token.tok != Tok::Ident {
                        return Err(self.parse_error(token, "label"));
                    }
                    let label = self.lexer.text(token);
                    self.expect_semi()?;
                    Some(label)
                };
                if token.tok == Tok::Break {
                    Stmt::Break(target)
                } else {
                    Stmt::Continue(target)
                }
            },
            t => {
                // A label takes two tokens to spot: a name and a colon.
                let is_label = if t == Tok::Ident {
                    self.lex_peek()? == Tok::Colon
                } else {
                    false
                };
                if is_label {
                    let label = self.lexer.text(token);
                    self.lex_read()?;
                    let stmt = self.stmt()?;
                    return Ok(Stmt::Label(Box::new(Label { label, stmt })));
                }
                self.lexer.back(token);
                let expr = self.expr()?;
                self.expect_semi()?;
                Stmt::Expr(expr)
            },
        };
        Ok(stmt)
    }

    /// The statement that starts with the keyword or brace `t`, which has
    /// just been read.
    #[verifier::rlimit(60)]
    fn keyword_stmt(&mut self, t: Tok) -> (r: ParseResult<Stmt>)
        requires
            old(self).lexer.wf(),
            no_abort(grammar::keyword_stmt(old(self).lexer, t).1),
            grammar::is_keyword_stmt(t),
        ensures
            follows(old(self).lexer, final(self).lexer, r, grammar::keyword_stmt(old(self).lexer, t)),
        decreases old(self).lexer.rem(), 6nat,
    {
        Ok(
            match t {
                // Declaration
                Tok::Class => Stmt::Class(Box::new(self.class()?)),
                Tok::Function => Stmt::Function(Box::new(self.function()?)),
                // Statement
                Tok::LBrace => {
                    let body = self.stmts()?;
                    self.expect(Tok::RBrace)?;
                    Stmt::Block(body)
                },
                Tok::Var | Tok::Let | Tok::Const => {
                    let typ = decl_type_from_tok(t);
                    let decls = self.bindings()?;
                    self.expect_semi()?;
                    Stmt::Var(Box::new(VarDecls { typ, decls }))
                },
                Tok::If => Stmt::If(Box::new(self.if_stmt()?)),
                Tok::While => Stmt::While(Box::new(self.while_stmt()?)),
                Tok::Do => Stmt::DoWhile(Box::new(self.do_while_stmt()?)),
                Tok::For => self.for_stmt()?,
                Tok::Switch => Stmt::Switch(Box::new(self.switch()?)),
                Tok::Return => {
                    if self.asi_semi()? {
                        Stmt::Return(None)
                    } else {
                        let expr = self.expr()?;
                        self.expect_semi()?;
                        Stmt::Return(Some(Box::new(expr.1)))
                    }
                },
                Tok::Throw => {
                    let expr = self.expr()?;
                    self.expect_semi()?;
                    Stmt::Throw(Box::new(expr.1))
                },
                _ => Stmt::Try(Box::new(self.try_stmt()?)),
            },
        )
    }

    /// Statements up to a `}`, a `case`, a `default` or the end of the
    /// input, which is left unread.
    #[verifier::loop_isolation(false)]
    pub fn stmts(&mut self) -> (r: ParseResult<List<Stmt>>)
        requires
            old(self).lexer.wf(),
            no_abort(grammar::stmts(old(self).lexer).1),
        ensures
            follows(old(self).lexer, final(self).lexer, r, grammar::stmts(old(self).lexer)),
            r is Ok ==> grammar::ends_stmts(final(self).lexer),
        decreases old(self).lexer.rem(), 5nat,
    {
        let ghost l0 = self.lexer;
        let mut body: Vec<Stmt> = Vec::new();
        loop
            invariant
                self.lexer.wf(),
                within(self.lexer, l0),
                grammar::stmts_list(self.lexer, body@) == grammar::stmts_list(l0, Seq::empty()),
            decreases self.lexer.rem(),
        {
            match self.lex_peek()? {
                Tok::RBrace | Tok::EOF | Tok::Case | Tok::Default => {
                    break ;
                },
                _ => {
                    body.push(self.stmt()?);
                },
            }
        }
        Ok(List::from_vec(body))
    }

    /// `{ stmts }`, as a single block statement.
    fn block(&mut self) -> (r: ParseResult<Stmt>)
        requires
            old(self).lexer.wf(),
            no_abort(grammar::block(old(self).lexer).1),
        ensures
            follows(old(self).lexer, final(self).lexer, r, grammar::block(old(self).lexer)),
            r is Ok ==> past(final(self).lexer, old(self).lexer),
        decreases old(self).lexer.rem(), 0nat,
    {
        self.expect(Tok::LBrace)?;
        let block = self.stmts()?;
        self.expect(Tok::RBrace)?;
        Ok(Stmt::Block(block))
    }

    /// A whole program.
    pub fn module(&mut self) -> (r: ParseResult<Module>)
        requires
            old(self).lexer.wf(),
            no_abort(grammar::module(old(self).lexer).1),
        ensures
            follows(old(self).lexer, final(self).lexer, r, grammar::module(old(self).lexer)),
            r is Ok ==> grammar::ends_stmts(final(self).lexer),
    {
        Ok(Module { scope: Scope::new(), stmts: self.stmts()? })
    }
}

/// The span given to constructs whose extent is not tracked.
fn todo_span() -> (s: Span)
    ensures
        s == grammar::no_span(),
{
    Span::new(0, 0)
}

/// Whether `s` is the text `lit`.
fn text_is(s: &String, lit: &str) -> (b: bool)
    ensures
        b == (s@ == lit@),
{
    s.eq(&String::from_str(lit))
}

/// The expression that an identifier token with text `text` stands for.
fn ident_expr(text: String) -> (e: Expr)
    ensures
        e == grammar::ident_expr(text),
{
    if text_is(&text, "null") {
        Expr::Null
    } else if text_is(&text, "undefined") {
        Expr::Undefined
    } else if text_is(&text, "true") {
        Expr::Bool(true)
    } else if text_is(&text, "false") {
        Expr::Bool(false)
    } else {
        Expr::Ident(Symbol::new(text))
    }
}

/// For a token that joins two operands: the loosest precedence at which it
/// continues an expression, and the precedence of its right operand.
fn infix_levels(t: Tok) -> (r: Option<(usize, usize)>)
    ensures
        r == grammar::infix_levels(t),
{
    match t {
        Tok::Comma => Some((0, 1)),
        Tok::PlusEq | Tok::MinusEq | Tok::StarStarEq | Tok::StarEq | Tok::DivEq | Tok::PercentEq
        | Tok::LTLTEq | Tok::GTGTEq | Tok::GTGTGTEq | Tok::AndEq | Tok::OrEq | Tok::CaratEq => Some(
            (3, 3),
        ),
        Tok::OrOr => Some((5, 6)),
        Tok::AndAnd => Some((6, 7)),
        Tok::BOr => Some((7, 8)),
        Tok::Xor => Some((8, 9)),
        Tok::BAnd => Some((9, 10)),
        Tok::EqEq | Tok::NEq | Tok::EqEqEq | Tok::NEqEq => Some((10, 11)),
        Tok::LT | Tok::LTE | Tok::GT | Tok::GTE | Tok::In | Tok::InstanceOf => Some((11, 12)),
        Tok::LTLT | Tok::GTGT | Tok::GTGTGT => Some((12, 13)),
        Tok::Plus | Tok::Minus => Some((13, 14)),
        Tok::Star | Tok::Div | Tok::Percent => Some((14, 15)),
        _ => None,
    }
}

} // verus!
