use jsparse::ast::{BindingPattern, Expr, ForInit, Stmt, VarDeclType};
use jsparse::lex::{LexError, Lexer, Span, Tok, TokData, Token};
use jsparse::list::List;
use jsparse::ops::BinOp;
use jsparse::parse::{ParseError, Parser};

// A small tokenizer for the tests: it turns source text into the token
// stream that the parser reads.

fn keyword(word: &str) -> Option<Tok> {
    let t = match word {
        "await" => Tok::Await,
        "delete" => Tok::Delete,
        "typeof" => Tok::TypeOf,
        "void" => Tok::Void,
        "in" => Tok::In,
        "instanceof" => Tok::InstanceOf,
        "this" => Tok::This,
        "function" => Tok::Function,
        "class" => Tok::Class,
        "extends" => Tok::Extends,
        "new" => Tok::New,
        "var" => Tok::Var,
        "let" => Tok::Let,
        "const" => Tok::Const,
        "if" => Tok::If,
        "else" => Tok::Else,
        "while" => Tok::While,
        "do" => Tok::Do,
        "for" => Tok::For,
        "switch" => Tok::Switch,
        "case" => Tok::Case,
        "default" => Tok::Default,
        "break" => Tok::Break,
        "continue" => Tok::Continue,
        "return" => Tok::Return,
        "throw" => Tok::Throw,
        "try" => Tok::Try,
        "catch" => Tok::Catch,
        "finally" => Tok::Finally,
        _ => return None,
    };
    Some(t)
}

fn punct(text: &str) -> Option<Tok> {
    let t = match text {
        ">>>=" => Tok::GTGTGTEq,
        ">>>" => Tok::GTGTGT,
        "===" => Tok::EqEqEq,
        "!==" => Tok::NEqEq,
        "**=" => Tok::StarStarEq,
        "<<=" => Tok::LTLTEq,
        ">>=" => Tok::GTGTEq,
        "=>" => Tok::Arrow,
        "==" => Tok::EqEq,
        "!=" => Tok::NEq,
        "<=" => Tok::LTE,
        ">=" => Tok::GTE,
        "&&" => Tok::AndAnd,
        "||" => Tok::OrOr,
        "++" => Tok::PlusPlus,
        "--" => Tok::MinusMinus,
        "+=" => Tok::PlusEq,
        "-=" => Tok::MinusEq,
        "*=" => Tok::StarEq,
        "/=" => Tok::DivEq,
        "%=" => Tok::PercentEq,
        "&=" => Tok::AndEq,
        "|=" => Tok::OrEq,
        "^=" => Tok::CaratEq,
        "**" => Tok::StarStar,
        "<<" => Tok::LTLT,
        ">>" => Tok::GTGT,
        "!" => Tok::Not,
        "~" => Tok::BNot,
        "-" => Tok::Minus,
        "+" => Tok::Plus,
        "=" => Tok::Eq,
        "<" => Tok::LT,
        ">" => Tok::GT,
        "*" => Tok::Star,
        "%" => Tok::Percent,
        "&" => Tok::BAnd,
        "|" => Tok::BOr,
        "^" => Tok::Xor,
        "/" => Tok::Div,
        "," => Tok::Comma,
        "(" => Tok::LParen,
        ")" => Tok::RParen,
        "[" => Tok::LSquare,
        "]" => Tok::RSquare,
        "{" => Tok::LBrace,
        "}" => Tok::RBrace,
        ";" => Tok::Semi,
        ":" => Tok::Colon,
        "?" => Tok::Question,
        "." => Tok::Dot,
        _ => return None,
    };
    Some(t)
}

fn is_ident_start(c: u8) -> bool {
    c.is_ascii_alphabetic() || c == b'_' || c == b'$'
}

fn is_ident_char(c: u8) -> bool {
    is_ident_start(c) || c.is_ascii_digit()
}

fn tokenize(src: &str) -> (Vec<Token>, Result<Token, LexError>) {
    let b = src.as_bytes();
    let mut toks = Vec::new();
    let mut i = 0;
    let mut newline = false;
    loop {
        // Skip white space and comments, noting line breaks.
        while i < b.len() {
            let c = b[i];
            if c == b'\n' {
                newline = true;
                i += 1;
            } else if c == b' ' || c == b'\t' || c == b'\r' {
                i += 1;
            } else if c == b'/' && i + 1 < b.len() && b[i + 1] == b'/' {
                while i < b.len() && b[i] != b'\n' {
                    i += 1;
                }
            } else if c == b'/' && i + 1 < b.len() && b[i + 1] == b'*' {
                i += 2;
                while i + 1 < b.len() && !(b[i] == b'*' && b[i + 1] == b'/') {
                    if b[i] == b'\n' {
                        newline = true;
                    }
                    i += 1;
                }
                i += 2;
            } else {
                break;
            }
        }
        if i >= b.len() {
            let end = Token {
                tok: Tok::EOF,
                span: Span::new(b.len(), b.len()),
                text: String::new(),
                data: TokData::NoData,
                saw_newline: newline,
            };
            return (toks, Ok(end));
        }
        let start = i;
        let c = b[i];
        let (tok, data) = if is_ident_start(c) {
            while i < b.len() && is_ident_char(b[i]) {
                i += 1;
            }
            let word = &src[start..i];
            (keyword(word).unwrap_or(Tok::Ident), TokData::NoData)
        } else if c.is_ascii_digit() {
            while i < b.len() && (b[i].is_ascii_digit() || b[i] == b'.') {
                i += 1;
            }
            (Tok::Number, TokData::Number(src[start..i].to_string()))
        } else if c == b'\'' || c == b'"' {
            i += 1;
            let mut value = String::new();
            while i < b.len() && b[i] != c {
                if b[i] == b'\\' && i + 1 < b.len() {
                    i += 1;
                }
                value.push(b[i] as char);
                i += 1;
            }
            if i >= b.len() {
                return (toks, Err(LexError { msg: "unterminated string".to_string(), pos: start }));
            }
            i += 1;
            (Tok::String, TokData::String(value))
        } else {
            let mut found = None;
            for len in [4, 3, 2, 1] {
                if i + len <= b.len() {
                    if let Some(t) = punct(&src[i..i + len]) {
                        found = Some((t, len));
                        break;
                    }
                }
            }
            match found {
                Some((t, len)) => {
                    i += len;
                    (t, TokData::NoData)
                }
                None => {
                    return (toks, Err(LexError { msg: "unexpected character".to_string(), pos: start }));
                }
            }
        };
        toks.push(Token {
            tok,
            span: Span::new(start, i),
            text: src[start..i].to_string(),
            data,
            saw_newline: newline,
        });
        newline = false;
    }
}

fn lexer(src: &str) -> Lexer {
    let (toks, end) = tokenize(src);
    Lexer::new(toks, end).expect("a well-formed token stream")
}

fn at_eof(p: &Parser) -> bool {
    matches!(p.lexer.peek(), Ok(Tok::EOF))
}

fn parse_expr(input: &str) -> Expr {
    println!("parse_expr: {:?}", input);
    let mut p = Parser::new(lexer(input));
    let (_, expr) = match p.expr() {
        Err(err) => {
            panic!("err: {} at {:?}", err.msg, err.at);
        }
        Ok(expr) => expr,
    };
    println!("result: {:?}", expr);
    assert!(at_eof(&p));
    expr
}

fn parse(input: &str) -> List<Stmt> {
    println!("parse: {:?}", input);
    let mut p = Parser::new(lexer(input));
    let stmts = match p.stmts() {
        Err(err) => {
            panic!("err: {} at {:?}", err.msg, err.at);
        }
        Ok(stmt) => stmt,
    };
    println!("result: {:?}", stmts);
    assert!(at_eof(&p));
    stmts
}

fn parse_err(input: &str) -> ParseError {
    let mut p = Parser::new(lexer(input));
    match p.stmts() {
        Err(err) => err,
        Ok(stmts) => panic!("parsed {:?}", stmts),
    }
}

fn stmt_vec(l: List<Stmt>) -> Vec<Stmt> {
    l.into_vec()
}

#[test]
fn expr() {
    parse_expr("abc");
}

#[test]
fn assoc() {
    let expr = parse_expr("a + b + c");
    match expr {
        Expr::Binary(ref bin) => match bin.lhs {
            (_, Expr::Binary(_)) => {}
            _ => panic!("fail"),
        },
        _ => panic!("fail"),
    }
}

#[test]
fn binop() {
    parse_expr("a * b + c * d + e * f * g + h");

    parse_expr("i + j * k + l");

    parse_expr("(i + j) * k + l");
}

#[test]
fn field() {
    parse_expr("a.b.c");
}

#[test]
fn unary() {
    parse_expr("a + typeof typeof a.b + a");
}

#[test]
fn umd() {
    parse_expr(
        "function (global, factory) {
	typeof exports === 'object' && typeof module !== 'undefined' ? module.exports = factory() :
	typeof define === 'function' && define.amd ? define(factory) :
    (global.x = factory());
}",
    );
}

#[test]
fn asi() {
    parse(
        "{ a
b } c",
    );
}

#[test]
fn asi_case() {
    parse(
        "
      switch (c) {
        case 1: a; break // c1
        case 2: b; break // c2
      }",
    );
}

#[test]
fn asi_return() {
    parse(
        "return
return 3
{ return }
{ return 3 }
return",
    );
}

#[test]
fn asi_comment() {
    parse(
        "var foo = function() {}
/** comment */ x;",
    );
}

#[test]
fn asi_comment_2() {
    parse(
        "var foo = function() {}  // x
x;",
    );
}

#[test]
fn for_variants() {
    parse("for (;;);");
    parse("for (var x = 3; a; b);");
    parse("for (var x = 3, y = 4; a; b);");
    parse("for (x = 3; a; b);");
    parse("for (x = 3, y = 4; a; b);");
    parse("for (var x in a);");
    parse("for (const x in a);");
    parse("for (x in a);");
}

#[test]
fn kws() {
    parse("foo.extends = bar.case;");
}

#[test]
fn label() {
    parse("foo: bar;");
}

#[test]
fn object() {
    parse("({a: b, 'a': b, a, a() {}, 0: 0, a});");
}

#[test]
fn trailing_comma() {
    parse("f({a,}, [b,], );");
}

#[test]
fn class() {
    parse(
        "class C extends B {
  f() { super.x; }
  ;
  f2() {}
}",
    );
}

#[test]
fn class_expr() {
    parse("let x = class {}");
    parse("let x = class A {}");
    parse("let x = class extends B {}");
}

#[test]
fn function_binding() {
    parse("function f({a}) {}");
    parse("function f({a,b}) {}");
    parse("function f({a,b,}) {}");
    parse("function f({a} = {}) {}");
}

#[test]
fn let_const() {
    parse("let x = 3, y;");
    parse("const x, y = 4;");
}

#[test]
fn let_binding() {
    parse("const {x} = a;");
}

#[test]
fn arrow() {
    parse("x => 3");
    parse("() => 3");
    parse("(a, b, c) => 3");
}

// Further cases.

fn ident_name(e: &Expr) -> String {
    match e {
        Expr::Ident(s) => s.name.clone(),
        _ => panic!("not an identifier: {:?}", e),
    }
}

#[test]
fn precedence_mul_binds_tighter() {
    // i + j * k  is  i + (j * k)
    match parse_expr("i + j * k") {
        Expr::Binary(bin) => {
            assert_eq!(bin.op, BinOp::Plus);
            assert_eq!(ident_name(&bin.lhs.1), "i");
            match &bin.rhs.1 {
                Expr::Binary(inner) => assert_eq!(inner.op, BinOp::Star),
                other => panic!("fail: {:?}", other),
            }
        }
        other => panic!("fail: {:?}", other),
    }
}

#[test]
fn assignment_is_right_associative() {
    // a = b = c  is  a = (b = c)
    match parse_expr("a = b = c") {
        Expr::Assign(lhs, rhs) => {
            assert_eq!(ident_name(&lhs.1), "a");
            assert!(matches!(rhs.1, Expr::Assign(_, _)));
        }
        other => panic!("fail: {:?}", other),
    }
}

#[test]
fn literal_identifiers() {
    assert_eq!(parse_expr("null"), Expr::Null);
    assert_eq!(parse_expr("undefined"), Expr::Undefined);
    assert_eq!(parse_expr("true"), Expr::Bool(true));
    assert_eq!(parse_expr("false"), Expr::Bool(false));
    assert_eq!(parse_expr("42"), Expr::Number("42".to_string()));
}

#[test]
fn expression_spans() {
    let mut p = Parser::new(lexer("ab + cd"));
    let (span, _) = p.expr().unwrap();
    assert_eq!(span, Span::new(0, 7));
}

#[test]
fn expression_stops_at_a_token_that_does_not_continue_it() {
    // `b` cannot continue `a`, so the expression ends before it.
    let mut p = Parser::new(lexer("a b"));
    let (_, e) = p.expr().unwrap();
    assert_eq!(ident_name(&e), "a");
    assert!(matches!(p.lexer.peek(), Ok(Tok::Ident)));
}

#[test]
fn stmts_stop_at_closing_brace() {
    let mut p = Parser::new(lexer("a; b; } c"));
    let stmts = stmt_vec(p.stmts().unwrap());
    assert_eq!(stmts.len(), 2);
    assert!(matches!(p.lexer.peek(), Ok(Tok::RBrace)));
}

#[test]
fn asi_inserts_before_newline_only() {
    // On one line, two expressions need a semicolon between them.
    let err = parse_err("a b");
    assert_eq!(err.msg, "expected semicolon, got Ident");
    assert_eq!(err.at, Span::new(2, 3));
    // Across a line break one is inserted.
    let stmts = stmt_vec(parse("a\nb"));
    assert_eq!(stmts.len(), 2);
}

#[test]
fn asi_return_takes_no_value_across_newline() {
    let stmts = stmt_vec(parse("return\n3"));
    assert_eq!(stmts.len(), 2);
    assert!(matches!(stmts[0], Stmt::Return(None)));
    let stmts = stmt_vec(parse("return 3"));
    assert!(matches!(stmts[0], Stmt::Return(Some(_))));
}

#[test]
fn error_expected_token() {
    let err = parse_err("if (a b;");
    assert_eq!(err.msg, "expected RParen, got Ident");
    assert_eq!(err.at, Span::new(6, 7));
}

#[test]
fn error_primary_expression() {
    let err = parse_err("a + ;");
    assert_eq!(err.msg, "expected primary expression, got Semi");
    assert_eq!(err.at, Span::new(4, 5));
}

#[test]
fn error_arrow_params() {
    let err = parse_err("(a + b) => 3");
    assert_eq!(err.msg, "couldn't convert left side of arrow into parameter list");
}

#[test]
fn error_for_decls() {
    let err = parse_err("for (var x + 1; a; b);");
    assert_eq!(err.msg, "failed to extract decls");
}

#[test]
fn error_from_lexer() {
    let (toks, end) = tokenize("a + 'oops");
    let mut p = Parser::new(Lexer::new(toks, end).unwrap());
    let err = p.expr().unwrap_err();
    assert_eq!(err.msg, "unterminated string");
    assert_eq!(err.at, Span::new(4, 5));
}

#[test]
fn for_heads() {
    let stmts = stmt_vec(parse("for (var x = 3, y = 4; a; b);"));
    match &stmts[0] {
        Stmt::For(f) => match &f.init {
            ForInit::Decls(d) => {
                assert_eq!(d.typ, VarDeclType::Var);
                assert_eq!(d.decls.len(), 2);
            }
            other => panic!("fail: {:?}", other),
        },
        other => panic!("fail: {:?}", other),
    }
    let stmts = stmt_vec(parse("for (const x in a);"));
    match &stmts[0] {
        Stmt::ForInOf(f) => {
            assert_eq!(f.decl_type, Some(VarDeclType::Const));
            match &f.loop_var {
                BindingPattern::Name(s) => assert_eq!(s.name, "x"),
                other => panic!("fail: {:?}", other),
            }
        }
        other => panic!("fail: {:?}", other),
    }
}

#[test]
fn module_reads_all_statements() {
    let mut p = Parser::new(lexer("var a = 1;\nfunction f() { return a }\nf();"));
    let m = p.module().unwrap();
    assert_eq!(m.stmts.len(), 3);
    assert!(at_eof(&p));
}

#[test]
fn lexer_back_undoes_read() {
    let mut l = lexer("a + b");
    let first = l.read().unwrap();
    let again = first.copy();
    l.back(first);
    let second = l.read().unwrap();
    assert_eq!(second.tok, again.tok);
    assert_eq!(second.span, again.span);
    assert_eq!(second.text, again.text);
}

#[test]
fn lexer_end_repeats() {
    let mut l = lexer("a");
    assert_eq!(l.read().unwrap().tok, Tok::Ident);
    assert_eq!(l.read().unwrap().tok, Tok::EOF);
    assert_eq!(l.read().unwrap().tok, Tok::EOF);
}

#[test]
fn lexer_rejects_malformed_streams() {
    let eof = Token {
        tok: Tok::EOF,
        span: Span::new(0, 0),
        text: String::new(),
        data: TokData::NoData,
        saw_newline: false,
    };
    let end = Token {
        tok: Tok::EOF,
        span: Span::new(0, 0),
        text: String::new(),
        data: TokData::NoData,
        saw_newline: false,
    };
    assert!(Lexer::new(vec![eof], Ok(end)).is_none());
    let number = Token {
        tok: Tok::Number,
        span: Span::new(0, 1),
        text: "1".to_string(),
        data: TokData::NoData,
        saw_newline: false,
    };
    let end = Token {
        tok: Tok::EOF,
        span: Span::new(1, 1),
        text: String::new(),
        data: TokData::NoData,
        saw_newline: false,
    };
    assert!(Lexer::new(vec![number], Ok(end)).is_none());
    let not_end = Token {
        tok: Tok::Ident,
        span: Span::new(0, 1),
        text: "a".to_string(),
        data: TokData::NoData,
        saw_newline: false,
    };
    assert!(Lexer::new(vec![], Ok(not_end)).is_none());
}

#[test]
fn token_names() {
    assert_eq!(Tok::RParen.name(), "RParen");
    assert_eq!(Tok::EOF.name(), "EOF");
    assert!(Tok::Case.is_kw());
    assert!(!Tok::Ident.is_kw());
}

// Scopes.

use jsparse::ast::{Scope, Symbol};
use jsparse::eval::{collect_scope, Env, Visit};

fn names(scope: &Scope) -> Vec<String> {
    let mut out = Vec::new();
    let mut i = 0;
    while let Some(s) = scope.bindings.get(i) {
        out.push(s.name.clone());
        i += 1;
    }
    out
}

fn scope_of(src: &str) -> Scope {
    let stmts = parse(src);
    let mut scope = Scope::new();
    collect_scope(&stmts, &mut scope);
    scope
}

#[test]
fn collect_scope_var_declared_names() {
    let scope = scope_of(
        "var x = 1;
function f() { var hidden; }
if (a) { var y; } else { var z; }
for (var i = 0; i < 3; i++) { var w; }
for (var k in o);
while (a) var v;
switch (a) { case 1: var c; default: var d; }
try { var t; } catch (e) { var u; } finally { var fz; }
lbl: var l;",
    );
    assert_eq!(
        names(&scope),
        vec!["x", "f", "y", "z", "i", "w", "k", "v", "c", "d", "t", "e", "u", "fz", "l"]
    );
}

#[test]
fn collect_scope_leaves_out_let_and_const() {
    let scope = scope_of(
        "{ let x; const y = 1; }
for (let j = 0; j < 1; j++) { var inner; }
for (const m in o);
let top;",
    );
    assert_eq!(names(&scope), vec!["inner"]);
}

#[test]
fn collect_scope_reads_finally_block() {
    let scope = scope_of("try {} finally { var z; }");
    assert_eq!(names(&scope), vec!["z"]);
}

#[test]
fn collect_scope_appends_after_existing_bindings() {
    let stmts = parse("var b;");
    let mut scope = Scope::new();
    collect_scope(&stmts, &mut scope);
    collect_scope(&parse("var c; var d;"), &mut scope);
    assert_eq!(names(&scope), vec!["b", "c", "d"]);
}

#[test]
fn collect_scope_ignores_expressions() {
    let scope = scope_of("a = 1; f(); return x;");
    assert!(names(&scope).is_empty());
}

#[test]
fn scope_resolve_first_binding() {
    let scope = scope_of("var a; var b; var a;");
    let found = scope.resolve(&Symbol::new("a".to_string())).unwrap();
    assert_eq!(found.name, "a");
    assert!(scope.resolve(&Symbol::new("c".to_string())).is_none());
}

#[test]
fn env_inner_scope_hides_outer() {
    let mut outer_scope = Scope::new();
    collect_scope(&parse("var a; var b;"), &mut outer_scope);
    let outer = Env { scope: outer_scope, parent: None };
    let mut inner = outer.new_scope();
    let mut a = Symbol::new("a".to_string());
    a.renameable = false;
    inner.scope.bindings = List::Cons(Box::new(a), Box::new(List::Nil));
    let found = inner.resolve(&Symbol::new("a".to_string())).unwrap();
    assert!(!found.renameable);
    let found = inner.resolve(&Symbol::new("b".to_string())).unwrap();
    assert!(found.renameable);
    assert!(inner.resolve(&Symbol::new("c".to_string())).is_none());
}

#[test]
fn env_new_scope_resolves_as_parent() {
    let outer = Env { scope: scope_of("var a;"), parent: None };
    let inner = outer.new_scope();
    assert_eq!(
        inner.resolve(&Symbol::new("a".to_string())),
        outer.resolve(&Symbol::new("a".to_string()))
    );
    assert!(inner.resolve(&Symbol::new("z".to_string())).is_none());
}

#[test]
fn visit_resolve_creates_globals_on_request() {
    let mut globals = Scope::new();
    let env = Env { scope: scope_of("var a;"), parent: None };
    let mut visit = Visit { all_syms: vec![], globals: &mut globals };

    let mut sym = Symbol::new("a".to_string());
    assert!(visit.resolve(&env, &mut sym, false));
    assert!(sym.renameable);

    let mut sym = Symbol::new("exports".to_string());
    assert!(!visit.resolve(&env, &mut sym, false));
    assert!(sym.renameable);

    assert!(visit.resolve(&env, &mut sym, true));
    assert_eq!(sym.name, "exports");
    assert!(!sym.renameable);

    // The new global is found from then on, without being made again.
    let mut again = Symbol::new("exports".to_string());
    assert!(visit.resolve(&env, &mut again, false));
    assert!(!again.renameable);
    assert_eq!(names(&globals), vec!["exports"]);
}

// Error reports.

use jsparse::lex::{context, Context};

#[test]
fn context_of_offsets() {
    let src = b"var a;\nfoo bar\nx";
    assert_eq!(
        context(src, 0),
        Context { line: 1, col: 1, line_start: 0, line_end: 6 }
    );
    assert_eq!(
        context(src, 11),
        Context { line: 2, col: 5, line_start: 7, line_end: 14 }
    );
    assert_eq!(
        context(src, 15),
        Context { line: 3, col: 1, line_start: 15, line_end: 16 }
    );
    assert_eq!(
        context(src, 16),
        Context { line: 3, col: 2, line_start: 15, line_end: 16 }
    );
}

#[test]
fn error_marker_line() {
    let src = "a;\nfoo bar";
    let err = parse_err(src);
    assert_eq!(err.msg, "expected semicolon, got Ident");
    let ctx = context(src.as_bytes(), err.at.start);
    assert_eq!((ctx.line, ctx.col), (2, 5));
    assert_eq!(&src[ctx.line_start..ctx.line_end], "foo bar");
    assert_eq!(err.marker(ctx.col), "    ^^^");
}

#[test]
fn lex_error_marks_one_offset() {
    let err = ParseError { msg: "bad".to_string(), at: Span::new(3, 4) };
    assert_eq!(err.marker(1), "^");
    let empty = ParseError { msg: "bad".to_string(), at: Span::new(4, 3) };
    assert_eq!(empty.marker(3), "  ");
}

#[test]
fn error_at_end_of_input() {
    let err = parse_err("a +");
    assert_eq!(err.msg, "expected primary expression, got EOF");
    assert_eq!(err.at, Span::new(3, 3));
    let err = parse_err("function f() {");
    assert_eq!(err.msg, "expected primary expression, got EOF");
    let err = parse_err("if (a");
    assert_eq!(err.msg, "expected RParen, got EOF");
}

fn binary_op(e: &Expr) -> (BinOp, &Expr, &Expr) {
    match e {
        Expr::Binary(bin) => (bin.op, &bin.lhs.1, &bin.rhs.1),
        other => panic!("not a binary expression: {:?}", other),
    }
}

#[test]
fn left_associative_operators_nest_left() {
    for (src, op) in [
        ("a << b << c", BinOp::LTLT),
        ("a >>> b >>> c", BinOp::GTGTGT),
        ("a < b < c", BinOp::LT),
        ("a in b in c", BinOp::In),
        ("a instanceof b instanceof c", BinOp::InstanceOf),
        ("a & b & c", BinOp::BAnd),
        ("a ^ b ^ c", BinOp::Xor),
        ("a | b | c", BinOp::BOr),
        ("a && b && c", BinOp::AndAnd),
        ("a || b || c", BinOp::OrOr),
        ("a == b == c", BinOp::EqEq),
        ("a - b - c", BinOp::Minus),
        ("a / b / c", BinOp::Div),
        ("a, b, c", BinOp::Comma),
    ] {
        let e = parse_expr(src);
        let (outer, lhs, rhs) = binary_op(&e);
        assert_eq!(outer, op, "{}", src);
        assert_eq!(ident_name(rhs), "c", "{}", src);
        let (inner, a, b) = binary_op(lhs);
        assert_eq!(inner, op, "{}", src);
        assert_eq!(ident_name(a), "a", "{}", src);
        assert_eq!(ident_name(b), "b", "{}", src);
    }
}

#[test]
fn compound_assignment_nests_right() {
    let e = parse_expr("a += b += c");
    let (op, lhs, rhs) = binary_op(&e);
    assert_eq!(op, BinOp::PlusEq);
    assert_eq!(ident_name(lhs), "a");
    assert_eq!(binary_op(rhs).0, BinOp::PlusEq);
}

#[test]
fn throw_reads_its_semicolon() {
    let mut p = Parser::new(lexer("throw x;"));
    match p.stmt().unwrap() {
        Stmt::Throw(e) => assert_eq!(ident_name(&e), "x"),
        other => panic!("fail: {:?}", other),
    }
    assert!(at_eof(&p));
    let stmts = stmt_vec(parse("throw x;\nthrow y\n"));
    assert_eq!(stmts.len(), 2);
    let err = parse_err("throw x y");
    assert_eq!(err.msg, "expected semicolon, got Ident");
}
