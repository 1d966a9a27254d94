//! The syntax tree that the parser builds.
use vstd::prelude::*;
use crate::lex::Span;
use crate::list::List;
use crate::ops::{BinOp, UnOp};

verus! {

/// A name bound or used in the program.  A symbol that is not renameable
/// keeps its name when bindings are renamed apart.
#[derive(Debug, PartialEq, Eq)]
pub struct Symbol {
    pub name: String,
    pub renameable: bool,
}

impl Symbol {
    pub fn new(name: String) -> (s: Symbol)
        ensures
            s == (Symbol { name, renameable: true }),
    {
        Symbol { name, renameable: true }
    }

    /// A copy of the symbol.
    pub fn copy(&self) -> (s: Symbol)
        ensures
            s == *self,
    {
        Symbol { name: self.name.clone(), renameable: self.renameable }
    }
}

/// The names that a module or a function binds.
#[derive(Debug, PartialEq, Eq)]
pub struct Scope {
    pub bindings: List<Symbol>,
}

/// The first of `bindings` named `name`, if one is.
pub open spec fn lookup(bindings: List<Symbol>, name: Seq<char>) -> Option<Symbol>
    decreases bindings,
{
    match bindings {
        List::Nil => None,
        List::Cons(s, rest) => if s.name@ == name {
            Some(*s)
        } else {
            lookup(*rest, name)
        },
    }
}

/// What `lookup` finds is named as asked.
pub proof fn lemma_lookup_named(bindings: List<Symbol>, name: Seq<char>)
    ensures
        lookup(bindings, name) matches Some(s) ==> s.name@ == name,
    decreases bindings,
{
    if let List::Cons(_, rest) = bindings {
        lemma_lookup_named(*rest, name);
    }
}

/// `lookup` finds the first binding with the name asked for: the one at
/// index `i`, where no earlier binding has that name.
pub proof fn lemma_lookup_first(bindings: List<Symbol>, name: Seq<char>, i: int)
    requires
        0 <= i < bindings.elems().len(),
        bindings.elems()[i].name@ == name,
        forall|j: int| 0 <= j < i ==> bindings.elems()[j].name@ != name,
    ensures
        lookup(bindings, name) == Some(bindings.elems()[i]),
    decreases bindings,
{
    if let List::Cons(s, rest) = bindings {
        assert(bindings.elems()[0] == *s);
        if i > 0 {
            assert forall|j: int| 0 <= j < i - 1 implies rest.elems()[j].name@ != name by {
                assert(rest.elems()[j] == bindings.elems()[j + 1]);
            }
            assert(rest.elems()[i - 1] == bindings.elems()[i]);
            lemma_lookup_first(*rest, name, i - 1);
        }
    }
}

/// `lookup` finds nothing where no binding has the name asked for.
pub proof fn lemma_lookup_absent(bindings: List<Symbol>, name: Seq<char>)
    requires
        forall|j: int| 0 <= j < bindings.elems().len() ==> bindings.elems()[j].name@ != name,
    ensures
        lookup(bindings, name) is None,
    decreases bindings,
{
    if let List::Cons(s, rest) = bindings {
        assert(bindings.elems()[0] == *s);
        assert forall|j: int| 0 <= j < rest.elems().len() implies rest.elems()[j].name@ != name by {
            assert(rest.elems()[j] == bindings.elems()[j + 1]);
        }
        lemma_lookup_absent(*rest, name);
    }
}

impl Scope {
    pub fn new() -> (s: Scope)
        ensures
            s == (Scope { bindings: List::Nil }),
    {
        Scope { bindings: List::Nil }
    }

    /// The binding of this scope with the name of `sym`: the first one, if
    /// the name is bound more than once.
    pub fn resolve(&self, sym: &Symbol) -> (r: Option<Symbol>)
        ensures
            r == lookup(self.bindings, sym.name@),
    {
        let mut cur = &self.bindings;
        loop
            invariant
                lookup(*cur, sym.name@) == lookup(self.bindings, sym.name@),
            decreases *cur,
        {
            match cur {
                List::Nil => {
                    return None;
                },
                List::Cons(s, rest) => {
                    if s.name.eq(&sym.name) {
                        return Some(s.copy());
                    }
                    cur = rest;
                },
            }
        }
    }
}

/// An expression together with the source range it came from.
pub type ExprNode = (Span, Expr);

/// An expression.
#[derive(Debug, PartialEq, Eq)]
pub enum Expr {
    EmptyParens,
    This,
    Ident(Symbol),
    Null,
    Undefined,
    Bool(bool),
    /// A numeric literal, as written.
    Number(String),
    /// A string literal, as written.
    String(String),
    Array(List<ExprNode>),
    Object(Box<Object>),
    Function(Box<Function>),
    ArrowFunction(Box<ArrowFunction>),
    Class(Box<Class>),
    Regex(Box<Regex>),
    Unary(UnOp, Box<ExprNode>),
    TypeOf(Box<ExprNode>),
    New(Box<ExprNode>),
    Binary(Box<Binary>),
    Ternary(Box<Ternary>),
    Assign(Box<ExprNode>, Box<ExprNode>),
    Field(Box<ExprNode>, String),
    Index(Box<ExprNode>, Box<ExprNode>),
    Call(Box<Call>),
}

#[derive(Debug, PartialEq, Eq)]
pub struct Binary {
    pub op: BinOp,
    pub lhs: ExprNode,
    pub rhs: ExprNode,
}

#[derive(Debug, PartialEq, Eq)]
pub struct Ternary {
    pub condition: ExprNode,
    pub iftrue: ExprNode,
    pub iffalse: ExprNode,
}

#[derive(Debug, PartialEq, Eq)]
pub struct Call {
    pub func: ExprNode,
    pub args: List<ExprNode>,
}

#[derive(Debug, PartialEq, Eq)]
pub struct Regex {
    pub literal: String,
}

/// The key of an object property: a name or string, or a number as written.
#[derive(Debug, PartialEq, Eq)]
pub enum PropertyKey {
    String(String),
    Number(String),
}

#[derive(Debug, PartialEq, Eq)]
pub struct Property {
    pub name: PropertyKey,
    pub value: ExprNode,
}

#[derive(Debug, PartialEq, Eq)]
pub struct Object {
    pub props: List<Property>,
}

/// `{a, b}` in a binding position.
#[derive(Debug, PartialEq, Eq)]
pub struct ObjectBindingPattern {
    pub props: List<Symbol>,
}

/// What a declaration or a parameter binds.
#[derive(Debug, PartialEq, Eq)]
pub enum BindingPattern {
    Name(Symbol),
    Object(ObjectBindingPattern),
}

/// Parameters, each with its default value if it has one.
pub type ParameterList = List<(BindingPattern, Option<ExprNode>)>;

#[derive(Debug, PartialEq, Eq)]
pub struct Function {
    pub scope: Scope,
    pub name: Option<Symbol>,
    pub params: ParameterList,
    pub body: List<Stmt>,
}

#[derive(Debug, PartialEq, Eq)]
pub enum ArrowBody {
    Expr(ExprNode),
    Stmts(List<Stmt>),
}

#[derive(Debug, PartialEq, Eq)]
pub struct ArrowFunction {
    pub params: ParameterList,
    pub body: ArrowBody,
}

#[derive(Debug, PartialEq, Eq)]
pub struct Class {
    pub name: Option<Symbol>,
    pub extends: Option<ExprNode>,
    pub methods: List<Function>,
}

#[derive(Debug, PartialEq, Eq, Clone, Copy, Structural)]
pub enum VarDeclType {
    Var,
    Let,
    Const,
}

#[derive(Debug, PartialEq, Eq)]
pub struct VarDecl {
    pub pattern: BindingPattern,
    pub init: Option<ExprNode>,
}

#[derive(Debug, PartialEq, Eq)]
pub struct VarDecls {
    pub typ: VarDeclType,
    pub decls: List<VarDecl>,
}

#[derive(Debug, PartialEq, Eq)]
pub struct If {
    pub cond: Expr,
    pub iftrue: Stmt,
    pub else_: Option<Stmt>,
}

/// The condition and body of a `while` or a `do`-`while` loop.
#[derive(Debug, PartialEq, Eq)]
pub struct While {
    pub cond: Expr,
    pub body: Stmt,
}

#[derive(Debug, PartialEq, Eq)]
pub enum ForInit {
    Empty,
    Expr(Expr),
    Decls(VarDecls),
}

#[derive(Debug, PartialEq, Eq)]
pub struct For {
    pub init: ForInit,
    pub cond: Option<Expr>,
    pub iter: Option<Expr>,
    pub body: Stmt,
}

/// A `for (x in e)` loop.
#[derive(Debug, PartialEq, Eq)]
pub struct ForInOf {
    pub decl_type: Option<VarDeclType>,
    pub loop_var: BindingPattern,
    pub expr: ExprNode,
    pub body: Stmt,
}

/// A `case e:` clause, or the `default:` clause when `expr` is `None`.
#[derive(Debug, PartialEq, Eq)]
pub struct Case {
    pub expr: Option<Expr>,
    pub stmts: List<Stmt>,
}

#[derive(Debug, PartialEq, Eq)]
pub struct Switch {
    pub expr: Expr,
    pub cases: List<Case>,
}

#[derive(Debug, PartialEq, Eq)]
pub struct Try {
    pub block: Stmt,
    pub catch: Option<(BindingPattern, Stmt)>,
    pub finally: Option<Stmt>,
}

#[derive(Debug, PartialEq, Eq)]
pub struct Label {
    pub label: String,
    pub stmt: Stmt,
}

/// A statement or a declaration.
#[derive(Debug, PartialEq, Eq)]
pub enum Stmt {
    Function(Box<Function>),
    Class(Box<Class>),
    Var(Box<VarDecls>),
    Block(List<Stmt>),
    Empty,
    Expr(ExprNode),
    If(Box<If>),
    While(Box<While>),
    DoWhile(Box<While>),
    For(Box<For>),
    ForInOf(Box<ForInOf>),
    Switch(Box<Switch>),
    Break(Option<String>),
    Continue(Option<String>),
    Return(Option<Box<Expr>>),
    Throw(Box<Expr>),
    Try(Box<Try>),
    Label(Box<Label>),
}

/// A whole program: its statements and the names it binds.
#[derive(Debug, PartialEq, Eq)]
pub struct Module {
    pub scope: Scope,
    pub stmts: List<Stmt>,
}

} // verus!
