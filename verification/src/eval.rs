//! Scopes: the names that a list of statements declares with `var` (and
//! with function declarations, which are hoisted the same way), and the
//! lookup of a name through a chain of nested scopes.
use vstd::prelude::*;
use crate::ast::{
    lookup, BindingPattern, Case, ForInit, Scope, Stmt, Symbol, VarDecl, VarDeclType, VarDecls,
};
use crate::list::List;

verus! {

/// The names that a binding pattern binds; `None` for a destructuring
/// pattern, which scope collection does not handle.
pub open spec fn pattern_names(p: BindingPattern) -> Option<Seq<Symbol>> {
    match p {
        BindingPattern::Name(s) => Some(seq![s]),
        BindingPattern::Object(_) => None,
    }
}

/// The names of `a` followed by those of `b`, where both are known.
pub open spec fn join(a: Option<Seq<Symbol>>, b: Option<Seq<Symbol>>) -> Option<Seq<Symbol>> {
    match a {
        Some(x) => match b {
            Some(y) => Some(x + y),
            None => None,
        },
        None => None,
    }
}

/// No names.
pub open spec fn none_declared() -> Option<Seq<Symbol>> {
    Some(Seq::empty())
}

/// The names that a list of declarations binds, in order.
pub open spec fn decl_list_names(l: List<VarDecl>) -> Option<Seq<Symbol>>
    decreases l,
{
    match l {
        List::Nil => none_declared(),
        List::Cons(d, rest) => join(pattern_names(d.pattern), decl_list_names(*rest)),
    }
}

/// The names that a statement declares for its enclosing function or
/// module (its VarDeclaredNames), in the order they occur: those of `var`
/// declarations at any depth of blocks and compound statements (a `for`
/// head that declares with `var` included, and the blocks of `try`, `catch`
/// and `finally`), of a `catch` parameter, and the name of a function
/// declaration.  `let`, `const` and class declarations are left out.  `None` where one of them is a destructuring pattern.
pub open spec fn var_names(s: Stmt) -> Option<Seq<Symbol>>
    decreases s,
{
    match s {
        Stmt::Block(stmts) => stmt_list_names(stmts),
        Stmt::Var(decls) => var_decls_names(*decls),
        Stmt::If(i) => join(var_names(i.iftrue), opt_names(i.else_)),
        Stmt::While(w) => var_names(w.body),
        Stmt::DoWhile(w) => var_names(w.body),
        Stmt::For(f) => join(for_init_names(f.init), var_names(f.body)),
        Stmt::ForInOf(f) => join(
            if f.decl_type == Some(VarDeclType::Var) {
                pattern_names(f.loop_var)
            } else {
                none_declared()
            },
            var_names(f.body),
        ),
        Stmt::Switch(sw) => case_list_names(sw.cases),
        Stmt::Try(t) => join(var_names(t.block), join(catch_names(t.catch), opt_names(t.finally))),
        Stmt::Label(l) => var_names(l.stmt),
        Stmt::Function(f) => match f.name {
            Some(n) => Some(seq![n]),
            None => none_declared(),
        },
        _ => none_declared(),
    }
}

/// The names that an optional statement declares.
pub open spec fn opt_names(s: Option<Stmt>) -> Option<Seq<Symbol>>
    decreases s,
{
    match s {
        Some(st) => var_names(st),
        None => none_declared(),
    }
}

/// The names that a `catch` clause declares: its parameter, then those of
/// its body.
pub open spec fn catch_names(c: Option<(BindingPattern, Stmt)>) -> Option<Seq<Symbol>>
    decreases c,
{
    match c {
        Some(pc) => join(pattern_names(pc.0), var_names(pc.1)),
        None => none_declared(),
    }
}

/// The names that a declaration list binds where it declares with `var`;
/// `let` and `const` bind names in their block, not in the function.
pub open spec fn var_decls_names(d: VarDecls) -> Option<Seq<Symbol>> {
    if d.typ == VarDeclType::Var {
        decl_list_names(d.decls)
    } else {
        none_declared()
    }
}

/// The names that the head of a `for` loop declares.
pub open spec fn for_init_names(init: ForInit) -> Option<Seq<Symbol>> {
    match init {
        ForInit::Decls(d) => var_decls_names(d),
        _ => none_declared(),
    }
}

/// The names that a list of statements declares, in order.
pub open spec fn stmt_list_names(l: List<Stmt>) -> Option<Seq<Symbol>>
    decreases l,
{
    match l {
        List::Nil => none_declared(),
        List::Cons(s, rest) => join(var_names(*s), stmt_list_names(*rest)),
    }
}

/// The names that the statements of the clauses of a `switch` declare.
pub open spec fn case_list_names(l: List<Case>) -> Option<Seq<Symbol>>
    decreases l,
{
    match l {
        List::Nil => none_declared(),
        List::Cons(c, rest) => join(stmt_list_names(c.stmts), case_list_names(*rest)),
    }
}

proof fn lemma_append_assoc(a: Seq<Symbol>, b: Seq<Symbol>, c: Seq<Symbol>)
    ensures
        a + b + c == a + (b + c),
{
    assert(a + b + c =~= a + (b + c));
}

fn pattern_names_into(p: &BindingPattern, out: &mut Vec<Symbol>)
    requires
        pattern_names(*p) is Some,
    ensures
        final(out)@ == old(out)@ + pattern_names(*p)->0,
{
    match p {
        BindingPattern::Name(s) => {
            out.push(s.copy());
            assert(out@ =~= old(out)@ + seq![*s]);
        },
        BindingPattern::Object(_) => {
            proof {
                assert(false);
            }
        },
    }
}

/// Appends the names that a list of declarations binds.
fn decl_names(l: &List<VarDecl>, out: &mut Vec<Symbol>)
    requires
        decl_list_names(*l) is Some,
    ensures
        final(out)@ == old(out)@ + decl_list_names(*l)->0,
    decreases l,
{
    match l {
        List::Nil => {
            assert(out@ =~= old(out)@ + Seq::<Symbol>::empty());
        },
        List::Cons(d, rest) => {
            let ghost o = out@;
            pattern_names_into(&d.pattern, out);
            decl_names(rest, out);
            proof {
                lemma_append_assoc(
                    o,
                    pattern_names(d.pattern)->0,
                    decl_list_names(**rest)->0,
                );
            }
        },
    }
}

/// Appends the names that `stmt` declares (see `var_names`).
fn var_declared_names(stmt: &Stmt, out: &mut Vec<Symbol>)
    requires
        var_names(*stmt) is Some,
    ensures
        final(out)@ == old(out)@ + var_names(*stmt)->0,
    decreases stmt,
{
    let ghost o = out@;
    match stmt {
        Stmt::Block(stmts) => {
            stmt_list_declared_names(stmts, out);
        },
        Stmt::Var(decls) => {
            if decls.typ == VarDeclType::Var {
                decl_names(&decls.decls, out);
            } else {
                assert(out@ =~= o + Seq::<Symbol>::empty());
            }
        },
        Stmt::If(if_) => {
            var_declared_names(&if_.iftrue, out);
            let ghost o1 = out@;
            match &if_.else_ {
                Some(else_) => {
                    var_declared_names(else_, out);
                },
                None => {
                    assert(out@ =~= o1 + Seq::<Symbol>::empty());
                },
            }
            proof {
                lemma_append_assoc(o, var_names(if_.iftrue)->0, opt_names(if_.else_)->0);
            }
        },
        Stmt::While(while_) => {
            var_declared_names(&while_.body, out);
        },
        Stmt::DoWhile(do_) => {
            var_declared_names(&do_.body, out);
        },
        Stmt::For(for_) => {
            match &for_.init {
                ForInit::Decls(decls) => {
                    if decls.typ == VarDeclType::Var {
                        decl_names(&decls.decls, out);
                    } else {
                        assert(out@ =~= o + Seq::<Symbol>::empty());
                    }
                },
                _ => {
                    assert(out@ =~= o + Seq::<Symbol>::empty());
                },
            }
            let ghost o1 = out@;
            var_declared_names(&for_.body, out);
            proof {
                lemma_append_assoc(o, for_init_names(for_.init)->0, var_names(for_.body)->0);
            }
        },
        Stmt::ForInOf(forinof) => {
            if forinof.decl_type == Some(VarDeclType::Var) {
                pattern_names_into(&forinof.loop_var, out);
            } else {
                assert(out@ =~= o + Seq::<Symbol>::empty());
            }
            var_declared_names(&forinof.body, out);
            proof {
                let head = if forinof.decl_type == Some(VarDeclType::Var) {
                    pattern_names(forinof.loop_var)
                } else {
                    none_declared()
                };
                lemma_append_assoc(o, head->0, var_names(forinof.body)->0);
            }
        },
        Stmt::Switch(sw) => {
            case_list_declared_names(&sw.cases, out);
        },
        Stmt::Try(try_) => {
            var_declared_names(&try_.block, out);
            let ghost o1 = out@;
            match &try_.catch {
                Some((param, catch)) => {
                    pattern_names_into(param, out);
                    var_declared_names(catch, out);
                    proof {
                        lemma_append_assoc(o1, pattern_names(*param)->0, var_names(*catch)->0);
                    }
                },
                None => {
                    assert(out@ =~= o1 + Seq::<Symbol>::empty());
                },
            }
            let ghost o2 = out@;
            match &try_.finally {
                Some(finally) => {
                    var_declared_names(finally, out);
                },
                None => {
                    assert(out@ =~= o2 + Seq::<Symbol>::empty());
                },
            }
            proof {
                lemma_append_assoc(o1, catch_names(try_.catch)->0, opt_names(try_.finally)->0);
                lemma_append_assoc(
                    o,
                    var_names(try_.block)->0,
                    join(catch_names(try_.catch), opt_names(try_.finally))->0,
                );
            }
        },
        Stmt::Label(label) => {
            var_declared_names(&label.stmt, out);
        },
        Stmt::Function(func) => {
            match &func.name {
                Some(name) => {
                    out.push(name.copy());
                    assert(out@ =~= o + seq![*name]);
                },
                None => {
                    assert(out@ =~= o + Seq::<Symbol>::empty());
                },
            }
        },
        _ => {
            assert(out@ =~= o + Seq::<Symbol>::empty());
        },
    }
}

/// Appends the names that a list of statements declares.
fn stmt_list_declared_names(l: &List<Stmt>, out: &mut Vec<Symbol>)
    requires
        stmt_list_names(*l) is Some,
    ensures
        final(out)@ == old(out)@ + stmt_list_names(*l)->0,
    decreases l,
{
    match l {
        List::Nil => {
            assert(out@ =~= old(out)@ + Seq::<Symbol>::empty());
        },
        List::Cons(s, rest) => {
            let ghost o = out@;
            var_declared_names(s, out);
            stmt_list_declared_names(rest, out);
            proof {
                lemma_append_assoc(o, var_names(**s)->0, stmt_list_names(**rest)->0);
            }
        },
    }
}

/// Appends the names that the clauses of a `switch` declare.
fn case_list_declared_names(l: &List<Case>, out: &mut Vec<Symbol>)
    requires
        case_list_names(*l) is Some,
    ensures
        final(out)@ == old(out)@ + case_list_names(*l)->0,
    decreases l,
{
    match l {
        List::Nil => {
            assert(out@ =~= old(out)@ + Seq::<Symbol>::empty());
        },
        List::Cons(c, rest) => {
            let ghost o = out@;
            stmt_list_declared_names(&c.stmts, out);
            case_list_declared_names(rest, out);
            proof {
                lemma_append_assoc(o, stmt_list_names(c.stmts)->0, case_list_names(**rest)->0);
            }
        },
    }
}

/// Adds to `scope`, after the names it already binds, the names that the
/// statements `stmts` declare, in order.  A destructuring pattern in a
/// declaration is not handled, and is left out by the precondition.
pub fn collect_scope(stmts: &List<Stmt>, scope: &mut Scope)
    requires
        stmt_list_names(*stmts) is Some,
    ensures
        final(scope).bindings.elems() == old(scope).bindings.elems() + stmt_list_names(
            *stmts,
        )->0,
{
    let mut bindings = List::Nil;
    core::mem::swap(&mut bindings, &mut scope.bindings);
    let mut names = bindings.into_vec();
    stmt_list_declared_names(stmts, &mut names);
    scope.bindings = List::from_vec(names);
    proof {
        List::lemma_elems_from_seq(names@);
    }
}

/// A scope together with the chain of scopes that enclose it.
pub struct Env<'p> {
    pub scope: Scope,
    pub parent: Option<&'p Env<'p>>,
}

/// The binding that a name refers to in `e`: the one of the innermost scope
/// of the chain that binds the name.
pub open spec fn env_resolve(e: Env, name: Seq<char>) -> Option<Symbol>
    decreases e,
{
    match lookup(e.scope.bindings, name) {
        Some(s) => Some(s),
        None => match e.parent {
            Some(p) => env_resolve(*p, name),
            None => None,
        },
    }
}

/// What a name resolves to in a chain of scopes is named as asked.
pub proof fn lemma_env_resolve_named(e: Env, name: Seq<char>)
    ensures
        env_resolve(e, name) matches Some(s) ==> s.name@ == name,
    decreases e,
{
    crate::ast::lemma_lookup_named(e.scope.bindings, name);
    if let Some(p) = e.parent {
        lemma_env_resolve_named(*p, name);
    }
}

impl<'p> Env<'p> {
    /// The binding that the name of `sym` refers to here, looking outward
    /// from this scope through the enclosing ones.
    pub fn resolve(&self, sym: &Symbol) -> (r: Option<Symbol>)
        ensures
            r == env_resolve(*self, sym.name@),
    {
        let mut s: &Env<'p> = self;
        loop
            invariant
                env_resolve(*s, sym.name@) == env_resolve(*self, sym.name@),
            decreases *s,
        {
            if let Some(found) = s.scope.resolve(sym) {
                return Some(found);
            }
            match s.parent {
                Some(parent) => {
                    s = parent;
                },
                None => {
                    return None;
                },
            }
        }
    }

    /// A new, empty scope inside this one.  It binds nothing, so every name
    /// resolves in it as it does here.
    pub fn new_scope<'b, 's: 'b>(&'s self) -> (e: Env<'b>)
        ensures
            e.scope.bindings == List::<Symbol>::Nil,
            forall|name: Seq<char>| env_resolve(e, name) == env_resolve(*self, name),
    {
        Env { scope: Scope::new(), parent: Some(self) }
    }
}

/// The state of a pass that resolves the names of a program: the symbols
/// bound so far that may be renamed, and the global scope, to which names
/// that nothing binds may be added.
pub struct Visit<'a> {
    pub all_syms: Vec<Symbol>,
    pub globals: &'a mut Scope,
}

/// A global binding made for a name that nothing in the program binds; it
/// keeps its name.
pub open spec fn global_sym(name: String) -> Symbol {
    Symbol { name, renameable: false }
}

/// The binding that a name refers to: in the chain of scopes `env`, else
/// among the globals.
pub open spec fn resolution(env: Env, globals: Scope, name: Seq<char>) -> Option<Symbol> {
    match env_resolve(env, name) {
        Some(s) => Some(s),
        None => lookup(globals.bindings, name),
    }
}

/// What declarations declare: a `var` statement its names, in order; a
/// `let` or `const` statement nothing (its names belong to its block); a
/// function declaration its own name; a `for`-`in` loop with `var` its loop
/// variable, with `let` or `const` nothing but what its body declares.
pub proof fn lemma_declaration_names(
    x: Symbol,
    y: Symbol,
    e: Option<crate::ast::ExprNode>,
    f: crate::ast::Function,
    body: Stmt,
    rhs: crate::ast::ExprNode,
)
    ensures
        ({
            let two = List::Cons(
                Box::new(VarDecl { pattern: BindingPattern::Name(x), init: e }),
                Box::new(
                    List::Cons(
                        Box::new(VarDecl { pattern: BindingPattern::Name(y), init: None }),
                        Box::new(List::Nil),
                    ),
                ),
            );
            &&& var_names(Stmt::Var(Box::new(VarDecls { typ: VarDeclType::Var, decls: two })))
                == Some(seq![x, y])
            &&& var_names(Stmt::Var(Box::new(VarDecls { typ: VarDeclType::Let, decls: two })))
                == Some(Seq::<Symbol>::empty())
            &&& var_names(Stmt::Var(Box::new(VarDecls { typ: VarDeclType::Const, decls: two })))
                == Some(Seq::<Symbol>::empty())
        }),
        f.name matches Some(n) ==> var_names(Stmt::Function(Box::new(f))) == Some(seq![n]),
        f.name is None ==> var_names(Stmt::Function(Box::new(f))) == Some(Seq::<Symbol>::empty()),
        var_names(body) is Some ==> {
            &&& var_names(
                Stmt::ForInOf(
                    Box::new(
                        crate::ast::ForInOf {
                            decl_type: Some(VarDeclType::Var),
                            loop_var: BindingPattern::Name(x),
                            expr: rhs,
                            body,
                        },
                    ),
                ),
            ) == Some(seq![x] + var_names(body)->Some_0)
            &&& var_names(
                Stmt::ForInOf(
                    Box::new(
                        crate::ast::ForInOf {
                            decl_type: Some(VarDeclType::Let),
                            loop_var: BindingPattern::Name(x),
                            expr: rhs,
                            body,
                        },
                    ),
                ),
            ) == var_names(body)
        },
{
    let tail = List::Cons(
        Box::new(VarDecl { pattern: BindingPattern::Name(y), init: None }),
        Box::new(List::<VarDecl>::Nil),
    );
    assert(decl_list_names(List::<VarDecl>::Nil) == none_declared());
    assert(decl_list_names(tail) == join(pattern_names(BindingPattern::Name(y)), none_declared()));
    assert(seq![y] + Seq::<Symbol>::empty() =~= seq![y]);
    assert(seq![x] + seq![y] =~= seq![x, y]);
    if let Some(b) = var_names(body) {
        assert(Seq::<Symbol>::empty() + b =~= b);
    }
}

/// The innermost scope comes first: a name it binds refers to its binding,
/// whatever the enclosing scopes hold; a name it does not bind is resolved
/// in the enclosing scope, or not at all at the outermost one.
pub proof fn lemma_inner_scope_first(e: Env, name: Seq<char>)
    ensures
        lookup(e.scope.bindings, name) is Some ==> env_resolve(e, name) == lookup(
            e.scope.bindings,
            name,
        ),
        lookup(e.scope.bindings, name) is None ==> env_resolve(e, name) == match e.parent {
            Some(p) => env_resolve(*p, name),
            None => None,
        },
{
}

/// The names of statements in sequence are those of the first, then those
/// of the second: in a block, across the branches of an `if`, from the head
/// of a `for` loop to its body, and through the parts of a `try` statement
/// (its block, the `catch` parameter, the `catch` block, the `finally`
/// block).
pub proof fn lemma_names_in_order(s1: Stmt, s2: Stmt, s3: Stmt, x: Symbol, cond: crate::ast::Expr)
    ensures
        var_names(s1) is Some && var_names(s2) is Some ==> var_names(
            Stmt::Block(
                List::Cons(Box::new(s1), Box::new(List::Cons(Box::new(s2), Box::new(List::Nil)))),
            ),
        ) == Some(var_names(s1)->Some_0 + var_names(s2)->Some_0),
        var_names(s1) is Some && var_names(s2) is Some ==> var_names(
            Stmt::If(Box::new(crate::ast::If { cond, iftrue: s1, else_: Some(s2) })),
        ) == Some(var_names(s1)->Some_0 + var_names(s2)->Some_0),
        var_names(s1) is Some && var_names(s2) is Some && var_names(s3) is Some ==> var_names(
            Stmt::Try(
                Box::new(
                    crate::ast::Try {
                        block: s1,
                        catch: Some((BindingPattern::Name(x), s2)),
                        finally: Some(s3),
                    },
                ),
            ),
        ) == Some(var_names(s1)->Some_0 + (seq![x] + var_names(s2)->Some_0) + var_names(s3)->Some_0),
{
    if let (Some(a), Some(b)) = (var_names(s1), var_names(s2)) {
        let l2 = List::Cons(Box::new(s2), Box::new(List::<Stmt>::Nil));
        assert(stmt_list_names(List::<Stmt>::Nil) == none_declared());
        assert(stmt_list_names(l2) == join(var_names(s2), none_declared()));
        assert(b + Seq::<Symbol>::empty() =~= b);
        assert(opt_names(Some(s2)) == var_names(s2));
        let l1 = List::Cons(Box::new(s1), Box::new(l2));
        assert(stmt_list_names(l1) == join(var_names(s1), stmt_list_names(l2)));
        assert(stmt_list_names(l1) == Some(a + b));
        assert(var_names(Stmt::Block(l1)) == Some(a + b));
        let i = crate::ast::If { cond, iftrue: s1, else_: Some(s2) };
        assert(var_names(Stmt::If(Box::new(i))) == join(var_names(s1), opt_names(Some(s2))));
    }
    if let (Some(a), Some(b), Some(c)) = (var_names(s1), var_names(s2), var_names(s3)) {
        assert(opt_names(Some(s3)) == var_names(s3));
        let p = BindingPattern::Name(x);
        assert(catch_names(Some((p, s2))) == join(pattern_names(p), var_names(s2)));
        lemma_append_assoc(a, seq![x] + b, c);
    }
}

/// Bindings of the enclosing scopes shadow the globals: where the chain of
/// scopes binds a name, the name refers to that binding, whatever the
/// globals hold; only a name that no scope binds is looked up among them.
pub proof fn lemma_locals_shadow_globals(env: Env, globals: Scope, name: Seq<char>)
    ensures
        env_resolve(env, name) is Some ==> resolution(env, globals, name) == env_resolve(env, name),
        lookup(env.scope.bindings, name) is Some ==> resolution(env, globals, name) == lookup(
            env.scope.bindings,
            name,
        ),
        env_resolve(env, name) is None ==> resolution(env, globals, name) == lookup(
            globals.bindings,
            name,
        ),
{
}

/// The names a statement declares do not change when it is made the body
/// of a `while` or a `do`-`while` loop, given a label, made the only
/// statement of a block, or made the branch of an `if` without `else`:
/// none of these declares anything itself.
pub proof fn lemma_wrapping_declares_nothing(s: Stmt, cond: crate::ast::Expr, label: String)
    ensures
        var_names(Stmt::While(Box::new(crate::ast::While { cond, body: s }))) == var_names(s),
        var_names(Stmt::DoWhile(Box::new(crate::ast::While { cond, body: s }))) == var_names(s),
        var_names(Stmt::Label(Box::new(crate::ast::Label { label, stmt: s }))) == var_names(s),
        var_names(Stmt::Block(List::Cons(Box::new(s), Box::new(List::Nil)))) == var_names(s),
        var_names(Stmt::If(Box::new(crate::ast::If { cond, iftrue: s, else_: None })))
            == var_names(s),
{
    let b = List::Cons(Box::new(s), Box::new(List::<Stmt>::Nil));
    assert(stmt_list_names(List::<Stmt>::Nil) == none_declared());
    assert(stmt_list_names(b) == join(var_names(s), none_declared()));
    assert(opt_names(None) == none_declared());
    if let Some(x) = var_names(s) {
        assert(x + Seq::<Symbol>::empty() =~= x);
    }
}

impl<'a> Visit<'a> {
    /// Resolves `sym` to the binding its name refers to: in `env`, else
    /// among the globals, else, where `create_global` is set, in a new
    /// global binding made for it.  Says whether the name was resolved;
    /// where it was not, nothing changes.
    pub fn resolve<'e>(&mut self, env: &Env<'e>, sym: &mut Symbol, create_global: bool) -> (found: bool)
        ensures
            final(self).all_syms == old(self).all_syms,
            env_resolve(*env, old(sym).name@) matches Some(s) ==> found && *final(sym) == s,
            resolution(*env, *old(self).globals, old(sym).name@) matches Some(s) ==> {
                &&& found
                &&& *final(sym) == s
                &&& *final(self).globals == *old(self).globals
            },
            resolution(*env, *old(self).globals, old(sym).name@) is None ==> {
                &&& found == create_global
                &&& create_global ==> final(sym).name == old(sym).name && !final(sym).renameable
                &&& create_global ==> *final(sym) == global_sym(old(sym).name)
                    && final(self).globals.bindings.elems() == old(
                    self,
                ).globals.bindings.elems().push(global_sym(old(sym).name))
                &&& !create_global ==> *final(sym) == *old(sym) && *final(self).globals == *old(
                    self,
                ).globals
            },
    {
        if let Some(new) = env.resolve(sym) {
            *sym = new;
            return true;
        }
        if let Some(new) = self.globals.resolve(sym) {
            *sym = new;
            return true;
        }
        if create_global {
            let new = Symbol { name: sym.name.clone(), renameable: false };
            let mut bindings = List::Nil;
            core::mem::swap(&mut bindings, &mut self.globals.bindings);
            let mut all = bindings.into_vec();
            all.push(new.copy());
            self.globals.bindings = List::from_vec(all);
            proof {
                List::lemma_elems_from_seq(all@);
            }
            *sym = new;
            return true;
        }
        false
    }
}

} // verus!
