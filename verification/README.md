# jsparse

A parser for a subset of JavaScript, verified with Verus.

- `src/lex.rs`: the token stream the parser reads (tokens, a cursor over
  them), and the line and column of a source offset.
- `src/ops.rs`: unary and binary operators.
- `src/ast.rs`, `src/list.rs`: the syntax tree.
- `src/grammar.rs`: the grammar as specification functions over token
  cursors.
- `src/parse.rs`: the recursive-descent parser, proved to compute the
  grammar exactly.
- `src/eval.rs`: the names that statements declare, and name resolution
  through nested scopes.
- `app/lib.rs`: printing a parse error with its source line.
