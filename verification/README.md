# aex

A toolkit for an assembler-like language aimed at embedded targets (the
ColdFire MCF5307 first), written in Verus.  The library's functions carry contracts that Verus
proves, with one exception: the small wrappers around standard-library
calls (byte-order conversions, `char::from_u32`, `std::ptr::eq`, appending
to a `String`) are marked
`#[verifier::external_body]`.  Verus believes their contracts without proof;
each one's doc comment names the call and says what its contract claims.

Layout of `src/`:

- `source`, `pos`: source files, positions and spans.
- `mem`: the string interner; `ptr`, `util`: small pointers and utilities
  (borrow-or-box, byte order, mapping over arrays, text building).
- `token`: the lexer's tokens and the builder that accumulates them.
- `ast`, `parser`: the syntax tree and the precedence-climbing parser.
- `operator`: operators and their table, and target operations.
- `types`: type expressions, integer layouts, forms, resolution of types
  (`res`) and definition of a program's types (`define`).
- `codegen`, `targets`, `value`, `assembly`: what code generation needs:
  operand types, the MCF5307's instruction checks, the instructions it
  writes and the errors it logs, values, and assembly text.

`app/` holds what reads files and converts arbitrary-precision integers.
