# can-dbc

A reader for CAN databases (DBC files), written in Verus.

`DBC::from_slice` reads the bytes of a DBC file. Its contract states the
result in terms of `dbc::dbc`, a spec function that describes the format:
the version line, the new symbols, the optional bit timing, then each kind of
statement (nodes, value tables, messages with their signals, transmitters,
environment variables, signal types, comments, attribute definitions,
defaults and values, value descriptions, signal type references, signal
groups, extended value types), each kind as often as it occurs, in that order.

Layout of `src/`:

- `lexer.rs`: bytes, blanks, identifiers, quoted strings, numbers.
- `keyword.rs`: the keywords of the format.
- `combinator.rs`: the `Grammar` trait, repetition and separated lists.
- `grammar.rs`: one rule per kind of statement.
- `types.rs`: the content of a database and its model.
- `dbc.rs`: the database, `from_slice`, and the comment and value lookups.
- `text.rs`: turning bytes into text.

Numbers that the file writes as decimal fractions (factors, offsets, limits,
initial and raw values) are kept as their exact text. `app/` holds copies of
the types with these numbers as `f64`, serializable with serde, and
conversions in both directions.
