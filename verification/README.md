# rustier

The verified core of a library that exchanges values with R.

- `src/internals/sexpr.rs` — the header word of an R object (its kind and
  flags, read bit by bit), a model of R objects as plain values (`Sexpr`,
  with links held as addresses), and the decisions shared by the conversions:
  how an object is classified against an expected kind and how it is printed.
- `src/internals/c.rs` — the NA markers of R's atomic types.
- `src/internals/text.rs` — decimal and boolean text, for printed headers and
  error messages.
- `src/interface_traits.rs`, `src/interface.rs` — the conversion traits.
- `src/r_types/` — integer, logical, double and character vectors, their
  elements, and the conversions of each to and from R objects.
- `src/macros/call.rs` — the control flow of a function exported to R:
  arguments converted in order, the first failure reported, then the call.
- `src/macros/errors.rs` — the messages a function exported to R reports.
- `src/laws.rs` — properties that span several functions, chiefly that what a
  conversion into R writes reads back unchanged.
- `app/` — the unverified layer: the C layout of R objects, libR's entry
  points, copying R memory into the model and back, and printing.
