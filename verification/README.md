# libdplyr

Converts R dplyr pipelines (`select`, `filter`, `mutate`, `arrange`,
`group_by`, `summarise`, joined with `%>%`) to SQL for PostgreSQL, MySQL,
SQLite and DuckDB, with a command-line program around it.

## Layout

- `src/` is the library, verified with Verus.
  - `text.rs`: character-sequence routines (replace, trim, lines, words,
    join, decimal rendering) and their specifications.
  - `lexer.rs`, `parser.rs`: tokens and the recursive-descent grammar, each
    step proved equal to a specification of what it yields.
  - `sql_generator.rs`: the dialects and the generation of queries.
  - `quoting.rs`: how MySQL's queries relate to PostgreSQL's.
  - `clean_input.rs`: source text without double quotes parses to an AST
    without them.
  - `lib.rs`: `Transpiler`, which joins the stages.
  - `cli/`: configuration, validation, output formatting, error reports,
    JSON metadata and the processing pipeline of the command line.
  - `performance.rs`, `pipe_syntax.rs`, `c_api.rs`, `clock.rs`, `error.rs`.
- `tests/`: the test suite.
- `app/`: the program: argument parsing, reading and writing, signals,
  terminal colours, JSON serialisation, floating-point statistics and the C
  interface.

Laws that hold across functions are stated as public proof functions whose
names begin with `law_`.
