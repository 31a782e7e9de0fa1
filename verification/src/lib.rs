//! Transpiler from R dplyr pipelines to SQL.
//!
//! The text is tokenized (`lexer`), parsed into an AST (`parser`) and turned
//! into a query of one SQL dialect (`sql_generator`).  Each stage is proved
//! against a specification of what it computes, and `Transpiler` joins them.

pub mod error;
pub mod lexer;
pub mod parser;
pub mod performance;
pub mod pipe_syntax;
pub mod sql_generator;
pub mod quoting;
pub mod clean_input;
pub mod query_laws;
pub mod text;
pub mod cli;
pub mod clock;
pub mod c_api;

pub use crate::error::{GenerationError, LexError, ParseError, TranspileError};
pub use crate::lexer::{Lexer, Token};
pub use crate::parser::{DplyrNode, DplyrOperation, Parser};
pub use crate::sql_generator::{
    DialectConfig, DuckDbDialect, MySqlDialect, PostgreSqlDialect, SqlDialect, SqlGenerator,
    SqliteDialect,
};

use crate::error::{GenerationErrorOf, ParseErrorOf, TranspileErrorOf};
use crate::parser::{
    loc, parse_source, spec_parse_column_expr, spec_parse_columns_rest, spec_parse_operations_rest,
    spec_parse_select, token_stream, SpecColumnExpr, SpecExpr, SpecNode, SpecOperation,
    SpecParseError,
};
use crate::clean_input::law_quote_free_code_parses_quote_free;
use crate::quoting::{lemma_quote_free_aggregates_ascii, quote_free, swap_quotes};
use crate::sql_generator::{
    apply_operation, apply_operations, assemble_sql, columns_sql, empty_parts, generate_spec,
    generation_view,
};
use crate::lexer::{ident_end, keyword_token, lex_from, lex_step, skip_ws, SpecLexError, SpecToken, TokenOf};
use crate::text::{join, string_of_str};
use vstd::prelude::*;

verus! {

/// The conversion error of a parsing failure: a failure to tokenize is a
/// lexing error, any other failure a parsing error.
pub open spec fn parse_failure_spec(e: ParseErrorOf<Seq<char>>) -> TranspileErrorOf<Seq<char>> {
    match e {
        ParseErrorOf::LexError(l) => TranspileErrorOf::LexError(l),
        _ => TranspileErrorOf::ParseError(e),
    }
}

/// The conversion error of a parsing failure: a failure to tokenize is a
/// lexing error, any other failure a parsing error.
pub fn parse_failure(e: ParseError) -> (r: TranspileError)
    ensures
        r@ == parse_failure_spec(e@),
{
    match e {
        ParseErrorOf::LexError(l) => TranspileErrorOf::LexError(l),
        other => TranspileErrorOf::ParseError(other),
    }
}

/// What converting the dplyr code `code` yields with dialect `d`: the
/// lexing or parsing error, or the generation error, or the query.
pub open spec fn transpile_spec<D: SqlDialect + ?Sized>(d: &D, code: Seq<char>) -> Result<
    Seq<char>,
    TranspileErrorOf<Seq<char>>,
> {
    match parse_source(code) {
        Err(e) => Err(parse_failure_spec(e)),
        Ok(node) => match generate_spec(d, node) {
            Err(g) => Err(TranspileErrorOf::GenerationError(g)),
            Ok(sql) => Ok(sql),
        },
    }
}

/// Conversion fails only in parsing: code that parses converts to SQL in
/// every dialect, and the query is the generation of the parsed tree.
pub proof fn law_parsed_code_converts<D: SqlDialect + ?Sized>(d: &D, code: Seq<char>)
    requires
        parse_source(code) is Ok,
    ensures
        transpile_spec(d, code) is Ok,
        generate_spec(d, parse_source(code)->Ok_0) == Ok::<Seq<char>, GenerationErrorOf<Seq<char>>>(
            transpile_spec(d, code)->Ok_0,
        ),
{
    crate::parser::law_parsed_pipelines_are_not_empty(code);
}

/// The dialect decides only the text of the query: whether conversion
/// succeeds, and the error when it fails, are the same in every dialect.
pub proof fn law_errors_do_not_depend_on_dialect<A: SqlDialect + ?Sized, B: SqlDialect + ?Sized>(
    a: &A,
    b: &B,
    code: Seq<char>,
)
    ensures
        transpile_spec(a, code) is Ok <==> transpile_spec(b, code) is Ok,
        transpile_spec(a, code) is Err ==> transpile_spec(a, code) == transpile_spec(b, code),
{
    if parse_source(code) is Ok {
        law_parsed_code_converts(a, code);
        law_parsed_code_converts(b, code);
    }
}

/// SQLite converts every code as PostgreSQL does.
pub proof fn law_sqlite_converts_as_postgres(code: Seq<char>)
    ensures
        transpile_spec(&SqliteDialect, code) == transpile_spec(&PostgreSqlDialect, code),
{
    match parse_source(code) {
        Ok(node) => crate::sql_generator::law_postgres_and_sqlite_agree(node),
        Err(_) => {},
    }
}

/// DuckDB converts every code without a double quote as PostgreSQL does.
pub proof fn law_duckdb_converts_as_postgres(code: Seq<char>)
    requires
        quote_free(code),
    ensures
        transpile_spec(&DuckDbDialect, code) == transpile_spec(&PostgreSqlDialect, code),
{
    law_quote_free_code_parses_quote_free(code);
    match parse_source(code) {
        Ok(node) => {
            lemma_quote_free_aggregates_ascii(node);
            crate::sql_generator::law_duckdb_agrees_with_postgres(node);
        },
        Err(_) => {},
    }
}

/// MySQL converts every code without a double quote to PostgreSQL's query
/// with each double quote turned into a backtick, and fails on it exactly
/// as PostgreSQL does.
pub proof fn law_mysql_converts_with_backticks(code: Seq<char>)
    requires
        quote_free(code),
    ensures
        transpile_spec(&MySqlDialect, code) == match transpile_spec(&PostgreSqlDialect, code) {
            Ok(sql) => Ok(swap_quotes(sql)),
            Err(e) => Err(e),
        },
{
    law_quote_free_code_parses_quote_free(code);
    match parse_source(code) {
        Ok(node) => crate::quoting::law_mysql_is_postgres_with_backticks(node),
        Err(_) => {},
    }
}

/// `select(name)` converts, in every dialect, to the query that selects the
/// quoted `name` from the quoted `data` table.
pub proof fn law_select_one_column<D: SqlDialect + ?Sized>(d: &D)
    ensures
        transpile_spec(d, "select(name)"@) == Ok::<Seq<char>, TranspileErrorOf<Seq<char>>>(
            "SELECT "@ + d.quoted_identifier("name"@) + "\nFROM "@ + d.quoted_identifier("data"@),
        ),
{
    lemma_select_name_tokens();
    let ts = token_stream("select(name)"@);
    let col = SpecColumnExpr { expr: SpecExpr::Identifier("name"@), alias: None };
    assert(spec_parse_column_expr(ts, 2) == Ok::<(SpecColumnExpr, nat), SpecParseError>((col, 3nat)));
    assert(spec_parse_columns_rest(ts, seq![col], 3) == Ok::<(Seq<SpecColumnExpr>, nat), SpecParseError>((seq![col], 3nat)));
    let op = SpecOperation::Select { columns: seq![col], location: loc(ts, 0) };
    assert(spec_parse_select(ts, 0) == Ok::<(SpecOperation, nat), SpecParseError>((op, 4nat)));
    assert(spec_parse_operations_rest(ts, seq![op], 4) == Ok::<(Seq<SpecOperation>, nat), SpecParseError>((seq![op], 4nat)));
    let node = SpecNode::Pipeline { operations: seq![op], location: loc(ts, 0) };
    assert(parse_source("select(name)"@) == Ok::<SpecNode, SpecParseError>(node));
    let ops = seq![op];
    assert(ops.drop_last() =~= Seq::<SpecOperation>::empty());
    let parts = apply_operations(d, empty_parts(), ops);
    assert(apply_operations(d, empty_parts(), ops.drop_last())
        == empty_parts());
    assert(parts == apply_operation(d, empty_parts(), op));
    assert(columns_sql(d, seq![col]) =~= seq![d.quoted_identifier("name"@)]);
    assert(parts.select_columns =~= seq![d.quoted_identifier("name"@)]);
    assert(join(parts.select_columns, ", "@) == d.quoted_identifier("name"@));
    assert(parts.where_clauses.len() == 0);
    assert(parts.group_by.len() == 0);
    assert(parts.order_by.len() == 0);
    assert(assemble_sql(d, parts) == "SELECT "@ + d.quoted_identifier("name"@) + "\nFROM "@
        + d.quoted_identifier("data"@));
    assert(generate_spec(d, node) == Ok::<Seq<char>, GenerationErrorOf<Seq<char>>>(assemble_sql(d, parts)));
}

/// The tokens of `select(name)`.
proof fn lemma_select_name_tokens()
    ensures
        token_stream("select(name)"@).toks == seq![
            TokenOf::<Seq<char>>::Select,
            TokenOf::LeftParen,
            TokenOf::Identifier("name"@),
            TokenOf::RightParen,
            TokenOf::EOF,
        ],
        token_stream("select(name)"@).err is None,
{
    let s = "select(name)"@;
    reveal_strlit("select(name)");
    reveal_strlit("select");
    reveal_strlit("name");
    assert(s.len() == 12);
    assert(ident_end(s, 6) == 6);
    assert(ident_end(s, 5) == 6);
    assert(ident_end(s, 4) == 6);
    assert(ident_end(s, 3) == 6);
    assert(ident_end(s, 2) == 6);
    assert(ident_end(s, 1) == 6);
    assert(ident_end(s, 0) == 6);
    assert(s.subrange(0, 6) =~= "select"@);
    assert(ident_end(s, 11) == 11);
    assert(ident_end(s, 10) == 11);
    assert(ident_end(s, 9) == 11);
    assert(ident_end(s, 8) == 11);
    assert(ident_end(s, 7) == 11);
    assert(s.subrange(7, 11) =~= "name"@);
    assert(keyword_token("name"@) == TokenOf::<Seq<char>>::Identifier("name"@)) by {
        lemma_name_is_no_keyword();
    }
    assert(skip_ws(s, 0) == 0);
    assert(skip_ws(s, 6) == 6);
    assert(skip_ws(s, 7) == 7);
    assert(skip_ws(s, 11) == 11);
    assert(skip_ws(s, 12) == 12);
    assert(lex_step(s, 12) == (Ok::<SpecToken, SpecLexError>(TokenOf::EOF), 12nat));
    assert(lex_step(s, 11) == (Ok::<SpecToken, SpecLexError>(TokenOf::RightParen), 12nat));
    assert(lex_step(s, 7) == (Ok::<SpecToken, SpecLexError>(TokenOf::Identifier("name"@)), 11nat));
    assert(lex_step(s, 6) == (Ok::<SpecToken, SpecLexError>(TokenOf::LeftParen), 7nat));
    assert(lex_step(s, 0) == (Ok::<SpecToken, SpecLexError>(TokenOf::Select), 6nat));
    assert(lex_from(s, 12) == (seq![TokenOf::<Seq<char>>::EOF], None::<SpecLexError>));
    assert(lex_from(s, 11).0 =~= seq![TokenOf::<Seq<char>>::RightParen, TokenOf::EOF]);
    assert(lex_from(s, 7).0 =~= seq![TokenOf::<Seq<char>>::Identifier("name"@), TokenOf::RightParen, TokenOf::EOF]);
    assert(lex_from(s, 6).0 =~= seq![TokenOf::<Seq<char>>::LeftParen, TokenOf::Identifier("name"@), TokenOf::RightParen, TokenOf::EOF]);
    assert(lex_from(s, 0).0 =~= seq![
        TokenOf::<Seq<char>>::Select,
        TokenOf::LeftParen,
        TokenOf::Identifier("name"@),
        TokenOf::RightParen,
        TokenOf::EOF,
    ]);
}

/// `name` is no keyword.
proof fn lemma_name_is_no_keyword()
    ensures
        keyword_token("name"@) == TokenOf::<Seq<char>>::Identifier("name"@),
{
    reveal_strlit("name");
    reveal_strlit("select");
    reveal_strlit("filter");
    reveal_strlit("mutate");
    reveal_strlit("rename");
    reveal_strlit("arrange");
    reveal_strlit("group_by");
    reveal_strlit("summarise");
    reveal_strlit("summarize");
    reveal_strlit("inner_join");
    reveal_strlit("left_join");
    reveal_strlit("right_join");
    reveal_strlit("full_join");
    reveal_strlit("semi_join");
    reveal_strlit("anti_join");
    reveal_strlit("intersect");
    reveal_strlit("union");
    reveal_strlit("setdiff");
    reveal_strlit("desc");
    reveal_strlit("asc");
    reveal_strlit("TRUE");
    reveal_strlit("true");
    reveal_strlit("FALSE");
    reveal_strlit("false");
    reveal_strlit("NULL");
    reveal_strlit("null");
    reveal_strlit("NA");
    let n = "name"@;
    assert(n[0] == 'n' && n[1] == 'a');
    assert(n != "desc"@ && n != "TRUE"@ && n != "true"@ && n != "NULL"@ && n != "null"@) by {
        assert("desc"@[0] != n[0]);
        assert("TRUE"@[0] != n[0]);
        assert("true"@[0] != n[0]);
        assert("NULL"@[0] != n[0]);
        assert("null"@[1] != n[1]);
    }
}

/// The view of a conversion result.
pub open spec fn transpile_view(r: Result<String, TranspileError>) -> Result<Seq<char>, TranspileErrorOf<Seq<char>>> {
    match r {
        Ok(s) => Ok(s@),
        Err(e) => Err(e@),
    }
}

/// The view of a parsing result.
pub open spec fn parse_view(r: Result<DplyrNode, ParseError>) -> Result<SpecNode, ParseErrorOf<Seq<char>>> {
    match r {
        Ok(n) => Ok(n@),
        Err(e) => Err(e@),
    }
}

/// Main transpiler: converts dplyr code to SQL of one dialect.
pub struct Transpiler<D: SqlDialect + ?Sized = dyn SqlDialect> {
    generator: SqlGenerator<D>,
}

impl<D: SqlDialect + ?Sized> Transpiler<D> {
    /// The dialect the transpiler generates SQL for.
    pub closed spec fn dialect_spec(&self) -> &D {
        self.generator.dialect_spec()
    }

    /// Creates a transpiler for `dialect`.
    pub fn new(dialect: Box<D>) -> (t: Self)
        ensures
            t.dialect_spec() == &*dialect,
    {
        Transpiler { generator: SqlGenerator::new(dialect) }
    }

    /// Converts dplyr code to SQL: tokenizing, parsing and generating.
    pub fn transpile(&self, dplyr_code: &str) -> (r: Result<String, TranspileError>)
        ensures
            transpile_view(r) == transpile_spec(self.dialect_spec(), dplyr_code@),
    {
        let ast = match self.parse_dplyr(dplyr_code) {
            Ok(a) => a,
            Err(e) => {
                return Err(parse_failure(e));
            },
        };
        match self.generate_sql(&ast) {
            Ok(sql) => Ok(sql),
            Err(g) => Err(TranspileErrorOf::GenerationError(g)),
        }
    }

    /// Parses dplyr code into its AST.
    pub fn parse_dplyr(&self, code: &str) -> (r: Result<DplyrNode, ParseError>)
        ensures
            parse_view(r) == parse_source(code@),
    {
        let lexer = Lexer::new(string_of_str(code));
        let mut parser = match Parser::new(lexer) {
            Ok(p) => p,
            Err(e) => {
                return Err(e);
            },
        };
        parser.parse()
    }

    /// Converts an AST to SQL with the transpiler's dialect.
    pub fn generate_sql(&self, ast: &DplyrNode) -> (r: Result<String, GenerationError>)
        ensures
            generation_view(r) == generate_spec(self.dialect_spec(), ast@),
    {
        self.generator.generate(ast)
    }
}

} // verus!
