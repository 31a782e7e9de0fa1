//! What the C interface computes: the conversion of dplyr code to DuckDB
//! SQL, and the messages it hands back.  Moving strings across the C
//! boundary is left to the program around the library.

use crate::error::{generation_message, lex_message, parse_message, TranspileErrorOf};
use crate::sql_generator::DuckDbDialect;
use crate::text::string_of_str;
use crate::{transpile_spec, Transpiler};
use vstd::prelude::*;
use vstd::string::*;

verus! {

/// The message of a conversion error as the C interface reports it.
pub open spec fn c_error_message(e: TranspileErrorOf<Seq<char>>) -> Seq<char> {
    "DPLYR-TRANSPILE: "@ + match e {
        TranspileErrorOf::LexError(l) => "Lexical error: "@ + lex_message(l),
        TranspileErrorOf::ParseError(p) => "Parse error: "@ + parse_message(p),
        TranspileErrorOf::GenerationError(g) => "Generation error: "@ + generation_message(g),
        TranspileErrorOf::IoError(s) => "I/O error: "@ + s,
        TranspileErrorOf::ValidationError(s) => "Validation error: "@ + s,
        TranspileErrorOf::ConfigurationError(s) => "Configuration error: "@ + s,
        TranspileErrorOf::SystemError(s) => "System error: "@ + s,
    }
}

/// What the C interface answers for `code` and `dialect`: DuckDB SQL, or
/// the message of an unsupported dialect or of a failed conversion.
pub open spec fn c_transpile_spec(code: Seq<char>, dialect: Seq<char>) -> Result<Seq<char>, Seq<char>> {
    if dialect != "duckdb"@ {
        Err("Unsupported dialect: "@ + dialect)
    } else {
        match transpile_spec(&DuckDbDialect, code) {
            Ok(sql) => Ok(sql),
            Err(e) => Err(c_error_message(e)),
        }
    }
}

/// The message of a conversion error as the C interface reports it.
pub fn c_error_text(error: &TranspileErrorOf<String>) -> (r: String)
    ensures
        r@ == c_error_message(error@),
{
    let mut out = string_of_str("DPLYR-TRANSPILE: ");
    match error {
        TranspileErrorOf::LexError(e) => {
            out.append("Lexical error: ");
            out.append(e.to_string().as_str());
        },
        TranspileErrorOf::ParseError(e) => {
            out.append("Parse error: ");
            out.append(e.to_string().as_str());
        },
        TranspileErrorOf::GenerationError(e) => {
            out.append("Generation error: ");
            out.append(e.to_string().as_str());
        },
        TranspileErrorOf::IoError(s) => {
            out.append("I/O error: ");
            out.append(s.as_str());
        },
        TranspileErrorOf::ValidationError(s) => {
            out.append("Validation error: ");
            out.append(s.as_str());
        },
        TranspileErrorOf::ConfigurationError(s) => {
            out.append("Configuration error: ");
            out.append(s.as_str());
        },
        TranspileErrorOf::SystemError(s) => {
            out.append("System error: ");
            out.append(s.as_str());
        },
    }
    out
}

/// Converts dplyr code for the C interface: only the `duckdb` dialect is
/// supported; the SQL, or the message of what went wrong.
pub fn transpile_for_c(dplyr_src: &str, dialect: &str) -> (r: Result<String, String>)
    ensures
        match r {
            Ok(s) => c_transpile_spec(dplyr_src@, dialect@) == Ok::<Seq<char>, Seq<char>>(s@),
            Err(m) => c_transpile_spec(dplyr_src@, dialect@) == Err::<Seq<char>, Seq<char>>(m@),
        },
{
    if !crate::text::str_eq(dialect, "duckdb") {
        let mut m = string_of_str("Unsupported dialect: ");
        m.append(dialect);
        return Err(m);
    }
    let transpiler = Transpiler::new(Box::new(DuckDbDialect::new()));
    match transpiler.transpile(dplyr_src) {
        Ok(sql) => Ok(sql),
        Err(e) => Err(c_error_text(&e)),
    }
}

} // verus!
