//! Configuration of a command-line run: the arguments, the dialect, the
//! processing mode and output format they select, and the decisions the
//! processing pipeline takes on validation results and errors.

use crate::cli::debug_logger::DebugLogger;
use crate::cli::error_handler::{handled_error_info, opt_text, ErrorHandler, ExitCode};
use crate::cli::json_output::JsonOutputFormatter;
use crate::cli::output_formatter::{format_spec, FormatErrorOf, OutputFormat, OutputFormatter};
use crate::cli::validator::{
    result_matches, validate_outcome, DplyrValidator, ValidateResult, ValidationErrorInfo,
};
use crate::sql_generator::{law_queries_select_from_data, law_same_sql_for_equivalent_dialects};
use crate::text::lemma_not_blank;
use crate::{transpile_spec, Transpiler};
use crate::error::{TranspileError, TranspileErrorOf};
use crate::sql_generator::{DuckDbDialect, MySqlDialect, PostgreSqlDialect, SqlDialect, SqliteDialect};
use crate::text::{lower_text, str_eq, string_of_str, strings_view, to_lowercase};
use vstd::prelude::*;
use vstd::string::*;

verus! {

/// Supported SQL dialect types.
#[derive(Debug, Clone, Copy, PartialEq, Eq, Structural)]
pub enum SqlDialectType {
    PostgreSql,
    MySql,
    Sqlite,
    DuckDb,
}

/// The name of a dialect type.
pub open spec fn dialect_name(d: SqlDialectType) -> Seq<char> {
    match d {
        SqlDialectType::PostgreSql => "postgresql"@,
        SqlDialectType::MySql => "mysql"@,
        SqlDialectType::Sqlite => "sqlite"@,
        SqlDialectType::DuckDb => "duckdb"@,
    }
}

/// The dialect type a lower-cased name selects, if any.
pub open spec fn dialect_of_lower(l: Seq<char>) -> Option<SqlDialectType> {
    if l == "postgresql"@ || l == "postgres"@ || l == "pg"@ {
        Some(SqlDialectType::PostgreSql)
    } else if l == "mysql"@ {
        Some(SqlDialectType::MySql)
    } else if l == "sqlite"@ {
        Some(SqlDialectType::Sqlite)
    } else if l == "duckdb"@ || l == "duck"@ {
        Some(SqlDialectType::DuckDb)
    } else {
        None
    }
}

/// What parsing a dialect name yields: the dialect its lower-cased form
/// names, or the error message.
pub open spec fn parse_dialect_spec(s: Seq<char>) -> Result<SqlDialectType, Seq<char>> {
    match dialect_of_lower(lower_text(s)) {
        Some(d) => Ok(d),
        None => Err("Unsupported SQL dialect: "@ + s),
    }
}

impl SqlDialectType {
    /// The name of this dialect type.
    pub fn to_string(&self) -> (r: String)
        ensures
            r@ == dialect_name(*self),
    {
        match self {
            SqlDialectType::PostgreSql => string_of_str("postgresql"),
            SqlDialectType::MySql => string_of_str("mysql"),
            SqlDialectType::Sqlite => string_of_str("sqlite"),
            SqlDialectType::DuckDb => string_of_str("duckdb"),
        }
    }

    /// Parses a dialect name, case-insensitively, with its aliases.
    pub fn parse_name(s: &str) -> (r: Result<SqlDialectType, String>)
        ensures
            match r {
                Ok(d) => parse_dialect_spec(s@) == Ok::<SqlDialectType, Seq<char>>(d),
                Err(m) => parse_dialect_spec(s@) == Err::<SqlDialectType, Seq<char>>(m@),
            },
    {
        let lower = to_lowercase(s);
        let l = lower.as_str();
        if str_eq(l, "postgresql") || str_eq(l, "postgres") || str_eq(l, "pg") {
            Ok(SqlDialectType::PostgreSql)
        } else if str_eq(l, "mysql") {
            Ok(SqlDialectType::MySql)
        } else if str_eq(l, "sqlite") {
            Ok(SqlDialectType::Sqlite)
        } else if str_eq(l, "duckdb") || str_eq(l, "duck") {
            Ok(SqlDialectType::DuckDb)
        } else {
            let mut m = string_of_str("Unsupported SQL dialect: ");
            m.append(s);
            Err(m)
        }
    }
}

impl std::str::FromStr for SqlDialectType {
    type Err = String;

    fn from_str(s: &str) -> (r: Result<Self, Self::Err>)
        ensures
            match r {
                Ok(d) => parse_dialect_spec(s@) == Ok::<SqlDialectType, Seq<char>>(d),
                Err(m) => parse_dialect_spec(s@) == Err::<SqlDialectType, Seq<char>>(m@),
            },
    {
        SqlDialectType::parse_name(s)
    }
}

/// A dialect instance for a dialect type.
///
/// Its result, a `Box<dyn SqlDialect>`, carries no postcondition: what the
/// boxed dialect does is left unstated here.  `transpiler_for` builds the
/// same dialect in place and states that the transpiler acts as the dialect
/// of `dialect_type`.
pub fn create_dialect(dialect_type: &SqlDialectType) -> Box<dyn SqlDialect> {
    match dialect_type {
        SqlDialectType::PostgreSql => Box::new(PostgreSqlDialect::new()),
        SqlDialectType::MySql => Box::new(MySqlDialect::new()),
        SqlDialectType::Sqlite => Box::new(SqliteDialect::new()),
        SqlDialectType::DuckDb => Box::new(DuckDbDialect::new()),
    }
}

/// `d` behaves as the dialect of type `t` in every respect that generated
/// SQL depends on.
pub open spec fn acts_as<D: SqlDialect + ?Sized>(d: &D, t: SqlDialectType) -> bool {
    match t {
        SqlDialectType::PostgreSql => same_dialect(d, &PostgreSqlDialect),
        SqlDialectType::MySql => same_dialect(d, &MySqlDialect),
        SqlDialectType::Sqlite => same_dialect(d, &SqliteDialect),
        SqlDialectType::DuckDb => same_dialect(d, &DuckDbDialect),
    }
}

/// Two dialects quote identifiers and strings and name aggregates alike.
pub open spec fn same_dialect<A: SqlDialect + ?Sized, B: SqlDialect + ?Sized>(a: &A, b: &B) -> bool {
    &&& forall|n: Seq<char>| #[trigger] a.quoted_identifier(n) == b.quoted_identifier(n)
    &&& forall|n: Seq<char>| #[trigger] a.quoted_string(n) == b.quoted_string(n)
    &&& forall|n: Seq<char>| #[trigger] a.aggregate_name(n) == b.aggregate_name(n)
}

/// What converting `code` yields for the dialect of type `t`.
pub open spec fn transpile_for_type(t: SqlDialectType, code: Seq<char>) -> Result<Seq<char>, TranspileErrorOf<Seq<char>>> {
    match t {
        SqlDialectType::PostgreSql => transpile_spec(&PostgreSqlDialect, code),
        SqlDialectType::MySql => transpile_spec(&MySqlDialect, code),
        SqlDialectType::Sqlite => transpile_spec(&SqliteDialect, code),
        SqlDialectType::DuckDb => transpile_spec(&DuckDbDialect, code),
    }
}

/// A dialect that acts as the dialect of type `t` converts every input as
/// that dialect does.
pub proof fn law_dialect_type_fixes_sql<D: SqlDialect + ?Sized>(d: &D, t: SqlDialectType, code: Seq<char>)
    requires
        acts_as(d, t),
    ensures
        transpile_spec(d, code) == transpile_for_type(t, code),
{
    match crate::parser::parse_source(code) {
        Ok(node) => match t {
            SqlDialectType::PostgreSql => law_same_sql_for_equivalent_dialects(d, &PostgreSqlDialect, node),
            SqlDialectType::MySql => law_same_sql_for_equivalent_dialects(d, &MySqlDialect, node),
            SqlDialectType::Sqlite => law_same_sql_for_equivalent_dialects(d, &SqliteDialect, node),
            SqlDialectType::DuckDb => law_same_sql_for_equivalent_dialects(d, &DuckDbDialect, node),
        },
        Err(_) => {},
    }
}

/// A transpiler for a dialect type.
pub fn transpiler_for(dialect_type: &SqlDialectType) -> (t: Transpiler)
    ensures
        acts_as(t.dialect_spec(), *dialect_type),
{
    match dialect_type {
        SqlDialectType::PostgreSql => Transpiler::new(Box::new(PostgreSqlDialect::new())),
        SqlDialectType::MySql => Transpiler::new(Box::new(MySqlDialect::new())),
        SqlDialectType::Sqlite => Transpiler::new(Box::new(SqliteDialect::new())),
        SqlDialectType::DuckDb => Transpiler::new(Box::new(DuckDbDialect::new())),
    }
}

/// Command-line arguments.
#[derive(Debug, Clone)]
pub struct CliArgs {
    pub input_file: Option<String>,
    pub output_file: Option<String>,
    pub dialect: SqlDialectType,
    pub pretty_print: bool,
    pub input_text: Option<String>,
    pub validate_only: bool,
    pub verbose: bool,
    pub debug: bool,
    pub compact: bool,
    pub json_output: bool,
}

/// Command-line operation modes.
#[derive(Debug, Clone, PartialEq)]
pub enum CliMode {
    FileMode { input_file: String, output_file: Option<String> },
    TextMode { input_text: String, output_file: Option<String> },
    StdinMode { validate_only: bool, streaming: bool },
}

/// The view of an optional string.
pub open spec fn opt_string(o: Option<String>) -> Option<Seq<char>> {
    match o {
        Some(s) => Some(s@),
        None => None,
    }
}

/// The view of a mode.
pub enum SpecMode {
    FileMode { input_file: Seq<char>, output_file: Option<Seq<char>> },
    TextMode { input_text: Seq<char>, output_file: Option<Seq<char>> },
    StdinMode { validate_only: bool, streaming: bool },
}

impl View for CliMode {
    type V = SpecMode;

    open spec fn view(&self) -> SpecMode {
        match self {
            CliMode::FileMode { input_file, output_file } => SpecMode::FileMode {
                input_file: input_file@,
                output_file: opt_string(*output_file),
            },
            CliMode::TextMode { input_text, output_file } => SpecMode::TextMode {
                input_text: input_text@,
                output_file: opt_string(*output_file),
            },
            CliMode::StdinMode { validate_only, streaming } => SpecMode::StdinMode {
                validate_only: *validate_only,
                streaming: *streaming,
            },
        }
    }
}

/// The mode the arguments select: text given on the command line first,
/// then an input file, else standard input.
pub open spec fn mode_of(args: CliArgs) -> SpecMode {
    match args.input_text {
        Some(t) => SpecMode::TextMode { input_text: t@, output_file: opt_string(args.output_file) },
        None => match args.input_file {
            Some(f) => SpecMode::FileMode { input_file: f@, output_file: opt_string(args.output_file) },
            None => SpecMode::StdinMode { validate_only: args.validate_only, streaming: false },
        },
    }
}

/// The output format the arguments select: JSON, then compact, then
/// pretty, else the default.
pub open spec fn output_format_of(args: CliArgs) -> OutputFormat {
    if args.json_output {
        OutputFormat::Json
    } else if args.compact {
        OutputFormat::Compact
    } else if args.pretty_print {
        OutputFormat::Pretty
    } else {
        OutputFormat::Default
    }
}

/// Configuration of a command-line run.
#[derive(Debug, Clone)]
pub struct CliConfig {
    pub mode: CliMode,
    pub dialect: SqlDialectType,
    pub output_format: OutputFormat,
    pub validation_only: bool,
    pub verbose: bool,
    pub debug: bool,
}

impl CliConfig {
    /// The configuration the arguments select.
    pub fn from_args(args: &CliArgs) -> (c: Self)
        ensures
            c.mode@ == mode_of(*args),
            c.dialect == args.dialect,
            c.output_format == output_format_of(*args),
            c.validation_only == args.validate_only,
            c.verbose == args.verbose,
            c.debug == args.debug,
    {
        let mode = Self::determine_mode(args);
        let output_format = Self::determine_output_format(args);
        CliConfig {
            mode,
            dialect: args.dialect,
            output_format,
            validation_only: args.validate_only,
            verbose: args.verbose,
            debug: args.debug,
        }
    }

    /// The mode the arguments select.
    fn determine_mode(args: &CliArgs) -> (m: CliMode)
        ensures
            m@ == mode_of(*args),
    {
        match &args.input_text {
            Some(input_text) => CliMode::TextMode {
                input_text: input_text.clone(),
                output_file: args.output_file.clone(),
            },
            None => match &args.input_file {
                Some(input_file) => CliMode::FileMode {
                    input_file: input_file.clone(),
                    output_file: args.output_file.clone(),
                },
                None => CliMode::StdinMode { validate_only: args.validate_only, streaming: false },
            },
        }
    }

    /// The output format the arguments select.
    fn determine_output_format(args: &CliArgs) -> (f: OutputFormat)
        ensures
            f == output_format_of(*args),
    {
        if args.json_output {
            OutputFormat::Json
        } else if args.compact {
            OutputFormat::Compact
        } else if args.pretty_print {
            OutputFormat::Pretty
        } else {
            OutputFormat::Default
        }
    }
}

/// The suggestion lines of a failed validation's message.
pub open spec fn suggestion_block(suggestions: Seq<Seq<char>>) -> Seq<char>
    decreases suggestions.len(),
{
    if suggestions.len() == 0 {
        Seq::empty()
    } else {
        suggestion_block(suggestions.drop_last()) + "\n  • "@ + suggestions.last()
    }
}

/// The text outcome of validation in a non-JSON run: the confirmation for
/// valid syntax, or a validation error with the message and suggestions.
pub open spec fn validation_text_spec(valid: bool, message: Seq<char>, suggestions: Seq<Seq<char>>) -> Result<Seq<char>, Seq<char>> {
    if valid {
        Ok("Valid dplyr syntax"@)
    } else {
        Err("Validation failed: "@ + message + if suggestions.len() == 0 {
            Seq::empty()
        } else {
            "\nSuggestions:"@ + suggestion_block(suggestions)
        })
    }
}

/// What a text-output validation run yields for a validation result.
pub open spec fn validation_outcome_text(result: ValidateResult) -> Result<Seq<char>, TranspileErrorOf<Seq<char>>> {
    match result {
        ValidateResult::Valid { .. } => Ok("Valid dplyr syntax"@),
        ValidateResult::Invalid { error, suggestions } => match validation_text_spec(
            false,
            error.message@,
            strings_view(suggestions@),
        ) {
            Ok(s) => Ok(s),
            Err(m) => Err(TranspileErrorOf::ValidationError(m)),
        },
    }
}

/// The view of a text result.
pub open spec fn text_result_view(r: Result<String, TranspileError>) -> Result<Seq<char>, TranspileErrorOf<Seq<char>>> {
    match r {
        Ok(s) => Ok(s@),
        Err(e) => Err(e@),
    }
}

/// The outcome of a validation run whose output is text, not JSON.
pub fn validation_text(result: &ValidateResult) -> (r: Result<String, TranspileError>)
    ensures
        text_result_view(r) == validation_outcome_text(*result),
{
    match result {
        ValidateResult::Valid { .. } => Ok(string_of_str("Valid dplyr syntax")),
        ValidateResult::Invalid { error, suggestions } => {
            let mut msg = string_of_str("Validation failed: ");
            msg.append(error.message.as_str());
            if suggestions.len() > 0 {
                msg.append("\nSuggestions:");
                let ghost base = msg@;
                let ghost ss = strings_view(suggestions@);
                let mut i: usize = 0;
                assert(ss.take(0) =~= Seq::<Seq<char>>::empty());
                assert(base + suggestion_block(ss.take(0)) =~= base);
                while i < suggestions.len()
                    invariant
                        i <= suggestions.len(),
                        ss == strings_view(suggestions@),
                        msg@ == base + suggestion_block(ss.take(i as int)),
                    decreases suggestions.len() - i,
                {
                    msg.append("\n  • ");
                    msg.append(suggestions[i].as_str());
                    assert(ss.take(i as int + 1).drop_last() =~= ss.take(i as int));
                    assert(msg@ =~= base + suggestion_block(ss.take(i as int + 1)));
                    i = i + 1;
                }
                assert(ss.take(suggestions.len() as int) =~= ss);
                assert(msg@ =~= "Validation failed: "@ + error.message@ + ("\nSuggestions:"@ + suggestion_block(ss)));
            } else {
                assert(strings_view(suggestions@).len() == 0);
                assert(msg@ =~= "Validation failed: "@ + error.message@ + Seq::<char>::empty());
            }
            Err(TranspileErrorOf::ValidationError(msg))
        },
    }
}

/// The exit code of an error reported as JSON.
pub open spec fn json_exit_code_spec(e: TranspileErrorOf<Seq<char>>) -> i32 {
    match e {
        TranspileErrorOf::LexError(_) => ExitCode::VALIDATION_ERROR,
        TranspileErrorOf::ParseError(_) => ExitCode::VALIDATION_ERROR,
        TranspileErrorOf::GenerationError(_) => ExitCode::TRANSPILATION_ERROR,
        TranspileErrorOf::IoError(_) => ExitCode::IO_ERROR,
        TranspileErrorOf::ValidationError(_) => ExitCode::VALIDATION_ERROR,
        TranspileErrorOf::ConfigurationError(_) => ExitCode::CONFIG_ERROR,
        TranspileErrorOf::SystemError(_) => ExitCode::SYSTEM_ERROR,
    }
}

/// The exit code of an error reported as JSON.
pub fn json_error_exit_code(error: &TranspileError) -> (c: i32)
    ensures
        c == json_exit_code_spec(error@),
{
    match error {
        TranspileErrorOf::LexError(_) => ExitCode::VALIDATION_ERROR,
        TranspileErrorOf::ParseError(_) => ExitCode::VALIDATION_ERROR,
        TranspileErrorOf::GenerationError(_) => ExitCode::TRANSPILATION_ERROR,
        TranspileErrorOf::IoError(_) => ExitCode::IO_ERROR,
        TranspileErrorOf::ValidationError(_) => ExitCode::VALIDATION_ERROR,
        TranspileErrorOf::ConfigurationError(_) => ExitCode::CONFIG_ERROR,
        TranspileErrorOf::SystemError(_) => ExitCode::SYSTEM_ERROR,
    }
}

/// The reason given when validation is asked of a pipeline without a
/// validator.
pub open spec fn no_validator_reason() -> Seq<char> {
    "Validator not configured for validation mode"@
}

/// The processing pipeline of a run: its configuration and the components
/// that convert, validate, format and report.  Reading the input, writing
/// the output and handling signals are left to the program around the
/// library, which calls these methods in between.
pub struct ProcessingPipeline {
    pub config: CliConfig,
    pub transpiler: Transpiler,
    pub validator: Option<DplyrValidator>,
    pub output_formatter: OutputFormatter,
    pub json_formatter: JsonOutputFormatter,
    pub error_handler: ErrorHandler,
    pub debug_logger: DebugLogger,
}

impl ProcessingPipeline {
    /// A pipeline for `config`: a transpiler for its dialect, a validator in
    /// validation mode, a formatter for its output format, English error
    /// messages, and logging at its verbosity.
    pub fn new(config: CliConfig) -> (r: Result<ProcessingPipeline, TranspileError>)
        ensures
            r matches Ok(p) && {
                &&& p.config == config
                &&& acts_as(p.transpiler.dialect_spec(), config.dialect)
                &&& (p.validator is Some <==> config.validation_only)
                &&& (p.validator matches Some(v) ==> v.config.semantic_validation && v.config.max_complexity is None)
                &&& p.output_formatter.config.format == config.output_format
                &&& p.output_formatter.config.add_newline
                &&& p.output_formatter.config.indent@ == "  "@
                &&& !p.json_formatter.pretty_print
                &&& !p.error_handler.use_korean
                &&& p.error_handler.verbose == config.verbose
                &&& p.debug_logger.config.verbose == config.verbose
                &&& p.debug_logger.config.debug == config.debug
            },
    {
        let transpiler = transpiler_for(&config.dialect);
        let validator = if config.validation_only {
            Some(DplyrValidator::new())
        } else {
            None
        };
        let output_formatter = OutputFormatter::with_format(config.output_format);
        let json_formatter = JsonOutputFormatter::new();
        let error_handler = ErrorHandler::with_settings(false, config.verbose, false);
        let debug_logger = DebugLogger::with_settings(config.verbose, config.debug);
        Ok(ProcessingPipeline {
            config,
            transpiler,
            validator,
            output_formatter,
            json_formatter,
            error_handler,
            debug_logger,
        })
    }

    /// The configuration.
    pub fn config(&self) -> (c: &CliConfig)
        ensures
            c == &self.config,
    {
        &self.config
    }

    /// Validates input: the validator's result, or a configuration error
    /// when the pipeline has no validator.
    pub fn validate_input(&self, input: &str) -> (r: Result<ValidateResult, TranspileError>)
        ensures
            match self.validator {
                Some(v) => r matches Ok(res) && result_matches(res, validate_outcome(v.config, input@), input@),
                None => r matches Err(e) && e@ == TranspileErrorOf::<Seq<char>>::ConfigurationError(no_validator_reason()),
            },
    {
        match &self.validator {
            Some(v) => match v.validate(input) {
                Ok(res) => Ok(res),
                Err(_) => Err(TranspileErrorOf::ConfigurationError(string_of_str("Validator not configured for validation mode"))),
            },
            None => Err(TranspileErrorOf::ConfigurationError(string_of_str("Validator not configured for validation mode"))),
        }
    }

    /// Converts input to SQL: the query formatted in the configured format,
    /// or the bare query when the output is JSON; the error of the
    /// conversion otherwise.  Formatting never fails on a generated query.
    pub fn transpile_input(&self, input: &str) -> (r: Result<String, TranspileError>)
        ensures
            match transpile_spec(self.transpiler.dialect_spec(), input@) {
                Err(e) => r matches Err(x) && x@ == e,
                Ok(sql) => r matches Ok(s) && if self.config.output_format == OutputFormat::Json {
                    s@ == sql
                } else {
                    format_spec(
                        self.output_formatter.config.format,
                        self.output_formatter.config.add_newline,
                        self.output_formatter.config.indent@,
                        sql,
                    ) == Ok::<Seq<char>, FormatErrorOf<Seq<char>>>(s@)
                },
            },
    {
        let sql = match self.transpiler.transpile(input) {
            Ok(sql) => sql,
            Err(e) => {
                return Err(e);
            },
        };
        match self.config.output_format {
            OutputFormat::Json => Ok(sql),
            _ => {
                proof {
                    let node = crate::parser::parse_source(input@)->Ok_0;
                    assert(crate::sql_generator::generate_spec(self.transpiler.dialect_spec(), node) == Ok::<Seq<char>, crate::error::GenerationErrorOf<Seq<char>>>(sql@));
                    law_queries_select_from_data(self.transpiler.dialect_spec(), node);
                    reveal_strlit("SELECT ");
                    assert(sql@.take(7) == "SELECT "@);
                    assert(sql@.take(7)[0] == sql@[0]);
                    assert(sql@[0] == 'S');
                    lemma_not_blank(sql@);
                }
                match self.output_formatter.format(sql.as_str()) {
                    Ok(s) => Ok(s),
                    Err(_) => Err(TranspileErrorOf::ValidationError(string_of_str("Empty SQL input"))),
                }
            },
        }
    }

    /// Where the output goes: the output file of file and text modes, or
    /// standard output when there is none.
    pub fn output_file(&self) -> (r: Option<String>)
        ensures
            opt_text(r) == match self.config.mode {
                CliMode::FileMode { output_file, .. } => opt_text(output_file),
                CliMode::TextMode { output_file, .. } => opt_text(output_file),
                CliMode::StdinMode { .. } => None,
            },
    {
        match &self.config.mode {
            CliMode::FileMode { output_file, .. } => match output_file {
                Some(f) => Some(f.clone()),
                None => None,
            },
            CliMode::TextMode { output_file, .. } => match output_file {
                Some(f) => Some(f.clone()),
                None => None,
            },
            CliMode::StdinMode { .. } => None,
        }
    }

    /// The exit code for an error: that of JSON reporting when the output
    /// is JSON, else that of the error handler.
    pub fn error_exit_code(&self, error: &TranspileError) -> (c: i32)
        ensures
            c == if self.config.output_format == OutputFormat::Json {
                json_exit_code_spec(error@)
            } else {
                handled_error_info(self.error_handler.use_korean, error@).exit_code
            },
    {
        match self.config.output_format {
            OutputFormat::Json => json_error_exit_code(error),
            _ => self.error_handler.handle_error(error),
        }
    }
}

} // verus!
