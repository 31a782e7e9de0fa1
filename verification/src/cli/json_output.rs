//! The data of JSON output: transpilation metadata, processing statistics,
//! input information and error information.  Turning it into JSON text is
//! left to the program around the library.

use crate::clock::unix_timestamp_now;
use crate::cli::pipeline::{dialect_name, SqlDialectType};
use crate::cli::validator::ValidationSummary;
use crate::error::{generation_message, lex_message, parse_message, TranspileError, TranspileErrorOf};
use crate::text::{chars_of, lines, lines_exec, string_of_str, strings_view};
use vstd::prelude::*;
use vstd::string::*;

verus! {

/// Processing statistics of a transpilation.
#[derive(Debug, Clone, Copy, PartialEq, Eq)]
pub struct ProcessingStats {
    pub lex_time_us: u64,
    pub parse_time_us: u64,
    pub generation_time_us: u64,
    pub total_time_us: u64,
    pub token_count: usize,
    pub ast_node_count: usize,
    pub input_size_bytes: usize,
    pub output_size_bytes: usize,
}

/// Information on the input source.
#[derive(Debug, Clone)]
pub struct InputInfo {
    pub source_type: String,
    pub source_id: String,
    pub size_bytes: usize,
    pub line_count: usize,
}

/// Metadata of a transpilation.
#[derive(Debug, Clone)]
pub struct TranspileMetadata {
    pub timestamp: u64,
    pub dialect: String,
    pub stats: ProcessingStats,
    pub input_info: InputInfo,
    pub version: String,
}

/// Error information of a failed transpilation.
#[derive(Debug, Clone)]
pub struct ErrorInfo {
    pub error_type: String,
    pub message: String,
    pub position: Option<usize>,
    pub suggestions: Vec<String>,
}

/// The JSON output of a transpilation.
#[derive(Debug, Clone)]
pub struct JsonOutput {
    pub success: bool,
    pub sql: Option<String>,
    pub error: Option<ErrorInfo>,
    pub metadata: TranspileMetadata,
}

/// Settings of JSON output.
#[derive(Debug)]
pub struct JsonOutputFormatter {
    pub pretty_print: bool,
    pub include_debug: bool,
}

impl JsonOutputFormatter {
    /// Compact JSON without debug information.
    pub fn new() -> (f: Self)
        ensures
            !f.pretty_print,
            !f.include_debug,
    {
        JsonOutputFormatter { pretty_print: false, include_debug: false }
    }

    /// Pretty-printed JSON.
    pub fn pretty() -> (f: Self)
        ensures
            f.pretty_print,
            !f.include_debug,
    {
        JsonOutputFormatter { pretty_print: true, include_debug: false }
    }

    /// JSON with debug information.
    pub fn with_debug() -> (f: Self)
        ensures
            !f.pretty_print,
            f.include_debug,
    {
        JsonOutputFormatter { pretty_print: false, include_debug: true }
    }
}

impl Default for JsonOutputFormatter {
    fn default() -> (f: Self)
        ensures
            !f.pretty_print,
            !f.include_debug,
    {
        JsonOutputFormatter::new()
    }
}

/// The version recorded in metadata.
pub open spec fn version_text() -> Seq<char> {
    "0.1.0"@
}

/// The version recorded in metadata.
pub fn crate_version() -> (r: String)
    ensures
        r@ == version_text(),
{
    string_of_str("0.1.0")
}

/// Statistics with every count and time zero.
pub open spec fn zero_stats() -> ProcessingStats {
    ProcessingStats {
        lex_time_us: 0,
        parse_time_us: 0,
        generation_time_us: 0,
        total_time_us: 0,
        token_count: 0,
        ast_node_count: 0,
        input_size_bytes: 0,
        output_size_bytes: 0,
    }
}

impl ProcessingStats {
    /// Statistics with every count and time zero.
    pub fn empty() -> (s: Self)
        ensures
            s == zero_stats(),
    {
        ProcessingStats {
            lex_time_us: 0,
            parse_time_us: 0,
            generation_time_us: 0,
            total_time_us: 0,
            token_count: 0,
            ast_node_count: 0,
            input_size_bytes: 0,
            output_size_bytes: 0,
        }
    }

    /// Statistics with the three stage times and their total.
    pub fn with_timing(lex_time_us: u64, parse_time_us: u64, generation_time_us: u64) -> (s: Self)
        requires
            lex_time_us + parse_time_us + generation_time_us <= u64::MAX,
        ensures
            s == (ProcessingStats {
                lex_time_us,
                parse_time_us,
                generation_time_us,
                total_time_us: (lex_time_us + parse_time_us + generation_time_us) as u64,
                ..zero_stats()
            }),
    {
        ProcessingStats {
            lex_time_us,
            parse_time_us,
            generation_time_us,
            total_time_us: lex_time_us + parse_time_us + generation_time_us,
            token_count: 0,
            ast_node_count: 0,
            input_size_bytes: 0,
            output_size_bytes: 0,
        }
    }
}

/// Input information for `content` from a source.
fn input_info(source_type: &str, source_id: &str, content: &str) -> (r: InputInfo)
    ensures
        r.source_type@ == source_type@,
        r.source_id@ == source_id@,
        r.size_bytes == content.spec_bytes().len() as usize,
        r.line_count == lines(content@).len(),
{
    let v = chars_of(content);
    let ls = lines_exec(&v);
    InputInfo {
        source_type: string_of_str(source_type),
        source_id: string_of_str(source_id),
        size_bytes: content.len(),
        line_count: ls.len(),
    }
}

impl InputInfo {
    /// Input read from the file `filename`.
    pub fn from_file(filename: &str, content: &str) -> (r: Self)
        ensures
            r.source_type@ == "file"@,
            r.source_id@ == filename@,
            r.size_bytes == content.spec_bytes().len() as usize,
            r.line_count == lines(content@).len(),
    {
        input_info("file", filename, content)
    }

    /// Input read from standard input.
    pub fn from_stdin(content: &str) -> (r: Self)
        ensures
            r.source_type@ == "stdin"@,
            r.source_id@ == "stdin"@,
            r.size_bytes == content.spec_bytes().len() as usize,
            r.line_count == lines(content@).len(),
    {
        input_info("stdin", "stdin", content)
    }

    /// Input given on the command line.
    pub fn from_text(content: &str) -> (r: Self)
        ensures
            r.source_type@ == "text"@,
            r.source_id@ == "command_line"@,
            r.size_bytes == content.spec_bytes().len() as usize,
            r.line_count == lines(content@).len(),
    {
        input_info("text", "command_line", content)
    }
}

/// Builder of transpilation metadata.
#[derive(Debug)]
pub struct MetadataBuilder {
    pub dialect: String,
    pub stats: ProcessingStats,
    pub input_info: InputInfo,
    pub version: String,
}

impl MetadataBuilder {
    /// A builder for `dialect` with zero statistics, unknown input and the
    /// crate's version.
    pub fn new(dialect: &str) -> (b: Self)
        ensures
            b.dialect@ == dialect@,
            b.stats == zero_stats(),
            b.input_info.source_type@ == "unknown"@,
            b.input_info.source_id@ == "unknown"@,
            b.input_info.size_bytes == 0,
            b.input_info.line_count == 0,
            b.version@ == version_text(),
    {
        MetadataBuilder {
            dialect: string_of_str(dialect),
            stats: ProcessingStats::empty(),
            input_info: InputInfo {
                source_type: string_of_str("unknown"),
                source_id: string_of_str("unknown"),
                size_bytes: 0,
                line_count: 0,
            },
            version: crate_version(),
        }
    }

    /// Sets the statistics.
    pub fn with_stats(self, stats: ProcessingStats) -> (b: Self)
        ensures
            b.stats == stats,
            b.dialect == self.dialect,
            b.input_info == self.input_info,
            b.version == self.version,
    {
        let mut b = self;
        b.stats = stats;
        b
    }

    /// Sets the input information.
    pub fn with_input_info(self, input_info: InputInfo) -> (b: Self)
        ensures
            b.input_info == input_info,
            b.dialect == self.dialect,
            b.stats == self.stats,
            b.version == self.version,
    {
        let mut b = self;
        b.input_info = input_info;
        b
    }

    /// Sets the version.
    pub fn with_version(self, version: &str) -> (b: Self)
        ensures
            b.version@ == version@,
            b.dialect == self.dialect,
            b.stats == self.stats,
            b.input_info == self.input_info,
    {
        let mut b = self;
        b.version = string_of_str(version);
        b
    }

    /// The metadata, stamped with the current time.
    pub fn build(self) -> (m: TranspileMetadata)
        ensures
            m.dialect == self.dialect,
            m.stats == self.stats,
            m.input_info == self.input_info,
            m.version == self.version,
    {
        TranspileMetadata {
            timestamp: unix_timestamp_now(),
            dialect: self.dialect,
            stats: self.stats,
            input_info: self.input_info,
            version: self.version,
        }
    }
}

/// The error type, message and suggestions of a conversion error.
pub open spec fn json_error_texts(e: TranspileErrorOf<Seq<char>>) -> (Seq<char>, Seq<char>, Seq<Seq<char>>) {
    match e {
        TranspileErrorOf::LexError(l) => ("lex"@, lex_message(l), seq![
            "Check for invalid characters or malformed strings"@,
            "Ensure proper quoting of string literals"@,
        ]),
        TranspileErrorOf::ParseError(p) => ("parse"@, parse_message(p), seq![
            "Check dplyr function syntax and arguments"@,
            "Ensure proper use of pipe operator (%>%)"@,
            "Verify function names are spelled correctly"@,
        ]),
        TranspileErrorOf::GenerationError(g) => ("generation"@, generation_message(g), seq![
            "Try a different SQL dialect"@,
            "Simplify complex expressions"@,
            "Check if the operation is supported in the selected dialect"@,
        ]),
        TranspileErrorOf::IoError(s) => ("io"@, s, seq![
            "Check file permissions and paths"@,
            "Ensure input/output resources are available"@,
        ]),
        TranspileErrorOf::ValidationError(s) => ("validation"@, s, seq![
            "Check dplyr syntax and function usage"@,
            "Verify all required arguments are provided"@,
        ]),
        TranspileErrorOf::ConfigurationError(s) => ("configuration"@, s, seq![
            "Check configuration settings"@,
            "Verify all required options are provided"@,
        ]),
        TranspileErrorOf::SystemError(s) => ("system"@, s, seq![
            "Check system permissions"@,
            "Verify signal handling or pipeline configuration"@,
        ]),
    }
}

/// A list of two strings.
fn two(a: &str, b: &str) -> (r: Vec<String>)
    ensures
        strings_view(r@) == seq![a@, b@],
{
    let mut v: Vec<String> = Vec::new();
    v.push(string_of_str(a));
    v.push(string_of_str(b));
    assert(strings_view(v@) =~= seq![a@, b@]);
    v
}

/// A list of three strings.
fn three(a: &str, b: &str, c: &str) -> (r: Vec<String>)
    ensures
        strings_view(r@) == seq![a@, b@, c@],
{
    let mut v: Vec<String> = Vec::new();
    v.push(string_of_str(a));
    v.push(string_of_str(b));
    v.push(string_of_str(c));
    assert(strings_view(v@) =~= seq![a@, b@, c@]);
    v
}

impl ErrorInfo {
    /// The error information of a conversion error, without position.
    pub fn from_transpile_error(error: &TranspileError) -> (r: Self)
        ensures
            (r.error_type@, r.message@, strings_view(r.suggestions@)) == json_error_texts(error@),
            r.position is None,
    {
        let (error_type, message, suggestions) = match error {
            TranspileErrorOf::LexError(e) => (string_of_str("lex"), e.to_string(), two(
                "Check for invalid characters or malformed strings",
                "Ensure proper quoting of string literals",
            )),
            TranspileErrorOf::ParseError(e) => (string_of_str("parse"), e.to_string(), three(
                "Check dplyr function syntax and arguments",
                "Ensure proper use of pipe operator (%>%)",
                "Verify function names are spelled correctly",
            )),
            TranspileErrorOf::GenerationError(e) => (string_of_str("generation"), e.to_string(), three(
                "Try a different SQL dialect",
                "Simplify complex expressions",
                "Check if the operation is supported in the selected dialect",
            )),
            TranspileErrorOf::IoError(e) => (string_of_str("io"), e.clone(), two(
                "Check file permissions and paths",
                "Ensure input/output resources are available",
            )),
            TranspileErrorOf::ValidationError(e) => (string_of_str("validation"), e.clone(), two(
                "Check dplyr syntax and function usage",
                "Verify all required arguments are provided",
            )),
            TranspileErrorOf::ConfigurationError(e) => (string_of_str("configuration"), e.clone(), two(
                "Check configuration settings",
                "Verify all required options are provided",
            )),
            TranspileErrorOf::SystemError(e) => (string_of_str("system"), e.clone(), two(
                "Check system permissions",
                "Verify signal handling or pipeline configuration",
            )),
        };
        ErrorInfo { error_type, message, position: None, suggestions }
    }
}

impl TranspileMetadata {
    /// The metadata of a validation run: dialect and input marked
    /// `validation`, zero statistics, stamped with the current time.
    pub fn from_validation_summary(summary: &ValidationSummary) -> (m: Self)
        ensures
            m.dialect@ == "validation"@,
            m.stats == zero_stats(),
            m.input_info.source_type@ == "validation"@,
            m.input_info.source_id@ == "validation"@,
            m.input_info.size_bytes == 0,
            m.input_info.line_count == 0,
            m.version@ == version_text(),
    {
        TranspileMetadata {
            timestamp: unix_timestamp_now(),
            dialect: string_of_str("validation"),
            stats: ProcessingStats::empty(),
            input_info: InputInfo {
                source_type: string_of_str("validation"),
                source_id: string_of_str("validation"),
                size_bytes: 0,
                line_count: 0,
            },
            version: crate_version(),
        }
    }

    /// The metadata of a successful transpilation of `input` into `output`
    /// that took `processing_time_micros` microseconds.
    pub fn transpilation_success(dialect: &SqlDialectType, processing_time_micros: u128, input: &str, output: &str) -> (m: Self)
        ensures
            m.dialect@ == dialect_name(*dialect),
            m.stats == (ProcessingStats {
                total_time_us: processing_time_micros as u64,
                input_size_bytes: input.spec_bytes().len() as usize,
                output_size_bytes: output.spec_bytes().len() as usize,
                ..zero_stats()
            }),
            m.input_info.source_type@ == "transpilation"@,
            m.input_info.source_id@ == "transpilation"@,
            m.input_info.size_bytes == input.spec_bytes().len() as usize,
            m.input_info.line_count == lines(input@).len(),
            m.version@ == version_text(),
    {
        let info = input_info("transpilation", "transpilation", input);
        TranspileMetadata {
            timestamp: unix_timestamp_now(),
            dialect: dialect.to_string(),
            stats: ProcessingStats {
                lex_time_us: 0,
                parse_time_us: 0,
                generation_time_us: 0,
                total_time_us: processing_time_micros as u64,
                token_count: 0,
                ast_node_count: 0,
                input_size_bytes: input.len(),
                output_size_bytes: output.len(),
            },
            input_info: info,
            version: crate_version(),
        }
    }
}

} // verus!
