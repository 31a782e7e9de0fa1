//! Command-line components: configuration, validation, output formatting and
//! error reporting.  What they decide and compute is here; reading input,
//! writing output and handling signals are left to the program around them.

pub mod debug_logger;
pub mod error_handler;
pub mod json_output;
pub mod basic;
pub mod output_formatter;
pub mod pipeline;
pub mod stdin_reader;
pub mod validator;

pub use error_handler::{ErrorCategory, ErrorHandler, ErrorInfo, ExitCode};
pub use json_output::{
    ErrorInfo as JsonErrorInfo, InputInfo, JsonOutputFormatter, MetadataBuilder, ProcessingStats,
    TranspileMetadata,
};
pub use output_formatter::{FormatConfig, FormatError, OutputFormat, OutputFormatter};
pub use pipeline::{CliArgs, CliConfig, CliMode, SqlDialectType};
pub use validator::{
    DplyrValidator, ValidateResult, ValidationConfig, ValidationErrorInfo, ValidationSummary,
};
