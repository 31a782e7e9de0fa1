//! Configuration of reading standard input, and the checks applied to what
//! was read: the size limit, trimming, and refusal of empty input.

use crate::text::{chars_of, decimal, decimal_string, string_of_chars, string_of_str, trim, trim_chars};
use vstd::prelude::*;
use vstd::string::*;

verus! {

/// Wraps `Duration::from_secs(1)`: the default wait for input.
#[verifier::external_body]
fn one_second() -> std::time::Duration {
    std::time::Duration::from_secs(1)
}

/// Configuration of reading standard input.
#[derive(Debug, Clone)]
pub struct StdinConfig {
    pub read_timeout: Option<std::time::Duration>,
    pub trim_input: bool,
    pub max_input_size: Option<usize>,
}

impl Default for StdinConfig {
    fn default() -> (c: Self)
        ensures
            c.read_timeout is Some,
            c.trim_input,
            c.max_input_size == Some(10485760usize),
    {
        StdinConfig { read_timeout: Some(one_second()), trim_input: true, max_input_size: Some(10485760) }
    }
}

/// The message for input of `size` bytes over the limit `max`.
pub open spec fn size_limit_message(size: usize, max: usize) -> Seq<char> {
    "Input size ("@ + decimal(size as nat) + " bytes) exceeds maximum allowed size ("@ + decimal(max as nat)
        + " bytes)"@
}

/// What processing read input yields: the input, trimmed when configured,
/// or nothing when that is empty.
pub open spec fn processed_input(trim_input: bool, input: Seq<char>) -> Option<Seq<char>> {
    let s = if trim_input { trim(input) } else { input };
    if s.len() == 0 {
        None
    } else {
        Some(s)
    }
}

/// Errors of reading standard input.  Those that carry an error of the
/// reading or of signal handling carry its message.
#[derive(Debug, Clone, PartialEq, Eq)]
pub enum StdinErrorOf<S> {
    ReadError(S),
    NoInputProvided,
    EmptyInput,
    Timeout,
    Interrupted,
    PipeClosed,
    SignalError(S),
    ProcessingError(S),
}

/// A reading error as the reader hands it out.
pub type StdinError = StdinErrorOf<String>;

impl View for StdinErrorOf<String> {
    type V = StdinErrorOf<Seq<char>>;

    open spec fn view(&self) -> StdinErrorOf<Seq<char>> {
        match self {
            StdinErrorOf::ReadError(s) => StdinErrorOf::ReadError(s@),
            StdinErrorOf::NoInputProvided => StdinErrorOf::NoInputProvided,
            StdinErrorOf::EmptyInput => StdinErrorOf::EmptyInput,
            StdinErrorOf::Timeout => StdinErrorOf::Timeout,
            StdinErrorOf::Interrupted => StdinErrorOf::Interrupted,
            StdinErrorOf::PipeClosed => StdinErrorOf::PipeClosed,
            StdinErrorOf::SignalError(s) => StdinErrorOf::SignalError(s@),
            StdinErrorOf::ProcessingError(s) => StdinErrorOf::ProcessingError(s@),
        }
    }
}

/// The message of a reading error.
pub open spec fn stdin_error_message(e: StdinErrorOf<Seq<char>>) -> Seq<char> {
    match e {
        StdinErrorOf::ReadError(s) => "Failed to read from stdin: "@ + s,
        StdinErrorOf::NoInputProvided => "No input provided and stdin is not piped"@,
        StdinErrorOf::EmptyInput => "Input is empty"@,
        StdinErrorOf::Timeout => "Stdin read timeout"@,
        StdinErrorOf::Interrupted => "Reading interrupted by signal"@,
        StdinErrorOf::PipeClosed => "Pipe was closed"@,
        StdinErrorOf::SignalError(s) => "Signal handling error: "@ + s,
        StdinErrorOf::ProcessingError(s) => "Processing error: "@ + s,
    }
}

impl StdinErrorOf<String> {
    /// The message of this error.
    pub fn to_string(&self) -> (r: String)
        ensures
            r@ == stdin_error_message(self@),
    {
        let (head, tail): (&str, Option<&String>) = match self {
            StdinErrorOf::ReadError(s) => ("Failed to read from stdin: ", Some(s)),
            StdinErrorOf::NoInputProvided => ("No input provided and stdin is not piped", None),
            StdinErrorOf::EmptyInput => ("Input is empty", None),
            StdinErrorOf::Timeout => ("Stdin read timeout", None),
            StdinErrorOf::Interrupted => ("Reading interrupted by signal", None),
            StdinErrorOf::PipeClosed => ("Pipe was closed", None),
            StdinErrorOf::SignalError(s) => ("Signal handling error: ", Some(s)),
            StdinErrorOf::ProcessingError(s) => ("Processing error: ", Some(s)),
        };
        let mut r = string_of_str(head);
        match tail {
            Some(t) => r.append(t.as_str()),
            None => {},
        }
        r
    }
}

/// The view of the result of processing input.
pub open spec fn stdin_result_view(r: Result<String, StdinError>) -> Result<Seq<char>, StdinErrorOf<Seq<char>>> {
    match r {
        Ok(s) => Ok(s@),
        Err(e) => Err(e@),
    }
}

/// What processing read input yields: the input, trimmed when configured,
/// or the error for empty input.
pub open spec fn process_input_spec(trim_input: bool, input: Seq<char>) -> Result<Seq<char>, StdinErrorOf<Seq<char>>> {
    match processed_input(trim_input, input) {
        Some(s) => Ok(s),
        None => Err(StdinErrorOf::EmptyInput),
    }
}

/// The reader of standard input: its configuration.  Reading itself, and
/// the signal handling around it, belong to the program around the library.
#[derive(Debug)]
pub struct StdinReader {
    pub config: StdinConfig,
}

impl StdinReader {
    /// A reader with the default configuration.
    pub fn new() -> (r: Self)
        ensures
            r.config.read_timeout is Some,
            r.config.trim_input,
            r.config.max_input_size == Some(10485760usize),
    {
        StdinReader { config: StdinConfig::default() }
    }

    /// A reader with a custom configuration.
    pub fn with_config(config: StdinConfig) -> (r: Self)
        ensures
            r.config == config,
    {
        StdinReader { config }
    }

    /// The error when `size` bytes exceed the configured limit.
    pub fn check_size_limit(&self, size: usize) -> (r: Result<(), StdinError>)
        ensures
            match self.config.max_input_size {
                Some(max) => if size > max {
                    r matches Err(StdinErrorOf::ReadError(m)) && m@ == size_limit_message(size, max)
                } else {
                    r is Ok
                },
                None => r is Ok,
            },
    {
        match self.config.max_input_size {
            Some(max) => {
                if size > max {
                    let mut m = string_of_str("Input size (");
                    m.append(decimal_string(size).as_str());
                    m.append(" bytes) exceeds maximum allowed size (");
                    m.append(decimal_string(max).as_str());
                    m.append(" bytes)");
                    Err(StdinErrorOf::ReadError(m))
                } else {
                    Ok(())
                }
            },
            None => Ok(()),
        }
    }

    /// The input, trimmed when configured; the empty-input error when that
    /// is empty.
    pub fn process_input(&self, input: String) -> (r: Result<String, StdinError>)
        ensures
            stdin_result_view(r) == process_input_spec(self.config.trim_input, input@),
    {
        let s = if self.config.trim_input {
            let v = chars_of(input.as_str());
            let t = trim_chars(&v);
            string_of_chars(&t)
        } else {
            input
        };
        if s.as_str().is_empty() {
            Err(StdinErrorOf::EmptyInput)
        } else {
            Ok(s)
        }
    }

    /// The configuration.
    pub fn config(&self) -> (c: &StdinConfig)
        ensures
            c == &self.config,
    {
        &self.config
    }

    /// Replaces the configuration.
    pub fn set_config(&mut self, config: StdinConfig)
        ensures
            final(self).config == config,
    {
        self.config = config;
    }
}

impl Default for StdinReader {
    fn default() -> (r: Self)
        ensures
            r.config.read_timeout is Some,
            r.config.trim_input,
            r.config.max_input_size == Some(10485760usize),
    {
        StdinReader::new()
    }
}

} // verus!
