//! Error types of the transpiler and the messages they render to.
//!
//! Each error type is generic over its text type: the executable form holds
//! `String`s, its view holds `Seq<char>`s, and the message of an error is a
//! specification function on the view.

use crate::text::{append_chars, append_str, decimal, decimal_exec, string_of_chars};
use vstd::prelude::*;
use vstd::string::*;

verus! {

/// Errors that occur during lexing (tokenization).
#[derive(Debug, Clone, PartialEq)]
pub enum LexErrorOf<S> {
    UnexpectedCharacter(char, usize),
    UnterminatedString(usize),
    InvalidNumber(S, usize),
    InvalidIdentifier(S, usize),
    InvalidPipeOperator(S, usize),
    InvalidEscapeSequence(char, usize),
    EmptyInput,
}

/// A lexing error as the library hands it out.
pub type LexError = LexErrorOf<String>;

/// Errors that occur during parsing.
#[derive(Debug, Clone, PartialEq)]
pub enum ParseErrorOf<S> {
    UnexpectedToken { expected: S, found: S, position: usize },
    InvalidOperation { operation: S, position: usize },
    MissingArgument { function: S, position: usize },
    TooManyArguments { function: S, position: usize },
    InvalidExpression { expr: S, position: usize },
    UnsupportedFunction { function: S, position: usize },
    InvalidAlias { alias: S, position: usize },
    EmptyPipeline,
    LexError(LexErrorOf<S>),
    UnexpectedEof(usize),
}

/// A parsing error as the library hands it out.
pub type ParseError = ParseErrorOf<String>;

/// Errors that occur during SQL generation.
#[derive(Debug, Clone, PartialEq)]
pub enum GenerationErrorOf<S> {
    UnsupportedOperation { operation: S, dialect: S },
    InvalidColumnReference { column: S, table: Option<S> },
    ComplexExpression { expr: S, expr_type: S },
    InvalidAst { reason: S },
    UnsupportedAggregateFunction { function: S, dialect: S },
    InvalidTypeConversion { from_type: S, to_type: S },
    CircularReference { reference: S },
    MaxNestingDepthExceeded { depth: usize, max_depth: usize },
    EmptyQuery,
}

/// A generation error as the library hands it out.
pub type GenerationError = GenerationErrorOf<String>;

/// Any error of the conversion process.
#[derive(Debug, Clone, PartialEq)]
pub enum TranspileErrorOf<S> {
    LexError(LexErrorOf<S>),
    ParseError(ParseErrorOf<S>),
    GenerationError(GenerationErrorOf<S>),
    IoError(S),
    ValidationError(S),
    ConfigurationError(S),
    SystemError(S),
}

/// A conversion error as the library hands it out.
pub type TranspileError = TranspileErrorOf<String>;

impl View for LexErrorOf<String> {
    type V = LexErrorOf<Seq<char>>;

    open spec fn view(&self) -> LexErrorOf<Seq<char>> {
        match self {
            LexErrorOf::UnexpectedCharacter(c, p) => LexErrorOf::UnexpectedCharacter(*c, *p),
            LexErrorOf::UnterminatedString(p) => LexErrorOf::UnterminatedString(*p),
            LexErrorOf::InvalidNumber(s, p) => LexErrorOf::InvalidNumber(s@, *p),
            LexErrorOf::InvalidIdentifier(s, p) => LexErrorOf::InvalidIdentifier(s@, *p),
            LexErrorOf::InvalidPipeOperator(s, p) => LexErrorOf::InvalidPipeOperator(s@, *p),
            LexErrorOf::InvalidEscapeSequence(c, p) => LexErrorOf::InvalidEscapeSequence(*c, *p),
            LexErrorOf::EmptyInput => LexErrorOf::EmptyInput,
        }
    }
}

impl View for ParseErrorOf<String> {
    type V = ParseErrorOf<Seq<char>>;

    open spec fn view(&self) -> ParseErrorOf<Seq<char>> {
        match self {
            ParseErrorOf::UnexpectedToken { expected, found, position } => {
                ParseErrorOf::UnexpectedToken {
                    expected: expected@,
                    found: found@,
                    position: *position,
                }
            },
            ParseErrorOf::InvalidOperation { operation, position } => {
                ParseErrorOf::InvalidOperation { operation: operation@, position: *position }
            },
            ParseErrorOf::MissingArgument { function, position } => {
                ParseErrorOf::MissingArgument { function: function@, position: *position }
            },
            ParseErrorOf::TooManyArguments { function, position } => {
                ParseErrorOf::TooManyArguments { function: function@, position: *position }
            },
            ParseErrorOf::InvalidExpression { expr, position } => {
                ParseErrorOf::InvalidExpression { expr: expr@, position: *position }
            },
            ParseErrorOf::UnsupportedFunction { function, position } => {
                ParseErrorOf::UnsupportedFunction { function: function@, position: *position }
            },
            ParseErrorOf::InvalidAlias { alias, position } => {
                ParseErrorOf::InvalidAlias { alias: alias@, position: *position }
            },
            ParseErrorOf::EmptyPipeline => ParseErrorOf::EmptyPipeline,
            ParseErrorOf::LexError(e) => ParseErrorOf::LexError(e@),
            ParseErrorOf::UnexpectedEof(p) => ParseErrorOf::UnexpectedEof(*p),
        }
    }
}

/// The view of an optional string.
pub open spec fn opt_view(o: Option<String>) -> Option<Seq<char>> {
    match o {
        Some(s) => Some(s@),
        None => None,
    }
}

impl View for GenerationErrorOf<String> {
    type V = GenerationErrorOf<Seq<char>>;

    open spec fn view(&self) -> GenerationErrorOf<Seq<char>> {
        match self {
            GenerationErrorOf::UnsupportedOperation { operation, dialect } => {
                GenerationErrorOf::UnsupportedOperation {
                    operation: operation@,
                    dialect: dialect@,
                }
            },
            GenerationErrorOf::InvalidColumnReference { column, table } => {
                GenerationErrorOf::InvalidColumnReference {
                    column: column@,
                    table: opt_view(*table),
                }
            },
            GenerationErrorOf::ComplexExpression { expr, expr_type } => {
                GenerationErrorOf::ComplexExpression { expr: expr@, expr_type: expr_type@ }
            },
            GenerationErrorOf::InvalidAst { reason } => GenerationErrorOf::InvalidAst {
                reason: reason@,
            },
            GenerationErrorOf::UnsupportedAggregateFunction { function, dialect } => {
                GenerationErrorOf::UnsupportedAggregateFunction {
                    function: function@,
                    dialect: dialect@,
                }
            },
            GenerationErrorOf::InvalidTypeConversion { from_type, to_type } => {
                GenerationErrorOf::InvalidTypeConversion {
                    from_type: from_type@,
                    to_type: to_type@,
                }
            },
            GenerationErrorOf::CircularReference { reference } => {
                GenerationErrorOf::CircularReference { reference: reference@ }
            },
            GenerationErrorOf::MaxNestingDepthExceeded { depth, max_depth } => {
                GenerationErrorOf::MaxNestingDepthExceeded { depth: *depth, max_depth: *max_depth }
            },
            GenerationErrorOf::EmptyQuery => GenerationErrorOf::EmptyQuery,
        }
    }
}

impl View for TranspileErrorOf<String> {
    type V = TranspileErrorOf<Seq<char>>;

    open spec fn view(&self) -> TranspileErrorOf<Seq<char>> {
        match self {
            TranspileErrorOf::LexError(e) => TranspileErrorOf::LexError(e@),
            TranspileErrorOf::ParseError(e) => TranspileErrorOf::ParseError(e@),
            TranspileErrorOf::GenerationError(e) => TranspileErrorOf::GenerationError(e@),
            TranspileErrorOf::IoError(s) => TranspileErrorOf::IoError(s@),
            TranspileErrorOf::ValidationError(s) => TranspileErrorOf::ValidationError(s@),
            TranspileErrorOf::ConfigurationError(s) => TranspileErrorOf::ConfigurationError(s@),
            TranspileErrorOf::SystemError(s) => TranspileErrorOf::SystemError(s@),
        }
    }
}

/// `" (position: n)"`.
pub open spec fn position_suffix(p: usize) -> Seq<char> {
    " (position: "@ + decimal(p as nat) + ")"@
}

/// The message of a lexing error.
pub open spec fn lex_message(e: LexErrorOf<Seq<char>>) -> Seq<char> {
    match e {
        LexErrorOf::UnexpectedCharacter(c, p) => "Unexpected character: '"@ + seq![c] + "'"@
            + position_suffix(p),
        LexErrorOf::UnterminatedString(p) => "Unterminated string literal (start position: "@
            + decimal(p as nat) + ")"@,
        LexErrorOf::InvalidNumber(s, p) => "Invalid number format: '"@ + s + "'"@
            + position_suffix(p),
        LexErrorOf::InvalidIdentifier(s, p) => "Invalid identifier: '"@ + s + "'"@
            + position_suffix(p),
        LexErrorOf::InvalidPipeOperator(s, p) => "Invalid pipe operator: '"@ + s + "'"@
            + position_suffix(p),
        LexErrorOf::InvalidEscapeSequence(c, p) => "Unsupported escape sequence: '\\"@ + seq![c]
            + "'"@ + position_suffix(p),
        LexErrorOf::EmptyInput => "Input is empty"@,
    }
}

/// The message of a parsing error.
pub open spec fn parse_message(e: ParseErrorOf<Seq<char>>) -> Seq<char> {
    match e {
        ParseErrorOf::UnexpectedToken { expected, found, position } => "Unexpected token: expected '"@
            + expected + "' but found '"@ + found + "'"@ + position_suffix(position),
        ParseErrorOf::InvalidOperation { operation, position } => "Invalid dplyr operation: '"@
            + operation + "'"@ + position_suffix(position),
        ParseErrorOf::MissingArgument { function, position } => "Missing required argument for function '"@
            + function + "'"@ + position_suffix(position),
        ParseErrorOf::TooManyArguments { function, position } => "Too many arguments provided for function '"@
            + function + "'"@ + position_suffix(position),
        ParseErrorOf::InvalidExpression { expr, position } => "Invalid expression syntax: '"@
            + expr + "'"@ + position_suffix(position),
        ParseErrorOf::UnsupportedFunction { function, position } => "Unsupported function: '"@
            + function + "'"@ + position_suffix(position),
        ParseErrorOf::InvalidAlias { alias, position } => "Invalid column alias: '"@ + alias
            + "'"@ + position_suffix(position),
        ParseErrorOf::EmptyPipeline => "Empty pipeline: at least one operation is required"@,
        ParseErrorOf::LexError(l) => "Lexing error: "@ + lex_message(l),
        ParseErrorOf::UnexpectedEof(p) => "Unexpected end of file"@ + position_suffix(p),
    }
}

/// The message of a generation error.
pub open spec fn generation_message(e: GenerationErrorOf<Seq<char>>) -> Seq<char> {
    match e {
        GenerationErrorOf::UnsupportedOperation { operation, dialect } => "Unsupported operation in '"@
            + dialect + "' dialect: '"@ + operation + "'"@,
        GenerationErrorOf::InvalidColumnReference { column, table } => "Invalid column reference: '"@
            + column + "'"@ + match table {
            Some(t) => " (table: "@ + t + ")"@,
            None => Seq::empty(),
        },
        GenerationErrorOf::ComplexExpression { expr, expr_type } => "Unsupported complex expression: '"@
            + expr + "' (type: "@ + expr_type + ")"@,
        GenerationErrorOf::InvalidAst { reason } => "Invalid AST structure: "@ + reason,
        GenerationErrorOf::UnsupportedAggregateFunction { function, dialect } => "Unsupported aggregate function: '"@
            + function + "' (dialect: "@ + dialect + ")"@,
        GenerationErrorOf::InvalidTypeConversion { from_type, to_type } => "Invalid data type conversion: from '"@
            + from_type + "' to '"@ + to_type + "'"@,
        GenerationErrorOf::CircularReference { reference } => "Circular reference detected: '"@
            + reference + "'"@,
        GenerationErrorOf::MaxNestingDepthExceeded { depth, max_depth } => "Maximum nesting depth exceeded: "@
            + decimal(depth as nat) + " (max: "@ + decimal(max_depth as nat) + ")"@,
        GenerationErrorOf::EmptyQuery => "Empty query: no SQL to generate"@,
    }
}

/// The message of a conversion error.
pub open spec fn transpile_message(e: TranspileErrorOf<Seq<char>>) -> Seq<char> {
    match e {
        TranspileErrorOf::LexError(l) => "Lexing error: "@ + lex_message(l),
        TranspileErrorOf::ParseError(p) => "Parsing error: "@ + parse_message(p),
        TranspileErrorOf::GenerationError(g) => "SQL generation error: "@ + generation_message(g),
        TranspileErrorOf::IoError(s) => "I/O error: "@ + s,
        TranspileErrorOf::ValidationError(s) => "Validation error: "@ + s,
        TranspileErrorOf::ConfigurationError(s) => "Configuration error: "@ + s,
        TranspileErrorOf::SystemError(s) => "System error: "@ + s,
    }
}

/// Appends `" (position: p)"`.
fn push_position(out: &mut Vec<char>, p: usize)
    ensures
        final(out)@ == old(out)@ + position_suffix(p),
{
    append_str(out, " (position: ");
    let d = decimal_exec(p);
    append_chars(out, &d);
    append_str(out, ")");
}

/// Appends a single character.
fn push_one(out: &mut Vec<char>, c: char)
    ensures
        final(out)@ == old(out)@ + seq![c],
{
    let ghost before = out@;
    out.push(c);
    assert(out@ =~= before + seq![c]);
}

/// Appends the characters of a string.
fn push_string(out: &mut Vec<char>, s: &String)
    ensures
        final(out)@ == old(out)@ + s@,
{
    append_str(out, s.as_str());
}

impl LexErrorOf<String> {
    /// A copy of this error.
    pub fn copy(&self) -> (r: LexError)
        ensures
            r@ == self@,
    {
        match self {
            LexErrorOf::UnexpectedCharacter(c, p) => LexErrorOf::UnexpectedCharacter(*c, *p),
            LexErrorOf::UnterminatedString(p) => LexErrorOf::UnterminatedString(*p),
            LexErrorOf::InvalidNumber(s, p) => LexErrorOf::InvalidNumber(s.clone(), *p),
            LexErrorOf::InvalidIdentifier(s, p) => LexErrorOf::InvalidIdentifier(s.clone(), *p),
            LexErrorOf::InvalidPipeOperator(s, p) => LexErrorOf::InvalidPipeOperator(s.clone(), *p),
            LexErrorOf::InvalidEscapeSequence(c, p) => LexErrorOf::InvalidEscapeSequence(*c, *p),
            LexErrorOf::EmptyInput => LexErrorOf::EmptyInput,
        }
    }

    /// Appends the message of this error.
    pub fn write_message(&self, out: &mut Vec<char>)
        ensures
            final(out)@ == old(out)@ + lex_message(self@),
    {
        let ghost before = out@;
        match self {
            LexErrorOf::UnexpectedCharacter(c, p) => {
                append_str(out, "Unexpected character: '");
                push_one(out, *c);
                append_str(out, "'");
                push_position(out, *p);
            },
            LexErrorOf::UnterminatedString(p) => {
                append_str(out, "Unterminated string literal (start position: ");
                let d = decimal_exec(*p);
                append_chars(out, &d);
                append_str(out, ")");
            },
            LexErrorOf::InvalidNumber(s, p) => {
                append_str(out, "Invalid number format: '");
                push_string(out, s);
                append_str(out, "'");
                push_position(out, *p);
            },
            LexErrorOf::InvalidIdentifier(s, p) => {
                append_str(out, "Invalid identifier: '");
                push_string(out, s);
                append_str(out, "'");
                push_position(out, *p);
            },
            LexErrorOf::InvalidPipeOperator(s, p) => {
                append_str(out, "Invalid pipe operator: '");
                push_string(out, s);
                append_str(out, "'");
                push_position(out, *p);
            },
            LexErrorOf::InvalidEscapeSequence(c, p) => {
                append_str(out, "Unsupported escape sequence: '\\");
                push_one(out, *c);
                append_str(out, "'");
                push_position(out, *p);
            },
            LexErrorOf::EmptyInput => {
                append_str(out, "Input is empty");
            },
        }
        assert(out@ =~= before + lex_message(self@));
    }

    /// The message of this error (its `Display` text).
    pub fn to_string(&self) -> (r: String)
        ensures
            r@ == lex_message(self@),
    {
        let mut out: Vec<char> = Vec::new();
        self.write_message(&mut out);
        assert(out@ =~= lex_message(self@));
        string_of_chars(&out)
    }
}

impl ParseErrorOf<String> {
    /// Appends the message of this error.
    pub fn write_message(&self, out: &mut Vec<char>)
        ensures
            final(out)@ == old(out)@ + parse_message(self@),
    {
        let ghost before = out@;
        match self {
            ParseErrorOf::UnexpectedToken { expected, found, position } => {
                append_str(out, "Unexpected token: expected '");
                push_string(out, expected);
                append_str(out, "' but found '");
                push_string(out, found);
                append_str(out, "'");
                push_position(out, *position);
            },
            ParseErrorOf::InvalidOperation { operation, position } => {
                append_str(out, "Invalid dplyr operation: '");
                push_string(out, operation);
                append_str(out, "'");
                push_position(out, *position);
            },
            ParseErrorOf::MissingArgument { function, position } => {
                append_str(out, "Missing required argument for function '");
                push_string(out, function);
                append_str(out, "'");
                push_position(out, *position);
            },
            ParseErrorOf::TooManyArguments { function, position } => {
                append_str(out, "Too many arguments provided for function '");
                push_string(out, function);
                append_str(out, "'");
                push_position(out, *position);
            },
            ParseErrorOf::InvalidExpression { expr, position } => {
                append_str(out, "Invalid expression syntax: '");
                push_string(out, expr);
                append_str(out, "'");
                push_position(out, *position);
            },
            ParseErrorOf::UnsupportedFunction { function, position } => {
                append_str(out, "Unsupported function: '");
                push_string(out, function);
                append_str(out, "'");
                push_position(out, *position);
            },
            ParseErrorOf::InvalidAlias { alias, position } => {
                append_str(out, "Invalid column alias: '");
                push_string(out, alias);
                append_str(out, "'");
                push_position(out, *position);
            },
            ParseErrorOf::EmptyPipeline => {
                append_str(out, "Empty pipeline: at least one operation is required");
            },
            ParseErrorOf::LexError(l) => {
                append_str(out, "Lexing error: ");
                l.write_message(out);
            },
            ParseErrorOf::UnexpectedEof(p) => {
                append_str(out, "Unexpected end of file");
                push_position(out, *p);
            },
        }
        assert(out@ =~= before + parse_message(self@));
    }

    /// The message of this error (its `Display` text).
    pub fn to_string(&self) -> (r: String)
        ensures
            r@ == parse_message(self@),
    {
        let mut out: Vec<char> = Vec::new();
        self.write_message(&mut out);
        assert(out@ =~= parse_message(self@));
        string_of_chars(&out)
    }
}

impl GenerationErrorOf<String> {
    /// Appends the message of this error.
    pub fn write_message(&self, out: &mut Vec<char>)
        ensures
            final(out)@ == old(out)@ + generation_message(self@),
    {
        let ghost before = out@;
        match self {
            GenerationErrorOf::UnsupportedOperation { operation, dialect } => {
                append_str(out, "Unsupported operation in '");
                push_string(out, dialect);
                append_str(out, "' dialect: '");
                push_string(out, operation);
                append_str(out, "'");
            },
            GenerationErrorOf::InvalidColumnReference { column, table } => {
                append_str(out, "Invalid column reference: '");
                push_string(out, column);
                append_str(out, "'");
                match table {
                    Some(t) => {
                        append_str(out, " (table: ");
                        push_string(out, t);
                        append_str(out, ")");
                    },
                    None => {},
                }
            },
            GenerationErrorOf::ComplexExpression { expr, expr_type } => {
                append_str(out, "Unsupported complex expression: '");
                push_string(out, expr);
                append_str(out, "' (type: ");
                push_string(out, expr_type);
                append_str(out, ")");
            },
            GenerationErrorOf::InvalidAst { reason } => {
                append_str(out, "Invalid AST structure: ");
                push_string(out, reason);
            },
            GenerationErrorOf::UnsupportedAggregateFunction { function, dialect } => {
                append_str(out, "Unsupported aggregate function: '");
                push_string(out, function);
                append_str(out, "' (dialect: ");
                push_string(out, dialect);
                append_str(out, ")");
            },
            GenerationErrorOf::InvalidTypeConversion { from_type, to_type } => {
                append_str(out, "Invalid data type conversion: from '");
                push_string(out, from_type);
                append_str(out, "' to '");
                push_string(out, to_type);
                append_str(out, "'");
            },
            GenerationErrorOf::CircularReference { reference } => {
                append_str(out, "Circular reference detected: '");
                push_string(out, reference);
                append_str(out, "'");
            },
            GenerationErrorOf::MaxNestingDepthExceeded { depth, max_depth } => {
                append_str(out, "Maximum nesting depth exceeded: ");
                let d = decimal_exec(*depth);
                append_chars(out, &d);
                append_str(out, " (max: ");
                let m = decimal_exec(*max_depth);
                append_chars(out, &m);
                append_str(out, ")");
            },
            GenerationErrorOf::EmptyQuery => {
                append_str(out, "Empty query: no SQL to generate");
            },
        }
        assert(out@ =~= before + generation_message(self@));
    }

    /// The message of this error (its `Display` text).
    pub fn to_string(&self) -> (r: String)
        ensures
            r@ == generation_message(self@),
    {
        let mut out: Vec<char> = Vec::new();
        self.write_message(&mut out);
        assert(out@ =~= generation_message(self@));
        string_of_chars(&out)
    }
}

impl TranspileErrorOf<String> {
    /// Appends the message of this error.
    pub fn write_message(&self, out: &mut Vec<char>)
        ensures
            final(out)@ == old(out)@ + transpile_message(self@),
    {
        let ghost before = out@;
        match self {
            TranspileErrorOf::LexError(e) => {
                append_str(out, "Lexing error: ");
                e.write_message(out);
            },
            TranspileErrorOf::ParseError(e) => {
                append_str(out, "Parsing error: ");
                e.write_message(out);
            },
            TranspileErrorOf::GenerationError(e) => {
                append_str(out, "SQL generation error: ");
                e.write_message(out);
            },
            TranspileErrorOf::IoError(s) => {
                append_str(out, "I/O error: ");
                push_string(out, s);
            },
            TranspileErrorOf::ValidationError(s) => {
                append_str(out, "Validation error: ");
                push_string(out, s);
            },
            TranspileErrorOf::ConfigurationError(s) => {
                append_str(out, "Configuration error: ");
                push_string(out, s);
            },
            TranspileErrorOf::SystemError(s) => {
                append_str(out, "System error: ");
                push_string(out, s);
            },
        }
        assert(out@ =~= before + transpile_message(self@));
    }

    /// The message of this error (its `Display` text).
    pub fn to_string(&self) -> (r: String)
        ensures
            r@ == transpile_message(self@),
    {
        let mut out: Vec<char> = Vec::new();
        self.write_message(&mut out);
        assert(out@ =~= transpile_message(self@));
        string_of_chars(&out)
    }
}

} // verus!
