//! Lexer: turns dplyr source text into tokens.
//!
//! The specification `lex_step` says, for an input and a position, which token
//! (or error) the lexer produces there and where it stops; `lex_from` strings
//! those steps together into the whole token stream.

use crate::error::{LexError, LexErrorOf};
use crate::text::{chars_of, is_whitespace, is_ws, str_eq, string_of_chars};
use vstd::prelude::*;
use vstd::string::*;

verus! {

/// Token types used in dplyr code.  The text type `S` is `String` for tokens
/// the lexer hands out and `Seq<char>` for their views.
#[derive(Debug, Clone, PartialEq)]
pub enum TokenOf<S> {
    Select,
    Filter,
    Mutate,
    Rename,
    Arrange,
    GroupBy,
    Summarise,
    InnerJoin,
    LeftJoin,
    RightJoin,
    FullJoin,
    SemiJoin,
    AntiJoin,
    Intersect,
    Union,
    SetDiff,
    Desc,
    Asc,
    Pipe,
    ArrowRight,
    ArrowLeft,
    Assignment,
    Equal,
    NotEqual,
    LessThan,
    LessThanOrEqual,
    GreaterThan,
    GreaterThanOrEqual,
    And,
    Or,
    Plus,
    Minus,
    Multiply,
    Divide,
    Identifier(S),
    String(S),
    /// A numeric literal, held as its canonical decimal text: no leading
    /// zeros before the point, no trailing zeros after it, and no point
    /// when the fraction is zero (`"18"`, `"0.5"`, `"123.456"`).
    Number(S),
    Boolean(bool),
    Null,
    LeftParen,
    RightParen,
    Comma,
    Dot,
    EOF,
    Newline,
    Whitespace,
}

/// A token as the lexer hands it out.
pub type Token = TokenOf<String>;

/// The view of a token.
pub type SpecToken = TokenOf<Seq<char>>;

/// The view of a lexing error.
pub type SpecLexError = LexErrorOf<Seq<char>>;

impl View for TokenOf<String> {
    type V = TokenOf<Seq<char>>;

    open spec fn view(&self) -> TokenOf<Seq<char>> {
        match self {
            TokenOf::Select => TokenOf::Select,
            TokenOf::Filter => TokenOf::Filter,
            TokenOf::Mutate => TokenOf::Mutate,
            TokenOf::Rename => TokenOf::Rename,
            TokenOf::Arrange => TokenOf::Arrange,
            TokenOf::GroupBy => TokenOf::GroupBy,
            TokenOf::Summarise => TokenOf::Summarise,
            TokenOf::InnerJoin => TokenOf::InnerJoin,
            TokenOf::LeftJoin => TokenOf::LeftJoin,
            TokenOf::RightJoin => TokenOf::RightJoin,
            TokenOf::FullJoin => TokenOf::FullJoin,
            TokenOf::SemiJoin => TokenOf::SemiJoin,
            TokenOf::AntiJoin => TokenOf::AntiJoin,
            TokenOf::Intersect => TokenOf::Intersect,
            TokenOf::Union => TokenOf::Union,
            TokenOf::SetDiff => TokenOf::SetDiff,
            TokenOf::Desc => TokenOf::Desc,
            TokenOf::Asc => TokenOf::Asc,
            TokenOf::Pipe => TokenOf::Pipe,
            TokenOf::ArrowRight => TokenOf::ArrowRight,
            TokenOf::ArrowLeft => TokenOf::ArrowLeft,
            TokenOf::Assignment => TokenOf::Assignment,
            TokenOf::Equal => TokenOf::Equal,
            TokenOf::NotEqual => TokenOf::NotEqual,
            TokenOf::LessThan => TokenOf::LessThan,
            TokenOf::LessThanOrEqual => TokenOf::LessThanOrEqual,
            TokenOf::GreaterThan => TokenOf::GreaterThan,
            TokenOf::GreaterThanOrEqual => TokenOf::GreaterThanOrEqual,
            TokenOf::And => TokenOf::And,
            TokenOf::Or => TokenOf::Or,
            TokenOf::Plus => TokenOf::Plus,
            TokenOf::Minus => TokenOf::Minus,
            TokenOf::Multiply => TokenOf::Multiply,
            TokenOf::Divide => TokenOf::Divide,
            TokenOf::Identifier(s) => TokenOf::Identifier(s@),
            TokenOf::String(s) => TokenOf::String(s@),
            TokenOf::Number(s) => TokenOf::Number(s@),
            TokenOf::Boolean(b) => TokenOf::Boolean(*b),
            TokenOf::Null => TokenOf::Null,
            TokenOf::LeftParen => TokenOf::LeftParen,
            TokenOf::RightParen => TokenOf::RightParen,
            TokenOf::Comma => TokenOf::Comma,
            TokenOf::Dot => TokenOf::Dot,
            TokenOf::EOF => TokenOf::EOF,
            TokenOf::Newline => TokenOf::Newline,
            TokenOf::Whitespace => TokenOf::Whitespace,
        }
    }
}

/// The view of a lexing result.
pub open spec fn lex_result_view(r: Result<Token, LexError>) -> Result<SpecToken, SpecLexError> {
    match r {
        Ok(t) => Ok(t@),
        Err(e) => Err(e@),
    }
}

/// The text of a token, as its `Display` renders it.
pub open spec fn token_text(t: SpecToken) -> Seq<char> {
    match t {
        TokenOf::Select => "select"@,
        TokenOf::Filter => "filter"@,
        TokenOf::Mutate => "mutate"@,
        TokenOf::Rename => "rename"@,
        TokenOf::Arrange => "arrange"@,
        TokenOf::GroupBy => "group_by"@,
        TokenOf::Summarise => "summarise"@,
        TokenOf::InnerJoin => "inner_join"@,
        TokenOf::LeftJoin => "left_join"@,
        TokenOf::RightJoin => "right_join"@,
        TokenOf::FullJoin => "full_join"@,
        TokenOf::SemiJoin => "semi_join"@,
        TokenOf::AntiJoin => "anti_join"@,
        TokenOf::Intersect => "intersect"@,
        TokenOf::Union => "union"@,
        TokenOf::SetDiff => "setdiff"@,
        TokenOf::Desc => "desc"@,
        TokenOf::Asc => "asc"@,
        TokenOf::Pipe => "%>%"@,
        TokenOf::ArrowRight => "->"@,
        TokenOf::ArrowLeft => "<-"@,
        TokenOf::Assignment => "="@,
        TokenOf::Equal => "=="@,
        TokenOf::NotEqual => "!="@,
        TokenOf::LessThan => "<"@,
        TokenOf::LessThanOrEqual => "<="@,
        TokenOf::GreaterThan => ">"@,
        TokenOf::GreaterThanOrEqual => ">="@,
        TokenOf::And => "&"@,
        TokenOf::Or => "|"@,
        TokenOf::Plus => "+"@,
        TokenOf::Minus => "-"@,
        TokenOf::Multiply => "*"@,
        TokenOf::Divide => "/"@,
        TokenOf::Identifier(name) => name,
        TokenOf::String(s) => "\""@ + s + "\""@,
        TokenOf::Number(n) => n,
        TokenOf::Boolean(b) => if b { "true"@ } else { "false"@ },
        TokenOf::Null => "NULL"@,
        TokenOf::LeftParen => "("@,
        TokenOf::RightParen => ")"@,
        TokenOf::Comma => ","@,
        TokenOf::Dot => "."@,
        TokenOf::EOF => "EOF"@,
        TokenOf::Newline => "\\n"@,
        TokenOf::Whitespace => " "@,
    }
}

impl TokenOf<String> {
    /// The text of this token (its `Display` text).
    pub fn to_string(&self) -> (r: String)
        ensures
            r@ == token_text(self@),
    {
        match self {
            TokenOf::Select => string_of_str_lit("select"),
            TokenOf::Filter => string_of_str_lit("filter"),
            TokenOf::Mutate => string_of_str_lit("mutate"),
            TokenOf::Rename => string_of_str_lit("rename"),
            TokenOf::Arrange => string_of_str_lit("arrange"),
            TokenOf::GroupBy => string_of_str_lit("group_by"),
            TokenOf::Summarise => string_of_str_lit("summarise"),
            TokenOf::InnerJoin => string_of_str_lit("inner_join"),
            TokenOf::LeftJoin => string_of_str_lit("left_join"),
            TokenOf::RightJoin => string_of_str_lit("right_join"),
            TokenOf::FullJoin => string_of_str_lit("full_join"),
            TokenOf::SemiJoin => string_of_str_lit("semi_join"),
            TokenOf::AntiJoin => string_of_str_lit("anti_join"),
            TokenOf::Intersect => string_of_str_lit("intersect"),
            TokenOf::Union => string_of_str_lit("union"),
            TokenOf::SetDiff => string_of_str_lit("setdiff"),
            TokenOf::Desc => string_of_str_lit("desc"),
            TokenOf::Asc => string_of_str_lit("asc"),
            TokenOf::Pipe => string_of_str_lit("%>%"),
            TokenOf::ArrowRight => string_of_str_lit("->"),
            TokenOf::ArrowLeft => string_of_str_lit("<-"),
            TokenOf::Assignment => string_of_str_lit("="),
            TokenOf::Equal => string_of_str_lit("=="),
            TokenOf::NotEqual => string_of_str_lit("!="),
            TokenOf::LessThan => string_of_str_lit("<"),
            TokenOf::LessThanOrEqual => string_of_str_lit("<="),
            TokenOf::GreaterThan => string_of_str_lit(">"),
            TokenOf::GreaterThanOrEqual => string_of_str_lit(">="),
            TokenOf::And => string_of_str_lit("&"),
            TokenOf::Or => string_of_str_lit("|"),
            TokenOf::Plus => string_of_str_lit("+"),
            TokenOf::Minus => string_of_str_lit("-"),
            TokenOf::Multiply => string_of_str_lit("*"),
            TokenOf::Divide => string_of_str_lit("/"),
            TokenOf::Identifier(name) => name.clone(),
            TokenOf::String(s) => {
                let mut r = string_of_str_lit("\"");
                r.append(s.as_str());
                r.append("\"");
                r
            },
            TokenOf::Number(n) => n.clone(),
            TokenOf::Boolean(b) => if *b {
                string_of_str_lit("true")
            } else {
                string_of_str_lit("false")
            },
            TokenOf::Null => string_of_str_lit("NULL"),
            TokenOf::LeftParen => string_of_str_lit("("),
            TokenOf::RightParen => string_of_str_lit(")"),
            TokenOf::Comma => string_of_str_lit(","),
            TokenOf::Dot => string_of_str_lit("."),
            TokenOf::EOF => string_of_str_lit("EOF"),
            TokenOf::Newline => string_of_str_lit("\\n"),
            TokenOf::Whitespace => string_of_str_lit(" "),
        }
    }

    /// Whether this is the end-of-input token.
    pub fn is_eof(&self) -> (b: bool)
        ensures
            b == (self@ is EOF),
    {
        matches!(self, TokenOf::EOF)
    }

    /// A copy of this token.
    pub fn copy(&self) -> (r: Token)
        ensures
            r@ == self@,
    {
        match self {
            TokenOf::Identifier(s) => TokenOf::Identifier(s.clone()),
            TokenOf::String(s) => TokenOf::String(s.clone()),
            TokenOf::Number(s) => TokenOf::Number(s.clone()),
            TokenOf::Boolean(b) => TokenOf::Boolean(*b),
            TokenOf::Select => TokenOf::Select,
            TokenOf::Filter => TokenOf::Filter,
            TokenOf::Mutate => TokenOf::Mutate,
            TokenOf::Rename => TokenOf::Rename,
            TokenOf::Arrange => TokenOf::Arrange,
            TokenOf::GroupBy => TokenOf::GroupBy,
            TokenOf::Summarise => TokenOf::Summarise,
            TokenOf::InnerJoin => TokenOf::InnerJoin,
            TokenOf::LeftJoin => TokenOf::LeftJoin,
            TokenOf::RightJoin => TokenOf::RightJoin,
            TokenOf::FullJoin => TokenOf::FullJoin,
            TokenOf::SemiJoin => TokenOf::SemiJoin,
            TokenOf::AntiJoin => TokenOf::AntiJoin,
            TokenOf::Intersect => TokenOf::Intersect,
            TokenOf::Union => TokenOf::Union,
            TokenOf::SetDiff => TokenOf::SetDiff,
            TokenOf::Desc => TokenOf::Desc,
            TokenOf::Asc => TokenOf::Asc,
            TokenOf::Pipe => TokenOf::Pipe,
            TokenOf::ArrowRight => TokenOf::ArrowRight,
            TokenOf::ArrowLeft => TokenOf::ArrowLeft,
            TokenOf::Assignment => TokenOf::Assignment,
            TokenOf::Equal => TokenOf::Equal,
            TokenOf::NotEqual => TokenOf::NotEqual,
            TokenOf::LessThan => TokenOf::LessThan,
            TokenOf::LessThanOrEqual => TokenOf::LessThanOrEqual,
            TokenOf::GreaterThan => TokenOf::GreaterThan,
            TokenOf::GreaterThanOrEqual => TokenOf::GreaterThanOrEqual,
            TokenOf::And => TokenOf::And,
            TokenOf::Or => TokenOf::Or,
            TokenOf::Plus => TokenOf::Plus,
            TokenOf::Minus => TokenOf::Minus,
            TokenOf::Multiply => TokenOf::Multiply,
            TokenOf::Divide => TokenOf::Divide,
            TokenOf::Null => TokenOf::Null,
            TokenOf::LeftParen => TokenOf::LeftParen,
            TokenOf::RightParen => TokenOf::RightParen,
            TokenOf::Comma => TokenOf::Comma,
            TokenOf::Dot => TokenOf::Dot,
            TokenOf::EOF => TokenOf::EOF,
            TokenOf::Newline => TokenOf::Newline,
            TokenOf::Whitespace => TokenOf::Whitespace,
        }
    }
}

/// A string holding the characters of `s`.
pub fn string_of_str_lit(s: &str) -> (r: String)
    ensures
        r@ == s@,
{
    String::from_str(s)
}

// ===== Specification of one lexing step =====

/// An ASCII decimal digit.
pub open spec fn is_digit(c: char) -> bool {
    '0' <= c && c <= '9'
}

/// An ASCII letter.
pub open spec fn is_alpha(c: char) -> bool {
    ('a' <= c && c <= 'z') || ('A' <= c && c <= 'Z')
}

/// A character that may continue an identifier (letters, digits, `_`, `.`).
pub open spec fn is_ident_char(c: char) -> bool {
    is_alpha(c) || is_digit(c) || c == '_' || c == '.'
}

/// A character of a numeric literal.
pub open spec fn is_number_char(c: char) -> bool {
    is_digit(c) || c == '.'
}

/// The first position at or after `p` that is not skipped white space
/// (white space other than a newline).
pub open spec fn skip_ws(s: Seq<char>, p: nat) -> nat
    decreases s.len() - p,
{
    if p < s.len() && is_ws(s[p as int]) && s[p as int] != '\n' {
        skip_ws(s, p + 1)
    } else {
        p
    }
}

/// The end of the run of identifier characters that starts at `p`.
pub open spec fn ident_end(s: Seq<char>, p: nat) -> nat
    decreases s.len() - p,
{
    if p < s.len() && is_ident_char(s[p as int]) {
        ident_end(s, p + 1)
    } else {
        p
    }
}

/// The end of the run of digits and dots that starts at `p`.
pub open spec fn number_end(s: Seq<char>, p: nat) -> nat
    decreases s.len() - p,
{
    if p < s.len() && is_number_char(s[p as int]) {
        number_end(s, p + 1)
    } else {
        p
    }
}

/// The number of dots in `t`.
pub open spec fn dot_count(t: Seq<char>) -> nat
    decreases t.len(),
{
    if t.len() == 0 {
        0
    } else {
        dot_count(t.drop_last()) + if t.last() == '.' { 1nat } else { 0nat }
    }
}

/// The index of the first dot in `t`, or its length.
pub open spec fn dot_index(t: Seq<char>) -> nat
    decreases t.len(),
{
    if t.len() == 0 {
        0
    } else if t[0] == '.' {
        0
    } else {
        1 + dot_index(t.drop_first())
    }
}

/// Digits without their leading zeros; `"0"` when nothing is left.
pub open spec fn strip_leading_zeros(d: Seq<char>) -> Seq<char>
    decreases d.len(),
{
    if d.len() == 0 {
        seq!['0']
    } else if d[0] == '0' && d.len() > 1 {
        strip_leading_zeros(d.drop_first())
    } else if d[0] == '0' {
        seq!['0']
    } else {
        d
    }
}

/// Digits without their trailing zeros.
pub open spec fn strip_trailing_zeros(d: Seq<char>) -> Seq<char>
    decreases d.len(),
{
    if d.len() > 0 && d.last() == '0' {
        strip_trailing_zeros(d.drop_last())
    } else {
        d
    }
}

/// The canonical decimal text of a run of digits with at most one dot.
pub open spec fn canonical_number(t: Seq<char>) -> Seq<char> {
    let k = dot_index(t);
    let int_part = strip_leading_zeros(t.take(k as int));
    let frac = if k < t.len() {
        strip_trailing_zeros(t.skip(k + 1 as int))
    } else {
        Seq::empty()
    };
    if frac.len() == 0 {
        int_part
    } else {
        int_part + seq!['.'] + frac
    }
}

/// The token a word of identifier characters stands for: a keyword, a
/// boolean or null literal, or an identifier.
pub open spec fn keyword_token(w: Seq<char>) -> SpecToken {
    if w == "select"@ { TokenOf::Select }
    else if w == "filter"@ { TokenOf::Filter }
    else if w == "mutate"@ { TokenOf::Mutate }
    else if w == "rename"@ { TokenOf::Rename }
    else if w == "arrange"@ { TokenOf::Arrange }
    else if w == "group_by"@ { TokenOf::GroupBy }
    else if w == "summarise"@ { TokenOf::Summarise }
    else if w == "summarize"@ { TokenOf::Summarise }
    else if w == "inner_join"@ { TokenOf::InnerJoin }
    else if w == "left_join"@ { TokenOf::LeftJoin }
    else if w == "right_join"@ { TokenOf::RightJoin }
    else if w == "full_join"@ { TokenOf::FullJoin }
    else if w == "semi_join"@ { TokenOf::SemiJoin }
    else if w == "anti_join"@ { TokenOf::AntiJoin }
    else if w == "intersect"@ { TokenOf::Intersect }
    else if w == "union"@ { TokenOf::Union }
    else if w == "setdiff"@ { TokenOf::SetDiff }
    else if w == "desc"@ { TokenOf::Desc }
    else if w == "asc"@ { TokenOf::Asc }
    else if w == "TRUE"@ || w == "true"@ { TokenOf::Boolean(true) }
    else if w == "FALSE"@ || w == "false"@ { TokenOf::Boolean(false) }
    else if w == "NULL"@ || w == "null"@ || w == "NA"@ { TokenOf::Null }
    else { TokenOf::Identifier(w) }
}

/// The character an escape `\c` stands for in a string literal.
pub open spec fn escape_char(c: char) -> char {
    if c == 'n' { '\n' }
    else if c == 't' { '\t' }
    else if c == 'r' { '\r' }
    else { c }
}

/// Scans the body of a string literal from `p` (after the opening quote),
/// with `acc` the characters read so far.
pub open spec fn scan_string(s: Seq<char>, p: nat, quote: char, acc: Seq<char>) -> (Result<SpecToken, SpecLexError>, nat)
    decreases s.len() - p,
{
    if p >= s.len() {
        (Err(LexErrorOf::UnterminatedString(p as usize)), p)
    } else if s[p as int] == quote {
        (Ok(TokenOf::String(acc)), p + 1)
    } else if s[p as int] == '\\' {
        if p + 1 >= s.len() {
            (Err(LexErrorOf::UnterminatedString((p + 1) as usize)), p + 1)
        } else {
            scan_string(s, p + 2, quote, acc.push(escape_char(s[p + 1 as int])))
        }
    } else {
        scan_string(s, p + 1, quote, acc.push(s[p as int]))
    }
}

/// Reads a number starting at `p`.
pub open spec fn lex_number(s: Seq<char>, p: nat) -> (Result<SpecToken, SpecLexError>, nat) {
    let e = number_end(s, p);
    let text = s.subrange(p as int, e as int);
    if dot_count(text) <= 1 {
        (Ok(TokenOf::Number(canonical_number(text))), e)
    } else {
        (Err(LexErrorOf::InvalidNumber(text, e as usize)), e)
    }
}

/// The character at `p`, if any.
pub open spec fn char_at(s: Seq<char>, p: nat) -> Option<char> {
    if p < s.len() { Some(s[p as int]) } else { None }
}

/// One step of the lexer: from position `p` of `s`, the token or error it
/// produces and the position where it stops.
pub open spec fn lex_step(s: Seq<char>, p: nat) -> (Result<SpecToken, SpecLexError>, nat) {
    let q = skip_ws(s, p);
    if q >= s.len() {
        (Ok(TokenOf::EOF), q)
    } else {
        let c = s[q as int];
        let next = char_at(s, q + 1);
        if c == '(' { (Ok(TokenOf::LeftParen), q + 1) }
        else if c == ')' { (Ok(TokenOf::RightParen), q + 1) }
        else if c == ',' { (Ok(TokenOf::Comma), q + 1) }
        else if c == '.' {
            if next.is_some() && is_digit(next.unwrap()) {
                lex_number(s, q)
            } else {
                (Ok(TokenOf::Dot), q + 1)
            }
        }
        else if c == '+' { (Ok(TokenOf::Plus), q + 1) }
        else if c == '-' {
            if next == Some('>') { (Ok(TokenOf::ArrowRight), q + 2) } else { (Ok(TokenOf::Minus), q + 1) }
        }
        else if c == '*' { (Ok(TokenOf::Multiply), q + 1) }
        else if c == '/' { (Ok(TokenOf::Divide), q + 1) }
        else if c == '=' {
            if next == Some('=') { (Ok(TokenOf::Equal), q + 2) } else { (Ok(TokenOf::Assignment), q + 1) }
        }
        else if c == '!' {
            if next == Some('=') {
                (Ok(TokenOf::NotEqual), q + 2)
            } else {
                (Err(LexErrorOf::UnexpectedCharacter('!', (q + 1) as usize)), q + 1)
            }
        }
        else if c == '<' {
            if next == Some('-') { (Ok(TokenOf::ArrowLeft), q + 2) }
            else if next == Some('=') { (Ok(TokenOf::LessThanOrEqual), q + 2) }
            else { (Ok(TokenOf::LessThan), q + 1) }
        }
        else if c == '>' {
            if next == Some('=') { (Ok(TokenOf::GreaterThanOrEqual), q + 2) } else { (Ok(TokenOf::GreaterThan), q + 1) }
        }
        else if c == '&' { (Ok(TokenOf::And), q + 1) }
        else if c == '|' { (Ok(TokenOf::Or), q + 1) }
        else if c == '%' {
            if next == Some('>') {
                if char_at(s, q + 2) == Some('%') {
                    (Ok(TokenOf::Pipe), q + 3)
                } else {
                    (Err(LexErrorOf::InvalidPipeOperator("%>"@, q as usize)), q + 2)
                }
            } else {
                match next {
                    Some(d) => (Err(LexErrorOf::InvalidPipeOperator(seq!['%', d], q as usize)), q + 1),
                    None => (Err(LexErrorOf::InvalidPipeOperator(seq!['%'], q as usize)), q + 1),
                }
            }
        }
        else if c == '"' || c == '\'' { scan_string(s, q + 1, c, Seq::empty()) }
        else if c == '\n' { (Ok(TokenOf::Newline), q + 1) }
        else if is_digit(c) { lex_number(s, q) }
        else if is_alpha(c) || c == '_' {
            let e = ident_end(s, q);
            (Ok(keyword_token(s.subrange(q as int, e as int))), e)
        }
        else { (Err(LexErrorOf::UnexpectedCharacter(c, q as usize)), q) }
    }
}

// ===== The token stream =====

/// The tokens the lexer produces from position `p` of `s`, up to and
/// including the end-of-input token, or up to the first error, which is
/// returned beside them.
pub open spec fn lex_from(s: Seq<char>, p: nat) -> (Seq<SpecToken>, Option<SpecLexError>)
    decreases s.len() - p,
{
    let (r, q) = lex_step(s, p);
    match r {
        Err(e) => (Seq::empty(), Some(e)),
        Ok(t) => {
            if t is EOF || q <= p || q > s.len() {
                (seq![t], None)
            } else {
                let (ts, e) = lex_from(s, q);
                (seq![t] + ts, e)
            }
        },
    }
}

proof fn lemma_skip_ws_bounds(s: Seq<char>, p: nat)
    requires
        p <= s.len(),
    ensures
        p <= skip_ws(s, p) <= s.len(),
    decreases s.len() - p,
{
    if p < s.len() && is_ws(s[p as int]) && s[p as int] != '\n' {
        lemma_skip_ws_bounds(s, p + 1);
    }
}

proof fn lemma_number_end_bounds(s: Seq<char>, p: nat)
    requires
        p <= s.len(),
    ensures
        p <= number_end(s, p) <= s.len(),
    decreases s.len() - p,
{
    if p < s.len() && is_number_char(s[p as int]) {
        lemma_number_end_bounds(s, p + 1);
    }
}

proof fn lemma_ident_end_bounds(s: Seq<char>, p: nat)
    requires
        p <= s.len(),
    ensures
        p <= ident_end(s, p) <= s.len(),
    decreases s.len() - p,
{
    if p < s.len() && is_ident_char(s[p as int]) {
        lemma_ident_end_bounds(s, p + 1);
    }
}

proof fn lemma_scan_string_bounds(s: Seq<char>, p: nat, quote: char, acc: Seq<char>)
    requires
        p <= s.len(),
    ensures
        p <= scan_string(s, p, quote, acc).1 <= s.len() + 1,
        scan_string(s, p, quote, acc).0 is Ok ==> p < scan_string(s, p, quote, acc).1 <= s.len(),
    decreases s.len() - p,
{
    if p >= s.len() {
    } else if s[p as int] == quote {
    } else if s[p as int] == '\\' {
        if p + 1 >= s.len() {
        } else {
            lemma_scan_string_bounds(s, p + 2, quote, acc.push(escape_char(s[p + 1 as int])));
        }
    } else {
        lemma_scan_string_bounds(s, p + 1, quote, acc.push(s[p as int]));
    }
}

/// A lexing step that yields a token other than end-of-input consumes at
/// least one character, and no step runs past the input.
pub proof fn lemma_lex_step_progress(s: Seq<char>, p: nat)
    requires
        p <= s.len(),
    ensures
        p <= lex_step(s, p).1 <= s.len() + 1,
        lex_step(s, p).0 is Ok ==> lex_step(s, p).1 <= s.len(),
        (lex_step(s, p).0 matches Ok(t) && !(t is EOF)) ==> p < lex_step(s, p).1,
{
    lemma_skip_ws_bounds(s, p);
    let q = skip_ws(s, p);
    if q < s.len() {
        lemma_number_end_bounds(s, q);
        lemma_ident_end_bounds(s, q);
        if q + 1 <= s.len() {
            lemma_scan_string_bounds(s, q + 1, s[q as int], Seq::empty());
        }
        let c = s[q as int];
        if c == '.' || is_digit(c) {
            assert(is_number_char(s[q as int]));
            lemma_number_end_bounds(s, q + 1);
            assert(number_end(s, q) == number_end(s, q + 1));
        }
        if is_alpha(c) || c == '_' {
            assert(is_ident_char(s[q as int]));
            lemma_ident_end_bounds(s, q + 1);
            assert(ident_end(s, q) == ident_end(s, q + 1));
        }
    }
}

/// When lexing from `p` meets no error, the tokens end with the end-of-input
/// token, and no token before the last one is end-of-input.
pub proof fn law_lexing_ends_with_eof(s: Seq<char>, p: nat)
    requires
        p <= s.len(),
        lex_from(s, p).1 is None,
    ensures
        lex_from(s, p).0.len() > 0,
        lex_from(s, p).0.last() is EOF,
        forall|i: int| 0 <= i < lex_from(s, p).0.len() - 1 ==> !(#[trigger] lex_from(s, p).0[i] is EOF),
    decreases s.len() - p,
{
    lemma_lex_step_progress(s, p);
    let (r, q) = lex_step(s, p);
    match r {
        Err(e) => {},
        Ok(t) => {
            if t is EOF || q <= p || q > s.len() {
            } else {
                law_lexing_ends_with_eof(s, q);
                let ts = lex_from(s, q).0;
                assert(lex_from(s, p).0 == seq![t] + ts);
                assert forall|i: int| 0 <= i < lex_from(s, p).0.len() - 1 implies !(#[trigger] lex_from(s, p).0[i] is EOF) by {
                    if i > 0 {
                        assert(lex_from(s, p).0[i] == ts[i - 1]);
                    }
                }
            }
        },
    }
}

// ===== The lexer =====

/// Lexer: tokenizes an input string one token at a time.
pub struct Lexer {
    input: Vec<char>,
    position: usize,
}

impl Lexer {
    /// The characters being tokenized.
    pub closed spec fn input_chars(&self) -> Seq<char> {
        self.input@
    }

    /// The position of the next character to read.
    pub closed spec fn pos(&self) -> nat {
        self.position as nat
    }

    #[verifier::type_invariant]
    closed spec fn well_formed(&self) -> bool {
        self.position <= self.input.len()
    }

    /// Creates a lexer positioned at the start of `input`.
    pub fn new(input: String) -> (l: Lexer)
        ensures
            l.input_chars() == input@,
            l.pos() == 0,
    {
        let chars = chars_of(input.as_str());
        Lexer { input: chars, position: 0 }
    }

    /// The position of the next character to read.
    pub fn position_value(&self) -> (p: usize)
        ensures
            p as nat == self.pos(),
    {
        self.position
    }

    /// Returns the next token, or the error found where it should start.
    pub fn next_token(&mut self) -> (r: Result<Token, LexError>)
        ensures
            final(self).input_chars() == old(self).input_chars(),
            (lex_result_view(r), final(self).pos()) == lex_step(old(self).input_chars(), old(self).pos()),
    {
        proof {
            use_type_invariant(&*self);
        }
        let (r, q) = lex_at(&self.input, self.position);
        self.position = q;
        r
    }
}

/// The first position at or after `p` that is not skipped white space.
fn skip_ws_exec(s: &Vec<char>, p: usize) -> (q: usize)
    requires
        p <= s.len(),
    ensures
        q == skip_ws(s@, p as nat),
        p <= q <= s.len(),
{
    let mut q = p;
    while q < s.len() && is_whitespace(s[q]) && s[q] != '\n'
        invariant
            p <= q <= s.len(),
            skip_ws(s@, q as nat) == skip_ws(s@, p as nat),
        decreases s.len() - q,
    {
        q = q + 1;
    }
    q
}

/// Whether `c` is an ASCII digit.
fn is_digit_exec(c: char) -> (b: bool)
    ensures
        b == is_digit(c),
{
    '0' <= c && c <= '9'
}

/// Whether `c` is an ASCII letter.
fn is_alpha_exec(c: char) -> (b: bool)
    ensures
        b == is_alpha(c),
{
    ('a' <= c && c <= 'z') || ('A' <= c && c <= 'Z')
}

/// The character at `p`, if any.
fn char_at_exec(s: &Vec<char>, p: usize) -> (r: Option<char>)
    ensures
        r == char_at(s@, p as nat),
{
    if p < s.len() { Some(s[p]) } else { None }
}

/// The characters `s[a..b]`.
fn slice_chars(s: &Vec<char>, a: usize, b: usize) -> (r: Vec<char>)
    requires
        a <= b <= s.len(),
    ensures
        r@ == s@.subrange(a as int, b as int),
{
    let mut r: Vec<char> = Vec::new();
    let mut i = a;
    while i < b
        invariant
            a <= i <= b <= s.len(),
            r@ == s@.subrange(a as int, i as int),
        decreases b - i,
    {
        r.push(s[i]);
        assert(s@.subrange(a as int, i as int + 1) =~= s@.subrange(a as int, i as int).push(s@[i as int]));
        i = i + 1;
    }
    r
}

proof fn lemma_dot_count_push(t: Seq<char>, c: char)
    ensures
        dot_count(t.push(c)) == dot_count(t) + if c == '.' { 1nat } else { 0nat },
{
    assert(t.push(c).drop_last() =~= t);
}

/// Reads a numeric literal starting at `p`.
fn lex_number_exec(s: &Vec<char>, p: usize) -> (r: (Result<Token, LexError>, usize))
    requires
        p <= s.len(),
    ensures
        (lex_result_view(r.0), r.1 as nat) == lex_number(s@, p as nat),
        p <= r.1 <= s.len(),
{
    let mut e = p;
    let mut dots: usize = 0;
    assert(s@.subrange(p as int, p as int) =~= Seq::<char>::empty());
    while e < s.len() && (is_digit_exec(s[e]) || s[e] == '.')
        invariant
            p <= e <= s.len(),
            number_end(s@, e as nat) == number_end(s@, p as nat),
            dots == dot_count(s@.subrange(p as int, e as int)),
            dots <= e - p,
        decreases s.len() - e,
    {
        proof {
            lemma_dot_count_push(s@.subrange(p as int, e as int), s@[e as int]);
            assert(s@.subrange(p as int, e as int + 1) =~= s@.subrange(p as int, e as int).push(s@[e as int]));
        }
        if s[e] == '.' {
            dots = dots + 1;
        }
        e = e + 1;
    }
    let text = slice_chars(s, p, e);
    if dots <= 1 {
        let canon = canonical_number_exec(&text, dots);
        (Ok(TokenOf::Number(string_of_chars(&canon))), e)
    } else {
        (Err(LexErrorOf::InvalidNumber(string_of_chars(&text), e)), e)
    }
}

proof fn lemma_dot_index(t: Seq<char>, k: int)
    requires
        0 <= k <= t.len(),
        forall|j: int| 0 <= j < k ==> t[j] != '.',
        k == t.len() || t[k] == '.',
    ensures
        dot_index(t) == k,
    decreases k,
{
    if k > 0 {
        lemma_dot_index(t.drop_first(), k - 1);
    }
}

proof fn lemma_strip_leading(d: Seq<char>, i: int)
    requires
        0 <= i < d.len(),
        forall|j: int| 0 <= j < i ==> d[j] == '0',
    ensures
        strip_leading_zeros(d) == strip_leading_zeros(d.skip(i)),
    decreases i,
{
    if i > 0 {
        assert(d.drop_first().skip(i - 1) =~= d.skip(i));
        lemma_strip_leading(d.drop_first(), i - 1);
    } else {
        assert(d.skip(0) =~= d);
    }
}

proof fn lemma_strip_trailing(d: Seq<char>, j: int)
    requires
        0 <= j <= d.len(),
        forall|k: int| j <= k < d.len() ==> d[k] == '0',
    ensures
        strip_trailing_zeros(d) == strip_trailing_zeros(d.take(j)),
    decreases d.len() - j,
{
    if j < d.len() {
        assert(d.drop_last().take(j) =~= d.take(j));
        lemma_strip_trailing(d.drop_last(), j);
    } else {
        assert(d.take(j) =~= d);
    }
}

/// The canonical decimal text of a run of digits holding `dots <= 1` dots.
fn canonical_number_exec(t: &Vec<char>, dots: usize) -> (r: Vec<char>)
    requires
        dots <= 1,
    ensures
        r@ == canonical_number(t@),
{
    let mut k: usize = 0;
    while k < t.len() && t[k] != '.'
        invariant
            k <= t.len(),
            forall|j: int| 0 <= j < k ==> t@[j] != '.',
        decreases t.len() - k,
    {
        k = k + 1;
    }
    proof {
        lemma_dot_index(t@, k as int);
    }
    // integer part: t[0..k] without leading zeros
    let mut out: Vec<char> = Vec::new();
    if k == 0 {
        out.push('0');
        assert(t@.take(0) =~= Seq::<char>::empty());
        assert(out@ =~= strip_leading_zeros(t@.take(k as int)));
    } else {
        let mut a: usize = 0;
        while a < k - 1 && t[a] == '0'
            invariant
                0 < k <= t.len(),
                a <= k - 1,
                forall|j: int| 0 <= j < a ==> t@[j] == '0',
            decreases k - a,
        {
            a = a + 1;
        }
        let ghost ip = t@.take(k as int);
        proof {
            assert forall|j: int| 0 <= j < a implies ip[j] == '0' by {}
            lemma_strip_leading(ip, a as int);
        }
        let mut i = a;
        while i < k
            invariant
                a <= i <= k <= t.len(),
                out@ == t@.subrange(a as int, i as int),
            decreases k - i,
        {
            out.push(t[i]);
            assert(t@.subrange(a as int, i as int + 1) =~= t@.subrange(a as int, i as int).push(t@[i as int]));
            i = i + 1;
        }
        proof {
            let rest = ip.skip(a as int);
            assert(rest =~= t@.subrange(a as int, k as int));
            if a < k - 1 {
                assert(t@[a as int] != '0');
            }
            assert(strip_leading_zeros(rest) == rest);
        }
    }
    let ghost int_part = out@;
    assert(int_part == strip_leading_zeros(t@.take(k as int)));
    if k < t.len() {
        // fraction: t[k+1..] without trailing zeros
        let mut b: usize = t.len();
        while b > k + 1 && t[b - 1] == '0'
            invariant
                k + 1 <= b <= t.len(),
                forall|j: int| b <= j < t.len() ==> t@[j] == '0',
            decreases b,
        {
            b = b - 1;
        }
        let ghost fr = t@.skip(k + 1);
        proof {
            assert forall|j: int| b - (k + 1) <= j < fr.len() implies fr[j] == '0' by {
                assert(fr[j] == t@[j + k + 1]);
            }
            lemma_strip_trailing(fr, b - (k + 1));
            let ft = fr.take(b - (k + 1));
            assert(ft =~= t@.subrange(k + 1, b as int));
            if b > k + 1 {
                assert(ft.last() == t@[b - 1]);
            }
            assert(strip_trailing_zeros(ft) == ft);
        }
        if b > k + 1 {
            out.push('.');
            let mut i = k + 1;
            while i < b
                invariant
                    k + 1 <= i <= b <= t.len(),
                    out@ == int_part + seq!['.'] + t@.subrange(k + 1, i as int),
                decreases b - i,
            {
                out.push(t[i]);
                assert(int_part + seq!['.'] + t@.subrange(k + 1, i as int + 1) =~= (int_part + seq!['.'] + t@.subrange(k + 1, i as int)).push(t@[i as int]));
                i = i + 1;
            }
        }
    }
    out
}

/// Whether the characters `v` spell the literal `w`.
fn chars_are(v: &Vec<char>, w: &str) -> (b: bool)
    ensures
        b == (v@ == w@),
{
    let s = string_of_chars(v);
    str_eq(s.as_str(), w)
}

/// The token a word of identifier characters stands for.
fn keyword_token_exec(w: &Vec<char>) -> (t: Token)
    ensures
        t@ == keyword_token(w@),
{
    if chars_are(w, "select") { TokenOf::Select }
    else if chars_are(w, "filter") { TokenOf::Filter }
    else if chars_are(w, "mutate") { TokenOf::Mutate }
    else if chars_are(w, "rename") { TokenOf::Rename }
    else if chars_are(w, "arrange") { TokenOf::Arrange }
    else if chars_are(w, "group_by") { TokenOf::GroupBy }
    else if chars_are(w, "summarise") { TokenOf::Summarise }
    else if chars_are(w, "summarize") { TokenOf::Summarise }
    else if chars_are(w, "inner_join") { TokenOf::InnerJoin }
    else if chars_are(w, "left_join") { TokenOf::LeftJoin }
    else if chars_are(w, "right_join") { TokenOf::RightJoin }
    else if chars_are(w, "full_join") { TokenOf::FullJoin }
    else if chars_are(w, "semi_join") { TokenOf::SemiJoin }
    else if chars_are(w, "anti_join") { TokenOf::AntiJoin }
    else if chars_are(w, "intersect") { TokenOf::Intersect }
    else if chars_are(w, "union") { TokenOf::Union }
    else if chars_are(w, "setdiff") { TokenOf::SetDiff }
    else if chars_are(w, "desc") { TokenOf::Desc }
    else if chars_are(w, "asc") { TokenOf::Asc }
    else if chars_are(w, "TRUE") || chars_are(w, "true") { TokenOf::Boolean(true) }
    else if chars_are(w, "FALSE") || chars_are(w, "false") { TokenOf::Boolean(false) }
    else if chars_are(w, "NULL") || chars_are(w, "null") || chars_are(w, "NA") { TokenOf::Null }
    else { TokenOf::Identifier(string_of_chars(w)) }
}

/// Scans a string literal body from `p`, after the opening quote.
fn scan_string_exec(s: &Vec<char>, p: usize, quote: char) -> (r: (Result<Token, LexError>, usize))
    requires
        p <= s.len(),
    ensures
        (lex_result_view(r.0), r.1 as nat) == scan_string(s@, p as nat, quote, Seq::empty()),
        r.1 <= s.len(),
{
    let mut acc: Vec<char> = Vec::new();
    let mut i = p;
    while i < s.len()
        invariant
            p <= i <= s.len(),
            scan_string(s@, i as nat, quote, acc@) == scan_string(s@, p as nat, quote, Seq::empty()),
        decreases s.len() - i,
    {
        let c = s[i];
        if c == quote {
            return (Ok(TokenOf::String(string_of_chars(&acc))), i + 1);
        } else if c == '\\' {
            if i + 1 >= s.len() {
                return (Err(LexErrorOf::UnterminatedString(i + 1)), i + 1);
            }
            let d = s[i + 1];
            let e = if d == 'n' { '\n' } else if d == 't' { '\t' } else if d == 'r' { '\r' } else { d };
            acc.push(e);
            i = i + 2;
        } else {
            acc.push(c);
            i = i + 1;
        }
    }
    (Err(LexErrorOf::UnterminatedString(i)), i)
}

/// All tokens from the lexer's position on, up to the end-of-input token or
/// the first error.
pub fn tokenize(lexer: &mut Lexer) -> (r: (Vec<Token>, Option<LexError>))
    ensures
        r.0@.map_values(|t: Token| t@) == lex_from(old(lexer).input_chars(), old(lexer).pos()).0,
        opt_lex_view(r.1) == lex_from(old(lexer).input_chars(), old(lexer).pos()).1,
{
    proof {
        use_type_invariant(&*lexer);
    }
    let ghost s = old(lexer).input_chars();
    let ghost p0 = old(lexer).pos();
    let mut toks: Vec<Token> = Vec::new();
    let mut err: Option<LexError> = None;
    let mut done = false;
    assert(toks@.map_values(|t: Token| t@) + lex_from(s, p0).0 =~= lex_from(s, p0).0);
    while !done
        invariant
            lexer.input_chars() == s,
            lexer.pos() <= s.len(),
            !done ==> toks@.map_values(|t: Token| t@) + lex_from(s, lexer.pos()).0 == lex_from(s, p0).0,
            !done ==> lex_from(s, lexer.pos()).1 == lex_from(s, p0).1,
            !done ==> err is None,
            done ==> toks@.map_values(|t: Token| t@) == lex_from(s, p0).0,
            done ==> opt_lex_view(err) == lex_from(s, p0).1,
        decreases s.len() - lexer.pos() + if done { 0int } else { 1int },
    {
        proof {
            use_type_invariant(&*lexer);
            lemma_lex_step_progress(s, lexer.pos());
        }
        let p_exec = lexer.position_value();
        let ghost p = lexer.pos();
        let r = lexer.next_token();
        proof {
            use_type_invariant(&*lexer);
        }
        match r {
            Err(e) => {
                assert(lex_from(s, p).0 == Seq::<SpecToken>::empty());
                assert(lex_from(s, p).1 == Some(e@));
                assert(toks@.map_values(|t: Token| t@) + Seq::<SpecToken>::empty() =~= toks@.map_values(|t: Token| t@));
                let ghost ev = e@;
                err = Some(e);
                assert(opt_lex_view(err) == Some(ev));
                assert(Some(ev) == lex_from(s, p0).1);
                done = true;
            },
            Ok(t) => {
                let is_eof = t.is_eof();
                let ghost tv = t@;
                let ghost before = toks@.map_values(|t: Token| t@);
                toks.push(t);
                assert(toks@.map_values(|t: Token| t@) =~= before.push(tv));
                if is_eof || lexer.position_value() <= p_exec {
                    assert(lex_from(s, p).0 == seq![tv]);
                    assert(lex_from(s, p).1 == None::<SpecLexError>);
                    assert(before + seq![tv] =~= before.push(tv));
                    done = true;
                } else {
                    assert(lex_from(s, p).0 == seq![tv] + lex_from(s, lexer.pos()).0);
                    assert(lex_from(s, p).1 == lex_from(s, lexer.pos()).1);
                    assert(before + (seq![tv] + lex_from(s, lexer.pos()).0) =~= before.push(tv) + lex_from(s, lexer.pos()).0);
                }
            },
        }
    }
    (toks, err)
}

/// The view of an optional lexing error.
pub open spec fn opt_lex_view(e: Option<LexError>) -> Option<SpecLexError> {
    match e {
        Some(x) => Some(x@),
        None => None,
    }
}

/// One lexing step from `p`: the token or error, and where it stops.
fn lex_at(s: &Vec<char>, p: usize) -> (r: (Result<Token, LexError>, usize))
    requires
        p <= s.len(),
    ensures
        (lex_result_view(r.0), r.1 as nat) == lex_step(s@, p as nat),
        r.1 <= s.len(),
{
    let q = skip_ws_exec(s, p);
    if q >= s.len() {
        return (Ok(TokenOf::EOF), q);
    }
    let c = s[q];
    let next = char_at_exec(s, q + 1);
    if c == '(' { (Ok(TokenOf::LeftParen), q + 1) }
    else if c == ')' { (Ok(TokenOf::RightParen), q + 1) }
    else if c == ',' { (Ok(TokenOf::Comma), q + 1) }
    else if c == '.' {
        if next.is_some() && is_digit_exec(next.unwrap()) {
            lex_number_exec(s, q)
        } else {
            (Ok(TokenOf::Dot), q + 1)
        }
    }
    else if c == '+' { (Ok(TokenOf::Plus), q + 1) }
    else if c == '-' {
        if next == Some('>') { (Ok(TokenOf::ArrowRight), q + 2) } else { (Ok(TokenOf::Minus), q + 1) }
    }
    else if c == '*' { (Ok(TokenOf::Multiply), q + 1) }
    else if c == '/' { (Ok(TokenOf::Divide), q + 1) }
    else if c == '=' {
        if next == Some('=') { (Ok(TokenOf::Equal), q + 2) } else { (Ok(TokenOf::Assignment), q + 1) }
    }
    else if c == '!' {
        if next == Some('=') {
            (Ok(TokenOf::NotEqual), q + 2)
        } else {
            (Err(LexErrorOf::UnexpectedCharacter('!', q + 1)), q + 1)
        }
    }
    else if c == '<' {
        if next == Some('-') { (Ok(TokenOf::ArrowLeft), q + 2) }
        else if next == Some('=') { (Ok(TokenOf::LessThanOrEqual), q + 2) }
        else { (Ok(TokenOf::LessThan), q + 1) }
    }
    else if c == '>' {
        if next == Some('=') { (Ok(TokenOf::GreaterThanOrEqual), q + 2) } else { (Ok(TokenOf::GreaterThan), q + 1) }
    }
    else if c == '&' { (Ok(TokenOf::And), q + 1) }
    else if c == '|' { (Ok(TokenOf::Or), q + 1) }
    else if c == '%' {
        if next == Some('>') {
            if char_at_exec(s, q + 2) == Some('%') {
                (Ok(TokenOf::Pipe), q + 3)
            } else {
                (Err(LexErrorOf::InvalidPipeOperator(string_of_str_lit("%>"), q)), q + 2)
            }
        } else {
            let mut t: Vec<char> = Vec::new();
            t.push('%');
            match next {
                Some(d) => {
                    t.push(d);
                    assert(t@ =~= seq!['%', d]);
                },
                None => {
                    assert(t@ =~= seq!['%']);
                },
            }
            (Err(LexErrorOf::InvalidPipeOperator(string_of_chars(&t), q)), q + 1)
        }
    }
    else if c == '"' || c == '\'' { scan_string_exec(s, q + 1, c) }
    else if c == '\n' { (Ok(TokenOf::Newline), q + 1) }
    else if is_digit_exec(c) { lex_number_exec(s, q) }
    else if is_alpha_exec(c) || c == '_' {
        let mut e = q;
        while e < s.len() && (is_alpha_exec(s[e]) || is_digit_exec(s[e]) || s[e] == '_' || s[e] == '.')
            invariant
                q <= e <= s.len(),
                ident_end(s@, e as nat) == ident_end(s@, q as nat),
            decreases s.len() - e,
        {
            e = e + 1;
        }
        let w = slice_chars(s, q, e);
        (Ok(keyword_token_exec(&w)), e)
    }
    else { (Err(LexErrorOf::UnexpectedCharacter(c, q)), q) }
}

} // verus!
