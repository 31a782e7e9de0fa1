//! Parser: turns the token stream of a dplyr pipeline into an AST.
//!
//! The specification is a recursive-descent grammar over the token stream
//! (`TokenStream`): each `spec_parse_*` function says what a parsing step
//! yields from a token index, and where it stops.  The executable parser is
//! proved to compute exactly these results.

use crate::error::{LexError, LexErrorOf, ParseError, ParseErrorOf};
use crate::lexer::{
    lex_from, opt_lex_view, string_of_str_lit, token_text, tokenize, Lexer, SpecLexError, SpecToken,
    Token, TokenOf,
};
use crate::text::{push_char, str_eq, strings_view};
use vstd::prelude::*;
use vstd::string::*;

verus! {

// ===== AST =====

/// Source code location information.
#[derive(Debug, Clone, Copy, PartialEq, Eq)]
pub struct SourceLocation {
    pub line: usize,
    pub column: usize,
    pub offset: usize,
}

impl SourceLocation {
    /// A location from its parts.
    pub fn new(line: usize, column: usize, offset: usize) -> (r: SourceLocation)
        ensures
            r == (SourceLocation { line, column, offset }),
    {
        SourceLocation { line, column, offset }
    }

    /// The location used where none is known: all parts zero.
    pub fn unknown() -> (r: SourceLocation)
        ensures
            r == (SourceLocation { line: 0, column: 0, offset: 0 }),
    {
        SourceLocation { line: 0, column: 0, offset: 0 }
    }
}

/// Literal value types.
#[derive(Debug, Clone, PartialEq)]
pub enum LiteralValueOf<S> {
    String(S),
    /// A number, held as its canonical decimal text (see `TokenOf::Number`).
    Number(S),
    Boolean(bool),
    Null,
}

/// A literal as the parser hands it out.
pub type LiteralValue = LiteralValueOf<String>;

/// Binary operator types.
#[derive(Debug, Clone, Copy, PartialEq, Eq)]
pub enum BinaryOp {
    Equal,
    NotEqual,
    LessThan,
    LessThanOrEqual,
    GreaterThan,
    GreaterThanOrEqual,
    And,
    Or,
    Plus,
    Minus,
    Multiply,
    Divide,
}

/// Expression types.
#[derive(Debug, PartialEq)]
pub enum Expr {
    Identifier(String),
    Literal(LiteralValue),
    Binary { left: Box<Expr>, operator: BinaryOp, right: Box<Expr> },
    Function { name: String, args: Vec<Expr> },
}

/// The view of an expression.
pub enum SpecExpr {
    Identifier(Seq<char>),
    Literal(LiteralValueOf<Seq<char>>),
    Binary { left: Box<SpecExpr>, operator: BinaryOp, right: Box<SpecExpr> },
    Function { name: Seq<char>, args: Seq<SpecExpr> },
}

/// Column expression (with alias support).
#[derive(Debug, Clone, PartialEq)]
pub struct ColumnExpr {
    pub expr: Expr,
    pub alias: Option<String>,
}

/// The view of a column expression.
pub struct SpecColumnExpr {
    pub expr: SpecExpr,
    pub alias: Option<Seq<char>>,
}

/// Sort direction.
#[derive(Debug, Clone, Copy, PartialEq, Eq)]
pub enum OrderDirection {
    Asc,
    Desc,
}

/// Sort expression.
#[derive(Debug, Clone, PartialEq, Eq)]
pub struct OrderExprOf<S> {
    pub column: S,
    pub direction: OrderDirection,
}

/// A sort expression as the parser hands it out.
pub type OrderExpr = OrderExprOf<String>;

/// Assignment statement (used in mutate).
#[derive(Debug, Clone, PartialEq)]
pub struct Assignment {
    pub column: String,
    pub expr: Expr,
}

/// The view of an assignment.
pub struct SpecAssignment {
    pub column: Seq<char>,
    pub expr: SpecExpr,
}

/// Aggregation operation (used in summarise).
#[derive(Debug, Clone, PartialEq, Eq)]
pub struct AggregationOf<S> {
    pub function: S,
    pub column: S,
    pub alias: Option<S>,
}

/// An aggregation as the parser hands it out.
pub type Aggregation = AggregationOf<String>;

/// A `rename` pair: the new name of a column and its old one.
#[derive(Debug, Clone, PartialEq, Eq)]
pub struct RenameSpec {
    pub new_name: String,
    pub old_name: String,
}

/// Join types of the extended grammar.
#[derive(Debug, Clone, Copy, PartialEq, Eq)]
pub enum JoinType {
    Inner,
    Left,
    Right,
    Full,
    Semi,
    Anti,
}

/// What a join is made with: a table, and a column or a condition.
#[derive(Debug, Clone, PartialEq)]
pub struct JoinSpec {
    pub table: String,
    pub by_column: Option<String>,
    pub on_expr: Option<Expr>,
}

/// A join of the extended grammar.
#[derive(Debug, Clone, PartialEq)]
pub struct Join {
    pub join_type: JoinType,
    pub spec: JoinSpec,
}

/// Set operations of the extended grammar.
#[derive(Debug, Clone, Copy, PartialEq, Eq)]
pub enum SetOperation {
    Intersect,
    Union,
    SetDiff,
}

/// A set operation with the table on its right.
#[derive(Debug, Clone, PartialEq, Eq)]
pub struct SetOp {
    pub operation: SetOperation,
    pub right_table: String,
}

/// dplyr operation types.
#[derive(Debug, Clone, PartialEq)]
pub enum DplyrOperation {
    Select { columns: Vec<ColumnExpr>, location: SourceLocation },
    Filter { condition: Expr, location: SourceLocation },
    Mutate { assignments: Vec<Assignment>, location: SourceLocation },
    Arrange { columns: Vec<OrderExpr>, location: SourceLocation },
    GroupBy { columns: Vec<String>, location: SourceLocation },
    Summarise { aggregations: Vec<Aggregation>, location: SourceLocation },
}

/// The view of an operation.
pub enum SpecOperation {
    Select { columns: Seq<SpecColumnExpr>, location: SourceLocation },
    Filter { condition: SpecExpr, location: SourceLocation },
    Mutate { assignments: Seq<SpecAssignment>, location: SourceLocation },
    Arrange { columns: Seq<OrderExprOf<Seq<char>>>, location: SourceLocation },
    GroupBy { columns: Seq<Seq<char>>, location: SourceLocation },
    Summarise { aggregations: Seq<AggregationOf<Seq<char>>>, location: SourceLocation },
}

/// Top-level node of the dplyr AST.
#[derive(Debug, Clone, PartialEq)]
pub enum DplyrNode {
    Pipeline { operations: Vec<DplyrOperation>, location: SourceLocation },
    DataSource { name: String, location: SourceLocation },
}

/// The view of a top-level node.
pub enum SpecNode {
    Pipeline { operations: Seq<SpecOperation>, location: SourceLocation },
    DataSource { name: Seq<char>, location: SourceLocation },
}

/// The view of a parsing error.
pub type SpecParseError = ParseErrorOf<Seq<char>>;

impl View for LiteralValueOf<String> {
    type V = LiteralValueOf<Seq<char>>;

    open spec fn view(&self) -> LiteralValueOf<Seq<char>> {
        match self {
            LiteralValueOf::String(s) => LiteralValueOf::String(s@),
            LiteralValueOf::Number(s) => LiteralValueOf::Number(s@),
            LiteralValueOf::Boolean(b) => LiteralValueOf::Boolean(*b),
            LiteralValueOf::Null => LiteralValueOf::Null,
        }
    }
}

/// The view of an expression, by structural recursion.
pub open spec fn expr_view(e: Expr) -> SpecExpr
    decreases e,
{
    match e {
        Expr::Identifier(s) => SpecExpr::Identifier(s@),
        Expr::Literal(l) => SpecExpr::Literal(l@),
        Expr::Binary { left, operator, right } => SpecExpr::Binary {
            left: Box::new(expr_view(*left)),
            operator,
            right: Box::new(expr_view(*right)),
        },
        Expr::Function { name, args } => SpecExpr::Function {
            name: name@,
            args: Seq::new(
                args@.len(),
                |i: int|
                    if 0 <= i < args@.len() {
                        expr_view(args@[i])
                    } else {
                        SpecExpr::Identifier(Seq::empty())
                    },
            ),
        },
    }
}

impl View for Expr {
    type V = SpecExpr;

    open spec fn view(&self) -> SpecExpr {
        expr_view(*self)
    }
}

/// A copy of an expression, node by node.
#[verifier::loop_isolation(false)]
pub fn copy_expr(e: &Expr) -> (r: Expr)
    ensures
        r@ == e@,
    decreases e,
{
    match e {
        Expr::Identifier(s) => Expr::Identifier(s.clone()),
        Expr::Literal(l) => Expr::Literal(copy_literal(l)),
        Expr::Binary { left, operator, right } => {
            let l = copy_expr(left);
            let r = copy_expr(right);
            Expr::Binary { left: Box::new(l), operator: *operator, right: Box::new(r) }
        },
        Expr::Function { name, args } => {
            let mut out: Vec<Expr> = Vec::new();
            let mut k: usize = 0;
            while k < args.len()
                invariant
                    k <= args.len(),
                    out@.len() == k,
                    forall|m: int| 0 <= m < k ==> expr_view(#[trigger] out@[m]) == expr_view(args@[m]),
                decreases args.len() - k,
            {
                proof {
                    assert(decreases_to!(*e => *args));
                    assert(decreases_to!(*args => args@));
                    assert(decreases_to!(args@ => args@[k as int]));
                }
                let c = copy_expr(&args[k]);
                out.push(c);
                k = k + 1;
            }
            let r = Expr::Function { name: name.clone(), args: out };
            assert(r@ == e@) by {
                assert(exprs_view(out@) =~= exprs_view(args@));
                assert(expr_view(r)->args =~= exprs_view(out@));
                assert(expr_view(*e)->args =~= exprs_view(args@));
            }
            r
        },
    }
}

/// The views of a list of expressions, as `expr_view` lists the arguments
/// of a function call.
pub open spec fn exprs_view(args: Seq<Expr>) -> Seq<SpecExpr> {
    Seq::new(
        args.len(),
        |i: int|
            if 0 <= i < args.len() {
                expr_view(args[i])
            } else {
                SpecExpr::Identifier(Seq::empty())
            },
    )
}

/// A copy of a literal.
pub fn copy_literal(l: &LiteralValue) -> (r: LiteralValue)
    ensures
        r@ == l@,
{
    match l {
        LiteralValueOf::String(s) => LiteralValueOf::String(s.clone()),
        LiteralValueOf::Number(s) => LiteralValueOf::Number(s.clone()),
        LiteralValueOf::Boolean(b) => LiteralValueOf::Boolean(*b),
        LiteralValueOf::Null => LiteralValueOf::Null,
    }
}

impl Clone for Expr {
    fn clone(&self) -> (r: Self)
        ensures
            r@ == self@,
    {
        copy_expr(self)
    }
}

impl View for ColumnExpr {
    type V = SpecColumnExpr;

    open spec fn view(&self) -> SpecColumnExpr {
        SpecColumnExpr { expr: self.expr@, alias: opt_str_view(self.alias) }
    }
}

/// The view of an optional string.
pub open spec fn opt_str_view(o: Option<String>) -> Option<Seq<char>> {
    match o {
        Some(s) => Some(s@),
        None => None,
    }
}

impl View for OrderExprOf<String> {
    type V = OrderExprOf<Seq<char>>;

    open spec fn view(&self) -> OrderExprOf<Seq<char>> {
        OrderExprOf { column: self.column@, direction: self.direction }
    }
}

impl View for Assignment {
    type V = SpecAssignment;

    open spec fn view(&self) -> SpecAssignment {
        SpecAssignment { column: self.column@, expr: self.expr@ }
    }
}

impl View for AggregationOf<String> {
    type V = AggregationOf<Seq<char>>;

    open spec fn view(&self) -> AggregationOf<Seq<char>> {
        AggregationOf {
            function: self.function@,
            column: self.column@,
            alias: opt_str_view(self.alias),
        }
    }
}

/// The views of a list of column expressions.
pub open spec fn columns_view(v: Seq<ColumnExpr>) -> Seq<SpecColumnExpr> {
    v.map_values(|c: ColumnExpr| c@)
}

/// The views of a list of assignments.
pub open spec fn assignments_view(v: Seq<Assignment>) -> Seq<SpecAssignment> {
    v.map_values(|a: Assignment| a@)
}

/// The views of a list of sort expressions.
pub open spec fn orders_view(v: Seq<OrderExpr>) -> Seq<OrderExprOf<Seq<char>>> {
    v.map_values(|o: OrderExpr| o@)
}

/// The views of a list of aggregations.
pub open spec fn aggregations_view(v: Seq<Aggregation>) -> Seq<AggregationOf<Seq<char>>> {
    v.map_values(|a: Aggregation| a@)
}

impl View for DplyrOperation {
    type V = SpecOperation;

    open spec fn view(&self) -> SpecOperation {
        match self {
            DplyrOperation::Select { columns, location } => SpecOperation::Select {
                columns: columns_view(columns@),
                location: *location,
            },
            DplyrOperation::Filter { condition, location } => SpecOperation::Filter {
                condition: condition@,
                location: *location,
            },
            DplyrOperation::Mutate { assignments, location } => SpecOperation::Mutate {
                assignments: assignments_view(assignments@),
                location: *location,
            },
            DplyrOperation::Arrange { columns, location } => SpecOperation::Arrange {
                columns: orders_view(columns@),
                location: *location,
            },
            DplyrOperation::GroupBy { columns, location } => SpecOperation::GroupBy {
                columns: strings_view(columns@),
                location: *location,
            },
            DplyrOperation::Summarise { aggregations, location } => SpecOperation::Summarise {
                aggregations: aggregations_view(aggregations@),
                location: *location,
            },
        }
    }
}

/// The views of a list of operations.
pub open spec fn operations_view(v: Seq<DplyrOperation>) -> Seq<SpecOperation> {
    v.map_values(|o: DplyrOperation| o@)
}

impl View for DplyrNode {
    type V = SpecNode;

    open spec fn view(&self) -> SpecNode {
        match self {
            DplyrNode::Pipeline { operations, location } => SpecNode::Pipeline {
                operations: operations_view(operations@),
                location: *location,
            },
            DplyrNode::DataSource { name, location } => SpecNode::DataSource {
                name: name@,
                location: *location,
            },
        }
    }
}

/// The name of an operation as dplyr spells it.
pub open spec fn operation_name_of(op: SpecOperation) -> Seq<char> {
    match op {
        SpecOperation::Select { .. } => "select"@,
        SpecOperation::Filter { .. } => "filter"@,
        SpecOperation::Mutate { .. } => "mutate"@,
        SpecOperation::Arrange { .. } => "arrange"@,
        SpecOperation::GroupBy { .. } => "group_by"@,
        SpecOperation::Summarise { .. } => "summarise"@,
    }
}

impl DplyrNode {
    /// The location information of the node.
    pub fn location(&self) -> (r: &SourceLocation)
        ensures
            *r == match self@ {
                SpecNode::Pipeline { location, .. } => location,
                SpecNode::DataSource { location, .. } => location,
            },
    {
        match self {
            DplyrNode::Pipeline { location, .. } => location,
            DplyrNode::DataSource { location, .. } => location,
        }
    }

    /// Whether this is a pipeline node.
    pub fn is_pipeline(&self) -> (b: bool)
        ensures
            b == (self@ is Pipeline),
    {
        matches!(self, DplyrNode::Pipeline { .. })
    }

    /// Whether this is a data source node.
    pub fn is_data_source(&self) -> (b: bool)
        ensures
            b == (self@ is DataSource),
    {
        matches!(self, DplyrNode::DataSource { .. })
    }
}

impl DplyrOperation {
    /// The location information of the operation.
    pub fn location(&self) -> (r: &SourceLocation)
        ensures
            *r == match self@ {
                SpecOperation::Select { location, .. } => location,
                SpecOperation::Filter { location, .. } => location,
                SpecOperation::Mutate { location, .. } => location,
                SpecOperation::Arrange { location, .. } => location,
                SpecOperation::GroupBy { location, .. } => location,
                SpecOperation::Summarise { location, .. } => location,
            },
    {
        match self {
            DplyrOperation::Select { location, .. } => location,
            DplyrOperation::Filter { location, .. } => location,
            DplyrOperation::Mutate { location, .. } => location,
            DplyrOperation::Arrange { location, .. } => location,
            DplyrOperation::GroupBy { location, .. } => location,
            DplyrOperation::Summarise { location, .. } => location,
        }
    }

    /// The operation name as a string.
    pub fn operation_name(&self) -> (r: &'static str)
        ensures
            r@ == operation_name_of(self@),
    {
        match self {
            DplyrOperation::Select { .. } => "select",
            DplyrOperation::Filter { .. } => "filter",
            DplyrOperation::Mutate { .. } => "mutate",
            DplyrOperation::Arrange { .. } => "arrange",
            DplyrOperation::GroupBy { .. } => "group_by",
            DplyrOperation::Summarise { .. } => "summarise",
        }
    }
}

// ===== Specification of parsing =====

/// The token stream a parser works on: the tokens up to end-of-input, or up
/// to a lexing error, which stands after them.
pub struct TokenStream {
    pub toks: Seq<SpecToken>,
    pub err: Option<SpecLexError>,
}

/// The token stream a lexer over `s` at position `p` produces.
pub open spec fn lexer_stream(s: Seq<char>, p: nat) -> TokenStream {
    TokenStream { toks: lex_from(s, p).0, err: lex_from(s, p).1 }
}

/// The token stream of source text `s`.
pub open spec fn token_stream(s: Seq<char>) -> TokenStream {
    lexer_stream(s, 0)
}

/// A parsing step's result: a value and the index after it, or an error.
pub type PR<T> = Result<(T, nat), SpecParseError>;

/// The token at index `i`; past the end, end-of-input.
pub open spec fn tok(ts: TokenStream, i: nat) -> SpecToken {
    if i < ts.toks.len() {
        ts.toks[i as int]
    } else {
        TokenOf::EOF
    }
}

/// Advancing past the token at `i`: fails with the lexing error when the
/// next token could not be read.
pub open spec fn adv(ts: TokenStream, i: nat) -> Result<nat, SpecParseError> {
    if i + 1 < ts.toks.len() || ts.err is None {
        Ok(i + 1)
    } else {
        Err(ParseErrorOf::LexError(ts.err.unwrap()))
    }
}

/// The error for an unexpected token at `i`.
pub open spec fn unexpected(ts: TokenStream, expected: Seq<char>, i: nat) -> SpecParseError {
    ParseErrorOf::UnexpectedToken {
        expected,
        found: token_text(tok(ts, i)),
        position: i as usize,
    }
}

/// Checks that the token at `i` is `t` and advances past it.
pub open spec fn expect(ts: TokenStream, i: nat, t: SpecToken) -> Result<nat, SpecParseError> {
    if tok(ts, i) == t {
        adv(ts, i)
    } else {
        Err(unexpected(ts, token_text(t), i))
    }
}

/// The source location of the token at `i`: lines count the newline tokens
/// passed, columns the tokens passed since the last newline.
pub open spec fn loc(ts: TokenStream, i: nat) -> SourceLocation
    decreases i,
{
    if i == 0 {
        SourceLocation { line: 1, column: 1, offset: 0 }
    } else {
        let l = loc(ts, (i - 1) as nat);
        if tok(ts, (i - 1) as nat) is Newline {
            SourceLocation { line: (l.line + 1) as usize, column: 1, offset: i as usize }
        } else {
            SourceLocation { line: l.line, column: (l.column + 1) as usize, offset: i as usize }
        }
    }
}

/// Positions `i < j` within the stream.
pub open spec fn progressed(ts: TokenStream, i: nat, j: nat) -> bool {
    i < j <= ts.toks.len()
}

/// Skips newline tokens.
pub open spec fn spec_skip_newlines(ts: TokenStream, i: nat) -> Result<nat, SpecParseError>
    decreases ts.toks.len() - i,
{
    if tok(ts, i) is Newline {
        match adv(ts, i) {
            Err(e) => Err(e),
            Ok(j) => if progressed(ts, i, j) {
                spec_skip_newlines(ts, j)
            } else {
                Ok(j)
            },
        }
    } else {
        Ok(i)
    }
}

/// The binary operator that level `lvl` of the expression grammar reads at
/// token `t`: level 0 is `|`, 1 is `&`, 2 equality, 3 comparison,
/// 4 addition and subtraction, 5 multiplication and division.
pub open spec fn level_op(lvl: nat, t: SpecToken) -> Option<BinaryOp> {
    if lvl == 0 {
        if t is Or { Some(BinaryOp::Or) } else { None }
    } else if lvl == 1 {
        if t is And { Some(BinaryOp::And) } else { None }
    } else if lvl == 2 {
        if t is Equal { Some(BinaryOp::Equal) }
        else if t is NotEqual { Some(BinaryOp::NotEqual) }
        else { None }
    } else if lvl == 3 {
        if t is LessThan { Some(BinaryOp::LessThan) }
        else if t is LessThanOrEqual { Some(BinaryOp::LessThanOrEqual) }
        else if t is GreaterThan { Some(BinaryOp::GreaterThan) }
        else if t is GreaterThanOrEqual { Some(BinaryOp::GreaterThanOrEqual) }
        else { None }
    } else if lvl == 4 {
        if t is Plus { Some(BinaryOp::Plus) }
        else if t is Minus { Some(BinaryOp::Minus) }
        else { None }
    } else if lvl == 5 {
        if t is Multiply { Some(BinaryOp::Multiply) }
        else if t is Divide { Some(BinaryOp::Divide) }
        else { None }
    } else {
        None
    }
}

/// An expression at precedence level `lvl` (level 6 is a primary
/// expression); operators of one level associate to the left.
pub open spec fn spec_parse_level(ts: TokenStream, lvl: nat, i: nat) -> PR<SpecExpr>
    decreases ts.toks.len() - i, if lvl < 6 { 7 - lvl } else { 1int },
{
    if lvl >= 6 {
        spec_parse_primary(ts, i)
    } else {
        match spec_parse_level(ts, lvl + 1, i) {
            Err(e) => Err(e),
            Ok((left, j)) => if progressed(ts, i, j) {
                spec_parse_level_rest(ts, lvl, left, j)
            } else {
                Ok((left, j))
            },
        }
    }
}

/// The operators and operands that follow `left` at level `lvl`.
pub open spec fn spec_parse_level_rest(ts: TokenStream, lvl: nat, left: SpecExpr, j: nat) -> PR<SpecExpr>
    decreases ts.toks.len() - j, 0nat,
{
    match level_op(lvl, tok(ts, j)) {
        None => Ok((left, j)),
        Some(op) => if lvl < 6 && j < ts.toks.len() {
            match adv(ts, j) {
                Err(e) => Err(e),
                Ok(k) => match spec_parse_level(ts, lvl + 1, k) {
                    Err(e) => Err(e),
                    Ok((right, m)) => {
                        let e = SpecExpr::Binary {
                            left: Box::new(left),
                            operator: op,
                            right: Box::new(right),
                        };
                        if progressed(ts, j, m) {
                            spec_parse_level_rest(ts, lvl, e, m)
                        } else {
                            Ok((e, m))
                        }
                    },
                },
            }
        } else {
            Ok((left, j))
        },
    }
}

/// A full expression.
pub open spec fn spec_parse_expression(ts: TokenStream, i: nat) -> PR<SpecExpr> {
    spec_parse_level(ts, 0, i)
}

/// A primary expression: an identifier or function call, a literal, or a
/// parenthesized expression.
pub open spec fn spec_parse_primary(ts: TokenStream, i: nat) -> PR<SpecExpr>
    decreases ts.toks.len() - i, 0nat,
{
    if i >= ts.toks.len() {
        Err(unexpected(ts, "expression"@, i))
    } else {
        match tok(ts, i) {
            TokenOf::Identifier(name) => match adv(ts, i) {
                Err(e) => Err(e),
                Ok(j) => if tok(ts, j) is LeftParen && j < ts.toks.len() {
                    match adv(ts, j) {
                        Err(e) => Err(e),
                        Ok(k) => {
                            let args = if tok(ts, k) is RightParen {
                                Ok((Seq::empty(), k))
                            } else {
                                match spec_parse_level(ts, 0, k) {
                                    Err(e) => Err(e),
                                    Ok((a, m)) => if progressed(ts, i, m) {
                                        spec_parse_args_rest(ts, seq![a], m)
                                    } else {
                                        Ok((seq![a], m))
                                    },
                                }
                            };
                            match args {
                                Err(e) => Err(e),
                                Ok((args, n)) => match expect(ts, n, TokenOf::RightParen) {
                                    Err(e) => Err(e),
                                    Ok(o) => Ok((SpecExpr::Function { name, args }, o)),
                                },
                            }
                        },
                    }
                } else {
                    Ok((SpecExpr::Identifier(name), j))
                },
            },
            TokenOf::String(s) => match adv(ts, i) {
                Err(e) => Err(e),
                Ok(j) => Ok((SpecExpr::Literal(LiteralValueOf::String(s)), j)),
            },
            TokenOf::Number(n) => match adv(ts, i) {
                Err(e) => Err(e),
                Ok(j) => Ok((SpecExpr::Literal(LiteralValueOf::Number(n)), j)),
            },
            TokenOf::Boolean(b) => match adv(ts, i) {
                Err(e) => Err(e),
                Ok(j) => Ok((SpecExpr::Literal(LiteralValueOf::Boolean(b)), j)),
            },
            TokenOf::Null => match adv(ts, i) {
                Err(e) => Err(e),
                Ok(j) => Ok((SpecExpr::Literal(LiteralValueOf::Null), j)),
            },
            TokenOf::LeftParen => match adv(ts, i) {
                Err(e) => Err(e),
                Ok(j) => match spec_parse_level(ts, 0, j) {
                    Err(e) => Err(e),
                    Ok((e, k)) => match expect(ts, k, TokenOf::RightParen) {
                        Err(err) => Err(err),
                        Ok(m) => Ok((e, m)),
                    },
                },
            },
            _ => Err(unexpected(ts, "expression"@, i)),
        }
    }
}

/// The comma-separated arguments that follow the arguments `args`.
pub open spec fn spec_parse_args_rest(ts: TokenStream, args: Seq<SpecExpr>, j: nat) -> PR<Seq<SpecExpr>>
    decreases ts.toks.len() - j, 0nat,
{
    if tok(ts, j) is Comma && j < ts.toks.len() {
        match adv(ts, j) {
            Err(e) => Err(e),
            Ok(k) => match spec_parse_level(ts, 0, k) {
                Err(e) => Err(e),
                Ok((a, m)) => if progressed(ts, j, m) {
                    spec_parse_args_rest(ts, args.push(a), m)
                } else {
                    Ok((args.push(a), m))
                },
            },
        }
    } else {
        Ok((args, j))
    }
}

/// A column expression of `select`: `alias = expr`, a function call, an
/// identifier, or another expression.
pub open spec fn spec_parse_column_expr(ts: TokenStream, i: nat) -> PR<SpecColumnExpr> {
    match tok(ts, i) {
        TokenOf::Identifier(first) => match adv(ts, i) {
            Err(e) => Err(e),
            Ok(j) => if tok(ts, j) is Assignment {
                match adv(ts, j) {
                    Err(e) => Err(e),
                    Ok(k) => match spec_parse_expression(ts, k) {
                        Err(e) => Err(e),
                        Ok((e, m)) => Ok((SpecColumnExpr { expr: e, alias: Some(first) }, m)),
                    },
                }
            } else if tok(ts, j) is LeftParen {
                match adv(ts, j) {
                    Err(e) => Err(e),
                    Ok(k) => {
                        let args = if tok(ts, k) is RightParen {
                            Ok((Seq::empty(), k))
                        } else {
                            match spec_parse_expression(ts, k) {
                                Err(e) => Err(e),
                                Ok((a, m)) => spec_parse_args_rest(ts, seq![a], m),
                            }
                        };
                        match args {
                            Err(e) => Err(e),
                            Ok((args, n)) => match expect(ts, n, TokenOf::RightParen) {
                                Err(e) => Err(e),
                                Ok(o) => Ok(
                                    (
                                        SpecColumnExpr {
                                            expr: SpecExpr::Function { name: first, args },
                                            alias: None,
                                        },
                                        o,
                                    ),
                                ),
                            },
                        }
                    },
                }
            } else {
                Ok((SpecColumnExpr { expr: SpecExpr::Identifier(first), alias: None }, j))
            },
        },
        _ => match spec_parse_expression(ts, i) {
            Err(e) => Err(e),
            Ok((e, m)) => Ok((SpecColumnExpr { expr: e, alias: None }, m)),
        },
    }
}

/// An assignment `column = expr` of `mutate`.
pub open spec fn spec_parse_assignment(ts: TokenStream, i: nat) -> PR<SpecAssignment> {
    match tok(ts, i) {
        TokenOf::Identifier(column) => match adv(ts, i) {
            Err(e) => Err(e),
            Ok(j) => match expect(ts, j, TokenOf::Assignment) {
                Err(e) => Err(e),
                Ok(k) => match spec_parse_expression(ts, k) {
                    Err(e) => Err(e),
                    Ok((e, m)) => Ok((SpecAssignment { column, expr: e }, m)),
                },
            },
        },
        _ => Err(unexpected(ts, "column identifier"@, i)),
    }
}

/// The `(column)` part of `desc(column)` or `asc(column)`, from the keyword at `i`.
pub open spec fn spec_parse_order_call(ts: TokenStream, i: nat, dir: OrderDirection) -> PR<OrderExprOf<Seq<char>>> {
    match adv(ts, i) {
        Err(e) => Err(e),
        Ok(j) => match expect(ts, j, TokenOf::LeftParen) {
            Err(e) => Err(e),
            Ok(k) => match tok(ts, k) {
                TokenOf::Identifier(column) => match adv(ts, k) {
                    Err(e) => Err(e),
                    Ok(m) => match expect(ts, m, TokenOf::RightParen) {
                        Err(e) => Err(e),
                        Ok(n) => Ok((OrderExprOf { column, direction: dir }, n)),
                    },
                },
                _ => Err(unexpected(ts, "column identifier"@, k)),
            },
        },
    }
}

/// A sort expression of `arrange`: `desc(col)`, `asc(col)` or `col`.
pub open spec fn spec_parse_order_expr(ts: TokenStream, i: nat) -> PR<OrderExprOf<Seq<char>>> {
    match tok(ts, i) {
        TokenOf::Desc => spec_parse_order_call(ts, i, OrderDirection::Desc),
        TokenOf::Asc => spec_parse_order_call(ts, i, OrderDirection::Asc),
        TokenOf::Identifier(name) => if name == "desc"@ {
            spec_parse_order_call(ts, i, OrderDirection::Desc)
        } else if name == "asc"@ {
            spec_parse_order_call(ts, i, OrderDirection::Asc)
        } else {
            match adv(ts, i) {
                Err(e) => Err(e),
                Ok(j) => Ok((OrderExprOf { column: name, direction: OrderDirection::Asc }, j)),
            }
        },
        _ => Err(unexpected(ts, "column identifier, desc(), or asc()"@, i)),
    }
}

/// The `(column)` or `()` part of an aggregation, from its opening parenthesis' successor `n`.
pub open spec fn spec_parse_aggregation_tail(ts: TokenStream, n: nat, function: Seq<char>, alias: Option<Seq<char>>) -> PR<AggregationOf<Seq<char>>> {
    match tok(ts, n) {
        TokenOf::RightParen => match adv(ts, n) {
            Err(e) => Err(e),
            Ok(o) => Ok((AggregationOf { function, column: Seq::empty(), alias }, o)),
        },
        TokenOf::Identifier(column) => match adv(ts, n) {
            Err(e) => Err(e),
            Ok(o) => match expect(ts, o, TokenOf::RightParen) {
                Err(e) => Err(e),
                Ok(p) => Ok((AggregationOf { function, column, alias }, p)),
            },
        },
        _ => Err(unexpected(ts, "column identifier or closing parenthesis"@, n)),
    }
}

/// An aggregation of `summarise`: `alias = f(col)`, `f(col)`, `alias = f()` or `f()`.
pub open spec fn spec_parse_aggregation(ts: TokenStream, i: nat) -> PR<AggregationOf<Seq<char>>> {
    match tok(ts, i) {
        TokenOf::Identifier(first) => match adv(ts, i) {
            Err(e) => Err(e),
            Ok(j) => if tok(ts, j) is Assignment {
                match adv(ts, j) {
                    Err(e) => Err(e),
                    Ok(k) => match tok(ts, k) {
                        TokenOf::Identifier(function) => match adv(ts, k) {
                            Err(e) => Err(e),
                            Ok(m) => match expect(ts, m, TokenOf::LeftParen) {
                                Err(e) => Err(e),
                                Ok(n) => spec_parse_aggregation_tail(ts, n, function, Some(first)),
                            },
                        },
                        _ => Err(unexpected(ts, "aggregation function name"@, k)),
                    },
                }
            } else {
                match expect(ts, j, TokenOf::LeftParen) {
                    Err(e) => Err(e),
                    Ok(n) => spec_parse_aggregation_tail(ts, n, first, None),
                }
            },
        },
        _ => Err(unexpected(ts, "aggregation function name or alias"@, i)),
    }
}

/// The comma-separated column expressions that follow `items`.
pub open spec fn spec_parse_columns_rest(ts: TokenStream, items: Seq<SpecColumnExpr>, j: nat) -> PR<Seq<SpecColumnExpr>>
    decreases ts.toks.len() - j,
{
    if tok(ts, j) is Comma {
        match adv(ts, j) {
            Err(e) => Err(e),
            Ok(k) => match spec_parse_column_expr(ts, k) {
                Err(e) => Err(e),
                Ok((c, m)) => if progressed(ts, j, m) {
                    spec_parse_columns_rest(ts, items.push(c), m)
                } else {
                    Ok((items.push(c), m))
                },
            },
        }
    } else {
        Ok((items, j))
    }
}

/// The comma-separated assignments that follow `items`.
pub open spec fn spec_parse_assignments_rest(ts: TokenStream, items: Seq<SpecAssignment>, j: nat) -> PR<Seq<SpecAssignment>>
    decreases ts.toks.len() - j,
{
    if tok(ts, j) is Comma {
        match adv(ts, j) {
            Err(e) => Err(e),
            Ok(k) => match spec_parse_assignment(ts, k) {
                Err(e) => Err(e),
                Ok((c, m)) => if progressed(ts, j, m) {
                    spec_parse_assignments_rest(ts, items.push(c), m)
                } else {
                    Ok((items.push(c), m))
                },
            },
        }
    } else {
        Ok((items, j))
    }
}

/// The comma-separated sort expressions that follow `items`.
pub open spec fn spec_parse_orders_rest(ts: TokenStream, items: Seq<OrderExprOf<Seq<char>>>, j: nat) -> PR<Seq<OrderExprOf<Seq<char>>>>
    decreases ts.toks.len() - j,
{
    if tok(ts, j) is Comma {
        match adv(ts, j) {
            Err(e) => Err(e),
            Ok(k) => match spec_parse_order_expr(ts, k) {
                Err(e) => Err(e),
                Ok((c, m)) => if progressed(ts, j, m) {
                    spec_parse_orders_rest(ts, items.push(c), m)
                } else {
                    Ok((items.push(c), m))
                },
            },
        }
    } else {
        Ok((items, j))
    }
}

/// The comma-separated aggregations that follow `items`.
pub open spec fn spec_parse_aggregations_rest(ts: TokenStream, items: Seq<AggregationOf<Seq<char>>>, j: nat) -> PR<Seq<AggregationOf<Seq<char>>>>
    decreases ts.toks.len() - j,
{
    if tok(ts, j) is Comma {
        match adv(ts, j) {
            Err(e) => Err(e),
            Ok(k) => match spec_parse_aggregation(ts, k) {
                Err(e) => Err(e),
                Ok((c, m)) => if progressed(ts, j, m) {
                    spec_parse_aggregations_rest(ts, items.push(c), m)
                } else {
                    Ok((items.push(c), m))
                },
            },
        }
    } else {
        Ok((items, j))
    }
}

/// The comma-separated grouping columns that follow `items`.
pub open spec fn spec_parse_group_rest(ts: TokenStream, items: Seq<Seq<char>>, j: nat) -> PR<Seq<Seq<char>>>
    decreases ts.toks.len() - j,
{
    if tok(ts, j) is Comma {
        match adv(ts, j) {
            Err(e) => Err(e),
            Ok(k) => match tok(ts, k) {
                TokenOf::Identifier(name) => match adv(ts, k) {
                    Err(e) => Err(e),
                    Ok(m) => if progressed(ts, j, m) {
                        spec_parse_group_rest(ts, items.push(name), m)
                    } else {
                        Ok((items.push(name), m))
                    },
                },
                _ => Err(unexpected(ts, "identifier"@, k)),
            },
        }
    } else {
        Ok((items, j))
    }
}

/// `select(...)`, from the keyword at `i`.
pub open spec fn spec_parse_select(ts: TokenStream, i: nat) -> PR<SpecOperation> {
    let location = loc(ts, i);
    match adv(ts, i) {
        Err(e) => Err(e),
        Ok(j0) => match expect(ts, j0, TokenOf::LeftParen) {
            Err(e) => Err(e),
            Ok(j) => {
                let items = if tok(ts, j) is RightParen {
                    Ok((Seq::empty(), j))
                } else {
                    match spec_parse_column_expr(ts, j) {
                        Err(e) => Err(e),
                        Ok((c, k)) => spec_parse_columns_rest(ts, seq![c], k),
                    }
                };
                match items {
                    Err(e) => Err(e),
                    Ok((columns, m)) => match expect(ts, m, TokenOf::RightParen) {
                        Err(e) => Err(e),
                        Ok(n) => Ok((SpecOperation::Select { columns, location }, n)),
                    },
                }
            },
        },
    }
}

/// `filter(condition)`, from the keyword at `i`.
pub open spec fn spec_parse_filter(ts: TokenStream, i: nat) -> PR<SpecOperation> {
    let location = loc(ts, i);
    match adv(ts, i) {
        Err(e) => Err(e),
        Ok(j0) => match expect(ts, j0, TokenOf::LeftParen) {
            Err(e) => Err(e),
            Ok(j) => match spec_parse_expression(ts, j) {
                Err(e) => Err(e),
                Ok((condition, k)) => match expect(ts, k, TokenOf::RightParen) {
                    Err(e) => Err(e),
                    Ok(n) => Ok((SpecOperation::Filter { condition, location }, n)),
                },
            },
        },
    }
}

/// `mutate(...)`, from the keyword at `i`.
pub open spec fn spec_parse_mutate(ts: TokenStream, i: nat) -> PR<SpecOperation> {
    let location = loc(ts, i);
    match adv(ts, i) {
        Err(e) => Err(e),
        Ok(j0) => match expect(ts, j0, TokenOf::LeftParen) {
            Err(e) => Err(e),
            Ok(j) => {
                let items = if tok(ts, j) is RightParen {
                    Ok((Seq::empty(), j))
                } else {
                    match spec_parse_assignment(ts, j) {
                        Err(e) => Err(e),
                        Ok((c, k)) => spec_parse_assignments_rest(ts, seq![c], k),
                    }
                };
                match items {
                    Err(e) => Err(e),
                    Ok((assignments, m)) => match expect(ts, m, TokenOf::RightParen) {
                        Err(e) => Err(e),
                        Ok(n) => Ok((SpecOperation::Mutate { assignments, location }, n)),
                    },
                }
            },
        },
    }
}

/// `arrange(...)`, from the keyword at `i`.
pub open spec fn spec_parse_arrange(ts: TokenStream, i: nat) -> PR<SpecOperation> {
    let location = loc(ts, i);
    match adv(ts, i) {
        Err(e) => Err(e),
        Ok(j0) => match expect(ts, j0, TokenOf::LeftParen) {
            Err(e) => Err(e),
            Ok(j) => {
                let items = if tok(ts, j) is RightParen {
                    Ok((Seq::empty(), j))
                } else {
                    match spec_parse_order_expr(ts, j) {
                        Err(e) => Err(e),
                        Ok((c, k)) => spec_parse_orders_rest(ts, seq![c], k),
                    }
                };
                match items {
                    Err(e) => Err(e),
                    Ok((columns, m)) => match expect(ts, m, TokenOf::RightParen) {
                        Err(e) => Err(e),
                        Ok(n) => Ok((SpecOperation::Arrange { columns, location }, n)),
                    },
                }
            },
        },
    }
}

/// `group_by(...)`, from the keyword at `i`.
pub open spec fn spec_parse_group_by(ts: TokenStream, i: nat) -> PR<SpecOperation> {
    let location = loc(ts, i);
    match adv(ts, i) {
        Err(e) => Err(e),
        Ok(j0) => match expect(ts, j0, TokenOf::LeftParen) {
            Err(e) => Err(e),
            Ok(j) => {
                let items = match tok(ts, j) {
                    TokenOf::Identifier(name) => match adv(ts, j) {
                        Err(e) => Err(e),
                        Ok(k) => spec_parse_group_rest(ts, seq![name], k),
                    },
                    _ => Ok((Seq::empty(), j)),
                };
                match items {
                    Err(e) => Err(e),
                    Ok((columns, m)) => match expect(ts, m, TokenOf::RightParen) {
                        Err(e) => Err(e),
                        Ok(n) => Ok((SpecOperation::GroupBy { columns, location }, n)),
                    },
                }
            },
        },
    }
}

/// `summarise(...)`, from the keyword at `i`.
pub open spec fn spec_parse_summarise(ts: TokenStream, i: nat) -> PR<SpecOperation> {
    let location = loc(ts, i);
    match adv(ts, i) {
        Err(e) => Err(e),
        Ok(j0) => match expect(ts, j0, TokenOf::LeftParen) {
            Err(e) => Err(e),
            Ok(j) => {
                let items = if tok(ts, j) is RightParen {
                    Ok((Seq::empty(), j))
                } else {
                    match spec_parse_aggregation(ts, j) {
                        Err(e) => Err(e),
                        Ok((c, k)) => spec_parse_aggregations_rest(ts, seq![c], k),
                    }
                };
                match items {
                    Err(e) => Err(e),
                    Ok((aggregations, m)) => match expect(ts, m, TokenOf::RightParen) {
                        Err(e) => Err(e),
                        Ok(n) => Ok((SpecOperation::Summarise { aggregations, location }, n)),
                    },
                }
            },
        },
    }
}

/// One dplyr operation, chosen by its keyword.
pub open spec fn spec_parse_operation(ts: TokenStream, i: nat) -> PR<SpecOperation> {
    match tok(ts, i) {
        TokenOf::Select => spec_parse_select(ts, i),
        TokenOf::Filter => spec_parse_filter(ts, i),
        TokenOf::Mutate => spec_parse_mutate(ts, i),
        TokenOf::Arrange => spec_parse_arrange(ts, i),
        TokenOf::GroupBy => spec_parse_group_by(ts, i),
        TokenOf::Summarise => spec_parse_summarise(ts, i),
        _ => Err(unexpected(ts, "dplyr function"@, i)),
    }
}

/// The `%>% operation` pairs that follow the operations `ops`.
pub open spec fn spec_parse_operations_rest(ts: TokenStream, ops: Seq<SpecOperation>, j: nat) -> PR<Seq<SpecOperation>>
    decreases ts.toks.len() - j,
{
    if tok(ts, j) is Pipe {
        match adv(ts, j) {
            Err(e) => Err(e),
            Ok(k0) => match spec_skip_newlines(ts, k0) {
                Err(e) => Err(e),
                Ok(k) => match spec_parse_operation(ts, k) {
                    Err(e) => Err(e),
                    Ok((op, m)) => if progressed(ts, j, m) {
                        spec_parse_operations_rest(ts, ops.push(op), m)
                    } else {
                        Ok((ops.push(op), m))
                    },
                },
            },
        }
    } else {
        Ok((ops, j))
    }
}

/// A whole pipeline: an optional data source followed by `%>%`-joined
/// operations, or a lone data source name.
pub open spec fn spec_parse_pipeline(ts: TokenStream) -> Result<SpecNode, SpecParseError> {
    let location = loc(ts, 0);
    match spec_skip_newlines(ts, 0) {
        Err(e) => Err(e),
        Ok(i) => if tok(ts, i) is EOF {
            Err(ParseErrorOf::InvalidOperation { operation: "empty pipeline"@, position: i as usize })
        } else {
            match tok(ts, i) {
                TokenOf::Identifier(name) => match adv(ts, i) {
                    Err(e) => Err(e),
                    Ok(j0) => match spec_skip_newlines(ts, j0) {
                        Err(e) => Err(e),
                        Ok(j) => if tok(ts, j) is Pipe {
                            match adv(ts, j) {
                                Err(e) => Err(e),
                                Ok(k0) => match spec_skip_newlines(ts, k0) {
                                    Err(e) => Err(e),
                                    Ok(k) => match spec_parse_operation(ts, k) {
                                        Err(e) => Err(e),
                                        Ok((op, m)) => match spec_parse_operations_rest(ts, seq![op], m) {
                                            Err(e) => Err(e),
                                            Ok((operations, _n)) => Ok(SpecNode::Pipeline { operations, location }),
                                        },
                                    },
                                },
                            }
                        } else if tok(ts, j) is LeftParen {
                            Err(ParseErrorOf::UnexpectedToken {
                                expected: "dplyr function or pipe operator"@,
                                found: name + "("@,
                                position: j as usize,
                            })
                        } else {
                            Ok(SpecNode::DataSource { name, location })
                        },
                    },
                },
                _ => match spec_parse_operation(ts, i) {
                    Err(e) => Err(e),
                    Ok((op, m)) => match spec_parse_operations_rest(ts, seq![op], m) {
                        Err(e) => Err(e),
                        Ok((operations, n)) => match spec_skip_newlines(ts, n) {
                            Err(e) => Err(e),
                            Ok(_) => Ok(SpecNode::Pipeline { operations, location }),
                        },
                    },
                },
            }
        },
    }
}

/// What parsing the source text `s` yields: the lexing error of its first
/// token, or the parse of its token stream.
pub open spec fn parse_source(s: Seq<char>) -> Result<SpecNode, SpecParseError> {
    let ts = token_stream(s);
    if ts.toks.len() == 0 {
        Err(ParseErrorOf::LexError(ts.err.unwrap()))
    } else {
        spec_parse_pipeline(ts)
    }
}

/// Parsing more operations never drops those already parsed.
proof fn lemma_operations_rest_grow(ts: TokenStream, ops: Seq<SpecOperation>, j: nat)
    ensures
        spec_parse_operations_rest(ts, ops, j) matches Ok((r, _k)) ==> r.len() >= ops.len(),
    decreases ts.toks.len() - j,
{
    if tok(ts, j) is Pipe {
        match adv(ts, j) {
            Err(_) => {},
            Ok(k0) => match spec_skip_newlines(ts, k0) {
                Err(_) => {},
                Ok(k) => match spec_parse_operation(ts, k) {
                    Err(_) => {},
                    Ok((op, m)) => if progressed(ts, j, m) {
                        lemma_operations_rest_grow(ts, ops.push(op), m);
                    },
                },
            },
        }
    }
}

/// The keyword that begins an operation of each kind.
pub open spec fn operation_keyword(op: SpecOperation) -> SpecToken {
    match op {
        SpecOperation::Select { .. } => TokenOf::Select,
        SpecOperation::Filter { .. } => TokenOf::Filter,
        SpecOperation::Mutate { .. } => TokenOf::Mutate,
        SpecOperation::Arrange { .. } => TokenOf::Arrange,
        SpecOperation::GroupBy { .. } => TokenOf::GroupBy,
        SpecOperation::Summarise { .. } => TokenOf::Summarise,
    }
}

/// An operation is the one its keyword names, written as the keyword, `(`,
/// its arguments and `)`: parsing goes on right after a `)`.
pub proof fn law_operations_follow_their_keywords(ts: TokenStream, i: nat)
    ensures
        spec_parse_operation(ts, i) matches Ok((op, n)) ==> {
            &&& operation_keyword(op) == tok(ts, i)
            &&& tok(ts, i + 1) is LeftParen
            &&& n >= 1
            &&& tok(ts, (n - 1) as nat) is RightParen
        },
{
    match tok(ts, i) {
        TokenOf::Select => {},
        TokenOf::Filter => {},
        TokenOf::Mutate => {},
        TokenOf::Arrange => {},
        TokenOf::GroupBy => {},
        TokenOf::Summarise => {},
        _ => {},
    }
}

/// A sort key is descending exactly when it is written `desc(column)`.
pub proof fn law_sort_direction_follows_its_keyword(ts: TokenStream, i: nat)
    ensures
        spec_parse_order_expr(ts, i) matches Ok((o, _n)) ==> (o.direction == OrderDirection::Desc <==> (tok(ts, i) is Desc
            || tok(ts, i) == TokenOf::<Seq<char>>::Identifier("desc"@))),
{
    reveal_strlit("desc");
    reveal_strlit("asc");
    assert("asc"@ != "desc"@) by {
        assert("asc"@.len() != "desc"@.len());
    }
}

/// An aggregation `alias = f(column)` names `alias`, the function `f` and
/// `column`; one written `f(column)` has no alias.
pub proof fn law_aggregations_name_their_parts(ts: TokenStream, i: nat)
    ensures
        spec_parse_aggregation(ts, i) matches Ok((g, _n)) ==> (tok(ts, i) matches TokenOf::Identifier(first) && (
        tok(ts, i + 1) is Assignment ==> g.alias == Some(first) && tok(ts, i + 2) == TokenOf::<Seq<char>>::Identifier(
            g.function,
        )) && (!(tok(ts, i + 1) is Assignment) ==> g.alias is None && g.function == first) && (g.column.len() > 0
            ==> exists|k: nat| i < k && tok(ts, k) == TokenOf::<Seq<char>>::Identifier(g.column))),
{
    match tok(ts, i) {
        TokenOf::Identifier(first) => match adv(ts, i) {
            Err(_) => {},
            Ok(j) => if tok(ts, j) is Assignment {
                match adv(ts, j) {
                    Err(_) => {},
                    Ok(k) => match tok(ts, k) {
                        TokenOf::Identifier(function) => match adv(ts, k) {
                            Err(_) => {},
                            Ok(m) => match expect(ts, m, TokenOf::LeftParen) {
                                Err(_) => {},
                                Ok(n) => {
                                    if tok(ts, n) is Identifier {
                                        assert(i < n);
                                    }
                                },
                            },
                        },
                        _ => {},
                    },
                }
            } else {
                match expect(ts, j, TokenOf::LeftParen) {
                    Err(_) => {},
                    Ok(n) => {
                        if tok(ts, n) is Identifier {
                            assert(i < n);
                        }
                    },
                }
            },
        },
        _ => {},
    }
}

/// An assignment of `mutate` is written `column = expr`: its column is the
/// identifier it starts with.
pub proof fn law_assignments_name_their_column(ts: TokenStream, i: nat)
    ensures
        spec_parse_assignment(ts, i) matches Ok((a, _n)) ==> tok(ts, i) == TokenOf::<Seq<char>>::Identifier(a.column)
            && tok(ts, i + 1) is Assignment,
{
}

/// A parsed pipeline has at least one operation.
pub proof fn law_parsed_pipelines_are_not_empty(code: Seq<char>)
    ensures
        parse_source(code) matches Ok(SpecNode::Pipeline { operations, .. }) ==> operations.len() > 0,
{
    let ts = token_stream(code);
    if ts.toks.len() > 0 {
        match spec_skip_newlines(ts, 0) {
            Err(_) => {},
            Ok(i) => {
                match adv(ts, i) {
                    Err(_) => {},
                    Ok(j0) => match spec_skip_newlines(ts, j0) {
                        Err(_) => {},
                        Ok(j) => match adv(ts, j) {
                            Err(_) => {},
                            Ok(k0) => match spec_skip_newlines(ts, k0) {
                                Err(_) => {},
                                Ok(k) => match spec_parse_operation(ts, k) {
                                    Err(_) => {},
                                    Ok((op, m)) => lemma_operations_rest_grow(ts, seq![op], m),
                                },
                            },
                        },
                    },
                }
                match spec_parse_operation(ts, i) {
                    Err(_) => {},
                    Ok((op, m)) => lemma_operations_rest_grow(ts, seq![op], m),
                }
            },
        }
    }
}

// ===== The parser =====

/// Whether an executable parsing result `r` is the specified result `s`,
/// the parsed value compared through `view`.
pub open spec fn agrees<T, V>(r: Result<(T, usize), ParseError>, s: PR<V>, view: spec_fn(T) -> V) -> bool {
    match r {
        Ok((x, j)) => s == Ok::<(V, nat), SpecParseError>((view(x), j as nat)),
        Err(e) => s == Err::<(V, nat), SpecParseError>(e@),
    }
}

/// Whether an executable index result `r` is the specified result `s`.
pub open spec fn agrees_index(r: Result<usize, ParseError>, s: Result<nat, SpecParseError>) -> bool {
    match r {
        Ok(j) => s == Ok::<nat, SpecParseError>(j as nat),
        Err(e) => s == Err::<nat, SpecParseError>(e@),
    }
}

/// Whether a parsing result stops at most at index `n`.
pub open spec fn stops_within<T>(r: Result<(T, usize), ParseError>, n: nat) -> bool {
    r matches Ok((_x, j)) ==> j <= n
}

/// The view of a function call expression.
pub proof fn lemma_function_view(name: String, args: Vec<Expr>)
    ensures
        expr_view((Expr::Function { name, args })) == (SpecExpr::Function { name: name@, args: exprs_view(args@) }),
{
    assert(expr_view(Expr::Function { name, args })->args =~= exprs_view(args@));
}

/// A stream without tokens carries the lexing error that stopped it.
proof fn lemma_empty_stream_has_error(s: Seq<char>, p: nat)
    ensures
        lex_from(s, p).0.len() == 0 ==> (lex_from(s, p).1 is Some),
{
}

/// Locations count at most one line and one column per token passed.
proof fn lemma_loc_bounds(ts: TokenStream, i: nat)
    requires
        i < usize::MAX,
    ensures
        loc(ts, i).line <= i + 1,
        loc(ts, i).column <= i + 1,
        loc(ts, i).offset == i,
    decreases i,
{
    if i > 0 {
        lemma_loc_bounds(ts, (i - 1) as nat);
    }
}

/// Parser: turns the tokens of a lexer into a dplyr AST.
pub struct Parser {
    tokens: Vec<Token>,
    lex_error: Option<LexError>,
    eof: Token,
}

impl Parser {
    /// The token stream being parsed.
    pub closed spec fn stream(&self) -> TokenStream {
        TokenStream { toks: self.tokens@.map_values(|t: Token| t@), err: opt_lex_view(self.lex_error) }
    }

    #[verifier::type_invariant]
    closed spec fn well_formed(&self) -> bool {
        &&& self.eof@ is EOF
        &&& self.tokens@.len() > 0
    }

    /// Creates a parser over the tokens the lexer yields from its position.
    /// Fails with the lexing error when not even the first token can be read.
    pub fn new(lexer: Lexer) -> (r: Result<Parser, ParseError>)
        ensures
            match r {
                Ok(p) => p.stream() == lexer_stream(lexer.input_chars(), lexer.pos())
                    && p.stream().toks.len() > 0,
                Err(e) => lexer_stream(lexer.input_chars(), lexer.pos()).toks.len() == 0
                    && e@ == ParseErrorOf::LexError(lexer_stream(lexer.input_chars(), lexer.pos()).err.unwrap()),
            },
    {
        let mut lexer = lexer;
        let ghost s = lexer.input_chars();
        let ghost p = lexer.pos();
        let (tokens, lex_error) = tokenize(&mut lexer);
        proof {
            lemma_empty_stream_has_error(s, p);
        }
        if tokens.len() == 0 {
            assert(tokens@.map_values(|t: Token| t@).len() == 0);
            match lex_error {
                Some(e) => Err(ParseErrorOf::LexError(e)),
                None => {
                    assert(false);
                    Err(ParseErrorOf::EmptyPipeline)
                },
            }
        } else {
            let parser = Parser { tokens, lex_error, eof: TokenOf::EOF };
            assert(parser.stream().toks.len() == parser.tokens@.len());
            Ok(parser)
        }
    }

    /// Parses the token stream into an AST.  Parsing reads the stream from
    /// its start and leaves the parser as it was.
    pub fn parse(&mut self) -> (r: Result<DplyrNode, ParseError>)
        ensures
            final(self).stream() == old(self).stream(),
            match r {
                Ok(n) => spec_parse_pipeline(old(self).stream()) == Ok::<SpecNode, SpecParseError>(n@),
                Err(e) => spec_parse_pipeline(old(self).stream()) == Err::<SpecNode, SpecParseError>(e@),
            },
    {
        self.parse_pipeline()
    }

    /// Number of tokens in the stream.
    fn len(&self) -> (n: usize)
        ensures
            n as nat == self.stream().toks.len(),
    {
        self.tokens.len()
    }

    /// The token at `i`; past the end, end-of-input.
    fn tok_at(&self, i: usize) -> (t: &Token)
        ensures
            t@ == tok(self.stream(), i as nat),
    {
        proof {
            use_type_invariant(self);
        }
        if i < self.tokens.len() {
            &self.tokens[i]
        } else {
            &self.eof
        }
    }

    /// Advances past the token at `i`.
    fn advance(&self, i: usize) -> (r: Result<usize, ParseError>)
        requires
            !(tok(self.stream(), i as nat) is EOF),
        ensures
            agrees_index(r, adv(self.stream(), i as nat)),
            r matches Ok(j) ==> j <= self.stream().toks.len(),
    {
        assert(self.stream().toks.len() == self.tokens@.len());
        assert(i < self.stream().toks.len());
        assert(i < self.tokens.len());
        if i + 1 < self.tokens.len() {
            Ok(i + 1)
        } else {
            match &self.lex_error {
                None => Ok(i + 1),
                Some(e) => Err(ParseErrorOf::LexError(e.copy())),
            }
        }
    }

    /// The error for an unexpected token at `i`.
    fn unexpected_at(&self, expected: &str, i: usize) -> (e: ParseError)
        ensures
            e@ == unexpected(self.stream(), expected@, i as nat),
    {
        let found = self.tok_at(i).to_string();
        ParseErrorOf::UnexpectedToken { expected: string_of_str_lit(expected), found, position: i }
    }

    /// Checks that the token at `i` is the punctuation `expected` and
    /// advances past it.
    fn expect_tok(&self, i: usize, expected: Token) -> (r: Result<usize, ParseError>)
        requires
            expected@ is LeftParen || expected@ is RightParen || expected@ is Assignment,
        ensures
            agrees_index(r, expect(self.stream(), i as nat, expected@)),
            r matches Ok(j) ==> j <= self.stream().toks.len(),
    {
        let t = self.tok_at(i);
        let same = match (t, &expected) {
            (TokenOf::LeftParen, TokenOf::LeftParen) => true,
            (TokenOf::RightParen, TokenOf::RightParen) => true,
            (TokenOf::Assignment, TokenOf::Assignment) => true,
            _ => false,
        };
        if same {
            self.advance(i)
        } else {
            let found = t.to_string();
            let exp = expected.to_string();
            Err(ParseErrorOf::UnexpectedToken { expected: exp, found, position: i })
        }
    }

    /// The source location of the token at `i`.
    fn location_at(&self, i: usize) -> (l: SourceLocation)
        requires
            i < self.stream().toks.len(),
        ensures
            l == loc(self.stream(), i as nat),
    {
        let ghost ts = self.stream();
        let mut line: usize = 1;
        let mut column: usize = 1;
        let mut k: usize = 0;
        let n = self.tokens.len();
        while k < i
            invariant
                k <= i,
                i < n,
                n == self.tokens@.len(),
                i < ts.toks.len(),
                ts == self.stream(),
                ts.toks.len() == self.tokens@.len(),
                loc(ts, k as nat) == (SourceLocation { line, column, offset: k }),
            decreases i - k,
        {
            proof {
                lemma_loc_bounds(ts, k as nat);
            }
            let nl = match &self.tokens[k] {
                TokenOf::Newline => true,
                _ => false,
            };
            if nl {
                line = line + 1;
                column = 1;
            } else {
                column = column + 1;
            }
            k = k + 1;
        }
        SourceLocation { line, column, offset: i }
    }

    /// Skips newline tokens from `i`.
    fn skip_newlines(&self, i: usize) -> (r: Result<usize, ParseError>)
        requires
            i <= self.stream().toks.len(),
        ensures
            agrees_index(r, spec_skip_newlines(self.stream(), i as nat)),
            r matches Ok(j) ==> j <= self.stream().toks.len(),
        decreases self.stream().toks.len() - i,
    {
        let nl = match self.tok_at(i) {
            TokenOf::Newline => true,
            _ => false,
        };
        if nl {
            match self.advance(i) {
                Err(e) => Err(e),
                Ok(j) => if i < j && j <= self.len() {
                    self.skip_newlines(j)
                } else {
                    Ok(j)
                },
            }
        } else {
            Ok(i)
        }
    }
}

/// The operator that level `lvl` of the expression grammar reads at `t`.
fn level_op_exec(lvl: usize, t: &Token) -> (r: Option<BinaryOp>)
    ensures
        r == level_op(lvl as nat, t@),
{
    match t {
        TokenOf::Or => if lvl == 0 { Some(BinaryOp::Or) } else { None },
        TokenOf::And => if lvl == 1 { Some(BinaryOp::And) } else { None },
        TokenOf::Equal => if lvl == 2 { Some(BinaryOp::Equal) } else { None },
        TokenOf::NotEqual => if lvl == 2 { Some(BinaryOp::NotEqual) } else { None },
        TokenOf::LessThan => if lvl == 3 { Some(BinaryOp::LessThan) } else { None },
        TokenOf::LessThanOrEqual => if lvl == 3 { Some(BinaryOp::LessThanOrEqual) } else { None },
        TokenOf::GreaterThan => if lvl == 3 { Some(BinaryOp::GreaterThan) } else { None },
        TokenOf::GreaterThanOrEqual => if lvl == 3 {
            Some(BinaryOp::GreaterThanOrEqual)
        } else {
            None
        },
        TokenOf::Plus => if lvl == 4 { Some(BinaryOp::Plus) } else { None },
        TokenOf::Minus => if lvl == 4 { Some(BinaryOp::Minus) } else { None },
        TokenOf::Multiply => if lvl == 5 { Some(BinaryOp::Multiply) } else { None },
        TokenOf::Divide => if lvl == 5 { Some(BinaryOp::Divide) } else { None },
        _ => None,
    }
}

impl Parser {
    /// An expression at precedence level `lvl`, from `i`.
    fn parse_level(&self, lvl: usize, i: usize) -> (r: Result<(Expr, usize), ParseError>)
        requires
            i <= self.stream().toks.len(),
        ensures
            agrees(r, spec_parse_level(self.stream(), lvl as nat, i as nat), |e: Expr| e@),
            stops_within(r, self.stream().toks.len()),
        decreases self.stream().toks.len() - i, if lvl < 6 { 7 - lvl } else { 1int },
    {
        if lvl >= 6 {
            return self.parse_primary(i);
        }
        match self.parse_level(lvl + 1, i) {
            Err(e) => Err(e),
            Ok((left, j)) => if i < j && j <= self.len() {
                self.parse_level_rest(lvl, left, j)
            } else {
                Ok((left, j))
            },
        }
    }

    /// The operators and operands that follow `left` at level `lvl`.
    fn parse_level_rest(&self, lvl: usize, left: Expr, j: usize) -> (r: Result<(Expr, usize), ParseError>)
        requires
            j <= self.stream().toks.len(),
        ensures
            agrees(r, spec_parse_level_rest(self.stream(), lvl as nat, left@, j as nat), |e: Expr| e@),
            stops_within(r, self.stream().toks.len()),
        decreases self.stream().toks.len() - j, 0int,
    {
        let op = level_op_exec(lvl, self.tok_at(j));
        match op {
            None => Ok((left, j)),
            Some(op) => if lvl < 6 && j < self.len() {
                match self.advance(j) {
                    Err(e) => Err(e),
                    Ok(k) => match self.parse_level(lvl + 1, k) {
                        Err(e) => Err(e),
                        Ok((right, m)) => {
                            let e = Expr::Binary { left: Box::new(left), operator: op, right: Box::new(right) };
                            if j < m && m <= self.len() {
                                self.parse_level_rest(lvl, e, m)
                            } else {
                                Ok((e, m))
                            }
                        },
                    },
                }
            } else {
                Ok((left, j))
            },
        }
    }

    /// Whether the token at `i` is `(`.
    fn is_left_paren(&self, i: usize) -> (b: bool)
        ensures
            b == (tok(self.stream(), i as nat) is LeftParen),
    {
        match self.tok_at(i) {
            TokenOf::LeftParen => true,
            _ => false,
        }
    }

    /// Whether the token at `i` is `)`.
    fn is_right_paren(&self, i: usize) -> (b: bool)
        ensures
            b == (tok(self.stream(), i as nat) is RightParen),
    {
        match self.tok_at(i) {
            TokenOf::RightParen => true,
            _ => false,
        }
    }

    /// Whether the token at `i` is `,`.
    fn is_comma(&self, i: usize) -> (b: bool)
        ensures
            b == (tok(self.stream(), i as nat) is Comma),
    {
        match self.tok_at(i) {
            TokenOf::Comma => true,
            _ => false,
        }
    }

    /// Whether the token at `i` is `=`.
    fn is_assignment(&self, i: usize) -> (b: bool)
        ensures
            b == (tok(self.stream(), i as nat) is Assignment),
    {
        match self.tok_at(i) {
            TokenOf::Assignment => true,
            _ => false,
        }
    }

    /// Whether the token at `i` is `%>%`.
    fn is_pipe(&self, i: usize) -> (b: bool)
        ensures
            b == (tok(self.stream(), i as nat) is Pipe),
    {
        match self.tok_at(i) {
            TokenOf::Pipe => true,
            _ => false,
        }
    }

    /// A literal expression from the token at `i`, then advance.
    fn parse_literal(&self, i: usize, lit: LiteralValue) -> (r: Result<(Expr, usize), ParseError>)
        requires
            !(tok(self.stream(), i as nat) is EOF),
        ensures
            agrees(
                r,
                match adv(self.stream(), i as nat) {
                    Err(e) => Err(e),
                    Ok(j) => Ok((SpecExpr::Literal(lit@), j)),
                },
                |e: Expr| e@,
            ),
            stops_within(r, self.stream().toks.len()),
    {
        match self.advance(i) {
            Err(e) => Err(e),
            Ok(j) => Ok((Expr::Literal(lit), j)),
        }
    }

    /// A primary expression from `i`.
    fn parse_primary(&self, i: usize) -> (r: Result<(Expr, usize), ParseError>)
        requires
            i <= self.stream().toks.len(),
        ensures
            agrees(r, spec_parse_primary(self.stream(), i as nat), |e: Expr| e@),
            stops_within(r, self.stream().toks.len()),
        decreases self.stream().toks.len() - i, 0int,
    {
        if i >= self.len() {
            return Err(self.unexpected_at("expression", i));
        }
        match self.tok_at(i) {
            TokenOf::Identifier(name) => {
                let name = name.clone();
                match self.advance(i) {
                    Err(e) => Err(e),
                    Ok(j) => if self.is_left_paren(j) && j < self.len() {
                        match self.advance(j) {
                            Err(e) => Err(e),
                            Ok(k) => {
                                let args = if self.is_right_paren(k) {
                                    Ok((Vec::new(), k))
                                } else {
                                    match self.parse_level(0, k) {
                                        Err(e) => Err(e),
                                        Ok((a, m)) => {
                                            let ghost av = a@;
                                            let mut v: Vec<Expr> = Vec::new();
                                            v.push(a);
                                            assert(exprs_view(v@) =~= seq![av]);
                                            if i < m && m <= self.len() {
                                                self.parse_args_rest(v, m)
                                            } else {
                                                Ok((v, m))
                                            }
                                        },
                                    }
                                };
                                assert(exprs_view(Seq::<Expr>::empty()) =~= Seq::<SpecExpr>::empty());
                                match args {
                                    Err(e) => Err(e),
                                    Ok((args, n)) => match self.expect_tok(n, TokenOf::RightParen) {
                                        Err(e) => Err(e),
                                        Ok(o) => {
                                            proof {
                                                lemma_function_view(name, args);
                                            }
                                            Ok((Expr::Function { name, args }, o))
                                        },
                                    },
                                }
                            },
                        }
                    } else {
                        Ok((Expr::Identifier(name), j))
                    },
                }
            },
            TokenOf::String(s) => self.parse_literal(i, LiteralValueOf::String(s.clone())),
            TokenOf::Number(n) => self.parse_literal(i, LiteralValueOf::Number(n.clone())),
            TokenOf::Boolean(b) => self.parse_literal(i, LiteralValueOf::Boolean(*b)),
            TokenOf::Null => self.parse_literal(i, LiteralValueOf::Null),
            TokenOf::LeftParen => match self.advance(i) {
                Err(e) => Err(e),
                Ok(j) => match self.parse_level(0, j) {
                    Err(e) => Err(e),
                    Ok((e, k)) => match self.expect_tok(k, TokenOf::RightParen) {
                        Err(err) => Err(err),
                        Ok(m) => Ok((e, m)),
                    },
                },
            },
            _ => Err(self.unexpected_at("expression", i)),
        }
    }

    /// The comma-separated arguments that follow `args`.
    fn parse_args_rest(&self, args: Vec<Expr>, j: usize) -> (r: Result<(Vec<Expr>, usize), ParseError>)
        requires
            j <= self.stream().toks.len(),
        ensures
            agrees(r, spec_parse_args_rest(self.stream(), exprs_view(args@), j as nat), |v: Vec<Expr>| exprs_view(v@)),
            stops_within(r, self.stream().toks.len()),
        decreases self.stream().toks.len() - j, 0int,
    {
        if self.is_comma(j) && j < self.len() {
            match self.advance(j) {
                Err(e) => Err(e),
                Ok(k) => match self.parse_level(0, k) {
                    Err(e) => Err(e),
                    Ok((a, m)) => {
                        let ghost before = exprs_view(args@);
                        let ghost av = a@;
                        let mut args = args;
                        args.push(a);
                        assert(exprs_view(args@) =~= before.push(av));
                        if j < m && m <= self.len() {
                            self.parse_args_rest(args, m)
                        } else {
                            Ok((args, m))
                        }
                    },
                },
            }
        } else {
            Ok((args, j))
        }
    }

    /// A full expression from `i`.
    fn parse_expression(&self, i: usize) -> (r: Result<(Expr, usize), ParseError>)
        requires
            i <= self.stream().toks.len(),
        ensures
            agrees(r, spec_parse_expression(self.stream(), i as nat), |e: Expr| e@),
            stops_within(r, self.stream().toks.len()),
    {
        self.parse_level(0, i)
    }
}

impl Parser {
    /// A column expression of `select` from `i`.
    fn parse_column_expr(&self, i: usize) -> (r: Result<(ColumnExpr, usize), ParseError>)
        requires
            i <= self.stream().toks.len(),
        ensures
            agrees(r, spec_parse_column_expr(self.stream(), i as nat), |c: ColumnExpr| c@),
            stops_within(r, self.stream().toks.len()),
    {
        match self.tok_at(i) {
            TokenOf::Identifier(first) => {
                let first = first.clone();
                match self.advance(i) {
                    Err(e) => Err(e),
                    Ok(j) => if self.is_assignment(j) {
                        match self.advance(j) {
                            Err(e) => Err(e),
                            Ok(k) => match self.parse_expression(k) {
                                Err(e) => Err(e),
                                Ok((e, m)) => Ok((ColumnExpr { expr: e, alias: Some(first) }, m)),
                            },
                        }
                    } else if self.is_left_paren(j) {
                        match self.advance(j) {
                            Err(e) => Err(e),
                            Ok(k) => {
                                let args = if self.is_right_paren(k) {
                                    Ok((Vec::new(), k))
                                } else {
                                    match self.parse_expression(k) {
                                        Err(e) => Err(e),
                                        Ok((a, m)) => {
                                            let ghost av = a@;
                                            let mut v: Vec<Expr> = Vec::new();
                                            v.push(a);
                                            assert(exprs_view(v@) =~= seq![av]);
                                            self.parse_args_rest(v, m)
                                        },
                                    }
                                };
                                assert(exprs_view(Seq::<Expr>::empty()) =~= Seq::<SpecExpr>::empty());
                                match args {
                                    Err(e) => Err(e),
                                    Ok((args, n)) => match self.expect_tok(n, TokenOf::RightParen) {
                                        Err(e) => Err(e),
                                        Ok(o) => {
                                            proof {
                                                lemma_function_view(first, args);
                                            }
                                            let expr = Expr::Function { name: first, args };
                                            Ok((ColumnExpr { expr, alias: None }, o))
                                        },
                                    },
                                }
                            },
                        }
                    } else {
                        Ok((ColumnExpr { expr: Expr::Identifier(first), alias: None }, j))
                    },
                }
            },
            _ => match self.parse_expression(i) {
                Err(e) => Err(e),
                Ok((e, m)) => Ok((ColumnExpr { expr: e, alias: None }, m)),
            },
        }
    }

    /// An assignment `column = expr` of `mutate` from `i`.
    fn parse_assignment(&self, i: usize) -> (r: Result<(Assignment, usize), ParseError>)
        requires
            i <= self.stream().toks.len(),
        ensures
            agrees(r, spec_parse_assignment(self.stream(), i as nat), |a: Assignment| a@),
            stops_within(r, self.stream().toks.len()),
    {
        match self.tok_at(i) {
            TokenOf::Identifier(column) => {
                let column = column.clone();
                match self.advance(i) {
                    Err(e) => Err(e),
                    Ok(j) => match self.expect_tok(j, TokenOf::Assignment) {
                        Err(e) => Err(e),
                        Ok(k) => match self.parse_expression(k) {
                            Err(e) => Err(e),
                            Ok((e, m)) => Ok((Assignment { column, expr: e }, m)),
                        },
                    },
                }
            },
            _ => Err(self.unexpected_at("column identifier", i)),
        }
    }

    /// `desc(column)` or `asc(column)` from the keyword at `i`.
    fn parse_order_call(&self, i: usize, dir: OrderDirection) -> (r: Result<(OrderExpr, usize), ParseError>)
        requires
            !(tok(self.stream(), i as nat) is EOF),
        ensures
            agrees(r, spec_parse_order_call(self.stream(), i as nat, dir), |o: OrderExpr| o@),
            stops_within(r, self.stream().toks.len()),
    {
        match self.advance(i) {
            Err(e) => Err(e),
            Ok(j) => match self.expect_tok(j, TokenOf::LeftParen) {
                Err(e) => Err(e),
                Ok(k) => match self.tok_at(k) {
                    TokenOf::Identifier(column) => {
                        let column = column.clone();
                        match self.advance(k) {
                            Err(e) => Err(e),
                            Ok(m) => match self.expect_tok(m, TokenOf::RightParen) {
                                Err(e) => Err(e),
                                Ok(n) => Ok((OrderExprOf { column, direction: dir }, n)),
                            },
                        }
                    },
                    _ => Err(self.unexpected_at("column identifier", k)),
                },
            },
        }
    }

    /// A sort expression of `arrange` from `i`.
    fn parse_order_expr(&self, i: usize) -> (r: Result<(OrderExpr, usize), ParseError>)
        requires
            i <= self.stream().toks.len(),
        ensures
            agrees(r, spec_parse_order_expr(self.stream(), i as nat), |o: OrderExpr| o@),
            stops_within(r, self.stream().toks.len()),
    {
        match self.tok_at(i) {
            TokenOf::Desc => self.parse_order_call(i, OrderDirection::Desc),
            TokenOf::Asc => self.parse_order_call(i, OrderDirection::Asc),
            TokenOf::Identifier(name) => {
                if str_eq(name.as_str(), "desc") {
                    self.parse_order_call(i, OrderDirection::Desc)
                } else if str_eq(name.as_str(), "asc") {
                    self.parse_order_call(i, OrderDirection::Asc)
                } else {
                    let column = name.clone();
                    match self.advance(i) {
                        Err(e) => Err(e),
                        Ok(j) => Ok((OrderExprOf { column, direction: OrderDirection::Asc }, j)),
                    }
                }
            },
            _ => Err(self.unexpected_at("column identifier, desc(), or asc()", i)),
        }
    }

    /// The `()` or `(column)` ending of an aggregation, from `n`.
    fn parse_aggregation_tail(&self, n: usize, function: String, alias: Option<String>) -> (r: Result<(Aggregation, usize), ParseError>)
        requires
            n <= self.stream().toks.len(),
        ensures
            agrees(
                r,
                spec_parse_aggregation_tail(self.stream(), n as nat, function@, opt_str_view(alias)),
                |a: Aggregation| a@,
            ),
            stops_within(r, self.stream().toks.len()),
    {
        match self.tok_at(n) {
            TokenOf::RightParen => match self.advance(n) {
                Err(e) => Err(e),
                Ok(o) => Ok((AggregationOf { function, column: String::new(), alias }, o)),
            },
            TokenOf::Identifier(column) => {
                let column = column.clone();
                match self.advance(n) {
                    Err(e) => Err(e),
                    Ok(o) => match self.expect_tok(o, TokenOf::RightParen) {
                        Err(e) => Err(e),
                        Ok(p) => Ok((AggregationOf { function, column, alias }, p)),
                    },
                }
            },
            _ => Err(self.unexpected_at("column identifier or closing parenthesis", n)),
        }
    }

    /// An aggregation of `summarise` from `i`.
    fn parse_aggregation(&self, i: usize) -> (r: Result<(Aggregation, usize), ParseError>)
        requires
            i <= self.stream().toks.len(),
        ensures
            agrees(r, spec_parse_aggregation(self.stream(), i as nat), |a: Aggregation| a@),
            stops_within(r, self.stream().toks.len()),
    {
        match self.tok_at(i) {
            TokenOf::Identifier(first) => {
                let first = first.clone();
                match self.advance(i) {
                    Err(e) => Err(e),
                    Ok(j) => if self.is_assignment(j) {
                        match self.advance(j) {
                            Err(e) => Err(e),
                            Ok(k) => match self.tok_at(k) {
                                TokenOf::Identifier(function) => {
                                    let function = function.clone();
                                    match self.advance(k) {
                                        Err(e) => Err(e),
                                        Ok(m) => match self.expect_tok(m, TokenOf::LeftParen) {
                                            Err(e) => Err(e),
                                            Ok(n) => self.parse_aggregation_tail(n, function, Some(first)),
                                        },
                                    }
                                },
                                _ => Err(self.unexpected_at("aggregation function name", k)),
                            },
                        }
                    } else {
                        match self.expect_tok(j, TokenOf::LeftParen) {
                            Err(e) => Err(e),
                            Ok(n) => self.parse_aggregation_tail(n, first, None),
                        }
                    },
                }
            },
            _ => Err(self.unexpected_at("aggregation function name or alias", i)),
        }
    }

    /// The comma-separated column expressions that follow `items`.
    fn parse_columns_rest(&self, items: Vec<ColumnExpr>, j: usize) -> (r: Result<(Vec<ColumnExpr>, usize), ParseError>)
        requires
            j <= self.stream().toks.len(),
        ensures
            agrees(r, spec_parse_columns_rest(self.stream(), columns_view(items@), j as nat), |v: Vec<ColumnExpr>| columns_view(v@)),
            stops_within(r, self.stream().toks.len()),
        decreases self.stream().toks.len() - j,
    {
        if self.is_comma(j) {
            match self.advance(j) {
                Err(e) => Err(e),
                Ok(k) => match self.parse_column_expr(k) {
                    Err(e) => Err(e),
                    Ok((c, m)) => {
                        let ghost before = columns_view(items@);
                        let ghost cv = c@;
                        let mut items = items;
                        items.push(c);
                        assert(columns_view(items@) =~= before.push(cv));
                        if j < m && m <= self.len() {
                            self.parse_columns_rest(items, m)
                        } else {
                            Ok((items, m))
                        }
                    },
                },
            }
        } else {
            Ok((items, j))
        }
    }

    /// The comma-separated assignments that follow `items`.
    fn parse_assignments_rest(&self, items: Vec<Assignment>, j: usize) -> (r: Result<(Vec<Assignment>, usize), ParseError>)
        requires
            j <= self.stream().toks.len(),
        ensures
            agrees(r, spec_parse_assignments_rest(self.stream(), assignments_view(items@), j as nat), |v: Vec<Assignment>| assignments_view(v@)),
            stops_within(r, self.stream().toks.len()),
        decreases self.stream().toks.len() - j,
    {
        if self.is_comma(j) {
            match self.advance(j) {
                Err(e) => Err(e),
                Ok(k) => match self.parse_assignment(k) {
                    Err(e) => Err(e),
                    Ok((c, m)) => {
                        let ghost before = assignments_view(items@);
                        let ghost cv = c@;
                        let mut items = items;
                        items.push(c);
                        assert(assignments_view(items@) =~= before.push(cv));
                        if j < m && m <= self.len() {
                            self.parse_assignments_rest(items, m)
                        } else {
                            Ok((items, m))
                        }
                    },
                },
            }
        } else {
            Ok((items, j))
        }
    }

    /// The comma-separated sort expressions that follow `items`.
    fn parse_orders_rest(&self, items: Vec<OrderExpr>, j: usize) -> (r: Result<(Vec<OrderExpr>, usize), ParseError>)
        requires
            j <= self.stream().toks.len(),
        ensures
            agrees(r, spec_parse_orders_rest(self.stream(), orders_view(items@), j as nat), |v: Vec<OrderExpr>| orders_view(v@)),
            stops_within(r, self.stream().toks.len()),
        decreases self.stream().toks.len() - j,
    {
        if self.is_comma(j) {
            match self.advance(j) {
                Err(e) => Err(e),
                Ok(k) => match self.parse_order_expr(k) {
                    Err(e) => Err(e),
                    Ok((c, m)) => {
                        let ghost before = orders_view(items@);
                        let ghost cv = c@;
                        let mut items = items;
                        items.push(c);
                        assert(orders_view(items@) =~= before.push(cv));
                        if j < m && m <= self.len() {
                            self.parse_orders_rest(items, m)
                        } else {
                            Ok((items, m))
                        }
                    },
                },
            }
        } else {
            Ok((items, j))
        }
    }

    /// The comma-separated aggregations that follow `items`.
    fn parse_aggregations_rest(&self, items: Vec<Aggregation>, j: usize) -> (r: Result<(Vec<Aggregation>, usize), ParseError>)
        requires
            j <= self.stream().toks.len(),
        ensures
            agrees(r, spec_parse_aggregations_rest(self.stream(), aggregations_view(items@), j as nat), |v: Vec<Aggregation>| aggregations_view(v@)),
            stops_within(r, self.stream().toks.len()),
        decreases self.stream().toks.len() - j,
    {
        if self.is_comma(j) {
            match self.advance(j) {
                Err(e) => Err(e),
                Ok(k) => match self.parse_aggregation(k) {
                    Err(e) => Err(e),
                    Ok((c, m)) => {
                        let ghost before = aggregations_view(items@);
                        let ghost cv = c@;
                        let mut items = items;
                        items.push(c);
                        assert(aggregations_view(items@) =~= before.push(cv));
                        if j < m && m <= self.len() {
                            self.parse_aggregations_rest(items, m)
                        } else {
                            Ok((items, m))
                        }
                    },
                },
            }
        } else {
            Ok((items, j))
        }
    }

    /// The comma-separated grouping columns that follow `items`.
    fn parse_group_rest(&self, items: Vec<String>, j: usize) -> (r: Result<(Vec<String>, usize), ParseError>)
        requires
            j <= self.stream().toks.len(),
        ensures
            agrees(r, spec_parse_group_rest(self.stream(), strings_view(items@), j as nat), |v: Vec<String>| strings_view(v@)),
            stops_within(r, self.stream().toks.len()),
        decreases self.stream().toks.len() - j,
    {
        if self.is_comma(j) {
            match self.advance(j) {
                Err(e) => Err(e),
                Ok(k) => match self.tok_at(k) {
                    TokenOf::Identifier(name) => {
                        let name = name.clone();
                        match self.advance(k) {
                            Err(e) => Err(e),
                            Ok(m) => {
                                let ghost before = strings_view(items@);
                                let ghost nv = name@;
                                let mut items = items;
                                items.push(name);
                                assert(strings_view(items@) =~= before.push(nv));
                                if j < m && m <= self.len() {
                                    self.parse_group_rest(items, m)
                                } else {
                                    Ok((items, m))
                                }
                            },
                        }
                    },
                    _ => Err(self.unexpected_at("identifier", k)),
                },
            }
        } else {
            Ok((items, j))
        }
    }
}

impl Parser {
    /// `select(...)` from the keyword at `i`.
    fn parse_select(&self, i: usize) -> (r: Result<(DplyrOperation, usize), ParseError>)
        requires
            i < self.stream().toks.len(),
            !(tok(self.stream(), i as nat) is EOF),
        ensures
            agrees(r, spec_parse_select(self.stream(), i as nat), |o: DplyrOperation| o@),
            stops_within(r, self.stream().toks.len()),
    {
        let location = self.location_at(i);
        match self.advance(i) {
            Err(e) => Err(e),
            Ok(j0) => match self.expect_tok(j0, TokenOf::LeftParen) {
                Err(e) => Err(e),
                Ok(j) => {
                    let items = if self.is_right_paren(j) {
                        Ok((Vec::new(), j))
                    } else {
                        match self.parse_column_expr(j) {
                            Err(e) => Err(e),
                            Ok((c, k)) => {
                                let ghost cv = c@;
                                let mut v: Vec<ColumnExpr> = Vec::new();
                                v.push(c);
                                assert(columns_view(v@) =~= seq![cv]);
                                self.parse_columns_rest(v, k)
                            },
                        }
                    };
                    assert(columns_view(Seq::<ColumnExpr>::empty()) =~= Seq::<SpecColumnExpr>::empty());
                    match items {
                        Err(e) => Err(e),
                        Ok((columns, m)) => match self.expect_tok(m, TokenOf::RightParen) {
                            Err(e) => Err(e),
                            Ok(n) => Ok((DplyrOperation::Select { columns, location }, n)),
                        },
                    }
                },
            },
        }
    }

    /// `filter(condition)` from the keyword at `i`.
    fn parse_filter(&self, i: usize) -> (r: Result<(DplyrOperation, usize), ParseError>)
        requires
            i < self.stream().toks.len(),
            !(tok(self.stream(), i as nat) is EOF),
        ensures
            agrees(r, spec_parse_filter(self.stream(), i as nat), |o: DplyrOperation| o@),
            stops_within(r, self.stream().toks.len()),
    {
        let location = self.location_at(i);
        match self.advance(i) {
            Err(e) => Err(e),
            Ok(j0) => match self.expect_tok(j0, TokenOf::LeftParen) {
                Err(e) => Err(e),
                Ok(j) => match self.parse_expression(j) {
                    Err(e) => Err(e),
                    Ok((condition, k)) => match self.expect_tok(k, TokenOf::RightParen) {
                        Err(e) => Err(e),
                        Ok(n) => Ok((DplyrOperation::Filter { condition, location }, n)),
                    },
                },
            },
        }
    }

    /// `mutate(...)` from the keyword at `i`.
    fn parse_mutate(&self, i: usize) -> (r: Result<(DplyrOperation, usize), ParseError>)
        requires
            i < self.stream().toks.len(),
            !(tok(self.stream(), i as nat) is EOF),
        ensures
            agrees(r, spec_parse_mutate(self.stream(), i as nat), |o: DplyrOperation| o@),
            stops_within(r, self.stream().toks.len()),
    {
        let location = self.location_at(i);
        match self.advance(i) {
            Err(e) => Err(e),
            Ok(j0) => match self.expect_tok(j0, TokenOf::LeftParen) {
                Err(e) => Err(e),
                Ok(j) => {
                    let items = if self.is_right_paren(j) {
                        Ok((Vec::new(), j))
                    } else {
                        match self.parse_assignment(j) {
                            Err(e) => Err(e),
                            Ok((c, k)) => {
                                let ghost cv = c@;
                                let mut v: Vec<Assignment> = Vec::new();
                                v.push(c);
                                assert(assignments_view(v@) =~= seq![cv]);
                                self.parse_assignments_rest(v, k)
                            },
                        }
                    };
                    assert(assignments_view(Seq::<Assignment>::empty()) =~= Seq::<SpecAssignment>::empty());
                    match items {
                        Err(e) => Err(e),
                        Ok((assignments, m)) => match self.expect_tok(m, TokenOf::RightParen) {
                            Err(e) => Err(e),
                            Ok(n) => Ok((DplyrOperation::Mutate { assignments, location }, n)),
                        },
                    }
                },
            },
        }
    }

    /// `arrange(...)` from the keyword at `i`.
    fn parse_arrange(&self, i: usize) -> (r: Result<(DplyrOperation, usize), ParseError>)
        requires
            i < self.stream().toks.len(),
            !(tok(self.stream(), i as nat) is EOF),
        ensures
            agrees(r, spec_parse_arrange(self.stream(), i as nat), |o: DplyrOperation| o@),
            stops_within(r, self.stream().toks.len()),
    {
        let location = self.location_at(i);
        match self.advance(i) {
            Err(e) => Err(e),
            Ok(j0) => match self.expect_tok(j0, TokenOf::LeftParen) {
                Err(e) => Err(e),
                Ok(j) => {
                    let items = if self.is_right_paren(j) {
                        Ok((Vec::new(), j))
                    } else {
                        match self.parse_order_expr(j) {
                            Err(e) => Err(e),
                            Ok((c, k)) => {
                                let ghost cv = c@;
                                let mut v: Vec<OrderExpr> = Vec::new();
                                v.push(c);
                                assert(orders_view(v@) =~= seq![cv]);
                                self.parse_orders_rest(v, k)
                            },
                        }
                    };
                    assert(orders_view(Seq::<OrderExpr>::empty()) =~= Seq::<OrderExprOf<Seq<char>>>::empty());
                    match items {
                        Err(e) => Err(e),
                        Ok((columns, m)) => match self.expect_tok(m, TokenOf::RightParen) {
                            Err(e) => Err(e),
                            Ok(n) => Ok((DplyrOperation::Arrange { columns, location }, n)),
                        },
                    }
                },
            },
        }
    }

    /// `group_by(...)` from the keyword at `i`.
    fn parse_group_by(&self, i: usize) -> (r: Result<(DplyrOperation, usize), ParseError>)
        requires
            i < self.stream().toks.len(),
            !(tok(self.stream(), i as nat) is EOF),
        ensures
            agrees(r, spec_parse_group_by(self.stream(), i as nat), |o: DplyrOperation| o@),
            stops_within(r, self.stream().toks.len()),
    {
        let location = self.location_at(i);
        match self.advance(i) {
            Err(e) => Err(e),
            Ok(j0) => match self.expect_tok(j0, TokenOf::LeftParen) {
                Err(e) => Err(e),
                Ok(j) => {
                    let items = match self.tok_at(j) {
                        TokenOf::Identifier(name) => {
                            let name = name.clone();
                            match self.advance(j) {
                                Err(e) => Err(e),
                                Ok(k) => {
                                    let ghost nv = name@;
                                    let mut v: Vec<String> = Vec::new();
                                    v.push(name);
                                    assert(strings_view(v@) =~= seq![nv]);
                                    self.parse_group_rest(v, k)
                                },
                            }
                        },
                        _ => Ok((Vec::new(), j)),
                    };
                    assert(strings_view(Seq::<String>::empty()) =~= Seq::<Seq<char>>::empty());
                    match items {
                        Err(e) => Err(e),
                        Ok((columns, m)) => match self.expect_tok(m, TokenOf::RightParen) {
                            Err(e) => Err(e),
                            Ok(n) => Ok((DplyrOperation::GroupBy { columns, location }, n)),
                        },
                    }
                },
            },
        }
    }

    /// `summarise(...)` from the keyword at `i`.
    fn parse_summarise(&self, i: usize) -> (r: Result<(DplyrOperation, usize), ParseError>)
        requires
            i < self.stream().toks.len(),
            !(tok(self.stream(), i as nat) is EOF),
        ensures
            agrees(r, spec_parse_summarise(self.stream(), i as nat), |o: DplyrOperation| o@),
            stops_within(r, self.stream().toks.len()),
    {
        let location = self.location_at(i);
        match self.advance(i) {
            Err(e) => Err(e),
            Ok(j0) => match self.expect_tok(j0, TokenOf::LeftParen) {
                Err(e) => Err(e),
                Ok(j) => {
                    let items = if self.is_right_paren(j) {
                        Ok((Vec::new(), j))
                    } else {
                        match self.parse_aggregation(j) {
                            Err(e) => Err(e),
                            Ok((c, k)) => {
                                let ghost cv = c@;
                                let mut v: Vec<Aggregation> = Vec::new();
                                v.push(c);
                                assert(aggregations_view(v@) =~= seq![cv]);
                                self.parse_aggregations_rest(v, k)
                            },
                        }
                    };
                    assert(aggregations_view(Seq::<Aggregation>::empty()) =~= Seq::<AggregationOf<Seq<char>>>::empty());
                    match items {
                        Err(e) => Err(e),
                        Ok((aggregations, m)) => match self.expect_tok(m, TokenOf::RightParen) {
                            Err(e) => Err(e),
                            Ok(n) => Ok((DplyrOperation::Summarise { aggregations, location }, n)),
                        },
                    }
                },
            },
        }
    }

    /// One dplyr operation from `i`, chosen by its keyword.
    fn parse_operation(&self, i: usize) -> (r: Result<(DplyrOperation, usize), ParseError>)
        requires
            i <= self.stream().toks.len(),
        ensures
            agrees(r, spec_parse_operation(self.stream(), i as nat), |o: DplyrOperation| o@),
            stops_within(r, self.stream().toks.len()),
    {
        match self.tok_at(i) {
            TokenOf::Select => self.parse_select(i),
            TokenOf::Filter => self.parse_filter(i),
            TokenOf::Mutate => self.parse_mutate(i),
            TokenOf::Arrange => self.parse_arrange(i),
            TokenOf::GroupBy => self.parse_group_by(i),
            TokenOf::Summarise => self.parse_summarise(i),
            _ => Err(self.unexpected_at("dplyr function", i)),
        }
    }

    /// The `%>% operation` pairs that follow `ops`.
    fn parse_operations_rest(&self, ops: Vec<DplyrOperation>, j: usize) -> (r: Result<(Vec<DplyrOperation>, usize), ParseError>)
        requires
            j <= self.stream().toks.len(),
        ensures
            agrees(r, spec_parse_operations_rest(self.stream(), operations_view(ops@), j as nat), |v: Vec<DplyrOperation>| operations_view(v@)),
            stops_within(r, self.stream().toks.len()),
        decreases self.stream().toks.len() - j,
    {
        if self.is_pipe(j) {
            match self.advance(j) {
                Err(e) => Err(e),
                Ok(k0) => match self.skip_newlines(k0) {
                    Err(e) => Err(e),
                    Ok(k) => match self.parse_operation(k) {
                        Err(e) => Err(e),
                        Ok((op, m)) => {
                            let ghost before = operations_view(ops@);
                            let ghost ov = op@;
                            let mut ops = ops;
                            ops.push(op);
                            assert(operations_view(ops@) =~= before.push(ov));
                            if j < m && m <= self.len() {
                                self.parse_operations_rest(ops, m)
                            } else {
                                Ok((ops, m))
                            }
                        },
                    },
                },
            }
        } else {
            Ok((ops, j))
        }
    }

    /// A whole pipeline.
    fn parse_pipeline(&self) -> (r: Result<DplyrNode, ParseError>)
        ensures
            match r {
                Ok(n) => spec_parse_pipeline(self.stream()) == Ok::<SpecNode, SpecParseError>(n@),
                Err(e) => spec_parse_pipeline(self.stream()) == Err::<SpecNode, SpecParseError>(e@),
            },
    {
        proof {
            use_type_invariant(self);
        }
        assert(self.stream().toks.len() == self.tokens@.len());
        let location = self.location_at(0);
        match self.skip_newlines(0) {
            Err(e) => Err(e),
            Ok(i) => if self.tok_at(i).is_eof() {
                Err(ParseErrorOf::InvalidOperation { operation: string_of_str_lit("empty pipeline"), position: i })
            } else {
                match self.tok_at(i) {
                    TokenOf::Identifier(name) => {
                        let name = name.clone();
                        match self.advance(i) {
                            Err(e) => Err(e),
                            Ok(j0) => match self.skip_newlines(j0) {
                                Err(e) => Err(e),
                                Ok(j) => if self.is_pipe(j) {
                                    match self.advance(j) {
                                        Err(e) => Err(e),
                                        Ok(k0) => match self.skip_newlines(k0) {
                                            Err(e) => Err(e),
                                            Ok(k) => match self.parse_operation(k) {
                                                Err(e) => Err(e),
                                                Ok((op, m)) => {
                                                    let ghost ov = op@;
                                                    let mut v: Vec<DplyrOperation> = Vec::new();
                                                    v.push(op);
                                                    assert(operations_view(v@) =~= seq![ov]);
                                                    match self.parse_operations_rest(v, m) {
                                                        Err(e) => Err(e),
                                                        Ok((operations, _n)) => Ok(DplyrNode::Pipeline { operations, location }),
                                                    }
                                                },
                                            },
                                        },
                                    }
                                } else if self.is_left_paren(j) {
                                    let mut found = name.clone();
                                    push_char(&mut found, '(');
                                    proof {
                                        reveal_strlit("(");
                                        assert(found@ =~= name@ + "("@);
                                    }
                                    Err(
                                        ParseErrorOf::UnexpectedToken {
                                            expected: string_of_str_lit("dplyr function or pipe operator"),
                                            found,
                                            position: j,
                                        },
                                    )
                                } else {
                                    Ok(DplyrNode::DataSource { name, location })
                                },
                            },
                        }
                    },
                    _ => match self.parse_operation(i) {
                        Err(e) => Err(e),
                        Ok((op, m)) => {
                            let ghost ov = op@;
                            let mut v: Vec<DplyrOperation> = Vec::new();
                            v.push(op);
                            assert(operations_view(v@) =~= seq![ov]);
                            match self.parse_operations_rest(v, m) {
                                Err(e) => Err(e),
                                Ok((operations, n)) => match self.skip_newlines(n) {
                                    Err(e) => Err(e),
                                    Ok(_) => Ok(DplyrNode::Pipeline { operations, location }),
                                },
                            }
                        },
                    },
                }
            },
        }
    }
}

} // verus!
