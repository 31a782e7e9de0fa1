//! SQL generation: turns a dplyr AST into a query of one SQL dialect.
//!
//! A dialect states, by specification functions, what each of its text
//! operations returns; the generator's contract is a specification of the
//! whole query over those functions.

use crate::error::{GenerationError, GenerationErrorOf};
use crate::parser::{
    aggregations_view, assignments_view, columns_view, exprs_view, operations_view, orders_view,
    Aggregation, AggregationOf, Assignment, BinaryOp, ColumnExpr, DplyrNode, DplyrOperation, Expr,
    LiteralValue, LiteralValueOf, OrderDirection, OrderExpr, OrderExprOf, SpecAssignment,
    SpecColumnExpr, SpecExpr, SpecNode, SpecOperation,
};
use crate::text::{
    chars_of, contains, decimal, decimal_string, join, join_strings, lower_text, occurs_at,
    push_char, replace, starts_with,
    replace_str, str_eq, string_of_chars, string_of_str, strings_view, to_lowercase, to_uppercase,
    upper_text, ascii_lower, ascii_upper, is_ascii_seq,
};
use vstd::prelude::*;
use vstd::string::*;

verus! {

/// SQL dialect: the database-specific pieces of SQL text.
///
/// Each operation is described by a specification function of the same
/// dialect; the generator's contract is stated over these.
pub trait SqlDialect {
    /// What `quote_identifier` returns for `name`.
    spec fn quoted_identifier(&self, name: Seq<char>) -> Seq<char>;

    /// What `quote_string` returns for `value`.
    spec fn quoted_string(&self, value: Seq<char>) -> Seq<char>;

    /// What `limit_clause` returns for `limit`.
    spec fn limit_text(&self, limit: usize) -> Seq<char>;

    /// What `string_concat` returns for `left` and `right`.
    spec fn concat_text(&self, left: Seq<char>, right: Seq<char>) -> Seq<char>;

    /// What `aggregate_function` returns for `function`.
    spec fn aggregate_name(&self, function: Seq<char>) -> Seq<char>;

    /// What `is_case_sensitive` returns.
    spec fn case_sensitive(&self) -> bool;

    /// Quotes an identifier according to the database's conventions.
    fn quote_identifier(&self, name: &str) -> (r: String)
        ensures
            r@ == self.quoted_identifier(name@),
    ;

    /// Quotes and escapes a string literal.
    fn quote_string(&self, value: &str) -> (r: String)
        ensures
            r@ == self.quoted_string(value@),
    ;

    /// The LIMIT clause for at most `limit` rows.
    fn limit_clause(&self, limit: usize) -> (r: String)
        ensures
            r@ == self.limit_text(limit),
    ;

    /// The concatenation of two (already quoted) string expressions.
    fn string_concat(&self, left: &str, right: &str) -> (r: String)
        ensures
            r@ == self.concat_text(left@, right@),
    ;

    /// The SQL name of a dplyr aggregate function.
    fn aggregate_function(&self, function: &str) -> (r: String)
        ensures
            r@ == self.aggregate_name(function@),
    ;

    /// Whether identifiers are case-sensitive in this database.
    fn is_case_sensitive(&self) -> (b: bool)
        ensures
            b == self.case_sensitive(),
    ;
}

/// `name` between double quotes.
pub open spec fn double_quoted(name: Seq<char>) -> Seq<char> {
    seq!['"'] + name + seq!['"']
}

/// `name` between backticks.
pub open spec fn backtick_quoted(name: Seq<char>) -> Seq<char> {
    seq!['`'] + name + seq!['`']
}

/// A single-quoted SQL string literal: each `'` doubled.
pub open spec fn single_quoted(value: Seq<char>) -> Seq<char> {
    seq!['\''] + replace(value, seq!['\''], seq!['\'', '\'']) + seq!['\'']
}

/// `LIMIT n`.
pub open spec fn limit_of(limit: usize) -> Seq<char> {
    "LIMIT "@ + decimal(limit as nat)
}

/// `left || right`.
pub open spec fn pipes_concat(left: Seq<char>, right: Seq<char>) -> Seq<char> {
    left + " || "@ + right
}

/// `CONCAT(left, right)`.
pub open spec fn function_concat(left: Seq<char>, right: Seq<char>) -> Seq<char> {
    "CONCAT("@ + left + ", "@ + right + ")"@
}

/// The aggregate names every dialect shares, matched on the lower-cased
/// name; `None` where a dialect decides.
pub open spec fn common_aggregate(lower: Seq<char>) -> Option<Seq<char>> {
    if lower == "mean"@ || lower == "avg"@ {
        Some("AVG"@)
    } else if lower == "sum"@ {
        Some("SUM"@)
    } else if lower == "count"@ {
        Some("COUNT"@)
    } else if lower == "min"@ {
        Some("MIN"@)
    } else if lower == "max"@ {
        Some("MAX"@)
    } else if lower == "n"@ {
        Some("COUNT(*)"@)
    } else {
        None
    }
}

/// The aggregate name of the standard dialects: the common names, else the
/// upper-cased function name.
pub open spec fn standard_aggregate(function: Seq<char>) -> Seq<char> {
    match common_aggregate(lower_text(function)) {
        Some(n) => n,
        None => upper_text(function),
    }
}

/// DuckDB's aggregate names: the common names, `MEDIAN` and `MODE`, else the
/// upper-cased function name.
pub open spec fn duckdb_aggregate(function: Seq<char>) -> Seq<char> {
    let lower = lower_text(function);
    match common_aggregate(lower) {
        Some(n) => n,
        None => if lower == "median"@ {
            "MEDIAN"@
        } else if lower == "mode"@ {
            "MODE"@
        } else {
            upper_text(function)
        },
    }
}

/// `name` between double quotes, as a string.
fn double_quote_exec(name: &str) -> (r: String)
    ensures
        r@ == double_quoted(name@),
{
    let mut s = String::new();
    push_char(&mut s, '"');
    s.append(name);
    push_char(&mut s, '"');
    assert(s@ =~= double_quoted(name@));
    s
}

/// `name` between backticks, as a string.
fn backtick_quote_exec(name: &str) -> (r: String)
    ensures
        r@ == backtick_quoted(name@),
{
    let mut s = String::new();
    push_char(&mut s, '`');
    s.append(name);
    push_char(&mut s, '`');
    assert(s@ =~= backtick_quoted(name@));
    s
}

/// A single-quoted, escaped string literal.
fn single_quote_exec(value: &str) -> (r: String)
    ensures
        r@ == single_quoted(value@),
{
    proof {
        reveal_strlit("'");
        reveal_strlit("''");
    }
    let v = chars_of(value);
    let escaped = replace_str(&v, "'", "''");
    assert("'"@ =~= seq!['\'']);
    assert("''"@ =~= seq!['\'', '\'']);
    let mut s = String::new();
    push_char(&mut s, '\'');
    let e = string_of_chars(&escaped);
    s.append(e.as_str());
    push_char(&mut s, '\'');
    assert(s@ =~= single_quoted(value@));
    s
}

/// `LIMIT n`, as a string.
fn limit_exec(limit: usize) -> (r: String)
    ensures
        r@ == limit_of(limit),
{
    let mut s = string_of_str("LIMIT ");
    let d = decimal_string(limit);
    s.append(d.as_str());
    s
}

/// `left || right`, as a string.
fn pipes_concat_exec(left: &str, right: &str) -> (r: String)
    ensures
        r@ == pipes_concat(left@, right@),
{
    let mut s = string_of_str(left);
    s.append(" || ");
    s.append(right);
    s
}

/// `CONCAT(left, right)`, as a string.
fn function_concat_exec(left: &str, right: &str) -> (r: String)
    ensures
        r@ == function_concat(left@, right@),
{
    let mut s = string_of_str("CONCAT(");
    s.append(left);
    s.append(", ");
    s.append(right);
    s.append(")");
    s
}

/// The shared aggregate name for a lower-cased function name, if any.
fn common_aggregate_exec(lower: &str) -> (r: Option<String>)
    ensures
        match r {
            Some(s) => common_aggregate(lower@) == Some(s@),
            None => common_aggregate(lower@) is None,
        },
{
    if str_eq(lower, "mean") || str_eq(lower, "avg") {
        Some(string_of_str("AVG"))
    } else if str_eq(lower, "sum") {
        Some(string_of_str("SUM"))
    } else if str_eq(lower, "count") {
        Some(string_of_str("COUNT"))
    } else if str_eq(lower, "min") {
        Some(string_of_str("MIN"))
    } else if str_eq(lower, "max") {
        Some(string_of_str("MAX"))
    } else if str_eq(lower, "n") {
        Some(string_of_str("COUNT(*)"))
    } else {
        None
    }
}

/// The standard dialects' aggregate name.
fn standard_aggregate_exec(function: &str) -> (r: String)
    ensures
        r@ == standard_aggregate(function@),
{
    let lower = to_lowercase(function);
    match common_aggregate_exec(lower.as_str()) {
        Some(n) => n,
        None => to_uppercase(function),
    }
}

/// PostgreSQL dialect: double-quoted identifiers, `||` concatenation.
#[derive(Debug, Clone, Copy)]
pub struct PostgreSqlDialect;

impl PostgreSqlDialect {
    /// Creates a PostgreSQL dialect.
    pub fn new() -> (d: Self)
        ensures
            d == PostgreSqlDialect,
    {
        PostgreSqlDialect
    }

    /// A boxed copy of this dialect.
    ///
    /// Its result, a `Box<dyn SqlDialect>`, carries no postcondition: that
    /// the copy acts as this dialect is left unstated.
    pub fn clone_box(&self) -> Box<dyn SqlDialect> {
        Box::new(PostgreSqlDialect)
    }
}

impl SqlDialect for PostgreSqlDialect {
    open spec fn quoted_identifier(&self, name: Seq<char>) -> Seq<char> {
        double_quoted(name)
    }

    open spec fn quoted_string(&self, value: Seq<char>) -> Seq<char> {
        single_quoted(value)
    }

    open spec fn limit_text(&self, limit: usize) -> Seq<char> {
        limit_of(limit)
    }

    open spec fn concat_text(&self, left: Seq<char>, right: Seq<char>) -> Seq<char> {
        pipes_concat(left, right)
    }

    open spec fn aggregate_name(&self, function: Seq<char>) -> Seq<char> {
        standard_aggregate(function)
    }

    open spec fn case_sensitive(&self) -> bool {
        false
    }

    fn quote_identifier(&self, name: &str) -> (r: String) {
        double_quote_exec(name)
    }

    fn quote_string(&self, value: &str) -> (r: String) {
        single_quote_exec(value)
    }

    fn limit_clause(&self, limit: usize) -> (r: String) {
        limit_exec(limit)
    }

    fn string_concat(&self, left: &str, right: &str) -> (r: String) {
        pipes_concat_exec(left, right)
    }

    fn aggregate_function(&self, function: &str) -> (r: String) {
        standard_aggregate_exec(function)
    }

    fn is_case_sensitive(&self) -> (b: bool) {
        false
    }
}

/// MySQL dialect: backtick-quoted identifiers, `CONCAT()` concatenation.
#[derive(Debug, Clone, Copy)]
pub struct MySqlDialect;

impl MySqlDialect {
    /// Creates a MySQL dialect.
    pub fn new() -> (d: Self)
        ensures
            d == MySqlDialect,
    {
        MySqlDialect
    }

    /// A boxed copy of this dialect.
    ///
    /// Its result, a `Box<dyn SqlDialect>`, carries no postcondition: that
    /// the copy acts as this dialect is left unstated.
    pub fn clone_box(&self) -> Box<dyn SqlDialect> {
        Box::new(MySqlDialect)
    }
}

impl SqlDialect for MySqlDialect {
    open spec fn quoted_identifier(&self, name: Seq<char>) -> Seq<char> {
        backtick_quoted(name)
    }

    open spec fn quoted_string(&self, value: Seq<char>) -> Seq<char> {
        single_quoted(value)
    }

    open spec fn limit_text(&self, limit: usize) -> Seq<char> {
        limit_of(limit)
    }

    open spec fn concat_text(&self, left: Seq<char>, right: Seq<char>) -> Seq<char> {
        function_concat(left, right)
    }

    open spec fn aggregate_name(&self, function: Seq<char>) -> Seq<char> {
        standard_aggregate(function)
    }

    open spec fn case_sensitive(&self) -> bool {
        false
    }

    fn quote_identifier(&self, name: &str) -> (r: String) {
        backtick_quote_exec(name)
    }

    fn quote_string(&self, value: &str) -> (r: String) {
        single_quote_exec(value)
    }

    fn limit_clause(&self, limit: usize) -> (r: String) {
        limit_exec(limit)
    }

    fn string_concat(&self, left: &str, right: &str) -> (r: String) {
        function_concat_exec(left, right)
    }

    fn aggregate_function(&self, function: &str) -> (r: String) {
        standard_aggregate_exec(function)
    }

    fn is_case_sensitive(&self) -> (b: bool) {
        false
    }
}

/// SQLite dialect: double-quoted identifiers, `||` concatenation.
#[derive(Debug, Clone, Copy)]
pub struct SqliteDialect;

impl SqliteDialect {
    /// Creates a SQLite dialect.
    pub fn new() -> (d: Self)
        ensures
            d == SqliteDialect,
    {
        SqliteDialect
    }

    /// A boxed copy of this dialect.
    ///
    /// Its result, a `Box<dyn SqlDialect>`, carries no postcondition: that
    /// the copy acts as this dialect is left unstated.
    pub fn clone_box(&self) -> Box<dyn SqlDialect> {
        Box::new(SqliteDialect)
    }
}

impl SqlDialect for SqliteDialect {
    open spec fn quoted_identifier(&self, name: Seq<char>) -> Seq<char> {
        double_quoted(name)
    }

    open spec fn quoted_string(&self, value: Seq<char>) -> Seq<char> {
        single_quoted(value)
    }

    open spec fn limit_text(&self, limit: usize) -> Seq<char> {
        limit_of(limit)
    }

    open spec fn concat_text(&self, left: Seq<char>, right: Seq<char>) -> Seq<char> {
        pipes_concat(left, right)
    }

    open spec fn aggregate_name(&self, function: Seq<char>) -> Seq<char> {
        standard_aggregate(function)
    }

    open spec fn case_sensitive(&self) -> bool {
        false
    }

    fn quote_identifier(&self, name: &str) -> (r: String) {
        double_quote_exec(name)
    }

    fn quote_string(&self, value: &str) -> (r: String) {
        single_quote_exec(value)
    }

    fn limit_clause(&self, limit: usize) -> (r: String) {
        limit_exec(limit)
    }

    fn string_concat(&self, left: &str, right: &str) -> (r: String) {
        pipes_concat_exec(left, right)
    }

    fn aggregate_function(&self, function: &str) -> (r: String) {
        standard_aggregate_exec(function)
    }

    fn is_case_sensitive(&self) -> (b: bool) {
        false
    }
}

/// DuckDB dialect: PostgreSQL-compatible, with `MEDIAN` and `MODE`.
#[derive(Debug, Clone, Copy)]
pub struct DuckDbDialect;

impl DuckDbDialect {
    /// Creates a DuckDB dialect.
    pub fn new() -> (d: Self)
        ensures
            d == DuckDbDialect,
    {
        DuckDbDialect
    }

    /// A boxed copy of this dialect.
    ///
    /// Its result, a `Box<dyn SqlDialect>`, carries no postcondition: that
    /// the copy acts as this dialect is left unstated.
    pub fn clone_box(&self) -> Box<dyn SqlDialect> {
        Box::new(DuckDbDialect)
    }
}

impl SqlDialect for DuckDbDialect {
    open spec fn quoted_identifier(&self, name: Seq<char>) -> Seq<char> {
        double_quoted(name)
    }

    open spec fn quoted_string(&self, value: Seq<char>) -> Seq<char> {
        single_quoted(value)
    }

    open spec fn limit_text(&self, limit: usize) -> Seq<char> {
        limit_of(limit)
    }

    open spec fn concat_text(&self, left: Seq<char>, right: Seq<char>) -> Seq<char> {
        pipes_concat(left, right)
    }

    open spec fn aggregate_name(&self, function: Seq<char>) -> Seq<char> {
        duckdb_aggregate(function)
    }

    open spec fn case_sensitive(&self) -> bool {
        false
    }

    fn quote_identifier(&self, name: &str) -> (r: String) {
        double_quote_exec(name)
    }

    fn quote_string(&self, value: &str) -> (r: String) {
        single_quote_exec(value)
    }

    fn limit_clause(&self, limit: usize) -> (r: String) {
        limit_exec(limit)
    }

    fn string_concat(&self, left: &str, right: &str) -> (r: String) {
        pipes_concat_exec(left, right)
    }

    fn aggregate_function(&self, function: &str) -> (r: String) {
        let lower = to_lowercase(function);
        match common_aggregate_exec(lower.as_str()) {
            Some(n) => n,
            None => if str_eq(lower.as_str(), "median") {
                string_of_str("MEDIAN")
            } else if str_eq(lower.as_str(), "mode") {
                string_of_str("MODE")
            } else {
                to_uppercase(function)
            },
        }
    }

    fn is_case_sensitive(&self) -> (b: bool) {
        false
    }
}

/// Configuration for SQL dialect behavior.
#[derive(Debug, Clone, Copy)]
pub struct DialectConfig {
    pub identifier_quote: char,
    pub string_quote: char,
    pub supports_limit: bool,
    pub supports_offset: bool,
    pub case_sensitive: bool,
}

impl Default for PostgreSqlDialect {
    fn default() -> (d: Self)
        ensures
            d == PostgreSqlDialect,
    {
        PostgreSqlDialect
    }
}

impl Default for MySqlDialect {
    fn default() -> (d: Self)
        ensures
            d == MySqlDialect,
    {
        MySqlDialect
    }
}

impl Default for SqliteDialect {
    fn default() -> (d: Self)
        ensures
            d == SqliteDialect,
    {
        SqliteDialect
    }
}

impl Default for DuckDbDialect {
    fn default() -> (d: Self)
        ensures
            d == DuckDbDialect,
    {
        DuckDbDialect
    }
}

// ===== Specification of generation =====

/// The SQL of a literal.
pub open spec fn literal_sql<D: SqlDialect + ?Sized>(d: &D, l: LiteralValueOf<Seq<char>>) -> Seq<char> {
    match l {
        LiteralValueOf::String(s) => d.quoted_string(s),
        LiteralValueOf::Number(n) => n,
        LiteralValueOf::Boolean(b) => if b { "TRUE"@ } else { "FALSE"@ },
        LiteralValueOf::Null => "NULL"@,
    }
}

/// The SQL of a binary operator.
pub open spec fn operator_sql(op: BinaryOp) -> Seq<char> {
    match op {
        BinaryOp::Equal => "="@,
        BinaryOp::NotEqual => "!="@,
        BinaryOp::LessThan => "<"@,
        BinaryOp::LessThanOrEqual => "<="@,
        BinaryOp::GreaterThan => ">"@,
        BinaryOp::GreaterThanOrEqual => ">="@,
        BinaryOp::And => "AND"@,
        BinaryOp::Or => "OR"@,
        BinaryOp::Plus => "+"@,
        BinaryOp::Minus => "-"@,
        BinaryOp::Multiply => "*"@,
        BinaryOp::Divide => "/"@,
    }
}

/// The SQL of an expression: identifiers quoted, binary operations fully
/// parenthesized, function names upper-cased.
pub open spec fn expr_sql<D: SqlDialect + ?Sized>(d: &D, e: SpecExpr) -> Seq<char>
    decreases e, 1nat,
{
    match e {
        SpecExpr::Identifier(name) => d.quoted_identifier(name),
        SpecExpr::Literal(l) => literal_sql(d, l),
        SpecExpr::Binary { left, operator, right } => "("@ + expr_sql(d, *left) + " "@
            + operator_sql(operator) + " "@ + expr_sql(d, *right) + ")"@,
        SpecExpr::Function { name, args } => upper_text(name) + "("@ + join(exprs_sql(d, args), ", "@)
            + ")"@,
    }
}

/// The SQL of each expression of a list.
pub open spec fn exprs_sql<D: SqlDialect + ?Sized>(d: &D, args: Seq<SpecExpr>) -> Seq<Seq<char>>
    decreases args, 0nat,
{
    if args.len() == 0 {
        Seq::empty()
    } else {
        proof {
            assert(decreases_to!(args => args.drop_last()));
        }
        exprs_sql(d, args.drop_last()).push(expr_sql(d, args.last()))
    }
}

/// `expr AS alias`.
pub open spec fn aliased(expr: Seq<char>, quoted_alias: Seq<char>) -> Seq<char> {
    expr + " AS "@ + quoted_alias
}

/// The SQL of a column of `select`.
pub open spec fn column_sql<D: SqlDialect + ?Sized>(d: &D, c: SpecColumnExpr) -> Seq<char> {
    match c.alias {
        Some(a) => aliased(expr_sql(d, c.expr), d.quoted_identifier(a)),
        None => expr_sql(d, c.expr),
    }
}

/// The SQL of an assignment of `mutate`.
pub open spec fn assignment_sql<D: SqlDialect + ?Sized>(d: &D, a: SpecAssignment) -> Seq<char> {
    aliased(expr_sql(d, a.expr), d.quoted_identifier(a.column))
}

/// The SQL of a sort key of `arrange`.
pub open spec fn order_sql<D: SqlDialect + ?Sized>(d: &D, o: OrderExprOf<Seq<char>>) -> Seq<char> {
    d.quoted_identifier(o.column) + " "@ + match o.direction {
        OrderDirection::Asc => "ASC"@,
        OrderDirection::Desc => "DESC"@,
    }
}

/// The SQL of an aggregation of `summarise`: `FUNC(column)`, or the bare
/// function name for `n()` (whose name already holds `(*)`), with its alias.
pub open spec fn aggregation_sql<D: SqlDialect + ?Sized>(d: &D, a: AggregationOf<Seq<char>>) -> Seq<char> {
    let func = d.aggregate_name(a.function);
    let column_ref = if lower_text(a.function) == "n"@ {
        Seq::<char>::empty()
    } else {
        d.quoted_identifier(a.column)
    };
    let expr = if column_ref.len() == 0 {
        func
    } else {
        func + "("@ + column_ref + ")"@
    };
    match a.alias {
        Some(alias) => aliased(expr, d.quoted_identifier(alias)),
        None => expr,
    }
}

/// The SQL of each column of a `select`.
pub open spec fn columns_sql<D: SqlDialect + ?Sized>(d: &D, columns: Seq<SpecColumnExpr>) -> Seq<Seq<char>> {
    columns.map_values(|c: SpecColumnExpr| column_sql(d, c))
}

/// The SQL of each assignment of a `mutate`.
pub open spec fn assignments_sql<D: SqlDialect + ?Sized>(d: &D, assignments: Seq<SpecAssignment>) -> Seq<Seq<char>> {
    assignments.map_values(|a: SpecAssignment| assignment_sql(d, a))
}

/// The SQL of each sort key of an `arrange`.
pub open spec fn orders_sql<D: SqlDialect + ?Sized>(d: &D, columns: Seq<OrderExprOf<Seq<char>>>) -> Seq<Seq<char>> {
    columns.map_values(|o: OrderExprOf<Seq<char>>| order_sql(d, o))
}

/// The quoted grouping columns of a `group_by`.
pub open spec fn identifiers_sql<D: SqlDialect + ?Sized>(d: &D, columns: Seq<Seq<char>>) -> Seq<Seq<char>> {
    columns.map_values(|c: Seq<char>| d.quoted_identifier(c))
}

/// The SQL of each aggregation of a `summarise`.
pub open spec fn aggregations_sql<D: SqlDialect + ?Sized>(d: &D, aggregations: Seq<AggregationOf<Seq<char>>>) -> Seq<Seq<char>> {
    aggregations.map_values(|a: AggregationOf<Seq<char>>| aggregation_sql(d, a))
}

/// The clauses of a query under construction.
#[verifier::ext_equal]
pub struct SpecQueryParts {
    pub select_columns: Seq<Seq<char>>,
    pub where_clauses: Seq<Seq<char>>,
    pub group_by: Seq<char>,
    pub order_by: Seq<char>,
}

/// The clauses of a query before any operation.
pub open spec fn empty_parts() -> SpecQueryParts {
    SpecQueryParts {
        select_columns: Seq::empty(),
        where_clauses: Seq::empty(),
        group_by: Seq::empty(),
        order_by: Seq::empty(),
    }
}

/// The clauses after one more operation: `select` and `summarise` replace
/// the selected columns, `mutate` appends to them, each `filter` adds a
/// condition (the second and later ones as `AND (...)`), `arrange` and
/// `group_by` replace their clause.
pub open spec fn apply_operation<D: SqlDialect + ?Sized>(d: &D, p: SpecQueryParts, op: SpecOperation) -> SpecQueryParts {
    match op {
        SpecOperation::Select { columns, .. } => SpecQueryParts {
            select_columns: columns_sql(d, columns),
            ..p
        },
        SpecOperation::Filter { condition, .. } => {
            let w = expr_sql(d, condition);
            SpecQueryParts {
                where_clauses: p.where_clauses.push(
                    if p.where_clauses.len() == 0 { w } else { "AND ("@ + w + ")"@ },
                ),
                ..p
            }
        },
        SpecOperation::Mutate { assignments, .. } => SpecQueryParts {
            select_columns: p.select_columns + assignments_sql(d, assignments),
            ..p
        },
        SpecOperation::Arrange { columns, .. } => SpecQueryParts {
            order_by: join(orders_sql(d, columns), ", "@),
            ..p
        },
        SpecOperation::GroupBy { columns, .. } => SpecQueryParts {
            group_by: join(identifiers_sql(d, columns), ", "@),
            ..p
        },
        SpecOperation::Summarise { aggregations, .. } => SpecQueryParts {
            select_columns: aggregations_sql(d, aggregations),
            ..p
        },
    }
}

/// The clauses after the operations `ops`, applied in order to `p`.
pub open spec fn apply_operations<D: SqlDialect + ?Sized>(d: &D, p: SpecQueryParts, ops: Seq<SpecOperation>) -> SpecQueryParts
    decreases ops.len(),
{
    if ops.len() == 0 {
        p
    } else {
        apply_operation(d, apply_operations(d, p, ops.drop_last()), ops.last())
    }
}

/// The query the clauses make: `SELECT` (all columns when none are chosen)
/// `FROM "data"`, then the `WHERE`, `GROUP BY` and `ORDER BY` clauses that
/// are not empty, one per line.
pub open spec fn assemble_sql<D: SqlDialect + ?Sized>(d: &D, p: SpecQueryParts) -> Seq<char> {
    let select = "SELECT "@ + if p.select_columns.len() == 0 {
        "*"@
    } else {
        join(p.select_columns, ", "@)
    };
    let from = select + "\nFROM "@ + d.quoted_identifier("data"@);
    let with_where = if p.where_clauses.len() == 0 {
        from
    } else {
        from + "\nWHERE "@ + join(p.where_clauses, " "@)
    };
    let with_group = if p.group_by.len() == 0 {
        with_where
    } else {
        with_where + "\nGROUP BY "@ + p.group_by
    };
    if p.order_by.len() == 0 {
        with_group
    } else {
        with_group + "\nORDER BY "@ + p.order_by
    }
}

/// The query of a list of operations, with no check that there are any.
pub open spec fn pipeline_sql<D: SqlDialect + ?Sized>(d: &D, ops: Seq<SpecOperation>) -> Seq<char> {
    assemble_sql(d, apply_operations(d, empty_parts(), ops))
}

/// The reason given for an empty pipeline.
pub open spec fn empty_pipeline_reason() -> Seq<char> {
    "Empty pipeline: at least one operation is required"@
}

/// What generating SQL for `node` yields.
pub open spec fn generate_spec<D: SqlDialect + ?Sized>(d: &D, node: SpecNode) -> Result<Seq<char>, GenerationErrorOf<Seq<char>>> {
    match node {
        SpecNode::Pipeline { operations, .. } => if operations.len() == 0 {
            Err(GenerationErrorOf::InvalidAst { reason: empty_pipeline_reason() })
        } else {
            Ok(pipeline_sql(d, operations))
        },
        SpecNode::DataSource { name, .. } => Ok("SELECT * FROM "@ + d.quoted_identifier(name)),
    }
}

/// The view of a generation result.
pub open spec fn generation_view(r: Result<String, GenerationError>) -> Result<Seq<char>, GenerationErrorOf<Seq<char>>> {
    match r {
        Ok(s) => Ok(s@),
        Err(e) => Err(e@),
    }
}

/// The dplyr names of window functions, which would call for a subquery.
pub open spec fn is_window_function(lower: Seq<char>) -> bool {
    ||| lower == "row_number"@
    ||| lower == "rank"@
    ||| lower == "dense_rank"@
    ||| lower == "lag"@
    ||| lower == "lead"@
    ||| lower == "first_value"@
    ||| lower == "last_value"@
    ||| lower == "nth_value"@
}

/// Whether `e` names one of `columns` as an identifier.
pub open spec fn references_columns(e: SpecExpr, columns: Set<Seq<char>>) -> bool
    decreases e, 1nat,
{
    match e {
        SpecExpr::Identifier(name) => columns.contains(name),
        SpecExpr::Binary { left, right, .. } => references_columns(*left, columns)
            || references_columns(*right, columns),
        SpecExpr::Function { args, .. } => any_references_columns(args, columns),
        SpecExpr::Literal(_) => false,
    }
}

/// Whether one of the expressions `args` names one of `columns`.
pub open spec fn any_references_columns(args: Seq<SpecExpr>, columns: Set<Seq<char>>) -> bool
    decreases args, 0nat,
{
    if args.len() == 0 {
        false
    } else {
        proof {
            assert(decreases_to!(args => args.drop_last()));
        }
        any_references_columns(args.drop_last(), columns) || references_columns(args.last(), columns)
    }
}

/// Whether `e` calls a window function outside of function arguments.
pub open spec fn is_complex(e: SpecExpr) -> bool
    decreases e,
{
    match e {
        SpecExpr::Function { name, .. } => is_window_function(lower_text(name)),
        SpecExpr::Binary { left, right, .. } => is_complex(*left) || is_complex(*right),
        _ => false,
    }
}

/// The columns a list of assignments defines, in order.
pub open spec fn assignment_columns(assignments: Seq<SpecAssignment>) -> Seq<Seq<char>> {
    assignments.map_values(|a: SpecAssignment| a.column)
}

/// The columns the first `k` assignments define.
pub open spec fn defined_columns(assignments: Seq<SpecAssignment>, k: int) -> Set<Seq<char>> {
    assignment_columns(assignments.take(k)).to_set()
}

/// Whether a `mutate` would need a subquery: a grouping is in place, an
/// assignment reads a column an earlier one of the same `mutate` defines, or
/// an assignment calls a window function.
pub open spec fn mutate_needs_subquery_spec(assignments: Seq<SpecAssignment>, group_by: Seq<char>) -> bool {
    ||| group_by.len() != 0
    ||| exists|k: int|
        0 <= k < assignments.len() && #[trigger] references_columns(
            assignments[k].expr,
            defined_columns(assignments, k),
        )
    ||| exists|k: int| 0 <= k < assignments.len() && #[trigger] is_complex(assignments[k].expr)
}

/// The query that wraps `base` as a subquery and adds the assignments as
/// computed columns.
pub open spec fn mutate_subquery_sql<D: SqlDialect + ?Sized>(d: &D, base: Seq<char>, assignments: Seq<SpecAssignment>) -> Seq<char> {
    "SELECT "@ + join(seq!["*"@] + assignments_sql(d, assignments), ", "@)
        + "\nFROM (\n"@ + base + "\n) AS subquery"@
}

/// Extending a prefix of the arguments by one argument.
proof fn lemma_any_references_prefix(args: Seq<SpecExpr>, i: int, columns: Set<Seq<char>>)
    requires
        0 <= i < args.len(),
    ensures
        any_references_columns(args.take(i + 1), columns) == (any_references_columns(args.take(i), columns)
            || references_columns(args[i], columns)),
        !any_references_columns(args.take(i), columns) && references_columns(args[i], columns)
            ==> any_references_columns(args.take(i + 1), columns),
        i + 1 == args.len() ==> args.take(i + 1) == args,
{
    assert(args.take(i + 1).drop_last() =~= args.take(i));
    if i + 1 == args.len() {
        assert(args.take(i + 1) =~= args);
    }
}

/// An argument prefix that names a column makes the whole list name it.
proof fn lemma_any_references_monotone(args: Seq<SpecExpr>, k: int, columns: Set<Seq<char>>)
    requires
        0 <= k <= args.len(),
        any_references_columns(args.take(k), columns),
    ensures
        any_references_columns(args, columns),
    decreases args.len(),
{
    if k == args.len() {
        assert(args.take(k) =~= args);
    } else {
        assert(args.drop_last().take(k) =~= args.take(k));
        lemma_any_references_monotone(args.drop_last(), k, columns);
    }
}

// ===== The generator =====

/// The clauses of a query under construction.
pub struct QueryParts {
    select_columns: Vec<String>,
    where_clauses: Vec<String>,
    group_by: String,
    order_by: String,
}

impl View for QueryParts {
    type V = SpecQueryParts;

    closed spec fn view(&self) -> SpecQueryParts {
        SpecQueryParts {
            select_columns: strings_view(self.select_columns@),
            where_clauses: strings_view(self.where_clauses@),
            group_by: self.group_by@,
            order_by: self.order_by@,
        }
    }
}

impl QueryParts {
    /// Clauses before any operation.
    pub fn new() -> (p: QueryParts)
        ensures
            p@ == empty_parts(),
    {
        let p = QueryParts {
            select_columns: Vec::new(),
            where_clauses: Vec::new(),
            group_by: String::new(),
            order_by: String::new(),
        };
        assert(p@ =~= empty_parts());
        p
    }
}

/// Appends `s` to a list of strings, and its view to the list's view.
fn push_string(v: &mut Vec<String>, s: String)
    ensures
        strings_view(final(v)@) == strings_view(old(v)@).push(s@),
{
    let ghost before = strings_view(v@);
    let ghost sv = s@;
    v.push(s);
    assert(strings_view(v@) =~= before.push(sv));
}

/// SQL generator: converts an AST to a query of its dialect.
pub struct SqlGenerator<D: SqlDialect + ?Sized = dyn SqlDialect> {
    dialect: Box<D>,
}

impl<D: SqlDialect + ?Sized> SqlGenerator<D> {
    /// The dialect queries are generated for.
    pub closed spec fn dialect_spec(&self) -> &D {
        &*self.dialect
    }

    /// Creates a generator for `dialect`.
    pub fn new(dialect: Box<D>) -> (g: Self)
        ensures
            g.dialect_spec() == &*dialect,
    {
        SqlGenerator { dialect }
    }

    /// Converts an AST to a SQL query.
    pub fn generate(&self, ast: &DplyrNode) -> (r: Result<String, GenerationError>)
        ensures
            generation_view(r) == generate_spec(self.dialect_spec(), ast@),
    {
        match ast {
            DplyrNode::Pipeline { operations, .. } => self.generate_pipeline(operations.as_slice()),
            DplyrNode::DataSource { name, .. } => {
                let mut s = string_of_str("SELECT * FROM ");
                let q = self.dialect.quote_identifier(name.as_str());
                s.append(q.as_str());
                Ok(s)
            },
        }
    }

    /// Converts a pipeline to SQL; an empty one is an invalid AST.
    fn generate_pipeline(&self, operations: &[DplyrOperation]) -> (r: Result<String, GenerationError>)
        ensures
            generation_view(r) == (if operations@.len() == 0 {
                Err(GenerationErrorOf::InvalidAst { reason: empty_pipeline_reason() })
            } else {
                Ok::<Seq<char>, GenerationErrorOf<Seq<char>>>(pipeline_sql(self.dialect_spec(), operations_view(operations@)))
            }),
    {
        if operations.len() == 0 {
            return Err(GenerationErrorOf::InvalidAst {
                reason: string_of_str("Empty pipeline: at least one operation is required"),
            });
        }
        self.generate_nested_pipeline(operations)
    }

    /// Converts the operations of a nested pipeline to SQL, applying them in
    /// order.
    pub fn generate_nested_pipeline(&self, operations: &[DplyrOperation]) -> (r: Result<String, GenerationError>)
        ensures
            (r matches Ok(s) && s@ == pipeline_sql(self.dialect_spec(), operations_view(operations@))),
    {
        let ghost d = self.dialect_spec();
        let ghost ops = operations_view(operations@);
        let mut parts = QueryParts::new();
        let mut k: usize = 0;
        assert(ops.take(0) =~= Seq::<SpecOperation>::empty());
        while k < operations.len()
            invariant
                k <= operations.len(),
                d == self.dialect_spec(),
                ops == operations_view(operations@),
                parts@ == apply_operations(d, empty_parts(), ops.take(k as int)),
            decreases operations.len() - k,
        {
            match self.process_operation(&operations[k], &mut parts) {
                Ok(()) => {},
                Err(e) => {
                    return Err(e);
                },
            }
            assert(ops.take(k as int + 1).drop_last() =~= ops.take(k as int));
            k = k + 1;
        }
        assert(ops.take(operations.len() as int) =~= ops);
        self.assemble_query(&parts)
    }

    /// Applies one operation to the clauses.
    fn process_operation(&self, operation: &DplyrOperation, query_parts: &mut QueryParts) -> (r: Result<(), GenerationError>)
        ensures
            r is Ok,
            final(query_parts)@ == apply_operation(self.dialect_spec(), old(query_parts)@, operation@),
    {
        let ghost d = self.dialect_spec();
        match operation {
            DplyrOperation::Select { columns, .. } => {
                match self.generate_select_columns(columns.as_slice()) {
                    Ok(cols) => {
                        query_parts.select_columns = cols;
                    },
                    Err(e) => {
                        return Err(e);
                    },
                }
            },
            DplyrOperation::Filter { condition, .. } => {
                let where_clause = match self.generate_expression(condition) {
                    Ok(w) => w,
                    Err(e) => {
                        return Err(e);
                    },
                };
                if query_parts.where_clauses.len() == 0 {
                    push_string(&mut query_parts.where_clauses, where_clause);
                } else {
                    let mut c = string_of_str("AND (");
                    c.append(where_clause.as_str());
                    c.append(")");
                    push_string(&mut query_parts.where_clauses, c);
                }
            },
            DplyrOperation::Mutate { assignments, .. } => {
                match self.process_mutate_operation(assignments.as_slice(), query_parts) {
                    Ok(()) => {},
                    Err(e) => {
                        return Err(e);
                    },
                }
            },
            DplyrOperation::Arrange { columns, .. } => {
                match self.generate_order_by(columns.as_slice()) {
                    Ok(o) => {
                        query_parts.order_by = o;
                    },
                    Err(e) => {
                        return Err(e);
                    },
                }
            },
            DplyrOperation::GroupBy { columns, .. } => {
                let mut quoted: Vec<String> = Vec::new();
                let mut k: usize = 0;
                assert(identifiers_sql(d, strings_view(columns@).take(0)) =~= Seq::<Seq<char>>::empty());
                while k < columns.len()
                    invariant
                        k <= columns.len(),
                        d == self.dialect_spec(),
                        strings_view(quoted@) == identifiers_sql(d, strings_view(columns@).take(k as int)),
                    decreases columns.len() - k,
                {
                    let q = self.dialect.quote_identifier(columns[k].as_str());
                    push_string(&mut quoted, q);
                    assert(identifiers_sql(d, strings_view(columns@).take(k as int + 1)) =~= identifiers_sql(
                        d,
                        strings_view(columns@).take(k as int),
                    ).push(d.quoted_identifier(columns@[k as int]@)));
                    k = k + 1;
                }
                assert(strings_view(columns@).take(columns.len() as int) =~= strings_view(columns@));
                query_parts.group_by = join_strings(quoted.as_slice(), ", ");
            },
            DplyrOperation::Summarise { aggregations, .. } => {
                match self.generate_aggregations(aggregations.as_slice()) {
                    Ok(a) => {
                        query_parts.select_columns = a;
                    },
                    Err(e) => {
                        return Err(e);
                    },
                }
            },
        }
        assert(query_parts@ =~= apply_operation(d, old(query_parts)@, operation@));
        Ok(())
    }

    /// The SQL of each column of a `select`.
    pub fn generate_select_columns(&self, columns: &[ColumnExpr]) -> (r: Result<Vec<String>, GenerationError>)
        ensures
            (r matches Ok(v) && strings_view(v@) == columns_sql(self.dialect_spec(), columns_view(columns@))),
    {
        let ghost d = self.dialect_spec();
        let ghost cs = columns_view(columns@);
        let mut out: Vec<String> = Vec::new();
        let mut k: usize = 0;
        assert(columns_sql(d, cs.take(0)) =~= Seq::<Seq<char>>::empty());
        while k < columns.len()
            invariant
                k <= columns.len(),
                d == self.dialect_spec(),
                cs == columns_view(columns@),
                strings_view(out@) == columns_sql(d, cs.take(k as int)),
            decreases columns.len() - k,
        {
            let col = &columns[k];
            let expr_sql_s = match self.generate_expression(&col.expr) {
                Ok(s) => s,
                Err(e) => {
                    return Err(e);
                },
            };
            let item = match &col.alias {
                Some(alias) => {
                    let mut s = expr_sql_s;
                    s.append(" AS ");
                    let q = self.dialect.quote_identifier(alias.as_str());
                    s.append(q.as_str());
                    s
                },
                None => expr_sql_s,
            };
            push_string(&mut out, item);
            assert(columns_sql(d, cs.take(k as int + 1)) =~= columns_sql(d, cs.take(k as int)).push(
                column_sql(d, cs[k as int]),
            ));
            k = k + 1;
        }
        assert(cs.take(columns.len() as int) =~= cs);
        Ok(out)
    }

    /// The ORDER BY list of an `arrange`.
    pub fn generate_order_by(&self, columns: &[OrderExpr]) -> (r: Result<String, GenerationError>)
        ensures
            (r matches Ok(s) && s@ == join(orders_sql(self.dialect_spec(), orders_view(columns@)), ", "@)),
    {
        let ghost d = self.dialect_spec();
        let ghost os = orders_view(columns@);
        let mut items: Vec<String> = Vec::new();
        let mut k: usize = 0;
        assert(orders_sql(d, os.take(0)) =~= Seq::<Seq<char>>::empty());
        while k < columns.len()
            invariant
                k <= columns.len(),
                d == self.dialect_spec(),
                os == orders_view(columns@),
                strings_view(items@) == orders_sql(d, os.take(k as int)),
            decreases columns.len() - k,
        {
            let col = &columns[k];
            let mut s = self.dialect.quote_identifier(col.column.as_str());
            s.append(" ");
            match col.direction {
                OrderDirection::Asc => s.append("ASC"),
                OrderDirection::Desc => s.append("DESC"),
            }
            push_string(&mut items, s);
            assert(orders_sql(d, os.take(k as int + 1)) =~= orders_sql(d, os.take(k as int)).push(
                order_sql(d, os[k as int]),
            ));
            k = k + 1;
        }
        assert(os.take(columns.len() as int) =~= os);
        Ok(join_strings(items.as_slice(), ", "))
    }

    /// The SQL of each aggregation of a `summarise`.
    pub fn generate_aggregations(&self, aggregations: &[Aggregation]) -> (r: Result<Vec<String>, GenerationError>)
        ensures
            (r matches Ok(v) && strings_view(v@) == aggregations_sql(self.dialect_spec(), aggregations_view(aggregations@))),
    {
        let ghost d = self.dialect_spec();
        let ghost ags = aggregations_view(aggregations@);
        let mut out: Vec<String> = Vec::new();
        let mut k: usize = 0;
        assert(aggregations_sql(d, ags.take(0)) =~= Seq::<Seq<char>>::empty());
        while k < aggregations.len()
            invariant
                k <= aggregations.len(),
                d == self.dialect_spec(),
                ags == aggregations_view(aggregations@),
                strings_view(out@) == aggregations_sql(d, ags.take(k as int)),
            decreases aggregations.len() - k,
        {
            let agg = &aggregations[k];
            let func_name = self.dialect.aggregate_function(agg.function.as_str());
            let lower = to_lowercase(agg.function.as_str());
            let column_ref = if str_eq(lower.as_str(), "n") {
                String::new()
            } else {
                self.dialect.quote_identifier(agg.column.as_str())
            };
            let expr = if column_ref.as_str().is_empty() {
                func_name
            } else {
                let mut s = func_name;
                s.append("(");
                s.append(column_ref.as_str());
                s.append(")");
                s
            };
            let item = match &agg.alias {
                Some(alias) => {
                    let mut s = expr;
                    s.append(" AS ");
                    let q = self.dialect.quote_identifier(alias.as_str());
                    s.append(q.as_str());
                    s
                },
                None => expr,
            };
            push_string(&mut out, item);
            assert(aggregations_sql(d, ags.take(k as int + 1)) =~= aggregations_sql(d, ags.take(k as int)).push(
                aggregation_sql(d, ags[k as int]),
            ));
            k = k + 1;
        }
        assert(ags.take(aggregations.len() as int) =~= ags);
        Ok(out)
    }

    /// Converts an expression to SQL.
    #[verifier::loop_isolation(false)]
    pub fn generate_expression(&self, expr: &Expr) -> (r: Result<String, GenerationError>)
        ensures
            (r matches Ok(s) && s@ == expr_sql(self.dialect_spec(), expr@)),
        decreases expr,
    {
        let ghost d = self.dialect_spec();
        match expr {
            Expr::Identifier(name) => Ok(self.dialect.quote_identifier(name.as_str())),
            Expr::Literal(literal) => self.generate_literal(literal),
            Expr::Binary { left, operator, right } => {
                let left_sql = match self.generate_expression(left) {
                    Ok(s) => s,
                    Err(e) => {
                        return Err(e);
                    },
                };
                let right_sql = match self.generate_expression(right) {
                    Ok(s) => s,
                    Err(e) => {
                        return Err(e);
                    },
                };
                let op_sql = self.generate_binary_operator(operator);
                let mut s = string_of_str("(");
                s.append(left_sql.as_str());
                s.append(" ");
                s.append(op_sql);
                s.append(" ");
                s.append(right_sql.as_str());
                s.append(")");
                Ok(s)
            },
            Expr::Function { name, args } => {
                let ghost sargs = exprs_view(args@);
                let mut parts: Vec<String> = Vec::new();
                let mut k: usize = 0;
                assert(sargs.take(0) =~= Seq::<SpecExpr>::empty());
                while k < args.len()
                    invariant
                        k <= args.len(),
                        sargs == exprs_view(args@),
                        strings_view(parts@) == exprs_sql(d, sargs.take(k as int)),
                    decreases args.len() - k,
                {
                    proof {
                        assert(decreases_to!(*expr => *args));
                        assert(decreases_to!(*args => args@));
                        assert(decreases_to!(args@ => args@[k as int]));
                    }
                    let a = match self.generate_expression(&args[k]) {
                        Ok(s) => s,
                        Err(e) => {
                            return Err(e);
                        },
                    };
                    push_string(&mut parts, a);
                    assert(sargs.take(k as int + 1).drop_last() =~= sargs.take(k as int));
                    k = k + 1;
                }
                assert(sargs.take(args.len() as int) =~= sargs);
                let args_str = join_strings(parts.as_slice(), ", ");
                let mut s = to_uppercase(name.as_str());
                s.append("(");
                s.append(args_str.as_str());
                s.append(")");
                proof {
                    crate::parser::lemma_function_view(*name, *args);
                }
                Ok(s)
            },
        }
    }

    /// Converts a literal to SQL.
    pub fn generate_literal(&self, literal: &LiteralValue) -> (r: Result<String, GenerationError>)
        ensures
            (r matches Ok(s) && s@ == literal_sql(self.dialect_spec(), literal@)),
    {
        match literal {
            LiteralValueOf::String(s) => Ok(self.dialect.quote_string(s.as_str())),
            LiteralValueOf::Number(n) => Ok(n.clone()),
            LiteralValueOf::Boolean(b) => Ok(if *b { string_of_str("TRUE") } else { string_of_str("FALSE") }),
            LiteralValueOf::Null => Ok(string_of_str("NULL")),
        }
    }

    /// The SQL of a binary operator.
    pub fn generate_binary_operator(&self, operator: &BinaryOp) -> (r: &'static str)
        ensures
            r@ == operator_sql(*operator),
    {
        match operator {
            BinaryOp::Equal => "=",
            BinaryOp::NotEqual => "!=",
            BinaryOp::LessThan => "<",
            BinaryOp::LessThanOrEqual => "<=",
            BinaryOp::GreaterThan => ">",
            BinaryOp::GreaterThanOrEqual => ">=",
            BinaryOp::And => "AND",
            BinaryOp::Or => "OR",
            BinaryOp::Plus => "+",
            BinaryOp::Minus => "-",
            BinaryOp::Multiply => "*",
            BinaryOp::Divide => "/",
        }
    }

    /// Applies a `mutate`: its assignments become computed columns.  Whether
    /// a subquery would be needed is decided, and both ways add the columns
    /// to the SELECT list.
    fn process_mutate_operation(&self, assignments: &[Assignment], query_parts: &mut QueryParts) -> (r: Result<(), GenerationError>)
        ensures
            r is Ok,
            final(query_parts)@ == (SpecQueryParts {
                select_columns: old(query_parts)@.select_columns + assignments_sql(self.dialect_spec(), assignments_view(assignments@)),
                ..old(query_parts)@
            }),
    {
        let needs_subquery = self.mutate_needs_subquery(assignments, query_parts);
        if needs_subquery {
            self.process_simple_mutate(assignments, query_parts)
        } else {
            self.process_simple_mutate(assignments, query_parts)
        }
    }

    /// Whether a `mutate` would need a subquery.
    pub fn mutate_needs_subquery(&self, assignments: &[Assignment], query_parts: &QueryParts) -> (b: bool)
        ensures
            b == mutate_needs_subquery_spec(assignments_view(assignments@), query_parts@.group_by),
    {
        let ghost sa = assignments_view(assignments@);
        if !query_parts.group_by.as_str().is_empty() {
            return true;
        }
        let mut defined: Vec<String> = Vec::new();
        let mut k: usize = 0;
        assert(assignment_columns(sa.take(0)) =~= Seq::<Seq<char>>::empty());
        while k < assignments.len()
            invariant
                k <= assignments.len(),
                sa == assignments_view(assignments@),
                strings_view(defined@) == assignment_columns(sa.take(k as int)),
                forall|j: int| 0 <= j < k ==> !#[trigger] references_columns(sa[j].expr, defined_columns(sa, j)),
            decreases assignments.len() - k,
        {
            let refs = self.expression_references_columns(&assignments[k].expr, &defined);
            if refs {
                assert(references_columns(sa[k as int].expr, defined_columns(sa, k as int)));
                return true;
            }
            push_string(&mut defined, assignments[k].column.clone());
            assert(assignment_columns(sa.take(k as int + 1)) =~= assignment_columns(sa.take(k as int)).push(
                sa[k as int].column,
            ));
            k = k + 1;
        }
        let mut m: usize = 0;
        while m < assignments.len()
            invariant
                m <= assignments.len(),
                sa == assignments_view(assignments@),
                forall|j: int| 0 <= j < m ==> !#[trigger] is_complex(sa[j].expr),
            decreases assignments.len() - m,
        {
            if self.expression_is_complex(&assignments[m].expr) {
                assert(is_complex(sa[m as int].expr));
                return true;
            }
            m = m + 1;
        }
        false
    }

    /// Adds the assignments of a `mutate` to the SELECT list as `expr AS column`.
    fn process_simple_mutate(&self, assignments: &[Assignment], query_parts: &mut QueryParts) -> (r: Result<(), GenerationError>)
        ensures
            r is Ok,
            final(query_parts)@ == (SpecQueryParts {
                select_columns: old(query_parts)@.select_columns + assignments_sql(self.dialect_spec(), assignments_view(assignments@)),
                ..old(query_parts)@
            }),
    {
        let ghost d = self.dialect_spec();
        let ghost sa = assignments_view(assignments@);
        let ghost start = query_parts@;
        let mut k: usize = 0;
        assert(start.select_columns + assignments_sql(d, sa.take(0)) =~= start.select_columns);
        while k < assignments.len()
            invariant
                k <= assignments.len(),
                d == self.dialect_spec(),
                sa == assignments_view(assignments@),
                query_parts@ == (SpecQueryParts {
                    select_columns: start.select_columns + assignments_sql(d, sa.take(k as int)),
                    ..start
                }),
            decreases assignments.len() - k,
        {
            let a = &assignments[k];
            let mut s = match self.generate_expression(&a.expr) {
                Ok(s) => s,
                Err(e) => {
                    return Err(e);
                },
            };
            s.append(" AS ");
            let q = self.dialect.quote_identifier(a.column.as_str());
            s.append(q.as_str());
            push_string(&mut query_parts.select_columns, s);
            assert(start.select_columns + assignments_sql(d, sa.take(k as int + 1)) =~= (start.select_columns
                + assignments_sql(d, sa.take(k as int))).push(assignment_sql(d, sa[k as int])));
            k = k + 1;
        }
        assert(sa.take(assignments.len() as int) =~= sa);
        Ok(())
    }

    /// Whether `expr` names one of `columns` as an identifier.
    #[verifier::loop_isolation(false)]
    pub fn expression_references_columns(&self, expr: &Expr, columns: &Vec<String>) -> (b: bool)
        ensures
            b == references_columns(expr@, strings_view(columns@).to_set()),
        decreases expr,
    {
        match expr {
            Expr::Identifier(name) => {
                let mut i: usize = 0;
                assert(strings_view(columns@).len() == columns@.len());
                while i < columns.len()
                    invariant
                        i <= columns.len(),
                        strings_view(columns@).len() == columns@.len(),
                        forall|j: int| 0 <= j < i ==> strings_view(columns@)[j] != name@,
                    decreases columns.len() - i,
                {
                    if columns[i] == *name {
                        assert(strings_view(columns@)[i as int] == name@);
                        return true;
                    }
                    i = i + 1;
                }
                assert(!strings_view(columns@).contains(name@));
                assert(!strings_view(columns@).to_set().contains(name@));
                assert(expr@ == SpecExpr::Identifier(name@));
                false
            },
            Expr::Binary { left, right, .. } => {
                self.expression_references_columns(left, columns) || self.expression_references_columns(right, columns)
            },
            Expr::Function { name, args } => {
                proof {
                    crate::parser::lemma_function_view(*name, *args);
                }
                let ghost sargs = exprs_view(args@);
                let mut i: usize = 0;
                while i < args.len()
                    invariant
                        i <= args.len(),
                        sargs == exprs_view(args@),
                        !any_references_columns(sargs.take(i as int), strings_view(columns@).to_set()),
                    decreases args.len() - i,
                {
                    proof {
                        assert(decreases_to!(*expr => *args));
                        assert(decreases_to!(*args => args@));
                        assert(decreases_to!(args@ => args@[i as int]));
                    }
                    let found = self.expression_references_columns(&args[i], columns);
                    proof {
                        lemma_any_references_prefix(sargs, i as int, strings_view(columns@).to_set());
                    }
                    if found {
                        proof {
                            lemma_any_references_monotone(sargs, i as int + 1, strings_view(columns@).to_set());
                        }
                        return true;
                    }
                    i = i + 1;
                }
                assert(sargs.take(args.len() as int) =~= sargs);
                false
            },
            Expr::Literal(_) => false,
        }
    }

    /// Whether `expr` calls a window function outside of function arguments.
    pub fn expression_is_complex(&self, expr: &Expr) -> (b: bool)
        ensures
            b == is_complex(expr@),
        decreases expr,
    {
        match expr {
            Expr::Function { name, .. } => {
                let lower = to_lowercase(name.as_str());
                let l = lower.as_str();
                str_eq(l, "row_number") || str_eq(l, "rank") || str_eq(l, "dense_rank") || str_eq(l, "lag")
                    || str_eq(l, "lead") || str_eq(l, "first_value") || str_eq(l, "last_value")
                    || str_eq(l, "nth_value")
            },
            Expr::Binary { left, right, .. } => {
                self.expression_is_complex(left) || self.expression_is_complex(right)
            },
            _ => false,
        }
    }

    /// Wraps `base_query` in a subquery and adds the assignments as
    /// computed columns.
    pub fn generate_mutate_subquery(&self, base_query: &str, assignments: &[Assignment]) -> (r: Result<String, GenerationError>)
        ensures
            (r matches Ok(s) && s@ == mutate_subquery_sql(self.dialect_spec(), base_query@, assignments_view(assignments@))),
    {
        let ghost d = self.dialect_spec();
        let ghost sa = assignments_view(assignments@);
        let mut outer: Vec<String> = Vec::new();
        push_string(&mut outer, string_of_str("*"));
        let mut k: usize = 0;
        assert(seq!["*"@] + assignments_sql(d, sa.take(0)) =~= seq!["*"@]);
        while k < assignments.len()
            invariant
                k <= assignments.len(),
                d == self.dialect_spec(),
                sa == assignments_view(assignments@),
                strings_view(outer@) == seq!["*"@] + assignments_sql(d, sa.take(k as int)),
            decreases assignments.len() - k,
        {
            let a = &assignments[k];
            let mut s = match self.generate_expression(&a.expr) {
                Ok(s) => s,
                Err(e) => {
                    return Err(e);
                },
            };
            s.append(" AS ");
            let q = self.dialect.quote_identifier(a.column.as_str());
            s.append(q.as_str());
            push_string(&mut outer, s);
            assert(seq!["*"@] + assignments_sql(d, sa.take(k as int + 1)) =~= (seq!["*"@] + assignments_sql(
                d,
                sa.take(k as int),
            )).push(assignment_sql(d, sa[k as int])));
            k = k + 1;
        }
        assert(sa.take(assignments.len() as int) =~= sa);
        let mut query = string_of_str("SELECT ");
        let cols = join_strings(outer.as_slice(), ", ");
        query.append(cols.as_str());
        query.append("\nFROM (\n");
        query.append(base_query);
        query.append("\n) AS subquery");
        Ok(query)
    }

    /// Assembles the final query from its clauses.
    fn assemble_query(&self, parts: &QueryParts) -> (r: Result<String, GenerationError>)
        ensures
            (r matches Ok(s) && s@ == assemble_sql(self.dialect_spec(), parts@)),
    {
        let mut query = string_of_str("SELECT ");
        if parts.select_columns.len() == 0 {
            query.append("*");
        } else {
            let cols = join_strings(parts.select_columns.as_slice(), ", ");
            query.append(cols.as_str());
        }
        query.append("\nFROM ");
        let table = self.dialect.quote_identifier("data");
        query.append(table.as_str());
        if parts.where_clauses.len() != 0 {
            query.append("\nWHERE ");
            let w = join_strings(parts.where_clauses.as_slice(), " ");
            query.append(w.as_str());
        }
        if !parts.group_by.as_str().is_empty() {
            query.append("\nGROUP BY ");
            query.append(parts.group_by.as_str());
        }
        if !parts.order_by.as_str().is_empty() {
            query.append("\nORDER BY ");
            query.append(parts.order_by.as_str());
        }
        Ok(query)
    }
}

// ===== Laws of generation =====

/// The conditions of the `filter` operations among `ops`, in order.
pub open spec fn filter_conditions(ops: Seq<SpecOperation>) -> Seq<SpecExpr>
    decreases ops.len(),
{
    if ops.len() == 0 {
        Seq::empty()
    } else {
        let prev = filter_conditions(ops.drop_last());
        match ops.last() {
            SpecOperation::Filter { condition, .. } => prev.push(condition),
            _ => prev,
        }
    }
}

/// The WHERE condition the `i`-th filter of a pipeline contributes: its SQL,
/// as `AND (...)` after the first.
pub open spec fn where_condition<D: SqlDialect + ?Sized>(d: &D, i: int, condition: SpecExpr) -> Seq<char> {
    if i == 0 {
        expr_sql(d, condition)
    } else {
        "AND ("@ + expr_sql(d, condition) + ")"@
    }
}

/// Filters accumulate: after any operations, the WHERE clauses are one per
/// `filter`, in the order of the filters, the first as its condition's SQL
/// and each later one as `AND (...)`; no other operation touches them.
pub proof fn law_filters_conjoin<D: SqlDialect + ?Sized>(d: &D, ops: Seq<SpecOperation>)
    ensures
        apply_operations(d, empty_parts(), ops).where_clauses.len() == filter_conditions(ops).len(),
        forall|i: int|
            0 <= i < filter_conditions(ops).len() ==> #[trigger] apply_operations(d, empty_parts(), ops).where_clauses[i]
                == where_condition(d, i, filter_conditions(ops)[i]),
    decreases ops.len(),
{
    if ops.len() > 0 {
        law_filters_conjoin(d, ops.drop_last());
        let prev = apply_operations(d, empty_parts(), ops.drop_last());
        match ops.last() {
            SpecOperation::Filter { condition, .. } => {
                let fs = filter_conditions(ops.drop_last());
                assert(filter_conditions(ops) == fs.push(condition));
                assert forall|i: int| 0 <= i < filter_conditions(ops).len() implies #[trigger] apply_operations(
                    d,
                    empty_parts(),
                    ops,
                ).where_clauses[i] == where_condition(d, i, filter_conditions(ops)[i]) by {
                    if i < fs.len() {
                        assert(apply_operations(d, empty_parts(), ops).where_clauses[i] == prev.where_clauses[i]);
                    }
                }
            },
            _ => {},
        }
    }
}

/// A value without single quotes is unchanged by their escaping.
pub proof fn lemma_replace_absent(s: Seq<char>, pat: Seq<char>, rep: Seq<char>)
    requires
        pat.len() > 0,
        !crate::text::contains(s, pat),
    ensures
        replace(s, pat, rep) == s,
    decreases s.len(),
{
    if s.len() >= pat.len() {
        if s.take(pat.len() as int) == pat {
            assert(crate::text::occurs_at(s, pat, 0)) by {
                assert(s.subrange(0, pat.len() as int) =~= s.take(pat.len() as int));
            }
            assert(false);
        } else {
            assert(!crate::text::contains(s.drop_first(), pat)) by {
                if crate::text::contains(s.drop_first(), pat) {
                    let i = choose|i: int| crate::text::occurs_at(s.drop_first(), pat, i);
                    assert(s.subrange(i + 1, i + 1 + pat.len()) =~= s.drop_first().subrange(i, i + pat.len()));
                    assert(crate::text::occurs_at(s, pat, i + 1));
                }
            }
            lemma_replace_absent(s.drop_first(), pat, rep);
            assert(seq![s[0]] + s.drop_first() =~= s);
        }
    }
}

/// Every dialect writes a string literal without single quotes as the
/// string between single quotes.
pub proof fn law_plain_string_literal(value: Seq<char>)
    requires
        !crate::text::contains(value, seq!['\'']),
    ensures
        single_quoted(value) == seq!['\''] + value + seq!['\''],
        PostgreSqlDialect.quoted_string(value) == seq!['\''] + value + seq!['\''],
        MySqlDialect.quoted_string(value) == seq!['\''] + value + seq!['\''],
        SqliteDialect.quoted_string(value) == seq!['\''] + value + seq!['\''],
        DuckDbDialect.quoted_string(value) == seq!['\''] + value + seq!['\''],
{
    lemma_replace_absent(value, seq!['\''], seq!['\'', '\'']);
}

/// The SQL of an expression is the same for two dialects that quote
/// identifiers and strings alike.
proof fn lemma_same_expr_sql<A: SqlDialect + ?Sized, B: SqlDialect + ?Sized>(a: &A, b: &B, e: SpecExpr)
    requires
        forall|n: Seq<char>| #[trigger] a.quoted_identifier(n) == b.quoted_identifier(n),
        forall|n: Seq<char>| #[trigger] a.quoted_string(n) == b.quoted_string(n),
    ensures
        expr_sql(a, e) == expr_sql(b, e),
    decreases e, 1nat,
{
    match e {
        SpecExpr::Binary { left, right, .. } => {
            lemma_same_expr_sql(a, b, *left);
            lemma_same_expr_sql(a, b, *right);
        },
        SpecExpr::Function { args, .. } => {
            lemma_same_exprs_sql(a, b, args);
        },
        SpecExpr::Literal(l) => {
            match l {
                LiteralValueOf::String(s) => {
                    assert(a.quoted_string(s) == b.quoted_string(s));
                },
                _ => {},
            }
        },
        SpecExpr::Identifier(n) => {
            assert(a.quoted_identifier(n) == b.quoted_identifier(n));
        },
    }
}

/// The SQL of a list of expressions is the same for two such dialects.
proof fn lemma_same_exprs_sql<A: SqlDialect + ?Sized, B: SqlDialect + ?Sized>(a: &A, b: &B, args: Seq<SpecExpr>)
    requires
        forall|n: Seq<char>| #[trigger] a.quoted_identifier(n) == b.quoted_identifier(n),
        forall|n: Seq<char>| #[trigger] a.quoted_string(n) == b.quoted_string(n),
    ensures
        exprs_sql(a, args) == exprs_sql(b, args),
    decreases args, 0nat,
{
    if args.len() > 0 {
        assert(decreases_to!(args => args.drop_last()));
        lemma_same_exprs_sql(a, b, args.drop_last());
        lemma_same_expr_sql(a, b, args.last());
    }
}

/// Two dialects that agree on identifiers, strings and aggregate names
/// produce the same clauses from the same operations.
proof fn lemma_same_parts<A: SqlDialect + ?Sized, B: SqlDialect + ?Sized>(a: &A, b: &B, ops: Seq<SpecOperation>)
    requires
        forall|n: Seq<char>| #[trigger] a.quoted_identifier(n) == b.quoted_identifier(n),
        forall|n: Seq<char>| #[trigger] a.quoted_string(n) == b.quoted_string(n),
        forall|n: Seq<char>| aggregate_functions(ops).contains(n) ==> #[trigger] a.aggregate_name(n) == b.aggregate_name(n),
    ensures
        apply_operations(a, empty_parts(), ops) == apply_operations(b, empty_parts(), ops),
    decreases ops.len(),
{
    if ops.len() > 0 {
        let front = aggregate_functions(ops.drop_last());
        assert(aggregate_functions(ops) == front + functions_of_operation(ops.last()));
        assert forall|n: Seq<char>| front.contains(n) implies aggregate_functions(ops).contains(n) by {
            let j = choose|j: int| 0 <= j < front.len() && front[j] == n;
            assert((front + functions_of_operation(ops.last()))[j] == n);
        }
        lemma_same_parts(a, b, ops.drop_last());
        let p = apply_operations(a, empty_parts(), ops.drop_last());
        match ops.last() {
            SpecOperation::Select { columns, .. } => {
                assert forall|i: int| 0 <= i < columns.len() implies column_sql(a, #[trigger] columns[i])
                    == column_sql(b, columns[i]) by {
                    lemma_same_expr_sql(a, b, columns[i].expr);
                    match columns[i].alias {
                        Some(x) => {
                            assert(a.quoted_identifier(x) == b.quoted_identifier(x));
                        },
                        None => {},
                    }
                }
                assert(columns_sql(a, columns) =~= columns_sql(b, columns));
            },
            SpecOperation::Filter { condition, .. } => {
                lemma_same_expr_sql(a, b, condition);
            },
            SpecOperation::Mutate { assignments, .. } => {
                assert forall|i: int| 0 <= i < assignments.len() implies assignment_sql(a, #[trigger] assignments[i])
                    == assignment_sql(b, assignments[i]) by {
                    lemma_same_expr_sql(a, b, assignments[i].expr);
                    assert(a.quoted_identifier(assignments[i].column) == b.quoted_identifier(assignments[i].column));
                }
                assert(assignments_sql(a, assignments) =~= assignments_sql(b, assignments));
            },
            SpecOperation::Arrange { columns, .. } => {
                assert forall|i: int| 0 <= i < columns.len() implies order_sql(a, #[trigger] columns[i])
                    == order_sql(b, columns[i]) by {
                    assert(a.quoted_identifier(columns[i].column) == b.quoted_identifier(columns[i].column));
                }
                assert(orders_sql(a, columns) =~= orders_sql(b, columns));
            },
            SpecOperation::GroupBy { columns, .. } => {
                assert forall|i: int| 0 <= i < columns.len() implies a.quoted_identifier(#[trigger] columns[i])
                    == b.quoted_identifier(columns[i]) by {}
                assert(identifiers_sql(a, columns) =~= identifiers_sql(b, columns));
            },
            SpecOperation::Summarise { aggregations, .. } => {
                assert forall|i: int| 0 <= i < aggregations.len() implies aggregation_sql(a, #[trigger] aggregations[i])
                    == aggregation_sql(b, aggregations[i]) by {
                    let g = aggregations[i];
                    let own = functions_of_operation(ops.last());
                    assert(own[i] == g.function);
                    assert((front + own)[front.len() + i] == g.function);
                    assert(aggregate_functions(ops).contains(g.function));
                    assert(a.aggregate_name(g.function) == b.aggregate_name(g.function));
                    assert(a.quoted_identifier(g.column) == b.quoted_identifier(g.column));
                    match g.alias {
                        Some(x) => {
                            assert(a.quoted_identifier(x) == b.quoted_identifier(x));
                        },
                        None => {},
                    }
                }
                assert(aggregations_sql(a, aggregations) =~= aggregations_sql(b, aggregations));
            },
        }
    }
}

/// The aggregate function names of one operation, in order.
pub open spec fn functions_of_operation(op: SpecOperation) -> Seq<Seq<char>> {
    match op {
        SpecOperation::Summarise { aggregations, .. } => aggregations.map_values(
            |g: AggregationOf<Seq<char>>| g.function,
        ),
        _ => Seq::empty(),
    }
}

/// The aggregate function names the `summarise` operations of `ops` use.
pub open spec fn aggregate_functions(ops: Seq<SpecOperation>) -> Seq<Seq<char>>
    decreases ops.len(),
{
    if ops.len() == 0 {
        Seq::empty()
    } else {
        aggregate_functions(ops.drop_last()) + functions_of_operation(ops.last())
    }
}

/// The aggregate function names an AST uses.
pub open spec fn node_aggregate_functions(node: SpecNode) -> Seq<Seq<char>> {
    match node {
        SpecNode::Pipeline { operations, .. } => aggregate_functions(operations),
        SpecNode::DataSource { .. } => Seq::empty(),
    }
}

/// Two dialects that agree on identifiers, strings and aggregate names
/// generate the same SQL for every AST.
pub proof fn law_same_sql_for_equivalent_dialects<A: SqlDialect + ?Sized, B: SqlDialect + ?Sized>(a: &A, b: &B, node: SpecNode)
    requires
        forall|n: Seq<char>| #[trigger] a.quoted_identifier(n) == b.quoted_identifier(n),
        forall|n: Seq<char>| #[trigger] a.quoted_string(n) == b.quoted_string(n),
        forall|n: Seq<char>| #[trigger] a.aggregate_name(n) == b.aggregate_name(n),
    ensures
        generate_spec(a, node) == generate_spec(b, node),
{
    lemma_same_sql_where_aggregates_agree(a, b, node);
}

/// Two dialects that agree on identifiers and strings, and on the aggregate
/// names that `node` uses, generate the same SQL for it.
proof fn lemma_same_sql_where_aggregates_agree<A: SqlDialect + ?Sized, B: SqlDialect + ?Sized>(a: &A, b: &B, node: SpecNode)
    requires
        forall|n: Seq<char>| #[trigger] a.quoted_identifier(n) == b.quoted_identifier(n),
        forall|n: Seq<char>| #[trigger] a.quoted_string(n) == b.quoted_string(n),
        forall|n: Seq<char>| node_aggregate_functions(node).contains(n) ==> #[trigger] a.aggregate_name(n) == b.aggregate_name(n),
    ensures
        generate_spec(a, node) == generate_spec(b, node),
{
    match node {
        SpecNode::Pipeline { operations, .. } => {
            lemma_same_parts(a, b, operations);
            assert(a.quoted_identifier("data"@) == b.quoted_identifier("data"@));
        },
        SpecNode::DataSource { name, .. } => {
            assert(a.quoted_identifier(name) == b.quoted_identifier(name));
        },
    }
}

/// PostgreSQL and SQLite generate the same SQL for every AST.
pub proof fn law_postgres_and_sqlite_agree(node: SpecNode)
    ensures
        generate_spec(&PostgreSqlDialect, node) == generate_spec(&SqliteDialect, node),
{
    law_same_sql_for_equivalent_dialects(&PostgreSqlDialect, &SqliteDialect, node);
}

/// A character whose ASCII lower-casing is the lower-case letter `l` has the
/// upper-case letter of `l` as its ASCII upper-casing.
proof fn lemma_same_letter(c: char, l: char)
    requires
        ascii_lower(c) == l,
        'a' <= l && l <= 'z',
    ensures
        ascii_upper(c) == ascii_upper(l),
{
}

/// ASCII text whose ASCII lower-casing is the lower-case word `w` has the
/// upper-cased `w` as its ASCII upper-casing.
proof fn lemma_same_word(s: Seq<char>, w: Seq<char>)
    requires
        s.map_values(|c: char| ascii_lower(c)) == w,
        forall|i: int| 0 <= i < w.len() ==> 'a' <= #[trigger] w[i] && w[i] <= 'z',
    ensures
        s.map_values(|c: char| ascii_upper(c)) == w.map_values(|c: char| ascii_upper(c)),
{
    let sl = s.map_values(|c: char| ascii_lower(c));
    let su = s.map_values(|c: char| ascii_upper(c));
    let wu = w.map_values(|c: char| ascii_upper(c));
    assert forall|i: int| 0 <= i < s.len() implies su[i] == wu[i] by {
        assert(sl[i] == w[i]);
        lemma_same_letter(s[i], w[i]);
    }
    assert(su =~= wu);
}

/// On ASCII function names DuckDB names every aggregate as PostgreSQL does:
/// its own `MEDIAN` and `MODE` are what upper-casing gives.
pub proof fn law_duckdb_aggregates_match_standard(function: Seq<char>)
    requires
        is_ascii_seq(function),
    ensures
        duckdb_aggregate(function) == standard_aggregate(function),
{
    let lower = lower_text(function);
    if common_aggregate(lower) is None {
        reveal_strlit("median");
        reveal_strlit("mode");
        reveal_strlit("MEDIAN");
        reveal_strlit("MODE");
        if lower == "median"@ {
            lemma_same_word(function, "median"@);
            assert("median"@.map_values(|c: char| ascii_upper(c)) =~= "MEDIAN"@);
        } else if lower == "mode"@ {
            lemma_same_word(function, "mode"@);
            assert("mode"@.map_values(|c: char| ascii_upper(c)) =~= "MODE"@);
        }
    }
}

/// The SQL name of an R aggregate: `mean` is `AVG` and `n()` is `COUNT(*)`;
/// every other function keeps its name, upper-cased.
pub open spec fn sql_aggregate_name(function: Seq<char>) -> Seq<char> {
    if lower_text(function) == "mean"@ {
        "AVG"@
    } else if lower_text(function) == "n"@ {
        "COUNT(*)"@
    } else {
        upper_text(function)
    }
}

/// Every dialect names an aggregate of an ASCII function name as SQL does:
/// `mean` as `AVG`, `n()` as `COUNT(*)`, and any other function by its own
/// name upper-cased (`sum` as `SUM`, `max` as `MAX`, `median` as `MEDIAN`).
pub proof fn law_aggregate_names(function: Seq<char>)
    requires
        is_ascii_seq(function),
    ensures
        PostgreSqlDialect.aggregate_name(function) == sql_aggregate_name(function),
        MySqlDialect.aggregate_name(function) == sql_aggregate_name(function),
        SqliteDialect.aggregate_name(function) == sql_aggregate_name(function),
        DuckDbDialect.aggregate_name(function) == sql_aggregate_name(function),
{
    let lower = lower_text(function);
    reveal_strlit("mean");
    reveal_strlit("avg");
    reveal_strlit("sum");
    reveal_strlit("count");
    reveal_strlit("min");
    reveal_strlit("max");
    reveal_strlit("n");
    reveal_strlit("AVG");
    reveal_strlit("SUM");
    reveal_strlit("COUNT");
    reveal_strlit("MIN");
    reveal_strlit("MAX");
    reveal_strlit("COUNT(*)");
    if lower == "avg"@ {
        lemma_same_word(function, "avg"@);
        assert("avg"@.map_values(|c: char| ascii_upper(c)) =~= "AVG"@);
    } else if lower == "sum"@ {
        lemma_same_word(function, "sum"@);
        assert("sum"@.map_values(|c: char| ascii_upper(c)) =~= "SUM"@);
    } else if lower == "count"@ {
        lemma_same_word(function, "count"@);
        assert("count"@.map_values(|c: char| ascii_upper(c)) =~= "COUNT"@);
    } else if lower == "min"@ {
        lemma_same_word(function, "min"@);
        assert("min"@.map_values(|c: char| ascii_upper(c)) =~= "MIN"@);
    } else if lower == "max"@ {
        lemma_same_word(function, "max"@);
        assert("max"@.map_values(|c: char| ascii_upper(c)) =~= "MAX"@);
    }
    law_duckdb_aggregates_match_standard(function);
}

/// DuckDB generates the same SQL as PostgreSQL and SQLite for every AST
/// whose aggregate function names are ASCII.
pub proof fn law_duckdb_agrees_with_postgres(node: SpecNode)
    requires
        forall|i: int| 0 <= i < node_aggregate_functions(node).len()
            ==> is_ascii_seq(#[trigger] node_aggregate_functions(node)[i]),
    ensures
        generate_spec(&DuckDbDialect, node) == generate_spec(&PostgreSqlDialect, node),
        generate_spec(&DuckDbDialect, node) == generate_spec(&SqliteDialect, node),
{
    assert forall|n: Seq<char>| node_aggregate_functions(node).contains(n) implies
        #[trigger] DuckDbDialect.aggregate_name(n) == PostgreSqlDialect.aggregate_name(n) by {
        let j = choose|j: int| 0 <= j < node_aggregate_functions(node).len() && node_aggregate_functions(node)[j] == n;
        assert(is_ascii_seq(node_aggregate_functions(node)[j]));
        law_duckdb_aggregates_match_standard(n);
    }
    lemma_same_sql_where_aggregates_agree(&DuckDbDialect, &PostgreSqlDialect, node);
    law_postgres_and_sqlite_agree(node);
}

/// Every generated query begins with `SELECT `, and that of a pipeline
/// reads the `data` table: `FROM` and the quoted name open its second line.
pub proof fn law_queries_select_from_data<D: SqlDialect + ?Sized>(d: &D, node: SpecNode)
    requires
        generate_spec(d, node) is Ok,
    ensures
        starts_with(generate_spec(d, node)->Ok_0, "SELECT "@),
        node is Pipeline ==> contains(generate_spec(d, node)->Ok_0, "\nFROM "@ + d.quoted_identifier("data"@)),
{
    reveal_strlit("SELECT ");
    reveal_strlit("SELECT * FROM ");
    match node {
        SpecNode::Pipeline { operations: ops, .. } => {
            let p = apply_operations(d, empty_parts(), ops);
            let select = "SELECT "@ + if p.select_columns.len() == 0 {
                "*"@
            } else {
                join(p.select_columns, ", "@)
            };
            let fr = "\nFROM "@ + d.quoted_identifier("data"@);
            let from = select + fr;
            let sql = assemble_sql(d, p);
            let w = if p.where_clauses.len() == 0 { Seq::<char>::empty() } else { "\nWHERE "@ + join(p.where_clauses, " "@) };
            let g = if p.group_by.len() == 0 { Seq::<char>::empty() } else { "\nGROUP BY "@ + p.group_by };
            let o = if p.order_by.len() == 0 { Seq::<char>::empty() } else { "\nORDER BY "@ + p.order_by };
            assert(sql =~= from + (w + g + o));
            assert(sql.take(7) =~= "SELECT "@);
            assert(sql.subrange(select.len() as int, (select.len() + fr.len()) as int) =~= fr);
            assert(occurs_at(sql, fr, select.len() as int));
        },
        SpecNode::DataSource { name, .. } => {
            let sql = "SELECT * FROM "@ + d.quoted_identifier(name);
            assert(sql.take(7) =~= "SELECT "@);
        },
    }
}

} // verus!
