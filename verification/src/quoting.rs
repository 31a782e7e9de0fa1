//! How MySQL's queries relate to PostgreSQL's: the same text with each
//! double quote turned into a backtick, for ASTs whose names, strings and
//! numbers hold no double quote.

use crate::parser::{
    AggregationOf, BinaryOp, LiteralValueOf, OrderDirection, SpecAssignment, SpecColumnExpr,
    SpecExpr, SpecNode, SpecOperation,
};
use crate::sql_generator::{
    aggregation_sql, aggregations_sql, apply_operation, apply_operations, assemble_sql,
    assignments_sql, columns_sql, empty_parts, expr_sql, exprs_sql, generate_spec,
    identifiers_sql, operator_sql, orders_sql, single_quoted, standard_aggregate, MySqlDialect,
    PostgreSqlDialect, SpecQueryParts, SqlDialect, aggregate_functions, functions_of_operation,
    node_aggregate_functions,
};
use crate::text::{ascii_upper, is_ascii_seq, join, lower_text, replace, upper_text};
use vstd::prelude::*;

verus! {

/// A backtick for each double quote.
pub open spec fn swap_char(c: char) -> char {
    if c == '"' {
        '`'
    } else {
        c
    }
}

/// `s` with each double quote turned into a backtick.
pub open spec fn swap_quotes(s: Seq<char>) -> Seq<char> {
    s.map_values(|c: char| swap_char(c))
}

/// `s` holds no double quote.
pub open spec fn quote_free(s: Seq<char>) -> bool {
    forall|j: int| 0 <= j < s.len() ==> s[j] != '"'
}

proof fn lemma_swap_concat(a: Seq<char>, b: Seq<char>)
    ensures
        swap_quotes(a + b) == swap_quotes(a) + swap_quotes(b),
{
    assert(swap_quotes(a + b) =~= swap_quotes(a) + swap_quotes(b));
}

proof fn lemma_swap_fixes(s: Seq<char>)
    requires
        quote_free(s),
    ensures
        swap_quotes(s) == s,
{
    assert(swap_quotes(s) =~= s);
}

pub(crate) proof fn lemma_quote_free_concat(a: Seq<char>, b: Seq<char>)
    requires
        quote_free(a),
        quote_free(b),
    ensures
        quote_free(a + b),
{
    assert forall|j: int| 0 <= j < (a + b).len() implies (a + b)[j] != '"' by {
        if j >= a.len() {
            assert((a + b)[j] == b[j - a.len()]);
        }
    }
}

/// Joining parts that are the swapped parts of others, with a separator
/// free of double quotes, swaps the joined text.
proof fn lemma_swap_join(ps: Seq<Seq<char>>, qs: Seq<Seq<char>>, sep: Seq<char>)
    requires
        qs.len() == ps.len(),
        forall|i: int| 0 <= i < ps.len() ==> #[trigger] qs[i] == swap_quotes(ps[i]),
        quote_free(sep),
    ensures
        join(qs, sep) == swap_quotes(join(ps, sep)),
    decreases ps.len(),
{
    if ps.len() == 0 {
        assert(swap_quotes(Seq::<char>::empty()) =~= Seq::<char>::empty());
    } else if ps.len() == 1 {
        assert(qs[0] == swap_quotes(ps[0]));
    } else {
        lemma_swap_join(ps.drop_last(), qs.drop_last(), sep);
        assert(qs.drop_last()[ps.len() - 2] == qs[ps.len() - 2]);
        lemma_swap_concat(join(ps.drop_last(), sep), sep);
        lemma_swap_concat(join(ps.drop_last(), sep) + sep, ps.last());
        lemma_swap_fixes(sep);
        assert(qs.last() == swap_quotes(ps.last()));
    }
}

/// Replacing with text free of double quotes, in text free of them, adds
/// none.
proof fn lemma_replace_quote_free(s: Seq<char>, pat: Seq<char>, rep: Seq<char>)
    requires
        quote_free(s),
        quote_free(rep),
    ensures
        quote_free(replace(s, pat, rep)),
    decreases s.len(),
{
    if pat.len() == 0 || s.len() < pat.len() {
    } else if s.take(pat.len() as int) == pat {
        let rest = s.skip(pat.len() as int);
        assert forall|j: int| 0 <= j < rest.len() implies rest[j] != '"' by {
            assert(rest[j] == s[j + pat.len()]);
        }
        lemma_replace_quote_free(rest, pat, rep);
        lemma_quote_free_concat(rep, replace(rest, pat, rep));
    } else {
        let rest = s.drop_first();
        assert forall|j: int| 0 <= j < rest.len() implies rest[j] != '"' by {
            assert(rest[j] == s[j + 1]);
        }
        lemma_replace_quote_free(rest, pat, rep);
        lemma_quote_free_concat(seq![s[0]], replace(rest, pat, rep));
    }
}

/// A quoted string literal of text free of double quotes is free of them.
proof fn lemma_single_quoted_free(v: Seq<char>)
    requires
        quote_free(v),
    ensures
        quote_free(single_quoted(v)),
{
    assert(quote_free(seq!['\'', '\'']));
    lemma_replace_quote_free(v, seq!['\''], seq!['\'', '\'']);
    let r = replace(v, seq!['\''], seq!['\'', '\'']);
    lemma_quote_free_concat(seq!['\''], r);
    lemma_quote_free_concat(seq!['\''] + r, seq!['\'']);
}

/// Upper-casing ASCII text free of double quotes keeps it free of them.
proof fn lemma_upper_free(name: Seq<char>)
    requires
        is_ascii_seq(name),
        quote_free(name),
    ensures
        quote_free(upper_text(name)),
{
    let u = upper_text(name);
    assert forall|j: int| 0 <= j < u.len() implies u[j] != '"' by {
        assert(u[j] == ascii_upper(name[j]));
    }
}

/// The fixed texts of expressions hold no double quote.
proof fn lemma_expr_texts_free()
    ensures
        quote_free("("@),
        quote_free(")"@),
        quote_free(" "@),
        quote_free(", "@),
        quote_free("TRUE"@),
        quote_free("FALSE"@),
        quote_free("NULL"@),
        forall|op: BinaryOp| quote_free(#[trigger] operator_sql(op)),
{
    reveal_strlit("(");
    reveal_strlit(")");
    reveal_strlit(" ");
    reveal_strlit(", ");
    reveal_strlit("TRUE");
    reveal_strlit("FALSE");
    reveal_strlit("NULL");
    reveal_strlit("=");
    reveal_strlit("!=");
    reveal_strlit("<");
    reveal_strlit("<=");
    reveal_strlit(">");
    reveal_strlit(">=");
    reveal_strlit("AND");
    reveal_strlit("OR");
    reveal_strlit("+");
    reveal_strlit("-");
    reveal_strlit("*");
    reveal_strlit("/");
    assert forall|op: BinaryOp| quote_free(#[trigger] operator_sql(op)) by {
        match op {
            BinaryOp::Equal => {},
            BinaryOp::NotEqual => {},
            BinaryOp::LessThan => {},
            BinaryOp::LessThanOrEqual => {},
            BinaryOp::GreaterThan => {},
            BinaryOp::GreaterThanOrEqual => {},
            BinaryOp::And => {},
            BinaryOp::Or => {},
            BinaryOp::Plus => {},
            BinaryOp::Minus => {},
            BinaryOp::Multiply => {},
            BinaryOp::Divide => {},
        }
    }
}

/// Every name, string and number of `e` is free of double quotes, and each
/// function name is ASCII.
pub open spec fn expr_quote_free(e: SpecExpr) -> bool
    decreases e, 1nat,
{
    match e {
        SpecExpr::Identifier(name) => quote_free(name),
        SpecExpr::Literal(l) => match l {
            LiteralValueOf::String(v) => quote_free(v),
            LiteralValueOf::Number(n) => quote_free(n),
            _ => true,
        },
        SpecExpr::Binary { left, right, .. } => expr_quote_free(*left) && expr_quote_free(*right),
        SpecExpr::Function { name, args } => is_ascii_seq(name) && quote_free(name) && exprs_quote_free(args),
    }
}

/// Each expression of `args` is free of double quotes.
pub open spec fn exprs_quote_free(args: Seq<SpecExpr>) -> bool
    decreases args, 0nat,
{
    if args.len() == 0 {
        true
    } else {
        proof {
            assert(decreases_to!(args => args.drop_last()));
        }
        exprs_quote_free(args.drop_last()) && expr_quote_free(args.last())
    }
}

/// MySQL writes an expression free of double quotes as PostgreSQL does,
/// with backticks for double quotes.
proof fn lemma_expr_swapped(e: SpecExpr)
    requires
        expr_quote_free(e),
    ensures
        expr_sql(&MySqlDialect, e) == swap_quotes(expr_sql(&PostgreSqlDialect, e)),
    decreases e, 1nat,
{
    lemma_expr_texts_free();
    match e {
        SpecExpr::Identifier(name) => {
            lemma_identifier_swapped(name);
        },
        SpecExpr::Literal(l) => {
            match l {
                LiteralValueOf::String(v) => {
                    lemma_single_quoted_free(v);
                    lemma_swap_fixes(single_quoted(v));
                },
                LiteralValueOf::Number(n) => {
                    lemma_swap_fixes(n);
                },
                LiteralValueOf::Boolean(b) => {
                    lemma_swap_fixes("TRUE"@);
                    lemma_swap_fixes("FALSE"@);
                },
                LiteralValueOf::Null => {
                    lemma_swap_fixes("NULL"@);
                },
            }
        },
        SpecExpr::Binary { left, operator, right } => {
            lemma_expr_swapped(*left);
            lemma_expr_swapped(*right);
            let pl = expr_sql(&PostgreSqlDialect, *left);
            let pr = expr_sql(&PostgreSqlDialect, *right);
            let o = operator_sql(operator);
            lemma_swap_fixes("("@);
            lemma_swap_fixes(" "@);
            lemma_swap_fixes(")"@);
            lemma_swap_fixes(o);
            lemma_swap_concat("("@, pl);
            lemma_swap_concat("("@ + pl, " "@);
            lemma_swap_concat("("@ + pl + " "@, o);
            lemma_swap_concat("("@ + pl + " "@ + o, " "@);
            lemma_swap_concat("("@ + pl + " "@ + o + " "@, pr);
            lemma_swap_concat("("@ + pl + " "@ + o + " "@ + pr, ")"@);
        },
        SpecExpr::Function { name, args } => {
            lemma_exprs_swapped(args);
            let ps = exprs_sql(&PostgreSqlDialect, args);
            let qs = exprs_sql(&MySqlDialect, args);
            lemma_swap_join(ps, qs, ", "@);
            let u = upper_text(name);
            lemma_upper_free(name);
            lemma_swap_fixes(u);
            lemma_swap_fixes("("@);
            lemma_swap_fixes(")"@);
            let j = join(ps, ", "@);
            lemma_swap_concat(u, "("@);
            lemma_swap_concat(u + "("@, j);
            lemma_swap_concat(u + "("@ + j, ")"@);
        },
    }
}

/// The list form of `lemma_expr_swapped`.
proof fn lemma_exprs_swapped(args: Seq<SpecExpr>)
    requires
        exprs_quote_free(args),
    ensures
        exprs_sql(&MySqlDialect, args).len() == args.len(),
        exprs_sql(&PostgreSqlDialect, args).len() == args.len(),
        forall|i: int| 0 <= i < args.len() ==> #[trigger] exprs_sql(&MySqlDialect, args)[i] == swap_quotes(
            exprs_sql(&PostgreSqlDialect, args)[i],
        ),
    decreases args, 0nat,
{
    if args.len() > 0 {
        assert(decreases_to!(args => args.drop_last()));
        lemma_exprs_swapped(args.drop_last());
        lemma_expr_swapped(args.last());
    }
}

/// PostgreSQL's quoted name, swapped, is MySQL's.
proof fn lemma_identifier_swapped(name: Seq<char>)
    requires
        quote_free(name),
    ensures
        MySqlDialect.quoted_identifier(name) == swap_quotes(PostgreSqlDialect.quoted_identifier(name)),
{
    lemma_swap_concat(seq!['"'] + name, seq!['"']);
    lemma_swap_concat(seq!['"'], name);
    lemma_swap_fixes(name);
    assert(swap_quotes(seq!['"']) =~= seq!['`']);
}

/// The fixed texts of queries hold no double quote.
proof fn lemma_query_texts_free()
    ensures
        quote_free("AND ("@),
        quote_free(" AS "@),
        quote_free("ASC"@),
        quote_free("DESC"@),
        quote_free("SELECT "@),
        quote_free("*"@),
        quote_free("\nFROM "@),
        quote_free("\nWHERE "@),
        quote_free("\nGROUP BY "@),
        quote_free("\nORDER BY "@),
        quote_free("SELECT * FROM "@),
        quote_free("data"@),
        quote_free("AVG"@),
        quote_free("SUM"@),
        quote_free("COUNT"@),
        quote_free("MIN"@),
        quote_free("MAX"@),
        quote_free("COUNT(*)"@),
{
    reveal_strlit("AND (");
    reveal_strlit(" AS ");
    reveal_strlit("ASC");
    reveal_strlit("DESC");
    reveal_strlit("SELECT ");
    reveal_strlit("*");
    reveal_strlit("\nFROM ");
    reveal_strlit("\nWHERE ");
    reveal_strlit("\nGROUP BY ");
    reveal_strlit("\nORDER BY ");
    reveal_strlit("SELECT * FROM ");
    reveal_strlit("data");
    reveal_strlit("AVG");
    reveal_strlit("SUM");
    reveal_strlit("COUNT");
    reveal_strlit("MIN");
    reveal_strlit("MAX");
    reveal_strlit("COUNT(*)");
}

/// A column of `select` free of double quotes.
pub open spec fn column_quote_free(c: SpecColumnExpr) -> bool {
    expr_quote_free(c.expr) && (c.alias matches Some(a) ==> quote_free(a))
}

/// An assignment of `mutate` free of double quotes.
pub open spec fn assignment_quote_free(a: SpecAssignment) -> bool {
    expr_quote_free(a.expr) && quote_free(a.column)
}

/// An aggregation of `summarise` free of double quotes, with an ASCII
/// function name.
pub open spec fn aggregation_quote_free(g: AggregationOf<Seq<char>>) -> bool {
    &&& is_ascii_seq(g.function)
    &&& quote_free(g.function)
    &&& quote_free(g.column)
    &&& (g.alias matches Some(a) ==> quote_free(a))
}

/// An operation whose names, strings and numbers hold no double quote.
pub open spec fn operation_quote_free(op: SpecOperation) -> bool {
    match op {
        SpecOperation::Select { columns, .. } => forall|i: int|
            0 <= i < columns.len() ==> column_quote_free(#[trigger] columns[i]),
        SpecOperation::Filter { condition, .. } => expr_quote_free(condition),
        SpecOperation::Mutate { assignments, .. } => forall|i: int|
            0 <= i < assignments.len() ==> assignment_quote_free(#[trigger] assignments[i]),
        SpecOperation::Arrange { columns, .. } => forall|i: int|
            0 <= i < columns.len() ==> quote_free(#[trigger] columns[i].column),
        SpecOperation::GroupBy { columns, .. } => forall|i: int|
            0 <= i < columns.len() ==> quote_free(#[trigger] columns[i]),
        SpecOperation::Summarise { aggregations, .. } => forall|i: int|
            0 <= i < aggregations.len() ==> aggregation_quote_free(#[trigger] aggregations[i]),
    }
}

/// An AST whose names, strings and numbers hold no double quote, and whose
/// function names are ASCII.
pub open spec fn node_quote_free(node: SpecNode) -> bool {
    match node {
        SpecNode::Pipeline { operations, .. } => forall|k: int|
            0 <= k < operations.len() ==> operation_quote_free(#[trigger] operations[k]),
        SpecNode::DataSource { name, .. } => quote_free(name),
    }
}

/// `x` wrapped in `a` and `b`, swapped, is the swapped `x` so wrapped, when
/// `a` and `b` hold no double quote.
proof fn lemma_swap_wrapped(a: Seq<char>, x: Seq<char>, b: Seq<char>)
    requires
        quote_free(a),
        quote_free(b),
    ensures
        swap_quotes(a + x + b) == a + swap_quotes(x) + b,
{
    lemma_swap_concat(a + x, b);
    lemma_swap_concat(a, x);
    lemma_swap_fixes(a);
    lemma_swap_fixes(b);
}

/// `x AS alias` swapped is the swapped `x` with MySQL's alias.
proof fn lemma_aliased_swapped(x: Seq<char>, alias: Seq<char>)
    requires
        quote_free(alias),
    ensures
        swap_quotes(x + " AS "@ + PostgreSqlDialect.quoted_identifier(alias))
            == swap_quotes(x) + " AS "@ + MySqlDialect.quoted_identifier(alias),
{
    lemma_query_texts_free();
    lemma_identifier_swapped(alias);
    lemma_swap_concat(x + " AS "@, PostgreSqlDialect.quoted_identifier(alias));
    lemma_swap_concat(x, " AS "@);
    lemma_swap_fixes(" AS "@);
}

/// The standard aggregate name of an ASCII function name free of double
/// quotes is free of them.
proof fn lemma_aggregate_free(function: Seq<char>)
    requires
        is_ascii_seq(function),
        quote_free(function),
    ensures
        quote_free(standard_aggregate(function)),
{
    lemma_query_texts_free();
    lemma_upper_free(function);
}

/// MySQL writes an aggregation free of double quotes as PostgreSQL does,
/// swapped.
proof fn lemma_aggregation_swapped(g: AggregationOf<Seq<char>>)
    requires
        aggregation_quote_free(g),
    ensures
        aggregation_sql(&MySqlDialect, g) == swap_quotes(aggregation_sql(&PostgreSqlDialect, g)),
{
    lemma_expr_texts_free();
    lemma_aggregate_free(g.function);
    let func = standard_aggregate(g.function);
    lemma_swap_fixes(func);
    lemma_identifier_swapped(g.column);
    let pref = PostgreSqlDialect.quoted_identifier(g.column);
    let mref = MySqlDialect.quoted_identifier(g.column);
    lemma_swap_concat(func + "("@, pref);
    lemma_swap_concat(func + "("@ + pref, ")"@);
    lemma_swap_concat(func, "("@);
    lemma_swap_fixes("("@);
    lemma_swap_fixes(")"@);
    let pexpr = if lower_text(g.function) == "n"@ { func } else { func + "("@ + pref + ")"@ };
    let mexpr = if lower_text(g.function) == "n"@ { func } else { func + "("@ + mref + ")"@ };
    assert(mexpr == swap_quotes(pexpr));
    match g.alias {
        Some(a) => lemma_aliased_swapped(pexpr, a),
        None => {},
    }
}

/// The clauses MySQL builds are PostgreSQL's, each swapped.
pub open spec fn parts_swapped(p: SpecQueryParts, q: SpecQueryParts) -> bool {
    &&& q.select_columns.len() == p.select_columns.len()
    &&& forall|i: int| 0 <= i < p.select_columns.len() ==> #[trigger] q.select_columns[i] == swap_quotes(p.select_columns[i])
    &&& q.where_clauses.len() == p.where_clauses.len()
    &&& forall|i: int| 0 <= i < p.where_clauses.len() ==> #[trigger] q.where_clauses[i] == swap_quotes(p.where_clauses[i])
    &&& q.group_by == swap_quotes(p.group_by)
    &&& q.order_by == swap_quotes(p.order_by)
}

/// One more operation keeps MySQL's clauses PostgreSQL's, swapped.
proof fn lemma_operation_swapped(p: SpecQueryParts, q: SpecQueryParts, op: SpecOperation)
    requires
        parts_swapped(p, q),
        operation_quote_free(op),
    ensures
        parts_swapped(apply_operation(&PostgreSqlDialect, p, op), apply_operation(&MySqlDialect, q, op)),
{
    lemma_expr_texts_free();
    lemma_query_texts_free();
    let pp = apply_operation(&PostgreSqlDialect, p, op);
    let qq = apply_operation(&MySqlDialect, q, op);
    match op {
        SpecOperation::Select { columns, .. } => {
            assert forall|i: int| 0 <= i < columns.len() implies #[trigger] columns_sql(&MySqlDialect, columns)[i]
                == swap_quotes(columns_sql(&PostgreSqlDialect, columns)[i]) by {
                let c = columns[i];
                assert(column_quote_free(c));
                lemma_expr_swapped(c.expr);
                match c.alias {
                    Some(a) => lemma_aliased_swapped(expr_sql(&PostgreSqlDialect, c.expr), a),
                    None => {},
                }
            }
        },
        SpecOperation::Filter { condition, .. } => {
            lemma_expr_swapped(condition);
            let w = expr_sql(&PostgreSqlDialect, condition);
            lemma_swap_wrapped("AND ("@, w, ")"@);
            assert forall|i: int| 0 <= i < pp.where_clauses.len() implies #[trigger] qq.where_clauses[i]
                == swap_quotes(pp.where_clauses[i]) by {
                if i < p.where_clauses.len() {
                    assert(qq.where_clauses[i] == q.where_clauses[i]);
                    assert(pp.where_clauses[i] == p.where_clauses[i]);
                }
            }
        },
        SpecOperation::Mutate { assignments, .. } => {
            let pa = assignments_sql(&PostgreSqlDialect, assignments);
            let qa = assignments_sql(&MySqlDialect, assignments);
            assert forall|i: int| 0 <= i < assignments.len() implies #[trigger] qa[i] == swap_quotes(pa[i]) by {
                let a = assignments[i];
                assert(assignment_quote_free(a));
                lemma_expr_swapped(a.expr);
                lemma_aliased_swapped(expr_sql(&PostgreSqlDialect, a.expr), a.column);
            }
            assert forall|i: int| 0 <= i < pp.select_columns.len() implies #[trigger] qq.select_columns[i]
                == swap_quotes(pp.select_columns[i]) by {
                if i < p.select_columns.len() {
                    assert(qq.select_columns[i] == q.select_columns[i]);
                    assert(pp.select_columns[i] == p.select_columns[i]);
                } else {
                    let k = i - p.select_columns.len();
                    assert(qq.select_columns[i] == qa[k]);
                    assert(pp.select_columns[i] == pa[k]);
                }
            }
        },
        SpecOperation::Arrange { columns, .. } => {
            let po = orders_sql(&PostgreSqlDialect, columns);
            let qo = orders_sql(&MySqlDialect, columns);
            assert forall|i: int| 0 <= i < columns.len() implies #[trigger] qo[i] == swap_quotes(po[i]) by {
                let o = columns[i];
                assert(quote_free(o.column));
                lemma_identifier_swapped(o.column);
                let dir = match o.direction {
                    OrderDirection::Asc => "ASC"@,
                    OrderDirection::Desc => "DESC"@,
                };
                lemma_swap_concat(PostgreSqlDialect.quoted_identifier(o.column) + " "@, dir);
                lemma_swap_concat(PostgreSqlDialect.quoted_identifier(o.column), " "@);
                lemma_swap_fixes(" "@);
                lemma_swap_fixes(dir);
            }
            lemma_swap_join(po, qo, ", "@);
        },
        SpecOperation::GroupBy { columns, .. } => {
            let pg = identifiers_sql(&PostgreSqlDialect, columns);
            let qg = identifiers_sql(&MySqlDialect, columns);
            assert forall|i: int| 0 <= i < columns.len() implies #[trigger] qg[i] == swap_quotes(pg[i]) by {
                assert(quote_free(columns[i]));
                lemma_identifier_swapped(columns[i]);
            }
            lemma_swap_join(pg, qg, ", "@);
        },
        SpecOperation::Summarise { aggregations, .. } => {
            assert forall|i: int| 0 <= i < aggregations.len() implies #[trigger] aggregations_sql(&MySqlDialect, aggregations)[i]
                == swap_quotes(aggregations_sql(&PostgreSqlDialect, aggregations)[i]) by {
                assert(aggregation_quote_free(aggregations[i]));
                lemma_aggregation_swapped(aggregations[i]);
            }
        },
    }
}

/// The clauses MySQL builds from operations free of double quotes are
/// PostgreSQL's, each swapped.
proof fn lemma_operations_swapped(ops: Seq<SpecOperation>)
    requires
        forall|k: int| 0 <= k < ops.len() ==> operation_quote_free(#[trigger] ops[k]),
    ensures
        parts_swapped(apply_operations(&PostgreSqlDialect, empty_parts(), ops), apply_operations(&MySqlDialect, empty_parts(), ops)),
    decreases ops.len(),
{
    if ops.len() == 0 {
        assert(swap_quotes(Seq::<char>::empty()) =~= Seq::<char>::empty());
    } else {
        assert forall|k: int| 0 <= k < ops.drop_last().len() implies operation_quote_free(#[trigger] ops.drop_last()[k]) by {
            assert(ops.drop_last()[k] == ops[k]);
        }
        lemma_operations_swapped(ops.drop_last());
        assert(operation_quote_free(ops[ops.len() - 1]));
        lemma_operation_swapped(
            apply_operations(&PostgreSqlDialect, empty_parts(), ops.drop_last()),
            apply_operations(&MySqlDialect, empty_parts(), ops.drop_last()),
            ops.last(),
        );
    }
}

/// MySQL assembles swapped clauses into PostgreSQL's query, swapped.
proof fn lemma_assemble_swapped(p: SpecQueryParts, q: SpecQueryParts)
    requires
        parts_swapped(p, q),
    ensures
        assemble_sql(&MySqlDialect, q) == swap_quotes(assemble_sql(&PostgreSqlDialect, p)),
{
    lemma_expr_texts_free();
    lemma_query_texts_free();
    let cols_p = if p.select_columns.len() == 0 { "*"@ } else { join(p.select_columns, ", "@) };
    let cols_q = if q.select_columns.len() == 0 { "*"@ } else { join(q.select_columns, ", "@) };
    lemma_swap_join(p.select_columns, q.select_columns, ", "@);
    lemma_swap_fixes("*"@);
    lemma_identifier_swapped("data"@);
    let from_p = "SELECT "@ + cols_p + "\nFROM "@ + PostgreSqlDialect.quoted_identifier("data"@);
    let from_q = "SELECT "@ + cols_q + "\nFROM "@ + MySqlDialect.quoted_identifier("data"@);
    lemma_swap_wrapped("SELECT "@, cols_p, "\nFROM "@);
    lemma_swap_concat("SELECT "@ + cols_p + "\nFROM "@, PostgreSqlDialect.quoted_identifier("data"@));
    assert(from_q == swap_quotes(from_p));
    lemma_swap_join(p.where_clauses, q.where_clauses, " "@);
    let where_p = if p.where_clauses.len() == 0 { from_p } else { from_p + "\nWHERE "@ + join(p.where_clauses, " "@) };
    let where_q = if q.where_clauses.len() == 0 { from_q } else { from_q + "\nWHERE "@ + join(q.where_clauses, " "@) };
    lemma_swap_concat(from_p + "\nWHERE "@, join(p.where_clauses, " "@));
    lemma_swap_concat(from_p, "\nWHERE "@);
    lemma_swap_fixes("\nWHERE "@);
    assert(where_q == swap_quotes(where_p));
    let group_p = if p.group_by.len() == 0 { where_p } else { where_p + "\nGROUP BY "@ + p.group_by };
    let group_q = if q.group_by.len() == 0 { where_q } else { where_q + "\nGROUP BY "@ + q.group_by };
    lemma_swap_concat(where_p + "\nGROUP BY "@, p.group_by);
    lemma_swap_concat(where_p, "\nGROUP BY "@);
    lemma_swap_fixes("\nGROUP BY "@);
    assert(group_q == swap_quotes(group_p));
    lemma_swap_concat(group_p + "\nORDER BY "@, p.order_by);
    lemma_swap_concat(group_p, "\nORDER BY "@);
    lemma_swap_fixes("\nORDER BY "@);
}

/// MySQL generates PostgreSQL's query with each double quote turned into a
/// backtick, for every AST whose names, strings and numbers hold no double
/// quote and whose function names are ASCII; both fail alike otherwise.
pub proof fn law_mysql_is_postgres_with_backticks(node: SpecNode)
    requires
        node_quote_free(node),
    ensures
        generate_spec(&MySqlDialect, node) == match generate_spec(&PostgreSqlDialect, node) {
            Ok(sql) => Ok(swap_quotes(sql)),
            Err(e) => Err(e),
        },
{
    match node {
        SpecNode::Pipeline { operations, .. } => {
            if operations.len() > 0 {
                lemma_operations_swapped(operations);
                lemma_assemble_swapped(
                    apply_operations(&PostgreSqlDialect, empty_parts(), operations),
                    apply_operations(&MySqlDialect, empty_parts(), operations),
                );
            }
        },
        SpecNode::DataSource { name, .. } => {
            lemma_query_texts_free();
            lemma_identifier_swapped(name);
            lemma_swap_concat("SELECT * FROM "@, PostgreSqlDialect.quoted_identifier(name));
            lemma_swap_fixes("SELECT * FROM "@);
        },
    }
}

/// The aggregate function names of an AST free of double quotes are ASCII.
pub proof fn lemma_quote_free_aggregates_ascii(node: SpecNode)
    requires
        node_quote_free(node),
    ensures
        forall|i: int| 0 <= i < node_aggregate_functions(node).len()
            ==> is_ascii_seq(#[trigger] node_aggregate_functions(node)[i]),
{
    match node {
        SpecNode::Pipeline { operations, .. } => lemma_operations_aggregates_ascii(operations),
        SpecNode::DataSource { .. } => {},
    }
}

proof fn lemma_operations_aggregates_ascii(ops: Seq<SpecOperation>)
    requires
        forall|k: int| 0 <= k < ops.len() ==> operation_quote_free(#[trigger] ops[k]),
    ensures
        forall|i: int| 0 <= i < aggregate_functions(ops).len() ==> is_ascii_seq(#[trigger] aggregate_functions(ops)[i]),
    decreases ops.len(),
{
    if ops.len() > 0 {
        assert forall|k: int| 0 <= k < ops.drop_last().len() implies operation_quote_free(#[trigger] ops.drop_last()[k]) by {
            assert(ops.drop_last()[k] == ops[k]);
        }
        lemma_operations_aggregates_ascii(ops.drop_last());
        let front = aggregate_functions(ops.drop_last());
        let own = functions_of_operation(ops.last());
        assert(operation_quote_free(ops[ops.len() - 1]));
        assert forall|i: int| 0 <= i < own.len() implies is_ascii_seq(#[trigger] own[i]) by {
            match ops.last() {
                SpecOperation::Summarise { aggregations, .. } => {
                    assert(aggregation_quote_free(aggregations[i]));
                },
                _ => {},
            }
        }
        assert(aggregate_functions(ops) == front + own);
        assert forall|i: int| 0 <= i < (front + own).len() implies is_ascii_seq(#[trigger] (front + own)[i]) by {
            if i >= front.len() {
                assert((front + own)[i] == own[i - front.len()]);
            }
        }
    }
}

} // verus!
