//! What the clauses of a generated query hold, stated over the operations
//! of a pipeline and the dialect's quoting.

use crate::parser::{
    AggregationOf, OrderDirection, OrderExprOf, SpecAssignment, SpecColumnExpr, SpecNode,
    SpecOperation,
};
use crate::sql_generator::{
    aggregations_sql, apply_operation, apply_operations, assemble_sql, assignments_sql,
    columns_sql, empty_parts, expr_sql, filter_conditions, generate_spec, identifiers_sql,
    law_filters_conjoin, orders_sql, where_condition, SpecQueryParts, SqlDialect,
};
use crate::text::lower_text;
use crate::lexer::{token_text, SpecToken, TokenOf};
use crate::parser::level_op;
use crate::sql_generator::operator_sql;
use crate::error::GenerationErrorOf;
use crate::text::{join, lemma_join_last};
use vstd::prelude::*;

verus! {

/// The quoted grouping columns, in order, as `GROUP BY` lists them.
pub open spec fn quoted_columns<D: SqlDialect + ?Sized>(d: &D, columns: Seq<Seq<char>>) -> Seq<char> {
    join(Seq::new(columns.len(), |i: int| d.quoted_identifier(columns[i])), ", "@)
}

/// The grouping the clauses of `ops` end with, when the last `group_by` of
/// `ops` stands at `k`.
proof fn lemma_last_group_by<D: SqlDialect + ?Sized>(d: &D, ops: Seq<SpecOperation>, k: int, columns: Seq<Seq<char>>)
    requires
        0 <= k < ops.len(),
        ops[k] matches SpecOperation::GroupBy { columns: c, .. } && c == columns,
        forall|j: int| k < j < ops.len() ==> !(#[trigger] ops[j] is GroupBy),
    ensures
        apply_operations(d, empty_parts(), ops).group_by == quoted_columns(d, columns),
    decreases ops.len(),
{
    let p = apply_operations(d, empty_parts(), ops.drop_last());
    if k == ops.len() - 1 {
        assert(identifiers_sql(d, columns) =~= Seq::new(columns.len(), |i: int| d.quoted_identifier(columns[i])));
    } else {
        assert forall|j: int| k < j < ops.drop_last().len() implies !(#[trigger] ops.drop_last()[j] is GroupBy) by {
            assert(ops.drop_last()[j] == ops[j]);
        }
        assert(ops.drop_last()[k] == ops[k]);
        lemma_last_group_by(d, ops.drop_last(), k, columns);
        assert(!(ops[ops.len() - 1] is GroupBy));
        assert(apply_operation(d, p, ops.last()).group_by == p.group_by);
    }
}

/// The `GROUP BY` clause of a pipeline lists every column of its last
/// `group_by`, quoted and in order, separated by `", "`, and nothing else: it
/// ends the query or a new line follows it.
pub proof fn law_group_by_lists_every_column<D: SqlDialect + ?Sized>(
    d: &D,
    node: SpecNode,
    k: int,
    columns: Seq<Seq<char>>,
)
    requires
        node matches SpecNode::Pipeline { operations, .. } && 0 <= k < operations.len() && (
        operations[k] matches SpecOperation::GroupBy { columns: c, .. } && c == columns) && forall|j: int|
            k < j < operations.len() ==> !(#[trigger] operations[j] is GroupBy),
        columns.len() > 0,
        forall|n: Seq<char>| #[trigger] d.quoted_identifier(n).len() > 0,
    ensures
        exists|w: Seq<char>, o: Seq<char>|
            generate_spec(d, node) == Ok::<Seq<char>, GenerationErrorOf<Seq<char>>>(
                w + "\nGROUP BY "@ + quoted_columns(d, columns) + o,
            ) && (o.len() == 0 || o[0] == '\n'),
{
    let ops = node->Pipeline_operations;
    lemma_last_group_by(d, ops, k, columns);
    let parts = Seq::new(columns.len(), |i: int| d.quoted_identifier(columns[i]));
    assert(parts.last().len() > 0);
    lemma_join_last(parts, ", "@);
    let p = apply_operations(d, empty_parts(), ops);
    assert(p.group_by.len() > 0);
    let select = "SELECT "@ + if p.select_columns.len() == 0 {
        "*"@
    } else {
        join(p.select_columns, ", "@)
    };
    let from = select + "\nFROM "@ + d.quoted_identifier("data"@);
    let w = if p.where_clauses.len() == 0 {
        from
    } else {
        from + "\nWHERE "@ + join(p.where_clauses, " "@)
    };
    let o = if p.order_by.len() == 0 {
        Seq::<char>::empty()
    } else {
        "\nORDER BY "@ + p.order_by
    };
    reveal_strlit("\nORDER BY ");
    assert(assemble_sql(d, p) =~= w + "\nGROUP BY "@ + quoted_columns(d, columns) + o);
    assert(o.len() == 0 || o[0] == '\n');
}

/// The select-list item of an assignment: `expr AS column`.
pub open spec fn computed_columns<D: SqlDialect + ?Sized>(d: &D, assignments: Seq<SpecAssignment>) -> Seq<Seq<char>> {
    Seq::new(
        assignments.len(),
        |i: int| expr_sql(d, assignments[i].expr) + " AS "@ + d.quoted_identifier(assignments[i].column),
    )
}

/// The text of a query after its select list.
spec fn query_tail<D: SqlDialect + ?Sized>(d: &D, p: SpecQueryParts) -> Seq<char> {
    let from = "\nFROM "@ + d.quoted_identifier("data"@);
    let with_where = if p.where_clauses.len() == 0 {
        from
    } else {
        from + "\nWHERE "@ + join(p.where_clauses, " "@)
    };
    let with_group = if p.group_by.len() == 0 {
        with_where
    } else {
        with_where + "\nGROUP BY "@ + p.group_by
    };
    if p.order_by.len() == 0 {
        with_group
    } else {
        with_group + "\nORDER BY "@ + p.order_by
    }
}

proof fn lemma_query_split<D: SqlDialect + ?Sized>(d: &D, p: SpecQueryParts)
    ensures
        assemble_sql(d, p) == "SELECT "@ + (if p.select_columns.len() == 0 {
            "*"@
        } else {
            join(p.select_columns, ", "@)
        }) + query_tail(d, p),
{
    let cols = if p.select_columns.len() == 0 {
        "*"@
    } else {
        join(p.select_columns, ", "@)
    };
    let from = "\nFROM "@ + d.quoted_identifier("data"@);
    let w = if p.where_clauses.len() == 0 {
        Seq::<char>::empty()
    } else {
        "\nWHERE "@ + join(p.where_clauses, " "@)
    };
    let g = if p.group_by.len() == 0 {
        Seq::<char>::empty()
    } else {
        "\nGROUP BY "@ + p.group_by
    };
    let o = if p.order_by.len() == 0 {
        Seq::<char>::empty()
    } else {
        "\nORDER BY "@ + p.order_by
    };
    assert(assemble_sql(d, p) =~= "SELECT "@ + cols + from + w + g + o);
    assert(query_tail(d, p) =~= from + w + g + o);
    assert("SELECT "@ + cols + query_tail(d, p) =~= "SELECT "@ + cols + from + w + g + o);
}

/// A query with the select list `columns` (`*` when there are none) and the
/// text `rest` after it.
pub open spec fn select_query(columns: Seq<Seq<char>>, rest: Seq<char>) -> Seq<char> {
    "SELECT "@ + (if columns.len() == 0 { "*"@ } else { join(columns, ", "@) }) + rest
}

/// A `mutate` keeps the select list the pipeline had before it and adds its
/// computed columns, `expr AS column`, after it; the rest of the query stays
/// as it was.  Where nothing was selected (`*`), the computed columns are
/// the select list.
pub proof fn law_mutate_appends_computed_columns<D: SqlDialect + ?Sized>(
    d: &D,
    before: SpecNode,
    after: SpecNode,
    mutate: SpecOperation,
    assignments: Seq<SpecAssignment>,
)
    requires
        mutate matches SpecOperation::Mutate { assignments: a, .. } && a == assignments,
        before matches SpecNode::Pipeline { operations, .. } && operations.len() > 0,
        after matches SpecNode::Pipeline { operations, .. } && operations == before->Pipeline_operations.push(mutate),
    ensures
        exists|columns: Seq<Seq<char>>, rest: Seq<char>| {
            &&& generate_spec(d, before) == Ok::<Seq<char>, GenerationErrorOf<Seq<char>>>(#[trigger] select_query(columns, rest))
            &&& generate_spec(d, after) == Ok::<Seq<char>, GenerationErrorOf<Seq<char>>>(
                select_query(columns + computed_columns(d, assignments), rest),
            )
        },
{
    let ops = before->Pipeline_operations;
    let p = apply_operations(d, empty_parts(), ops);
    let ops2 = ops.push(mutate);
    assert(ops2.drop_last() =~= ops);
    let p2 = apply_operations(d, empty_parts(), ops2);
    assert(p2 == apply_operation(d, p, mutate));
    assert(assignments_sql(d, assignments) =~= computed_columns(d, assignments));
    assert(p2.select_columns == p.select_columns + computed_columns(d, assignments));
    lemma_query_split(d, p);
    lemma_query_split(d, p2);
    assert(query_tail(d, p2) == query_tail(d, p));
    let columns = p.select_columns;
    let rest = query_tail(d, p);
    assert(generate_spec(d, before) == Ok::<Seq<char>, GenerationErrorOf<Seq<char>>>(select_query(columns, rest)));
    assert(generate_spec(d, after) == Ok::<Seq<char>, GenerationErrorOf<Seq<char>>>(
        select_query(columns + computed_columns(d, assignments), rest),
    ));
}

/// The sort keys as `ORDER BY` lists them: each quoted column with `ASC` or
/// `DESC`, in order, separated by `", "`.
pub open spec fn sort_keys<D: SqlDialect + ?Sized>(d: &D, columns: Seq<OrderExprOf<Seq<char>>>) -> Seq<char> {
    join(
        Seq::new(
            columns.len(),
            |i: int| d.quoted_identifier(columns[i].column) + " "@ + if columns[i].direction == OrderDirection::Asc {
                "ASC"@
            } else {
                "DESC"@
            },
        ),
        ", "@,
    )
}

proof fn lemma_last_arrange<D: SqlDialect + ?Sized>(d: &D, ops: Seq<SpecOperation>, k: int, columns: Seq<OrderExprOf<Seq<char>>>)
    requires
        0 <= k < ops.len(),
        ops[k] matches SpecOperation::Arrange { columns: c, .. } && c == columns,
        forall|j: int| k < j < ops.len() ==> !(#[trigger] ops[j] is Arrange),
    ensures
        apply_operations(d, empty_parts(), ops).order_by == sort_keys(d, columns),
    decreases ops.len(),
{
    let p = apply_operations(d, empty_parts(), ops.drop_last());
    if k == ops.len() - 1 {
        assert forall|i: int| 0 <= i < columns.len() implies orders_sql(d, columns)[i] == Seq::new(
            columns.len(),
            |i: int| d.quoted_identifier(columns[i].column) + " "@ + if columns[i].direction == OrderDirection::Asc {
                "ASC"@
            } else {
                "DESC"@
            },
        )[i] by {
            match columns[i].direction {
                OrderDirection::Asc => {},
                OrderDirection::Desc => {},
            }
        }
        assert(orders_sql(d, columns) =~= Seq::new(
            columns.len(),
            |i: int| d.quoted_identifier(columns[i].column) + " "@ + if columns[i].direction == OrderDirection::Asc {
                "ASC"@
            } else {
                "DESC"@
            },
        ));
    } else {
        assert forall|j: int| k < j < ops.drop_last().len() implies !(#[trigger] ops.drop_last()[j] is Arrange) by {
            assert(ops.drop_last()[j] == ops[j]);
        }
        assert(ops.drop_last()[k] == ops[k]);
        lemma_last_arrange(d, ops.drop_last(), k, columns);
        assert(!(ops[ops.len() - 1] is Arrange));
        assert(apply_operation(d, p, ops.last()).order_by == p.order_by);
    }
}

/// The `ORDER BY` clause of a pipeline ends the query and lists every sort
/// key of its last `arrange`, in order: the quoted column and its direction.
pub proof fn law_order_by_lists_every_key<D: SqlDialect + ?Sized>(
    d: &D,
    node: SpecNode,
    k: int,
    columns: Seq<OrderExprOf<Seq<char>>>,
)
    requires
        node matches SpecNode::Pipeline { operations, .. } && 0 <= k < operations.len() && (
        operations[k] matches SpecOperation::Arrange { columns: c, .. } && c == columns) && forall|j: int|
            k < j < operations.len() ==> !(#[trigger] operations[j] is Arrange),
        columns.len() > 0,
    ensures
        exists|w: Seq<char>|
            generate_spec(d, node) == Ok::<Seq<char>, GenerationErrorOf<Seq<char>>>(
                w + "\nORDER BY "@ + sort_keys(d, columns),
            ),
{
    let ops = node->Pipeline_operations;
    lemma_last_arrange(d, ops, k, columns);
    reveal_strlit("ASC");
    reveal_strlit("DESC");
    let keys = Seq::new(
        columns.len(),
        |i: int| d.quoted_identifier(columns[i].column) + " "@ + if columns[i].direction == OrderDirection::Asc {
            "ASC"@
        } else {
            "DESC"@
        },
    );
    assert(keys.last().len() > 0);
    lemma_join_last(keys, ", "@);
    let p = apply_operations(d, empty_parts(), ops);
    lemma_query_split(d, p);
    let select = "SELECT "@ + if p.select_columns.len() == 0 {
        "*"@
    } else {
        join(p.select_columns, ", "@)
    };
    let from = select + "\nFROM "@ + d.quoted_identifier("data"@);
    let with_where = if p.where_clauses.len() == 0 {
        from
    } else {
        from + "\nWHERE "@ + join(p.where_clauses, " "@)
    };
    let w = if p.group_by.len() == 0 {
        with_where
    } else {
        with_where + "\nGROUP BY "@ + p.group_by
    };
    assert(assemble_sql(d, p) == w + "\nORDER BY "@ + sort_keys(d, columns));
}

/// The `WHERE` clause of a pipeline holds one condition per `filter`, in
/// order: the first as its condition's SQL, each later one as `AND (...)`,
/// separated by spaces; a new line or the end of the query follows it.
pub proof fn law_where_lists_every_filter<D: SqlDialect + ?Sized>(d: &D, node: SpecNode)
    requires
        node matches SpecNode::Pipeline { operations, .. } && filter_conditions(operations).len() > 0,
    ensures
        ({
            let conditions = filter_conditions(node->Pipeline_operations);
            exists|f: Seq<char>, t: Seq<char>|
                generate_spec(d, node) == Ok::<Seq<char>, GenerationErrorOf<Seq<char>>>(
                    f + "\nWHERE "@ + join(
                        Seq::new(conditions.len(), |i: int| where_condition(d, i, conditions[i])),
                        " "@,
                    ) + t,
                ) && (t.len() == 0 || t[0] == '\n')
        }),
{
    let ops = node->Pipeline_operations;
    let conditions = filter_conditions(ops);
    law_filters_conjoin(d, ops);
    let p = apply_operations(d, empty_parts(), ops);
    let cs = Seq::new(conditions.len(), |i: int| where_condition(d, i, conditions[i]));
    assert(p.where_clauses =~= cs);
    if ops.len() == 0 {
        assert(filter_conditions(ops).len() == 0);
    }
    let select = "SELECT "@ + if p.select_columns.len() == 0 {
        "*"@
    } else {
        join(p.select_columns, ", "@)
    };
    let f = select + "\nFROM "@ + d.quoted_identifier("data"@);
    let g = if p.group_by.len() == 0 {
        Seq::<char>::empty()
    } else {
        "\nGROUP BY "@ + p.group_by
    };
    let o = if p.order_by.len() == 0 {
        Seq::<char>::empty()
    } else {
        "\nORDER BY "@ + p.order_by
    };
    reveal_strlit("\nGROUP BY ");
    reveal_strlit("\nORDER BY ");
    let t = g + o;
    assert(assemble_sql(d, p) =~= f + "\nWHERE "@ + join(cs, " "@) + t);
    assert(t.len() == 0 || t[0] == '\n');
}

/// An operation that sets the select list: `select`, `summarise` or
/// `mutate`.
pub open spec fn sets_selection(op: SpecOperation) -> bool {
    op is Select || op is Summarise || op is Mutate
}

/// The select-list item of a column of `select`: its expression, with
/// ` AS alias` when it has an alias.
pub open spec fn selected_column<D: SqlDialect + ?Sized>(d: &D, c: SpecColumnExpr) -> Seq<char> {
    match c.alias {
        Some(a) => expr_sql(d, c.expr) + " AS "@ + d.quoted_identifier(a),
        None => expr_sql(d, c.expr),
    }
}

/// The select-list item of an aggregation: the dialect's name for its
/// function, applied to the quoted column (bare for `n()`), with
/// ` AS alias` when it has an alias.
pub open spec fn aggregate_column<D: SqlDialect + ?Sized>(d: &D, g: AggregationOf<Seq<char>>) -> Seq<char> {
    let call = if lower_text(g.function) == "n"@ {
        d.aggregate_name(g.function)
    } else {
        d.aggregate_name(g.function) + "("@ + d.quoted_identifier(g.column) + ")"@
    };
    match g.alias {
        Some(a) => call + " AS "@ + d.quoted_identifier(a),
        None => call,
    }
}

proof fn lemma_selection_kept<D: SqlDialect + ?Sized>(d: &D, ops: Seq<SpecOperation>, k: int)
    requires
        0 <= k < ops.len(),
        forall|j: int| k < j < ops.len() ==> !sets_selection(#[trigger] ops[j]),
    ensures
        apply_operations(d, empty_parts(), ops).select_columns == apply_operations(d, empty_parts(), ops.take(k + 1)).select_columns,
    decreases ops.len(),
{
    if k < ops.len() - 1 {
        assert forall|j: int| k < j < ops.drop_last().len() implies !sets_selection(#[trigger] ops.drop_last()[j]) by {
            assert(ops.drop_last()[j] == ops[j]);
        }
        lemma_selection_kept(d, ops.drop_last(), k);
        assert(ops.drop_last().take(k + 1) =~= ops.take(k + 1));
        assert(!sets_selection(ops[ops.len() - 1]));
    } else {
        assert(ops.take(k + 1) =~= ops);
    }
}

/// After the last `select` of a pipeline, when no `summarise` or `mutate`
/// follows it, the select list is exactly its columns, in order.
pub proof fn law_select_chooses_the_columns<D: SqlDialect + ?Sized>(
    d: &D,
    node: SpecNode,
    k: int,
    columns: Seq<SpecColumnExpr>,
)
    requires
        node matches SpecNode::Pipeline { operations, .. } && 0 <= k < operations.len() && (
        operations[k] matches SpecOperation::Select { columns: c, .. } && c == columns) && forall|j: int|
            k < j < operations.len() ==> !sets_selection(#[trigger] operations[j]),
    ensures
        exists|rest: Seq<char>|
            generate_spec(d, node) == Ok::<Seq<char>, GenerationErrorOf<Seq<char>>>(
                select_query(Seq::new(columns.len(), |i: int| selected_column(d, columns[i])), rest),
            ) && rest.len() > 0 && rest[0] == '\n',
{
    let ops = node->Pipeline_operations;
    lemma_selection_kept(d, ops, k);
    let pre = ops.take(k + 1);
    assert(pre.drop_last() =~= ops.take(k));
    assert(pre.last() == ops[k]);
    assert forall|i: int| 0 <= i < columns.len() implies columns_sql(d, columns)[i] == Seq::new(
        columns.len(),
        |i: int| selected_column(d, columns[i]),
    )[i] by {
        match columns[i].alias {
            Some(a) => {},
            None => {},
        }
    }
    assert(columns_sql(d, columns) =~= Seq::new(columns.len(), |i: int| selected_column(d, columns[i])));
    let p = apply_operations(d, empty_parts(), ops);
    lemma_query_split(d, p);
    reveal_strlit("\nFROM ");
    assert(query_tail(d, p)[0] == '\n');
}

/// After the last `summarise` of a pipeline, when no `select` or `mutate`
/// follows it, the select list is exactly its aggregations, in order.
pub proof fn law_summarise_selects_the_aggregates<D: SqlDialect + ?Sized>(
    d: &D,
    node: SpecNode,
    k: int,
    aggregations: Seq<AggregationOf<Seq<char>>>,
)
    requires
        node matches SpecNode::Pipeline { operations, .. } && 0 <= k < operations.len() && (
        operations[k] matches SpecOperation::Summarise { aggregations: g, .. } && g == aggregations) && forall|j: int|
            k < j < operations.len() ==> !sets_selection(#[trigger] operations[j]),
        forall|n: Seq<char>| #[trigger] d.quoted_identifier(n).len() > 0,
    ensures
        exists|rest: Seq<char>|
            generate_spec(d, node) == Ok::<Seq<char>, GenerationErrorOf<Seq<char>>>(
                select_query(Seq::new(aggregations.len(), |i: int| aggregate_column(d, aggregations[i])), rest),
            ) && rest.len() > 0 && rest[0] == '\n',
{
    let ops = node->Pipeline_operations;
    lemma_selection_kept(d, ops, k);
    let pre = ops.take(k + 1);
    assert(pre.drop_last() =~= ops.take(k));
    assert(pre.last() == ops[k]);
    assert forall|i: int| 0 <= i < aggregations.len() implies aggregations_sql(d, aggregations)[i] == Seq::new(
        aggregations.len(),
        |i: int| aggregate_column(d, aggregations[i]),
    )[i] by {
        assert(d.quoted_identifier(aggregations[i].column).len() > 0);
        match aggregations[i].alias {
            Some(a) => {},
            None => {},
        }
    }
    assert(aggregations_sql(d, aggregations) =~= Seq::new(aggregations.len(), |i: int| aggregate_column(d, aggregations[i])));
    let p = apply_operations(d, empty_parts(), ops);
    lemma_query_split(d, p);
    reveal_strlit("\nFROM ");
    assert(query_tail(d, p)[0] == '\n');
}

/// Each operator of an expression becomes the same SQL operator, spelled as
/// in dplyr, except that `==` becomes `=`, `&` becomes `AND` and `|` becomes
/// `OR`.
pub proof fn law_operators_keep_their_meaning(lvl: nat, t: SpecToken)
    ensures
        level_op(lvl, t) matches Some(op) ==> operator_sql(op) == match t {
            TokenOf::Equal => "="@,
            TokenOf::And => "AND"@,
            TokenOf::Or => "OR"@,
            _ => token_text(t),
        },
{
}

/// The clauses of a query come in SQL's order: the select list, `FROM` the
/// `data` table, the `WHERE` conditions of the filters, the `GROUP BY`
/// columns of the last `group_by`, and the `ORDER BY` keys of the last
/// `arrange`, each on a line of its own.
pub proof fn law_clauses_in_order<D: SqlDialect + ?Sized>(
    d: &D,
    node: SpecNode,
    kg: int,
    group_columns: Seq<Seq<char>>,
    ka: int,
    sort_columns: Seq<OrderExprOf<Seq<char>>>,
)
    requires
        node matches SpecNode::Pipeline { operations, .. } && filter_conditions(operations).len() > 0
            && 0 <= kg < operations.len() && (operations[kg] matches SpecOperation::GroupBy { columns: c, .. }
            && c == group_columns) && (forall|j: int| kg < j < operations.len() ==> !(#[trigger] operations[j] is GroupBy))
            && 0 <= ka < operations.len() && (operations[ka] matches SpecOperation::Arrange { columns: c, .. }
            && c == sort_columns) && (forall|j: int| ka < j < operations.len() ==> !(#[trigger] operations[j] is Arrange)),
        group_columns.len() > 0,
        sort_columns.len() > 0,
        forall|n: Seq<char>| #[trigger] d.quoted_identifier(n).len() > 0,
    ensures
        ({
            let conditions = filter_conditions(node->Pipeline_operations);
            exists|select_list: Seq<char>|
                generate_spec(d, node) == Ok::<Seq<char>, GenerationErrorOf<Seq<char>>>(
                    "SELECT "@ + select_list + "\nFROM "@ + d.quoted_identifier("data"@) + "\nWHERE "@ + join(
                        Seq::new(conditions.len(), |i: int| where_condition(d, i, conditions[i])),
                        " "@,
                    ) + "\nGROUP BY "@ + quoted_columns(d, group_columns) + "\nORDER BY "@ + sort_keys(d, sort_columns),
                )
        }),
{
    let ops = node->Pipeline_operations;
    let conditions = filter_conditions(ops);
    law_filters_conjoin(d, ops);
    lemma_last_group_by(d, ops, kg, group_columns);
    lemma_last_arrange(d, ops, ka, sort_columns);
    let p = apply_operations(d, empty_parts(), ops);
    let cs = Seq::new(conditions.len(), |i: int| where_condition(d, i, conditions[i]));
    assert(p.where_clauses =~= cs);
    let gparts = Seq::new(group_columns.len(), |i: int| d.quoted_identifier(group_columns[i]));
    assert(gparts.last().len() > 0);
    lemma_join_last(gparts, ", "@);
    reveal_strlit("ASC");
    reveal_strlit("DESC");
    let kparts = Seq::new(
        sort_columns.len(),
        |i: int| d.quoted_identifier(sort_columns[i].column) + " "@ + if sort_columns[i].direction == OrderDirection::Asc {
            "ASC"@
        } else {
            "DESC"@
        },
    );
    assert(kparts.last().len() > 0);
    lemma_join_last(kparts, ", "@);
    let select_list = if p.select_columns.len() == 0 {
        "*"@
    } else {
        join(p.select_columns, ", "@)
    };
    assert(assemble_sql(d, p) == "SELECT "@ + select_list + "\nFROM "@ + d.quoted_identifier("data"@) + "\nWHERE "@
        + join(cs, " "@) + "\nGROUP BY "@ + quoted_columns(d, group_columns) + "\nORDER BY "@ + sort_keys(d, sort_columns));
}

} // verus!
