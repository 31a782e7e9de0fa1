//! Source text without double quotes lexes to tokens without them, whose
//! identifiers are ASCII, and parses to an AST without them.

use crate::lexer::{
    canonical_number, dot_index, escape_char, ident_end, is_alpha, is_digit, is_ident_char,
    keyword_token, lex_from, lex_number, lex_step, number_end, scan_string, skip_ws,
    strip_leading_zeros, strip_trailing_zeros, token_text, SpecToken, TokenOf,
};
use crate::parser::{
    adv, expect, parse_source, progressed, spec_parse_aggregation, spec_parse_aggregation_tail,
    spec_parse_aggregations_rest, spec_parse_args_rest, spec_parse_arrange,
    spec_parse_assignment, spec_parse_assignments_rest, spec_parse_column_expr,
    spec_parse_columns_rest, spec_parse_expression, spec_parse_filter, spec_parse_group_by,
    spec_parse_group_rest, spec_parse_level, spec_parse_level_rest, spec_parse_mutate,
    spec_parse_operation, spec_parse_operations_rest, spec_parse_order_call,
    spec_parse_order_expr, spec_parse_orders_rest, spec_parse_pipeline, spec_parse_primary,
    spec_parse_select, spec_parse_summarise, spec_skip_newlines, tok, token_stream,
    AggregationOf, OrderDirection, OrderExprOf, SpecAssignment, SpecColumnExpr, SpecExpr,
    SpecNode, SpecOperation, TokenStream, level_op,
};
use crate::quoting::{
    aggregation_quote_free, assignment_quote_free, column_quote_free, expr_quote_free,
    exprs_quote_free, node_quote_free, operation_quote_free, quote_free,
};
use crate::text::{is_ascii_seq, is_ws};
use vstd::prelude::*;

verus! {

/// A token whose texts hold no double quote, and whose identifier is ASCII.
pub open spec fn token_quote_free(t: SpecToken) -> bool {
    match t {
        TokenOf::Identifier(n) => is_ascii_seq(n) && quote_free(n),
        TokenOf::String(v) => quote_free(v),
        TokenOf::Number(n) => quote_free(n),
        _ => true,
    }
}

proof fn lemma_sub_quote_free(s: Seq<char>, a: int, b: int)
    requires
        quote_free(s),
        0 <= a <= b <= s.len(),
    ensures
        quote_free(s.subrange(a, b)),
{
    assert forall|j: int| 0 <= j < b - a implies s.subrange(a, b)[j] != '"' by {
        assert(s.subrange(a, b)[j] == s[a + j]);
    }
}

proof fn lemma_push_quote_free(s: Seq<char>, c: char)
    requires
        quote_free(s),
        c != '"',
    ensures
        quote_free(s.push(c)),
{
    assert forall|j: int| 0 <= j < s.len() + 1 implies s.push(c)[j] != '"' by {
        if j < s.len() {
            assert(s.push(c)[j] == s[j]);
        }
    }
}

proof fn lemma_ident_run(s: Seq<char>, p: nat)
    requires
        p <= s.len(),
    ensures
        p <= ident_end(s, p) <= s.len(),
        forall|j: int| p <= j < ident_end(s, p) ==> is_ident_char(#[trigger] s[j]),
    decreases s.len() - p,
{
    if p < s.len() && is_ident_char(s[p as int]) {
        lemma_ident_run(s, p + 1);
    }
}

proof fn lemma_number_run(s: Seq<char>, p: nat)
    requires
        p <= s.len(),
    ensures
        p <= number_end(s, p) <= s.len(),
    decreases s.len() - p,
{
    if p < s.len() && crate::lexer::is_number_char(s[p as int]) {
        lemma_number_run(s, p + 1);
    }
}

proof fn lemma_skip_run(s: Seq<char>, p: nat)
    requires
        p <= s.len(),
    ensures
        p <= skip_ws(s, p) <= s.len(),
    decreases s.len() - p,
{
    if p < s.len() && is_ws(s[p as int]) && s[p as int] != '\n' {
        lemma_skip_run(s, p + 1);
    }
}

proof fn lemma_dot_index_bound(t: Seq<char>)
    ensures
        dot_index(t) <= t.len(),
    decreases t.len(),
{
    if t.len() > 0 && t[0] != '.' {
        lemma_dot_index_bound(t.drop_first());
    }
}

proof fn lemma_strip_leading_free(d: Seq<char>)
    requires
        quote_free(d),
    ensures
        quote_free(strip_leading_zeros(d)),
    decreases d.len(),
{
    if d.len() > 1 && d[0] == '0' {
        assert(d.drop_first() =~= d.subrange(1, d.len() as int));
        lemma_sub_quote_free(d, 1, d.len() as int);
        lemma_strip_leading_free(d.drop_first());
    }
}

proof fn lemma_strip_trailing_free(d: Seq<char>)
    requires
        quote_free(d),
    ensures
        quote_free(strip_trailing_zeros(d)),
    decreases d.len(),
{
    if d.len() > 0 && d.last() == '0' {
        assert(d.drop_last() =~= d.subrange(0, d.len() - 1));
        lemma_sub_quote_free(d, 0, d.len() - 1);
        lemma_strip_trailing_free(d.drop_last());
    }
}

proof fn lemma_canonical_free(t: Seq<char>)
    requires
        quote_free(t),
    ensures
        quote_free(canonical_number(t)),
{
    let k = dot_index(t);
    lemma_dot_index_bound(t);
    assert(t.take(k as int) =~= t.subrange(0, k as int));
    lemma_sub_quote_free(t, 0, k as int);
    lemma_strip_leading_free(t.take(k as int));
    let int_part = strip_leading_zeros(t.take(k as int));
    if k < t.len() {
        assert(t.skip(k + 1 as int) =~= t.subrange(k + 1 as int, t.len() as int));
        lemma_sub_quote_free(t, k + 1 as int, t.len() as int);
        lemma_strip_trailing_free(t.skip(k + 1 as int));
        let frac = strip_trailing_zeros(t.skip(k + 1 as int));
        lemma_push_quote_free(int_part, '.');
        assert(int_part + seq!['.'] == int_part.push('.'));
        crate::quoting::lemma_quote_free_concat(int_part.push('.'), frac);
    }
}

proof fn lemma_scan_free(s: Seq<char>, p: nat, quote: char, acc: Seq<char>)
    requires
        quote_free(s),
        quote_free(acc),
    ensures
        scan_string(s, p, quote, acc).0 matches Ok(t) ==> token_quote_free(t),
    decreases s.len() - p,
{
    if p >= s.len() {
    } else if s[p as int] == quote {
    } else if s[p as int] == '\\' {
        if p + 1 < s.len() {
            let c = s[p + 1 as int];
            assert(c != '"');
            lemma_push_quote_free(acc, escape_char(c));
            lemma_scan_free(s, p + 2, quote, acc.push(escape_char(c)));
        }
    } else {
        lemma_push_quote_free(acc, s[p as int]);
        lemma_scan_free(s, p + 1, quote, acc.push(s[p as int]));
    }
}

/// Each token read from text free of double quotes is free of them, and its
/// identifier is ASCII.
proof fn lemma_lex_step_free(s: Seq<char>, p: nat)
    requires
        quote_free(s),
        p <= s.len(),
    ensures
        lex_step(s, p).0 matches Ok(t) ==> token_quote_free(t),
{
    lemma_skip_run(s, p);
    let q = skip_ws(s, p);
    if q < s.len() {
        lemma_number_run(s, q);
        lemma_sub_quote_free(s, q as int, number_end(s, q) as int);
        lemma_canonical_free(s.subrange(q as int, number_end(s, q) as int));
        lemma_scan_free(s, q + 1, s[q as int], Seq::empty());
        lemma_ident_run(s, q);
        let e = ident_end(s, q);
        let w = s.subrange(q as int, e as int);
        lemma_sub_quote_free(s, q as int, e as int);
        assert forall|j: int| 0 <= j < w.len() implies crate::text::is_ascii_char(#[trigger] w[j]) by {
            assert(w[j] == s[q + j]);
            assert(is_ident_char(s[q + j]));
        }
        if keyword_token(w) is Identifier {
            assert(keyword_token(w) == TokenOf::<Seq<char>>::Identifier(w));
        }
    }
}

/// The tokens of text free of double quotes are free of them, with ASCII
/// identifiers.
pub proof fn lemma_lex_from_free(s: Seq<char>, p: nat)
    requires
        quote_free(s),
        p <= s.len(),
    ensures
        forall|k: int| 0 <= k < lex_from(s, p).0.len() ==> token_quote_free(#[trigger] lex_from(s, p).0[k]),
    decreases s.len() - p,
{
    lemma_lex_step_free(s, p);
    let (r, q) = lex_step(s, p);
    match r {
        Err(_) => {},
        Ok(t) => {
            if !(t is EOF || q <= p || q > s.len()) {
                lemma_lex_from_free(s, q);
                let ts = lex_from(s, q).0;
                assert forall|k: int| 0 <= k < (seq![t] + ts).len() implies token_quote_free(#[trigger] (seq![t] + ts)[k]) by {
                    if k > 0 {
                        assert((seq![t] + ts)[k] == ts[k - 1]);
                    }
                }
            }
        },
    }
}

// ===== Parsing keeps double quotes out =====

/// A token stream whose tokens are all free of double quotes.
pub open spec fn stream_quote_free(ts: TokenStream) -> bool {
    forall|k: int| 0 <= k < ts.toks.len() ==> token_quote_free(#[trigger] ts.toks[k])
}

proof fn lemma_tok_free(ts: TokenStream, i: nat)
    requires
        stream_quote_free(ts),
    ensures
        token_quote_free(tok(ts, i)),
{
    if i < ts.toks.len() {
        assert(token_quote_free(ts.toks[i as int]));
    }
}

proof fn lemma_exprs_push(args: Seq<SpecExpr>, a: SpecExpr)
    requires
        exprs_quote_free(args),
        expr_quote_free(a),
    ensures
        exprs_quote_free(args.push(a)),
{
    assert(args.push(a).drop_last() =~= args);
    assert(args.push(a).last() == a);
}

proof fn lemma_exprs_one(a: SpecExpr)
    requires
        expr_quote_free(a),
    ensures
        exprs_quote_free(seq![a]),
{
    assert(exprs_quote_free(Seq::<SpecExpr>::empty()));
    lemma_exprs_push(Seq::<SpecExpr>::empty(), a);
    assert(Seq::<SpecExpr>::empty().push(a) =~= seq![a]);
}

proof fn lemma_level_free(ts: TokenStream, lvl: nat, i: nat)
    requires
        stream_quote_free(ts),
    ensures
        spec_parse_level(ts, lvl, i) matches Ok((e, _m)) ==> expr_quote_free(e),
    decreases ts.toks.len() - i, if lvl < 6 { 7 - lvl } else { 1int },
{
    if lvl >= 6 {
        lemma_primary_free(ts, i);
    } else {
        lemma_level_free(ts, lvl + 1, i);
        match spec_parse_level(ts, lvl + 1, i) {
            Err(_) => {},
            Ok((left, j)) => if progressed(ts, i, j) {
                lemma_level_rest_free(ts, lvl, left, j);
            },
        }
    }
}

proof fn lemma_level_rest_free(ts: TokenStream, lvl: nat, left: SpecExpr, j: nat)
    requires
        stream_quote_free(ts),
        expr_quote_free(left),
    ensures
        spec_parse_level_rest(ts, lvl, left, j) matches Ok((e, _m)) ==> expr_quote_free(e),
    decreases ts.toks.len() - j, 0nat,
{
    match level_op(lvl, tok(ts, j)) {
        None => {},
        Some(op) => if lvl < 6 && j < ts.toks.len() {
            match adv(ts, j) {
                Err(_) => {},
                Ok(k) => {
                    lemma_level_free(ts, lvl + 1, k);
                    match spec_parse_level(ts, lvl + 1, k) {
                        Err(_) => {},
                        Ok((right, m)) => {
                            let e = SpecExpr::Binary { left: Box::new(left), operator: op, right: Box::new(right) };
                            assert(expr_quote_free(e));
                            if progressed(ts, j, m) {
                                lemma_level_rest_free(ts, lvl, e, m);
                            }
                        },
                    }
                },
            }
        },
    }
}

proof fn lemma_primary_free(ts: TokenStream, i: nat)
    requires
        stream_quote_free(ts),
    ensures
        spec_parse_primary(ts, i) matches Ok((e, _m)) ==> expr_quote_free(e),
    decreases ts.toks.len() - i, 0nat,
{
    if i < ts.toks.len() {
        lemma_tok_free(ts, i);
        match tok(ts, i) {
            TokenOf::Identifier(name) => match adv(ts, i) {
                Err(_) => {},
                Ok(j) => if tok(ts, j) is LeftParen && j < ts.toks.len() {
                    match adv(ts, j) {
                        Err(_) => {},
                        Ok(k) => {
                            if tok(ts, k) is RightParen {
                                assert(exprs_quote_free(Seq::<SpecExpr>::empty()));
                            } else {
                                lemma_level_free(ts, 0, k);
                                match spec_parse_level(ts, 0, k) {
                                    Err(_) => {},
                                    Ok((a, m)) => {
                                        lemma_exprs_one(a);
                                        if progressed(ts, i, m) {
                                            lemma_args_rest_free(ts, seq![a], m);
                                        }
                                    },
                                }
                            }
                        },
                    }
                },
            },
            TokenOf::LeftParen => match adv(ts, i) {
                Err(_) => {},
                Ok(j) => lemma_level_free(ts, 0, j),
            },
            _ => {},
        }
    }
}

proof fn lemma_args_rest_free(ts: TokenStream, args: Seq<SpecExpr>, j: nat)
    requires
        stream_quote_free(ts),
        exprs_quote_free(args),
    ensures
        spec_parse_args_rest(ts, args, j) matches Ok((r, _m)) ==> exprs_quote_free(r),
    decreases ts.toks.len() - j, 0nat,
{
    if tok(ts, j) is Comma && j < ts.toks.len() {
        match adv(ts, j) {
            Err(_) => {},
            Ok(k) => {
                lemma_level_free(ts, 0, k);
                match spec_parse_level(ts, 0, k) {
                    Err(_) => {},
                    Ok((a, m)) => {
                        lemma_exprs_push(args, a);
                        if progressed(ts, j, m) {
                            lemma_args_rest_free(ts, args.push(a), m);
                        }
                    },
                }
            },
        }
    }
}

proof fn lemma_column_free(ts: TokenStream, i: nat)
    requires
        stream_quote_free(ts),
    ensures
        spec_parse_column_expr(ts, i) matches Ok((c, _m)) ==> column_quote_free(c),
{
    lemma_tok_free(ts, i);
    match tok(ts, i) {
        TokenOf::Identifier(first) => match adv(ts, i) {
            Err(_) => {},
            Ok(j) => if tok(ts, j) is Assignment {
                match adv(ts, j) {
                    Err(_) => {},
                    Ok(k) => lemma_level_free(ts, 0, k),
                }
            } else if tok(ts, j) is LeftParen {
                match adv(ts, j) {
                    Err(_) => {},
                    Ok(k) => {
                        if tok(ts, k) is RightParen {
                            assert(exprs_quote_free(Seq::<SpecExpr>::empty()));
                        } else {
                            lemma_level_free(ts, 0, k);
                            match spec_parse_expression(ts, k) {
                                Err(_) => {},
                                Ok((a, m)) => {
                                    lemma_exprs_one(a);
                                    lemma_args_rest_free(ts, seq![a], m);
                                },
                            }
                        }
                    },
                }
            },
        },
        _ => lemma_level_free(ts, 0, i),
    }
}

proof fn lemma_assignment_free(ts: TokenStream, i: nat)
    requires
        stream_quote_free(ts),
    ensures
        spec_parse_assignment(ts, i) matches Ok((a, _m)) ==> assignment_quote_free(a),
{
    lemma_tok_free(ts, i);
    match tok(ts, i) {
        TokenOf::Identifier(column) => match adv(ts, i) {
            Err(_) => {},
            Ok(j) => match expect(ts, j, TokenOf::Assignment) {
                Err(_) => {},
                Ok(k) => lemma_level_free(ts, 0, k),
            },
        },
        _ => {},
    }
}

proof fn lemma_order_call_free(ts: TokenStream, i: nat, dir: OrderDirection)
    requires
        stream_quote_free(ts),
    ensures
        spec_parse_order_call(ts, i, dir) matches Ok((o, _m)) ==> quote_free(o.column),
{
    match adv(ts, i) {
        Err(_) => {},
        Ok(j) => match expect(ts, j, TokenOf::LeftParen) {
            Err(_) => {},
            Ok(k) => lemma_tok_free(ts, k),
        },
    }
}

proof fn lemma_order_free(ts: TokenStream, i: nat)
    requires
        stream_quote_free(ts),
    ensures
        spec_parse_order_expr(ts, i) matches Ok((o, _m)) ==> quote_free(o.column),
{
    lemma_tok_free(ts, i);
    lemma_order_call_free(ts, i, OrderDirection::Desc);
    lemma_order_call_free(ts, i, OrderDirection::Asc);
}

proof fn lemma_aggregation_tail_free(ts: TokenStream, n: nat, function: Seq<char>, alias: Option<Seq<char>>)
    requires
        stream_quote_free(ts),
        is_ascii_seq(function),
        quote_free(function),
        alias matches Some(a) ==> quote_free(a),
    ensures
        spec_parse_aggregation_tail(ts, n, function, alias) matches Ok((g, _m)) ==> aggregation_quote_free(g),
{
    lemma_tok_free(ts, n);
    assert(quote_free(Seq::<char>::empty()));
}

proof fn lemma_aggregation_free(ts: TokenStream, i: nat)
    requires
        stream_quote_free(ts),
    ensures
        spec_parse_aggregation(ts, i) matches Ok((g, _m)) ==> aggregation_quote_free(g),
{
    lemma_tok_free(ts, i);
    match tok(ts, i) {
        TokenOf::Identifier(first) => match adv(ts, i) {
            Err(_) => {},
            Ok(j) => if tok(ts, j) is Assignment {
                match adv(ts, j) {
                    Err(_) => {},
                    Ok(k) => {
                        lemma_tok_free(ts, k);
                        match tok(ts, k) {
                            TokenOf::Identifier(function) => match adv(ts, k) {
                                Err(_) => {},
                                Ok(m) => match expect(ts, m, TokenOf::LeftParen) {
                                    Err(_) => {},
                                    Ok(n) => lemma_aggregation_tail_free(ts, n, function, Some(first)),
                                },
                            },
                            _ => {},
                        }
                    },
                }
            } else {
                match expect(ts, j, TokenOf::LeftParen) {
                    Err(_) => {},
                    Ok(n) => lemma_aggregation_tail_free(ts, n, first, None),
                }
            },
        },
        _ => {},
    }
}

proof fn lemma_columns_rest_free(ts: TokenStream, items: Seq<SpecColumnExpr>, j: nat)
    requires
        stream_quote_free(ts),
        forall|x: int| 0 <= x < items.len() ==> column_quote_free(#[trigger] items[x]),
    ensures
        spec_parse_columns_rest(ts, items, j) matches Ok((r, _m))
            ==> forall|x: int| 0 <= x < r.len() ==> column_quote_free(#[trigger] r[x]),
    decreases ts.toks.len() - j,
{
    if tok(ts, j) is Comma {
        match adv(ts, j) {
            Err(_) => {},
            Ok(k) => {
                lemma_column_free(ts, k);
                match spec_parse_column_expr(ts, k) {
                    Err(_) => {},
                    Ok((c, m)) => {
                        assert forall|x: int| 0 <= x < items.push(c).len() implies column_quote_free(#[trigger] items.push(c)[x]) by {
                            if x < items.len() {
                                assert(items.push(c)[x] == items[x]);
                            }
                        }
                        if progressed(ts, j, m) {
                            lemma_columns_rest_free(ts, items.push(c), m);
                        }
                    },
                }
            },
        }
    }
}

proof fn lemma_assignments_rest_free(ts: TokenStream, items: Seq<SpecAssignment>, j: nat)
    requires
        stream_quote_free(ts),
        forall|x: int| 0 <= x < items.len() ==> assignment_quote_free(#[trigger] items[x]),
    ensures
        spec_parse_assignments_rest(ts, items, j) matches Ok((r, _m))
            ==> forall|x: int| 0 <= x < r.len() ==> assignment_quote_free(#[trigger] r[x]),
    decreases ts.toks.len() - j,
{
    if tok(ts, j) is Comma {
        match adv(ts, j) {
            Err(_) => {},
            Ok(k) => {
                lemma_assignment_free(ts, k);
                match spec_parse_assignment(ts, k) {
                    Err(_) => {},
                    Ok((c, m)) => {
                        assert forall|x: int| 0 <= x < items.push(c).len() implies assignment_quote_free(#[trigger] items.push(c)[x]) by {
                            if x < items.len() {
                                assert(items.push(c)[x] == items[x]);
                            }
                        }
                        if progressed(ts, j, m) {
                            lemma_assignments_rest_free(ts, items.push(c), m);
                        }
                    },
                }
            },
        }
    }
}

proof fn lemma_orders_rest_free(ts: TokenStream, items: Seq<OrderExprOf<Seq<char>>>, j: nat)
    requires
        stream_quote_free(ts),
        forall|x: int| 0 <= x < items.len() ==> quote_free(#[trigger] items[x].column),
    ensures
        spec_parse_orders_rest(ts, items, j) matches Ok((r, _m))
            ==> forall|x: int| 0 <= x < r.len() ==> quote_free(#[trigger] r[x].column),
    decreases ts.toks.len() - j,
{
    if tok(ts, j) is Comma {
        match adv(ts, j) {
            Err(_) => {},
            Ok(k) => {
                lemma_order_free(ts, k);
                match spec_parse_order_expr(ts, k) {
                    Err(_) => {},
                    Ok((c, m)) => {
                        assert forall|x: int| 0 <= x < items.push(c).len() implies quote_free(#[trigger] items.push(c)[x].column) by {
                            if x < items.len() {
                                assert(items.push(c)[x] == items[x]);
                            }
                        }
                        if progressed(ts, j, m) {
                            lemma_orders_rest_free(ts, items.push(c), m);
                        }
                    },
                }
            },
        }
    }
}

proof fn lemma_aggregations_rest_free(ts: TokenStream, items: Seq<AggregationOf<Seq<char>>>, j: nat)
    requires
        stream_quote_free(ts),
        forall|x: int| 0 <= x < items.len() ==> aggregation_quote_free(#[trigger] items[x]),
    ensures
        spec_parse_aggregations_rest(ts, items, j) matches Ok((r, _m))
            ==> forall|x: int| 0 <= x < r.len() ==> aggregation_quote_free(#[trigger] r[x]),
    decreases ts.toks.len() - j,
{
    if tok(ts, j) is Comma {
        match adv(ts, j) {
            Err(_) => {},
            Ok(k) => {
                lemma_aggregation_free(ts, k);
                match spec_parse_aggregation(ts, k) {
                    Err(_) => {},
                    Ok((c, m)) => {
                        assert forall|x: int| 0 <= x < items.push(c).len() implies aggregation_quote_free(#[trigger] items.push(c)[x]) by {
                            if x < items.len() {
                                assert(items.push(c)[x] == items[x]);
                            }
                        }
                        if progressed(ts, j, m) {
                            lemma_aggregations_rest_free(ts, items.push(c), m);
                        }
                    },
                }
            },
        }
    }
}

proof fn lemma_group_rest_free(ts: TokenStream, items: Seq<Seq<char>>, j: nat)
    requires
        stream_quote_free(ts),
        forall|x: int| 0 <= x < items.len() ==> quote_free(#[trigger] items[x]),
    ensures
        spec_parse_group_rest(ts, items, j) matches Ok((r, _m))
            ==> forall|x: int| 0 <= x < r.len() ==> quote_free(#[trigger] r[x]),
    decreases ts.toks.len() - j,
{
    if tok(ts, j) is Comma {
        match adv(ts, j) {
            Err(_) => {},
            Ok(k) => {
                lemma_tok_free(ts, k);
                match tok(ts, k) {
                    TokenOf::Identifier(name) => match adv(ts, k) {
                        Err(_) => {},
                        Ok(m) => {
                            assert forall|x: int| 0 <= x < items.push(name).len() implies quote_free(#[trigger] items.push(name)[x]) by {
                                if x < items.len() {
                                    assert(items.push(name)[x] == items[x]);
                                }
                            }
                            if progressed(ts, j, m) {
                                lemma_group_rest_free(ts, items.push(name), m);
                            }
                        },
                    },
                    _ => {},
                }
            },
        }
    }
}

proof fn lemma_select_free(ts: TokenStream, i: nat)
    requires
        stream_quote_free(ts),
    ensures
        spec_parse_select(ts, i) matches Ok((op, _m)) ==> operation_quote_free(op),
{
    match adv(ts, i) {
        Err(_) => {},
        Ok(j0) => match expect(ts, j0, TokenOf::LeftParen) {
            Err(_) => {},
            Ok(j) => {
                if !(tok(ts, j) is RightParen) {
                    lemma_column_free(ts, j);
                    match spec_parse_column_expr(ts, j) {
                        Err(_) => {},
                        Ok((c, k)) => {
                            assert forall|x: int| 0 <= x < seq![c].len() implies column_quote_free(#[trigger] seq![c][x]) by {}
                            lemma_columns_rest_free(ts, seq![c], k);
                        },
                    }
                }
            },
        },
    }
}

proof fn lemma_mutate_free(ts: TokenStream, i: nat)
    requires
        stream_quote_free(ts),
    ensures
        spec_parse_mutate(ts, i) matches Ok((op, _m)) ==> operation_quote_free(op),
{
    match adv(ts, i) {
        Err(_) => {},
        Ok(j0) => match expect(ts, j0, TokenOf::LeftParen) {
            Err(_) => {},
            Ok(j) => {
                if !(tok(ts, j) is RightParen) {
                    lemma_assignment_free(ts, j);
                    match spec_parse_assignment(ts, j) {
                        Err(_) => {},
                        Ok((c, k)) => {
                            assert forall|x: int| 0 <= x < seq![c].len() implies assignment_quote_free(#[trigger] seq![c][x]) by {}
                            lemma_assignments_rest_free(ts, seq![c], k);
                        },
                    }
                }
            },
        },
    }
}

proof fn lemma_arrange_free(ts: TokenStream, i: nat)
    requires
        stream_quote_free(ts),
    ensures
        spec_parse_arrange(ts, i) matches Ok((op, _m)) ==> operation_quote_free(op),
{
    match adv(ts, i) {
        Err(_) => {},
        Ok(j0) => match expect(ts, j0, TokenOf::LeftParen) {
            Err(_) => {},
            Ok(j) => {
                if !(tok(ts, j) is RightParen) {
                    lemma_order_free(ts, j);
                    match spec_parse_order_expr(ts, j) {
                        Err(_) => {},
                        Ok((c, k)) => {
                            assert forall|x: int| 0 <= x < seq![c].len() implies quote_free(#[trigger] seq![c][x].column) by {}
                            lemma_orders_rest_free(ts, seq![c], k);
                        },
                    }
                }
            },
        },
    }
}

proof fn lemma_summarise_free(ts: TokenStream, i: nat)
    requires
        stream_quote_free(ts),
    ensures
        spec_parse_summarise(ts, i) matches Ok((op, _m)) ==> operation_quote_free(op),
{
    match adv(ts, i) {
        Err(_) => {},
        Ok(j0) => match expect(ts, j0, TokenOf::LeftParen) {
            Err(_) => {},
            Ok(j) => {
                if !(tok(ts, j) is RightParen) {
                    lemma_aggregation_free(ts, j);
                    match spec_parse_aggregation(ts, j) {
                        Err(_) => {},
                        Ok((c, k)) => {
                            assert forall|x: int| 0 <= x < seq![c].len() implies aggregation_quote_free(#[trigger] seq![c][x]) by {}
                            lemma_aggregations_rest_free(ts, seq![c], k);
                        },
                    }
                }
            },
        },
    }
}

proof fn lemma_filter_free(ts: TokenStream, i: nat)
    requires
        stream_quote_free(ts),
    ensures
        spec_parse_filter(ts, i) matches Ok((op, _m)) ==> operation_quote_free(op),
{
    match adv(ts, i) {
        Err(_) => {},
        Ok(j0) => match expect(ts, j0, TokenOf::LeftParen) {
            Err(_) => {},
            Ok(j) => lemma_level_free(ts, 0, j),
        },
    }
}

proof fn lemma_group_by_free(ts: TokenStream, i: nat)
    requires
        stream_quote_free(ts),
    ensures
        spec_parse_group_by(ts, i) matches Ok((op, _m)) ==> operation_quote_free(op),
{
    match adv(ts, i) {
        Err(_) => {},
        Ok(j0) => match expect(ts, j0, TokenOf::LeftParen) {
            Err(_) => {},
            Ok(j) => {
                lemma_tok_free(ts, j);
                match tok(ts, j) {
                    TokenOf::Identifier(name) => match adv(ts, j) {
                        Err(_) => {},
                        Ok(k) => {
                            assert forall|x: int| 0 <= x < seq![name].len() implies quote_free(#[trigger] seq![name][x]) by {}
                            lemma_group_rest_free(ts, seq![name], k);
                        },
                    },
                    _ => {},
                }
            },
        },
    }
}

proof fn lemma_operation_free(ts: TokenStream, i: nat)
    requires
        stream_quote_free(ts),
    ensures
        spec_parse_operation(ts, i) matches Ok((op, _m)) ==> operation_quote_free(op),
{
    lemma_select_free(ts, i);
    lemma_filter_free(ts, i);
    lemma_mutate_free(ts, i);
    lemma_arrange_free(ts, i);
    lemma_group_by_free(ts, i);
    lemma_summarise_free(ts, i);
}

proof fn lemma_operations_rest_free(ts: TokenStream, ops: Seq<SpecOperation>, j: nat)
    requires
        stream_quote_free(ts),
        forall|x: int| 0 <= x < ops.len() ==> operation_quote_free(#[trigger] ops[x]),
    ensures
        spec_parse_operations_rest(ts, ops, j) matches Ok((r, _m))
            ==> forall|x: int| 0 <= x < r.len() ==> operation_quote_free(#[trigger] r[x]),
    decreases ts.toks.len() - j,
{
    if tok(ts, j) is Pipe {
        match adv(ts, j) {
            Err(_) => {},
            Ok(k0) => match spec_skip_newlines(ts, k0) {
                Err(_) => {},
                Ok(k) => {
                    lemma_operation_free(ts, k);
                    match spec_parse_operation(ts, k) {
                        Err(_) => {},
                        Ok((op, m)) => {
                            assert forall|x: int| 0 <= x < ops.push(op).len() implies operation_quote_free(#[trigger] ops.push(op)[x]) by {
                                if x < ops.len() {
                                    assert(ops.push(op)[x] == ops[x]);
                                }
                            }
                            if progressed(ts, j, m) {
                                lemma_operations_rest_free(ts, ops.push(op), m);
                            }
                        },
                    }
                },
            },
        }
    }
}

proof fn lemma_first_operations_free(ts: TokenStream, k: nat)
    requires
        stream_quote_free(ts),
    ensures
        spec_parse_operation(ts, k) matches Ok((op, m)) ==> (spec_parse_operations_rest(ts, seq![op], m) matches Ok((r, _n))
            ==> forall|x: int| 0 <= x < r.len() ==> operation_quote_free(#[trigger] r[x])),
{
    lemma_operation_free(ts, k);
    match spec_parse_operation(ts, k) {
        Err(_) => {},
        Ok((op, m)) => {
            assert forall|x: int| 0 <= x < seq![op].len() implies operation_quote_free(#[trigger] seq![op][x]) by {}
            lemma_operations_rest_free(ts, seq![op], m);
        },
    }
}

proof fn lemma_pipeline_free(ts: TokenStream)
    requires
        stream_quote_free(ts),
    ensures
        spec_parse_pipeline(ts) matches Ok(node) ==> node_quote_free(node),
{
    match spec_skip_newlines(ts, 0) {
        Err(_) => {},
        Ok(i) => {
            lemma_tok_free(ts, i);
            lemma_first_operations_free(ts, i);
            match adv(ts, i) {
                Err(_) => {},
                Ok(j0) => match spec_skip_newlines(ts, j0) {
                    Err(_) => {},
                    Ok(j) => match adv(ts, j) {
                        Err(_) => {},
                        Ok(k0) => match spec_skip_newlines(ts, k0) {
                            Err(_) => {},
                            Ok(k) => lemma_first_operations_free(ts, k),
                        },
                    },
                },
            }
        },
    }
}

/// Source text free of double quotes parses to an AST free of them, whose
/// function names are ASCII.
pub proof fn law_quote_free_code_parses_quote_free(code: Seq<char>)
    requires
        quote_free(code),
    ensures
        parse_source(code) matches Ok(node) ==> node_quote_free(node),
{
    lemma_lex_from_free(code, 0);
    let ts = token_stream(code);
    assert(stream_quote_free(ts));
    if ts.toks.len() > 0 {
        lemma_pipeline_free(ts);
    }
}

// ===== Tokens spell their source =====

/// An operator or punctuation token other than a line break.
pub open spec fn is_symbol(t: SpecToken) -> bool {
    ||| t is Pipe
    ||| t is ArrowRight
    ||| t is ArrowLeft
    ||| t is Assignment
    ||| t is Equal
    ||| t is NotEqual
    ||| t is LessThan
    ||| t is LessThanOrEqual
    ||| t is GreaterThan
    ||| t is GreaterThanOrEqual
    ||| t is And
    ||| t is Or
    ||| t is Plus
    ||| t is Minus
    ||| t is Multiply
    ||| t is Divide
    ||| t is LeftParen
    ||| t is RightParen
    ||| t is Comma
    ||| t is Dot
}

proof fn lemma_spelled_one(s: Seq<char>, i: int, lit: Seq<char>)
    requires
        0 <= i < s.len(),
        lit.len() == 1,
        s[i] == lit[0],
    ensures
        s.subrange(i, i + 1) == lit,
{
    assert(s.subrange(i, i + 1) =~= lit);
}

proof fn lemma_spelled_two(s: Seq<char>, i: int, lit: Seq<char>)
    requires
        0 <= i,
        i + 1 < s.len(),
        lit.len() == 2,
        s[i] == lit[0],
        s[i + 1] == lit[1],
    ensures
        s.subrange(i, i + 2) == lit,
{
    assert(s.subrange(i, i + 2) =~= lit);
}

proof fn lemma_scan_string_kind(s: Seq<char>, p: nat, quote: char, acc: Seq<char>)
    ensures
        scan_string(s, p, quote, acc).0 matches Ok(t) ==> t is String,
    decreases s.len() - p,
{
    if p < s.len() && s[p as int] != quote {
        if s[p as int] == '\\' {
            if p + 1 < s.len() {
                lemma_scan_string_kind(s, p + 2, quote, acc.push(escape_char(s[p + 1 as int])));
            }
        } else {
            lemma_scan_string_kind(s, p + 1, quote, acc.push(s[p as int]));
        }
    }
}

/// The token read at `p` is spelled in the source as its text, when it is an
/// operator, punctuation or identifier token.
pub open spec fn spelled_in_source(s: Seq<char>, p: nat) -> bool {
    lex_step(s, p).0 matches Ok(t) ==> (is_symbol(t) || t is Identifier) ==> s.subrange(
        skip_ws(s, p) as int,
        lex_step(s, p).1 as int,
    ) == token_text(t)
}

/// An operator, punctuation or identifier token is spelled in the source
/// exactly as its text: the characters it was read from, after the skipped
/// blanks, are the token's text.
pub proof fn law_tokens_spell_their_source(s: Seq<char>, p: nat)
    requires
        p <= s.len(),
    ensures
        spelled_in_source(s, p),
{
    lemma_skip_run(s, p);
    let q = skip_ws(s, p);
    if q < s.len() {
        lemma_ident_run(s, q);
        reveal_strlit("%>%");
        reveal_strlit("->");
        reveal_strlit("<-");
        reveal_strlit("=");
        reveal_strlit("==");
        reveal_strlit("!=");
        reveal_strlit("<");
        reveal_strlit("<=");
        reveal_strlit(">");
        reveal_strlit(">=");
        reveal_strlit("&");
        reveal_strlit("|");
        reveal_strlit("+");
        reveal_strlit("-");
        reveal_strlit("*");
        reveal_strlit("/");
        reveal_strlit("(");
        reveal_strlit(")");
        reveal_strlit(",");
        reveal_strlit(".");
        let w = s.subrange(q as int, ident_end(s, q) as int);
        if keyword_token(w) is Identifier {
            assert(keyword_token(w) == TokenOf::<Seq<char>>::Identifier(w));
        }
        let qi = q as int;
        let c = s[qi];
        let next = crate::lexer::char_at(s, q + 1);
        if c == '(' {
            lemma_spelled_one(s, qi, "("@);
            assert(spelled_in_source(s, p));
        } else if c == ')' {
            lemma_spelled_one(s, qi, ")"@);
            assert(spelled_in_source(s, p));
        } else if c == ',' {
            lemma_spelled_one(s, qi, ","@);
            assert(spelled_in_source(s, p));
        } else if c == '.' {
            lemma_spelled_one(s, qi, "."@);
            assert(spelled_in_source(s, p));
        } else if c == '+' {
            lemma_spelled_one(s, qi, "+"@);
            assert(spelled_in_source(s, p));
        } else if c == '-' {
            if next == Some('>') {
                lemma_spelled_two(s, qi, "->"@);
            assert(spelled_in_source(s, p));
            } else {
                lemma_spelled_one(s, qi, "-"@);
            assert(spelled_in_source(s, p));
            }
        } else if c == '*' {
            lemma_spelled_one(s, qi, "*"@);
            assert(spelled_in_source(s, p));
        } else if c == '/' {
            lemma_spelled_one(s, qi, "/"@);
            assert(spelled_in_source(s, p));
        } else if c == '=' {
            if next == Some('=') {
                lemma_spelled_two(s, qi, "=="@);
            assert(spelled_in_source(s, p));
            } else {
                lemma_spelled_one(s, qi, "="@);
            assert(spelled_in_source(s, p));
            }
        } else if c == '!' {
            if next == Some('=') {
                lemma_spelled_two(s, qi, "!="@);
            assert(spelled_in_source(s, p));
            }
        } else if c == '<' {
            if next == Some('-') {
                lemma_spelled_two(s, qi, "<-"@);
            assert(spelled_in_source(s, p));
            } else if next == Some('=') {
                lemma_spelled_two(s, qi, "<="@);
            assert(spelled_in_source(s, p));
            } else {
                lemma_spelled_one(s, qi, "<"@);
            assert(spelled_in_source(s, p));
            }
        } else if c == '>' {
            if next == Some('=') {
                lemma_spelled_two(s, qi, ">="@);
            assert(spelled_in_source(s, p));
            } else {
                lemma_spelled_one(s, qi, ">"@);
            assert(spelled_in_source(s, p));
            }
        } else if c == '&' {
            lemma_spelled_one(s, qi, "&"@);
            assert(spelled_in_source(s, p));
        } else if c == '|' {
            lemma_spelled_one(s, qi, "|"@);
            assert(spelled_in_source(s, p));
        } else if c == '%' {
            if next == Some('>') && crate::lexer::char_at(s, q + 2) == Some('%') {
                assert(s.subrange(qi, qi + 3) =~= "%>%"@);
                assert(spelled_in_source(s, p));
            }
        } else if c == '"' || c == '\'' {
            lemma_scan_string_kind(s, q + 1, c, Seq::empty());
            assert(spelled_in_source(s, p));
        } else if c == '\n' || is_digit(c) {
            assert(spelled_in_source(s, p));
        } else if is_alpha(c) || c == '_' {
            assert(lex_step(s, p) == (Ok::<SpecToken, crate::lexer::SpecLexError>(keyword_token(w)), ident_end(s, q)));
            assert(spelled_in_source(s, p));
        } else {
            assert(spelled_in_source(s, p));
        }
    }
}

} // verus!
