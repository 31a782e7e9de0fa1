//! Validation of dplyr syntax without SQL generation: the code is parsed,
//! its operations summarized, and limits on complexity and semantic rules
//! checked.

use crate::error::{LexErrorOf, ParseErrorOf, TranspileError, TranspileErrorOf};
use crate::parser::{
    operation_name_of, parse_source, DplyrNode, DplyrOperation, Expr, SpecExpr, SpecNode,
    SpecOperation,
};
use crate::error::{generation_message, lex_message, parse_message};
use crate::lexer::Lexer;
use crate::sql_generator::{assignment_columns, SqlDialect};
use crate::{law_parsed_code_converts, transpile_spec};
use crate::parser::Parser;
use crate::text::{
    chars_of, decimal, decimal_string, string_of_str, strings_view, trim, trim_chars,
};
use vstd::prelude::*;
use vstd::string::*;

verus! {

/// Errors of the validator itself.
#[derive(Debug)]
pub enum ValidationErrorOf<S> {
    ValidationFailed(S),
    InternalError(S),
}

/// A validator error as the validator hands it out.
pub type ValidationError = ValidationErrorOf<String>;

impl ValidationErrorOf<String> {
    /// The message of this error.
    pub fn to_string(&self) -> (r: String)
        ensures
            r@ == match self {
                ValidationErrorOf::ValidationFailed(s) => "Validation failed: "@ + s@,
                ValidationErrorOf::InternalError(s) => "Internal validation error: "@ + s@,
            },
    {
        match self {
            ValidationErrorOf::ValidationFailed(s) => {
                let mut r = string_of_str("Validation failed: ");
                r.append(s.as_str());
                r
            },
            ValidationErrorOf::InternalError(s) => {
                let mut r = string_of_str("Internal validation error: ");
                r.append(s.as_str());
                r
            },
        }
    }
}

/// Summary of a valid pipeline.
#[derive(Debug, Clone, PartialEq)]
pub struct ValidationSummary {
    pub operation_count: usize,
    pub operations: Vec<String>,
    pub column_count: usize,
    pub columns: Vec<String>,
    pub has_aggregation: bool,
    pub has_grouping: bool,
    pub complexity_score: u8,
}

/// Detailed information on a validation failure.
#[derive(Debug, Clone, PartialEq)]
pub struct ValidationErrorInfo {
    pub error_type: String,
    pub message: String,
    pub position: Option<usize>,
    pub context: Option<String>,
}

/// The view of a validation failure.
pub struct SpecErrorInfo {
    pub error_type: Seq<char>,
    pub message: Seq<char>,
    pub position: Option<usize>,
    pub context: Option<Seq<char>>,
}

/// The view of an optional string.
pub open spec fn opt_string_view(o: Option<String>) -> Option<Seq<char>> {
    match o {
        Some(s) => Some(s@),
        None => None,
    }
}

impl View for ValidationErrorInfo {
    type V = SpecErrorInfo;

    open spec fn view(&self) -> SpecErrorInfo {
        SpecErrorInfo {
            error_type: self.error_type@,
            message: self.message@,
            position: self.position,
            context: opt_string_view(self.context),
        }
    }
}

/// Validation outcome.
#[derive(Debug, Clone, PartialEq)]
pub enum ValidateResult {
    Valid { summary: ValidationSummary },
    Invalid { error: ValidationErrorInfo, suggestions: Vec<String> },
}

/// Configuration of validation.
#[derive(Debug, Clone, Copy)]
pub struct ValidationConfig {
    pub semantic_validation: bool,
    pub check_common_mistakes: bool,
    pub detailed_suggestions: bool,
    pub max_complexity: Option<u8>,
}

impl Default for ValidationConfig {
    fn default() -> (c: Self)
        ensures
            c.semantic_validation,
            c.check_common_mistakes,
            c.detailed_suggestions,
            c.max_complexity is None,
    {
        ValidationConfig {
            semantic_validation: true,
            check_common_mistakes: true,
            detailed_suggestions: true,
            max_complexity: None,
        }
    }
}

// ===== Specification of the analysis =====

/// The operations of a node: those of a pipeline, none for a data source.
pub open spec fn node_operations(n: SpecNode) -> Seq<SpecOperation> {
    match n {
        SpecNode::Pipeline { operations, .. } => operations,
        SpecNode::DataSource { .. } => Seq::empty(),
    }
}

/// How much an operation adds to the complexity score.
pub open spec fn operation_weight(op: SpecOperation) -> nat {
    match op {
        SpecOperation::Select { .. } => 1,
        SpecOperation::Filter { .. } => 2,
        SpecOperation::Mutate { .. } => 2,
        SpecOperation::Arrange { .. } => 1,
        SpecOperation::GroupBy { .. } => 2,
        SpecOperation::Summarise { .. } => 3,
    }
}

/// The summed weights of the operations.
pub open spec fn complexity_sum(ops: Seq<SpecOperation>) -> nat
    decreases ops.len(),
{
    if ops.len() == 0 {
        0
    } else {
        complexity_sum(ops.drop_last()) + operation_weight(ops.last())
    }
}

/// The complexity score: the summed weights, capped at 10.
pub open spec fn complexity_score(ops: Seq<SpecOperation>) -> u8 {
    if complexity_sum(ops) > 10 {
        10
    } else {
        complexity_sum(ops) as u8
    }
}

/// The column names an operation mentions: select's plain identifiers and
/// aliases, the columns mutate defines, the sort and grouping columns, and
/// the aggregated columns and aliases of summarise.
pub open spec fn operation_columns(op: SpecOperation) -> Seq<Seq<char>> {
    match op {
        SpecOperation::Select { columns, .. } => select_columns(columns),
        SpecOperation::Filter { .. } => Seq::empty(),
        SpecOperation::Mutate { assignments, .. } => assignment_columns(assignments),
        SpecOperation::Arrange { columns, .. } => order_columns(columns),
        SpecOperation::GroupBy { columns, .. } => columns,
        SpecOperation::Summarise { aggregations, .. } => aggregation_columns(aggregations),
    }
}

/// The sort columns of an `arrange`, in order.
pub open spec fn order_columns(os: Seq<crate::parser::OrderExprOf<Seq<char>>>) -> Seq<Seq<char>> {
    os.map_values(|o: crate::parser::OrderExprOf<Seq<char>>| o.column)
}

/// Select's plain identifiers and aliases, in order.
pub open spec fn select_columns(cs: Seq<crate::parser::SpecColumnExpr>) -> Seq<Seq<char>>
    decreases cs.len(),
{
    if cs.len() == 0 {
        Seq::empty()
    } else {
        let c = cs.last();
        let names = match c.expr {
            SpecExpr::Identifier(n) => seq![n],
            _ => Seq::empty(),
        };
        let aliases = match c.alias {
            Some(a) => seq![a],
            None => Seq::empty(),
        };
        select_columns(cs.drop_last()) + names + aliases
    }
}

/// Summarise's aggregated columns and aliases, in order.
pub open spec fn aggregation_columns(ags: Seq<crate::parser::AggregationOf<Seq<char>>>) -> Seq<Seq<char>>
    decreases ags.len(),
{
    if ags.len() == 0 {
        Seq::empty()
    } else {
        let a = ags.last();
        let aliases = match a.alias {
            Some(x) => seq![x],
            None => Seq::empty(),
        };
        aggregation_columns(ags.drop_last()) + seq![a.column] + aliases
    }
}

/// The columns all operations mention, in order.
pub open spec fn all_columns(ops: Seq<SpecOperation>) -> Seq<Seq<char>>
    decreases ops.len(),
{
    if ops.len() == 0 {
        Seq::empty()
    } else {
        all_columns(ops.drop_last()) + operation_columns(ops.last())
    }
}

/// Some operation is a `summarise`.
pub open spec fn uses_aggregation(ops: Seq<SpecOperation>) -> bool {
    exists|i: int| 0 <= i < ops.len() && #[trigger] ops[i] is Summarise
}

/// Some operation is a `group_by`.
pub open spec fn uses_grouping(ops: Seq<SpecOperation>) -> bool {
    exists|i: int| 0 <= i < ops.len() && #[trigger] ops[i] is GroupBy
}

/// The names of the operations, in order.
pub open spec fn operation_names(ops: Seq<SpecOperation>) -> Seq<Seq<char>> {
    ops.map_values(|o: SpecOperation| operation_name_of(o))
}

/// `summary` describes the operations `ops`: their count and names in
/// order, the distinct columns they mention (each once, in some order),
/// whether they aggregate or group, and the capped complexity score.
pub open spec fn summarizes(summary: ValidationSummary, ops: Seq<SpecOperation>) -> bool {
    &&& summary.operation_count == ops.len()
    &&& strings_view(summary.operations@) == operation_names(ops)
    &&& strings_view(summary.columns@).no_duplicates()
    &&& strings_view(summary.columns@).to_set() == all_columns(ops).to_set()
    &&& summary.column_count == summary.columns@.len()
    &&& summary.has_aggregation == uses_aggregation(ops)
    &&& summary.has_grouping == uses_grouping(ops)
    &&& summary.complexity_score == complexity_score(ops)
}

/// A validation failure from its parts.
pub open spec fn failure(error_type: Seq<char>, message: Seq<char>, position: Option<usize>, context: Option<Seq<char>>) -> SpecErrorInfo {
    SpecErrorInfo { error_type, message, position, context }
}

/// The validation outcome without the summary of a valid result.
pub enum SpecOutcome {
    Valid,
    Invalid { error: SpecErrorInfo, suggestions: Seq<Seq<char>> },
}

/// The failure for empty input.
pub open spec fn empty_input_outcome() -> SpecOutcome {
    SpecOutcome::Invalid {
        error: failure("input"@, "Empty input provided"@, Some(0), None),
        suggestions: seq!["Provide valid dplyr code"@, "Example: data %>% select(name, age)"@],
    }
}

/// The failure for a score above the configured maximum.
pub open spec fn complexity_limit_outcome(score: u8, max: u8) -> SpecOutcome {
    SpecOutcome::Invalid {
        error: failure(
            "complexity"@,
            "Query complexity ("@ + decimal(score as nat) + ") exceeds maximum allowed ("@
                + decimal(max as nat) + ")"@,
            None,
            None,
        ),
        suggestions: seq![
            "Simplify the query by breaking it into smaller parts"@,
            "Reduce the number of operations in the pipeline"@,
        ],
    }
}

/// The semantic issue of a summary with these facts, if any: aggregation
/// without grouping in a pipeline of more than two operations, or a score
/// above 8.
pub open spec fn summary_issue(aggregates: bool, groups: bool, count: nat, score: u8) -> Option<SpecErrorInfo> {
    if aggregates && !groups && count > 2 {
        Some(failure(
            "semantic"@,
            "Using aggregation functions without GROUP BY in complex query may produce unexpected results"@,
            None,
            Some("Consider adding group_by() before summarise()"@),
        ))
    } else if score > 8 {
        Some(failure(
            "complexity"@,
            "Query complexity is very high ("@ + decimal(score as nat) + ")"@,
            None,
            Some("Consider breaking the query into smaller parts"@),
        ))
    } else {
        None
    }
}

/// The semantic issue of a list of operations, if any.
pub open spec fn semantic_issue(ops: Seq<SpecOperation>) -> Option<SpecErrorInfo> {
    summary_issue(uses_aggregation(ops), uses_grouping(ops), ops.len(), complexity_score(ops))
}

/// The suggestions for a semantic failure of type `error_type`.
pub open spec fn semantic_suggestions(error_type: Seq<char>) -> Seq<Seq<char>> {
    if error_type == "semantic"@ {
        seq!["Consider adding group_by() before summarise()"@, "Review the logical flow of your operations"@]
    } else if error_type == "complexity"@ {
        seq![
            "Break the query into smaller, simpler parts"@,
            "Use intermediate variables to store partial results"@,
            "Consider if all operations are necessary"@,
        ]
    } else {
        seq!["Review the query structure"@]
    }
}

/// The failure information of a conversion error.
pub open spec fn error_info_of(e: TranspileErrorOf<Seq<char>>) -> SpecErrorInfo {
    match e {
        TranspileErrorOf::LexError(l) => failure("lex"@, lex_message(l), None, None),
        TranspileErrorOf::ParseError(p) => failure("parse"@, parse_message(p), None, None),
        TranspileErrorOf::GenerationError(g) => failure("generation"@, generation_message(g), None, None),
        TranspileErrorOf::IoError(s) => failure("io"@, s, None, None),
        TranspileErrorOf::ValidationError(s) => failure("validation"@, s, None, None),
        TranspileErrorOf::ConfigurationError(s) => failure("configuration"@, s, None, None),
        TranspileErrorOf::SystemError(s) => failure("system"@, s, None, None),
    }
}

/// The suggestions for a conversion error.
pub open spec fn error_suggestions(e: TranspileErrorOf<Seq<char>>) -> Seq<Seq<char>> {
    match e {
        TranspileErrorOf::LexError(_) => seq![
            "Check for invalid characters or malformed strings"@,
            "Ensure proper quoting of string literals"@,
            "Remove any non-ASCII characters"@,
        ],
        TranspileErrorOf::ParseError(_) => seq![
            "Check dplyr function syntax and arguments"@,
            "Ensure proper use of pipe operator (%>%)"@,
            "Verify function names are spelled correctly"@,
            "Check parentheses and comma placement"@,
        ],
        TranspileErrorOf::GenerationError(_) => seq![
            "This error shouldn't occur during validation-only mode"@,
        ],
        TranspileErrorOf::IoError(_) => seq![
            "Check file permissions and paths"@,
            "Ensure input/output resources are available"@,
        ],
        TranspileErrorOf::ValidationError(_) => seq![
            "Check dplyr syntax and function usage"@,
            "Verify all required arguments are provided"@,
        ],
        TranspileErrorOf::ConfigurationError(_) => seq![
            "Check configuration settings"@,
            "Verify all required options are provided"@,
        ],
        TranspileErrorOf::SystemError(_) => seq![
            "Check system permissions and resources"@,
            "Verify signal handling or pipeline configuration"@,
        ],
    }
}

/// What validating `code` concludes under `config`: empty input, a parsing
/// failure, a complexity above the maximum, a semantic issue (when semantic
/// validation is on), or validity.
pub open spec fn validate_outcome(config: ValidationConfig, code: Seq<char>) -> SpecOutcome {
    if trim(code).len() == 0 {
        empty_input_outcome()
    } else {
        match parse_source(code) {
            Err(e) => SpecOutcome::Invalid {
                error: error_info_of(TranspileErrorOf::ParseError(e)),
                suggestions: error_suggestions(TranspileErrorOf::ParseError(e)),
            },
            Ok(node) => {
                let ops = node_operations(node);
                let score = complexity_score(ops);
                if config.max_complexity is Some && score > config.max_complexity->0 {
                    complexity_limit_outcome(score, config.max_complexity->0)
                } else if config.semantic_validation && semantic_issue(ops) is Some {
                    SpecOutcome::Invalid {
                        error: semantic_issue(ops)->0,
                        suggestions: semantic_suggestions(semantic_issue(ops)->0.error_type),
                    }
                } else {
                    SpecOutcome::Valid
                }
            },
        }
    }
}

/// Validation accepts only code that is not blank and parses; with semantic
/// checks off and no complexity limit it accepts all such code.
pub proof fn law_validation_accepts_parsable_code(config: ValidationConfig, code: Seq<char>)
    ensures
        validate_outcome(config, code) is Valid ==> trim(code).len() > 0 && parse_source(code) is Ok,
        (config.max_complexity is None && !config.semantic_validation) ==> (validate_outcome(config, code) is Valid
            <==> (trim(code).len() > 0 && parse_source(code) is Ok)),
{
}

/// Code that validation accepts converts to SQL in every dialect.
pub proof fn law_valid_code_converts<D: SqlDialect + ?Sized>(d: &D, config: ValidationConfig, code: Seq<char>)
    requires
        validate_outcome(config, code) is Valid,
    ensures
        transpile_spec(d, code) is Ok,
{
    law_validation_accepts_parsable_code(config, code);
    law_parsed_code_converts(d, code);
}

/// The complexity score never exceeds 10, so a limit of 10 or more changes
/// no outcome of validation.
pub proof fn law_complexity_score_is_capped(ops: Seq<SpecOperation>, code: Seq<char>, config: ValidationConfig)
    ensures
        complexity_score(ops) <= 10,
        (config.max_complexity matches Some(m) && m >= 10) ==> validate_outcome(config, code)
            == validate_outcome(
            ValidationConfig {
                semantic_validation: config.semantic_validation,
                check_common_mistakes: config.check_common_mistakes,
                detailed_suggestions: config.detailed_suggestions,
                max_complexity: None,
            },
            code,
        ),
{
}

/// `r` is the outcome `o`; a valid result's summary describes the parsed
/// operations of `code`.
pub open spec fn result_matches(r: ValidateResult, o: SpecOutcome, code: Seq<char>) -> bool {
    match (r, o) {
        (ValidateResult::Valid { summary }, SpecOutcome::Valid) => parse_source(code) is Ok
            && summarizes(summary, node_operations(parse_source(code)->Ok_0)),
        (ValidateResult::Invalid { error, suggestions }, SpecOutcome::Invalid { error: e, suggestions: s }) => error@
            == e && strings_view(suggestions@) == s,
        _ => false,
    }
}

// ===== The validator =====

/// The set of a concatenation is the union of the sets.
proof fn lemma_to_set_add(a: Seq<Seq<char>>, b: Seq<Seq<char>>)
    ensures
        (a + b).to_set() == a.to_set().union(b.to_set()),
{
    assert forall|x: Seq<char>| (a + b).to_set().contains(x) == a.to_set().union(b.to_set()).contains(x) by {
        if (a + b).contains(x) {
            let i = choose|i: int| 0 <= i < (a + b).len() && (a + b)[i] == x;
            if i < a.len() {
                assert(a[i] == x);
            } else {
                assert(b[i - a.len()] == x);
            }
        }
        if a.contains(x) {
            let i = choose|i: int| 0 <= i < a.len() && a[i] == x;
            assert((a + b)[i] == x);
        }
        if b.contains(x) {
            let i = choose|i: int| 0 <= i < b.len() && b[i] == x;
            assert((a + b)[a.len() + i] == x);
        }
    }
    assert((a + b).to_set() =~= a.to_set().union(b.to_set()));
}

/// Adds `name` to the distinct names `v` unless it is there already.
fn insert_column(v: &mut Vec<String>, name: &String)
    requires
        strings_view(old(v)@).no_duplicates(),
    ensures
        strings_view(final(v)@).no_duplicates(),
        strings_view(final(v)@).to_set() == strings_view(old(v)@).to_set().insert(name@),
{
    let ghost before = strings_view(v@);
    let mut i: usize = 0;
    while i < v.len()
        invariant
            i <= v.len(),
            before == strings_view(v@),
            before.no_duplicates(),
            forall|j: int| 0 <= j < i ==> before[j] != name@,
        decreases v.len() - i,
    {
        if v[i] == *name {
            assert(before[i as int] == name@);
            assert(before.to_set().insert(name@) =~= before.to_set());
            return;
        }
        i = i + 1;
    }
    v.push(name.clone());
    assert(strings_view(v@) =~= before.push(name@));
    assert(before.push(name@).to_set() =~= before.to_set().insert(name@)) by {
        assert forall|x: Seq<char>| before.push(name@).contains(x) == before.to_set().insert(name@).contains(x) by {
            if before.push(name@).contains(x) {
                let k = choose|k: int| 0 <= k < before.push(name@).len() && before.push(name@)[k] == x;
                if k < before.len() {
                    assert(before[k] == x);
                }
            }
            if before.contains(x) {
                let k = choose|k: int| 0 <= k < before.len() && before[k] == x;
                assert(before.push(name@)[k] == x);
            }
            if x == name@ {
                assert(before.push(name@)[before.len() as int] == x);
            }
        }
    }
}

/// Adds each of `names` to the distinct names `v`.
fn insert_columns(v: &mut Vec<String>, names: &Vec<String>)
    requires
        strings_view(old(v)@).no_duplicates(),
    ensures
        strings_view(final(v)@).no_duplicates(),
        strings_view(final(v)@).to_set() == strings_view(old(v)@).to_set().union(strings_view(names@).to_set()),
{
    let ghost start = strings_view(v@).to_set();
    let ghost ns = strings_view(names@);
    let mut i: usize = 0;
    assert(ns.take(0).to_set() =~= Set::<Seq<char>>::empty());
    assert(start.union(Set::<Seq<char>>::empty()) =~= start);
    while i < names.len()
        invariant
            i <= names.len(),
            ns == strings_view(names@),
            strings_view(v@).no_duplicates(),
            strings_view(v@).to_set() == start.union(ns.take(i as int).to_set()),
        decreases names.len() - i,
    {
        insert_column(v, &names[i]);
        proof {
            assert(ns.take(i as int + 1) =~= ns.take(i as int) + seq![ns[i as int]]);
            lemma_to_set_add(ns.take(i as int), seq![ns[i as int]]);
            assert(seq![ns[i as int]].to_set() =~= Set::<Seq<char>>::empty().insert(ns[i as int])) by {
                assert forall|x: Seq<char>| seq![ns[i as int]].contains(x) == (x == ns[i as int]) by {
                    if x == ns[i as int] {
                        assert(seq![ns[i as int]][0] == x);
                    }
                }
            }
            assert(start.union(ns.take(i as int + 1).to_set()) =~= start.union(ns.take(i as int).to_set()).insert(
                ns[i as int],
            ));
        }
        i = i + 1;
    }
    assert(ns.take(names.len() as int) =~= ns);
}

/// The columns an operation mentions, in order.
fn operation_column_list(op: &DplyrOperation) -> (r: Vec<String>)
    ensures
        strings_view(r@) == operation_columns(op@),
{
    let mut out: Vec<String> = Vec::new();
    match op {
        DplyrOperation::Select { columns, .. } => {
            let ghost cs = crate::parser::columns_view(columns@);
            let mut i: usize = 0;
            assert(cs.take(0) =~= Seq::<crate::parser::SpecColumnExpr>::empty());
            while i < columns.len()
                invariant
                    i <= columns.len(),
                    cs == crate::parser::columns_view(columns@),
                    strings_view(out@) == select_columns(cs.take(i as int)),
                decreases columns.len() - i,
            {
                let ghost before = strings_view(out@);
                let col = &columns[i];
                match &col.expr {
                    Expr::Identifier(name) => {
                        out.push(name.clone());
                    },
                    _ => {},
                }
                let ghost mid = strings_view(out@);
                match &col.alias {
                    Some(a) => {
                        out.push(a.clone());
                    },
                    None => {},
                }
                proof {
                    assert(cs.take(i as int + 1).drop_last() =~= cs.take(i as int));
                    let c = cs[i as int];
                    let names = match c.expr {
                        SpecExpr::Identifier(n) => seq![n],
                        _ => Seq::empty(),
                    };
                    let aliases = match c.alias {
                        Some(a) => seq![a],
                        None => Seq::empty(),
                    };
                    assert(mid =~= before + names);
                    assert(strings_view(out@) =~= before + names + aliases);
                }
                i = i + 1;
            }
            assert(cs.take(columns.len() as int) =~= cs);
        },
        DplyrOperation::Filter { .. } => {
            assert(strings_view(out@) =~= Seq::<Seq<char>>::empty());
        },
        DplyrOperation::Mutate { assignments, .. } => {
            let ghost sa = crate::parser::assignments_view(assignments@);
            let mut i: usize = 0;
            assert(assignment_columns(sa.take(0)) =~= Seq::<Seq<char>>::empty());
            while i < assignments.len()
                invariant
                    i <= assignments.len(),
                    sa == crate::parser::assignments_view(assignments@),
                    strings_view(out@) == assignment_columns(sa.take(i as int)),
                decreases assignments.len() - i,
            {
                let ghost before = strings_view(out@);
                out.push(assignments[i].column.clone());
                assert(strings_view(out@) =~= before.push(sa[i as int].column));
                assert(assignment_columns(sa.take(i as int + 1)) =~= assignment_columns(sa.take(i as int)).push(
                    sa[i as int].column,
                ));
                i = i + 1;
            }
            assert(sa.take(assignments.len() as int) =~= sa);
        },
        DplyrOperation::Arrange { columns, .. } => {
            let ghost os = crate::parser::orders_view(columns@);
            let mut i: usize = 0;
            assert(order_columns(os.take(0)) =~= Seq::<Seq<char>>::empty());
            while i < columns.len()
                invariant
                    i <= columns.len(),
                    os == crate::parser::orders_view(columns@),
                    strings_view(out@) == order_columns(os.take(i as int)),
                decreases columns.len() - i,
            {
                let ghost before = strings_view(out@);
                out.push(columns[i].column.clone());
                assert(strings_view(out@) =~= before.push(os[i as int].column));
                assert(order_columns(os.take(i as int + 1)) =~= order_columns(os.take(i as int)).push(
                    os[i as int].column,
                ));
                i = i + 1;
            }
            assert(os.take(columns.len() as int) =~= os);
        },
        DplyrOperation::GroupBy { columns, .. } => {
            let mut i: usize = 0;
            while i < columns.len()
                invariant
                    i <= columns.len(),
                    strings_view(out@) == strings_view(columns@).take(i as int),
                decreases columns.len() - i,
            {
                let ghost before = strings_view(out@);
                let c = columns[i].clone();
                let ghost cv = c@;
                out.push(c);
                assert(strings_view(out@) =~= before.push(cv));
                assert(cv == strings_view(columns@)[i as int]);
                assert(strings_view(out@) =~= strings_view(columns@).take(i as int + 1));
                i = i + 1;
            }
            assert(strings_view(columns@).take(columns.len() as int) =~= strings_view(columns@));
        },
        DplyrOperation::Summarise { aggregations, .. } => {
            let ghost ags = crate::parser::aggregations_view(aggregations@);
            let mut i: usize = 0;
            assert(ags.take(0) =~= Seq::<crate::parser::AggregationOf<Seq<char>>>::empty());
            while i < aggregations.len()
                invariant
                    i <= aggregations.len(),
                    ags == crate::parser::aggregations_view(aggregations@),
                    strings_view(out@) == aggregation_columns(ags.take(i as int)),
                decreases aggregations.len() - i,
            {
                let ghost before = strings_view(out@);
                let agg = &aggregations[i];
                out.push(agg.column.clone());
                let ghost mid = strings_view(out@);
                match &agg.alias {
                    Some(a) => {
                        out.push(a.clone());
                    },
                    None => {},
                }
                proof {
                    assert(ags.take(i as int + 1).drop_last() =~= ags.take(i as int));
                    let a = ags[i as int];
                    let aliases = match a.alias {
                        Some(x) => seq![x],
                        None => Seq::empty(),
                    };
                    assert(mid =~= before + seq![a.column]);
                    assert(strings_view(out@) =~= before + seq![a.column] + aliases);
                }
                i = i + 1;
            }
            assert(ags.take(aggregations.len() as int) =~= ags);
        },
    }
    out
}

/// The complexity weight of an operation.
fn operation_weight_exec(op: &DplyrOperation) -> (w: u8)
    ensures
        w as nat == operation_weight(op@),
{
    match op {
        DplyrOperation::Select { .. } => 1,
        DplyrOperation::Filter { .. } => 2,
        DplyrOperation::Mutate { .. } => 2,
        DplyrOperation::Arrange { .. } => 1,
        DplyrOperation::GroupBy { .. } => 2,
        DplyrOperation::Summarise { .. } => 3,
    }
}

/// Dplyr syntax validator.
#[derive(Debug)]
pub struct DplyrValidator {
    pub config: ValidationConfig,
}

impl DplyrValidator {
    /// A validator with the default configuration.
    pub fn new() -> (v: Self)
        ensures
            v.config.semantic_validation,
            v.config.check_common_mistakes,
            v.config.detailed_suggestions,
            v.config.max_complexity is None,
    {
        DplyrValidator { config: ValidationConfig::default() }
    }

    /// A validator with a custom configuration.
    pub fn with_config(config: ValidationConfig) -> (v: Self)
        ensures
            v.config == config,
    {
        DplyrValidator { config }
    }

    /// Validates dplyr syntax.
    #[verifier::rlimit(100)]
    #[verifier::spinoff_prover]
    pub fn validate(&self, dplyr_code: &str) -> (r: Result<ValidateResult, ValidationError>)
        ensures
            (r matches Ok(v) && result_matches(v, validate_outcome(self.config, dplyr_code@), dplyr_code@)),
    {
        let v = chars_of(dplyr_code);
        let t = trim_chars(&v);
        if t.len() == 0 {
            let mut suggestions: Vec<String> = Vec::new();
            suggestions.push(string_of_str("Provide valid dplyr code"));
            suggestions.push(string_of_str("Example: data %>% select(name, age)"));
            let error = ValidationErrorInfo {
                error_type: string_of_str("input"),
                message: string_of_str("Empty input provided"),
                position: Some(0),
                context: None,
            };
            assert(strings_view(suggestions@) =~= seq!["Provide valid dplyr code"@, "Example: data %>% select(name, age)"@]);
            return Ok(ValidateResult::Invalid { error, suggestions });
        }
        match self.parse_syntax(dplyr_code) {
            Ok(ast) => {
                let summary = match self.analyze_ast(&ast, dplyr_code) {
                    Ok(s) => s,
                    Err(e) => {
                        return Err(e);
                    },
                };
                match self.config.max_complexity {
                    Some(max_complexity) => {
                        if summary.complexity_score > max_complexity {
                            let mut message = string_of_str("Query complexity (");
                            message.append(decimal_string(summary.complexity_score as usize).as_str());
                            message.append(") exceeds maximum allowed (");
                            message.append(decimal_string(max_complexity as usize).as_str());
                            message.append(")");
                            let mut suggestions: Vec<String> = Vec::new();
                            suggestions.push(string_of_str("Simplify the query by breaking it into smaller parts"));
                            suggestions.push(string_of_str("Reduce the number of operations in the pipeline"));
                            assert(strings_view(suggestions@) =~= seq![
                                "Simplify the query by breaking it into smaller parts"@,
                                "Reduce the number of operations in the pipeline"@,
                            ]);
                            let error = ValidationErrorInfo {
                                error_type: string_of_str("complexity"),
                                message,
                                position: None,
                                context: None,
                            };
                            return Ok(ValidateResult::Invalid { error, suggestions });
                        }
                    },
                    None => {},
                }
                if self.config.semantic_validation {
                    match self.check_semantic_issues(&summary, dplyr_code) {
                        Some(semantic_error) => {
                            let suggestions = self.generate_semantic_suggestions(&semantic_error);
                            return Ok(ValidateResult::Invalid { error: semantic_error, suggestions });
                        },
                        None => {},
                    }
                }
                Ok(ValidateResult::Valid { summary })
            },
            Err(error) => {
                let error_info = self.convert_transpile_error(&error, dplyr_code);
                let suggestions = self.generate_error_suggestions(&error, dplyr_code);
                Ok(ValidateResult::Invalid { error: error_info, suggestions })
            },
        }
    }

    /// Parses the code without generating SQL.
    fn parse_syntax(&self, dplyr_code: &str) -> (r: Result<DplyrNode, TranspileError>)
        ensures
            match r {
                Ok(n) => parse_source(dplyr_code@) == Ok::<SpecNode, ParseErrorOf<Seq<char>>>(n@),
                Err(e) => parse_source(dplyr_code@) is Err && e@ == TranspileErrorOf::ParseError(
                    parse_source(dplyr_code@)->Err_0,
                ),
            },
    {
        let lexer = Lexer::new(string_of_str(dplyr_code));
        let mut parser = match Parser::new(lexer) {
            Ok(p) => p,
            Err(e) => {
                return Err(TranspileErrorOf::ParseError(e));
            },
        };
        match parser.parse() {
            Ok(n) => Ok(n),
            Err(e) => Err(TranspileErrorOf::ParseError(e)),
        }
    }

    /// The summary of a parsed pipeline.
    fn analyze_ast(&self, ast: &DplyrNode, code: &str) -> (r: Result<ValidationSummary, ValidationError>)
        ensures
            (r matches Ok(s) && summarizes(s, node_operations(ast@))),
    {
        let mut operations: Vec<String> = Vec::new();
        let mut columns: Vec<String> = Vec::new();
        let mut has_aggregation = false;
        let mut has_grouping = false;
        let mut score: u8 = 0;
        self.analyze_node(ast, &mut operations, &mut columns, &mut has_aggregation, &mut has_grouping, &mut score);
        let capped = if score > 10 { 10 } else { score };
        assert(strings_view(operations@).len() == operations@.len());
        assert(strings_view(columns@).len() == columns@.len());
        assert(operation_names(node_operations(ast@)).len() == node_operations(ast@).len());
        Ok(ValidationSummary {
            operation_count: operations.len(),
            operations,
            column_count: columns.len(),
            columns,
            has_aggregation,
            has_grouping,
            complexity_score: capped,
        })
    }

    /// Analyzes the operations of a node, from empty accumulators.
    fn analyze_node(
        &self,
        node: &DplyrNode,
        operations: &mut Vec<String>,
        columns: &mut Vec<String>,
        has_aggregation: &mut bool,
        has_grouping: &mut bool,
        complexity_score: &mut u8,
    )
        requires
            old(operations)@.len() == 0,
            old(columns)@.len() == 0,
            !*old(has_aggregation),
            !*old(has_grouping),
            *old(complexity_score) == 0,
        ensures
            strings_view(final(operations)@) == operation_names(node_operations(node@)),
            strings_view(final(columns)@).no_duplicates(),
            strings_view(final(columns)@).to_set() == all_columns(node_operations(node@)).to_set(),
            *final(has_aggregation) == uses_aggregation(node_operations(node@)),
            *final(has_grouping) == uses_grouping(node_operations(node@)),
            (if complexity_sum(node_operations(node@)) > 10 { *final(complexity_score) == 11 } else {
                *final(complexity_score) as nat == complexity_sum(node_operations(node@))
            }),
    {
        match node {
            DplyrNode::Pipeline { operations: ops, .. } => {
                let ghost sops = crate::parser::operations_view(ops@);
                let mut k: usize = 0;
                assert(sops.take(0) =~= Seq::<SpecOperation>::empty());
                assert(strings_view(operations@) =~= operation_names(sops.take(0)));
                assert(strings_view(columns@) =~= Seq::<Seq<char>>::empty());
                assert(all_columns(sops.take(0)).to_set() =~= strings_view(columns@).to_set());
                while k < ops.len()
                    invariant
                        k <= ops.len(),
                        sops == crate::parser::operations_view(ops@),
                        strings_view(operations@) == operation_names(sops.take(k as int)),
                        strings_view(columns@).no_duplicates(),
                        strings_view(columns@).to_set() == all_columns(sops.take(k as int)).to_set(),
                        *has_aggregation == uses_aggregation(sops.take(k as int)),
                        *has_grouping == uses_grouping(sops.take(k as int)),
                        (if complexity_sum(sops.take(k as int)) > 10 { *complexity_score == 11 } else {
                            *complexity_score as nat == complexity_sum(sops.take(k as int))
                        }),
                    decreases ops.len() - k,
                {
                    self.analyze_operation(&ops[k], operations, columns, has_aggregation, has_grouping, complexity_score);
                    proof {
                        let pre = sops.take(k as int);
                        let post = sops.take(k as int + 1);
                        assert(post.drop_last() =~= pre);
                        assert(post.last() == sops[k as int]);
                        assert(operation_names(post) =~= operation_names(pre).push(operation_name_of(sops[k as int])));
                        lemma_to_set_add(all_columns(pre), operation_columns(sops[k as int]));
                        if uses_aggregation(post) {
                            let i = choose|i: int| 0 <= i < post.len() && #[trigger] post[i] is Summarise;
                            if i < pre.len() {
                                assert(pre[i] is Summarise);
                            }
                        }
                        if uses_aggregation(pre) {
                            let i = choose|i: int| 0 <= i < pre.len() && #[trigger] pre[i] is Summarise;
                            assert(post[i] is Summarise);
                        }
                        if sops[k as int] is Summarise {
                            assert(post[k as int] is Summarise);
                        }
                        if uses_grouping(post) {
                            let i = choose|i: int| 0 <= i < post.len() && #[trigger] post[i] is GroupBy;
                            if i < pre.len() {
                                assert(pre[i] is GroupBy);
                            }
                        }
                        if uses_grouping(pre) {
                            let i = choose|i: int| 0 <= i < pre.len() && #[trigger] pre[i] is GroupBy;
                            assert(post[i] is GroupBy);
                        }
                        if sops[k as int] is GroupBy {
                            assert(post[k as int] is GroupBy);
                        }
                    }
                    k = k + 1;
                }
                assert(sops.take(ops.len() as int) =~= sops);
            },
            DplyrNode::DataSource { .. } => {
                assert(strings_view(operations@) =~= operation_names(Seq::<SpecOperation>::empty()));
                assert(strings_view(columns@) =~= Seq::<Seq<char>>::empty());
                assert(all_columns(Seq::<SpecOperation>::empty()).to_set() =~= strings_view(columns@).to_set());
            },
        }
    }

    /// Records one operation: its name, its columns, whether it aggregates or
    /// groups, and its weight (the running score is kept at most 11).
    fn analyze_operation(
        &self,
        operation: &DplyrOperation,
        operations: &mut Vec<String>,
        columns: &mut Vec<String>,
        has_aggregation: &mut bool,
        has_grouping: &mut bool,
        complexity_score: &mut u8,
    )
        requires
            strings_view(old(columns)@).no_duplicates(),
            *old(complexity_score) <= 11,
        ensures
            strings_view(final(operations)@) == strings_view(old(operations)@).push(operation_name_of(operation@)),
            strings_view(final(columns)@).no_duplicates(),
            strings_view(final(columns)@).to_set() == strings_view(old(columns)@).to_set().union(
                operation_columns(operation@).to_set(),
            ),
            *final(has_aggregation) == (*old(has_aggregation) || operation@ is Summarise),
            *final(has_grouping) == (*old(has_grouping) || operation@ is GroupBy),
            *final(complexity_score) as nat == if *old(complexity_score) + operation_weight(operation@) > 11 {
                11
            } else {
                *old(complexity_score) + operation_weight(operation@)
            },
    {
        let ghost before = strings_view(operations@);
        let name = string_of_str(operation.operation_name());
        operations.push(name);
        assert(strings_view(operations@) =~= before.push(operation_name_of(operation@)));
        let names = operation_column_list(operation);
        insert_columns(columns, &names);
        match operation {
            DplyrOperation::Summarise { .. } => {
                *has_aggregation = true;
            },
            DplyrOperation::GroupBy { .. } => {
                *has_grouping = true;
            },
            _ => {},
        }
        let w = operation_weight_exec(operation);
        let total = *complexity_score as u16 + w as u16;
        *complexity_score = if total > 11 { 11 } else { total as u8 };
    }

    /// The semantic issue of a summary, if any.
    fn check_semantic_issues(&self, summary: &ValidationSummary, code: &str) -> (r: Option<ValidationErrorInfo>)
        ensures
            match r {
                Some(e) => summary_issue(
                    summary.has_aggregation,
                    summary.has_grouping,
                    summary.operation_count as nat,
                    summary.complexity_score,
                ) == Some(e@),
                None => summary_issue(
                    summary.has_aggregation,
                    summary.has_grouping,
                    summary.operation_count as nat,
                    summary.complexity_score,
                ) is None,
            },
    {
        if summary.has_aggregation && !summary.has_grouping && summary.operation_count > 2 {
            return Some(ValidationErrorInfo {
                error_type: string_of_str("semantic"),
                message: string_of_str(
                    "Using aggregation functions without GROUP BY in complex query may produce unexpected results",
                ),
                position: None,
                context: Some(string_of_str("Consider adding group_by() before summarise()")),
            });
        }
        if summary.complexity_score > 8 {
            let mut message = string_of_str("Query complexity is very high (");
            message.append(decimal_string(summary.complexity_score as usize).as_str());
            message.append(")");
            return Some(ValidationErrorInfo {
                error_type: string_of_str("complexity"),
                message,
                position: None,
                context: Some(string_of_str("Consider breaking the query into smaller parts")),
            });
        }
        None
    }

    /// The failure information of a conversion error.
    fn convert_transpile_error(&self, error: &TranspileError, code: &str) -> (r: ValidationErrorInfo)
        ensures
            r@ == error_info_of(error@),
    {
        let (error_type, message) = match error {
            TranspileErrorOf::LexError(e) => (string_of_str("lex"), e.to_string()),
            TranspileErrorOf::ParseError(e) => (string_of_str("parse"), e.to_string()),
            TranspileErrorOf::GenerationError(e) => (string_of_str("generation"), e.to_string()),
            TranspileErrorOf::IoError(e) => (string_of_str("io"), e.clone()),
            TranspileErrorOf::ValidationError(e) => (string_of_str("validation"), e.clone()),
            TranspileErrorOf::ConfigurationError(e) => (string_of_str("configuration"), e.clone()),
            TranspileErrorOf::SystemError(e) => (string_of_str("system"), e.clone()),
        };
        let context = self.extract_error_context(code, None);
        ValidationErrorInfo { error_type, message, position: None, context }
    }

    /// The text around an error position (up to twenty characters each
    /// side); none where no position is known.
    fn extract_error_context(&self, code: &str, position: Option<usize>) -> (r: Option<String>)
        requires
            position matches Some(p) ==> p <= code@.len() && crate::text::is_ascii_seq(code@),
        ensures
            match position {
                None => r is None,
                Some(pos) => r is Some && r->0@ == code@.subrange(
                    if pos >= 20 { pos - 20 } else { 0 },
                    if pos + 20 <= code@.len() { pos + 20 } else { code@.len() as int },
                ),
            },
    {
        match position {
            None => None,
            Some(pos) => {
                let v = chars_of(code);
                let start: usize = if pos >= 20 { pos - 20 } else { 0 };
                let end: usize = if v.len() - pos >= 20 { pos + 20 } else { v.len() };
                let mut out: Vec<char> = Vec::new();
                let mut i = start;
                assert(out@ =~= v@.subrange(start as int, start as int));
                while i < end
                    invariant
                        start <= i <= end,
                        end <= v.len(),
                        out@ == v@.subrange(start as int, i as int),
                    decreases end - i,
                {
                    out.push(v[i]);
                    assert(out@ =~= v@.subrange(start as int, i as int + 1));
                    i = i + 1;
                }
                Some(crate::text::string_of_chars(&out))
            },
        }
    }

    /// The suggestions for a conversion error.
    fn generate_error_suggestions(&self, error: &TranspileError, code: &str) -> (r: Vec<String>)
        ensures
            strings_view(r@) == error_suggestions(error@),
    {
        let mut v: Vec<String> = Vec::new();
        match error {
            TranspileErrorOf::LexError(_) => {
                v.push(string_of_str("Check for invalid characters or malformed strings"));
                v.push(string_of_str("Ensure proper quoting of string literals"));
                v.push(string_of_str("Remove any non-ASCII characters"));
            },
            TranspileErrorOf::ParseError(_) => {
                v.push(string_of_str("Check dplyr function syntax and arguments"));
                v.push(string_of_str("Ensure proper use of pipe operator (%>%)"));
                v.push(string_of_str("Verify function names are spelled correctly"));
                v.push(string_of_str("Check parentheses and comma placement"));
            },
            TranspileErrorOf::GenerationError(_) => {
                v.push(string_of_str("This error shouldn't occur during validation-only mode"));
            },
            TranspileErrorOf::IoError(_) => {
                v.push(string_of_str("Check file permissions and paths"));
                v.push(string_of_str("Ensure input/output resources are available"));
            },
            TranspileErrorOf::ValidationError(_) => {
                v.push(string_of_str("Check dplyr syntax and function usage"));
                v.push(string_of_str("Verify all required arguments are provided"));
            },
            TranspileErrorOf::ConfigurationError(_) => {
                v.push(string_of_str("Check configuration settings"));
                v.push(string_of_str("Verify all required options are provided"));
            },
            TranspileErrorOf::SystemError(_) => {
                v.push(string_of_str("Check system permissions and resources"));
                v.push(string_of_str("Verify signal handling or pipeline configuration"));
            },
        }
        assert(strings_view(v@) =~= error_suggestions(error@));
        v
    }

    /// The suggestions for a semantic failure.
    fn generate_semantic_suggestions(&self, error: &ValidationErrorInfo) -> (r: Vec<String>)
        ensures
            strings_view(r@) == semantic_suggestions(error.error_type@),
    {
        let mut v: Vec<String> = Vec::new();
        if crate::text::str_eq(error.error_type.as_str(), "semantic") {
            v.push(string_of_str("Consider adding group_by() before summarise()"));
            v.push(string_of_str("Review the logical flow of your operations"));
        } else if crate::text::str_eq(error.error_type.as_str(), "complexity") {
            v.push(string_of_str("Break the query into smaller, simpler parts"));
            v.push(string_of_str("Use intermediate variables to store partial results"));
            v.push(string_of_str("Consider if all operations are necessary"));
        } else {
            v.push(string_of_str("Review the query structure"));
        }
        assert(strings_view(v@) =~= semantic_suggestions(error.error_type@));
        v
    }

    /// The current configuration.
    pub fn config(&self) -> (c: &ValidationConfig)
        ensures
            *c == self.config,
    {
        &self.config
    }

    /// Replaces the configuration.
    pub fn set_config(&mut self, config: ValidationConfig)
        ensures
            final(self).config == config,
    {
        self.config = config;
    }
}

impl Default for DplyrValidator {
    fn default() -> (v: Self)
        ensures
            v.config.semantic_validation,
            v.config.check_common_mistakes,
            v.config.detailed_suggestions,
            v.config.max_complexity is None,
    {
        DplyrValidator::new()
    }
}

} // verus!
