//! Output formatting of SQL text: basic (single spaces), pretty (one clause
//! per line) and compact (minimal white space).

use crate::text::{
    append_chars, append_str, chars_clone, chars_eq_str, chars_of, contains, ends_with_char,
    is_whitespace, is_ws, join, join_exec, lemma_join_last, lemma_trim_last, drop_ws,
    lemma_drop_ws_concat, lemma_drop_ws_pure, lemma_drop_ws_replace, lemma_drop_ws_replace_word,
    lemma_drop_ws_squeeze, lemma_drop_ws_trim, lemma_drop_ws_words, drop_ws_all, lemma_drop_ws_join,
    lemma_drop_ws_lines, lemma_newline_keeps_no_double_space,
    lemma_squeezed_has_no_double_space, lemma_trim_idempotent, lemma_trim_keeps_absent, lines,
    lines_exec, occurs_at, replace, replace_exec, replace_word, replace_word_exec, squeeze_spaces,
    squeeze_spaces_exec,
    starts_with, starts_with_str, string_of_chars, string_of_str, trim, trim_chars, vecs_view,
    words, words_exec,
};
use vstd::prelude::*;
use vstd::string::*;

verus! {

/// Errors of output formatting.
#[derive(Debug)]
pub enum FormatErrorOf<S> {
    InvalidSql(S),
    FormattingFailed(S),
}

/// A formatting error as the formatter hands it out.
pub type FormatError = FormatErrorOf<String>;

impl View for FormatErrorOf<String> {
    type V = FormatErrorOf<Seq<char>>;

    open spec fn view(&self) -> FormatErrorOf<Seq<char>> {
        match self {
            FormatErrorOf::InvalidSql(s) => FormatErrorOf::InvalidSql(s@),
            FormatErrorOf::FormattingFailed(s) => FormatErrorOf::FormattingFailed(s@),
        }
    }
}

/// The message of a formatting error.
pub open spec fn format_error_message(e: FormatErrorOf<Seq<char>>) -> Seq<char> {
    match e {
        FormatErrorOf::InvalidSql(s) => "Invalid SQL input: "@ + s,
        FormatErrorOf::FormattingFailed(s) => "Formatting failed: "@ + s,
    }
}

impl FormatErrorOf<String> {
    /// The message of this error.
    pub fn to_string(&self) -> (r: String)
        ensures
            r@ == format_error_message(self@),
    {
        match self {
            FormatErrorOf::InvalidSql(s) => {
                let mut r = string_of_str("Invalid SQL input: ");
                r.append(s.as_str());
                r
            },
            FormatErrorOf::FormattingFailed(s) => {
                let mut r = string_of_str("Formatting failed: ");
                r.append(s.as_str());
                r
            },
        }
    }
}

/// Output format types.
#[derive(Debug, Clone, Copy, PartialEq, Eq, Structural)]
pub enum OutputFormat {
    Default,
    Basic,
    Pretty,
    Compact,
    Json,
}

/// The name of an output format.
pub open spec fn output_format_name(f: OutputFormat) -> Seq<char> {
    match f {
        OutputFormat::Default => "default"@,
        OutputFormat::Basic => "basic"@,
        OutputFormat::Pretty => "pretty"@,
        OutputFormat::Compact => "compact"@,
        OutputFormat::Json => "json"@,
    }
}

impl OutputFormat {
    /// The name of this format.
    pub fn to_string(&self) -> (r: String)
        ensures
            r@ == output_format_name(*self),
    {
        match self {
            OutputFormat::Default => string_of_str("default"),
            OutputFormat::Basic => string_of_str("basic"),
            OutputFormat::Pretty => string_of_str("pretty"),
            OutputFormat::Compact => string_of_str("compact"),
            OutputFormat::Json => string_of_str("json"),
        }
    }
}

/// Configuration for output formatting.
#[derive(Debug, Clone)]
pub struct FormatConfig {
    pub format: OutputFormat,
    pub add_newline: bool,
    pub indent: String,
    pub preserve_case: bool,
}

impl Default for FormatConfig {
    fn default() -> (c: Self)
        ensures
            c.format == OutputFormat::Basic,
            c.add_newline,
            c.indent@ == "  "@,
            c.preserve_case,
    {
        FormatConfig {
            format: OutputFormat::Basic,
            add_newline: true,
            indent: string_of_str("  "),
            preserve_case: true,
        }
    }
}

// ===== Specification of the formats =====

/// Each run of white space replaced by one space; `prev_space` tells
/// whether a space was just written.
pub open spec fn collapse_ws(s: Seq<char>, prev_space: bool) -> Seq<char>
    decreases s.len(),
{
    if s.len() == 0 {
        Seq::empty()
    } else if is_ws(s[0]) {
        if prev_space {
            collapse_ws(s.drop_first(), true)
        } else {
            seq![' '] + collapse_ws(s.drop_first(), true)
        }
    } else {
        seq![s[0]] + collapse_ws(s.drop_first(), false)
    }
}

/// The basic format: white space runs as single spaces, trimmed.
pub open spec fn format_basic_spec(sql: Seq<char>) -> Seq<char> {
    trim(collapse_ws(sql, false))
}

/// `word` on a new line after the indentation.
pub open spec fn indented(indent: Seq<char>, word: Seq<char>) -> Seq<char> {
    "\n"@ + indent + word
}

/// The line breaks the pretty format puts before joins, clauses, logical
/// operators and set operators, in the order it applies them.
pub open spec fn pretty_rewrites(s: Seq<char>, indent: Seq<char>) -> Seq<char> {
    let s = replace(s, " LEFT JOIN "@, indented(indent, "LEFT JOIN "@));
    let s = replace(s, " RIGHT JOIN "@, indented(indent, "RIGHT JOIN "@));
    let s = replace(s, " INNER JOIN "@, indented(indent, "INNER JOIN "@));
    let s = replace(s, " OUTER JOIN "@, indented(indent, "OUTER JOIN "@));
    let s = replace(s, " FULL JOIN "@, indented(indent, "FULL JOIN "@));
    let s = replace(s, " CROSS JOIN "@, indented(indent, "CROSS JOIN "@));
    let s = replace(s, " JOIN "@, indented(indent, "JOIN "@));
    let s = replace(s, " FROM "@, "\nFROM "@);
    let s = replace(s, " WHERE "@, "\nWHERE "@);
    let s = replace(s, " GROUP BY "@, "\nGROUP BY "@);
    let s = replace(s, " HAVING "@, "\nHAVING "@);
    let s = replace(s, " ORDER BY "@, "\nORDER BY "@);
    let s = replace(s, " LIMIT "@, "\nLIMIT "@);
    let s = replace(s, " OFFSET "@, "\nOFFSET "@);
    let s = replace(s, " AND "@, indented(indent, "AND "@));
    let s = replace(s, " OR "@, indented(indent, "OR "@));
    let s = replace(s, " UNION "@, "\nUNION "@);
    let s = replace(s, " UNION ALL "@, "\nUNION ALL "@);
    let s = replace(s, " INTERSECT "@, "\nINTERSECT "@);
    replace(s, " EXCEPT "@, "\nEXCEPT "@)
}

/// The trimmed lines that are not empty, in order.
pub open spec fn trimmed_nonempty(ls: Seq<Seq<char>>) -> Seq<Seq<char>>
    decreases ls.len(),
{
    if ls.len() == 0 {
        Seq::empty()
    } else {
        let t = trim(ls[0]);
        (if t.len() == 0 { Seq::empty() } else { seq![t] }) + trimmed_nonempty(ls.drop_first())
    }
}

/// A join keyword that a line break may have split from its `JOIN`.
pub open spec fn is_join_word(l: Seq<char>) -> bool {
    ||| l == "LEFT"@
    ||| l == "RIGHT"@
    ||| l == "INNER"@
    ||| l == "OUTER"@
    ||| l == "FULL"@
    ||| l == "CROSS"@
}

/// The lines from `i` on, with a lone join word merged with the `JOIN ...`
/// line after it.
pub open spec fn merge_join_lines(ls: Seq<Seq<char>>, i: int, indent: Seq<char>) -> Seq<Seq<char>>
    decreases ls.len() - i,
{
    if i < 0 || i >= ls.len() {
        Seq::empty()
    } else if i + 1 < ls.len() && is_join_word(ls[i]) && starts_with(ls[i + 1], "JOIN "@) {
        seq![indent + ls[i] + " "@ + ls[i + 1]] + merge_join_lines(ls, i + 2, indent)
    } else {
        seq![ls[i]] + merge_join_lines(ls, i + 1, indent)
    }
}

/// A line that begins with a logical operator or a bare `JOIN`.
pub open spec fn is_continuation(l: Seq<char>) -> bool {
    starts_with(l, "AND "@) || starts_with(l, "OR "@) || starts_with(l, "JOIN "@)
}

/// The lines with the indentation put back before each continuation line.
pub open spec fn reindented(ls: Seq<Seq<char>>, indent: Seq<char>) -> Seq<Seq<char>> {
    Seq::new(
        ls.len(),
        |i: int| if is_continuation(ls[i]) { indent + ls[i] } else { ls[i] },
    )
}

/// The pretty format: spaces squeezed, clauses on lines of their own, and
/// logical operators and joins indented.
pub open spec fn format_pretty_spec(sql: Seq<char>, indent: Seq<char>) -> Seq<char> {
    let s = pretty_rewrites(trim(squeeze_spaces(sql)), indent);
    join(reindented(merge_join_lines(trimmed_nonempty(lines(s)), 0, indent), indent), "\n"@)
}

/// The spacing rewrites around comparison operators and commas of the
/// compact format.
pub open spec fn operator_rewrites(s: Seq<char>) -> Seq<char> {
    let s = replace(s, " = "@, "="@);
    let s = replace(s, " > "@, ">"@);
    let s = replace(s, " < "@, "<"@);
    let s = replace(s, " >= "@, ">="@);
    let s = replace(s, " <= "@, "<="@);
    let s = replace(s, " != "@, "!="@);
    let s = replace(s, " <> "@, "<>"@);
    let s = replace(s, ","@, ", "@);
    replace(s, ",  "@, ", "@)
}

/// The keywords the compact format puts spaces around.
pub open spec fn compact_keywords() -> Seq<Seq<char>> {
    seq![
        "SELECT"@, "FROM"@, "WHERE"@, "GROUP BY"@, "HAVING"@, "ORDER BY"@, "LIMIT"@, "OFFSET"@,
        "JOIN"@, "LEFT JOIN"@, "RIGHT JOIN"@, "INNER JOIN"@, "OUTER JOIN"@, "UNION"@,
        "INTERSECT"@, "EXCEPT"@, "AND"@, "OR"@,
    ]
}

/// One keyword's pass: a space after each ` keyword` that stands as a whole
/// word (no letter, digit or `_` follows it), and a double space after
/// `keyword` made single.
pub open spec fn keyword_pass(s: Seq<char>, k: Seq<char>) -> Seq<char> {
    replace(replace_word(s, " "@ + k, " "@ + k + " "@), k + "  "@, k + " "@)
}

/// The passes of the first `n` keywords, in order.
pub open spec fn keyword_passes(s: Seq<char>, ks: Seq<Seq<char>>, n: int) -> Seq<char>
    decreases n,
{
    if n <= 0 || n > ks.len() {
        s
    } else {
        keyword_pass(keyword_passes(s, ks, n - 1), ks[n - 1])
    }
}

/// The compact format: words single-spaced, operators tightened, commas and
/// keywords spaced, double spaces squeezed, trimmed.
pub open spec fn format_compact_spec(sql: Seq<char>) -> Seq<char> {
    let s = operator_rewrites(join(words(sql), " "@));
    let ks = compact_keywords();
    trim(squeeze_spaces(keyword_passes(s, ks, ks.len() as int)))
}

/// The text of a format before the final newline.
pub open spec fn format_body(f: OutputFormat, sql: Seq<char>, indent: Seq<char>) -> Seq<char> {
    match f {
        OutputFormat::Pretty => format_pretty_spec(sql, indent),
        OutputFormat::Compact => format_compact_spec(sql),
        _ => format_basic_spec(sql),
    }
}

/// The final newline, added when configured and missing.
pub open spec fn final_newline(add_newline: bool, s: Seq<char>) -> Seq<char> {
    if add_newline && !(s.len() > 0 && s.last() == '\n') {
        s.push('\n')
    } else {
        s
    }
}

/// What formatting `sql` yields: an error for blank input, else the text of
/// the configured format with the final newline rule applied.
pub open spec fn format_spec(f: OutputFormat, add_newline: bool, indent: Seq<char>, sql: Seq<char>) -> Result<Seq<char>, FormatErrorOf<Seq<char>>> {
    if trim(sql).len() == 0 {
        Err(FormatErrorOf::InvalidSql("Empty SQL input"@))
    } else {
        Ok(final_newline(add_newline, format_body(f, sql, indent)))
    }
}

/// A character put before text without two adjacent spaces makes none,
/// unless both it and the text's first character are spaces.
proof fn lemma_prefix_keeps_single_spaces(c: char, r: Seq<char>)
    requires
        !contains(r, seq![' ', ' ']),
        c == ' ' ==> !(r.len() > 0 && r[0] == ' '),
    ensures
        !contains(seq![c] + r, seq![' ', ' ']),
{
    let t = seq![c] + r;
    if contains(t, seq![' ', ' ']) {
        let i = choose|i: int| occurs_at(t, seq![' ', ' '], i);
        if i == 0 {
            assert(t.subrange(0, 2)[0] == c);
            assert(t.subrange(0, 2)[1] == r[0]);
        } else {
            assert(r.subrange(i - 1, i + 1) =~= t.subrange(i, i + 2));
            assert(occurs_at(r, seq![' ', ' '], i - 1));
        }
    }
}

/// Collapsing white space leaves no two spaces side by side, and after a
/// space it does not begin with one.
proof fn lemma_collapse_single_spaces(s: Seq<char>, prev_space: bool)
    ensures
        !contains(collapse_ws(s, prev_space), seq![' ', ' ']),
        prev_space ==> !(collapse_ws(s, prev_space).len() > 0 && collapse_ws(s, prev_space)[0] == ' '),
    decreases s.len(),
{
    if s.len() > 0 {
        if is_ws(s[0]) {
            lemma_collapse_single_spaces(s.drop_first(), true);
            if !prev_space {
                lemma_prefix_keeps_single_spaces(' ', collapse_ws(s.drop_first(), true));
            }
        } else {
            lemma_collapse_single_spaces(s.drop_first(), false);
            assert(s[0] != ' ');
            lemma_prefix_keeps_single_spaces(s[0], collapse_ws(s.drop_first(), false));
        }
    }
}

/// The basic rendering holds every run of white space as one space: no
/// two spaces stand side by side, and it neither begins nor ends with white
/// space.
pub proof fn law_basic_has_single_spaces(sql: Seq<char>)
    ensures
        !contains(format_basic_spec(sql), seq![' ', ' ']),
        format_basic_spec(sql) == trim(format_basic_spec(sql)),
{
    lemma_collapse_single_spaces(sql, false);
    lemma_trim_keeps_absent(collapse_ws(sql, false), seq![' ', ' ']);
    lemma_trim_idempotent(collapse_ws(sql, false));
}

/// A compact rendering never holds two spaces side by side.
pub proof fn law_compact_has_no_double_spaces(add_newline: bool, indent: Seq<char>, sql: Seq<char>)
    requires
        format_spec(OutputFormat::Compact, add_newline, indent, sql) is Ok,
    ensures
        !contains(format_spec(OutputFormat::Compact, add_newline, indent, sql)->Ok_0, seq![' ', ' ']),
{
    let ks = compact_keywords();
    let s = operator_rewrites(join(words(sql), " "@));
    let sq = squeeze_spaces(keyword_passes(s, ks, ks.len() as int));
    lemma_squeezed_has_no_double_space(keyword_passes(s, ks, ks.len() as int));
    lemma_trim_keeps_absent(sq, seq![' ', ' ']);
    if add_newline && !(trim(sq).len() > 0 && trim(sq).last() == '\n') {
        lemma_newline_keeps_no_double_space(trim(sq));
    }
}

/// With the final newline configured, every rendering ends in a newline.
pub proof fn law_rendering_ends_with_newline(f: OutputFormat, indent: Seq<char>, sql: Seq<char>)
    requires
        format_spec(f, true, indent, sql) is Ok,
    ensures
        format_spec(f, true, indent, sql)->Ok_0.len() > 0,
        format_spec(f, true, indent, sql)->Ok_0.last() == '\n',
{
}

/// A line that is not empty and ends with a character other than white space.
pub open spec fn ends_solid(l: Seq<char>) -> bool {
    l.len() > 0 && !is_ws(l.last())
}

proof fn lemma_trimmed_nonempty_solid(ls: Seq<Seq<char>>)
    ensures
        forall|k: int| 0 <= k < trimmed_nonempty(ls).len() ==> ends_solid(#[trigger] trimmed_nonempty(ls)[k]),
    decreases ls.len(),
{
    if ls.len() > 0 {
        lemma_trimmed_nonempty_solid(ls.drop_first());
        lemma_trim_last(ls[0]);
        let t = trim(ls[0]);
        let head: Seq<Seq<char>> = if t.len() == 0 { Seq::empty() } else { seq![t] };
        let rest = trimmed_nonempty(ls.drop_first());
        assert(trimmed_nonempty(ls) == head + rest);
        assert forall|k: int| 0 <= k < (head + rest).len() implies ends_solid(#[trigger] (head + rest)[k]) by {
            if k >= head.len() {
                assert((head + rest)[k] == rest[k - head.len()]);
            }
        }
    }
}

proof fn lemma_merge_solid(ls: Seq<Seq<char>>, i: int, indent: Seq<char>)
    requires
        forall|j: int| 0 <= j < ls.len() ==> ends_solid(#[trigger] ls[j]),
    ensures
        forall|k: int| 0 <= k < merge_join_lines(ls, i, indent).len()
            ==> ends_solid(#[trigger] merge_join_lines(ls, i, indent)[k]),
    decreases ls.len() - i,
{
    if 0 <= i < ls.len() {
        if i + 1 < ls.len() && is_join_word(ls[i]) && starts_with(ls[i + 1], "JOIN "@) {
            lemma_merge_solid(ls, i + 2, indent);
            let last = ls[i + 1];
            assert(ends_solid(last));
            let m = indent + ls[i] + " "@ + last;
            assert(m[m.len() - 1] == last[last.len() - 1]);
            let rest = merge_join_lines(ls, i + 2, indent);
            assert(merge_join_lines(ls, i, indent) == seq![m] + rest);
            assert forall|k: int| 0 <= k < (seq![m] + rest).len() implies ends_solid(#[trigger] (seq![m] + rest)[k]) by {
                if k > 0 {
                    assert((seq![m] + rest)[k] == rest[k - 1]);
                }
            }
        } else {
            lemma_merge_solid(ls, i + 1, indent);
            assert(ends_solid(ls[i]));
            let rest = merge_join_lines(ls, i + 1, indent);
            assert(merge_join_lines(ls, i, indent) == seq![ls[i]] + rest);
            assert forall|k: int| 0 <= k < (seq![ls[i]] + rest).len() implies ends_solid(#[trigger] (seq![ls[i]] + rest)[k]) by {
                if k > 0 {
                    assert((seq![ls[i]] + rest)[k] == rest[k - 1]);
                }
            }
        }
    }
}

/// The text of every format is empty or ends with a character other than
/// white space.
proof fn lemma_body_ends_solid(f: OutputFormat, sql: Seq<char>, indent: Seq<char>)
    ensures
        format_body(f, sql, indent).len() == 0 || !is_ws(format_body(f, sql, indent).last()),
{
    match f {
        OutputFormat::Pretty => {
            let s = pretty_rewrites(trim(squeeze_spaces(sql)), indent);
            let t = trimmed_nonempty(lines(s));
            lemma_trimmed_nonempty_solid(lines(s));
            lemma_merge_solid(t, 0, indent);
            let m = merge_join_lines(t, 0, indent);
            let r = reindented(m, indent);
            assert forall|k: int| 0 <= k < r.len() implies ends_solid(#[trigger] r[k]) by {
                assert(ends_solid(m[k]));
                if is_continuation(m[k]) {
                    assert((indent + m[k])[indent.len() + m[k].len() - 1] == m[k][m[k].len() - 1]);
                }
            }
            if r.len() > 0 {
                assert(ends_solid(r[r.len() - 1]));
                lemma_join_last(r, "\n"@);
            }
        },
        OutputFormat::Compact => {
            let ks = compact_keywords();
            let s = operator_rewrites(join(words(sql), " "@));
            lemma_trim_last(squeeze_spaces(keyword_passes(s, ks, ks.len() as int)));
        },
        _ => {
            lemma_trim_last(collapse_ws(sql, false));
        },
    }
}

/// A rendering ends with exactly one newline when the final newline is
/// configured, and with none when it is not.
pub proof fn law_rendering_newline_count(f: OutputFormat, add_newline: bool, indent: Seq<char>, sql: Seq<char>)
    requires
        format_spec(f, add_newline, indent, sql) is Ok,
    ensures
        add_newline ==> ({
            let s = format_spec(f, add_newline, indent, sql)->Ok_0;
            &&& s.len() > 0
            &&& s.last() == '\n'
            &&& !(s.len() >= 2 && s[s.len() - 2] == '\n')
        }),
        !add_newline ==> ({
            let s = format_spec(f, add_newline, indent, sql)->Ok_0;
            !(s.len() > 0 && s.last() == '\n')
        }),
{
    lemma_body_ends_solid(f, sql, indent);
    assert(is_ws('\n'));
}

/// Text padded with white space on both sides drops to what it drops to.
proof fn lemma_drop_ws_padded(a: Seq<char>, x: Seq<char>, b: Seq<char>)
    requires
        forall|j: int| 0 <= j < a.len() ==> is_ws(#[trigger] a[j]),
        forall|j: int| 0 <= j < b.len() ==> is_ws(#[trigger] b[j]),
    ensures
        drop_ws(a + x + b) == drop_ws(x),
{
    lemma_drop_ws_pure(a);
    lemma_drop_ws_pure(b);
    lemma_drop_ws_concat(a + x, b);
    lemma_drop_ws_concat(a, x);
    assert(Seq::<char>::empty() + drop_ws(x) + Seq::<char>::empty() =~= drop_ws(x));
}

/// An operator with a space on each side drops to the bare operator.
proof fn lemma_spaced_operator(op: Seq<char>)
    requires
        forall|j: int| 0 <= j < op.len() ==> !is_ws(#[trigger] op[j]),
    ensures
        drop_ws(seq![' '] + op + seq![' ']) == drop_ws(op),
{
    assert(is_ws(' '));
    lemma_drop_ws_padded(seq![' '], op, seq![' ']);
}

/// The operator and comma rewrites of the compact format change only white
/// space.
proof fn lemma_drop_ws_operator_rewrites(s: Seq<char>)
    ensures
        drop_ws(operator_rewrites(s)) == drop_ws(s),
{
    reveal_strlit(" = ");
    reveal_strlit("=");
    reveal_strlit(" > ");
    reveal_strlit(">");
    reveal_strlit(" < ");
    reveal_strlit("<");
    reveal_strlit(" >= ");
    reveal_strlit(">=");
    reveal_strlit(" <= ");
    reveal_strlit("<=");
    reveal_strlit(" != ");
    reveal_strlit("!=");
    reveal_strlit(" <> ");
    reveal_strlit("<>");
    reveal_strlit(",");
    reveal_strlit(", ");
    reveal_strlit(",  ");
    assert(is_ws(' '));
    let pairs = seq![
        ("="@, " = "@), (">"@, " > "@), ("<"@, " < "@), (">="@, " >= "@), ("<="@, " <= "@),
        ("!="@, " != "@), ("<>"@, " <> "@),
    ];
    assert forall|i: int| 0 <= i < pairs.len() implies drop_ws(#[trigger] pairs[i].1) == drop_ws(pairs[i].0) by {
        let op = pairs[i].0;
        assert(pairs[i].1 =~= seq![' '] + op + seq![' ']);
        lemma_spaced_operator(op);
    }
    assert(drop_ws(pairs[0].1) == drop_ws(pairs[0].0));
    assert(drop_ws(pairs[1].1) == drop_ws(pairs[1].0));
    assert(drop_ws(pairs[2].1) == drop_ws(pairs[2].0));
    assert(drop_ws(pairs[3].1) == drop_ws(pairs[3].0));
    assert(drop_ws(pairs[4].1) == drop_ws(pairs[4].0));
    assert(drop_ws(pairs[5].1) == drop_ws(pairs[5].0));
    assert(drop_ws(pairs[6].1) == drop_ws(pairs[6].0));
    lemma_drop_ws_padded(Seq::empty(), ","@, seq![' ']);
    assert(", "@ =~= Seq::<char>::empty() + ","@ + seq![' ']);
    lemma_drop_ws_padded(Seq::empty(), ","@, seq![' ', ' ']);
    assert(",  "@ =~= Seq::<char>::empty() + ","@ + seq![' ', ' ']);
    assert(","@ =~= Seq::<char>::empty() + ","@ + Seq::<char>::empty());
    lemma_drop_ws_padded(Seq::empty(), ","@, Seq::empty());
    let s1 = replace(s, " = "@, "="@);
    lemma_drop_ws_replace(s, " = "@, "="@);
    let s2 = replace(s1, " > "@, ">"@);
    lemma_drop_ws_replace(s1, " > "@, ">"@);
    let s3 = replace(s2, " < "@, "<"@);
    lemma_drop_ws_replace(s2, " < "@, "<"@);
    let s4 = replace(s3, " >= "@, ">="@);
    lemma_drop_ws_replace(s3, " >= "@, ">="@);
    let s5 = replace(s4, " <= "@, "<="@);
    lemma_drop_ws_replace(s4, " <= "@, "<="@);
    let s6 = replace(s5, " != "@, "!="@);
    lemma_drop_ws_replace(s5, " != "@, "!="@);
    let s7 = replace(s6, " <> "@, "<>"@);
    lemma_drop_ws_replace(s6, " <> "@, "<>"@);
    let s8 = replace(s7, ","@, ", "@);
    lemma_drop_ws_replace(s7, ","@, ", "@);
    lemma_drop_ws_replace(s8, ",  "@, ", "@);
}

/// The keyword passes of the compact format change only white space.
proof fn lemma_drop_ws_keyword_passes(s: Seq<char>, ks: Seq<Seq<char>>, n: int)
    ensures
        drop_ws(keyword_passes(s, ks, n)) == drop_ws(s),
    decreases n,
{
    if 0 < n <= ks.len() {
        lemma_drop_ws_keyword_passes(s, ks, n - 1);
        let t = keyword_passes(s, ks, n - 1);
        let k = ks[n - 1];
        reveal_strlit(" ");
        reveal_strlit("  ");
        assert(is_ws(' '));
        lemma_drop_ws_padded(" "@, k, Seq::empty());
        assert(" "@ + k =~= " "@ + k + Seq::<char>::empty());
        lemma_drop_ws_padded(" "@, k, " "@);
        lemma_drop_ws_replace_word(t, " "@ + k, " "@ + k + " "@);
        let u = replace_word(t, " "@ + k, " "@ + k + " "@);
        lemma_drop_ws_padded(Seq::empty(), k, "  "@);
        assert(k + "  "@ =~= Seq::<char>::empty() + k + "  "@);
        lemma_drop_ws_padded(Seq::empty(), k, " "@);
        assert(k + " "@ =~= Seq::<char>::empty() + k + " "@);
        lemma_drop_ws_replace(u, k + "  "@, k + " "@);
    }
}

proof fn lemma_drop_ws_collapse(s: Seq<char>, prev_space: bool)
    ensures
        drop_ws(collapse_ws(s, prev_space)) == drop_ws(s),
    decreases s.len(),
{
    if s.len() > 0 {
        lemma_drop_ws_collapse(s.drop_first(), is_ws(s[0]));
        let r = collapse_ws(s.drop_first(), is_ws(s[0]));
        lemma_drop_ws_concat(seq![s[0]], r);
        lemma_drop_ws_concat(seq![' '], r);
        assert(is_ws(' '));
        lemma_drop_ws_pure(seq![' ']);
        lemma_drop_ws_pure(seq![s[0]]);
        assert(Seq::<char>::empty() + drop_ws(r) =~= drop_ws(r));
    }
}

/// White space alone.
pub open spec fn all_ws(s: Seq<char>) -> bool {
    forall|j: int| 0 <= j < s.len() ==> is_ws(#[trigger] s[j])
}

proof fn lemma_all_ws_concat(a: Seq<char>, b: Seq<char>)
    requires
        all_ws(a),
        all_ws(b),
    ensures
        all_ws(a + b),
{
    assert forall|j: int| 0 <= j < (a + b).len() implies is_ws(#[trigger] (a + b)[j]) by {
        if j >= a.len() {
            assert((a + b)[j] == b[j - a.len()]);
        }
    }
}

proof fn lemma_drop_ws_all_concat(a: Seq<Seq<char>>, b: Seq<Seq<char>>)
    ensures
        drop_ws_all(a + b) == drop_ws_all(a) + drop_ws_all(b),
    decreases b.len(),
{
    if b.len() == 0 {
        assert(a + b =~= a);
        assert(drop_ws_all(a) + drop_ws_all(b) =~= drop_ws_all(a));
    } else {
        assert((a + b).drop_last() =~= a + b.drop_last());
        lemma_drop_ws_all_concat(a, b.drop_last());
        assert(drop_ws_all(a) + drop_ws_all(b.drop_last()) + drop_ws(b.last()) =~= drop_ws_all(a) + (
        drop_ws_all(b.drop_last()) + drop_ws(b.last())));
    }
}

proof fn lemma_drop_ws_all_one(x: Seq<char>)
    ensures
        drop_ws_all(seq![x]) == drop_ws(x),
{
    assert(seq![x].drop_last() =~= Seq::<Seq<char>>::empty());
    assert(drop_ws_all(Seq::<Seq<char>>::empty()) == Seq::<char>::empty());
    assert(seq![x].last() == x);
    assert(Seq::<char>::empty() + drop_ws(x) =~= drop_ws(x));
}

proof fn lemma_drop_ws_all_pointwise(a: Seq<Seq<char>>, b: Seq<Seq<char>>)
    requires
        a.len() == b.len(),
        forall|i: int| 0 <= i < a.len() ==> drop_ws(#[trigger] a[i]) == drop_ws(b[i]),
    ensures
        drop_ws_all(a) == drop_ws_all(b),
    decreases a.len(),
{
    if a.len() > 0 {
        lemma_drop_ws_all_pointwise(a.drop_last(), b.drop_last());
        assert(drop_ws(a[a.len() - 1]) == drop_ws(b[b.len() - 1]));
    }
}

proof fn lemma_drop_ws_trimmed_nonempty(ls: Seq<Seq<char>>)
    ensures
        drop_ws_all(trimmed_nonempty(ls)) == drop_ws_all(ls),
    decreases ls.len(),
{
    if ls.len() > 0 {
        lemma_drop_ws_trimmed_nonempty(ls.drop_first());
        let t = trim(ls[0]);
        lemma_drop_ws_trim(ls[0]);
        let head: Seq<Seq<char>> = if t.len() == 0 { Seq::empty() } else { seq![t] };
        let rest = trimmed_nonempty(ls.drop_first());
        assert(trimmed_nonempty(ls) == head + rest);
        lemma_drop_ws_all_concat(head, rest);
        assert(ls =~= seq![ls[0]] + ls.drop_first());
        lemma_drop_ws_all_concat(seq![ls[0]], ls.drop_first());
        lemma_drop_ws_all_one(ls[0]);
        if t.len() == 0 {
            assert(drop_ws(t) == Seq::<char>::empty());
            assert(drop_ws_all(head) == Seq::<char>::empty());
            assert(Seq::<char>::empty() + drop_ws_all(rest) =~= drop_ws_all(rest));
        } else {
            lemma_drop_ws_all_one(t);
        }
    }
}

proof fn lemma_drop_ws_merge(ls: Seq<Seq<char>>, i: int, indent: Seq<char>)
    requires
        0 <= i <= ls.len(),
        all_ws(indent),
    ensures
        drop_ws_all(merge_join_lines(ls, i, indent)) == drop_ws_all(ls.skip(i)),
    decreases ls.len() - i,
{
    if i == ls.len() {
        assert(ls.skip(i) =~= Seq::<Seq<char>>::empty());
    } else if i + 1 < ls.len() && is_join_word(ls[i]) && starts_with(ls[i + 1], "JOIN "@) {
        lemma_drop_ws_merge(ls, i + 2, indent);
        let m = indent + ls[i] + " "@ + ls[i + 1];
        reveal_strlit(" ");
        assert(is_ws(' '));
        lemma_drop_ws_concat(indent + ls[i] + " "@, ls[i + 1]);
        lemma_drop_ws_concat(indent + ls[i], " "@);
        lemma_drop_ws_concat(indent, ls[i]);
        lemma_drop_ws_pure(indent);
        lemma_drop_ws_pure(" "@);
        assert(drop_ws(m) =~= drop_ws(ls[i]) + drop_ws(ls[i + 1]));
        lemma_drop_ws_all_concat(seq![m], merge_join_lines(ls, i + 2, indent));
        lemma_drop_ws_all_one(m);
        assert(ls.skip(i) =~= seq![ls[i], ls[i + 1]] + ls.skip(i + 2));
        lemma_drop_ws_all_concat(seq![ls[i], ls[i + 1]], ls.skip(i + 2));
        assert(seq![ls[i], ls[i + 1]].drop_last() =~= seq![ls[i]]);
        lemma_drop_ws_all_one(ls[i]);
        assert(drop_ws_all(seq![ls[i], ls[i + 1]]) =~= drop_ws(ls[i]) + drop_ws(ls[i + 1]));
    } else {
        lemma_drop_ws_merge(ls, i + 1, indent);
        lemma_drop_ws_all_concat(seq![ls[i]], merge_join_lines(ls, i + 1, indent));
        assert(ls.skip(i) =~= seq![ls[i]] + ls.skip(i + 1));
        lemma_drop_ws_all_concat(seq![ls[i]], ls.skip(i + 1));
    }
}

/// A line break and white-space indentation before a clause word, in place
/// of a space, change only white space.
proof fn lemma_drop_ws_break(s: Seq<char>, pat: Seq<char>, word: Seq<char>, rep: Seq<char>, prefix: Seq<char>)
    requires
        pat =~= " "@ + word,
        rep =~= prefix + word,
        all_ws(prefix),
    ensures
        drop_ws(replace(s, pat, rep)) == drop_ws(s),
{
    reveal_strlit(" ");
    assert(is_ws(' '));
    lemma_drop_ws_concat(" "@, word);
    lemma_drop_ws_concat(prefix, word);
    lemma_drop_ws_pure(" "@);
    lemma_drop_ws_pure(prefix);
    assert(Seq::<char>::empty() + drop_ws(word) =~= drop_ws(word));
    lemma_drop_ws_replace(s, pat, rep);
}

/// The line breaks of the pretty format change only white space when the
/// indentation is white space.
proof fn lemma_drop_ws_pretty_rewrites(s: Seq<char>, indent: Seq<char>)
    requires
        all_ws(indent),
    ensures
        drop_ws(pretty_rewrites(s, indent)) == drop_ws(s),
{
    reveal_strlit("\n");
    assert(is_ws('\n'));
    let nl = "\n"@;
    assert(all_ws(nl));
    lemma_all_ws_concat(nl, indent);
    let ni = nl + indent;
    let words = seq![
        "LEFT JOIN "@, "RIGHT JOIN "@, "INNER JOIN "@, "OUTER JOIN "@, "FULL JOIN "@, "CROSS JOIN "@,
        "JOIN "@, "FROM "@, "WHERE "@, "GROUP BY "@, "HAVING "@, "ORDER BY "@, "LIMIT "@, "OFFSET "@,
        "AND "@, "OR "@, "UNION "@, "UNION ALL "@, "INTERSECT "@, "EXCEPT "@,
    ];
    reveal_strlit(" LEFT JOIN ");
    reveal_strlit("LEFT JOIN ");
    reveal_strlit(" RIGHT JOIN ");
    reveal_strlit("RIGHT JOIN ");
    reveal_strlit(" INNER JOIN ");
    reveal_strlit("INNER JOIN ");
    reveal_strlit(" OUTER JOIN ");
    reveal_strlit("OUTER JOIN ");
    reveal_strlit(" FULL JOIN ");
    reveal_strlit("FULL JOIN ");
    reveal_strlit(" CROSS JOIN ");
    reveal_strlit("CROSS JOIN ");
    reveal_strlit(" JOIN ");
    reveal_strlit("JOIN ");
    reveal_strlit(" FROM ");
    reveal_strlit("FROM ");
    reveal_strlit("\nFROM ");
    reveal_strlit(" WHERE ");
    reveal_strlit("WHERE ");
    reveal_strlit("\nWHERE ");
    reveal_strlit(" GROUP BY ");
    reveal_strlit("GROUP BY ");
    reveal_strlit("\nGROUP BY ");
    reveal_strlit(" HAVING ");
    reveal_strlit("HAVING ");
    reveal_strlit("\nHAVING ");
    reveal_strlit(" ORDER BY ");
    reveal_strlit("ORDER BY ");
    reveal_strlit("\nORDER BY ");
    reveal_strlit(" LIMIT ");
    reveal_strlit("LIMIT ");
    reveal_strlit("\nLIMIT ");
    reveal_strlit(" OFFSET ");
    reveal_strlit("OFFSET ");
    reveal_strlit("\nOFFSET ");
    reveal_strlit(" AND ");
    reveal_strlit("AND ");
    reveal_strlit(" OR ");
    reveal_strlit("OR ");
    reveal_strlit(" UNION ");
    reveal_strlit("UNION ");
    reveal_strlit("\nUNION ");
    reveal_strlit(" UNION ALL ");
    reveal_strlit("UNION ALL ");
    reveal_strlit("\nUNION ALL ");
    reveal_strlit(" INTERSECT ");
    reveal_strlit("INTERSECT ");
    reveal_strlit("\nINTERSECT ");
    reveal_strlit(" EXCEPT ");
    reveal_strlit("EXCEPT ");
    reveal_strlit("\nEXCEPT ");
    reveal_strlit(" ");
    let s1 = replace(s, " LEFT JOIN "@, indented(indent, "LEFT JOIN "@));
    lemma_drop_ws_break(s, " LEFT JOIN "@, "LEFT JOIN "@, indented(indent, "LEFT JOIN "@), ni);
    let s2 = replace(s1, " RIGHT JOIN "@, indented(indent, "RIGHT JOIN "@));
    lemma_drop_ws_break(s1, " RIGHT JOIN "@, "RIGHT JOIN "@, indented(indent, "RIGHT JOIN "@), ni);
    let s3 = replace(s2, " INNER JOIN "@, indented(indent, "INNER JOIN "@));
    lemma_drop_ws_break(s2, " INNER JOIN "@, "INNER JOIN "@, indented(indent, "INNER JOIN "@), ni);
    let s4 = replace(s3, " OUTER JOIN "@, indented(indent, "OUTER JOIN "@));
    lemma_drop_ws_break(s3, " OUTER JOIN "@, "OUTER JOIN "@, indented(indent, "OUTER JOIN "@), ni);
    let s5 = replace(s4, " FULL JOIN "@, indented(indent, "FULL JOIN "@));
    lemma_drop_ws_break(s4, " FULL JOIN "@, "FULL JOIN "@, indented(indent, "FULL JOIN "@), ni);
    let s6 = replace(s5, " CROSS JOIN "@, indented(indent, "CROSS JOIN "@));
    lemma_drop_ws_break(s5, " CROSS JOIN "@, "CROSS JOIN "@, indented(indent, "CROSS JOIN "@), ni);
    let s7 = replace(s6, " JOIN "@, indented(indent, "JOIN "@));
    lemma_drop_ws_break(s6, " JOIN "@, "JOIN "@, indented(indent, "JOIN "@), ni);
    let s8 = replace(s7, " FROM "@, "\nFROM "@);
    lemma_drop_ws_break(s7, " FROM "@, "FROM "@, "\nFROM "@, nl);
    let s9 = replace(s8, " WHERE "@, "\nWHERE "@);
    lemma_drop_ws_break(s8, " WHERE "@, "WHERE "@, "\nWHERE "@, nl);
    let s10 = replace(s9, " GROUP BY "@, "\nGROUP BY "@);
    lemma_drop_ws_break(s9, " GROUP BY "@, "GROUP BY "@, "\nGROUP BY "@, nl);
    let s11 = replace(s10, " HAVING "@, "\nHAVING "@);
    lemma_drop_ws_break(s10, " HAVING "@, "HAVING "@, "\nHAVING "@, nl);
    let s12 = replace(s11, " ORDER BY "@, "\nORDER BY "@);
    lemma_drop_ws_break(s11, " ORDER BY "@, "ORDER BY "@, "\nORDER BY "@, nl);
    let s13 = replace(s12, " LIMIT "@, "\nLIMIT "@);
    lemma_drop_ws_break(s12, " LIMIT "@, "LIMIT "@, "\nLIMIT "@, nl);
    let s14 = replace(s13, " OFFSET "@, "\nOFFSET "@);
    lemma_drop_ws_break(s13, " OFFSET "@, "OFFSET "@, "\nOFFSET "@, nl);
    let s15 = replace(s14, " AND "@, indented(indent, "AND "@));
    lemma_drop_ws_break(s14, " AND "@, "AND "@, indented(indent, "AND "@), ni);
    let s16 = replace(s15, " OR "@, indented(indent, "OR "@));
    lemma_drop_ws_break(s15, " OR "@, "OR "@, indented(indent, "OR "@), ni);
    let s17 = replace(s16, " UNION "@, "\nUNION "@);
    lemma_drop_ws_break(s16, " UNION "@, "UNION "@, "\nUNION "@, nl);
    let s18 = replace(s17, " UNION ALL "@, "\nUNION ALL "@);
    lemma_drop_ws_break(s17, " UNION ALL "@, "UNION ALL "@, "\nUNION ALL "@, nl);
    let s19 = replace(s18, " INTERSECT "@, "\nINTERSECT "@);
    lemma_drop_ws_break(s18, " INTERSECT "@, "INTERSECT "@, "\nINTERSECT "@, nl);
    lemma_drop_ws_break(s19, " EXCEPT "@, "EXCEPT "@, "\nEXCEPT "@, nl);
}

/// Formatting changes only white space: with every white-space character
/// dropped, the output is the input, so each name, operator and literal is
/// kept, in order.  For the pretty format this holds when its indentation is
/// white space.
pub proof fn law_formatting_changes_only_white_space(f: OutputFormat, add_newline: bool, indent: Seq<char>, sql: Seq<char>)
    requires
        f == OutputFormat::Pretty ==> all_ws(indent),
    ensures
        format_spec(f, add_newline, indent, sql) matches Ok(s) ==> drop_ws(s) == drop_ws(sql),
{
    let body = format_body(f, sql, indent);
    if f == OutputFormat::Pretty {
        let s0 = trim(squeeze_spaces(sql));
        lemma_drop_ws_squeeze(sql);
        lemma_drop_ws_trim(squeeze_spaces(sql));
        let s1 = pretty_rewrites(s0, indent);
        lemma_drop_ws_pretty_rewrites(s0, indent);
        lemma_drop_ws_lines(s1);
        let t = trimmed_nonempty(lines(s1));
        lemma_drop_ws_trimmed_nonempty(lines(s1));
        let m = merge_join_lines(t, 0, indent);
        lemma_drop_ws_merge(t, 0, indent);
        assert(t.skip(0) =~= t);
        let r = reindented(m, indent);
        lemma_drop_ws_pure(indent);
        assert forall|i: int| 0 <= i < r.len() implies drop_ws(#[trigger] r[i]) == drop_ws(m[i]) by {
            lemma_drop_ws_concat(indent, m[i]);
            assert(Seq::<char>::empty() + drop_ws(m[i]) =~= drop_ws(m[i]));
        }
        lemma_drop_ws_all_pointwise(r, m);
        reveal_strlit("\n");
        assert(is_ws('\n'));
        lemma_drop_ws_pure("\n"@);
        lemma_drop_ws_join(r, "\n"@);
    } else if f == OutputFormat::Compact {
        let s0 = join(words(sql), " "@);
        lemma_drop_ws_words(sql);
        lemma_drop_ws_operator_rewrites(s0);
        let ks = compact_keywords();
        let s1 = operator_rewrites(s0);
        lemma_drop_ws_keyword_passes(s1, ks, ks.len() as int);
        let s2 = keyword_passes(s1, ks, ks.len() as int);
        lemma_drop_ws_squeeze(s2);
        lemma_drop_ws_trim(squeeze_spaces(s2));
    } else {
        lemma_drop_ws_collapse(sql, false);
        lemma_drop_ws_trim(collapse_ws(sql, false));
    }
    assert(drop_ws(body) == drop_ws(sql));
    lemma_drop_ws_concat(body, seq!['\n']);
    assert(is_ws('\n'));
    lemma_drop_ws_pure(seq!['\n']);
    assert(drop_ws(body) + Seq::<char>::empty() =~= drop_ws(body));
    assert(body.push('\n') =~= body + seq!['\n']);
}

/// Only blank input is refused, whatever the format.
pub proof fn law_only_blank_input_is_refused(f: OutputFormat, add_newline: bool, indent: Seq<char>, sql: Seq<char>)
    ensures
        format_spec(f, add_newline, indent, sql) is Err <==> trim(sql).len() == 0,
{
}

/// The view of a formatting result.
pub open spec fn format_view(r: Result<String, FormatError>) -> Result<Seq<char>, FormatErrorOf<Seq<char>>> {
    match r {
        Ok(s) => Ok(s@),
        Err(e) => Err(e@),
    }
}

// ===== The formatter =====

/// `"\n" + indent + word` as characters.
fn indented_exec(indent: &Vec<char>, word: &str) -> (r: Vec<char>)
    ensures
        r@ == indented(indent@, word@),
{
    let mut r: Vec<char> = Vec::new();
    append_str(&mut r, "\n");
    append_chars(&mut r, indent);
    append_str(&mut r, word);
    r
}

/// Replaces the literal `pat` by `rep`.
fn replace_lit(v: &Vec<char>, pat: &str, rep: &Vec<char>) -> (r: Vec<char>)
    requires
        pat@.len() > 0,
    ensures
        r@ == replace(v@, pat@, rep@),
{
    let p = chars_of(pat);
    replace_exec(v, &p, rep)
}

/// Replaces the literal `pat` by the literal `rep`.
fn replace_lits(v: &Vec<char>, pat: &str, rep: &str) -> (r: Vec<char>)
    requires
        pat@.len() > 0,
    ensures
        r@ == replace(v@, pat@, rep@),
{
    let q = chars_of(rep);
    replace_lit(v, pat, &q)
}

/// Output formatter for SQL queries.
#[derive(Debug)]
pub struct OutputFormatter {
    pub config: FormatConfig,
}

impl OutputFormatter {
    /// A formatter with the default configuration.
    pub fn new() -> (f: Self)
        ensures
            f.config.format == OutputFormat::Basic,
            f.config.add_newline,
            f.config.indent@ == "  "@,
            f.config.preserve_case,
    {
        OutputFormatter { config: FormatConfig::default() }
    }

    /// A formatter for `format`, the rest of the configuration default.
    pub fn with_format(format: OutputFormat) -> (f: Self)
        ensures
            f.config.format == format,
            f.config.add_newline,
            f.config.indent@ == "  "@,
            f.config.preserve_case,
    {
        let d = FormatConfig::default();
        OutputFormatter { config: FormatConfig { format, ..d } }
    }

    /// A formatter with a custom configuration.
    pub fn with_config(config: FormatConfig) -> (f: Self)
        ensures
            f.config == config,
    {
        OutputFormatter { config }
    }

    /// Formats SQL according to the configured format.
    pub fn format(&self, sql: &str) -> (r: Result<String, FormatError>)
        ensures
            format_view(r) == format_spec(self.config.format, self.config.add_newline, self.config.indent@, sql@),
    {
        let v = chars_of(sql);
        let t = trim_chars(&v);
        if t.len() == 0 {
            return Err(FormatErrorOf::InvalidSql(string_of_str("Empty SQL input")));
        }
        let formatted = match self.config.format {
            OutputFormat::Pretty => self.format_pretty(sql),
            OutputFormat::Compact => self.format_compact(sql),
            _ => self.format_basic(sql),
        };
        match formatted {
            Ok(s) => Ok(self.apply_final_formatting(s)),
            Err(e) => Err(e),
        }
    }

    /// The basic format.
    fn format_basic(&self, sql: &str) -> (r: Result<String, FormatError>)
        ensures
            (r matches Ok(s) && s@ == format_basic_spec(sql@)),
    {
        let v = chars_of(sql);
        let mut out: Vec<char> = Vec::new();
        let mut prev_was_space = false;
        let mut i: usize = 0;
        assert(v@.skip(0) =~= v@);
        while i < v.len()
            invariant
                i <= v.len(),
                v@ == sql@,
                out@ + collapse_ws(v@.skip(i as int), prev_was_space) == collapse_ws(v@, false),
            decreases v.len() - i,
        {
            let ghost before = out@;
            assert(v@.skip(i as int).drop_first() =~= v@.skip(i as int + 1));
            let c = v[i];
            if is_whitespace(c) {
                if !prev_was_space {
                    out.push(' ');
                    assert(before + (seq![' '] + collapse_ws(v@.skip(i as int + 1), true)) =~= out@
                        + collapse_ws(v@.skip(i as int + 1), true));
                    prev_was_space = true;
                }
            } else {
                out.push(c);
                assert(before + (seq![c] + collapse_ws(v@.skip(i as int + 1), false)) =~= out@
                    + collapse_ws(v@.skip(i as int + 1), false));
                prev_was_space = false;
            }
            i = i + 1;
        }
        assert(v@.skip(i as int) =~= Seq::<char>::empty());
        assert(out@ + Seq::<char>::empty() =~= out@);
        let t = trim_chars(&out);
        Ok(string_of_chars(&t))
    }

    /// The pretty format.
    fn format_pretty(&self, sql: &str) -> (r: Result<String, FormatError>)
        ensures
            (r matches Ok(s) && s@ == format_pretty_spec(sql@, self.config.indent@)),
    {
        proof {
            reveal_strlit(" LEFT JOIN ");
            reveal_strlit(" RIGHT JOIN ");
            reveal_strlit(" INNER JOIN ");
            reveal_strlit(" OUTER JOIN ");
            reveal_strlit(" FULL JOIN ");
            reveal_strlit(" CROSS JOIN ");
            reveal_strlit(" JOIN ");
            reveal_strlit(" FROM ");
            reveal_strlit(" WHERE ");
            reveal_strlit(" GROUP BY ");
            reveal_strlit(" HAVING ");
            reveal_strlit(" ORDER BY ");
            reveal_strlit(" LIMIT ");
            reveal_strlit(" OFFSET ");
            reveal_strlit(" AND ");
            reveal_strlit(" OR ");
            reveal_strlit(" UNION ");
            reveal_strlit(" UNION ALL ");
            reveal_strlit(" INTERSECT ");
            reveal_strlit(" EXCEPT ");
        }
        let indent = chars_of(self.config.indent.as_str());
        let v = chars_of(sql);
        let sq = squeeze_spaces_exec(&v);
        let s = trim_chars(&sq);
        let s = replace_lit(&s, " LEFT JOIN ", &indented_exec(&indent, "LEFT JOIN "));
        let s = replace_lit(&s, " RIGHT JOIN ", &indented_exec(&indent, "RIGHT JOIN "));
        let s = replace_lit(&s, " INNER JOIN ", &indented_exec(&indent, "INNER JOIN "));
        let s = replace_lit(&s, " OUTER JOIN ", &indented_exec(&indent, "OUTER JOIN "));
        let s = replace_lit(&s, " FULL JOIN ", &indented_exec(&indent, "FULL JOIN "));
        let s = replace_lit(&s, " CROSS JOIN ", &indented_exec(&indent, "CROSS JOIN "));
        let s = replace_lit(&s, " JOIN ", &indented_exec(&indent, "JOIN "));
        let s = replace_lits(&s, " FROM ", "\nFROM ");
        let s = replace_lits(&s, " WHERE ", "\nWHERE ");
        let s = replace_lits(&s, " GROUP BY ", "\nGROUP BY ");
        let s = replace_lits(&s, " HAVING ", "\nHAVING ");
        let s = replace_lits(&s, " ORDER BY ", "\nORDER BY ");
        let s = replace_lits(&s, " LIMIT ", "\nLIMIT ");
        let s = replace_lits(&s, " OFFSET ", "\nOFFSET ");
        let s = replace_lit(&s, " AND ", &indented_exec(&indent, "AND "));
        let s = replace_lit(&s, " OR ", &indented_exec(&indent, "OR "));
        let s = replace_lits(&s, " UNION ", "\nUNION ");
        let s = replace_lits(&s, " UNION ALL ", "\nUNION ALL ");
        let s = replace_lits(&s, " INTERSECT ", "\nINTERSECT ");
        let s = replace_lits(&s, " EXCEPT ", "\nEXCEPT ");
        let ls = lines_exec(&s);
        let kept = trimmed_nonempty_exec(&ls);
        let merged = merge_join_lines_exec(&kept, &indent);
        let shaped = reindented_exec(&merged, &indent);
        let nl = chars_of("\n");
        let joined = join_exec(&shaped, &nl);
        Ok(string_of_chars(&joined))
    }

    /// The compact format.
    fn format_compact(&self, sql: &str) -> (r: Result<String, FormatError>)
        ensures
            (r matches Ok(s) && s@ == format_compact_spec(sql@)),
    {
        proof {
            reveal_strlit(" = ");
            reveal_strlit(" > ");
            reveal_strlit(" < ");
            reveal_strlit(" >= ");
            reveal_strlit(" <= ");
            reveal_strlit(" != ");
            reveal_strlit(" <> ");
            reveal_strlit(",");
            reveal_strlit(",  ");
        }
        let v = chars_of(sql);
        let ws = words_exec(&v);
        let sp = chars_of(" ");
        let s = join_exec(&ws, &sp);
        let s = replace_lits(&s, " = ", "=");
        let s = replace_lits(&s, " > ", ">");
        let s = replace_lits(&s, " < ", "<");
        let s = replace_lits(&s, " >= ", ">=");
        let s = replace_lits(&s, " <= ", "<=");
        let s = replace_lits(&s, " != ", "!=");
        let s = replace_lits(&s, " <> ", "<>");
        let s = replace_lits(&s, ",", ", ");
        let s = replace_lits(&s, ",  ", ", ");
        let keywords = compact_keywords_exec();
        let ghost ks = compact_keywords();
        let mut result = s;
        let ghost start = result@;
        let mut k: usize = 0;
        while k < keywords.len()
            invariant
                k <= keywords.len(),
                vecs_view(keywords@) == ks,
                ks == compact_keywords(),
                result@ == keyword_passes(start, ks, k as int),
            decreases keywords.len() - k,
        {
            let kw = &keywords[k];
            let mut p1: Vec<char> = Vec::new();
            p1.push(' ');
            append_chars(&mut p1, kw);
            let mut r1 = chars_clone(&p1);
            r1.push(' ');
            let mut p2 = chars_clone(kw);
            p2.push(' ');
            p2.push(' ');
            let mut r2 = chars_clone(kw);
            r2.push(' ');
            proof {
                reveal_strlit(" ");
                reveal_strlit("  ");
                assert(p1@ =~= " "@ + ks[k as int]);
                assert(r1@ =~= " "@ + ks[k as int] + " "@);
                assert(p2@ =~= ks[k as int] + "  "@);
                assert(r2@ =~= ks[k as int] + " "@);
            }
            let t = replace_word_exec(&result, &p1, &r1);
            result = replace_exec(&t, &p2, &r2);
            k = k + 1;
        }
        let sq = squeeze_spaces_exec(&result);
        let t = trim_chars(&sq);
        Ok(string_of_chars(&t))
    }

    /// Adds the final newline when configured and missing.
    fn apply_final_formatting(&self, formatted: String) -> (r: String)
        ensures
            r@ == final_newline(self.config.add_newline, formatted@),
    {
        let v = chars_of(formatted.as_str());
        if self.config.add_newline && !ends_with_char(&v, '\n') {
            let mut f = formatted;
            f.append("\n");
            proof {
                reveal_strlit("\n");
            }
            assert(f@ =~= formatted@.push('\n'));
            f
        } else {
            formatted
        }
    }

    /// The current configuration.
    pub fn config(&self) -> (c: &FormatConfig)
        ensures
            *c == self.config,
    {
        &self.config
    }

    /// Replaces the configuration.
    pub fn set_config(&mut self, config: FormatConfig)
        ensures
            final(self).config == config,
    {
        self.config = config;
    }

    /// Replaces the output format only.
    pub fn set_format(&mut self, format: OutputFormat)
        ensures
            final(self).config == (FormatConfig { format, ..old(self).config }),
    {
        self.config.format = format;
    }
}

impl Default for OutputFormatter {
    fn default() -> (f: Self)
        ensures
            f.config.format == OutputFormat::Basic,
            f.config.add_newline,
            f.config.indent@ == "  "@,
            f.config.preserve_case,
    {
        OutputFormatter::new()
    }
}

/// The compact format's keywords, as character vectors.
fn compact_keywords_exec() -> (r: Vec<Vec<char>>)
    ensures
        vecs_view(r@) == compact_keywords(),
{
    let mut r: Vec<Vec<char>> = Vec::new();
    r.push(chars_of("SELECT"));
    r.push(chars_of("FROM"));
    r.push(chars_of("WHERE"));
    r.push(chars_of("GROUP BY"));
    r.push(chars_of("HAVING"));
    r.push(chars_of("ORDER BY"));
    r.push(chars_of("LIMIT"));
    r.push(chars_of("OFFSET"));
    r.push(chars_of("JOIN"));
    r.push(chars_of("LEFT JOIN"));
    r.push(chars_of("RIGHT JOIN"));
    r.push(chars_of("INNER JOIN"));
    r.push(chars_of("OUTER JOIN"));
    r.push(chars_of("UNION"));
    r.push(chars_of("INTERSECT"));
    r.push(chars_of("EXCEPT"));
    r.push(chars_of("AND"));
    r.push(chars_of("OR"));
    assert(vecs_view(r@) =~= compact_keywords());
    r
}

/// The trimmed lines that are not empty.
fn trimmed_nonempty_exec(ls: &Vec<Vec<char>>) -> (r: Vec<Vec<char>>)
    ensures
        vecs_view(r@) == trimmed_nonempty(vecs_view(ls@)),
{
    let ghost all = vecs_view(ls@);
    let mut out: Vec<Vec<char>> = Vec::new();
    let mut i: usize = 0;
    assert(all.skip(0) =~= all);
    assert(vecs_view(out@) =~= Seq::<Seq<char>>::empty());
    while i < ls.len()
        invariant
            i <= ls.len(),
            all == vecs_view(ls@),
            vecs_view(out@) + trimmed_nonempty(all.skip(i as int)) == trimmed_nonempty(all),
        decreases ls.len() - i,
    {
        let ghost before = vecs_view(out@);
        assert(all.skip(i as int).drop_first() =~= all.skip(i as int + 1));
        let t = trim_chars(&ls[i]);
        if t.len() > 0 {
            let ghost tv = t@;
            out.push(t);
            assert(vecs_view(out@) =~= before.push(tv));
            assert(before + (seq![tv] + trimmed_nonempty(all.skip(i as int + 1))) =~= vecs_view(out@)
                + trimmed_nonempty(all.skip(i as int + 1)));
        } else {
            assert(before + (Seq::<Seq<char>>::empty() + trimmed_nonempty(all.skip(i as int + 1))) =~= before
                + trimmed_nonempty(all.skip(i as int + 1)));
        }
        i = i + 1;
    }
    assert(all.skip(i as int) =~= Seq::<Seq<char>>::empty());
    assert(vecs_view(out@) + Seq::<Seq<char>>::empty() =~= vecs_view(out@));
    out
}

/// Whether a line is a lone join word.
fn is_join_word_exec(l: &Vec<char>) -> (b: bool)
    ensures
        b == is_join_word(l@),
{
    chars_eq_str(l, "LEFT") || chars_eq_str(l, "RIGHT") || chars_eq_str(l, "INNER") || chars_eq_str(
        l,
        "OUTER",
    ) || chars_eq_str(l, "FULL") || chars_eq_str(l, "CROSS")
}

/// Whether `l` begins with a logical operator or a bare `JOIN`.
fn is_continuation_exec(l: &Vec<char>) -> (b: bool)
    ensures
        b == is_continuation(l@),
{
    starts_with_str(l, "AND ") || starts_with_str(l, "OR ") || starts_with_str(l, "JOIN ")
}

/// The lines with the indentation put back before each continuation line.
fn reindented_exec(ls: &Vec<Vec<char>>, indent: &Vec<char>) -> (r: Vec<Vec<char>>)
    ensures
        vecs_view(r@) == reindented(vecs_view(ls@), indent@),
{
    let ghost all = vecs_view(ls@);
    let mut out: Vec<Vec<char>> = Vec::new();
    let mut i: usize = 0;
    while i < ls.len()
        invariant
            i <= ls.len(),
            all == vecs_view(ls@),
            vecs_view(out@) =~= reindented(all, indent@).take(i as int),
        decreases ls.len() - i,
    {
        let ghost before = vecs_view(out@);
        let l = if is_continuation_exec(&ls[i]) {
            let mut m = chars_clone(indent);
            append_chars(&mut m, &ls[i]);
            m
        } else {
            chars_clone(&ls[i])
        };
        let ghost lv = l@;
        assert(lv == reindented(all, indent@)[i as int]);
        out.push(l);
        assert(vecs_view(out@) =~= before.push(lv));
        assert(reindented(all, indent@).take(i + 1) =~= reindented(all, indent@).take(i as int).push(lv));
        i = i + 1;
    }
    assert(reindented(all, indent@).take(i as int) =~= reindented(all, indent@));
    out
}

/// The lines with lone join words merged into the `JOIN` line after them.
fn merge_join_lines_exec(ls: &Vec<Vec<char>>, indent: &Vec<char>) -> (r: Vec<Vec<char>>)
    ensures
        vecs_view(r@) == merge_join_lines(vecs_view(ls@), 0, indent@),
{
    let ghost all = vecs_view(ls@);
    let mut out: Vec<Vec<char>> = Vec::new();
    let mut i: usize = 0;
    assert(vecs_view(out@) + merge_join_lines(all, 0, indent@) =~= merge_join_lines(all, 0, indent@));
    while i < ls.len()
        invariant
            i <= ls.len() + 1,
            all == vecs_view(ls@),
            vecs_view(out@) + merge_join_lines(all, i as int, indent@) == merge_join_lines(all, 0, indent@),
        decreases ls.len() + 1 - i,
    {
        let ghost before = vecs_view(out@);
        if i + 1 < ls.len() && is_join_word_exec(&ls[i]) && starts_with_str(&ls[i + 1], "JOIN ") {
            let mut m = chars_clone(indent);
            append_chars(&mut m, &ls[i]);
            m.push(' ');
            append_chars(&mut m, &ls[i + 1]);
            proof {
                reveal_strlit(" ");
            }
            assert(m@ =~= indent@ + all[i as int] + " "@ + all[i as int + 1]);
            let ghost mv = m@;
            out.push(m);
            assert(vecs_view(out@) =~= before.push(mv));
            assert(before + (seq![mv] + merge_join_lines(all, i + 2, indent@)) =~= vecs_view(out@)
                + merge_join_lines(all, i + 2, indent@));
            i = i + 2;
        } else {
            let c = chars_clone(&ls[i]);
            let ghost cv = c@;
            out.push(c);
            assert(vecs_view(out@) =~= before.push(cv));
            assert(before + (seq![cv] + merge_join_lines(all, i + 1, indent@)) =~= vecs_view(out@)
                + merge_join_lines(all, i + 1, indent@));
            i = i + 1;
        }
    }
    assert(merge_join_lines(all, i as int, indent@) =~= Seq::<Seq<char>>::empty());
    assert(vecs_view(out@) + Seq::<Seq<char>>::empty() =~= vecs_view(out@));
    out
}

} // verus!
