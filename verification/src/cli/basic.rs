//! The basic command-line interface: five arguments, a fixed pretty
//! format for SQL, and Korean messages for argument errors.

use crate::text::{
    append_chars, append_str, chars_clone, chars_of, contains, join, join_exec, lines, lines_exec,
    replace, replace_exec, starts_with, starts_with_str, str_contains, string_of_chars,
    string_of_str, trim, trim_chars, vecs_view,
};
use vstd::prelude::*;
use vstd::string::*;

pub use crate::cli::pipeline::SqlDialectType;
use crate::cli::pipeline::{law_dialect_type_fixes_sql, transpile_for_type, transpiler_for};
use crate::error::{
    generation_message, lex_message, parse_message, transpile_message, TranspileError,
    TranspileErrorOf,
};

verus! {

/// Command-line arguments of the basic interface.
#[derive(Debug, Clone)]
pub struct CliArgs {
    pub input_file: Option<String>,
    pub output_file: Option<String>,
    pub dialect: SqlDialectType,
    pub pretty_print: bool,
    pub input_text: Option<String>,
}

/// The line breaks of the fixed pretty format, in the order it applies them.
pub open spec fn basic_rewrites(s: Seq<char>) -> Seq<char> {
    let s = replace(s, " LEFT JOIN "@, "\nLEFT JOIN "@);
    let s = replace(s, " RIGHT JOIN "@, "\nRIGHT JOIN "@);
    let s = replace(s, " INNER JOIN "@, "\nINNER JOIN "@);
    let s = replace(s, " OUTER JOIN "@, "\nOUTER JOIN "@);
    let s = replace(s, " JOIN "@, "\nJOIN "@);
    let s = replace(s, " FROM "@, "\nFROM "@);
    let s = replace(s, " WHERE "@, "\nWHERE "@);
    let s = replace(s, " GROUP BY "@, "\nGROUP BY "@);
    let s = replace(s, " HAVING "@, "\nHAVING "@);
    let s = replace(s, " ORDER BY "@, "\nORDER BY "@);
    let s = replace(s, " LIMIT "@, "\nLIMIT "@);
    let s = replace(s, " AND "@, "\n  AND "@);
    let s = replace(s, " OR "@, "\n  OR "@);
    let s = replace(s, " UNION "@, "\nUNION "@);
    replace(s, " UNION ALL "@, "\nUNION ALL "@)
}

/// A line of the fixed pretty format: trimmed, and indented by two spaces
/// when it starts with `AND ` or `OR `.
pub open spec fn basic_line(l: Seq<char>) -> Seq<char> {
    let t = trim(l);
    if starts_with(t, "AND "@) || starts_with(t, "OR "@) {
        "  "@ + t
    } else {
        t
    }
}

/// The formatted lines that are not empty, in order.
pub open spec fn basic_lines(ls: Seq<Seq<char>>) -> Seq<Seq<char>>
    decreases ls.len(),
{
    if ls.len() == 0 {
        Seq::empty()
    } else {
        let l = basic_line(ls[0]);
        (if l.len() == 0 { Seq::empty() } else { seq![l] }) + basic_lines(ls.drop_first())
    }
}

/// The fixed pretty format: clauses on lines of their own, logical
/// operators indented, and a final newline.
pub open spec fn format_sql_spec(sql: Seq<char>) -> Seq<char> {
    let f = join(basic_lines(lines(basic_rewrites(sql))), "\n"@);
    if f.len() > 0 && f.last() == '\n' {
        f
    } else {
        f.push('\n')
    }
}

/// Replaces the literal `pat` by the literal `rep`.
fn replace_lits(v: &Vec<char>, pat: &str, rep: &str) -> (r: Vec<char>)
    requires
        pat@.len() > 0,
    ensures
        r@ == replace(v@, pat@, rep@),
{
    let p = chars_of(pat);
    let q = chars_of(rep);
    replace_exec(v, &p, &q)
}

/// One formatted line.
fn basic_line_exec(l: &Vec<char>) -> (r: Vec<char>)
    ensures
        r@ == basic_line(l@),
{
    let t = trim_chars(l);
    if starts_with_str(&t, "AND ") || starts_with_str(&t, "OR ") {
        let mut r: Vec<char> = Vec::new();
        append_str(&mut r, "  ");
        append_chars(&mut r, &t);
        r
    } else {
        t
    }
}

/// Pretty-formats SQL with line breaks before clauses and indented logical
/// operators.
pub fn format_sql(sql: &str) -> (r: String)
    ensures
        r@ == format_sql_spec(sql@),
{
    proof {
        reveal_strlit(" LEFT JOIN ");
        reveal_strlit(" RIGHT JOIN ");
        reveal_strlit(" INNER JOIN ");
        reveal_strlit(" OUTER JOIN ");
        reveal_strlit(" JOIN ");
        reveal_strlit(" FROM ");
        reveal_strlit(" WHERE ");
        reveal_strlit(" GROUP BY ");
        reveal_strlit(" HAVING ");
        reveal_strlit(" ORDER BY ");
        reveal_strlit(" LIMIT ");
        reveal_strlit(" AND ");
        reveal_strlit(" OR ");
        reveal_strlit(" UNION ");
        reveal_strlit(" UNION ALL ");
    }
    let v = chars_of(sql);
    let s = replace_lits(&v, " LEFT JOIN ", "\nLEFT JOIN ");
    let s = replace_lits(&s, " RIGHT JOIN ", "\nRIGHT JOIN ");
    let s = replace_lits(&s, " INNER JOIN ", "\nINNER JOIN ");
    let s = replace_lits(&s, " OUTER JOIN ", "\nOUTER JOIN ");
    let s = replace_lits(&s, " JOIN ", "\nJOIN ");
    let s = replace_lits(&s, " FROM ", "\nFROM ");
    let s = replace_lits(&s, " WHERE ", "\nWHERE ");
    let s = replace_lits(&s, " GROUP BY ", "\nGROUP BY ");
    let s = replace_lits(&s, " HAVING ", "\nHAVING ");
    let s = replace_lits(&s, " ORDER BY ", "\nORDER BY ");
    let s = replace_lits(&s, " LIMIT ", "\nLIMIT ");
    let s = replace_lits(&s, " AND ", "\n  AND ");
    let s = replace_lits(&s, " OR ", "\n  OR ");
    let s = replace_lits(&s, " UNION ", "\nUNION ");
    let s = replace_lits(&s, " UNION ALL ", "\nUNION ALL ");
    let ls = lines_exec(&s);
    let ghost all = vecs_view(ls@);
    let mut out: Vec<Vec<char>> = Vec::new();
    let mut i: usize = 0;
    assert(all.skip(0) =~= all);
    assert(vecs_view(out@) =~= Seq::<Seq<char>>::empty());
    while i < ls.len()
        invariant
            i <= ls.len(),
            all == vecs_view(ls@),
            vecs_view(out@) + basic_lines(all.skip(i as int)) == basic_lines(all),
        decreases ls.len() - i,
    {
        let ghost before = vecs_view(out@);
        assert(all.skip(i as int).drop_first() =~= all.skip(i as int + 1));
        let l = basic_line_exec(&ls[i]);
        if l.len() > 0 {
            let ghost lv = l@;
            out.push(l);
            assert(vecs_view(out@) =~= before.push(lv));
            assert(before + (seq![lv] + basic_lines(all.skip(i as int + 1))) =~= vecs_view(out@)
                + basic_lines(all.skip(i as int + 1)));
        } else {
            assert(before + (Seq::<Seq<char>>::empty() + basic_lines(all.skip(i as int + 1))) =~= before
                + basic_lines(all.skip(i as int + 1)));
        }
        i = i + 1;
    }
    assert(all.skip(i as int) =~= Seq::<Seq<char>>::empty());
    assert(vecs_view(out@) + Seq::<Seq<char>>::empty() =~= vecs_view(out@));
    let nl = chars_of("\n");
    let mut f = join_exec(&out, &nl);
    if !(f.len() > 0 && f[f.len() - 1] == '\n') {
        f.push('\n');
    }
    string_of_chars(&f)
}

/// The message shown for an argument error, from the parser's message.
pub open spec fn argument_error_spec(message: Seq<char>) -> Seq<char> {
    if contains(message, "required arguments were not provided"@) {
        "필수 인수가 제공되지 않았습니다. --help를 사용하여 사용법을 확인하세요."@
    } else if contains(message, "invalid value"@) {
        "잘못된 값이 제공되었습니다. 지원되는 값들을 확인하세요."@
    } else if contains(message, "conflicts with"@) {
        "충돌하는 옵션이 함께 사용되었습니다. -i와 -t 옵션은 동시에 사용할 수 없습니다."@
    } else {
        message
    }
}

/// The message shown for an argument error: a friendlier Korean message for
/// missing, invalid and conflicting arguments, else the parser's message.
pub fn argument_error_message(message: &str) -> (r: String)
    ensures
        r@ == argument_error_spec(message@),
{
    if str_contains(message, "required arguments were not provided") {
        string_of_str("필수 인수가 제공되지 않았습니다. --help를 사용하여 사용법을 확인하세요.")
    } else if str_contains(message, "invalid value") {
        string_of_str("잘못된 값이 제공되었습니다. 지원되는 값들을 확인하세요.")
    } else if str_contains(message, "conflicts with") {
        string_of_str("충돌하는 옵션이 함께 사용되었습니다. -i와 -t 옵션은 동시에 사용할 수 없습니다.")
    } else {
        string_of_str(message)
    }
}

/// What the basic interface outputs for `code`: the query for the chosen
/// dialect, in the fixed pretty format when asked for; the conversion error
/// otherwise.
pub open spec fn convert_input_spec(dialect: SqlDialectType, pretty_print: bool, code: Seq<char>) -> Result<Seq<char>, TranspileErrorOf<Seq<char>>> {
    match transpile_for_type(dialect, code) {
        Ok(sql) => Ok(if pretty_print { format_sql_spec(sql) } else { sql }),
        Err(e) => Err(e),
    }
}

/// Converts input as the basic interface does, between reading it and
/// writing the output.
pub fn convert_input(args: &CliArgs, dplyr_code: &str) -> (r: Result<String, TranspileError>)
    ensures
        match r {
            Ok(s) => convert_input_spec(args.dialect, args.pretty_print, dplyr_code@) == Ok::<Seq<char>, TranspileErrorOf<Seq<char>>>(s@),
            Err(e) => convert_input_spec(args.dialect, args.pretty_print, dplyr_code@) == Err::<Seq<char>, TranspileErrorOf<Seq<char>>>(e@),
        },
{
    let transpiler = transpiler_for(&args.dialect);
    proof {
        law_dialect_type_fixes_sql(transpiler.dialect_spec(), args.dialect, dplyr_code@);
    }
    match transpiler.transpile(dplyr_code) {
        Ok(sql) => if args.pretty_print {
            Ok(format_sql(sql.as_str()))
        } else {
            Ok(sql)
        },
        Err(e) => Err(e),
    }
}

/// The advice on a conversion error of the basic interface, by the stage
/// that failed, with a hint drawn from the stage's message.
pub open spec fn conversion_advice(e: TranspileErrorOf<Seq<char>>) -> Seq<char> {
    match e {
        TranspileErrorOf::LexError(l) => "토큰화 단계에서 오류가 발생했습니다.\n문제: 입력 코드의 문법에 오류가 있습니다.\n\n해결 방법:\n  • 문자열 따옴표가 올바르게 닫혔는지 확인하세요\n  • 특수 문자나 이스케이프 문자를 확인하세요\n  • 지원되지 않는 문자가 포함되어 있지 않은지 확인하세요\n\n올바른 예시:\n  data %>% select(\"name\", \"age\") %>% filter(age > 18)\n"@ + if contains(lex_message(l), "Unexpected character"@) {
            "\n힌트: 예상치 못한 문자가 발견되었습니다. R 문법에 맞는 문자만 사용하세요.\n"@
        } else if contains(lex_message(l), "Unterminated string"@) {
            "\n힌트: 문자열이 제대로 닫히지 않았습니다. 따옴표를 확인하세요.\n"@
        } else {
            Seq::empty()
        },
        TranspileErrorOf::ParseError(p) => "구문 분석 단계에서 오류가 발생했습니다.\n문제: dplyr 함수의 사용법이 올바르지 않습니다.\n\n해결 방법:\n  • dplyr 함수 이름이 올바른지 확인하세요 (select, filter, mutate, arrange, group_by, summarise)\n  • 함수의 인수가 올바르게 제공되었는지 확인하세요\n  • 파이프 연산자 (%>%)가 올바르게 사용되었는지 확인하세요\n\n올바른 예시:\n  data %>% select(name, age) %>% filter(age > 18)\n  data %>% mutate(adult = age >= 18) %>% arrange(desc(age))\n  data %>% group_by(category) %>% summarise(count = n())\n"@ + if contains(parse_message(p), "Unexpected token"@) {
            "\n힌트: 예상치 못한 토큰이 발견되었습니다. 문법을 다시 확인하세요.\n"@
        } else if contains(parse_message(p), "Invalid operation"@) {
            "\n힌트: 지원되지 않는 dplyr 연산입니다. 지원되는 함수를 사용하세요.\n"@
        } else {
            Seq::empty()
        },
        TranspileErrorOf::GenerationError(g) => "SQL 생성 단계에서 오류가 발생했습니다.\n문제: 선택한 SQL 방언에서 지원되지 않는 기능이거나 복잡한 표현식입니다.\n\n해결 방법:\n  • 다른 SQL 방언을 시도해보세요 (-d 옵션 사용)\n  • 더 간단한 표현식으로 나누어 작성해보세요\n  • 지원되는 함수와 연산자만 사용하세요\n\n지원되는 SQL 방언:\n  • postgresql (기본값) - 가장 많은 기능 지원\n  • mysql - MySQL 특화 기능\n  • sqlite - 경량 데이터베이스용\n  • duckdb - 분석용 데이터베이스\n"@ + if contains(generation_message(g), "Unsupported operation"@) {
            "\n힌트: 현재 SQL 방언에서 지원되지 않는 연산입니다.\n"@
        } else if contains(generation_message(g), "Complex expression"@) {
            "\n힌트: 표현식이 너무 복잡합니다. 더 간단하게 나누어 작성해보세요.\n"@
        } else {
            Seq::empty()
        },
        _ => Seq::empty(),
    }
}

/// The report of a conversion error in the basic interface.
pub open spec fn conversion_report(e: TranspileErrorOf<Seq<char>>) -> Seq<char> {
    "변환 오류: "@ + transpile_message(e) + "\n\n"@ + conversion_advice(e)
        + "\n추가 도움이 필요하시면 --help 옵션을 사용하거나 문서를 참조하세요.\n"@
}

/// The stage advice of a conversion error.
fn conversion_advice_text(e: &TranspileError) -> (r: String)
    ensures
        r@ == conversion_advice(e@),
{
    match e {
        TranspileErrorOf::LexError(l) => {
            let m = l.to_string();
            let mut out = string_of_str("토큰화 단계에서 오류가 발생했습니다.\n문제: 입력 코드의 문법에 오류가 있습니다.\n\n해결 방법:\n  • 문자열 따옴표가 올바르게 닫혔는지 확인하세요\n  • 특수 문자나 이스케이프 문자를 확인하세요\n  • 지원되지 않는 문자가 포함되어 있지 않은지 확인하세요\n\n올바른 예시:\n  data %>% select(\"name\", \"age\") %>% filter(age > 18)\n");
            if str_contains(m.as_str(), "Unexpected character") {
                out.append("\n힌트: 예상치 못한 문자가 발견되었습니다. R 문법에 맞는 문자만 사용하세요.\n");
            } else if str_contains(m.as_str(), "Unterminated string") {
                out.append("\n힌트: 문자열이 제대로 닫히지 않았습니다. 따옴표를 확인하세요.\n");
            }
            out
        },
        TranspileErrorOf::ParseError(p) => {
            let m = p.to_string();
            let mut out = string_of_str("구문 분석 단계에서 오류가 발생했습니다.\n문제: dplyr 함수의 사용법이 올바르지 않습니다.\n\n해결 방법:\n  • dplyr 함수 이름이 올바른지 확인하세요 (select, filter, mutate, arrange, group_by, summarise)\n  • 함수의 인수가 올바르게 제공되었는지 확인하세요\n  • 파이프 연산자 (%>%)가 올바르게 사용되었는지 확인하세요\n\n올바른 예시:\n  data %>% select(name, age) %>% filter(age > 18)\n  data %>% mutate(adult = age >= 18) %>% arrange(desc(age))\n  data %>% group_by(category) %>% summarise(count = n())\n");
            if str_contains(m.as_str(), "Unexpected token") {
                out.append("\n힌트: 예상치 못한 토큰이 발견되었습니다. 문법을 다시 확인하세요.\n");
            } else if str_contains(m.as_str(), "Invalid operation") {
                out.append("\n힌트: 지원되지 않는 dplyr 연산입니다. 지원되는 함수를 사용하세요.\n");
            }
            out
        },
        TranspileErrorOf::GenerationError(g) => {
            let m = g.to_string();
            let mut out = string_of_str("SQL 생성 단계에서 오류가 발생했습니다.\n문제: 선택한 SQL 방언에서 지원되지 않는 기능이거나 복잡한 표현식입니다.\n\n해결 방법:\n  • 다른 SQL 방언을 시도해보세요 (-d 옵션 사용)\n  • 더 간단한 표현식으로 나누어 작성해보세요\n  • 지원되는 함수와 연산자만 사용하세요\n\n지원되는 SQL 방언:\n  • postgresql (기본값) - 가장 많은 기능 지원\n  • mysql - MySQL 특화 기능\n  • sqlite - 경량 데이터베이스용\n  • duckdb - 분석용 데이터베이스\n");
            if str_contains(m.as_str(), "Unsupported operation") {
                out.append("\n힌트: 현재 SQL 방언에서 지원되지 않는 연산입니다.\n");
            } else if str_contains(m.as_str(), "Complex expression") {
                out.append("\n힌트: 표현식이 너무 복잡합니다. 더 간단하게 나누어 작성해보세요.\n");
            }
            out
        },
        _ => String::new(),
    }
}

/// The report the basic interface writes to standard error for a
/// conversion error.
pub fn conversion_error_report(error: &TranspileError) -> (r: String)
    ensures
        r@ == conversion_report(error@),
{
    let mut out = string_of_str("변환 오류: ");
    out.append(error.to_string().as_str());
    out.append("\n\n");
    out.append(conversion_advice_text(error).as_str());
    out.append("\n추가 도움이 필요하시면 --help 옵션을 사용하거나 문서를 참조하세요.\n");
    out
}

/// The advice on an input or output error of the basic interface, by what
/// its message says.
pub open spec fn io_advice(message: Seq<char>) -> Seq<char> {
    if contains(message, "Input file not found"@) {
        "해결 방법:\n  • 파일 경로가 올바른지 확인하세요\n  • 파일이 존재하는지 확인하세요\n  • 파일에 대한 읽기 권한이 있는지 확인하세요\n\n예시:\n  libdplyr -i /path/to/your/file.R\n  libdplyr -i ./data/input.R -o output.sql\n"@
    } else if contains(message, "File read error"@) {
        "해결 방법:\n  • 파일에 대한 읽기 권한이 있는지 확인하세요\n  • 파일이 손상되지 않았는지 확인하세요\n  • 디스크 공간이 충분한지 확인하세요\n\n권한 확인:\n  ls -la your_file.R\n"@
    } else if contains(message, "File write error"@) {
        "해결 방법:\n  • 출력 디렉토리에 대한 쓰기 권한이 있는지 확인하세요\n  • 디스크 공간이 충분한지 확인하세요\n  • 출력 파일이 다른 프로그램에서 사용 중이 아닌지 확인하세요\n\n권한 확인:\n  ls -la /path/to/output/directory/\n"@
    } else if contains(message, "No input provided"@) {
        "해결 방법:\n  • -i 옵션으로 입력 파일을 지정하세요: libdplyr -i input.R\n  • -t 옵션으로 직접 코드를 입력하세요: libdplyr -t \"data %>% select(name)\"\n  • 파이프로 입력을 전달하세요: echo \"data %>% select(*)\" | libdplyr\n\n상세한 사용법은 다음 명령으로 확인하세요:\n  libdplyr --help\n"@
    } else if contains(message, "Standard input read error"@) {
        "해결 방법:\n  • 표준 입력이 올바르게 제공되었는지 확인하세요\n  • 파이프 연결이 정상적인지 확인하세요\n\n예시:\n  echo \"data %>% select(name)\" | libdplyr\n  cat input.R | libdplyr -d mysql\n"@
    } else {
        "일반적인 해결 방법:\n  • 파일 경로와 권한을 확인하세요\n  • 디스크 공간을 확인하세요\n  • 다른 프로그램이 파일을 사용 중인지 확인하세요\n"@
    }
}

/// The report the basic interface writes for an input or output error.
pub open spec fn io_report(message: Seq<char>) -> Seq<char> {
    "파일 입출력 오류: "@ + message + "\n\n"@ + io_advice(message)
}

/// The report the basic interface writes for an input or output error.
pub fn io_error_report(message: &str) -> (r: String)
    ensures
        r@ == io_report(message@),
{
    let advice = if str_contains(message, "Input file not found") {
        "해결 방법:\n  • 파일 경로가 올바른지 확인하세요\n  • 파일이 존재하는지 확인하세요\n  • 파일에 대한 읽기 권한이 있는지 확인하세요\n\n예시:\n  libdplyr -i /path/to/your/file.R\n  libdplyr -i ./data/input.R -o output.sql\n"
    } else if str_contains(message, "File read error") {
        "해결 방법:\n  • 파일에 대한 읽기 권한이 있는지 확인하세요\n  • 파일이 손상되지 않았는지 확인하세요\n  • 디스크 공간이 충분한지 확인하세요\n\n권한 확인:\n  ls -la your_file.R\n"
    } else if str_contains(message, "File write error") {
        "해결 방법:\n  • 출력 디렉토리에 대한 쓰기 권한이 있는지 확인하세요\n  • 디스크 공간이 충분한지 확인하세요\n  • 출력 파일이 다른 프로그램에서 사용 중이 아닌지 확인하세요\n\n권한 확인:\n  ls -la /path/to/output/directory/\n"
    } else if str_contains(message, "No input provided") {
        "해결 방법:\n  • -i 옵션으로 입력 파일을 지정하세요: libdplyr -i input.R\n  • -t 옵션으로 직접 코드를 입력하세요: libdplyr -t \"data %>% select(name)\"\n  • 파이프로 입력을 전달하세요: echo \"data %>% select(*)\" | libdplyr\n\n상세한 사용법은 다음 명령으로 확인하세요:\n  libdplyr --help\n"
    } else if str_contains(message, "Standard input read error") {
        "해결 방법:\n  • 표준 입력이 올바르게 제공되었는지 확인하세요\n  • 파이프 연결이 정상적인지 확인하세요\n\n예시:\n  echo \"data %>% select(name)\" | libdplyr\n  cat input.R | libdplyr -d mysql\n"
    } else {
        "일반적인 해결 방법:\n  • 파일 경로와 권한을 확인하세요\n  • 디스크 공간을 확인하세요\n  • 다른 프로그램이 파일을 사용 중인지 확인하세요\n"
    };
    let mut out = string_of_str("파일 입출력 오류: ");
    out.append(message);
    out.append("\n\n");
    out.append(advice);
    out
}

/// The report the basic interface writes for an argument error.
pub open spec fn argument_report(message: Seq<char>) -> Seq<char> {
    "명령줄 인수 오류: "@ + message + "\n\n도움말을 보려면 다음 명령을 실행하세요:\n  libdplyr --help\n\n기본 사용법:\n  libdplyr -t \"data %>% select(name, age)\"\n  libdplyr -i input.R -o output.sql\n  echo \"data %>% filter(age > 18)\" | libdplyr\n"@
}

/// The report the basic interface writes for an argument error.
pub fn argument_error_report(message: &str) -> (r: String)
    ensures
        r@ == argument_report(message@),
{
    let mut out = string_of_str("명령줄 인수 오류: ");
    out.append(message);
    out.append("\n\n도움말을 보려면 다음 명령을 실행하세요:\n  libdplyr --help\n\n기본 사용법:\n  libdplyr -t \"data %>% select(name, age)\"\n  libdplyr -i input.R -o output.sql\n  echo \"data %>% filter(age > 18)\" | libdplyr\n");
    out
}

/// The hint lines of the short English error report.
pub open spec fn english_hint(e: TranspileErrorOf<Seq<char>>) -> Seq<char> {
    match e {
        TranspileErrorOf::LexError(_) => "Hint: Please check the syntax of your input code.\n      Pay special attention to string quotes and special characters.\n"@,
        TranspileErrorOf::ParseError(_) => "Hint: Please check the usage of dplyr functions.\n      Example: data %>% select(col1, col2) %>% filter(col1 > 10)\n"@,
        TranspileErrorOf::GenerationError(_) => "Hint: The selected SQL dialect may not support this feature.\n      Try a different dialect or use simpler expressions.\n"@,
        _ => Seq::empty(),
    }
}

/// The short English report of a conversion error: the message and a hint
/// for the stage that failed.
pub fn error_report(error: &TranspileError) -> (r: String)
    ensures
        r@ == "Error: "@ + transpile_message(error@) + "\n"@ + english_hint(error@),
{
    let mut out = string_of_str("Error: ");
    out.append(error.to_string().as_str());
    out.append("\n");
    match error {
        TranspileErrorOf::LexError(_) => out.append("Hint: Please check the syntax of your input code.\n      Pay special attention to string quotes and special characters.\n"),
        TranspileErrorOf::ParseError(_) => out.append("Hint: Please check the usage of dplyr functions.\n      Example: data %>% select(col1, col2) %>% filter(col1 > 10)\n"),
        TranspileErrorOf::GenerationError(_) => out.append("Hint: The selected SQL dialect may not support this feature.\n      Try a different dialect or use simpler expressions.\n"),
        _ => {},
    }
    out
}

} // verus!
