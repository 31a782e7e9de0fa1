//! Error reporting of the command line: exit codes, error categories, and
//! the information (message, description, context, suggestions) that is
//! shown for each kind of error, in English or Korean.

use crate::cli::validator::ValidationErrorInfo;
use crate::error::{
    generation_message, lex_message, parse_message, TranspileError, TranspileErrorOf,
};
use crate::text::{string_of_str, strings_view};
use vstd::prelude::*;
use vstd::string::*;

verus! {

/// Standard exit codes of the command line.
#[derive(Debug, Clone, Copy, PartialEq, Eq)]
pub struct ExitCode;

impl ExitCode {
    pub const SUCCESS: i32 = 0;
    pub const GENERAL_ERROR: i32 = 1;
    pub const INVALID_ARGUMENTS: i32 = 2;
    pub const IO_ERROR: i32 = 3;
    pub const VALIDATION_ERROR: i32 = 4;
    pub const TRANSPILATION_ERROR: i32 = 5;
    pub const CONFIG_ERROR: i32 = 6;
    pub const PERMISSION_ERROR: i32 = 7;
    pub const SYSTEM_ERROR: i32 = 8;
    pub const NETWORK_ERROR: i32 = 9;
    pub const TIMEOUT_ERROR: i32 = 10;
    pub const INTERNAL_ERROR: i32 = 11;
}

/// Categories of errors.
#[derive(Debug, Clone, Copy, PartialEq, Eq, Structural)]
pub enum ErrorCategory {
    UserInput,
    System,
    Application,
    Configuration,
    Network,
    Internal,
}

/// The kinds of I/O error the messages tell apart.
#[derive(Debug, Clone, Copy, PartialEq, Eq, Structural)]
pub enum IoErrorKind {
    NotFound,
    PermissionDenied,
    InvalidInput,
    Other,
}

/// Information shown for an error.
#[derive(Debug, Clone)]
pub struct ErrorInfo {
    pub category: ErrorCategory,
    pub exit_code: i32,
    pub message: String,
    pub description: Option<String>,
    pub context: Option<String>,
    pub suggestions: Vec<String>,
    pub use_stderr: bool,
    pub show_help: bool,
}

/// The view of the information shown for an error.
pub struct SpecInfo {
    pub category: ErrorCategory,
    pub exit_code: i32,
    pub message: Seq<char>,
    pub description: Option<Seq<char>>,
    pub context: Option<Seq<char>>,
    pub suggestions: Seq<Seq<char>>,
    pub use_stderr: bool,
    pub show_help: bool,
}

/// The view of an optional string.
pub open spec fn opt_text(o: Option<String>) -> Option<Seq<char>> {
    match o {
        Some(s) => Some(s@),
        None => None,
    }
}

impl View for ErrorInfo {
    type V = SpecInfo;

    open spec fn view(&self) -> SpecInfo {
        SpecInfo {
            category: self.category,
            exit_code: self.exit_code,
            message: self.message@,
            description: opt_text(self.description),
            context: opt_text(self.context),
            suggestions: strings_view(self.suggestions@),
            use_stderr: self.use_stderr,
            show_help: self.show_help,
        }
    }
}

/// Error information with a description and suggestions, reported on
/// standard error, without context or help.
pub open spec fn info(
    category: ErrorCategory,
    exit_code: i32,
    message: Seq<char>,
    description: Seq<char>,
    suggestions: Seq<Seq<char>>,
    show_help: bool,
) -> SpecInfo {
    SpecInfo {
        category,
        exit_code,
        message,
        description: Some(description),
        context: None,
        suggestions,
        use_stderr: true,
        show_help,
    }
}

impl ErrorInfo {
    /// Information with a category, exit code and message only.
    pub fn new(category: ErrorCategory, exit_code: i32, message: String) -> (r: Self)
        ensures
            r@ == (SpecInfo {
                category,
                exit_code,
                message: message@,
                description: None,
                context: None,
                suggestions: Seq::empty(),
                use_stderr: true,
                show_help: false,
            }),
    {
        let r = ErrorInfo {
            category,
            exit_code,
            message,
            description: None,
            context: None,
            suggestions: Vec::new(),
            use_stderr: true,
            show_help: false,
        };
        assert(r@.suggestions =~= Seq::<Seq<char>>::empty());
        r
    }

    /// Adds a detailed description.
    pub fn with_description(self, description: String) -> (r: Self)
        ensures
            r@ == (SpecInfo { description: Some(description@), ..self@ }),
    {
        let mut s = self;
        s.description = Some(description);
        s
    }

    /// Adds context information.
    pub fn with_context(self, context: String) -> (r: Self)
        ensures
            r@ == (SpecInfo { context: Some(context@), ..self@ }),
    {
        let mut s = self;
        s.context = Some(context);
        s
    }

    /// Sets the suggestions.
    pub fn with_suggestions(self, suggestions: Vec<String>) -> (r: Self)
        ensures
            r@ == (SpecInfo { suggestions: strings_view(suggestions@), ..self@ }),
    {
        let mut s = self;
        s.suggestions = suggestions;
        s
    }

    /// Sets whether help is shown.
    pub fn with_help(self, show_help: bool) -> (r: Self)
        ensures
            r@ == (SpecInfo { show_help, ..self@ }),
    {
        let mut s = self;
        s.show_help = show_help;
        s
    }

    /// Sets whether the error goes to standard error.
    pub fn with_stderr(self, use_stderr: bool) -> (r: Self)
        ensures
            r@ == (SpecInfo { use_stderr, ..self@ }),
    {
        let mut s = self;
        s.use_stderr = use_stderr;
        s
    }

    /// The text of this error (its message).
    pub fn to_string(&self) -> (r: String)
        ensures
            r@ == self.message@,
    {
        self.message.clone()
    }
}

// ===== What is shown for each error =====

/// The information shown for a conversion error.
pub open spec fn transpile_error_info(korean: bool, e: TranspileErrorOf<Seq<char>>) -> SpecInfo {
    match e {
        TranspileErrorOf::LexError(l) => if korean {
            info(ErrorCategory::UserInput, ExitCode::VALIDATION_ERROR, "토큰화 오류: "@ + lex_message(l),
                "입력 코드의 문법에 오류가 있습니다."@,
                seq![
                    "문자열 따옴표가 올바르게 닫혔는지 확인하세요"@,
                    "특수 문자나 이스케이프 문자를 확인하세요"@,
                    "지원되지 않는 문자가 포함되어 있지 않은지 확인하세요"@,
                ], false)
        } else {
            info(ErrorCategory::UserInput, ExitCode::VALIDATION_ERROR, "Lexical error: "@ + lex_message(l),
                "There is a syntax error in the input code."@,
                seq![
                    "Check if string quotes are properly closed"@,
                    "Verify special characters and escape sequences"@,
                    "Ensure no unsupported characters are included"@,
                ], false)
        },
        TranspileErrorOf::ParseError(p) => if korean {
            info(ErrorCategory::UserInput, ExitCode::VALIDATION_ERROR, "구문 분석 오류: "@ + parse_message(p),
                "dplyr 함수의 사용법이 올바르지 않습니다."@,
                seq![
                    "dplyr 함수 이름이 올바른지 확인하세요"@,
                    "함수의 인수가 올바르게 제공되었는지 확인하세요"@,
                    "파이프 연산자 (%>%)가 올바르게 사용되었는지 확인하세요"@,
                    "괄호와 쉼표 위치를 확인하세요"@,
                ], true)
        } else {
            info(ErrorCategory::UserInput, ExitCode::VALIDATION_ERROR, "Parse error: "@ + parse_message(p),
                "The dplyr function usage is incorrect."@,
                seq![
                    "Check if dplyr function names are correct"@,
                    "Verify function arguments are properly provided"@,
                    "Ensure pipe operator (%>%) is used correctly"@,
                    "Check parentheses and comma placement"@,
                ], true)
        },
        TranspileErrorOf::GenerationError(g) => if korean {
            info(ErrorCategory::Application, ExitCode::TRANSPILATION_ERROR, "SQL 생성 오류: "@ + generation_message(g),
                "선택한 SQL 방언에서 지원되지 않는 기능이거나 복잡한 표현식입니다."@,
                seq![
                    "다른 SQL 방언을 시도해보세요 (-d 옵션 사용)"@,
                    "더 간단한 표현식으로 나누어 작성해보세요"@,
                    "지원되는 함수와 연산자만 사용하세요"@,
                ], false)
        } else {
            info(ErrorCategory::Application, ExitCode::TRANSPILATION_ERROR, "SQL generation error: "@ + generation_message(g),
                "The feature is not supported in the selected SQL dialect or the expression is too complex."@,
                seq![
                    "Try a different SQL dialect (use -d option)"@,
                    "Break down into simpler expressions"@,
                    "Use only supported functions and operators"@,
                ], false)
        },
        TranspileErrorOf::IoError(s) => if korean {
            info(ErrorCategory::System, ExitCode::IO_ERROR, "입출력 오류: "@ + s,
                "파일이나 입출력 작업에서 오류가 발생했습니다."@,
                seq!["파일 경로와 권한을 확인하세요"@, "디스크 공간을 확인하세요"@], false)
        } else {
            info(ErrorCategory::System, ExitCode::IO_ERROR, "I/O error: "@ + s,
                "An error occurred during file or I/O operations."@,
                seq!["Check file paths and permissions"@, "Verify disk space availability"@], false)
        },
        TranspileErrorOf::ValidationError(s) => if korean {
            info(ErrorCategory::UserInput, ExitCode::VALIDATION_ERROR, "검증 오류: "@ + s,
                "dplyr 코드 검증에 실패했습니다."@,
                seq!["dplyr 문법을 확인하세요"@, "함수 사용법을 확인하세요"@], false)
        } else {
            info(ErrorCategory::UserInput, ExitCode::VALIDATION_ERROR, "Validation error: "@ + s,
                "dplyr code validation failed."@,
                seq!["Check dplyr syntax"@, "Verify function usage"@], false)
        },
        TranspileErrorOf::ConfigurationError(s) => if korean {
            info(ErrorCategory::Configuration, ExitCode::CONFIG_ERROR, "설정 오류: "@ + s,
                "설정이나 구성에 문제가 있습니다."@,
                seq!["설정 옵션을 확인하세요"@, "필수 매개변수가 제공되었는지 확인하세요"@], false)
        } else {
            info(ErrorCategory::Configuration, ExitCode::CONFIG_ERROR, "Configuration error: "@ + s,
                "There is a problem with configuration or settings."@,
                seq!["Check configuration options"@, "Verify all required parameters are provided"@], false)
        },
        TranspileErrorOf::SystemError(s) => if korean {
            info(ErrorCategory::System, ExitCode::SYSTEM_ERROR, "시스템 오류: "@ + s,
                "시스템 레벨에서 오류가 발생했습니다."@,
                seq!["시스템 권한을 확인하세요"@, "시그널 처리나 파이프라인 설정을 확인하세요"@], false)
        } else {
            info(ErrorCategory::System, ExitCode::SYSTEM_ERROR, "System error: "@ + s,
                "A system-level error occurred."@,
                seq!["Check system permissions"@, "Verify signal handling or pipeline configuration"@], false)
        },
    }
}

/// The message, description and suggestions for a validation failure of
/// type `error_type` with message `message`.
pub open spec fn validation_texts(korean: bool, error_type: Seq<char>, message: Seq<char>) -> (Seq<char>, Option<Seq<char>>, Seq<Seq<char>>) {
    if korean {
        if error_type == "input"@ {
            ("입력 오류: "@ + message, Some("유효한 dplyr 코드를 제공해주세요."@), seq!["예시: data %>% select(name, age)"@])
        } else if error_type == "lex"@ {
            ("토큰화 오류: "@ + message, Some("입력 코드의 문법을 확인해주세요."@),
                seq!["문자열 따옴표를 확인하세요"@, "특수 문자를 확인하세요"@])
        } else if error_type == "parse"@ {
            ("구문 분석 오류: "@ + message, Some("dplyr 함수 사용법을 확인해주세요."@),
                seq!["함수 이름을 확인하세요"@, "파이프 연산자 사용법을 확인하세요"@])
        } else if error_type == "complexity"@ {
            ("복잡도 오류: "@ + message, Some("쿼리가 너무 복잡합니다."@),
                seq!["쿼리를 더 간단한 부분으로 나누세요"@, "불필요한 연산을 제거하세요"@])
        } else if error_type == "semantic"@ {
            ("의미적 오류: "@ + message, Some("쿼리의 논리적 구조를 확인해주세요."@),
                seq!["집계 함수 사용 시 group_by()를 고려하세요"@, "연산의 순서를 확인하세요"@])
        } else {
            ("검증 오류: "@ + message, None, seq!["문법을 다시 확인해주세요"@])
        }
    } else {
        if error_type == "input"@ {
            ("Input error: "@ + message, Some("Please provide valid dplyr code."@), seq!["Example: data %>% select(name, age)"@])
        } else if error_type == "lex"@ {
            ("Lexical error: "@ + message, Some("Please check the syntax of your input code."@),
                seq!["Check string quotes"@, "Verify special characters"@])
        } else if error_type == "parse"@ {
            ("Parse error: "@ + message, Some("Please check dplyr function usage."@),
                seq!["Check function names"@, "Verify pipe operator usage"@])
        } else if error_type == "complexity"@ {
            ("Complexity error: "@ + message, Some("The query is too complex."@),
                seq!["Break the query into simpler parts"@, "Remove unnecessary operations"@])
        } else if error_type == "semantic"@ {
            ("Semantic error: "@ + message, Some("Please check the logical structure of the query."@),
                seq!["Consider using group_by() with aggregation functions"@, "Check the order of operations"@])
        } else {
            ("Validation error: "@ + message, None, seq!["Please check the syntax again"@])
        }
    }
}

/// The information shown for a validation failure: a user-input error with
/// exit code 4, its description (empty where there is none) and
/// suggestions, and its context when it has one.
pub open spec fn validation_error_info(korean: bool, error_type: Seq<char>, message: Seq<char>, context: Option<Seq<char>>) -> SpecInfo {
    let t = validation_texts(korean, error_type, message);
    SpecInfo {
        category: ErrorCategory::UserInput,
        exit_code: ExitCode::VALIDATION_ERROR,
        message: t.0,
        description: Some(match t.1 { Some(d) => d, None => Seq::empty() }),
        context,
        suggestions: t.2,
        use_stderr: true,
        show_help: false,
    }
}

/// The message, description and suggestions for an I/O error of `kind`
/// whose text is `text`.
pub open spec fn io_texts(korean: bool, kind: IoErrorKind, text: Seq<char>) -> (Seq<char>, Option<Seq<char>>, Seq<Seq<char>>) {
    if korean {
        match kind {
            IoErrorKind::NotFound => ("파일을 찾을 수 없습니다"@, Some("지정된 파일이 존재하지 않습니다."@),
                seq!["파일 경로가 올바른지 확인하세요"@, "파일이 존재하는지 확인하세요"@]),
            IoErrorKind::PermissionDenied => ("권한이 거부되었습니다"@, Some("파일에 대한 읽기/쓰기 권한이 없습니다."@),
                seq!["파일 권한을 확인하세요"@, "관리자 권한으로 실행해보세요"@]),
            IoErrorKind::InvalidInput => ("잘못된 입력입니다"@, Some("입력 데이터가 올바르지 않습니다."@),
                seq!["입력 형식을 확인하세요"@, "UTF-8 인코딩을 확인하세요"@]),
            IoErrorKind::Other => ("입출력 오류: "@ + text, None, seq!["시스템 상태를 확인하세요"@]),
        }
    } else {
        match kind {
            IoErrorKind::NotFound => ("File not found"@, Some("The specified file does not exist."@),
                seq!["Check if the file path is correct"@, "Verify the file exists"@]),
            IoErrorKind::PermissionDenied => ("Permission denied"@, Some("No read/write permission for the file."@),
                seq!["Check file permissions"@, "Try running with administrator privileges"@]),
            IoErrorKind::InvalidInput => ("Invalid input"@, Some("The input data is not valid."@),
                seq!["Check input format"@, "Verify UTF-8 encoding"@]),
            IoErrorKind::Other => ("I/O error: "@ + text, None, seq!["Check system status"@]),
        }
    }
}

/// The information shown for an I/O error: a system error, exit code 7 for
/// a denied permission and 3 otherwise.
pub open spec fn io_error_info(korean: bool, kind: IoErrorKind, text: Seq<char>) -> SpecInfo {
    let t = io_texts(korean, kind, text);
    SpecInfo {
        category: ErrorCategory::System,
        exit_code: if kind == IoErrorKind::PermissionDenied { ExitCode::PERMISSION_ERROR } else { ExitCode::IO_ERROR },
        message: t.0,
        description: Some(match t.1 { Some(d) => d, None => Seq::empty() }),
        context: None,
        suggestions: t.2,
        use_stderr: true,
        show_help: false,
    }
}

/// The exit code of a general error of `category`.
pub open spec fn category_exit_code(category: ErrorCategory) -> i32 {
    match category {
        ErrorCategory::UserInput => ExitCode::INVALID_ARGUMENTS,
        ErrorCategory::System => ExitCode::IO_ERROR,
        ErrorCategory::Application => ExitCode::GENERAL_ERROR,
        ErrorCategory::Configuration => ExitCode::CONFIG_ERROR,
        ErrorCategory::Network => ExitCode::NETWORK_ERROR,
        ErrorCategory::Internal => ExitCode::INTERNAL_ERROR,
    }
}

/// The information shown for a general error.
pub open spec fn general_error_info(message: Seq<char>, category: ErrorCategory) -> SpecInfo {
    SpecInfo {
        category,
        exit_code: category_exit_code(category),
        message,
        description: None,
        context: None,
        suggestions: Seq::empty(),
        use_stderr: true,
        show_help: false,
    }
}

/// The information `handle_error` shows for an error: I/O errors as I/O
/// errors of no particular kind, configuration errors as general errors,
/// the others (system errors with the system-failure exit code among them)
/// as conversion errors.
pub open spec fn handled_error_info(korean: bool, e: TranspileErrorOf<Seq<char>>) -> SpecInfo {
    match e {
        TranspileErrorOf::IoError(msg) => io_error_info(korean, IoErrorKind::Other, msg),
        TranspileErrorOf::ConfigurationError(msg) => general_error_info(msg, ErrorCategory::Configuration),
        _ => transpile_error_info(korean, e),
    }
}

/// The language of the messages changes only their text: the category, the
/// exit code, the output stream, the help flag and the number of
/// suggestions are the same in English and Korean.
pub proof fn law_language_changes_only_text(
    e: TranspileErrorOf<Seq<char>>,
    error_type: Seq<char>,
    message: Seq<char>,
    context: Option<Seq<char>>,
    kind: IoErrorKind,
    text: Seq<char>,
)
    ensures
        same_shape(handled_error_info(true, e), handled_error_info(false, e)),
        same_shape(transpile_error_info(true, e), transpile_error_info(false, e)),
        same_shape(validation_error_info(true, error_type, message, context), validation_error_info(false, error_type, message, context)),
        same_shape(io_error_info(true, kind, text), io_error_info(false, kind, text)),
{
}

/// Two pieces of error information agree in everything but their text.
pub open spec fn same_shape(a: SpecInfo, b: SpecInfo) -> bool {
    &&& a.category == b.category
    &&& a.exit_code == b.exit_code
    &&& a.use_stderr == b.use_stderr
    &&& a.show_help == b.show_help
    &&& a.suggestions.len() == b.suggestions.len()
    &&& a.description is Some == b.description is Some
    &&& a.context == b.context
}

/// No error is reported with the exit code of success.
pub proof fn law_errors_never_exit_with_success(
    korean: bool,
    e: TranspileErrorOf<Seq<char>>,
    error_type: Seq<char>,
    message: Seq<char>,
    context: Option<Seq<char>>,
    kind: IoErrorKind,
    text: Seq<char>,
    category: ErrorCategory,
)
    ensures
        handled_error_info(korean, e).exit_code != ExitCode::SUCCESS,
        transpile_error_info(korean, e).exit_code != ExitCode::SUCCESS,
        validation_error_info(korean, error_type, message, context).exit_code != ExitCode::SUCCESS,
        io_error_info(korean, kind, text).exit_code != ExitCode::SUCCESS,
        general_error_info(message, category).exit_code != ExitCode::SUCCESS,
{
}

/// Syntax errors exit with the validation code, failures of SQL generation
/// with the transpilation code, system failures with the system code.
pub proof fn law_exit_codes_of_conversion_errors(korean: bool, e: TranspileErrorOf<Seq<char>>)
    ensures
        (e is LexError || e is ParseError || e is ValidationError) ==> handled_error_info(korean, e).exit_code == ExitCode::VALIDATION_ERROR,
        e is GenerationError ==> handled_error_info(korean, e).exit_code == ExitCode::TRANSPILATION_ERROR,
        e is SystemError ==> handled_error_info(korean, e).exit_code == ExitCode::SYSTEM_ERROR,
{
}

/// The suggestion lines of a report.
pub open spec fn suggestion_lines(suggestions: Seq<Seq<char>>) -> Seq<char>
    decreases suggestions.len(),
{
    if suggestions.len() == 0 {
        Seq::empty()
    } else {
        suggestion_lines(suggestions.drop_last()) + "  • "@ + suggestions.last() + "\n"@
    }
}

/// The message, description and context lines of a report.
pub open spec fn report_head(korean: bool, i: SpecInfo) -> Seq<char> {
    let head = (if korean { "오류: "@ } else { "Error: "@ }) + i.message + "\n"@;
    let desc = match i.description {
        Some(d) => d + "\n"@,
        None => Seq::empty(),
    };
    let ctx = match i.context {
        Some(c) => (if korean { "컨텍스트: "@ } else { "Context: "@ }) + c + "\n"@,
        None => Seq::empty(),
    };
    head + desc + ctx
}

/// The suggestions block of a report, when there are suggestions.
pub open spec fn report_suggestions(korean: bool, suggestions: Seq<Seq<char>>) -> Seq<char> {
    if suggestions.len() == 0 {
        Seq::empty()
    } else {
        "\n"@ + (if korean { "해결 방법:\n"@ } else { "Suggestions:\n"@ }) + suggestion_lines(suggestions)
    }
}

/// The help hint of a report, when help is shown.
pub open spec fn report_help(korean: bool, show_help: bool) -> Seq<char> {
    if show_help {
        "\n"@ + (if korean { "도움말을 보려면 다음 명령을 실행하세요:\n"@ } else { "For help, run:\n"@ })
            + "  libdplyr --help\n"@
    } else {
        Seq::empty()
    }
}

/// What is written to standard error for an error: the message, the
/// description, the context, the suggestions and the help hint, each when
/// present.
pub open spec fn error_report(korean: bool, i: SpecInfo) -> Seq<char> {
    report_head(korean, i) + report_suggestions(korean, i.suggestions) + report_help(korean, i.show_help)
}

// ===== The handler =====

/// A list of one string.
fn list1(a: &str) -> (r: Vec<String>)
    ensures
        strings_view(r@) == seq![a@],
{
    let mut v: Vec<String> = Vec::new();
    v.push(string_of_str(a));
    assert(strings_view(v@) =~= seq![a@]);
    v
}

/// A list of two strings.
fn list2(a: &str, b: &str) -> (r: Vec<String>)
    ensures
        strings_view(r@) == seq![a@, b@],
{
    let mut v: Vec<String> = Vec::new();
    v.push(string_of_str(a));
    v.push(string_of_str(b));
    assert(strings_view(v@) =~= seq![a@, b@]);
    v
}

/// A list of three strings.
fn list3(a: &str, b: &str, c: &str) -> (r: Vec<String>)
    ensures
        strings_view(r@) == seq![a@, b@, c@],
{
    let mut v: Vec<String> = Vec::new();
    v.push(string_of_str(a));
    v.push(string_of_str(b));
    v.push(string_of_str(c));
    assert(strings_view(v@) =~= seq![a@, b@, c@]);
    v
}

/// A list of four strings.
fn list4(a: &str, b: &str, c: &str, d: &str) -> (r: Vec<String>)
    ensures
        strings_view(r@) == seq![a@, b@, c@, d@],
{
    let mut v: Vec<String> = Vec::new();
    v.push(string_of_str(a));
    v.push(string_of_str(b));
    v.push(string_of_str(c));
    v.push(string_of_str(d));
    assert(strings_view(v@) =~= seq![a@, b@, c@, d@]);
    v
}

/// `prefix` followed by `text`.
fn prefixed(prefix: &str, text: &str) -> (r: String)
    ensures
        r@ == prefix@ + text@,
{
    let mut s = string_of_str(prefix);
    s.append(text);
    s
}

/// Information with a description and suggestions.
fn make_info(category: ErrorCategory, exit_code: i32, message: String, description: &str, suggestions: Vec<String>, show_help: bool) -> (r: ErrorInfo)
    ensures
        r@ == info(category, exit_code, message@, description@, strings_view(suggestions@), show_help),
{
    ErrorInfo::new(category, exit_code, message).with_description(string_of_str(description)).with_suggestions(
        suggestions,
    ).with_help(show_help)
}

/// The I/O error type of the standard library, carried opaquely.
#[verifier::external_type_specification]
#[verifier::external_body]
pub struct ExIoError(std::io::Error);

/// The kind of a `std::io::Error`, as the messages tell kinds apart (what
/// `std::io::Error::kind` returns, every kind but the three named ones as
/// `Other`).  It depends on the error alone.
pub uninterp spec fn io_error_kind_of(error: std::io::Error) -> IoErrorKind;

/// Wraps `std::io::Error::kind`: tells apart the kinds the messages
/// distinguish, every other kind as `Other`; its result is named by
/// `io_error_kind_of`.
#[verifier::external_body]
fn io_error_kind(error: &std::io::Error) -> (k: IoErrorKind)
    ensures
        k == io_error_kind_of(*error),
{
    match error.kind() {
        std::io::ErrorKind::NotFound => IoErrorKind::NotFound,
        std::io::ErrorKind::PermissionDenied => IoErrorKind::PermissionDenied,
        std::io::ErrorKind::InvalidInput => IoErrorKind::InvalidInput,
        _ => IoErrorKind::Other,
    }
}

/// Wraps the `Display` text of a `std::io::Error`.
#[verifier::external_body]
fn io_error_text(error: &std::io::Error) -> String {
    format!("{}", error)
}

/// Error handler of the command line.
#[derive(Debug)]
pub struct ErrorHandler {
    pub use_korean: bool,
    pub verbose: bool,
    pub use_colors: bool,
}

impl ErrorHandler {
    /// A handler with Korean messages, neither verbose nor colored.
    pub fn new() -> (h: Self)
        ensures
            h.use_korean,
            !h.verbose,
            !h.use_colors,
    {
        ErrorHandler { use_korean: true, verbose: false, use_colors: false }
    }

    /// A handler with custom settings.
    pub fn with_settings(use_korean: bool, verbose: bool, use_colors: bool) -> (h: Self)
        ensures
            h.use_korean == use_korean,
            h.verbose == verbose,
            h.use_colors == use_colors,
    {
        ErrorHandler { use_korean, verbose, use_colors }
    }

    /// The information shown for a conversion error.
    pub fn convert_transpile_error(&self, error: &TranspileError) -> (r: ErrorInfo)
        ensures
            r@ == transpile_error_info(self.use_korean, error@),
    {
        let k = self.use_korean;
        match error {
            TranspileErrorOf::LexError(e) => {
                let m = e.to_string();
                if k {
                    make_info(ErrorCategory::UserInput, ExitCode::VALIDATION_ERROR, prefixed("토큰화 오류: ", m.as_str()),
                        "입력 코드의 문법에 오류가 있습니다.",
                        list3("문자열 따옴표가 올바르게 닫혔는지 확인하세요", "특수 문자나 이스케이프 문자를 확인하세요",
                            "지원되지 않는 문자가 포함되어 있지 않은지 확인하세요"), false)
                } else {
                    make_info(ErrorCategory::UserInput, ExitCode::VALIDATION_ERROR, prefixed("Lexical error: ", m.as_str()),
                        "There is a syntax error in the input code.",
                        list3("Check if string quotes are properly closed", "Verify special characters and escape sequences",
                            "Ensure no unsupported characters are included"), false)
                }
            },
            TranspileErrorOf::ParseError(e) => {
                let m = e.to_string();
                if k {
                    make_info(ErrorCategory::UserInput, ExitCode::VALIDATION_ERROR, prefixed("구문 분석 오류: ", m.as_str()),
                        "dplyr 함수의 사용법이 올바르지 않습니다.",
                        list4("dplyr 함수 이름이 올바른지 확인하세요", "함수의 인수가 올바르게 제공되었는지 확인하세요",
                            "파이프 연산자 (%>%)가 올바르게 사용되었는지 확인하세요", "괄호와 쉼표 위치를 확인하세요"), true)
                } else {
                    make_info(ErrorCategory::UserInput, ExitCode::VALIDATION_ERROR, prefixed("Parse error: ", m.as_str()),
                        "The dplyr function usage is incorrect.",
                        list4("Check if dplyr function names are correct", "Verify function arguments are properly provided",
                            "Ensure pipe operator (%>%) is used correctly", "Check parentheses and comma placement"), true)
                }
            },
            TranspileErrorOf::GenerationError(e) => {
                let m = e.to_string();
                if k {
                    make_info(ErrorCategory::Application, ExitCode::TRANSPILATION_ERROR, prefixed("SQL 생성 오류: ", m.as_str()),
                        "선택한 SQL 방언에서 지원되지 않는 기능이거나 복잡한 표현식입니다.",
                        list3("다른 SQL 방언을 시도해보세요 (-d 옵션 사용)", "더 간단한 표현식으로 나누어 작성해보세요",
                            "지원되는 함수와 연산자만 사용하세요"), false)
                } else {
                    make_info(ErrorCategory::Application, ExitCode::TRANSPILATION_ERROR, prefixed("SQL generation error: ", m.as_str()),
                        "The feature is not supported in the selected SQL dialect or the expression is too complex.",
                        list3("Try a different SQL dialect (use -d option)", "Break down into simpler expressions",
                            "Use only supported functions and operators"), false)
                }
            },
            TranspileErrorOf::IoError(e) => {
                if k {
                    make_info(ErrorCategory::System, ExitCode::IO_ERROR, prefixed("입출력 오류: ", e.as_str()),
                        "파일이나 입출력 작업에서 오류가 발생했습니다.",
                        list2("파일 경로와 권한을 확인하세요", "디스크 공간을 확인하세요"), false)
                } else {
                    make_info(ErrorCategory::System, ExitCode::IO_ERROR, prefixed("I/O error: ", e.as_str()),
                        "An error occurred during file or I/O operations.",
                        list2("Check file paths and permissions", "Verify disk space availability"), false)
                }
            },
            TranspileErrorOf::ValidationError(e) => {
                if k {
                    make_info(ErrorCategory::UserInput, ExitCode::VALIDATION_ERROR, prefixed("검증 오류: ", e.as_str()),
                        "dplyr 코드 검증에 실패했습니다.",
                        list2("dplyr 문법을 확인하세요", "함수 사용법을 확인하세요"), false)
                } else {
                    make_info(ErrorCategory::UserInput, ExitCode::VALIDATION_ERROR, prefixed("Validation error: ", e.as_str()),
                        "dplyr code validation failed.",
                        list2("Check dplyr syntax", "Verify function usage"), false)
                }
            },
            TranspileErrorOf::ConfigurationError(e) => {
                if k {
                    make_info(ErrorCategory::Configuration, ExitCode::CONFIG_ERROR, prefixed("설정 오류: ", e.as_str()),
                        "설정이나 구성에 문제가 있습니다.",
                        list2("설정 옵션을 확인하세요", "필수 매개변수가 제공되었는지 확인하세요"), false)
                } else {
                    make_info(ErrorCategory::Configuration, ExitCode::CONFIG_ERROR, prefixed("Configuration error: ", e.as_str()),
                        "There is a problem with configuration or settings.",
                        list2("Check configuration options", "Verify all required parameters are provided"), false)
                }
            },
            TranspileErrorOf::SystemError(e) => {
                if k {
                    make_info(ErrorCategory::System, ExitCode::SYSTEM_ERROR, prefixed("시스템 오류: ", e.as_str()),
                        "시스템 레벨에서 오류가 발생했습니다.",
                        list2("시스템 권한을 확인하세요", "시그널 처리나 파이프라인 설정을 확인하세요"), false)
                } else {
                    make_info(ErrorCategory::System, ExitCode::SYSTEM_ERROR, prefixed("System error: ", e.as_str()),
                        "A system-level error occurred.",
                        list2("Check system permissions", "Verify signal handling or pipeline configuration"), false)
                }
            },
        }
    }

    /// The message, description and suggestions for a validation failure.
    fn validation_parts(&self, error_type: &str, message: &str) -> (r: (String, Option<String>, Vec<String>))
        ensures
            (r.0@, opt_text(r.1), strings_view(r.2@)) == validation_texts(self.use_korean, error_type@, message@),
    {
        let eq = |w: &str| -> (b: bool) ensures b == (error_type@ == w@) { crate::text::str_eq(error_type, w) };
        if self.use_korean {
            if eq("input") {
                (prefixed("입력 오류: ", message), Some(string_of_str("유효한 dplyr 코드를 제공해주세요.")),
                    list1("예시: data %>% select(name, age)"))
            } else if eq("lex") {
                (prefixed("토큰화 오류: ", message), Some(string_of_str("입력 코드의 문법을 확인해주세요.")),
                    list2("문자열 따옴표를 확인하세요", "특수 문자를 확인하세요"))
            } else if eq("parse") {
                (prefixed("구문 분석 오류: ", message), Some(string_of_str("dplyr 함수 사용법을 확인해주세요.")),
                    list2("함수 이름을 확인하세요", "파이프 연산자 사용법을 확인하세요"))
            } else if eq("complexity") {
                (prefixed("복잡도 오류: ", message), Some(string_of_str("쿼리가 너무 복잡합니다.")),
                    list2("쿼리를 더 간단한 부분으로 나누세요", "불필요한 연산을 제거하세요"))
            } else if eq("semantic") {
                (prefixed("의미적 오류: ", message), Some(string_of_str("쿼리의 논리적 구조를 확인해주세요.")),
                    list2("집계 함수 사용 시 group_by()를 고려하세요", "연산의 순서를 확인하세요"))
            } else {
                (prefixed("검증 오류: ", message), None, list1("문법을 다시 확인해주세요"))
            }
        } else {
            if eq("input") {
                (prefixed("Input error: ", message), Some(string_of_str("Please provide valid dplyr code.")),
                    list1("Example: data %>% select(name, age)"))
            } else if eq("lex") {
                (prefixed("Lexical error: ", message), Some(string_of_str("Please check the syntax of your input code.")),
                    list2("Check string quotes", "Verify special characters"))
            } else if eq("parse") {
                (prefixed("Parse error: ", message), Some(string_of_str("Please check dplyr function usage.")),
                    list2("Check function names", "Verify pipe operator usage"))
            } else if eq("complexity") {
                (prefixed("Complexity error: ", message), Some(string_of_str("The query is too complex.")),
                    list2("Break the query into simpler parts", "Remove unnecessary operations"))
            } else if eq("semantic") {
                (prefixed("Semantic error: ", message), Some(string_of_str("Please check the logical structure of the query.")),
                    list2("Consider using group_by() with aggregation functions", "Check the order of operations"))
            } else {
                (prefixed("Validation error: ", message), None, list1("Please check the syntax again"))
            }
        }
    }

    /// The information shown for a validation failure.
    pub fn convert_validation_error(&self, error: &ValidationErrorInfo) -> (r: ErrorInfo)
        ensures
            r@ == validation_error_info(self.use_korean, error.error_type@, error.message@, opt_text(error.context)),
    {
        let (message, description, suggestions) = self.validation_parts(error.error_type.as_str(), error.message.as_str());
        let d = match description {
            Some(d) => d,
            None => String::new(),
        };
        let info = ErrorInfo::new(ErrorCategory::UserInput, ExitCode::VALIDATION_ERROR, message).with_description(d).with_suggestions(
            suggestions,
        );
        match &error.context {
            Some(c) => info.with_context(c.clone()),
            None => info,
        }
    }

    /// The message, description and suggestions for an I/O error.
    fn io_parts(&self, kind: IoErrorKind, text: &str) -> (r: (String, Option<String>, Vec<String>))
        ensures
            (r.0@, opt_text(r.1), strings_view(r.2@)) == io_texts(self.use_korean, kind, text@),
    {
        if self.use_korean {
            match kind {
                IoErrorKind::NotFound => (string_of_str("파일을 찾을 수 없습니다"),
                    Some(string_of_str("지정된 파일이 존재하지 않습니다.")),
                    list2("파일 경로가 올바른지 확인하세요", "파일이 존재하는지 확인하세요")),
                IoErrorKind::PermissionDenied => (string_of_str("권한이 거부되었습니다"),
                    Some(string_of_str("파일에 대한 읽기/쓰기 권한이 없습니다.")),
                    list2("파일 권한을 확인하세요", "관리자 권한으로 실행해보세요")),
                IoErrorKind::InvalidInput => (string_of_str("잘못된 입력입니다"),
                    Some(string_of_str("입력 데이터가 올바르지 않습니다.")),
                    list2("입력 형식을 확인하세요", "UTF-8 인코딩을 확인하세요")),
                IoErrorKind::Other => (prefixed("입출력 오류: ", text), None, list1("시스템 상태를 확인하세요")),
            }
        } else {
            match kind {
                IoErrorKind::NotFound => (string_of_str("File not found"),
                    Some(string_of_str("The specified file does not exist.")),
                    list2("Check if the file path is correct", "Verify the file exists")),
                IoErrorKind::PermissionDenied => (string_of_str("Permission denied"),
                    Some(string_of_str("No read/write permission for the file.")),
                    list2("Check file permissions", "Try running with administrator privileges")),
                IoErrorKind::InvalidInput => (string_of_str("Invalid input"),
                    Some(string_of_str("The input data is not valid.")),
                    list2("Check input format", "Verify UTF-8 encoding")),
                IoErrorKind::Other => (prefixed("I/O error: ", text), None, list1("Check system status")),
            }
        }
    }

    /// The information shown for an I/O error of `kind` whose text is `text`.
    pub fn convert_io_parts(&self, kind: IoErrorKind, text: &str) -> (r: ErrorInfo)
        ensures
            r@ == io_error_info(self.use_korean, kind, text@),
    {
        let (message, description, suggestions) = self.io_parts(kind, text);
        let exit_code = match kind {
            IoErrorKind::PermissionDenied => ExitCode::PERMISSION_ERROR,
            _ => ExitCode::IO_ERROR,
        };
        let d = match description {
            Some(d) => d,
            None => String::new(),
        };
        ErrorInfo::new(ErrorCategory::System, exit_code, message).with_description(d).with_suggestions(suggestions)
    }

    /// The information shown for a `std::io::Error`: that of its kind and
    /// of its text (the error's `Display` text, which is not stated).
    pub fn convert_io_error(&self, error: &std::io::Error) -> (r: ErrorInfo)
        ensures
            exists|t: Seq<char>| r@ == io_error_info(self.use_korean, io_error_kind_of(*error), t),
            r@.category == ErrorCategory::System,
            r@.exit_code == ExitCode::IO_ERROR || r@.exit_code == ExitCode::PERMISSION_ERROR,
            r@.description is Some,
            !r@.show_help,
    {
        let kind = io_error_kind(error);
        let text = io_error_text(error);
        let r = self.convert_io_parts(kind, text.as_str());
        assert(r@ == io_error_info(self.use_korean, kind, text@));
        r
    }

    /// The information shown for a general error of `category`.
    pub fn create_general_error(&self, message: &str, category: ErrorCategory) -> (r: ErrorInfo)
        ensures
            r@ == general_error_info(message@, category),
    {
        let exit_code = match category {
            ErrorCategory::UserInput => ExitCode::INVALID_ARGUMENTS,
            ErrorCategory::System => ExitCode::IO_ERROR,
            ErrorCategory::Application => ExitCode::GENERAL_ERROR,
            ErrorCategory::Configuration => ExitCode::CONFIG_ERROR,
            ErrorCategory::Network => ExitCode::NETWORK_ERROR,
            ErrorCategory::Internal => ExitCode::INTERNAL_ERROR,
        };
        ErrorInfo::new(category, exit_code, string_of_str(message))
    }

    /// The information `handle_error` reports for an error.
    pub fn handled_error(&self, error: &TranspileError) -> (r: ErrorInfo)
        ensures
            r@ == handled_error_info(self.use_korean, error@),
    {
        match error {
            TranspileErrorOf::IoError(msg) => self.convert_io_parts(IoErrorKind::Other, msg.as_str()),
            TranspileErrorOf::ConfigurationError(msg) => self.create_general_error(msg.as_str(), ErrorCategory::Configuration),
            _ => self.convert_transpile_error(error),
        }
    }

    /// The exit code of a conversion error; the program around the library
    /// writes `error_report` of `convert_transpile_error` before it exits.
    pub fn handle_transpile_error(&self, error: &TranspileError) -> (r: i32)
        ensures
            r == transpile_error_info(self.use_korean, error@).exit_code,
    {
        self.convert_transpile_error(error).exit_code
    }

    /// The exit code of a validation failure.
    pub fn handle_validation_error(&self, error: &ValidationErrorInfo) -> (r: i32)
        ensures
            r == ExitCode::VALIDATION_ERROR,
    {
        self.convert_validation_error(error).exit_code
    }

    /// The exit code of an I/O error: 7 for a denied permission, else 3.
    pub fn handle_io_error(&self, error: &std::io::Error) -> (r: i32)
        ensures
            r == (if io_error_kind_of(*error) == IoErrorKind::PermissionDenied {
                ExitCode::PERMISSION_ERROR
            } else {
                ExitCode::IO_ERROR
            }),
    {
        let info = self.convert_io_error(error);
        proof {
            let t = choose|t: Seq<char>| info@ == io_error_info(self.use_korean, io_error_kind_of(*error), t);
            assert(info@ == io_error_info(self.use_korean, io_error_kind_of(*error), t));
        }
        info.exit_code
    }

    /// The exit code of a general error of `category`.
    pub fn handle_general_error(&self, message: &str, category: ErrorCategory) -> (r: i32)
        ensures
            r == category_exit_code(category),
    {
        self.create_general_error(message, category).exit_code
    }

    /// The exit code `handle_error` returns for an error.
    pub fn handle_error(&self, error: &TranspileError) -> (r: i32)
        ensures
            r == handled_error_info(self.use_korean, error@).exit_code,
    {
        self.handled_error(error).exit_code
    }

    /// The message, description and context lines of a report.
    fn report_head_text(&self, error_info: &ErrorInfo) -> (r: String)
        ensures
            r@ == report_head(self.use_korean, error_info@),
    {
        let k = self.use_korean;
        let mut out = if k { string_of_str("오류: ") } else { string_of_str("Error: ") };
        out.append(error_info.message.as_str());
        out.append("\n");
        match &error_info.description {
            Some(d) => {
                out.append(d.as_str());
                out.append("\n");
            },
            None => {},
        }
        match &error_info.context {
            Some(c) => {
                out.append(if k { "컨텍스트: " } else { "Context: " });
                out.append(c.as_str());
                out.append("\n");
            },
            None => {},
        }
        assert(out@ =~= report_head(k, error_info@));
        out
    }

    /// The suggestions block of a report.
    fn report_suggestions_text(&self, suggestions: &Vec<String>) -> (r: String)
        ensures
            r@ == report_suggestions(self.use_korean, strings_view(suggestions@)),
    {
        let k = self.use_korean;
        let mut out = String::new();
        if suggestions.len() > 0 {
            out.append("\n");
            out.append(if k { "해결 방법:\n" } else { "Suggestions:\n" });
            let ghost base = out@;
            let ghost ss = strings_view(suggestions@);
            let mut i: usize = 0;
            assert(ss.take(0) =~= Seq::<Seq<char>>::empty());
            assert(base + suggestion_lines(ss.take(0)) =~= base);
            while i < suggestions.len()
                invariant
                    i <= suggestions.len(),
                    ss == strings_view(suggestions@),
                    out@ == base + suggestion_lines(ss.take(i as int)),
                decreases suggestions.len() - i,
            {
                out.append("  • ");
                out.append(suggestions[i].as_str());
                out.append("\n");
                assert(ss.take(i as int + 1).drop_last() =~= ss.take(i as int));
                assert(out@ =~= base + suggestion_lines(ss.take(i as int + 1)));
                i = i + 1;
            }
            assert(ss.take(suggestions.len() as int) =~= ss);
            assert(out@ =~= report_suggestions(k, ss));
        } else {
            assert(strings_view(suggestions@).len() == 0);
        }
        out
    }

    /// The text written to standard error for an error.
    pub fn error_report(&self, error_info: &ErrorInfo) -> (r: String)
        ensures
            r@ == error_report(self.use_korean, error_info@),
    {
        let k = self.use_korean;
        let mut out = self.report_head_text(error_info);
        let s = self.report_suggestions_text(&error_info.suggestions);
        out.append(s.as_str());
        if error_info.show_help {
            out.append("\n");
            out.append(if k { "도움말을 보려면 다음 명령을 실행하세요:\n" } else { "For help, run:\n" });
            out.append("  libdplyr --help\n");
        }
        assert(out@ =~= error_report(k, error_info@));
        out
    }
}

impl Default for ErrorHandler {
    fn default() -> (h: Self)
        ensures
            h.use_korean,
            !h.verbose,
            !h.use_colors,
    {
        ErrorHandler::new()
    }
}

} // verus!
