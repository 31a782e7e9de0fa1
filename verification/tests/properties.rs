use libdplyr::c_api::transpile_for_c;
use libdplyr::cli::error_handler::{ErrorCategory, ErrorHandler, ExitCode, IoErrorKind};
use libdplyr::cli::json_output::{ErrorInfo as JsonErrorInfo, MetadataBuilder, TranspileMetadata};
use libdplyr::cli::output_formatter::{FormatConfig, OutputFormat, OutputFormatter};
use libdplyr::cli::pipeline::{
    json_error_exit_code, validation_text, CliArgs, CliConfig, ProcessingPipeline, SqlDialectType,
};
use libdplyr::cli::stdin_reader::{StdinConfig, StdinError, StdinReader};
use libdplyr::cli::validator::{DplyrValidator, ValidateResult, ValidationConfig, ValidationErrorInfo};
use libdplyr::error::{GenerationError, LexError, ParseError, TranspileError};
use libdplyr::lexer::{tokenize, Lexer, Token};
use libdplyr::performance::{common_bottleneck, PerformanceMetrics};
use libdplyr::{
    DuckDbDialect, MySqlDialect, PostgreSqlDialect, SqlDialect, SqliteDialect, Transpiler,
};

fn args() -> CliArgs {
    CliArgs {
        input_file: None,
        output_file: None,
        dialect: SqlDialectType::PostgreSql,
        pretty_print: false,
        input_text: None,
        validate_only: false,
        verbose: false,
        debug: false,
        compact: false,
        json_output: false,
    }
}

fn metrics(lexing: u128, parsing: u128, generation: u128) -> PerformanceMetrics {
    PerformanceMetrics {
        total_time: lexing + parsing + generation,
        lexing_time: Some(lexing),
        parsing_time: Some(parsing),
        generation_time: Some(generation),
        input_size: 1,
        output_size: 1,
        success: true,
        error_type: None,
    }
}

#[test]
fn tokens_end_with_a_single_end_of_input() {
    let mut lexer = Lexer::new("select(a) %>% filter(b > 1)".to_string());
    let (tokens, error) = tokenize(&mut lexer);
    assert!(error.is_none());
    assert_eq!(tokens.last(), Some(&Token::EOF));
    assert_eq!(tokens.iter().filter(|t| **t == Token::EOF).count(), 1);
}

#[test]
fn tokenizing_stops_at_the_first_error() {
    let mut lexer = Lexer::new("select(@)".to_string());
    let (tokens, error) = tokenize(&mut lexer);
    assert_eq!(tokens, vec![Token::Select, Token::LeftParen]);
    assert_eq!(error, Some(LexError::UnexpectedCharacter('@', 7)));
}

#[test]
fn numbers_are_held_in_canonical_form() {
    let mut lexer = Lexer::new("007.50".to_string());
    assert_eq!(lexer.next_token().unwrap(), Token::Number("7.5".to_string()));
}

#[test]
fn compact_output_never_has_double_spaces() {
    let formatter = OutputFormatter::with_format(OutputFormat::Compact);
    let out = formatter.format("SELECT  a,  b   FROM   t WHERE  a  =  1   AND b >= 2").unwrap();
    assert!(!out.contains("  "));
    assert_eq!(out, "SELECT a, b FROM t WHERE a=1 AND b>=2\n");
}

#[test]
fn every_format_ends_with_newline_when_configured() {
    for format in [OutputFormat::Basic, OutputFormat::Pretty, OutputFormat::Compact, OutputFormat::Default] {
        let formatter = OutputFormatter::with_format(format);
        let out = formatter.format("SELECT a FROM t WHERE b = 1").unwrap();
        assert!(out.ends_with('\n'));
    }
}

#[test]
fn only_blank_sql_is_refused() {
    let formatter = OutputFormatter::with_config(FormatConfig {
        format: OutputFormat::Pretty,
        add_newline: false,
        indent: "  ".to_string(),
        preserve_case: true,
    });
    assert_eq!(formatter.format(" \t\n").unwrap_err().to_string(), "Invalid SQL input: Empty SQL input");
    assert_eq!(formatter.format("x").unwrap(), "x");
}

#[test]
fn pretty_format_breaks_lines_before_clauses() {
    let formatter = OutputFormatter::with_format(OutputFormat::Pretty);
    let out = formatter.format("SELECT a FROM t WHERE x = 1 AND y = 2 ORDER BY a").unwrap();
    assert_eq!(out, "SELECT a\nFROM t\nWHERE x = 1\n  AND y = 2\nORDER BY a\n");
}

#[test]
fn pretty_format_indents_logical_operators_and_joins() {
    let formatter = OutputFormatter::with_format(OutputFormat::Pretty);
    let out = formatter
        .format("SELECT name, age FROM users WHERE age > 18 AND status = 'active' ORDER BY name")
        .unwrap();
    assert_eq!(out, "SELECT name, age\nFROM users\nWHERE age > 18\n  AND status = 'active'\nORDER BY name\n");
    let out = formatter.format("SELECT a FROM t JOIN u ON t.id = u.id WHERE x = 1 OR y = 2").unwrap();
    assert_eq!(out, "SELECT a\nFROM t\n  JOIN u ON t.id = u.id\nWHERE x = 1\n  OR y = 2\n");
    let out = formatter.format("SELECT a FROM t LEFT JOIN u ON t.id = u.id").unwrap();
    assert_eq!(out, "SELECT a\nFROM t\n  LEFT JOIN u ON t.id = u.id\n");
}

#[test]
fn compact_format_keeps_keywords_whole() {
    let formatter = OutputFormatter::with_format(OutputFormat::Compact);
    assert_eq!(formatter.format("SELECT a FROM t ORDER BY a").unwrap(), "SELECT a FROM t ORDER BY a\n");
    assert_eq!(formatter.format("SELECT ORIGIN, ANDY FROM t").unwrap(), "SELECT ORIGIN, ANDY FROM t\n");
}

#[test]
fn invalid_characters_are_lexing_errors() {
    let transpiler = Transpiler::new(Box::new(PostgreSqlDialect::new()));
    assert_eq!(
        transpiler.transpile("@#$%invalid").unwrap_err(),
        TranspileError::LexError(LexError::UnexpectedCharacter('@', 0))
    );
}

#[test]
fn generated_queries_select_from_data() {
    let transpiler = Transpiler::new(Box::new(PostgreSqlDialect::new()));
    let sql = transpiler.transpile("filter(age > 18) %>% select(name)").unwrap();
    assert_eq!(sql, "SELECT \"name\"\nFROM \"data\"\nWHERE (\"age\" > 18)");
}

#[test]
fn filters_are_joined_with_and() {
    let transpiler = Transpiler::new(Box::new(PostgreSqlDialect::new()));
    let sql = transpiler.transpile("filter(a > 1) %>% filter(b < 2)").unwrap();
    assert_eq!(sql, "SELECT *\nFROM \"data\"\nWHERE (\"a\" > 1) AND ((\"b\" < 2))");
}

#[test]
fn plain_strings_are_quoted_alike_in_every_dialect() {
    let dialects: Vec<Box<dyn SqlDialect>> = vec![
        Box::new(PostgreSqlDialect::new()),
        Box::new(MySqlDialect::new()),
        Box::new(SqliteDialect::new()),
        Box::new(DuckDbDialect::new()),
    ];
    for d in dialects {
        assert_eq!(d.quote_string("abc"), "'abc'");
    }
}

#[test]
fn postgres_and_sqlite_generate_the_same_sql() {
    let code = "select(a, b) %>% filter(a == \"x\") %>% group_by(b) %>% summarise(n = n()) %>% arrange(desc(b))";
    let pg = Transpiler::new(Box::new(PostgreSqlDialect::new())).transpile(code);
    let lite = Transpiler::new(Box::new(SqliteDialect::new())).transpile(code);
    assert_eq!(pg, lite);
}

#[test]
fn mysql_quotes_identifiers_with_backticks() {
    let sql = Transpiler::new(Box::new(MySqlDialect::new())).transpile("select(name)").unwrap();
    assert_eq!(sql, "SELECT `name`\nFROM `data`");
}

#[test]
fn empty_pipeline_is_a_generation_error() {
    let generator = libdplyr::SqlGenerator::new(Box::new(PostgreSqlDialect::new()));
    let node = libdplyr::DplyrNode::Pipeline {
        operations: Vec::new(),
        location: libdplyr::parser::SourceLocation::unknown(),
    };
    let err = generator.generate(&node).unwrap_err();
    assert_eq!(err.to_string(), "Invalid AST structure: Empty pipeline: at least one operation is required");
}

#[test]
fn language_changes_only_the_text() {
    let korean = ErrorHandler::with_settings(true, false, false);
    let english = ErrorHandler::with_settings(false, false, false);
    let errors = vec![
        TranspileError::LexError(LexError::UnterminatedString(3)),
        TranspileError::ParseError(ParseError::EmptyPipeline),
        TranspileError::GenerationError(GenerationError::EmptyQuery),
        TranspileError::IoError("disk".to_string()),
        TranspileError::ValidationError("bad".to_string()),
        TranspileError::ConfigurationError("conf".to_string()),
        TranspileError::SystemError("sys".to_string()),
    ];
    for e in &errors {
        let k = korean.handled_error(e);
        let en = english.handled_error(e);
        assert_eq!(k.category, en.category);
        assert_eq!(k.exit_code, en.exit_code);
        assert_eq!(k.suggestions.len(), en.suggestions.len());
        assert_ne!(k.exit_code, ExitCode::SUCCESS);
        assert_eq!(korean.handle_error(e), english.handle_error(e));
    }
}

#[test]
fn syntax_errors_exit_with_validation_code() {
    let handler = ErrorHandler::with_settings(false, false, false);
    assert_eq!(handler.handle_error(&TranspileError::ParseError(ParseError::EmptyPipeline)), 4);
    assert_eq!(handler.handle_error(&TranspileError::LexError(LexError::EmptyInput)), 4);
    assert_eq!(handler.handle_error(&TranspileError::GenerationError(GenerationError::EmptyQuery)), 5);
    assert_eq!(handler.handle_error(&TranspileError::IoError("x".to_string())), 3);
    assert_eq!(handler.handle_error(&TranspileError::ConfigurationError("x".to_string())), 6);
    assert_eq!(handler.handle_error(&TranspileError::SystemError("x".to_string())), 8);
}

#[test]
fn json_exit_codes_follow_the_error_kind() {
    assert_eq!(json_error_exit_code(&TranspileError::ParseError(ParseError::EmptyPipeline)), 4);
    assert_eq!(json_error_exit_code(&TranspileError::GenerationError(GenerationError::EmptyQuery)), 5);
    assert_eq!(json_error_exit_code(&TranspileError::IoError("x".to_string())), 3);
    assert_eq!(json_error_exit_code(&TranspileError::ValidationError("x".to_string())), 4);
    assert_eq!(json_error_exit_code(&TranspileError::ConfigurationError("x".to_string())), 6);
    assert_eq!(json_error_exit_code(&TranspileError::SystemError("x".to_string())), 8);
}

#[test]
fn error_report_lists_message_description_and_suggestions() {
    let handler = ErrorHandler::with_settings(false, false, false);
    let info = handler.create_general_error("boom", ErrorCategory::Network);
    assert_eq!(info.exit_code, 9);
    assert_eq!(handler.error_report(&info), "Error: boom\n");
    let io = handler.convert_io_parts(IoErrorKind::PermissionDenied, "denied");
    assert_eq!(io.exit_code, ExitCode::PERMISSION_ERROR);
    assert_eq!(
        handler.error_report(&io),
        "Error: Permission denied\nNo read/write permission for the file.\n\nSuggestions:\n  • Check file permissions\n  • Try running with administrator privileges\n"
    );
}

#[test]
fn io_error_text_and_kind_reach_the_report() {
    let handler = ErrorHandler::with_settings(false, false, false);
    let other = std::io::Error::new(std::io::ErrorKind::Other, "disk on fire");
    let info = handler.convert_io_error(&other);
    assert_eq!(info.message, "I/O error: disk on fire");
    let denied = std::io::Error::new(std::io::ErrorKind::PermissionDenied, "no");
    assert_eq!(handler.handle_io_error(&denied), ExitCode::PERMISSION_ERROR);
    let missing = std::io::Error::new(std::io::ErrorKind::NotFound, "gone");
    assert_eq!(handler.handle_io_error(&missing), ExitCode::IO_ERROR);
    assert_eq!(handler.convert_io_error(&missing).message, "File not found");
    assert_eq!(handler.handle_io_error(&other), ExitCode::IO_ERROR);
}

#[test]
fn validation_accepts_exactly_parsable_code_without_checks() {
    let validator = DplyrValidator::with_config(ValidationConfig {
        semantic_validation: false,
        check_common_mistakes: false,
        detailed_suggestions: false,
        max_complexity: None,
    });
    assert!(matches!(validator.validate("select(a)").unwrap(), ValidateResult::Valid { .. }));
    assert!(matches!(validator.validate("   ").unwrap(), ValidateResult::Invalid { .. }));
    assert!(matches!(validator.validate("select(").unwrap(), ValidateResult::Invalid { .. }));
}

#[test]
fn complexity_score_is_capped_at_ten() {
    let validator = DplyrValidator::with_config(ValidationConfig {
        semantic_validation: false,
        check_common_mistakes: false,
        detailed_suggestions: false,
        max_complexity: Some(10),
    });
    let code = "summarise(a = sum(x)) %>% summarise(b = sum(x)) %>% summarise(c = sum(x)) %>% summarise(d = sum(x))";
    match validator.validate(code).unwrap() {
        ValidateResult::Valid { summary } => assert_eq!(summary.complexity_score, 10),
        ValidateResult::Invalid { .. } => panic!("a limit of ten is never exceeded"),
    }
}

#[test]
fn validation_text_lists_suggestions() {
    let result = ValidateResult::Invalid {
        error: ValidationErrorInfo {
            error_type: "parse".to_string(),
            message: "oops".to_string(),
            position: None,
            context: None,
        },
        suggestions: vec!["one".to_string(), "two".to_string()],
    };
    assert_eq!(
        validation_text(&result).unwrap_err(),
        TranspileError::ValidationError("Validation failed: oops\nSuggestions:\n  • one\n  • two".to_string())
    );
}

#[test]
fn pipeline_formats_sql_and_reports_json_bare() {
    let mut a = args();
    a.input_text = Some("select(x)".to_string());
    a.compact = true;
    let pipeline = ProcessingPipeline::new(CliConfig::from_args(&a)).unwrap();
    assert_eq!(pipeline.transpile_input("select(x)").unwrap(), "SELECT \"x\" FROM \"data\"\n");
    let mut j = args();
    j.json_output = true;
    let json = ProcessingPipeline::new(CliConfig::from_args(&j)).unwrap();
    assert_eq!(json.transpile_input("select(x)").unwrap(), "SELECT \"x\"\nFROM \"data\"");
    assert!(json.validate_input("select(x)").is_err());
}

#[test]
fn pipeline_output_goes_to_the_named_file() {
    let mut a = args();
    a.input_file = Some("in.R".to_string());
    a.output_file = Some("out.sql".to_string());
    let pipeline = ProcessingPipeline::new(CliConfig::from_args(&a)).unwrap();
    assert_eq!(pipeline.output_file(), Some("out.sql".to_string()));
    let stdin_pipeline = ProcessingPipeline::new(CliConfig::from_args(&args())).unwrap();
    assert_eq!(stdin_pipeline.output_file(), None);
}

#[test]
fn test_dplyr_to_sql_success() {
    let sql = transpile_for_c("select(name, age) %>% filter(age > 18)", "duckdb").unwrap();
    assert!(sql.contains("SELECT"));
    assert!(sql.contains("WHERE"));
}

#[test]
fn test_dplyr_to_sql_error() {
    let error = transpile_for_c("@#$%invalid", "duckdb").unwrap_err();
    assert!(error.contains("DPLYR-TRANSPILE:"));
    assert!(transpile_for_c("@", "duckdb").unwrap_err().starts_with("DPLYR-TRANSPILE: Lexical error: "));
}

#[test]
fn test_dplyr_to_sql_unsupported_dialect() {
    let error = transpile_for_c("select(name)", "unsupported").unwrap_err();
    assert!(error.contains("Unsupported dialect"));
    assert_eq!(transpile_for_c("select(name)", "oracle"), Err("Unsupported dialect: oracle".to_string()));
}

#[test]
fn stdin_size_limit_and_processing() {
    let reader = StdinReader::with_config(StdinConfig {
        read_timeout: None,
        trim_input: true,
        max_input_size: Some(4),
    });
    assert!(reader.check_size_limit(4).is_ok());
    assert_eq!(
        reader.check_size_limit(5),
        Err(StdinError::ReadError("Input size (5 bytes) exceeds maximum allowed size (4 bytes)".to_string()))
    );
    assert_eq!(reader.process_input(" a ".to_string()), Ok("a".to_string()));
    assert_eq!(reader.process_input(" \n".to_string()), Err(StdinError::EmptyInput));
    assert_eq!(
        StdinError::ReadError("x".to_string()).to_string(),
        "Failed to read from stdin: x"
    );
    assert_eq!(StdinError::PipeClosed.to_string(), "Pipe was closed");
    assert_eq!(StdinError::Interrupted.to_string(), "Reading interrupted by signal");
    assert!(StdinConfig::default().read_timeout.is_some());
}

#[test]
fn error_messages_of_every_variant() {
    assert_eq!(LexError::UnexpectedCharacter('@', 3).to_string(), "Unexpected character: '@' (position: 3)");
    assert_eq!(LexError::UnterminatedString(2).to_string(), "Unterminated string literal (start position: 2)");
    assert_eq!(LexError::InvalidNumber("1.2.3".to_string(), 0).to_string(), "Invalid number format: '1.2.3' (position: 0)");
    assert_eq!(LexError::InvalidPipeOperator("%>".to_string(), 5).to_string(), "Invalid pipe operator: '%>' (position: 5)");
    assert_eq!(LexError::EmptyInput.to_string(), "Input is empty");
    assert_eq!(
        ParseError::UnexpectedToken { expected: "(".to_string(), found: ")".to_string(), position: 1 }.to_string(),
        "Unexpected token: expected '(' but found ')' (position: 1)"
    );
    assert_eq!(ParseError::UnexpectedEof(9).to_string(), "Unexpected end of file (position: 9)");
    assert_eq!(
        GenerationError::MaxNestingDepthExceeded { depth: 12, max_depth: 10 }.to_string(),
        "Maximum nesting depth exceeded: 12 (max: 10)"
    );
    assert_eq!(
        TranspileError::ParseError(ParseError::EmptyPipeline).to_string(),
        "Parsing error: Empty pipeline: at least one operation is required"
    );
    assert_eq!(TranspileError::IoError("x".to_string()).to_string(), "I/O error: x");
}

#[test]
fn json_error_info_of_a_conversion_error() {
    let info = JsonErrorInfo::from_transpile_error(&TranspileError::IoError("gone".to_string()));
    assert_eq!(info.error_type, "io");
    assert_eq!(info.message, "gone");
    assert_eq!(info.position, None);
    assert_eq!(info.suggestions.len(), 2);
}

#[test]
fn metadata_is_stamped_and_counts_input() {
    let m = TranspileMetadata::transpilation_success(&SqlDialectType::MySql, 42, "a\nb", "SELECT");
    assert_eq!(m.dialect, "mysql");
    assert_eq!(m.stats.total_time_us, 42);
    assert_eq!(m.stats.input_size_bytes, 3);
    assert_eq!(m.stats.output_size_bytes, 6);
    assert_eq!(m.input_info.line_count, 2);
    assert!(m.timestamp > 0);
    assert_eq!(MetadataBuilder::new("x").build().version, "0.1.0");
}

#[test]
fn most_common_bottleneck_of_a_batch() {
    let ms = vec![metrics(1, 5, 0), metrics(1, 7, 2), metrics(9, 1, 1)];
    assert_eq!(common_bottleneck(&ms), Some("parsing"));
    assert_eq!(common_bottleneck(&[]), None);
}

#[test]
fn dialect_names_parse_back() {
    for d in [SqlDialectType::PostgreSql, SqlDialectType::MySql, SqlDialectType::Sqlite, SqlDialectType::DuckDb] {
        assert_eq!(d.to_string().parse::<SqlDialectType>(), Ok(d));
    }
    assert_eq!("PG".parse::<SqlDialectType>(), Ok(SqlDialectType::PostgreSql));
    assert_eq!("oracle".parse::<SqlDialectType>(), Err("Unsupported SQL dialect: oracle".to_string()));
}

#[test]
fn aggregate_names_ignore_case_and_are_upper_cased() {
    let duck = Transpiler::new(Box::new(DuckDbDialect::new()));
    let sql = duck.transpile("group_by(d) %>% summarise(m = median(x), s = stddev(x))").unwrap();
    assert!(sql.contains("MEDIAN(\"x\")"));
    assert!(sql.contains("STDDEV(\"x\")"));
    let pg = Transpiler::new(Box::new(PostgreSqlDialect::new()));
    let sql = pg.transpile("group_by(d) %>% summarise(a = MEAN(x))").unwrap();
    assert!(sql.contains("AVG(\"x\")"));
}

#[test]
fn failed_profile_records_the_error_debug_text() {
    let profiler = libdplyr::performance::PerformanceProfiler::new(Box::new(PostgreSqlDialect));
    let m = profiler.profile_transpile("select(");
    let text = m.error_type.unwrap();
    assert!(text.starts_with("ParseError("), "{text}");
}

#[test]
fn default_read_timeout_is_one_second() {
    assert_eq!(StdinConfig::default().read_timeout, Some(std::time::Duration::from_secs(1)));
    assert_eq!(StdinReader::new().config.max_input_size, Some(10 * 1024 * 1024));
}

#[test]
fn pipeline_uses_the_configured_dialect() {
    let mut a = args();
    a.dialect = SqlDialectType::MySql;
    let pipeline = ProcessingPipeline::new(CliConfig::from_args(&a)).unwrap();
    assert_eq!(pipeline.transpile_input("select(x)").unwrap(), "SELECT `x` FROM `data`\n");
}

#[test]
fn validated_code_converts_in_every_dialect() {
    let validator = DplyrValidator::new();
    let code = "select(name, age) %>% filter(age > 18) %>% arrange(desc(age))";
    assert!(matches!(validator.validate(code).unwrap(), ValidateResult::Valid { .. }));
    let dialects: Vec<Box<dyn SqlDialect>> = vec![
        Box::new(PostgreSqlDialect::new()),
        Box::new(MySqlDialect::new()),
        Box::new(SqliteDialect::new()),
        Box::new(DuckDbDialect::new()),
    ];
    for d in dialects {
        assert!(Transpiler::new(d).transpile(code).is_ok());
    }
}

#[test]
fn errors_are_the_same_in_every_dialect() {
    for code in ["@", "select(", "", "filter(a >)"] {
        let pg = Transpiler::new(Box::new(PostgreSqlDialect::new())).transpile(code);
        let my = Transpiler::new(Box::new(MySqlDialect::new())).transpile(code);
        assert!(pg.is_err());
        assert_eq!(pg, my);
    }
}

#[test]
fn basic_format_keeps_single_spaces() {
    let formatter = OutputFormatter::with_format(OutputFormat::Basic);
    assert_eq!(formatter.format("  SELECT \t a ,\n\n b   FROM t  ").unwrap(), "SELECT a , b FROM t\n");
}

#[test]
fn rendering_ends_with_exactly_one_newline_or_none() {
    for format in [OutputFormat::Basic, OutputFormat::Pretty, OutputFormat::Compact] {
        for add_newline in [true, false] {
            let formatter = OutputFormatter::with_config(FormatConfig {
                format: format.clone(),
                add_newline,
                indent: "  ".to_string(),
                preserve_case: true,
            });
            let out = formatter.format("SELECT name FROM users WHERE a = 1 AND b = 2\n\n\n").unwrap();
            if add_newline {
                assert!(out.ends_with('\n'));
                assert!(!out.ends_with("\n\n"));
            } else {
                assert!(!out.ends_with('\n'));
            }
        }
    }
    let basic = OutputFormatter::with_config(FormatConfig {
        format: OutputFormat::Basic,
        add_newline: false,
        indent: "  ".to_string(),
        preserve_case: true,
    });
    assert_eq!(basic.format("SELECT name FROM users").unwrap(), "SELECT name FROM users");
}

#[test]
fn duckdb_sqlite_and_postgres_give_the_same_sql() {
    let pg = Transpiler::new(Box::new(PostgreSqlDialect::new()));
    let lite = Transpiler::new(Box::new(SqliteDialect::new()));
    let duck = Transpiler::new(Box::new(DuckDbDialect::new()));
    for code in [
        "select(name, age) %>% filter(age > 18)",
        "group_by(dept) %>% summarise(m = median(salary), o = Mode(x), a = mean(y), c = n())",
        "mutate(z = x + 1) %>% arrange(desc(z))",
    ] {
        let expected = pg.transpile(code).unwrap();
        assert_eq!(lite.transpile(code).unwrap(), expected);
        assert_eq!(duck.transpile(code).unwrap(), expected);
    }
    let sql = duck.transpile("summarise(m = median(salary))").unwrap();
    assert!(sql.contains("MEDIAN(\"salary\") AS \"m\""));
}

#[test]
fn mysql_gives_postgres_sql_with_backticks() {
    let pg = Transpiler::new(Box::new(PostgreSqlDialect::new()));
    let my = Transpiler::new(Box::new(MySqlDialect::new()));
    for code in [
        "select(name, age, salary) %>% filter(age >= 18) %>% arrange(desc(salary))",
        "group_by(dept) %>% summarise(total = sum(salary), m = median(x), c = n())",
        "select(name, salary) %>% mutate(bonus = salary * 0.1)",
    ] {
        let expected = pg.transpile(code).unwrap().replace('"', "`");
        assert_eq!(my.transpile(code).unwrap(), expected);
    }
}

#[test]
fn selecting_one_column_in_every_dialect() {
    let dialects: Vec<Box<dyn SqlDialect>> = vec![
        Box::new(PostgreSqlDialect::new()),
        Box::new(MySqlDialect::new()),
        Box::new(SqliteDialect::new()),
        Box::new(DuckDbDialect::new()),
    ];
    for d in dialects {
        let expected = format!("SELECT {}\nFROM {}", d.quote_identifier("name"), d.quote_identifier("data"));
        let transpiler = Transpiler::new(d);
        assert_eq!(transpiler.transpile("select(name)").unwrap(), expected);
    }
}

#[test]
fn quote_free_code_keeps_dialects_in_step() {
    let pg = Transpiler::new(Box::new(PostgreSqlDialect::new()));
    let my = Transpiler::new(Box::new(MySqlDialect::new()));
    let duck = Transpiler::new(Box::new(DuckDbDialect::new()));
    let code = "filter(name == 'it`s' & n >= 2) %>% summarise(m = MEDIAN(x))";
    let p = pg.transpile(code);
    assert_eq!(duck.transpile(code), p);
    match p {
        Ok(sql) => assert_eq!(my.transpile(code).unwrap(), sql.replace('"', "`")),
        Err(e) => assert_eq!(my.transpile(code).unwrap_err(), e),
    }
    let bad = "select(";
    assert_eq!(my.transpile(bad).unwrap_err(), pg.transpile(bad).unwrap_err());
}
