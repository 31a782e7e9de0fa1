use libdplyr::{
    DuckDbDialect, MySqlDialect, PostgreSqlDialect, SqlDialect, SqliteDialect, TranspileError,
    Transpiler,
};

#[test]
fn test_transpiler_creation() {
    let _transpiler = Transpiler::new(Box::new(PostgreSqlDialect::new()));
    // Verify that transpiler creation succeeds
}

#[test]
fn test_transpiler_with_different_dialects() {
    let dialects: Vec<Box<dyn SqlDialect>> = vec![
        Box::new(PostgreSqlDialect::new()),
        Box::new(MySqlDialect::new()),
        Box::new(SqliteDialect::new()),
        Box::new(DuckDbDialect::new()),
    ];

    for dialect in dialects {
        let _transpiler = Transpiler::new(dialect);
        // Verify that transpiler creation succeeds with all dialects
    }
}

#[test]
fn test_transpile_simple_select() {
    let transpiler = Transpiler::new(Box::new(PostgreSqlDialect::new()));
    let dplyr_code = "select(name, age)";

    let result = transpiler.transpile(dplyr_code);
    assert!(result.is_ok(), "변환이 성공해야 합니다: {:?}", result);

    let sql = result.unwrap();
    assert!(sql.contains("SELECT"));
    assert!(sql.contains("\"name\""));
    assert!(sql.contains("\"age\""));
}

#[test]
fn test_transpile_with_filter() {
    let transpiler = Transpiler::new(Box::new(PostgreSqlDialect::new()));
    let dplyr_code = "select(name, age) %>% filter(age > 18)";

    let result = transpiler.transpile(dplyr_code);
    assert!(result.is_ok(), "변환이 성공해야 합니다: {:?}", result);

    let sql = result.unwrap();
    assert!(sql.contains("SELECT"));
    assert!(sql.contains("WHERE"));
    assert!(sql.contains("\"age\" > 18"));
}

#[test]
fn test_transpile_complex_pipeline() {
    let transpiler = Transpiler::new(Box::new(PostgreSqlDialect::new()));
    let dplyr_code = r#"
        select(name, age, salary) %>%
        filter(age >= 18) %>%
        arrange(desc(salary))
    "#;

    let result = transpiler.transpile(dplyr_code);
    assert!(result.is_ok(), "변환이 성공해야 합니다: {:?}", result);

    let sql = result.unwrap();
    assert!(sql.contains("SELECT"));
    assert!(sql.contains("WHERE"));
    assert!(sql.contains("ORDER BY"));
    assert!(sql.contains("\"salary\" DESC"));
}

#[test]
fn test_transpile_with_mutate() {
    let transpiler = Transpiler::new(Box::new(PostgreSqlDialect::new()));
    let dplyr_code = "select(name, salary) %>% mutate(bonus = salary * 0.1)";

    let result = transpiler.transpile(dplyr_code);
    assert!(result.is_ok(), "변환이 성공해야 합니다: {:?}", result);

    let sql = result.unwrap();
    assert!(sql.contains("SELECT"));
    assert!(sql.contains("\"bonus\""));
}

#[test]
fn test_transpile_with_group_by_and_summarise() {
    let transpiler = Transpiler::new(Box::new(PostgreSqlDialect::new()));
    let dplyr_code = "group_by(department) %>% summarise(avg_salary = mean(salary))";

    let result = transpiler.transpile(dplyr_code);
    assert!(result.is_ok(), "변환이 성공해야 합니다: {:?}", result);

    let sql = result.unwrap();
    assert!(sql.contains("SELECT"));
    assert!(sql.contains("GROUP BY"));
    assert!(sql.contains("AVG"));
}

#[test]
fn test_parse_dplyr_individual_function() {
    let transpiler = Transpiler::new(Box::new(PostgreSqlDialect::new()));
    let dplyr_code = "select(name, age)";

    let result = transpiler.parse_dplyr(dplyr_code);
    assert!(result.is_ok(), "파싱이 성공해야 합니다: {:?}", result);

    let ast = result.unwrap();
    assert!(ast.is_pipeline());
}

#[test]
fn test_generate_sql_from_ast() {
    let transpiler = Transpiler::new(Box::new(PostgreSqlDialect::new()));
    let dplyr_code = "select(name, age)";

    // First parse to get AST
    let ast = transpiler.parse_dplyr(dplyr_code).unwrap();

    // Then generate SQL from AST
    let result = transpiler.generate_sql(&ast);
    assert!(result.is_ok(), "SQL 생성이 성공해야 합니다: {:?}", result);

    let sql = result.unwrap();
    assert!(sql.contains("SELECT"));
    assert!(sql.contains("\"name\""));
    assert!(sql.contains("\"age\""));
}

#[test]
fn test_transpile_error_handling() {
    let transpiler = Transpiler::new(Box::new(PostgreSqlDialect::new()));

    // Test invalid syntax
    let result = transpiler.transpile("invalid_function(test)");
    assert!(result.is_err(), "잘못된 문법은 오류를 반환해야 합니다");

    match result.unwrap_err() {
        TranspileError::ParseError(_) => {} // 예상된 에러 타입
        other => panic!("예상치 못한 에러 타입: {:?}", other),
    }
}

#[test]
fn test_transpile_different_dialects() {
    let test_cases = vec![
        (
            "PostgreSQL",
            Box::new(PostgreSqlDialect::new()) as Box<dyn SqlDialect>,
        ),
        (
            "MySQL",
            Box::new(MySqlDialect::new()) as Box<dyn SqlDialect>,
        ),
        (
            "SQLite",
            Box::new(SqliteDialect::new()) as Box<dyn SqlDialect>,
        ),
        (
            "DuckDB",
            Box::new(DuckDbDialect::new()) as Box<dyn SqlDialect>,
        ),
    ];

    let dplyr_code = "select(name, age) %>% filter(age > 18)";

    for (dialect_name, dialect) in test_cases {
        let transpiler = Transpiler::new(dialect);
        let result = transpiler.transpile(dplyr_code);

        assert!(
            result.is_ok(),
            "{} 방언에서 변환이 성공해야 합니다: {:?}",
            dialect_name,
            result
        );

        let sql = result.unwrap();
        assert!(
            sql.contains("SELECT"),
            "{} 방언 결과에 SELECT가 포함되어야 합니다",
            dialect_name
        );
        assert!(
            sql.contains("WHERE"),
            "{} 방언 결과에 WHERE가 포함되어야 합니다",
            dialect_name
        );
    }
}

#[test]
fn test_transpile_empty_input() {
    let transpiler = Transpiler::new(Box::new(PostgreSqlDialect::new()));

    let result = transpiler.transpile("");
    assert!(result.is_err(), "빈 입력은 오류를 반환해야 합니다");
}

#[test]
fn test_transpile_whitespace_only() {
    let transpiler = Transpiler::new(Box::new(PostgreSqlDialect::new()));

    let result = transpiler.transpile("   \t  \n  ");
    assert!(result.is_err(), "공백만 있는 입력은 오류를 반환해야 합니다");
}

#[test]
fn test_transpile_result_types() {
    let transpiler = Transpiler::new(Box::new(PostgreSqlDialect::new()));

    // Test successful case returns String
    let success_result = transpiler.transpile("select(name)");
    assert!(success_result.is_ok());
    let _sql: String = success_result.unwrap();

    // Test error case returns TranspileError - use clearly invalid syntax
    let error_result = transpiler.transpile("@#$%invalid");
    assert!(error_result.is_err());
    let _error: TranspileError = error_result.unwrap_err();
}
