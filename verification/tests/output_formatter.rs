use libdplyr::cli::output_formatter::{FormatConfig, FormatError, OutputFormat, OutputFormatter};

#[test]
fn test_output_format_display() {
    assert_eq!(OutputFormat::Basic.to_string(), "basic");
    assert_eq!(OutputFormat::Pretty.to_string(), "pretty");
    assert_eq!(OutputFormat::Compact.to_string(), "compact");
}

#[test]
fn test_format_config_default() {
    let config = FormatConfig::default();
    assert_eq!(config.format, OutputFormat::Basic);
    assert!(config.add_newline);
    assert_eq!(config.indent, "  ");
    assert!(config.preserve_case);
}

#[test]
fn test_output_formatter_creation() {
    let formatter = OutputFormatter::new();
    assert_eq!(formatter.config.format, OutputFormat::Basic);
    
    let pretty_formatter = OutputFormatter::with_format(OutputFormat::Pretty);
    assert_eq!(pretty_formatter.config.format, OutputFormat::Pretty);
    
    let custom_config = FormatConfig {
        format: OutputFormat::Compact,
        add_newline: false,
        indent: "    ".to_string(),
        preserve_case: false,
    };
    let custom_formatter = OutputFormatter::with_config(custom_config);
    assert_eq!(custom_formatter.config.format, OutputFormat::Compact);
    assert!(!custom_formatter.config.add_newline);
}

#[test]
fn test_basic_formatting() {
    let formatter = OutputFormatter::with_format(OutputFormat::Basic);
    let sql = "SELECT   name,   age   FROM   users   WHERE   age > 18";
    
    let result = formatter.format(sql).unwrap();
    assert_eq!(result, "SELECT name, age FROM users WHERE age > 18\n");
}

#[test]
fn test_pretty_formatting() {
    let formatter = OutputFormatter::with_format(OutputFormat::Pretty);
    let sql = "SELECT name, age FROM users WHERE age > 18 AND status = 'active' ORDER BY name";
    
    let result = formatter.format(sql).unwrap();
    assert!(result.contains("\nFROM"));
    assert!(result.contains("\nWHERE"));
    assert!(result.contains("AND"));
    assert!(result.contains("\nORDER BY"));
    assert!(result.ends_with('\n'));
}

#[test]
fn test_compact_formatting() {
    let formatter = OutputFormatter::with_format(OutputFormat::Compact);
    let sql = "SELECT   name,   age   FROM   users   WHERE   age > 18";
    
    let result = formatter.format(sql).unwrap();
    // Should be compact but still readable
    assert!(!result.contains("  ")); // No double spaces
    assert!(result.contains(", ")); // Proper comma spacing
    assert!(result.ends_with('\n'));
}

#[test]
fn test_pretty_formatting_with_joins() {
    let formatter = OutputFormatter::with_format(OutputFormat::Pretty);
    let sql = "SELECT u.name, o.total FROM users u LEFT JOIN orders o ON u.id = o.user_id WHERE u.age > 18";
    
    let result = formatter.format(sql).unwrap();
    assert!(result.contains("\nFROM"));
    assert!(result.contains("LEFT JOIN"));
    assert!(result.contains("\nWHERE"));
}

#[test]
fn test_empty_sql_error() {
    let formatter = OutputFormatter::new();
    let result = formatter.format("");
    assert!(result.is_err());
    
    let result = formatter.format("   ");
    assert!(result.is_err());
}

#[test]
fn test_format_error_display() {
    let error = FormatError::InvalidSql("test error".to_string());
    assert_eq!(error.to_string(), "Invalid SQL input: test error");
    
    let error = FormatError::FormattingFailed("format error".to_string());
    assert_eq!(error.to_string(), "Formatting failed: format error");
}

#[test]
fn test_config_updates() {
    let mut formatter = OutputFormatter::new();
    assert_eq!(formatter.config().format, OutputFormat::Basic);
    
    formatter.set_format(OutputFormat::Pretty);
    assert_eq!(formatter.config().format, OutputFormat::Pretty);
    
    let new_config = FormatConfig {
        format: OutputFormat::Compact,
        add_newline: false,
        indent: "    ".to_string(),
        preserve_case: false,
    };
    formatter.set_config(new_config);
    assert_eq!(formatter.config().format, OutputFormat::Compact);
    assert!(!formatter.config().add_newline);
}

#[test]
fn output_formatter_test_newline_handling() {
    let config = FormatConfig {
        format: OutputFormat::Basic,
        add_newline: false,
        ..Default::default()
    };
    let formatter = OutputFormatter::with_config(config);
    
    let result = formatter.format("SELECT name FROM users").unwrap();
    assert!(!result.ends_with('\n'));
}

#[test]
fn test_complex_query_formatting() {
    let formatter = OutputFormatter::with_format(OutputFormat::Pretty);
    let sql = "SELECT u.name, u.email, COUNT(o.id) as order_count FROM users u LEFT JOIN orders o ON u.id = o.user_id WHERE u.status = 'active' AND u.created_at > '2023-01-01' GROUP BY u.id, u.name, u.email HAVING COUNT(o.id) > 0 ORDER BY order_count DESC LIMIT 10";
    
    let result = formatter.format(sql).unwrap();
    
    // Check that all major clauses are on separate lines
    assert!(result.contains("SELECT u.name"));
    assert!(result.contains("\nFROM users u"));
    assert!(result.contains("LEFT JOIN orders o"));
    assert!(result.contains("\nWHERE u.status"));
    assert!(result.contains("AND u.created_at"));
    assert!(result.contains("\nGROUP BY"));
    assert!(result.contains("\nHAVING"));
    assert!(result.contains("\nORDER BY"));
    assert!(result.contains("\nLIMIT"));
}
