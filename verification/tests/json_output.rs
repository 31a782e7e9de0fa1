use libdplyr::cli::json_output::{ErrorInfo, InputInfo, JsonOutputFormatter, MetadataBuilder, ProcessingStats};

#[test]
fn test_json_output_formatter_creation() {
    let formatter = JsonOutputFormatter::new();
    assert!(!formatter.pretty_print);
    assert!(!formatter.include_debug);
    
    let pretty_formatter = JsonOutputFormatter::pretty();
    assert!(pretty_formatter.pretty_print);
    assert!(!pretty_formatter.include_debug);
    
    let debug_formatter = JsonOutputFormatter::with_debug();
    assert!(!debug_formatter.pretty_print);
    assert!(debug_formatter.include_debug);
}

#[test]
fn test_metadata_builder() {
    let metadata = MetadataBuilder::new("postgresql")
        .with_version("1.0.0")
        .build();
    
    assert_eq!(metadata.dialect, "postgresql");
    assert_eq!(metadata.version, "1.0.0");
    assert!(metadata.timestamp > 0);
}

#[test]
fn test_processing_stats() {
    let stats = ProcessingStats::empty();
    assert_eq!(stats.total_time_us, 0);
    
    let stats = ProcessingStats::with_timing(100, 200, 300);
    assert_eq!(stats.lex_time_us, 100);
    assert_eq!(stats.parse_time_us, 200);
    assert_eq!(stats.generation_time_us, 300);
    assert_eq!(stats.total_time_us, 600);
}

#[test]
fn test_input_info() {
    let info = InputInfo::from_file("test.R", "data %>% select(name)");
    assert_eq!(info.source_type, "file");
    assert_eq!(info.source_id, "test.R");
    assert!(info.size_bytes > 0);
    assert_eq!(info.line_count, 1);
    
    let info = InputInfo::from_stdin("data %>% select(name)");
    assert_eq!(info.source_type, "stdin");
    assert_eq!(info.source_id, "stdin");
    
    let info = InputInfo::from_text("data %>% select(name)");
    assert_eq!(info.source_type, "text");
    assert_eq!(info.source_id, "command_line");
}

#[test]
fn test_error_info_from_transpile_error() {
    // This test would require actual TranspileError instances
    // For now, we'll test the structure
    let error_info = ErrorInfo {
        error_type: "lex".to_string(),
        message: "Unexpected character".to_string(),
        position: Some(5),
        suggestions: vec!["Check for invalid characters".to_string()],
    };
    
    assert_eq!(error_info.error_type, "lex");
    assert_eq!(error_info.message, "Unexpected character");
    assert_eq!(error_info.position, Some(5));
    assert_eq!(error_info.suggestions.len(), 1);
}
