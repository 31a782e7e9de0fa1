use libdplyr::cli::debug_logger::{DebugLogger, DebugLoggerConfig};

#[test]
fn test_debug_logger_creation() {
    let logger = DebugLogger::new(DebugLoggerConfig::default());
    assert!(!logger.config.verbose);
    assert!(!logger.config.debug);
}

#[test]
fn test_debug_logger_with_settings() {
    let logger = DebugLogger::with_settings(true, false);
    assert!(logger.config.verbose);
    assert!(!logger.config.debug);
}
