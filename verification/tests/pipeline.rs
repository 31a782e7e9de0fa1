use libdplyr::cli::output_formatter::OutputFormat;
use libdplyr::cli::pipeline::{CliArgs, CliConfig, CliMode, ProcessingPipeline, SqlDialectType};

fn create_test_args() -> CliArgs {
    CliArgs {
        input_file: None,
        output_file: None,
        dialect: SqlDialectType::PostgreSql,
        pretty_print: false,
        input_text: None,
        validate_only: false,
        verbose: false,
        debug: false,
        compact: false,
        json_output: false,
    }
}

#[test]
fn test_cli_config_from_args_stdin_mode() {
    let args = create_test_args();
    let config = CliConfig::from_args(&args);

    assert!(matches!(config.mode, CliMode::StdinMode { .. }));
    assert_eq!(config.dialect, SqlDialectType::PostgreSql);
    assert!(matches!(config.output_format, OutputFormat::Default));
    assert!(!config.validation_only);
}

#[test]
fn test_cli_config_from_args_text_mode() {
    let mut args = create_test_args();
    args.input_text = Some("select(name)".to_string());
    args.json_output = true;

    let config = CliConfig::from_args(&args);

    if let CliMode::TextMode {
        input_text,
        output_file,
    } = config.mode
    {
        assert_eq!(input_text, "select(name)");
        assert_eq!(output_file, None);
    } else {
        panic!("Expected TextMode");
    }

    assert!(matches!(config.output_format, OutputFormat::Json));
}

#[test]
fn test_cli_config_from_args_file_mode() {
    let mut args = create_test_args();
    args.input_file = Some("input.dplyr".to_string());
    args.output_file = Some("output.sql".to_string());
    args.pretty_print = true;

    let config = CliConfig::from_args(&args);

    if let CliMode::FileMode {
        input_file,
        output_file,
    } = config.mode
    {
        assert_eq!(input_file, "input.dplyr");
        assert_eq!(output_file, Some("output.sql".to_string()));
    } else {
        panic!("Expected FileMode");
    }

    assert!(matches!(config.output_format, OutputFormat::Pretty));
}

#[test]
fn test_cli_config_validation_mode() {
    let mut args = create_test_args();
    args.validate_only = true;
    args.verbose = true;
    args.debug = true;

    let config = CliConfig::from_args(&args);

    assert!(config.validation_only);
    assert!(config.verbose);
    assert!(config.debug);
}

#[test]
fn test_processing_pipeline_creation() {
    let args = create_test_args();
    let config = CliConfig::from_args(&args);

    let pipeline = ProcessingPipeline::new(config);
    assert!(pipeline.is_ok());
}

#[test]
fn test_processing_pipeline_validation_mode() {
    let mut args = create_test_args();
    args.validate_only = true;
    let config = CliConfig::from_args(&args);

    let pipeline = ProcessingPipeline::new(config).unwrap();
    assert!(pipeline.validator.is_some());
}
