use rust_scenedetect::{Args, FilterMode, Float64, OutputFormat};

fn float(x: f64) -> Float64 {
    Float64::from_bits(x.to_bits())
}

#[test]
fn test_args_parsing_basic() {
    let args = Args {
        video_path: "test.mp4".to_string(),
        threshold: Some(float(30.0)),
        min_scene_length: Some(20),
        filter_mode: FilterMode::Merge,
        luma_only: true,
        verbose: false,
        show_video_info: false,
        output_format: OutputFormat::Detailed,
    };

    assert_eq!(args.video_path, "test.mp4");
    assert_eq!(args.threshold, Some(float(30.0)));
    assert_eq!(args.min_scene_length, Some(20));
    assert!(args.luma_only);
}

#[test]
fn test_output_format_values() {
    let simple = OutputFormat::Simple;
    let detailed = OutputFormat::Detailed;
    let json = OutputFormat::Json;

    assert!(matches!(simple, OutputFormat::Simple));
    assert!(matches!(detailed, OutputFormat::Detailed));
    assert!(matches!(json, OutputFormat::Json));
}

#[test]
fn test_default_args() {
    let args = Args::default();
    assert!(args.video_path.is_empty());
    assert_eq!(args.threshold, None);
    assert_eq!(args.min_scene_length, None);
    assert!(!args.luma_only);
    assert!(!args.verbose);
    assert!(!args.show_video_info);
}

#[test]
fn test_default_args_ask_for_the_default_detector() {
    let args = Args::default();
    assert!(!args.uses_custom_config());
    assert_eq!(args.threshold_or_default().to_bits(), 27.0f64.to_bits());
    assert_eq!(args.min_scene_length_or_default(), 15);
    assert_eq!(args.filter_mode, FilterMode::Suppress);
    assert_eq!(args.output_format, OutputFormat::Simple);
    let detector = args.detector().unwrap();
    assert_eq!(detector.threshold().to_bits(), 27.0f64.to_bits());
    assert_eq!(detector.min_scene_length(), 15);
}

#[test]
fn test_args_detector_follows_the_options() {
    let args = Args {
        threshold: Some(float(30.0)),
        min_scene_length: Some(20),
        filter_mode: FilterMode::Merge,
        ..Args::default()
    };
    assert!(args.uses_custom_config());
    let detector = args.detector().unwrap();
    assert_eq!(detector.threshold().to_bits(), 30.0f64.to_bits());
    assert_eq!(detector.min_scene_length(), 20);
    assert_eq!(detector.weights().delta_hue.to_bits(), 1.0f64.to_bits());

    let luma = Args { luma_only: true, ..args.clone() };
    let detector = luma.detector().unwrap();
    assert_eq!(detector.threshold().to_bits(), 30.0f64.to_bits());
    assert_eq!(detector.min_scene_length(), 15);
    assert_eq!(detector.weights().delta_hue.to_bits(), 0.0f64.to_bits());
    assert_eq!(detector.weights().delta_lum.to_bits(), 1.0f64.to_bits());
}

#[test]
fn test_args_detector_rejects_bad_settings() {
    let negative = Args { threshold: Some(float(-1.0)), ..Args::default() };
    assert_eq!(
        negative.detector().unwrap_err().to_string(),
        "Invalid configuration: Threshold must be non-negative"
    );
    let negative_luma = Args { luma_only: true, ..negative };
    assert_eq!(
        negative_luma.detector().unwrap_err().to_string(),
        "Invalid configuration: Threshold must be non-negative"
    );
    let no_length = Args { min_scene_length: Some(0), ..Args::default() };
    assert_eq!(
        no_length.detector().unwrap_err().to_string(),
        "Invalid configuration: Minimum scene length must be positive"
    );
    let no_length_luma = Args { luma_only: true, ..no_length };
    assert!(no_length_luma.detector().is_ok());
}

fn words(line: &[&str]) -> Vec<rust_scenedetect::Argument> {
    line.iter()
        .map(|text| rust_scenedetect::Argument {
            text: text.to_string(),
            as_number: text.parse::<f64>().ok().map(float),
            as_count: text.parse::<u32>().ok(),
        })
        .collect()
}

fn parse(line: &[&str]) -> Result<Args, String> {
    rust_scenedetect::parse_args(&words(line))
}

#[test]
fn test_parse_args_video_only() {
    let args = parse(&["scenedetect", "video.mp4"]).unwrap();
    assert_eq!(args.video_path, "video.mp4");
    assert_eq!(args.threshold, None);
    assert_eq!(args.min_scene_length, None);
    assert_eq!(args.filter_mode, FilterMode::Suppress);
    assert!(!args.luma_only);
    assert!(!args.verbose);
    assert!(!args.show_video_info);
    assert_eq!(args.output_format, OutputFormat::Simple);
}

#[test]
fn test_parse_args_every_option() {
    let args = parse(&[
        "scenedetect",
        "video.mp4",
        "--threshold",
        "30.0",
        "--min-scene-length",
        "20",
        "--filter-mode",
        "merge",
        "--format",
        "json",
        "--luma-only",
        "--verbose",
        "--info",
    ])
    .unwrap();
    assert_eq!(args.video_path, "video.mp4");
    assert_eq!(args.threshold, Some(float(30.0)));
    assert_eq!(args.min_scene_length, Some(20));
    assert_eq!(args.filter_mode, FilterMode::Merge);
    assert_eq!(args.output_format, OutputFormat::Json);
    assert!(args.luma_only);
    assert!(args.verbose);
    assert!(args.show_video_info);
}

#[test]
fn test_parse_args_last_value_wins() {
    let args = parse(&[
        "p", "v", "--format", "detailed", "--format", "simple", "--filter-mode", "merge",
        "--filter-mode", "suppress", "--threshold", "1", "--threshold", "2.5",
    ])
    .unwrap();
    assert_eq!(args.output_format, OutputFormat::Simple);
    assert_eq!(args.filter_mode, FilterMode::Suppress);
    assert_eq!(args.threshold, Some(float(2.5)));
}

#[test]
fn test_parse_args_a_value_may_look_like_an_option() {
    assert_eq!(
        parse(&["p", "v", "--threshold", "--verbose"]).unwrap_err(),
        "Invalid threshold value"
    );
    assert_eq!(
        parse(&["p", "v", "--filter-mode", "--luma-only"]).unwrap_err(),
        "Invalid filter mode. Use 'suppress' or 'merge'"
    );
}

#[test]
fn test_parse_args_errors() {
    let cases: [(&[&str], &str); 12] = [
        (&["p", "v", "--threshold"], "--threshold requires a value"),
        (&["p", "v", "--threshold", "high"], "Invalid threshold value"),
        (&["p", "v", "--min-scene-length"], "--min-scene-length requires a value"),
        (&["p", "v", "--min-scene-length", "-3"], "Invalid min-scene-length value"),
        (&["p", "v", "--min-scene-length", "1.5"], "Invalid min-scene-length value"),
        (&["p", "v", "--filter-mode"], "--filter-mode requires a value"),
        (&["p", "v", "--filter-mode", "Merge"], "Invalid filter mode. Use 'suppress' or 'merge'"),
        (&["p", "v", "--format"], "--format requires a value"),
        (&["p", "v", "--format", "xml"], "Invalid format. Use 'simple', 'detailed', or 'json'"),
        (&["p", "v", "--fast"], "Unknown option: --fast"),
        (&["p", "v", "extra.mp4"], "Unknown option: extra.mp4"),
        (&["p", "v", "--verbose", "--threshold", "x", "--fast"], "Invalid threshold value"),
    ];
    for (line, message) in cases {
        assert_eq!(parse(line).unwrap_err(), message);
    }
}

#[test]
fn test_parse_args_usage() {
    let message = parse(&["scenedetect"]).unwrap_err();
    assert_eq!(
        message,
        format!(
            "Usage: {} <video_path> [OPTIONS]\n\n\
            Options:\n\
            --threshold <value>      Detection threshold (default: 27.0)\n\
            --min-scene-length <n>   Minimum frames between cuts (default: 15)\n\
            --filter-mode <mode>     Filter mode: suppress|merge (default: suppress)\n\
            --luma-only              Use only brightness changes\n\
            --verbose                Enable debug logging\n\
            --info                   Show video information only\n\
            --format <fmt>           Output format: simple|detailed|json (default: simple)\n\
            --help                   Show this help message\n\n\
            Examples:\n\
            {} video.mp4\n\
            {} video.mp4 --threshold 30.0 --verbose\n\
            {} video.mp4 --luma-only --format detailed",
            "scenedetect", "scenedetect", "scenedetect", "scenedetect"
        )
    );
}

#[test]
fn test_parse_args_help() {
    let message = parse(&["scenedetect", "video.mp4", "--verbose", "--help", "--fast"]).unwrap_err();
    assert!(message.starts_with("Rust Scene Detection Tool\n\nUsage: scenedetect <video_path> [OPTIONS]\n\n"));
    assert!(message.contains("\n--threshold <value>      Detection threshold (default: 27.0)\n"));
    assert!(message.contains("\n--luma-only              Use only brightness changes (ignore color)\n"));
    assert!(message.ends_with("\n--help                   Show this help message"));
}

#[test]
fn test_parse_args_special_numbers() {
    let args = parse(&["p", "v", "--threshold", "-1"]).unwrap();
    assert_eq!(args.threshold.unwrap().to_bits(), (-1.0f64).to_bits());
    let args = parse(&["p", "v", "--threshold", "inf", "--min-scene-length", "0"]).unwrap();
    assert_eq!(args.threshold.unwrap().to_bits(), f64::INFINITY.to_bits());
    assert_eq!(args.min_scene_length, Some(0));
    let args = parse(&["p", "v", "--min-scene-length", "+7"]).unwrap();
    assert_eq!(args.min_scene_length, Some(7));
    assert_eq!(
        parse(&["p", "v", "--min-scene-length", "4294967296"]).unwrap_err(),
        "Invalid min-scene-length value"
    );
}
