use wrap_mcp::cli::CliOptions;

#[test]
fn test_parse_with_command() {
    let args = vec![
        "wrap-mcp".to_string(),
        "--".to_string(),
        "echo".to_string(),
        "hello".to_string(),
    ];
    let opts = CliOptions::parse(&args);
    assert_eq!(opts.command, "echo");
    assert_eq!(opts.args, vec!["hello"]);
    assert!(!opts.preserve_ansi);
    assert!(!opts.watch_binary);
}

#[test]
fn test_parse_with_options() {
    let args = vec![
        "wrap-mcp".to_string(),
        "--ansi".to_string(),
        "-w".to_string(),
        "--".to_string(),
        "cat".to_string(),
    ];
    let opts = CliOptions::parse(&args);
    assert_eq!(opts.command, "cat");
    assert!(opts.preserve_ansi);
    assert!(opts.watch_binary);
}

#[test]
fn test_parse_no_command() {
    let args = vec!["wrap-mcp".to_string()];
    let opts = CliOptions::parse(&args);
    assert_eq!(opts.command, "echo");
    assert_eq!(opts.args, vec!["No wrappee command specified"]);
}

#[test]
fn parse_ignores_options_after_the_separator() {
    let args = vec![
        "wrap-mcp".to_string(),
        "--".to_string(),
        "server".to_string(),
        "--ansi".to_string(),
        "-w".to_string(),
    ];
    let opts = CliOptions::parse(&args);
    assert_eq!(opts.command, "server");
    assert_eq!(opts.args, vec!["--ansi", "-w"]);
    assert!(!opts.preserve_ansi);
    assert!(!opts.watch_binary);
    assert!(opts.disable_colors());
}

#[test]
fn parse_separator_without_command_falls_back() {
    let args = vec!["wrap-mcp".to_string(), "--ansi".to_string(), "--".to_string()];
    let opts = CliOptions::parse(&args);
    assert!(opts.preserve_ansi);
    assert!(!opts.disable_colors());
    assert_eq!(opts.command, "echo");
    assert_eq!(opts.args, vec!["No wrappee command specified"]);
}

#[test]
fn parse_uses_the_first_separator() {
    let args = vec![
        "wrap-mcp".to_string(),
        "--".to_string(),
        "run".to_string(),
        "--".to_string(),
        "x".to_string(),
    ];
    let opts = CliOptions::parse(&args);
    assert_eq!(opts.command, "run");
    assert_eq!(opts.args, vec!["--", "x"]);
}

#[test]
fn parse_separator_in_first_place_has_no_options() {
    let args = vec!["--".to_string(), "run".to_string()];
    let opts = CliOptions::parse(&args);
    assert_eq!(opts.command, "run");
    assert!(opts.args.is_empty());
    assert!(!opts.preserve_ansi);
    assert!(!opts.watch_binary);
}

#[test]
fn parse_empty_argument_list() {
    let args: Vec<String> = Vec::new();
    let opts = CliOptions::parse(&args);
    assert_eq!(opts.command, "echo");
    assert!(!opts.watch_binary);
}
