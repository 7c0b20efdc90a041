use colored::{ColoredString, Colorize};
use geiger::IncludeTests;
use geiger_print::colorize::{colorize, style_for, CrateDetectionStatus, TextStyle};
use geiger_print::output_format::{OutputFormat, OutputFormatParseError};
use geiger_print::pattern::{Chunk, Pattern, PatternError};
use geiger_print::print_config::{Args, PrintConfig, Prefix};
use petgraph::EdgeDirection;
use std::str::FromStr;

fn args_with_format(format: &str) -> Args {
    Args {
        format: String::from(format),
        ..Default::default()
    }
}

#[test]
fn print_config_new_test_invert() {
    for (invert, expected) in [
        (true, EdgeDirection::Incoming),
        (false, EdgeDirection::Outgoing),
    ] {
        let args = Args {
            invert,
            ..Default::default()
        };
        let result = PrintConfig::new(&args);
        assert!(result.is_ok());
        assert_eq!(result.unwrap().direction, expected);
    }
}

#[test]
fn print_config_new_test_format() {
    let cases = vec![
        (String::from("{p}"), Pattern::new(vec![Chunk::Package])),
        (String::from("{l}"), Pattern::new(vec![Chunk::License])),
        (String::from("{r}"), Pattern::new(vec![Chunk::Repository])),
        (
            String::from("Text"),
            Pattern::new(vec![Chunk::Raw(String::from("Text"))]),
        ),
        (
            String::from("{p}-{l}-{r}-Text"),
            Pattern {
                chunks: vec![
                    Chunk::Package,
                    Chunk::Raw(String::from("-")),
                    Chunk::License,
                    Chunk::Raw(String::from("-")),
                    Chunk::Repository,
                    Chunk::Raw(String::from("-Text")),
                ],
            },
        ),
    ];
    for (format, expected) in cases {
        let args = Args {
            format,
            ..Default::default()
        };
        let result = PrintConfig::new(&args);
        assert!(result.is_ok());
        assert_eq!(result.unwrap().format, expected);
    }
}

#[test]
fn print_config_new_test_include_tests() {
    for (include_tests, expected) in [(true, IncludeTests::Yes), (false, IncludeTests::No)] {
        let args = Args {
            include_tests,
            ..Default::default()
        };
        let result = PrintConfig::new(&args);
        assert!(result.is_ok());
        assert_eq!(result.unwrap().include_tests, expected);
    }
}

#[test]
fn print_config_new_test_prefix() {
    for (prefix_depth, no_indent, expected) in [
        (true, false, Prefix::Depth),
        (true, true, Prefix::Depth),
        (false, true, Prefix::Plain),
        (false, false, Prefix::Indent),
    ] {
        let args = Args {
            no_indent,
            prefix_depth,
            ..Default::default()
        };
        let result = PrintConfig::new(&args);
        assert!(result.is_ok());
        assert_eq!(result.unwrap().prefix, expected);
    }
}

#[test]
fn output_format_from_str_test() {
    let cases: Vec<(&str, Result<OutputFormat, OutputFormatParseError>)> = vec![
        ("Ascii", Ok(OutputFormat::Ascii)),
        ("Json", Ok(OutputFormat::Json)),
        ("GitHubMarkdown", Ok(OutputFormat::GitHubMarkdown)),
        ("Utf8", Ok(OutputFormat::Utf8)),
        ("unknown_variant", Err(OutputFormatParseError)),
    ];
    for (input, expected) in cases {
        assert_eq!(OutputFormat::from_str(input), expected);
    }
}

#[test]
fn colorize_test() {
    let cases = vec![
        (
            CrateDetectionStatus::NoneDetectedForbidsUnsafe,
            OutputFormat::Ascii,
            String::from("string_value").green(),
        ),
        (
            CrateDetectionStatus::NoneDetectedAllowsUnsafe,
            OutputFormat::Utf8,
            String::from("string_value").normal(),
        ),
        (
            CrateDetectionStatus::UnsafeDetected,
            OutputFormat::Ascii,
            String::from("string_value").red().bold(),
        ),
        (
            CrateDetectionStatus::NoneDetectedForbidsUnsafe,
            OutputFormat::GitHubMarkdown,
            ColoredString::from("string_value"),
        ),
        (
            CrateDetectionStatus::NoneDetectedAllowsUnsafe,
            OutputFormat::GitHubMarkdown,
            ColoredString::from("string_value"),
        ),
        (
            CrateDetectionStatus::UnsafeDetected,
            OutputFormat::GitHubMarkdown,
            ColoredString::from("string_value"),
        ),
    ];
    for (status, output_format, expected) in cases {
        let string_value = String::from("string_value");
        assert_eq!(colorize(&status, output_format, string_value), expected);
    }
}

#[test]
fn parse_accepts_every_name_exactly() {
    assert_eq!(OutputFormat::parse("Ratio"), Ok(OutputFormat::Ratio));
    assert_eq!(OutputFormat::parse("ascii"), Err(OutputFormatParseError));
    assert_eq!(OutputFormat::parse("UTF8"), Err(OutputFormatParseError));
    assert_eq!(OutputFormat::parse(" Json"), Err(OutputFormatParseError));
    assert_eq!(OutputFormat::parse("Json "), Err(OutputFormatParseError));
    assert_eq!(OutputFormat::parse(""), Err(OutputFormatParseError));
    assert_eq!(OutputFormat::parse("GitHub"), Err(OutputFormatParseError));
}

#[test]
fn output_format_default_is_utf8() {
    assert_eq!(OutputFormat::default(), OutputFormat::Utf8);
}

#[test]
fn parse_error_message() {
    assert_eq!(
        OutputFormatParseError.message(),
        "matching output format not found"
    );
}

#[test]
fn pattern_build_twice_is_equal() {
    for format in ["{p}-{l}-{r}-Text", "", "{{x}}", "{q}", "a}"] {
        assert_eq!(Pattern::try_build(format), Pattern::try_build(format));
    }
}

#[test]
fn pattern_empty_template() {
    assert_eq!(Pattern::try_build(""), Ok(Pattern::new(vec![])));
}

#[test]
fn pattern_escapes_merge_with_text() {
    assert_eq!(
        Pattern::try_build("a{{b}}c{p}"),
        Ok(Pattern::new(vec![
            Chunk::Raw(String::from("a{b}c")),
            Chunk::Package
        ]))
    );
    assert_eq!(
        Pattern::try_build("{{"),
        Ok(Pattern::new(vec![Chunk::Raw(String::from("{"))]))
    );
}

#[test]
fn pattern_adjacent_placeholders() {
    assert_eq!(
        Pattern::try_build("{r}{p}"),
        Ok(Pattern::new(vec![Chunk::Repository, Chunk::Package]))
    );
}

#[test]
fn pattern_non_ascii_text() {
    assert_eq!(
        Pattern::try_build("ü{l}é"),
        Ok(Pattern::new(vec![
            Chunk::Raw(String::from("ü")),
            Chunk::License,
            Chunk::Raw(String::from("é"))
        ]))
    );
}

#[test]
fn pattern_unsupported_placeholder() {
    assert_eq!(
        Pattern::try_build("x{name}y"),
        Err(PatternError::UnsupportedPlaceholder(String::from("name")))
    );
    assert_eq!(
        Pattern::try_build("{}"),
        Err(PatternError::UnsupportedPlaceholder(String::new()))
    );
    assert_eq!(
        Pattern::try_build("{P}"),
        Err(PatternError::UnsupportedPlaceholder(String::from("P")))
    );
}

#[test]
fn pattern_unclosed_placeholder() {
    assert_eq!(
        Pattern::try_build("{p"),
        Err(PatternError::UnclosedPlaceholder)
    );
    assert_eq!(Pattern::try_build("{"), Err(PatternError::UnclosedPlaceholder));
}

#[test]
fn pattern_unexpected_close() {
    assert_eq!(Pattern::try_build("a}b"), Err(PatternError::UnexpectedClose));
    assert_eq!(Pattern::try_build("}"), Err(PatternError::UnexpectedClose));
}

#[test]
fn pattern_error_message_names_token() {
    assert_eq!(
        PatternError::UnsupportedPlaceholder(String::from("zz")).message(),
        "unsupported pattern `zz`"
    );
    assert_eq!(PatternError::UnclosedPlaceholder.message(), "expected '}'");
    assert_eq!(PatternError::UnexpectedClose.message(), "unexpected '}'");
}

#[test]
fn print_config_new_fails_on_bad_template() {
    let result = PrintConfig::new(&args_with_format("{x}"));
    let err = result.unwrap_err();
    assert_eq!(err.exit_code, 1);
    assert_eq!(
        err.error,
        PatternError::UnsupportedPlaceholder(String::from("x"))
    );
}

#[test]
fn print_config_new_passes_fields_through() {
    let args = Args {
        all: true,
        output_format: OutputFormat::Json,
        ..args_with_format("{p}")
    };
    let config = PrintConfig::new(&args).unwrap();
    assert!(config.all);
    assert!(config.allow_partial_results);
    assert_eq!(config.output_format, OutputFormat::Json);
    assert_eq!(config.direction, EdgeDirection::Outgoing);
    assert_eq!(config.include_tests, IncludeTests::No);
    assert_eq!(config.prefix, Prefix::Indent);
}

#[test]
fn print_config_default_values() {
    let config = PrintConfig::default();
    assert!(!config.all);
    assert!(!config.allow_partial_results);
    assert_eq!(config.direction, EdgeDirection::Outgoing);
    assert_eq!(config.format, Pattern::try_build("p").unwrap());
    assert_eq!(config.include_tests, IncludeTests::Yes);
    assert_eq!(config.prefix, Prefix::Depth);
    assert_eq!(config.output_format, OutputFormat::Utf8);
}

#[test]
fn style_for_each_status_and_format() {
    let statuses = [
        CrateDetectionStatus::NoneDetectedForbidsUnsafe,
        CrateDetectionStatus::NoneDetectedAllowsUnsafe,
        CrateDetectionStatus::UnsafeDetected,
    ];
    for status in statuses {
        assert_eq!(
            style_for(&status, OutputFormat::GitHubMarkdown),
            TextStyle::Unstyled
        );
    }
    for output_format in [
        OutputFormat::Ascii,
        OutputFormat::Json,
        OutputFormat::Ratio,
        OutputFormat::Utf8,
    ] {
        assert_eq!(
            style_for(&statuses[0], output_format),
            TextStyle::Success
        );
        assert_eq!(
            style_for(&statuses[1], output_format),
            TextStyle::Neutral
        );
        assert_eq!(style_for(&statuses[2], output_format), TextStyle::Alert);
    }
}

#[test]
fn colorize_styles_the_text() {
    let red = colorize(
        &CrateDetectionStatus::UnsafeDetected,
        OutputFormat::Json,
        String::from("abc"),
    );
    assert_ne!(red, ColoredString::from("abc"));
    assert_eq!(red, "abc".red().bold());
    let green = colorize(
        &CrateDetectionStatus::NoneDetectedForbidsUnsafe,
        OutputFormat::Ratio,
        String::from("abc"),
    );
    assert_ne!(green, ColoredString::from("abc"));
    assert_eq!(green, "abc".green());
}

#[test]
fn from_str_exact_names_only() {
    assert_eq!(OutputFormat::from_str("Ratio"), Ok(OutputFormat::Ratio));
    for input in ["", " Utf8", "Utf8 ", "Utf8\n", "UTF8", "json", "githubmarkdown", "ascii"] {
        assert_eq!(OutputFormat::from_str(input), Err(OutputFormatParseError));
    }
}

#[test]
fn colorize_keeps_text() {
    let c = colorize(
        &CrateDetectionStatus::UnsafeDetected,
        OutputFormat::Utf8,
        String::from("kept"),
    );
    assert_eq!(c.input, "kept");
    assert_eq!(c.fgcolor, Some(colored::Color::Red));
    assert_eq!(c.bgcolor, None);
}
