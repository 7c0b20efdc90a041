use crate::output_format::OutputFormat;
use colored::{Color, ColoredString, Colorize};
use vstd::prelude::*;

verus! {

/// colored's styled text value, whose text and colours are public fields.
#[verifier::external_type_specification]
pub struct ExColoredString(colored::ColoredString);

/// colored's terminal colours.
#[verifier::external_type_specification]
pub struct ExColor(colored::Color);

/// colored's set of text styles (bold, underline, ...), carried through opaquely.
#[verifier::external_type_specification]
#[verifier::external_body]
pub struct ExStyle(colored::Style);

/// What the unsafe-code scanner found in a package.
#[derive(Clone, Copy, Debug, PartialEq, Eq, Structural)]
pub enum CrateDetectionStatus {
    NoneDetectedForbidsUnsafe,
    NoneDetectedAllowsUnsafe,
    UnsafeDetected,
}

/// The abstract style given to a piece of report text.
#[derive(Clone, Copy, Debug, PartialEq, Eq, Structural)]
pub enum TextStyle {
    /// No styling at all.
    Unstyled,
    Success,
    Neutral,
    Alert,
}

/// The style for a status in a given output format: markdown is never styled,
/// and otherwise the status alone decides.
pub open spec fn style_of(status: CrateDetectionStatus, output_format: OutputFormat) -> TextStyle {
    if output_format == OutputFormat::GitHubMarkdown {
        TextStyle::Unstyled
    } else {
        match status {
            CrateDetectionStatus::NoneDetectedForbidsUnsafe => TextStyle::Success,
            CrateDetectionStatus::NoneDetectedAllowsUnsafe => TextStyle::Neutral,
            CrateDetectionStatus::UnsafeDetected => TextStyle::Alert,
        }
    }
}

/// The foreground colour that a style gives; the other styles set none.
pub open spec fn foreground_of(style: TextStyle) -> Option<Color> {
    match style {
        TextStyle::Success => Some(Color::Green),
        TextStyle::Alert => Some(Color::Red),
        _ => None,
    }
}

/// The text `s` without colour or style.
pub uninterp spec fn plain_of(s: Seq<char>) -> ColoredString;

/// The text `s` in green.
pub uninterp spec fn green_of(s: Seq<char>) -> ColoredString;

/// The text `s` with colour and style cleared.
pub uninterp spec fn normal_of(s: Seq<char>) -> ColoredString;

/// The text `s` in red.
pub uninterp spec fn red_of(s: Seq<char>) -> ColoredString;

/// The styled text `c` made bold as well.
pub uninterp spec fn bold_of(c: ColoredString) -> ColoredString;

/// The styled value that a style gives to the text `s`.
pub open spec fn styled(style: TextStyle, s: Seq<char>) -> ColoredString {
    match style {
        TextStyle::Unstyled => plain_of(s),
        TextStyle::Success => green_of(s),
        TextStyle::Neutral => normal_of(s),
        TextStyle::Alert => bold_of(red_of(s)),
    }
}

/// Relies on colored's `From<&str> for ColoredString`: the text with no colour or style.
#[verifier::external_body]
fn paint_plain(s: &str) -> (r: ColoredString)
    ensures
        r == plain_of(s@),
        r.input@ == s@,
        r.fgcolor is None,
        r.bgcolor is None,
{
    ColoredString::from(s)
}

/// Relies on colored's `Colorize::green` for `&str`: the text in green.
#[verifier::external_body]
fn paint_green(s: &str) -> (r: ColoredString)
    ensures
        r == green_of(s@),
        r.input@ == s@,
        r.fgcolor == Some(Color::Green),
        r.bgcolor is None,
{
    s.green()
}

/// Relies on colored's `Colorize::normal` for `&str`: the text with colour and style cleared.
#[verifier::external_body]
fn paint_normal(s: &str) -> (r: ColoredString)
    ensures
        r == normal_of(s@),
        r.input@ == s@,
        r.fgcolor is None,
        r.bgcolor is None,
{
    s.normal()
}

/// Relies on colored's `Colorize::red` for `&str`: the text in red.
#[verifier::external_body]
fn paint_red(s: &str) -> (r: ColoredString)
    ensures
        r == red_of(s@),
        r.input@ == s@,
        r.fgcolor == Some(Color::Red),
        r.bgcolor is None,
{
    s.red()
}

/// Relies on colored's `Colorize::bold` for `ColoredString`: the same text and colour, in bold.
#[verifier::external_body]
fn make_bold(c: ColoredString) -> (r: ColoredString)
    ensures
        r == bold_of(c),
        r.input == c.input,
        r.fgcolor == c.fgcolor,
        r.bgcolor == c.bgcolor,
{
    c.bold()
}

/// The style for a status in a given output format.
pub fn style_for(status: &CrateDetectionStatus, output_format: OutputFormat) -> (r: TextStyle)
    ensures
        r == style_of(*status, output_format),
{
    match output_format {
        OutputFormat::GitHubMarkdown => TextStyle::Unstyled,
        _ => match status {
            CrateDetectionStatus::NoneDetectedForbidsUnsafe => TextStyle::Success,
            CrateDetectionStatus::NoneDetectedAllowsUnsafe => TextStyle::Neutral,
            CrateDetectionStatus::UnsafeDetected => TextStyle::Alert,
        },
    }
}

/// Gives `string` the style for a status in a given output format.
pub fn colorize(
    crate_detection_status: &CrateDetectionStatus,
    output_format: OutputFormat,
    string: String,
) -> (r: ColoredString)
    ensures
        r == styled(style_of(*crate_detection_status, output_format), string@),
        r.input@ == string@,
        r.fgcolor == foreground_of(style_of(*crate_detection_status, output_format)),
        r.bgcolor is None,
{
    match style_for(crate_detection_status, output_format) {
        TextStyle::Unstyled => paint_plain(string.as_str()),
        TextStyle::Success => paint_green(string.as_str()),
        TextStyle::Neutral => paint_normal(string.as_str()),
        TextStyle::Alert => make_bold(paint_red(string.as_str())),
    }
}

/// Markdown output is never styled, whatever the status.
pub proof fn lemma_markdown_unstyled(status: CrateDetectionStatus)
    ensures
        style_of(status, OutputFormat::GitHubMarkdown) == TextStyle::Unstyled,
{
}

/// Outside markdown, each status has its own style, and the output format
/// makes no difference to it.
pub proof fn lemma_style_by_status(status: CrateDetectionStatus, f: OutputFormat, g: OutputFormat)
    requires
        f != OutputFormat::GitHubMarkdown,
        g != OutputFormat::GitHubMarkdown,
    ensures
        style_of(status, f) == style_of(status, g),
        status == CrateDetectionStatus::NoneDetectedForbidsUnsafe ==> style_of(status, f)
            == TextStyle::Success,
        status == CrateDetectionStatus::NoneDetectedAllowsUnsafe ==> style_of(status, f)
            == TextStyle::Neutral,
        status == CrateDetectionStatus::UnsafeDetected ==> style_of(status, f) == TextStyle::Alert,
{
}

} // verus!
