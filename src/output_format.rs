use vstd::prelude::*;

verus! {

/// The encoding in which the report is emitted.
#[derive(Clone, Copy, Debug, PartialEq, Eq, Structural)]
pub enum OutputFormat {
    Ascii,
    Json,
    GitHubMarkdown,
    Ratio,
    Utf8,
}

/// A name that matches no output format.
#[derive(Clone, Copy, Debug, PartialEq, Eq, Structural)]
pub struct OutputFormatParseError;

/// The exact name under which each output format is written.
pub open spec fn format_name(f: OutputFormat) -> Seq<char> {
    match f {
        OutputFormat::Ascii => seq!['A', 's', 'c', 'i', 'i'],
        OutputFormat::Json => seq!['J', 's', 'o', 'n'],
        OutputFormat::GitHubMarkdown => seq![
            'G', 'i', 't', 'H', 'u', 'b', 'M', 'a', 'r', 'k', 'd', 'o', 'w', 'n',
        ],
        OutputFormat::Ratio => seq!['R', 'a', 't', 'i', 'o'],
        OutputFormat::Utf8 => seq!['U', 't', 'f', '8'],
    }
}

/// What parsing `s` yields: the format whose name is exactly `s`, else the error.
pub open spec fn parse_format(s: Seq<char>) -> Result<OutputFormat, OutputFormatParseError> {
    if s == format_name(OutputFormat::Ascii) {
        Ok(OutputFormat::Ascii)
    } else if s == format_name(OutputFormat::Json) {
        Ok(OutputFormat::Json)
    } else if s == format_name(OutputFormat::GitHubMarkdown) {
        Ok(OutputFormat::GitHubMarkdown)
    } else if s == format_name(OutputFormat::Ratio) {
        Ok(OutputFormat::Ratio)
    } else if s == format_name(OutputFormat::Utf8) {
        Ok(OutputFormat::Utf8)
    } else {
        Err(OutputFormatParseError)
    }
}

/// Whether two strings hold the same characters.
fn same_text(a: &str, b: &str) -> (r: bool)
    ensures
        r == (a@ == b@),
{
    let n = a.unicode_len();
    if n != b.unicode_len() {
        return false;
    }
    let mut i: usize = 0;
    while i < n
        invariant
            n == a@.len(),
            n == b@.len(),
            i <= n,
            a@.subrange(0, i as int) == b@.subrange(0, i as int),
        decreases n - i,
    {
        if a.get_char(i) != b.get_char(i) {
            assert(a@.subrange(0, i as int + 1)[i as int] != b@.subrange(0, i as int + 1)[i as int]);
            return false;
        }
        assert(a@.subrange(0, i as int + 1) =~= a@.subrange(0, i as int).push(a@[i as int]));
        assert(b@.subrange(0, i as int + 1) =~= b@.subrange(0, i as int).push(b@[i as int]));
        i = i + 1;
    }
    assert(a@ =~= a@.subrange(0, n as int));
    assert(b@ =~= b@.subrange(0, n as int));
    true
}

impl OutputFormat {
    /// Reads an output format from its exact, case-sensitive name.
    pub fn parse(s: &str) -> (r: Result<OutputFormat, OutputFormatParseError>)
        ensures
            r == parse_format(s@),
    {
        proof {
            reveal_strlit("Ascii");
            reveal_strlit("Json");
            reveal_strlit("GitHubMarkdown");
            reveal_strlit("Ratio");
            reveal_strlit("Utf8");
        }
        assert("Ascii"@ =~= format_name(OutputFormat::Ascii));
        assert("Json"@ =~= format_name(OutputFormat::Json));
        assert("GitHubMarkdown"@ =~= format_name(OutputFormat::GitHubMarkdown));
        assert("Ratio"@ =~= format_name(OutputFormat::Ratio));
        assert("Utf8"@ =~= format_name(OutputFormat::Utf8));
        if same_text(s, "Ascii") {
            Ok(OutputFormat::Ascii)
        } else if same_text(s, "Json") {
            Ok(OutputFormat::Json)
        } else if same_text(s, "GitHubMarkdown") {
            Ok(OutputFormat::GitHubMarkdown)
        } else if same_text(s, "Ratio") {
            Ok(OutputFormat::Ratio)
        } else if same_text(s, "Utf8") {
            Ok(OutputFormat::Utf8)
        } else {
            Err(OutputFormatParseError)
        }
    }
}

impl Default for OutputFormat {
    fn default() -> (r: OutputFormat)
        ensures
            r == OutputFormat::Utf8,
    {
        OutputFormat::Utf8
    }
}

impl std::str::FromStr for OutputFormat {
    type Err = OutputFormatParseError;

    /// Reads an output format from its exact, case-sensitive name.
    fn from_str(s: &str) -> (r: Result<OutputFormat, OutputFormatParseError>)
        ensures
            r == parse_format(s@),
    {
        OutputFormat::parse(s)
    }
}

impl OutputFormatParseError {
    /// The fixed text that describes this error.
    pub fn message(&self) -> (r: String)
        ensures
            r@ == seq![
                'm', 'a', 't', 'c', 'h', 'i', 'n', 'g', ' ', 'o', 'u', 't', 'p', 'u', 't', ' ',
                'f', 'o', 'r', 'm', 'a', 't', ' ', 'n', 'o', 't', ' ', 'f', 'o', 'u', 'n', 'd',
            ],
    {
        proof {
            reveal_strlit("matching output format not found");
        }
        let r = String::from_str("matching output format not found");
        assert(r@ =~= seq![
            'm', 'a', 't', 'c', 'h', 'i', 'n', 'g', ' ', 'o', 'u', 't', 'p', 'u', 't', ' ',
            'f', 'o', 'r', 'm', 'a', 't', ' ', 'n', 'o', 't', ' ', 'f', 'o', 'u', 'n', 'd',
        ]);
        r
    }
}

/// Every format's own name parses back to that format, and a string parses to
/// a format only when it is exactly that format's name.
pub proof fn lemma_parse_exact(f: OutputFormat, s: Seq<char>)
    ensures
        parse_format(format_name(f)) == Ok::<OutputFormat, OutputFormatParseError>(f),
        parse_format(s) == Ok::<OutputFormat, OutputFormatParseError>(f) <==> s == format_name(f),
{
    let a = format_name(OutputFormat::Ascii);
    let j = format_name(OutputFormat::Json);
    let g = format_name(OutputFormat::GitHubMarkdown);
    let ra = format_name(OutputFormat::Ratio);
    let u = format_name(OutputFormat::Utf8);
    assert(a.len() == 5 && j.len() == 4 && g.len() == 14 && ra.len() == 5 && u.len() == 4);
    assert(a[0] != ra[0]);
    assert(j[0] != u[0]);
}

} // verus!
