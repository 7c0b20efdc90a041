use crate::output_format::OutputFormat;
use crate::pattern::{Chunk, ChunkView, Pattern, PatternError, PatternErrorView, compile};
use geiger::IncludeTests;
use petgraph::Direction;
use vstd::prelude::*;

verus! {

/// petgraph's edge direction, whose variants the configuration picks.
#[verifier::external_type_specification]
pub struct ExDirection(petgraph::Direction);

/// geiger's policy on scanning test code, whose variants the configuration picks.
#[verifier::external_type_specification]
pub struct ExIncludeTests(geiger::IncludeTests);

/// How each line of the tree is prefixed.
#[derive(Clone, Copy, Debug, PartialEq, Eq, Structural)]
pub enum Prefix {
    Depth,
    Indent,
    /// No prefix at all.
    Plain,
}

/// The flags from which a configuration is resolved.
#[derive(Clone, Debug, PartialEq, Eq)]
pub struct Args {
    /// Don't truncate dependencies that have already been displayed.
    pub all: bool,
    /// Walk the graph along reverse dependency edges.
    pub invert: bool,
    /// The node template.
    pub format: String,
    /// Scan test code too.
    pub include_tests: bool,
    /// Prefix each line with its depth.
    pub prefix_depth: bool,
    /// Print the tree without indentation.
    pub no_indent: bool,
    pub output_format: OutputFormat,
}

impl Default for Args {
    fn default() -> (r: Args)
        ensures
            !r.all,
            !r.invert,
            r.format@ == Seq::<char>::empty(),
            !r.include_tests,
            !r.prefix_depth,
            !r.no_indent,
            r.output_format == OutputFormat::Utf8,
    {
        Args {
            all: false,
            invert: false,
            format: String::new(),
            include_tests: false,
            prefix_depth: false,
            no_indent: false,
            output_format: OutputFormat::Utf8,
        }
    }
}

/// The rendering configuration, fixed for one run.
#[derive(Debug, PartialEq, Eq)]
pub struct PrintConfig {
    /// Don't truncate dependencies that have already been displayed.
    pub all: bool,
    pub allow_partial_results: bool,
    pub direction: Direction,
    pub format: Pattern,
    pub include_tests: IncludeTests,
    pub prefix: Prefix,
    pub output_format: OutputFormat,
}

/// A configuration that could not be resolved, with the exit code to report.
#[derive(Clone, Debug, PartialEq, Eq)]
pub struct ConfigError {
    pub error: PatternError,
    pub exit_code: i32,
}

/// The traversal direction that the invert flag selects.
pub open spec fn direction_for(invert: bool) -> Direction {
    if invert {
        Direction::Incoming
    } else {
        Direction::Outgoing
    }
}

/// The test-code policy that the include-tests flag selects.
pub open spec fn include_tests_for(include_tests: bool) -> IncludeTests {
    if include_tests {
        IncludeTests::Yes
    } else {
        IncludeTests::No
    }
}

/// The line prefix: depth wins over no-indent, which wins over indentation.
pub open spec fn prefix_for(prefix_depth: bool, no_indent: bool) -> Prefix {
    if prefix_depth {
        Prefix::Depth
    } else if no_indent {
        Prefix::Plain
    } else {
        Prefix::Indent
    }
}

impl PrintConfig {
    /// Resolves the flags into a configuration; fails only when the template
    /// does not compile.
    pub fn new(args: &Args) -> (r: Result<PrintConfig, ConfigError>)
        ensures
            compile(args.format@) is Ok <==> r is Ok,
            r is Ok ==> ({
                let c = r->Ok_0;
                &&& c.all == args.all
                &&& c.allow_partial_results
                &&& c.direction == direction_for(args.invert)
                &&& Ok::<Seq<ChunkView>, PatternErrorView>(c.format@) == compile(args.format@)
                &&& c.include_tests == include_tests_for(args.include_tests)
                &&& c.prefix == prefix_for(args.prefix_depth, args.no_indent)
                &&& c.output_format == args.output_format
            }),
            r is Err ==> ({
                let e = r->Err_0;
                &&& Err::<Seq<ChunkView>, PatternErrorView>(e.error@) == compile(args.format@)
                &&& e.exit_code == 1
            }),
    {
        let allow_partial_results = true;
        let direction = match args.invert {
            true => Direction::Incoming,
            false => Direction::Outgoing,
        };
        let format = match Pattern::try_build(args.format.as_str()) {
            Ok(p) => p,
            Err(e) => {
                return Err(ConfigError { error: e, exit_code: 1 });
            },
        };
        let include_tests = match args.include_tests {
            true => IncludeTests::Yes,
            false => IncludeTests::No,
        };
        // Depth wins regardless of no-indent.
        let prefix = match (args.prefix_depth, args.no_indent) {
            (true, _) => Prefix::Depth,
            (false, true) => Prefix::Plain,
            (false, false) => Prefix::Indent,
        };
        Ok(PrintConfig {
            all: args.all,
            allow_partial_results,
            direction,
            format,
            include_tests,
            prefix,
            output_format: args.output_format,
        })
    }
}

impl Default for PrintConfig {
    /// The configuration used where no flags were given. Unlike `new`, it does
    /// not allow partial results.
    fn default() -> (r: PrintConfig)
        ensures
            !r.all,
            !r.allow_partial_results,
            r.direction == Direction::Outgoing,
            r.format@ == seq![ChunkView::Raw(seq!['p'])],
            r.include_tests == IncludeTests::Yes,
            r.prefix == Prefix::Depth,
            r.output_format == OutputFormat::Utf8,
    {
        proof {
            reveal_strlit("p");
        }
        assert("p"@ =~= seq!['p']);
        let text = String::from_str("p");
        let mut chunks: Vec<Chunk> = Vec::new();
        chunks.push(Chunk::Raw(text));
        let format = Pattern::new(chunks);
        assert(format.chunks@[0]@ == ChunkView::Raw(seq!['p']));
        assert(format@ =~= seq![ChunkView::Raw(seq!['p'])]);
        PrintConfig {
            all: false,
            allow_partial_results: false,
            direction: Direction::Outgoing,
            format,
            include_tests: IncludeTests::Yes,
            prefix: Prefix::Depth,
            output_format: OutputFormat::default(),
        }
    }
}

} // verus!
