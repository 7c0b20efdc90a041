use vstd::prelude::*;

verus! {

/// One unit of a compiled node template.
#[derive(Clone, Debug, PartialEq, Eq)]
pub enum Chunk {
    /// Text written as it stands.
    Raw(String),
    /// The package identifier.
    Package,
    /// The package license.
    License,
    /// The package repository URL.
    Repository,
}

/// The mathematical value of a `Chunk`.
pub enum ChunkView {
    Raw(Seq<char>),
    Package,
    License,
    Repository,
}

impl View for Chunk {
    type V = ChunkView;

    open spec fn view(&self) -> ChunkView {
        match self {
            Chunk::Raw(s) => ChunkView::Raw(s@),
            Chunk::Package => ChunkView::Package,
            Chunk::License => ChunkView::License,
            Chunk::Repository => ChunkView::Repository,
        }
    }
}

/// A compiled node template: its chunks, rendered left to right.
#[derive(Clone, Debug, PartialEq, Eq)]
pub struct Pattern {
    pub chunks: Vec<Chunk>,
}

impl View for Pattern {
    type V = Seq<ChunkView>;

    open spec fn view(&self) -> Seq<ChunkView> {
        self.chunks@.map_values(|c: Chunk| c@)
    }
}

/// Why a template does not compile.
#[derive(Clone, Debug, PartialEq, Eq)]
pub enum PatternError {
    /// A `{...}` placeholder whose name is none of `p`, `l`, `r`; holds the name.
    UnsupportedPlaceholder(String),
    /// A `{` that no `}` closes.
    UnclosedPlaceholder,
    /// A `}` that opens no escape and closes no placeholder.
    UnexpectedClose,
}

/// The mathematical value of a `PatternError`.
pub enum PatternErrorView {
    UnsupportedPlaceholder(Seq<char>),
    UnclosedPlaceholder,
    UnexpectedClose,
}

impl View for PatternError {
    type V = PatternErrorView;

    open spec fn view(&self) -> PatternErrorView {
        match self {
            PatternError::UnsupportedPlaceholder(s) => PatternErrorView::UnsupportedPlaceholder(s@),
            PatternError::UnclosedPlaceholder => PatternErrorView::UnclosedPlaceholder,
            PatternError::UnexpectedClose => PatternErrorView::UnexpectedClose,
        }
    }
}

/// The text that describes a template error; an unsupported placeholder is named in it.
pub open spec fn error_text(e: PatternErrorView) -> Seq<char> {
    match e {
        PatternErrorView::UnsupportedPlaceholder(name) => seq![
            'u', 'n', 's', 'u', 'p', 'p', 'o', 'r', 't', 'e', 'd', ' ', 'p', 'a', 't', 't', 'e',
            'r', 'n', ' ', '`',
        ] + name + seq!['`'],
        PatternErrorView::UnclosedPlaceholder => seq![
            'e', 'x', 'p', 'e', 'c', 't', 'e', 'd', ' ', '\'', '}', '\'',
        ],
        PatternErrorView::UnexpectedClose => seq![
            'u', 'n', 'e', 'x', 'p', 'e', 'c', 't', 'e', 'd', ' ', '\'', '}', '\'',
        ],
    }
}

impl PatternError {
    /// A human-readable description of the error.
    pub fn message(&self) -> (r: String)
        ensures
            r@ == error_text(self@),
    {
        match self {
            PatternError::UnsupportedPlaceholder(name) => {
                proof {
                    reveal_strlit("unsupported pattern `");
                    reveal_strlit("`");
                }
                let mut r = String::from_str("unsupported pattern `");
                r.append(name.as_str());
                r.append("`");
                assert(r@ =~= error_text(self@));
                r
            },
            PatternError::UnclosedPlaceholder => {
                proof {
                    reveal_strlit("expected '}'");
                }
                let r = String::from_str("expected '}'");
                assert(r@ =~= error_text(self@));
                r
            },
            PatternError::UnexpectedClose => {
                proof {
                    reveal_strlit("unexpected '}'");
                }
                let r = String::from_str("unexpected '}'");
                assert(r@ =~= error_text(self@));
                r
            },
        }
    }
}

/// The placeholder that a name inside braces stands for, if any.
pub open spec fn placeholder_of(name: Seq<char>) -> Option<ChunkView> {
    if name == seq!['p'] {
        Some(ChunkView::Package)
    } else if name == seq!['l'] {
        Some(ChunkView::License)
    } else if name == seq!['r'] {
        Some(ChunkView::Repository)
    } else {
        None
    }
}

/// The index of the first `}` at or after `i`, or the length of `s` if there is none.
pub open spec fn close_index(s: Seq<char>, i: int) -> int
    decreases s.len() - i,
{
    if i < 0 || i >= s.len() {
        s.len() as int
    } else if s[i] == '}' {
        i
    } else {
        close_index(s, i + 1)
    }
}

/// `close_index` finds the first `}` at or after `i`, within bounds.
pub proof fn lemma_close_index(s: Seq<char>, i: int)
    requires
        0 <= i <= s.len(),
    ensures
        i <= close_index(s, i) <= s.len(),
        close_index(s, i) < s.len() ==> s[close_index(s, i)] == '}',
        forall|k: int| i <= k < close_index(s, i) ==> s[k] != '}',
    decreases s.len() - i,
{
    if i < s.len() && s[i] != '}' {
        lemma_close_index(s, i + 1);
    }
}

/// Puts the text `t` in front of `cs`, merged into the first chunk when that is text too.
pub open spec fn prepend_text(t: Seq<char>, cs: Seq<ChunkView>) -> Seq<ChunkView> {
    if t.len() == 0 {
        cs
    } else if cs.len() > 0 && cs[0] is Raw {
        seq![ChunkView::Raw(t + cs[0]->Raw_0)] + cs.drop_first()
    } else {
        seq![ChunkView::Raw(t)] + cs
    }
}

/// The result of compiling `rest` with the text `t` written before it.
pub open spec fn text_then(
    t: Seq<char>,
    rest: Result<Seq<ChunkView>, PatternErrorView>,
) -> Result<Seq<ChunkView>, PatternErrorView> {
    match rest {
        Ok(cs) => Ok(prepend_text(t, cs)),
        Err(e) => Err(e),
    }
}

/// Compiles the template `s` from index `i` on.
///
/// `{{` and `}}` stand for the characters `{` and `}`; `{p}`, `{l}` and `{r}` are
/// the placeholders; any other `{name}` is an error naming it, as are an unclosed
/// `{` and a lone `}`. Every other character is text, and adjacent text forms one chunk.
pub open spec fn compile_from(s: Seq<char>, i: int) -> Result<Seq<ChunkView>, PatternErrorView>
    decreases s.len() - i,
    via compile_from_decreases
{
    if i < 0 || i >= s.len() {
        Ok(seq![])
    } else if s[i] == '{' {
        if i + 1 < s.len() && s[i + 1] == '{' {
            text_then(seq!['{'], compile_from(s, i + 2))
        } else {
            let j = close_index(s, i + 1);
            if j >= s.len() {
                Err(PatternErrorView::UnclosedPlaceholder)
            } else {
                match placeholder_of(s.subrange(i + 1, j)) {
                    Some(c) => match compile_from(s, j + 1) {
                        Ok(cs) => Ok(seq![c] + cs),
                        Err(e) => Err(e),
                    },
                    None => Err(PatternErrorView::UnsupportedPlaceholder(s.subrange(i + 1, j))),
                }
            }
        }
    } else if s[i] == '}' {
        if i + 1 < s.len() && s[i + 1] == '}' {
            text_then(seq!['}'], compile_from(s, i + 2))
        } else {
            Err(PatternErrorView::UnexpectedClose)
        }
    } else {
        text_then(seq![s[i]], compile_from(s, i + 1))
    }
}

#[via_fn]
proof fn compile_from_decreases(s: Seq<char>, i: int) {
    if 0 <= i < s.len() && s[i] == '{' && !(i + 1 < s.len() && s[i + 1] == '{') {
        lemma_close_index(s, i + 1);
    }
}

/// What compiling the whole template `s` yields.
pub open spec fn compile(s: Seq<char>) -> Result<Seq<ChunkView>, PatternErrorView> {
    compile_from(s, 0)
}

/// Text chunks are never empty and never stand next to each other.
pub open spec fn text_merged(cs: Seq<ChunkView>) -> bool {
    forall|k: int|
        0 <= k < cs.len() && #[trigger] cs[k] is Raw ==> cs[k]->Raw_0.len() > 0 && (k + 1
            < cs.len() ==> !(cs[k + 1] is Raw))
}

/// Whether `r` is what building a pattern from the template `format` may return.
pub open spec fn built_from(format: Seq<char>, r: Result<Pattern, PatternError>) -> bool {
    match r {
        Ok(p) => compile(format) == Ok::<Seq<ChunkView>, PatternErrorView>(p@),
        Err(e) => compile(format) == Err::<Seq<ChunkView>, PatternErrorView>(e@),
    }
}

/// Putting text in front keeps text chunks merged.
proof fn lemma_prepend_text_merged(t: Seq<char>, cs: Seq<ChunkView>)
    requires
        text_merged(cs),
    ensures
        text_merged(prepend_text(t, cs)),
{
    let r = prepend_text(t, cs);
    if t.len() > 0 {
        if cs.len() > 0 && cs[0] is Raw {
            assert forall|k: int| 0 <= k < r.len() && #[trigger] r[k] is Raw implies r[k]->Raw_0.len()
                > 0 && (k + 1 < r.len() ==> !(r[k + 1] is Raw)) by {
                if k > 0 {
                    assert(r[k] == cs[k]);
                }
                if k + 1 < r.len() {
                    assert(r[k + 1] == cs[k + 1]);
                    assert(cs[k] is Raw);
                }
            }
        } else {
            assert forall|k: int| 0 <= k < r.len() && #[trigger] r[k] is Raw implies r[k]->Raw_0.len()
                > 0 && (k + 1 < r.len() ==> !(r[k + 1] is Raw)) by {
                if k > 0 {
                    assert(r[k] == cs[k - 1]);
                }
                if k + 1 < r.len() {
                    assert(r[k + 1] == cs[k]);
                }
            }
        }
    }
}

/// Whatever a template compiles to keeps adjacent text in one chunk.
pub proof fn lemma_compile_merged(s: Seq<char>, i: int)
    requires
        compile_from(s, i) is Ok,
    ensures
        text_merged(compile_from(s, i)->Ok_0),
    decreases s.len() - i,
{
    if 0 <= i < s.len() {
        if s[i] == '{' {
            if i + 1 < s.len() && s[i + 1] == '{' {
                lemma_compile_merged(s, i + 2);
                lemma_prepend_text_merged(seq!['{'], compile_from(s, i + 2)->Ok_0);
            } else {
                lemma_close_index(s, i + 1);
                let j = close_index(s, i + 1);
                lemma_compile_merged(s, j + 1);
                let cs = compile_from(s, j + 1)->Ok_0;
                let c = placeholder_of(s.subrange(i + 1, j))->Some_0;
                let r = seq![c] + cs;
                assert forall|k: int| 0 <= k < r.len() && #[trigger] r[k] is Raw implies r[k]->Raw_0.len()
                    > 0 && (k + 1 < r.len() ==> !(r[k + 1] is Raw)) by {
                    assert(r[k] == cs[k - 1]);
                    if k + 1 < r.len() {
                        assert(r[k + 1] == cs[k]);
                    }
                }
            }
        } else if s[i] == '}' {
            lemma_compile_merged(s, i + 2);
            lemma_prepend_text_merged(seq!['}'], compile_from(s, i + 2)->Ok_0);
        } else {
            lemma_compile_merged(s, i + 1);
            lemma_prepend_text_merged(seq![s[i]], compile_from(s, i + 1)->Ok_0);
        }
    }
}

/// Compiling is idempotent: building one template twice gives the same outcome,
/// with equal chunks on success and equal errors on failure.
pub proof fn lemma_build_idempotent(
    format: Seq<char>,
    first: Result<Pattern, PatternError>,
    second: Result<Pattern, PatternError>,
)
    requires
        built_from(format, first),
        built_from(format, second),
    ensures
        first is Ok <==> second is Ok,
        first is Ok ==> first->Ok_0@ == second->Ok_0@,
        first is Err ==> first->Err_0@ == second->Err_0@,
{
}

/// The result of compiling `rest` after the chunks `done` and the pending text `t`.
pub open spec fn resume(
    done: Seq<ChunkView>,
    t: Seq<char>,
    rest: Result<Seq<ChunkView>, PatternErrorView>,
) -> Result<Seq<ChunkView>, PatternErrorView> {
    match rest {
        Ok(cs) => Ok(done + prepend_text(t, cs)),
        Err(e) => Err(e),
    }
}

/// Reading more text only extends the pending text.
proof fn lemma_resume_text(
    done: Seq<ChunkView>,
    t: Seq<char>,
    c: Seq<char>,
    rest: Result<Seq<ChunkView>, PatternErrorView>,
)
    requires
        c.len() > 0,
    ensures
        resume(done, t, text_then(c, rest)) == resume(done, t + c, rest),
{
    if let Ok(cs) = rest {
        if t.len() == 0 {
            assert(t + c =~= c);
        } else if cs.len() > 0 && cs[0] is Raw {
            let u = cs[0]->Raw_0;
            assert(t + (c + u) =~= (t + c) + u);
            assert((seq![ChunkView::Raw(c + u)] + cs.drop_first()).drop_first() =~= cs.drop_first());
        } else {
            assert((seq![ChunkView::Raw(c)] + cs).drop_first() =~= cs);
        }
    }
}

/// A placeholder turns the pending text into a chunk of its own and follows it.
proof fn lemma_resume_placeholder(done: Seq<ChunkView>, t: Seq<char>, c: ChunkView, cs: Seq<ChunkView>)
    requires
        !(c is Raw),
    ensures
        resume(done, t, Ok(seq![c] + cs)) == resume(
            done + prepend_text(t, seq![c]),
            seq![],
            Ok(cs),
        ),
{
    if t.len() == 0 {
        assert(done + (seq![c] + cs) =~= (done + seq![c]) + cs);
    } else {
        assert(done + (seq![ChunkView::Raw(t)] + (seq![c] + cs)) =~= (done + (seq![ChunkView::Raw(t)] + seq![c])) + cs);
    }
    assert(prepend_text(seq![], cs) == cs);
}

impl Pattern {
    /// A pattern made of the given chunks.
    pub fn new(chunks: Vec<Chunk>) -> (r: Pattern)
        ensures
            r.chunks@ == chunks@,
    {
        Pattern { chunks }
    }

    /// Compiles a node template into its chunks.
    pub fn try_build(format: &str) -> (r: Result<Pattern, PatternError>)
        ensures
            built_from(format@, r),
            r is Ok ==> text_merged(r->Ok_0@),
    {
        proof {
            if compile(format@) is Ok {
                lemma_compile_merged(format@, 0);
            }
        }
        let n = format.unicode_len();
        let ghost s = format@;
        let mut chunks: Vec<Chunk> = Vec::new();
        // Text read since the last placeholder, not yet a chunk.
        let mut text = String::new();
        let mut i: usize = 0;
        while i < n
            invariant
                s == format@,
                n == s.len(),
                i <= n,
                compile(s) == resume(
                    chunks@.map_values(|c: Chunk| c@),
                    text@,
                    compile_from(s, i as int),
                ),
            decreases n - i,
        {
            let ghost done = chunks@.map_values(|c: Chunk| c@);
            let c = format.get_char(i);
            if c == '{' && i + 1 < n && format.get_char(i + 1) == '{' {
                proof {
                    lemma_resume_text(done, text@, seq!['{'], compile_from(s, i + 2));
                    reveal_strlit("{");
                    assert("{"@ =~= seq!['{']);
                }
                text.append("{");
                i = i + 2;
            } else if c == '{' {
                let mut j: usize = i + 1;
                while j < n && format.get_char(j) != '}'
                    invariant
                        s == format@,
                        n == s.len(),
                        i < j <= n,
                        close_index(s, i + 1) == close_index(s, j as int),
                    decreases n - j,
                {
                    j = j + 1;
                }
                if j >= n {
                    return Err(PatternError::UnclosedPlaceholder);
                }
                let name = format.substring_char(i + 1, j);
                let ghost name_v = s.subrange(i + 1, j as int);
                let one = name.unicode_len() == 1;
                let chunk = if one && name.get_char(0) == 'p' {
                    assert(name_v =~= seq!['p']);
                    Chunk::Package
                } else if one && name.get_char(0) == 'l' {
                    assert(name_v =~= seq!['l']);
                    Chunk::License
                } else if one && name.get_char(0) == 'r' {
                    assert(name_v =~= seq!['r']);
                    Chunk::Repository
                } else {
                    assert(seq!['p'][0] == 'p' && seq!['l'][0] == 'l' && seq!['r'][0] == 'r');
                    return Err(PatternError::UnsupportedPlaceholder(name.to_owned()));
                };
                proof {
                    lemma_close_index(s, i + 1);
                    if let Ok(cs) = compile_from(s, j + 1) {
                        lemma_resume_placeholder(done, text@, chunk@, cs);
                    }
                }
                let ghost pending = text@;
                if text.as_str().unicode_len() > 0 {
                    chunks.push(Chunk::Raw(text));
                    text = String::new();
                }
                chunks.push(chunk);
                i = j + 1;
                assert(chunks@.map_values(|c: Chunk| c@) =~= done + prepend_text(
                    pending,
                    seq![chunk@],
                ));
            } else if c == '}' && i + 1 < n && format.get_char(i + 1) == '}' {
                proof {
                    lemma_resume_text(done, text@, seq!['}'], compile_from(s, i + 2));
                    reveal_strlit("}");
                    assert("}"@ =~= seq!['}']);
                }
                text.append("}");
                i = i + 2;
            } else if c == '}' {
                return Err(PatternError::UnexpectedClose);
            } else {
                proof {
                    lemma_resume_text(done, text@, seq![c], compile_from(s, i + 1));
                }
                let single = format.substring_char(i, i + 1);
                assert(single@ =~= seq![c]);
                text.append(single);
                i = i + 1;
            }
        }
        let ghost done = chunks@.map_values(|c: Chunk| c@);
        let ghost pending = text@;
        if text.as_str().unicode_len() > 0 {
            chunks.push(Chunk::Raw(text));
        }
        assert(chunks@.map_values(|c: Chunk| c@) =~= done + prepend_text(pending, seq![]));
        Ok(Pattern { chunks })
    }
}

} // verus!
