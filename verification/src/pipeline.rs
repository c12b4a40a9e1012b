//! The pipeline: intent parsing, entry-point resolution and dependency
//! traversal, and the plan that one-shot generation follows.
use vstd::prelude::*;

verus! {

/// The user's intent for a query.
#[derive(Clone, Debug)]
pub enum Intent {
    /// Direct symbol resolution
    Symbol { file: String, symbol: String },
    /// Natural language search
    Search { query: String, depth: usize },
}

/// A position in a text document: zero-based line and character offset.
#[derive(Clone, Copy, Debug, PartialEq, Eq, Structural)]
pub struct Position {
    pub line: u32,
    pub character: u32,
}

impl Position {
    /// The position at `line` and `character`.
    pub fn new(line: u32, character: u32) -> (p: Position)
        ensures
            p.line == line,
            p.character == character,
    {
        Position { line, character }
    }
}

/// Entry point for the traversal.
#[derive(Clone, Debug)]
pub struct EntryPoint {
    pub file: String,
    pub position: Position,
}

/// A node in the dependency graph.
#[derive(Clone, Debug)]
pub struct DependencyNode {
    pub symbol: String,
    /// The URI of the document that holds the symbol, as text
    pub location: String,
    pub content: String,
    /// The URIs of the documents that refer to the symbol, as text
    pub references: Vec<String>,
}

/// Graph traversal result containing dependency information.
#[derive(Clone, Debug)]
pub struct DependencyGraph {
    pub nodes: Vec<DependencyNode>,
    pub depth: usize,
}

/// Why an intent could not be parsed.
#[derive(Clone, Copy, Debug, PartialEq, Eq, Structural)]
pub enum PipelineError {
    /// Neither a file and a symbol nor a search query was given
    MissingTarget,
}

/// The message of a pipeline error.
pub open spec fn pipeline_error_message(e: PipelineError) -> Seq<char> {
    match e {
        PipelineError::MissingTarget => "Must provide either --file and --symbol, or --search"@,
    }
}

impl PipelineError {
    /// The message that describes the error.
    pub fn message(&self) -> (m: String)
        ensures
            m@ == pipeline_error_message(*self),
    {
        match self {
            PipelineError::MissingTarget => "Must provide either --file and --symbol, or --search".to_owned(),
        }
    }
}

/// The search depth used when a search gives none.
pub open spec fn spec_default_search_depth() -> usize {
    2
}

/// The traversal depth of a symbol resolution that gives none.
pub open spec fn spec_default_symbol_depth() -> usize {
    3
}

/// The file where a search starts.
pub open spec fn search_entry_file() -> Seq<char> {
    "src/main.rs"@
}

/// The file where the traversal for `intent` starts.
pub open spec fn entry_file(intent: Intent) -> Seq<char> {
    match intent {
        Intent::Symbol { file, .. } => file@,
        Intent::Search { .. } => search_entry_file(),
    }
}

/// The intent that `parse_intent` gives for its arguments.
pub open spec fn parsed_intent(
    file: Option<String>,
    symbol: Option<String>,
    search: Option<String>,
    depth: Option<usize>,
) -> Result<Intent, PipelineError> {
    if file is Some && symbol is Some {
        Ok(Intent::Symbol { file: file->0, symbol: symbol->0 })
    } else if search is Some {
        Ok(
            Intent::Search {
                query: search->0,
                depth: match depth {
                    Some(d) => d,
                    None => spec_default_search_depth(),
                },
            },
        )
    } else {
        Err(PipelineError::MissingTarget)
    }
}

/// The traversal depth that one-shot generation uses for `intent` when the
/// command line gave `depth`.
pub open spec fn generation_depth(intent: Intent, depth: Option<usize>) -> usize {
    match intent {
        Intent::Search { depth: d, .. } => d,
        _ => match depth {
            Some(d) => d,
            None => spec_default_symbol_depth(),
        },
    }
}

/// The text of the intent that heads the assembled context when none is given.
pub open spec fn default_intent_text() -> Seq<char> {
    "Context retrieval"@
}

/// What one-shot generation will do: the parsed intent, the traversal
/// depth and the intent text that heads the output.
#[derive(Clone, Debug)]
pub struct GenerationPlan {
    pub intent: Intent,
    pub max_depth: usize,
    pub intent_text: String,
}

/// Whether `r` is the plan for the parsed intent `parsed`, the command-line
/// depth `depth` and the intent text `intent_text`.
pub open spec fn planned(
    r: Result<GenerationPlan, PipelineError>,
    parsed: Result<Intent, PipelineError>,
    depth: Option<usize>,
    intent_text: Option<String>,
) -> bool {
    match parsed {
        Ok(i) => {
            &&& r is Ok
            &&& r->Ok_0.intent == i
            &&& r->Ok_0.max_depth == generation_depth(i, depth)
            &&& r->Ok_0.intent_text@ == match intent_text {
                Some(t) => t@,
                None => default_intent_text(),
            }
        },
        Err(e) => r == Err::<GenerationPlan, PipelineError>(e),
    }
}

/// Pipeline orchestrator.
pub struct Pipeline {
    max_depth: usize,
}

impl Pipeline {
    /// The maximum traversal depth of the pipeline.
    pub closed spec fn spec_max_depth(&self) -> usize {
        self.max_depth
    }

    /// Create a new pipeline with a maximum traversal depth.
    pub fn new(max_depth: usize) -> (p: Pipeline)
        ensures
            p.spec_max_depth() == max_depth,
    {
        Pipeline { max_depth }
    }

    /// The maximum traversal depth of the pipeline.
    pub fn max_depth(&self) -> (d: usize)
        ensures
            d == self.spec_max_depth(),
    {
        self.max_depth
    }

    /// Parse the user's intent from command-line arguments: a file and a
    /// symbol make a symbol resolution; otherwise a search query makes a
    /// search, of depth 2 unless one is given.
    pub fn parse_intent(
        file: Option<String>,
        symbol: Option<String>,
        search: Option<String>,
        depth: Option<usize>,
    ) -> (r: Result<Intent, PipelineError>)
        ensures
            r == parsed_intent(file, symbol, search, depth),
            (file is Some && symbol is Some) ==> (r is Ok && r->Ok_0 is Symbol && r->Ok_0->file
                == file->0 && r->Ok_0->symbol == symbol->0),
            (!(file is Some && symbol is Some) && search is Some) ==> (r is Ok && r->Ok_0 is Search
                && r->Ok_0->query == search->0 && r->Ok_0->depth == (if depth is Some {
                depth->0
            } else {
                2
            })),
            (r is Err) <==> (search is None && !(file is Some && symbol is Some)),
            (r is Err) ==> (r->Err_0 == PipelineError::MissingTarget),
    {
        match (file, symbol) {
            (Some(file), Some(symbol)) => Ok(Intent::Symbol { file, symbol }),
            _ => match search {
                Some(query) => Ok(
                    Intent::Search {
                        query,
                        depth: match depth {
                            Some(d) => d,
                            None => 2,
                        },
                    },
                ),
                None => Err(PipelineError::MissingTarget),
            },
        }
    }

    /// Resolve the entry point of the traversal from the intent: the start
    /// of the named file for a symbol, the start of `src/main.rs` for a search.
    pub fn resolve_entry_point(&self, intent: &Intent) -> (e: EntryPoint)
        ensures
            e.position == (Position { line: 0, character: 0 }),
            e.file@ == entry_file(*intent),
    {
        match intent {
            Intent::Symbol { file, .. } => EntryPoint {
                file: file.clone(),
                position: Position::new(0, 0),
            },
            Intent::Search { .. } => EntryPoint {
                file: "src/main.rs".to_owned(),
                position: Position::new(0, 0),
            },
        }
    }

    /// Traverse the dependency graph from an entry point; no traversal is
    /// made yet, so the graph is empty and of depth 0.
    pub fn traverse_dependencies(&self, entry: &EntryPoint) -> (g: DependencyGraph)
        ensures
            g.nodes@.len() == 0,
            g.depth == 0,
    {
        DependencyGraph { nodes: Vec::new(), depth: 0 }
    }
}

/// Plan one-shot generation from the command line: parse the intent, take
/// the search depth or else the given depth (3 when none is given) as the
/// traversal depth, and the given intent text or else "Context retrieval".
pub fn plan_generation(
    file: Option<String>,
    symbol: Option<String>,
    search: Option<String>,
    depth: Option<usize>,
    intent_text: Option<String>,
) -> (r: Result<GenerationPlan, PipelineError>)
    ensures
        planned(r, parsed_intent(file, symbol, search, depth), depth, intent_text),
        (r is Ok) <==> (parsed_intent(file, symbol, search, depth) is Ok),
        (r is Ok && intent_text is Some) ==> (r->Ok_0.intent_text@ == intent_text->0@),
        (r is Ok && intent_text is None) ==> (r->Ok_0.intent_text@ == "Context retrieval"@),
        (r is Ok) ==> (r->Ok_0.intent == parsed_intent(file, symbol, search, depth)->Ok_0),
        (r is Ok && r->Ok_0.intent is Search) ==> (r->Ok_0.max_depth == r->Ok_0.intent->depth),
        (r is Ok && r->Ok_0.intent is Symbol) ==> (r->Ok_0.max_depth == (if depth is Some {
            depth->0
        } else {
            3
        })),
        (r is Err) ==> (r->Err_0 == parsed_intent(file, symbol, search, depth)->Err_0),
{
    let intent = match Pipeline::parse_intent(file, symbol, search, depth) {
        Ok(i) => i,
        Err(e) => {
            return Err(e);
        },
    };
    let max_depth = match &intent {
        Intent::Search { depth: d, .. } => *d,
        _ => match depth {
            Some(d) => d,
            None => 3,
        },
    };
    let text = match intent_text {
        Some(t) => t,
        None => "Context retrieval".to_owned(),
    };
    Ok(GenerationPlan { intent, max_depth, intent_text: text })
}

/// What `parse_intent` gives, stated case by case: a file and a symbol
/// make a symbol resolution of them; otherwise a search query makes a
/// search of it, of the given depth or else 2; an error comes exactly when
/// there is neither a file with a symbol nor a search query.
pub proof fn law_parse_intent_cases(
    file: Option<String>,
    symbol: Option<String>,
    search: Option<String>,
    depth: Option<usize>,
)
    ensures
        (file is Some && symbol is Some) ==> (parsed_intent(file, symbol, search, depth)
            == Ok::<Intent, PipelineError>(Intent::Symbol { file: file->0, symbol: symbol->0 })),
        (!(file is Some && symbol is Some) && search is Some) ==> (parsed_intent(
            file,
            symbol,
            search,
            depth,
        ) == Ok::<Intent, PipelineError>(
            Intent::Search {
                query: search->0,
                depth: if depth is Some {
                    depth->0
                } else {
                    2
                },
            },
        )),
        (parsed_intent(file, symbol, search, depth) is Err) <==> (search is None && !(file is Some
            && symbol is Some)),
        (parsed_intent(file, symbol, search, depth) is Err) ==> (parsed_intent(
            file,
            symbol,
            search,
            depth,
        )->Err_0 == PipelineError::MissingTarget),
{
}

/// What a generation plan holds: it exists exactly when the intent parses;
/// it carries the parsed intent, the given intent text unchanged (or
/// "Context retrieval" when none is given), and the search depth for a
/// search or the given depth (3 when none) for a symbol resolution.
pub proof fn law_plan_contents(
    r: Result<GenerationPlan, PipelineError>,
    parsed: Result<Intent, PipelineError>,
    depth: Option<usize>,
    intent_text: Option<String>,
)
    requires
        planned(r, parsed, depth, intent_text),
    ensures
        (r is Ok) <==> (parsed is Ok),
        (parsed is Err) ==> (r == Err::<GenerationPlan, PipelineError>(parsed->Err_0)),
        (r is Ok) ==> (r->Ok_0.intent == parsed->Ok_0),
        (r is Ok && intent_text is Some) ==> (r->Ok_0.intent_text@ == intent_text->0@),
        (r is Ok && intent_text is None) ==> (r->Ok_0.intent_text@ == "Context retrieval"@),
        (r is Ok && parsed->Ok_0 is Search) ==> (r->Ok_0.max_depth == parsed->Ok_0->depth),
        (r is Ok && parsed->Ok_0 is Symbol) ==> (r->Ok_0.max_depth == (if depth is Some {
            depth->0
        } else {
            3
        })),
{
}

} // verus!
