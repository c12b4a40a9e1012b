//! Context assembly and token budgeting.
//!
//! Stitches code snippets into the final prompt while respecting the token
//! budget.
use vstd::prelude::*;
use vstd::string::StringExecFns;
use crate::config::PruningStrategy;
use crate::pipeline::{DependencyGraph, DependencyNode};
use crate::signatures::{keep_signatures, signature_lines};
use crate::text::{
    chars_of, decimal, join_lines, lines, newline_at, push_char, push_decimal, push_range,
    range_starts_with, starts_with, strip_cr, trim, trim_range, utf8_len,
};

verus! {

/// Whether the (trimmed) line `t` declares a function, struct, enum or impl.
pub open spec fn is_declaration(t: Seq<char>) -> bool {
    ||| starts_with(t, "fn "@)
    ||| starts_with(t, "pub fn"@)
    ||| starts_with(t, "struct "@)
    ||| starts_with(t, "pub struct"@)
    ||| starts_with(t, "enum "@)
    ||| starts_with(t, "pub enum"@)
    ||| starts_with(t, "impl "@)
}

/// The lines of `ls`, in order, that are declarations once trimmed.
pub open spec fn declarations(ls: Seq<Seq<char>>) -> Seq<Seq<char>>
    decreases ls.len(),
{
    if ls.len() == 0 {
        seq![]
    } else if is_declaration(trim(ls.last())) {
        declarations(ls.drop_last()).push(ls.last())
    } else {
        declarations(ls.drop_last())
    }
}

/// `content` pruned by `strategy`: the aggressive strategy keeps the
/// declaration lines, the bodies strategy the lines that do not start
/// inside a function body, each joined by `'\n'`; the full strategy keeps
/// everything.
pub open spec fn pruned(strategy: PruningStrategy, content: Seq<char>) -> Seq<char> {
    match strategy {
        PruningStrategy::Aggressive => join_lines(declarations(lines(content))),
        PruningStrategy::Bodies => join_lines(signature_lines(lines(content))),
        PruningStrategy::Full => content,
    }
}

/// The estimated number of tokens of `text`: one per four bytes of UTF-8.
pub open spec fn estimated_tokens(text: Seq<char>) -> nat {
    utf8_len(text) / 4
}

/// The marker appended when the budget is exceeded.
pub open spec fn truncation_marker() -> Seq<char> {
    "... [output truncated due to token budget] ...\n"@
}

/// The section that states the intent.
pub open spec fn intent_section(intent: Seq<char>) -> Seq<char> {
    "# User Intent\n\n"@ + intent
}

/// The sections that follow the intent and precede the snippets: the
/// depth and the number of nodes of the graph.
pub open spec fn graph_summary(depth: nat, count: nat) -> Seq<char> {
    "\n\n"@ + "# Context\n\n"@
        + "The following code snippets were retrieved by traversing the dependency graph.\n"@
        + "Graph depth: "@ + decimal(depth) + "\n"@ + "Total nodes: "@ + decimal(count)
        + "\n\n"@ + "# Code Snippets\n\n"@
}

/// The text that opens the assembled context.
pub open spec fn header(intent: Seq<char>, depth: nat, count: nat) -> Seq<char> {
    intent_section(intent) + graph_summary(depth, count)
}

/// The block that presents the node at `index` (counted from 0).
pub open spec fn node_block(strategy: PruningStrategy, index: nat, node: DependencyNode) -> Seq<
    char,
> {
    "## "@ + decimal(index + 1) + " - "@ + node.symbol@ + "\n\n"@ + "Location: "@
        + node.location@ + "\n\n"@ + "```\n"@ + pruned(strategy, node.content@) + "\n```\n\n"@
}

/// `acc` followed by the blocks of `nodes` from `i` on, stopping with the
/// truncation marker after the first block that takes the estimate of the
/// whole text over `budget`.
pub open spec fn assembled_from(
    budget: usize,
    strategy: PruningStrategy,
    nodes: Seq<DependencyNode>,
    i: nat,
    acc: Seq<char>,
) -> Seq<char>
    decreases nodes.len() - i,
{
    if i >= nodes.len() {
        acc
    } else {
        let next = acc + node_block(strategy, i, nodes[i as int]);
        if estimated_tokens(next) > budget {
            next + truncation_marker()
        } else {
            assembled_from(budget, strategy, nodes, i + 1, next)
        }
    }
}

/// The context assembled from `graph` for `intent`.
pub open spec fn assembled(
    budget: usize,
    strategy: PruningStrategy,
    graph: DependencyGraph,
    intent: Seq<char>,
) -> Seq<char> {
    assembled_from(
        budget,
        strategy,
        graph.nodes@,
        0,
        header(intent, graph.depth as nat, graph.nodes@.len()),
    )
}

/// The length in bytes of `s`, by `str::len`.
///
/// Trusted: `str::len` returns the number of bytes of the UTF-8 encoding of
/// `s`; the contract states that this number is exactly the length of the
/// encoding of `s@` (a `str` never holds more than `usize::MAX` bytes).
#[verifier::external_body]
fn byte_len(s: &str) -> (n: usize)
    ensures
        n == utf8_len(s@),
{
    s.len()
}

/// Whether the line `v[lo..hi]`, once trimmed, is a declaration.
fn line_is_declaration(v: &Vec<char>, lo: usize, hi: usize) -> (b: bool)
    requires
        lo <= hi <= v@.len(),
    ensures
        b == is_declaration(trim(v@.subrange(lo as int, hi as int))),
{
    let (a, e) = trim_range(v, lo, hi);
    range_starts_with(v, a, e, &chars_of("fn ")) || range_starts_with(v, a, e, &chars_of("pub fn"))
        || range_starts_with(v, a, e, &chars_of("struct ")) || range_starts_with(
        v,
        a,
        e,
        &chars_of("pub struct"),
    ) || range_starts_with(v, a, e, &chars_of("enum ")) || range_starts_with(
        v,
        a,
        e,
        &chars_of("pub enum"),
    ) || range_starts_with(v, a, e, &chars_of("impl "))
}

/// The declaration lines of `content`, joined by `'\n'`.
pub fn keep_declarations(content: &str) -> (r: String)
    ensures
        r@ == join_lines(declarations(lines(content@))),
{
    let v = chars_of(content);
    let n = v.len();
    let mut out = String::new();
    let mut pos: usize = 0;
    let mut any = false;
    let ghost mut done: Seq<Seq<char>> = seq![];
    assert(v@.skip(0) == v@);
    while pos < n
        invariant
            pos <= n == v@.len(),
            lines(v@) == done + lines(v@.skip(pos as int)),
            out@ == join_lines(declarations(done)),
            any == (declarations(done).len() > 0),
        decreases n - pos,
    {
        let mut k = pos;
        while k < n && v[k] != '\n'
            invariant
                pos <= k <= n == v@.len(),
                newline_at(v@.skip(pos as int)) == (k - pos) + newline_at(v@.skip(k as int)),
            decreases n - k,
        {
            assert(v@.skip(k as int).drop_first() == v@.skip(k + 1));
            k = k + 1;
        }
        let ghost rest = v@.skip(pos as int);
        assert(newline_at(rest) == k - pos);
        let mut e = k;
        if k < n && k > pos && v[k - 1] == '\r' {
            e = k - 1;
        }
        let ghost line = v@.subrange(pos as int, e as int);
        proof {
            if k < n {
                assert(rest.take(k - pos) == v@.subrange(pos as int, k as int));
                assert(strip_cr(v@.subrange(pos as int, k as int)) == line);
                assert(rest.skip(k - pos + 1) == v@.skip(k + 1));
                assert(lines(rest) == seq![line] + lines(v@.skip(k + 1)));
            } else {
                assert(rest == line);
                assert(lines(rest) == seq![line]);
                assert(v@.skip(n as int) == Seq::<char>::empty());
            }
        }
        let keep = line_is_declaration(&v, pos, e);
        let ghost before = done;
        proof {
            done = done.push(line);
            assert(done.drop_last() == before);
        }
        if keep {
            if any {
                push_char(&mut out, '\n');
            }
            push_range(&mut out, &v, pos, e);
            any = true;
            proof {
                let d = declarations(before);
                assert(declarations(done) == d.push(line));
                assert(d.push(line).drop_last() == d);
                if d.len() == 0 {
                    assert(join_lines(d.push(line)) == line);
                }
            }
        }
        if k < n {
            pos = k + 1;
        } else {
            pos = n;
        }
    }
    assert(v@.skip(n as int) == Seq::<char>::empty());
    assert(done + Seq::<Seq<char>>::empty() == done);
    out
}

/// Context assembler that builds prompts from dependency graphs.
pub struct Assembler {
    token_budget: usize,
    pruning_strategy: PruningStrategy,
}

impl Assembler {
    /// The token budget of the assembler.
    pub closed spec fn spec_token_budget(&self) -> usize {
        self.token_budget
    }

    /// The pruning strategy of the assembler.
    pub closed spec fn spec_pruning_strategy(&self) -> PruningStrategy {
        self.pruning_strategy
    }

    /// Create a new assembler with a token budget and pruning strategy.
    pub fn new(token_budget: usize, pruning_strategy: PruningStrategy) -> (a: Assembler)
        ensures
            a.spec_token_budget() == token_budget,
            a.spec_pruning_strategy() == pruning_strategy,
    {
        Assembler { token_budget, pruning_strategy }
    }

    /// The token budget of the assembler.
    pub fn token_budget(&self) -> (b: usize)
        ensures
            b == self.spec_token_budget(),
    {
        self.token_budget
    }

    /// The pruning strategy of the assembler.
    pub fn pruning_strategy(&self) -> (s: PruningStrategy)
        ensures
            s == self.spec_pruning_strategy(),
    {
        self.pruning_strategy
    }

    /// Prune content according to the configured strategy.
    pub fn prune_content(&self, content: &str) -> (r: String)
        ensures
            r@ == pruned(self.spec_pruning_strategy(), content@),
    {
        match self.pruning_strategy {
            PruningStrategy::Aggressive => keep_declarations(content),
            PruningStrategy::Bodies => keep_signatures(content),
            PruningStrategy::Full => content.to_owned(),
        }
    }

    /// Estimate the number of tokens in the text: one token per four bytes.
    pub fn estimate_tokens(&self, text: &str) -> (n: usize)
        ensures
            n == estimated_tokens(text@),
    {
        byte_len(text) / 4
    }

    /// Assemble a context prompt from a dependency graph: the intent, a
    /// summary of the graph, then one block per node until the estimate of
    /// the text exceeds the token budget, where a truncation marker ends it.
    pub fn assemble(&self, graph: &DependencyGraph, intent: &str) -> (r: String)
        ensures
            r@ == assembled(
                self.spec_token_budget(),
                self.spec_pruning_strategy(),
                *graph,
                intent@,
            ),
    {
        let mut output = String::new();
        output.append("# User Intent\n\n");
        output.append(intent);
        let ghost sect = output@;
        output.append("\n\n");
        output.append("# Context\n\n");
        output.append(
            "The following code snippets were retrieved by traversing the dependency graph.\n",
        );
        output.append("Graph depth: ");
        push_decimal(&mut output, graph.depth);
        output.append("\n");
        output.append("Total nodes: ");
        push_decimal(&mut output, graph.nodes.len());
        output.append("\n\n");
        output.append("# Code Snippets\n\n");
        assert(sect =~= intent_section(intent@));
        assert(output@ =~= sect + graph_summary(graph.depth as nat, graph.nodes@.len()));
        let n = graph.nodes.len();
        let mut i: usize = 0;
        while i < n
            invariant
                i <= n == graph.nodes@.len(),
                assembled(self.spec_token_budget(), self.spec_pruning_strategy(), *graph, intent@)
                    == assembled_from(
                    self.spec_token_budget(),
                    self.spec_pruning_strategy(),
                    graph.nodes@,
                    i as nat,
                    output@,
                ),
            decreases n - i,
        {
            let node = &graph.nodes[i];
            let ghost before = output@;
            output.append("## ");
            push_decimal(&mut output, i + 1);
            output.append(" - ");
            output.append(node.symbol.as_str());
            output.append("\n\n");
            output.append("Location: ");
            output.append(node.location.as_str());
            output.append("\n\n");
            output.append("```\n");
            let content = self.prune_content(node.content.as_str());
            output.append(content.as_str());
            output.append("\n```\n\n");
            assert(output@ =~= before + node_block(self.spec_pruning_strategy(), i as nat, graph.nodes@[i as int]));
            if self.estimate_tokens(output.as_str()) > self.token_budget {
                output.append("... [output truncated due to token budget] ...\n");
                return output;
            }
            i = i + 1;
        }
        output
    }
}


} // verus!
