//! Laws of context assembly: how the token budget shapes the output.
use vstd::prelude::*;
use crate::assembly::{
    assembled, assembled_from, estimated_tokens, header, intent_section, node_block,
    truncation_marker,
};
use crate::config::PruningStrategy;
use crate::pipeline::{DependencyGraph, DependencyNode};
use crate::text::{decimal, starts_with, utf8_len};

verus! {

/// The blocks of the first `m` nodes of `nodes`, in order.
pub open spec fn blocks_upto(strategy: PruningStrategy, nodes: Seq<DependencyNode>, m: nat) -> Seq<
    char,
>
    decreases m,
{
    if m == 0 {
        seq![]
    } else {
        blocks_upto(strategy, nodes, (m - 1) as nat) + node_block(
            strategy,
            (m - 1) as nat,
            nodes[m - 1],
        )
    }
}

/// Whether `out` is what assembly gives from the opening text `h` and the
/// blocks of `nodes`: `h` and the blocks of the first `m` nodes, where every
/// shorter prefix of blocks kept the estimate within `budget`, and either
/// all nodes were taken within the budget or the `m`-th block took the
/// estimate over it and the truncation marker follows.
pub open spec fn budget_shape(
    budget: usize,
    strategy: PruningStrategy,
    nodes: Seq<DependencyNode>,
    h: Seq<char>,
    out: Seq<char>,
    m: nat,
) -> bool {
    &&& m <= nodes.len()
    &&& forall|k: nat|
        0 < k < m ==> estimated_tokens(h + #[trigger] blocks_upto(strategy, nodes, k)) <= budget
    &&& {
        ||| m == nodes.len() && (m > 0 ==> estimated_tokens(h + blocks_upto(strategy, nodes, m))
            <= budget) && out == h + blocks_upto(strategy, nodes, m)
        ||| m > 0 && estimated_tokens(h + blocks_upto(strategy, nodes, m)) > budget && out == h
            + blocks_upto(strategy, nodes, m) + truncation_marker()
    }
}

proof fn lemma_assembled_from_shape(
    budget: usize,
    strategy: PruningStrategy,
    nodes: Seq<DependencyNode>,
    h: Seq<char>,
    i: nat,
)
    requires
        i <= nodes.len(),
        forall|k: nat|
            0 < k <= i ==> estimated_tokens(h + #[trigger] blocks_upto(strategy, nodes, k))
                <= budget,
    ensures
        exists|m: nat|
            i <= m && budget_shape(
                budget,
                strategy,
                nodes,
                h,
                assembled_from(budget, strategy, nodes, i, h + blocks_upto(strategy, nodes, i)),
                m,
            ),
    decreases nodes.len() - i,
{
    let out = assembled_from(budget, strategy, nodes, i, h + blocks_upto(strategy, nodes, i));
    if i >= nodes.len() {
        assert(budget_shape(budget, strategy, nodes, h, out, i));
    } else {
        let next = h + blocks_upto(strategy, nodes, i) + node_block(strategy, i, nodes[i as int]);
        assert(blocks_upto(strategy, nodes, i + 1) == blocks_upto(strategy, nodes, i) + node_block(
            strategy,
            i,
            nodes[i as int],
        ));
        assert(next == h + blocks_upto(strategy, nodes, i + 1));
        if estimated_tokens(next) > budget {
            assert(budget_shape(budget, strategy, nodes, h, out, i + 1));
        } else {
            lemma_assembled_from_shape(budget, strategy, nodes, h, i + 1);
        }
    }
}

/// The assembled context is the opening text followed by the blocks of the
/// first `m` nodes, where every shorter run of blocks kept the estimate
/// within the budget; either all nodes are there within the budget, or the
/// `m`-th block took the estimate over the budget and the truncation marker
/// ends the text.
pub proof fn law_assembled_respects_budget(
    budget: usize,
    strategy: PruningStrategy,
    graph: DependencyGraph,
    intent: Seq<char>,
)
    ensures
        exists|m: nat|
            budget_shape(
                budget,
                strategy,
                graph.nodes@,
                header(intent, graph.depth as nat, graph.nodes@.len()),
                assembled(budget, strategy, graph, intent),
                m,
            ),
{
    let h = header(intent, graph.depth as nat, graph.nodes@.len());
    assert(h + blocks_upto(strategy, graph.nodes@, 0) == h);
    lemma_assembled_from_shape(budget, strategy, graph.nodes@, h, 0);
    let out = assembled(budget, strategy, graph, intent);
    assert(out == assembled_from(budget, strategy, graph.nodes@, 0, h + blocks_upto(strategy, graph.nodes@, 0)));
    let m = choose|m: nat| 0 <= m && budget_shape(budget, strategy, graph.nodes@, h, out, m);
    assert(budget_shape(budget, strategy, graph.nodes@, h, out, m));
}

/// The UTF-8 length of a concatenation is the sum of the lengths.
pub proof fn lemma_utf8_len_concat(a: Seq<char>, b: Seq<char>)
    ensures
        utf8_len(a + b) == utf8_len(a) + utf8_len(b),
    decreases a.len(),
{
    if a.len() > 0 {
        assert((a + b).drop_first() == a.drop_first() + b);
        assert((a + b)[0] == a[0]);
        lemma_utf8_len_concat(a.drop_first(), b);
    } else {
        assert(a + b == b);
    }
}

/// A longer run of blocks never has a smaller estimate.
proof fn lemma_blocks_estimate_monotonic(
    strategy: PruningStrategy,
    nodes: Seq<DependencyNode>,
    h: Seq<char>,
    k: nat,
    m: nat,
)
    requires
        k <= m,
    ensures
        estimated_tokens(h + blocks_upto(strategy, nodes, k)) <= estimated_tokens(
            h + blocks_upto(strategy, nodes, m),
        ),
    decreases m - k,
{
    if k < m {
        lemma_blocks_estimate_monotonic(strategy, nodes, h, k, (m - 1) as nat);
        let prev = h + blocks_upto(strategy, nodes, (m - 1) as nat);
        let blk = node_block(strategy, (m - 1) as nat, nodes[m - 1]);
        assert(h + blocks_upto(strategy, nodes, m) == prev + blk);
        lemma_utf8_len_concat(prev, blk);
    }
}

/// When the opening text and the blocks of all nodes fit within the
/// budget, the assembled context is all of them, with no truncation.
pub proof fn law_assembled_complete_within_budget(
    budget: usize,
    strategy: PruningStrategy,
    graph: DependencyGraph,
    intent: Seq<char>,
)
    requires
        estimated_tokens(
            header(intent, graph.depth as nat, graph.nodes@.len()) + blocks_upto(
                strategy,
                graph.nodes@,
                graph.nodes@.len(),
            ),
        ) <= budget,
    ensures
        assembled(budget, strategy, graph, intent) == header(
            intent,
            graph.depth as nat,
            graph.nodes@.len(),
        ) + blocks_upto(strategy, graph.nodes@, graph.nodes@.len()),
{
    let h = header(intent, graph.depth as nat, graph.nodes@.len());
    let n = graph.nodes@.len();
    law_assembled_respects_budget(budget, strategy, graph, intent);
    let m = choose|m: nat|
        budget_shape(budget, strategy, graph.nodes@, h, assembled(budget, strategy, graph, intent), m);
    if m > 0 && estimated_tokens(h + blocks_upto(strategy, graph.nodes@, m)) > budget {
        lemma_blocks_estimate_monotonic(strategy, graph.nodes@, h, m, n);
    }
}

/// The assembled context opens with the intent section: its heading and the
/// intent text.
pub proof fn law_assembled_opens_with_intent(
    budget: usize,
    strategy: PruningStrategy,
    graph: DependencyGraph,
    intent: Seq<char>,
)
    ensures
        starts_with(assembled(budget, strategy, graph, intent), intent_section(intent)),
{
    let h = header(intent, graph.depth as nat, graph.nodes@.len());
    let p = intent_section(intent);
    law_assembled_respects_budget(budget, strategy, graph, intent);
    let out = assembled(budget, strategy, graph, intent);
    let m = choose|m: nat| budget_shape(budget, strategy, graph.nodes@, h, out, m);
    let bl = blocks_upto(strategy, graph.nodes@, m);
    assert(out == h + bl || out == h + bl + truncation_marker());
    assert(out.take(p.len() as int) =~= p);
}

/// The blocks of fewer nodes are a prefix of the blocks of more.
proof fn lemma_blocks_prefix(
    strategy: PruningStrategy,
    nodes: Seq<DependencyNode>,
    h: Seq<char>,
    k: nat,
    m: nat,
)
    requires
        k <= m,
    ensures
        starts_with(h + blocks_upto(strategy, nodes, m), h + blocks_upto(strategy, nodes, k)),
    decreases m - k,
{
    let short = h + blocks_upto(strategy, nodes, k);
    let long = h + blocks_upto(strategy, nodes, m);
    if k < m {
        lemma_blocks_prefix(strategy, nodes, h, k, (m - 1) as nat);
        let prev = h + blocks_upto(strategy, nodes, (m - 1) as nat);
        assert(long == prev + node_block(strategy, (m - 1) as nat, nodes[m - 1]));
        assert(prev.take(short.len() as int) == short);
        assert(long.take(short.len() as int) =~= short);
    } else {
        assert(long.take(short.len() as int) =~= short);
    }
}

/// Whether the outputs under budgets `b1` and `b2` stop after `m1` and `m2`
/// nodes, with `m1 <= m2`, the text kept under `b1` a prefix of the text kept
/// under `b2`, and equal outputs when nothing was truncated under `b1`.
pub open spec fn larger_budget_extends(
    b1: usize,
    b2: usize,
    strategy: PruningStrategy,
    graph: DependencyGraph,
    intent: Seq<char>,
    m1: nat,
    m2: nat,
) -> bool {
    let h = header(intent, graph.depth as nat, graph.nodes@.len());
    &&& m1 <= m2
    &&& budget_shape(
        b1,
        strategy,
        graph.nodes@,
        h,
        assembled(b1, strategy, graph, intent),
        m1,
    )
    &&& budget_shape(
        b2,
        strategy,
        graph.nodes@,
        h,
        assembled(b2, strategy, graph, intent),
        m2,
    )
    &&& starts_with(
        h + blocks_upto(strategy, graph.nodes@, m2),
        h + blocks_upto(strategy, graph.nodes@, m1),
    )
    &&& (assembled(b1, strategy, graph, intent) == h + blocks_upto(
        strategy,
        graph.nodes@,
        m1,
    ) ==> assembled(b2, strategy, graph, intent) == assembled(
        b1,
        strategy,
        graph,
        intent,
    ))
}

/// A larger budget never gives fewer or other snippets: with budgets
/// `b1 <= b2`, the text kept under `b1` (without the truncation marker) is a
/// prefix of the text kept under `b2`, and when nothing was truncated under
/// `b1` the two outputs are equal.
pub proof fn law_larger_budget_extends(
    b1: usize,
    b2: usize,
    strategy: PruningStrategy,
    graph: DependencyGraph,
    intent: Seq<char>,
)
    requires
        b1 <= b2,
    ensures
        exists|m1: nat, m2: nat| larger_budget_extends(b1, b2, strategy, graph, intent, m1, m2),
{
    let h = header(intent, graph.depth as nat, graph.nodes@.len());
    let nodes = graph.nodes@;
    let n = nodes.len();
    let r1 = assembled(b1, strategy, graph, intent);
    let r2 = assembled(b2, strategy, graph, intent);
    law_assembled_respects_budget(b1, strategy, graph, intent);
    law_assembled_respects_budget(b2, strategy, graph, intent);
    let m1 = choose|m: nat| budget_shape(b1, strategy, nodes, h, r1, m);
    let m2 = choose|m: nat| budget_shape(b2, strategy, nodes, h, r2, m);
    if m1 > m2 {
        assert(estimated_tokens(h + blocks_upto(strategy, nodes, m2)) <= b1);
        assert(false);
    }
    lemma_blocks_prefix(strategy, nodes, h, m1, m2);
    reveal_strlit("... [output truncated due to token budget] ...\n");
    if r1 == h + blocks_upto(strategy, nodes, m1) {
        let k1 = h + blocks_upto(strategy, nodes, m1);
        if m1 > 0 && estimated_tokens(k1) > b1 && r1 == k1 + truncation_marker() {
            assert((k1 + truncation_marker()).len() > k1.len());
        }
        assert(m1 == n);
        assert(m2 == n);
    }
    assert(larger_budget_extends(b1, b2, strategy, graph, intent, m1, m2));
}

/// The assembled context opens with the heading of the intent, the whole
/// intent text as given, and the heading of the context section.
pub proof fn law_assembled_states_whole_intent(
    budget: usize,
    strategy: PruningStrategy,
    graph: DependencyGraph,
    intent: Seq<char>,
)
    ensures
        ("# User Intent\n\n"@ + intent + "\n\n# Context\n\n"@).is_prefix_of(
            assembled(budget, strategy, graph, intent),
        ),
{
    let h = header(intent, graph.depth as nat, graph.nodes@.len());
    let p = "# User Intent\n\n"@ + intent + "\n\n# Context\n\n"@;
    law_assembled_respects_budget(budget, strategy, graph, intent);
    let out = assembled(budget, strategy, graph, intent);
    let m = choose|m: nat| budget_shape(budget, strategy, graph.nodes@, h, out, m);
    let bl = blocks_upto(strategy, graph.nodes@, m);
    assert(out == h + bl || out == h + bl + truncation_marker());
    reveal_strlit("# User Intent\n\n");
    reveal_strlit("\n\n");
    reveal_strlit("# Context\n\n");
    reveal_strlit("\n\n# Context\n\n");
    let rest = "# Context\n\n"@
        + "The following code snippets were retrieved by traversing the dependency graph.\n"@
        + "Graph depth: "@ + decimal(graph.depth as nat) + "\n"@ + "Total nodes: "@ + decimal(
        graph.nodes@.len(),
    ) + "\n\n"@ + "# Code Snippets\n\n"@;
    assert("\n\n"@ + "# Context\n\n"@ =~= "\n\n# Context\n\n"@);
    assert(h =~= "# User Intent\n\n"@ + intent + "\n\n"@ + rest);
    assert(p.len() <= h.len());
    assert(h.subrange(0, p.len() as int) =~= p);
    assert(out.subrange(0, p.len() as int) =~= p);
}

} // verus!
