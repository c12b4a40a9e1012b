use skry::assembly::{keep_declarations, Assembler};
use skry::config::PruningStrategy;
use skry::signatures::keep_signatures;
use skry::pipeline::{DependencyGraph, DependencyNode};

fn node(symbol: &str, location: &str, content: &str) -> DependencyNode {
    DependencyNode {
        symbol: symbol.to_string(),
        location: location.to_string(),
        content: content.to_string(),
        references: Vec::new(),
    }
}

#[test]
fn test_assembler_creation() {
    let assembler = Assembler::new(4096, PruningStrategy::Aggressive);
    assert_eq!(assembler.token_budget(), 4096);
}

#[test]
fn test_token_estimation() {
    let assembler = Assembler::new(4096, PruningStrategy::Full);
    let text = "a".repeat(400);
    assert_eq!(assembler.estimate_tokens(&text), 100);
}

#[test]
fn test_assemble_empty_graph() {
    let assembler = Assembler::new(4096, PruningStrategy::Full);
    let graph = DependencyGraph {
        nodes: Vec::new(),
        depth: 0,
    };

    let result = assembler.assemble(&graph, "Test intent");
    assert!(result.contains("Test intent"));
    assert!(result.contains("Total nodes: 0"));
}

#[test]
fn test_assemble_with_nodes() {
    let assembler = Assembler::new(4096, PruningStrategy::Full);
    let location = lsp_types::Url::parse("file:///test.rs").unwrap().to_string();
    let graph = DependencyGraph {
        nodes: vec![DependencyNode {
            symbol: "test_function".to_string(),
            location,
            content: "fn test_function() {}".to_string(),
            references: Vec::new(),
        }],
        depth: 1,
    };

    let result = assembler.assemble(&graph, "Find test function");
    assert!(result.contains("test_function"));
    assert!(result.contains("file:///test.rs"));
}

#[test]
fn token_estimate_counts_utf8_bytes() {
    let assembler = Assembler::new(10, PruningStrategy::Full);
    // Each 'é' takes two bytes, each '€' three.
    assert_eq!(assembler.estimate_tokens("éé"), 1);
    assert_eq!(assembler.estimate_tokens("€€€€"), 3);
    assert_eq!(assembler.estimate_tokens("abc"), 0);
    assert_eq!(assembler.estimate_tokens(""), 0);
}

#[test]
fn assemble_exact_output() {
    let assembler = Assembler::new(4096, PruningStrategy::Full);
    let graph = DependencyGraph {
        nodes: vec![node("f", "file:///a.rs", "fn f() {}")],
        depth: 12,
    };
    let result = assembler.assemble(&graph, "Explain f");
    let expected = "# User Intent\n\nExplain f\n\n# Context\n\n\
The following code snippets were retrieved by traversing the dependency graph.\n\
Graph depth: 12\nTotal nodes: 1\n\n# Code Snippets\n\n\
## 1 - f\n\nLocation: file:///a.rs\n\n```\nfn f() {}\n```\n\n";
    assert_eq!(result, expected);
}

#[test]
fn assemble_truncates_after_budget_is_exceeded() {
    let assembler = Assembler::new(0, PruningStrategy::Full);
    let graph = DependencyGraph {
        nodes: vec![
            node("first", "file:///a.rs", "fn first() {}"),
            node("second", "file:///b.rs", "fn second() {}"),
        ],
        depth: 2,
    };
    let result = assembler.assemble(&graph, "intent");
    assert!(result.contains("## 1 - first"));
    assert!(!result.contains("second()"));
    assert!(result.ends_with("```\n\n... [output truncated due to token budget] ...\n"));
}

#[test]
fn assemble_keeps_all_nodes_within_budget() {
    let assembler = Assembler::new(100_000, PruningStrategy::Full);
    let graph = DependencyGraph {
        nodes: vec![
            node("first", "file:///a.rs", "fn first() {}"),
            node("second", "file:///b.rs", "fn second() {}"),
            node("third", "file:///c.rs", "fn third() {}"),
        ],
        depth: 3,
    };
    let result = assembler.assemble(&graph, "intent");
    assert!(result.starts_with("# User Intent\n\nintent"));
    assert!(result.contains("## 3 - third"));
    assert!(result.contains("## 10 - ") == false);
    assert!(!result.contains("truncated"));
}

#[test]
fn assemble_prunes_each_node() {
    let assembler = Assembler::new(4096, PruningStrategy::Aggressive);
    let graph = DependencyGraph {
        nodes: vec![node("f", "file:///a.rs", "fn f() {\n    body();\n}")],
        depth: 1,
    };
    let result = assembler.assemble(&graph, "i");
    assert!(result.contains("```\nfn f() {\n```\n\n"));
    assert!(!result.contains("body();"));
}

#[test]
fn aggressive_pruning_keeps_declaration_lines() {
    let assembler = Assembler::new(4096, PruningStrategy::Aggressive);
    let content = "use x;\nfn a() {\n    let y = 1;\n}\npub struct S;\n  impl S {\r\n}\n";
    assert_eq!(assembler.prune_content(content), "fn a() {\npub struct S;\n  impl S {");
    assert_eq!(keep_declarations(content), "fn a() {\npub struct S;\n  impl S {");
}

#[test]
fn aggressive_pruning_trims_before_matching() {
    // "fn " loses its trailing space to trimming, so it is no declaration.
    assert_eq!(keep_declarations("fn \n\tenum E {}\nstruct\n"), "\tenum E {}");
    assert_eq!(keep_declarations(""), "");
    assert_eq!(keep_declarations("let x = 1;"), "");
    assert_eq!(keep_declarations("pub enum E\r"), "pub enum E\r");
    assert_eq!(keep_declarations("\u{a0}pub fn f()\u{3000}"), "\u{a0}pub fn f()\u{3000}");
}

#[test]
fn pruning_never_lengthens_content() {
    let content = "fn a()\n\n\nimpl B {\n  x\n}\nstruct C;";
    for strategy in [PruningStrategy::Aggressive, PruningStrategy::Bodies, PruningStrategy::Full] {
        let assembler = Assembler::new(1, strategy);
        assert!(assembler.prune_content(content).len() <= content.len());
    }
}

#[test]
fn full_keeps_content() {
    let content = "fn a() {\n    b();\n}\n";
    assert_eq!(Assembler::new(1, PruningStrategy::Full).prune_content(content), content);
    assert_eq!(Assembler::new(7, PruningStrategy::Bodies).pruning_strategy(), PruningStrategy::Bodies);
}

#[test]
fn bodies_keeps_signatures_and_drops_bodies() {
    let assembler = Assembler::new(4096, PruningStrategy::Bodies);
    let r = assembler.prune_content("fn f() {\n    body();\n}");
    assert!(r.contains("fn f()"));
    assert!(!r.contains("body();"));
    assert_eq!(r, "fn f() {");
}

#[test]
fn bodies_follows_nesting() {
    let content = "use std::fmt;\n\
pub struct S {\n    x: u8,\n}\n\
impl S {\n    pub fn new(\n        x: u8,\n    ) -> Self {\n        if x > 0 { inner(); }\n        S { x }\n    }\n\n    fn one(&self) -> u8 { 1 }\n}\n\
trait T {\n    fn decl(&self);\n    fn other();\n}\n\
fn outer() {\n    fn nested() {}\n}\nfn last() {}\r\n";
    let expected = "use std::fmt;\n\
pub struct S {\n    x: u8,\n}\n\
impl S {\n    pub fn new(\n        x: u8,\n    ) -> Self {\n\n    fn one(&self) -> u8 { 1 }\n}\n\
trait T {\n    fn decl(&self);\n    fn other();\n}\n\
fn outer() {\nfn last() {}";
    assert_eq!(keep_signatures(content), expected);
    assert_eq!(Assembler::new(1, PruningStrategy::Bodies).prune_content(content), expected);
    assert_eq!(keep_signatures(""), "");
    assert_eq!(keep_signatures("fn a()\n{\n  x\n}\ny"), "fn a()\n{\ny");
}

#[test]
fn larger_budget_extends_output() {
    let graph = DependencyGraph {
        nodes: vec![
            node("first", "file:///a.rs", "fn first() {}"),
            node("second", "file:///b.rs", "fn second() {}"),
            node("third", "file:///c.rs", "fn third() {}"),
        ],
        depth: 3,
    };
    let marker = "... [output truncated due to token budget] ...\n";
    let strip = |r: &str| r.strip_suffix(marker).unwrap_or(r).to_string();
    let mut previous: Option<String> = None;
    for budget in [0usize, 60, 80, 100, 120, 10_000, 20_000] {
        let r = Assembler::new(budget, PruningStrategy::Full).assemble(&graph, "intent");
        if let Some(p) = &previous {
            assert!(strip(&r).starts_with(&strip(p)));
            if !p.ends_with(marker) {
                assert_eq!(&r, p);
            }
        }
        previous = Some(r);
    }
}

#[test]
fn aggressive_pruning_is_idempotent() {
    let assembler = Assembler::new(1, PruningStrategy::Aggressive);
    for content in ["fn a() {\n  x\n}\n\nstruct B;\n", "", "\n\nimpl C {\n", "enum E { A }"] {
        let once = assembler.prune_content(content);
        assert_eq!(assembler.prune_content(&once), once);
    }
}

fn declarations_by_std(content: &str) -> String {
    content
        .lines()
        .filter(|line| {
            let trimmed = line.trim();
            trimmed.starts_with("fn ")
                || trimmed.starts_with("pub fn")
                || trimmed.starts_with("struct ")
                || trimmed.starts_with("pub struct")
                || trimmed.starts_with("enum ")
                || trimmed.starts_with("pub enum")
                || trimmed.starts_with("impl ")
        })
        .collect::<Vec<_>>()
        .join("\n")
}

#[test]
fn aggressive_pruning_agrees_with_std_lines_and_trim() {
    let samples = [
        "",
        "\n",
        "\n\n",
        "fn a()",
        "fn a()\n",
        "fn a()\r\n",
        "fn a()\r",
        "fn a()\r\r\n",
        "\r\nfn a()\r\n\r\n",
        "  pub fn x() {}\n\tpub struct Y;\n enum Z {}\nimpl Z {}\nimpl\n",
        "pub enumeration\npub fnord\nstructure\nfn\nfn \nfn  x",
        "\u{2003}fn spaced()\u{2003}\n\u{85}impl X {}\n",
        "mod m;\nuse a::b;\n// fn comment\n#[derive(Debug)]\npub struct S { x: u8 }\n",
    ];
    for s in samples {
        assert_eq!(keep_declarations(s), declarations_by_std(s), "{:?}", s);
    }
}
