use skry::pipeline::{plan_generation, EntryPoint, Intent, Pipeline, PipelineError, Position};
use std::path::PathBuf;

#[test]
fn test_parse_symbol_intent() {
    let intent = Pipeline::parse_intent(
        Some(PathBuf::from("src/main.rs").to_string_lossy().into_owned()),
        Some("ServerConfig".to_string()),
        None,
        None,
    )
    .unwrap();

    match intent {
        Intent::Symbol { file, symbol } => {
            assert_eq!(PathBuf::from(file), PathBuf::from("src/main.rs"));
            assert_eq!(symbol, "ServerConfig");
        }
        _ => panic!("Expected Symbol intent"),
    }
}

#[test]
fn test_parse_search_intent() {
    let intent =
        Pipeline::parse_intent(None, None, Some("auth_middleware".to_string()), Some(3)).unwrap();

    match intent {
        Intent::Search { query, depth } => {
            assert_eq!(query, "auth_middleware");
            assert_eq!(depth, 3);
        }
        _ => panic!("Expected Search intent"),
    }
}

#[test]
fn test_pipeline_creation() {
    let pipeline = Pipeline::new(5);
    assert_eq!(pipeline.max_depth(), 5);
}

#[test]
fn parse_intent_defaults_and_errors() {
    match Pipeline::parse_intent(None, None, Some("q".to_string()), None).unwrap() {
        Intent::Search { depth, .. } => assert_eq!(depth, 2),
        _ => panic!("Expected Search intent"),
    }
    // A file without a symbol falls back to the search.
    match Pipeline::parse_intent(Some("a.rs".to_string()), None, Some("q".to_string()), None).unwrap() {
        Intent::Search { query, .. } => assert_eq!(query, "q"),
        _ => panic!("Expected Search intent"),
    }
    // A file and a symbol win over a search.
    match Pipeline::parse_intent(
        Some("a.rs".to_string()),
        Some("S".to_string()),
        Some("q".to_string()),
        Some(9),
    )
    .unwrap()
    {
        Intent::Symbol { file, symbol } => {
            assert_eq!(file, "a.rs");
            assert_eq!(symbol, "S");
        }
        _ => panic!("Expected Symbol intent"),
    }
    let err = Pipeline::parse_intent(None, Some("S".to_string()), None, Some(1)).unwrap_err();
    assert_eq!(err, PipelineError::MissingTarget);
    assert_eq!(err.message(), "Must provide either --file and --symbol, or --search");
}

#[test]
fn entry_points_and_traversal() {
    let pipeline = Pipeline::new(3);
    let symbol = Intent::Symbol { file: "lib/x.rs".to_string(), symbol: "X".to_string() };
    let EntryPoint { file, position } = pipeline.resolve_entry_point(&symbol);
    assert_eq!(file, "lib/x.rs");
    assert_eq!(position, Position::new(0, 0));
    let search = Intent::Search { query: "auth".to_string(), depth: 2 };
    let entry = pipeline.resolve_entry_point(&search);
    assert_eq!(entry.file, "src/main.rs");
    assert_eq!(entry.position, Position { line: 0, character: 0 });
    let graph = pipeline.traverse_dependencies(&entry);
    assert!(graph.nodes.is_empty());
    assert_eq!(graph.depth, 0);
}

#[test]
fn generation_plans() {
    let plan = plan_generation(None, None, Some("q".to_string()), Some(7), None).unwrap();
    assert_eq!(plan.max_depth, 7);
    assert_eq!(plan.intent_text, "Context retrieval");

    let plan = plan_generation(None, None, Some("q".to_string()), None, Some("why".to_string())).unwrap();
    assert_eq!(plan.max_depth, 2);
    assert_eq!(plan.intent_text, "why");

    let plan = plan_generation(Some("f.rs".to_string()), Some("S".to_string()), None, None, None).unwrap();
    assert_eq!(plan.max_depth, 3);
    assert!(matches!(plan.intent, Intent::Symbol { .. }));

    let plan = plan_generation(Some("f.rs".to_string()), Some("S".to_string()), None, Some(8), None).unwrap();
    assert_eq!(plan.max_depth, 8);

    assert_eq!(
        plan_generation(None, None, None, Some(1), None).unwrap_err(),
        PipelineError::MissingTarget
    );
}
