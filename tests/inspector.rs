use nix_inspector_mcp::inspector::flake::FlakeInspector;
use nix_inspector_mcp::inspector::system::{
    method_not_found, method_of, Method, SystemAnalyzer, SystemAnalyzerError,
};
use std::path::PathBuf;

fn analyzer() -> SystemAnalyzer {
    SystemAnalyzer::with_nix("/run/current-system/sw/bin/nix".to_string(), "nix (Nix) 2.24.0\n".to_string())
}

#[test]
fn flake_inspector_keeps_its_path() {
    let f = FlakeInspector::new(PathBuf::from("/etc/nixos"));
    assert_eq!(f.flake_path(), &PathBuf::from("/etc/nixos"));
}

#[test]
fn analyzer_starts_with_what_it_was_given() {
    let a = analyzer();
    assert_eq!(a.nix_cmd(), "/run/current-system/sw/bin/nix");
    assert_eq!(a.info().nix_version, "nix (Nix) 2.24.0\n");
    assert!(a.info().current_system.is_none());
    let info = a.system_info_with("x86_64-linux".to_string(), "/nix/store".to_string());
    assert_eq!(info.current_system.as_deref(), Some("x86_64-linux"));
    assert_eq!(info.store_path.as_deref(), Some("/nix/store"));
    assert_eq!(info.nix_cmd, "/run/current-system/sw/bin/nix");
    assert!(info.system_flake.is_none());
}

#[test]
fn parses_nodes_and_edges_of_a_dot_graph() {
    let dot = "digraph G {\n  a;\n  \"b c\" ;\n  a -> b;\n  x -> y -> z;\n  { rank=same; }\n}\n  c -> d ; extra\n  e\n;\n";
    let (nodes, edges) = analyzer().parse_dot_graph(dot).unwrap();
    assert_eq!(nodes, vec!["a".to_string(), "\"b c\"".to_string()]);
    assert_eq!(edges, vec![("a".to_string(), "b".to_string())]);
}

#[test]
fn dot_edge_target_stops_at_first_semicolon() {
    let (nodes, edges) = analyzer().parse_dot_graph("p->q; r;\r\nn [label=x];").unwrap();
    assert_eq!(edges, vec![("p".to_string(), "q".to_string())]);
    assert_eq!(nodes, vec!["n [label=x]".to_string()]);
}

#[test]
fn empty_dot_graph_has_nothing() {
    let (nodes, edges) = analyzer().parse_dot_graph("").unwrap();
    assert!(nodes.is_empty());
    assert!(edges.is_empty());
}

#[test]
fn command_output_is_trimmed_or_reported() {
    let ok = SystemAnalyzer::command_result(true, "  x86_64-linux\n", String::new()).unwrap();
    assert_eq!(ok, "x86_64-linux");
    match SystemAnalyzer::command_result(false, "out", "boom".to_string()) {
        Err(SystemAnalyzerError::NixCommandError(m)) => assert_eq!(m, "boom"),
        other => panic!("expected a command error, got {:?}", other),
    }
    let flake = analyzer().get_system_flake(true, "/nix/store/abc.drv\n", String::new()).unwrap();
    assert_eq!(flake, "/nix/store/abc.drv");
    let args = SystemAnalyzer::system_flake_args();
    assert_eq!(args, vec!["eval", "--raw", "nixosConfig.system.build.toplevel.drvPath"]);
}

#[test]
fn dev_shells_are_the_keys_that_name_shells() {
    let out = r#"{"packages":{},"devShell.x86_64-linux":{},"devShells":{},"devShell.aarch64-linux":1}"#;
    let shells = analyzer().get_dev_shells(out).unwrap();
    assert_eq!(shells, vec!["devShell.aarch64-linux".to_string(), "devShell.x86_64-linux".to_string()]);
    assert!(analyzer().get_dev_shells("[1]").unwrap().is_empty());
    assert!(matches!(analyzer().get_dev_shells("{oops"), Err(SystemAnalyzerError::ParseError(_))));
}

#[test]
fn dev_flake_info_gathers_all_parts() {
    let f = analyzer()
        .dev_flake_info("/src".to_string(), r#"["nixpkgs"]"#, r#"["packages"]"#, r#"{"devShell.a":0}"#)
        .unwrap();
    assert_eq!(f.path, "/src");
    assert_eq!(f.locked_inputs, vec!["nixpkgs".to_string()]);
    assert_eq!(f.outputs, vec!["packages".to_string()]);
    assert_eq!(f.dev_shells, vec!["devShell.a".to_string()]);
    let bad = analyzer().dev_flake_info("/src".to_string(), "{}", "[]", "{}");
    assert!(matches!(bad, Err(SystemAnalyzerError::ParseError(_))));
}

#[test]
fn methods_are_dispatched_by_name() {
    assert_eq!(method_of("get_system_info"), Some(Method::GetSystemInfo));
    assert_eq!(method_of("analyze_dev_flake"), Some(Method::AnalyzeDevFlake));
    assert_eq!(method_of("generate_flake_graph"), Some(Method::GenerateFlakeGraph));
    assert_eq!(method_of("get_dependency_graph"), Some(Method::GetDependencyGraph));
    assert_eq!(method_of("get_system"), None);
    assert_eq!(method_not_found("nope"), "Method nope not found");
}

#[test]
fn graph_format_comes_from_string_params() {
    assert_eq!(SystemAnalyzer::graph_format(None), Some(None));
    assert_eq!(SystemAnalyzer::graph_format(Some(r#"{"format":"svg"}"#)), Some(Some("svg".to_string())));
    assert_eq!(SystemAnalyzer::graph_format(Some(r#"{"other":"x"}"#)), Some(None));
    assert_eq!(SystemAnalyzer::graph_format(Some(r#"{"format":1}"#)), None);
    assert_eq!(SystemAnalyzer::graph_format(Some("[]")), None);
    assert!(SystemAnalyzer::wants_svg(Some("svg")));
    assert!(!SystemAnalyzer::wants_svg(Some("dot")));
    assert!(!SystemAnalyzer::wants_svg(None));
}

#[test]
fn flake_graph_parses_its_dot_text() {
    let g = analyzer().flake_graph("a -> b;\nc;".to_string(), Some("<svg/>".to_string())).unwrap();
    assert_eq!(g.nodes, vec!["c".to_string()]);
    assert_eq!(g.edges, vec![("a".to_string(), "b".to_string())]);
    assert_eq!(g.svg_output.as_deref(), Some("<svg/>"));
    let d = analyzer().get_dependency_graph();
    assert!(d.nodes.is_empty() && d.edges.is_empty());
}

#[test]
fn error_messages_name_what_failed() {
    assert_eq!(SystemAnalyzerError::NixCommandError("x".to_string()).message(),
        "Failed to execute nix command: x");
    assert_eq!(SystemAnalyzerError::ParseError("y".to_string()).message(), "Failed to parse nix output: y");
    assert_eq!(SystemAnalyzerError::Which("z".to_string()).message(), "Which error: z");
}
