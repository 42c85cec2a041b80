use pre_commit_rs::cfgv::{ctx_s, ctx_text};

#[test]
fn ctx_s_without_context() {
    let ctx: Vec<String> = Vec::new();
    assert_eq!(ctx_s(&ctx, "boom"), "\n\n=====> boom");
}

#[test]
fn ctx_s_joins_context_lines() {
    let ctx = vec!["File x.yaml".to_string(), "At key: repos".to_string(), "At index 2".to_string()];
    assert_eq!(
        ctx_s(&ctx, format!("Expected {}, got {}", "bool", "str")),
        "\n==> File x.yaml\n==> At key: repos\n==> At index 2\n=====> Expected bool, got str"
    );
}

#[test]
fn ctx_text_single_line() {
    let ctx = vec!["File a".to_string()];
    assert_eq!(ctx_text(&ctx, "m"), "\n==> File a\n=====> m");
}

#[test]
fn ctx_s_shows_numbers() {
    let ctx = vec!["a".to_string(), "b".to_string()];
    assert_eq!(ctx_s(&ctx, 42), "\n==> a\n==> b\n=====> 42");
}
