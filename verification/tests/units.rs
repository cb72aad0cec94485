use run_internal::collector::resolve_init_cwd;
use run_internal::errors::{ErrorKind, ErrorParts, SrcSpan, StructuredError};
use run_internal::overrides::{parse_error_style, parse_table_mode, table_mode_name_bytes,
    ErrorStyle, TableMode};
use run_internal::plugin::{RunInternal, RunInternalPlugin};

#[test]
fn error_style_names_parse() {
    assert_eq!(parse_error_style("fancy"), Some(ErrorStyle::Fancy));
    assert_eq!(parse_error_style("plain"), Some(ErrorStyle::Plain));
    assert_eq!(parse_error_style("short"), Some(ErrorStyle::Short));
    assert_eq!(parse_error_style("nested"), Some(ErrorStyle::Nested));
    assert_eq!(parse_error_style("NeStEd"), Some(ErrorStyle::Nested));
    assert_eq!(parse_error_style("not-a-real-style"), None);
    assert_eq!(parse_error_style(""), None);
}

#[test]
fn table_mode_names_parse() {
    assert_eq!(parse_table_mode("basic"), TableMode::Basic);
    assert_eq!(parse_table_mode("thin"), TableMode::Thin);
    assert_eq!(parse_table_mode("light"), TableMode::Light);
    assert_eq!(parse_table_mode("compact"), TableMode::Compact);
    assert_eq!(parse_table_mode("frameless"), TableMode::Frameless);
    assert_eq!(parse_table_mode("with_love"), TableMode::WithLove);
    assert_eq!(parse_table_mode("compact_double"), TableMode::CompactDouble);
    assert_eq!(parse_table_mode("rounded"), TableMode::Rounded);
    assert_eq!(parse_table_mode("reinforced"), TableMode::Reinforced);
    assert_eq!(parse_table_mode("heavy"), TableMode::Heavy);
    assert_eq!(parse_table_mode("none"), TableMode::NoBorder);
    assert_eq!(parse_table_mode("psql"), TableMode::Psql);
    assert_eq!(parse_table_mode("PSQL"), TableMode::Psql);
    assert_eq!(parse_table_mode("markdown"), TableMode::Markdown);
    assert_eq!(parse_table_mode("dots"), TableMode::Dots);
    assert_eq!(parse_table_mode("restructured"), TableMode::Restructured);
    assert_eq!(parse_table_mode("ascii_rounded"), TableMode::AsciiRounded);
    assert_eq!(parse_table_mode("basic_compact"), TableMode::BasicCompact);
    assert_eq!(parse_table_mode("single"), TableMode::Single);
    assert_eq!(parse_table_mode("double"), TableMode::Double);
}

#[test]
fn unknown_table_mode_selects_the_default() {
    assert_eq!(parse_table_mode("not-a-real-mode"), TableMode::Rounded);
    assert_eq!(parse_table_mode(""), TableMode::Rounded);
    // The spelling `default` names the default mode explicitly.
    assert_eq!(parse_table_mode("default"), TableMode::Rounded);
}

#[test]
fn table_mode_canonical_spelling() {
    assert_eq!(table_mode_name_bytes(&TableMode::Psql), "psql".as_bytes().to_vec());
    assert_eq!(table_mode_name_bytes(&TableMode::NoBorder), "none".as_bytes().to_vec());
    assert_eq!(
        table_mode_name_bytes(&TableMode::CompactDouble),
        "compact_double".as_bytes().to_vec()
    );
}

#[test]
fn working_directory_fallback_chain() {
    let exe = "/opt/app".to_string();
    assert_eq!(
        resolve_init_cwd(Some("/a".to_string()), Some("/b".to_string()), Some("/c".to_string()),
            exe.clone()),
        "/a"
    );
    assert_eq!(
        resolve_init_cwd(None, Some("/b".to_string()), Some("/c".to_string()), exe.clone()),
        "/b"
    );
    assert_eq!(resolve_init_cwd(None, None, Some("/c".to_string()), exe.clone()), "/c");
    assert_eq!(resolve_init_cwd(None, None, None, exe.clone()), "/opt/app");
}

#[test]
fn structured_error_carries_its_parts() {
    let parts = ErrorParts {
        message: "went wrong".to_string(),
        help: Some("try again".to_string()),
        span: Some(SrcSpan { start: 3, end: 9 }),
        causes: vec!["inner cause".to_string()],
    };
    let err = StructuredError::from_parts(ErrorKind::Merge, parts);
    assert_eq!(err.kind, ErrorKind::Merge);
    assert_eq!(err.message_text(), "went wrong");
    assert_eq!(err.help.as_deref(), Some("try again"));
    assert_eq!(err.span, Some(SrcSpan { start: 3, end: 9 }));
    assert_eq!(err.causes, vec!["inner cause".to_string()]);
}

#[test]
fn plugin_metadata() {
    assert_eq!(RunInternal.name(), "run-internal");
    assert_eq!(RunInternal.description(), "Runs internal command.");
    assert_eq!(RunInternalPlugin.version(), "0.1.0");
    assert_eq!(RunInternalPlugin.commands().len(), 1);
}
