use nu_protocol::{PipelineData, Span, Value};
use run_internal::errors::{ErrorKind, SpannedString, SrcSpan, StructuredError};
use run_internal::evaluate::EvaluateCommandsOpts;
use run_internal::interp::EvalOutput;
use run_internal::plugin::RunInternal;

fn spanned(s: &str) -> SpannedString {
    SpannedString { item: s.to_string(), span: SrcSpan { start: 0, end: s.len() } }
}

fn call_with(
    source: &str,
    input: PipelineData,
    table_mode: Option<&str>,
    error_style: Option<&str>,
    env: Vec<(String, String)>,
) -> Result<PipelineData, StructuredError> {
    RunInternal.run(
        &spanned(source),
        &"/".to_string(),
        "/".to_string(),
        &env,
        input,
        EvaluateCommandsOpts {
            table_mode: table_mode.map(spanned),
            error_style: error_style.map(spanned),
        },
    )
}

fn call(source: &str) -> Result<PipelineData, StructuredError> {
    call_with(source, PipelineData::empty(), None, None, Vec::new())
}

fn as_value(data: PipelineData) -> Value {
    data.into_value(Span::unknown()).expect("output should collect into a value")
}

#[test]
fn single_statement_yields_its_literal() {
    let out = call("echo 1").expect("echo 1 should succeed");
    assert_eq!(as_value(out).as_int().unwrap(), 1);
}

#[test]
fn pipeline_stages_run_in_textual_order() {
    let out = call("echo [1 2 3] | describe").expect("pipeline should succeed");
    assert_eq!(as_value(out).as_str().unwrap(), "list<int>");
}

#[test]
fn list_output_keeps_element_order() {
    let out = call("echo [3 1 2]").expect("echo of a list should succeed");
    let v = as_value(out);
    let items = v.as_list().unwrap();
    let ints: Vec<i64> = items.iter().map(|x| x.as_int().unwrap()).collect();
    assert_eq!(ints, vec![3, 1, 2]);
}

#[test]
fn last_statement_decides_the_result() {
    let out = call("echo 1; echo 2").expect("two statements should succeed");
    assert_eq!(as_value(out).as_int().unwrap(), 2);
}

#[test]
fn invalid_error_style_is_fatal_before_parsing() {
    let err = call_with("echo 1", PipelineData::empty(), None, Some("not-a-real-style"), Vec::new())
        .expect_err("an unknown error style must fail the call");
    assert_eq!(err.kind, ErrorKind::ConfigOverride);
    assert_eq!(err.message, "Invalid value for `--error-style`");
    assert_eq!(err.help.as_deref(), Some("'fancy', 'plain', 'short' or 'nested'"));
    assert_eq!(err.span, Some(SrcSpan { start: 0, end: "not-a-real-style".len() }));
    assert!(err.causes.is_empty());
}

#[test]
fn valid_error_style_is_accepted() {
    let out = call_with("echo 1", PipelineData::empty(), None, Some("plain"), Vec::new())
        .expect("a known error style must not fail the call");
    assert_eq!(as_value(out).as_int().unwrap(), 1);
}

#[test]
fn error_style_is_read_case_insensitively() {
    let out = call_with("echo 1", PipelineData::empty(), None, Some("FANCY"), Vec::new())
        .expect("style names are case-insensitive");
    assert_eq!(as_value(out).as_int().unwrap(), 1);
}

#[test]
fn invalid_table_mode_never_fails_the_call() {
    let out = call_with("echo 1", PipelineData::empty(), Some("not-a-real-mode"), None, Vec::new())
        .expect("an unknown rendering mode must fall back silently");
    assert_eq!(as_value(out).as_int().unwrap(), 1);
}

#[test]
fn valid_table_mode_is_accepted() {
    let out = call_with("echo 1", PipelineData::empty(), Some("psql"), None, Vec::new())
        .expect("a known rendering mode must not fail the call");
    assert_eq!(as_value(out).as_int().unwrap(), 1);
}

#[test]
fn embedded_error_value_becomes_the_call_error() {
    // The translator is the single point where a value-level error becomes a
    // call-level error: an embedded error is unwrapped with its message
    // verbatim, any other output passes through unchanged.
    let embedded: Box<nu_protocol::ShellError> =
        Box::new(nu_protocol::LabeledError::new("boom").into());
    let err = run_internal::evaluate::translate_output(EvalOutput::ErrorValue(embedded))
        .expect_err("an embedded error value must fail the call");
    assert_eq!(err.kind, ErrorKind::EmbeddedValue);
    assert_eq!(err.message, "boom");

    let data = PipelineData::Value(Value::test_int(5), None);
    let out = run_internal::evaluate::translate_output(EvalOutput::Data(data))
        .expect("plain output must pass through");
    assert_eq!(as_value(out).as_int().unwrap(), 5);
}

#[test]
fn raised_error_fails_evaluation() {
    let err = call("error make {msg: \"boom\"}").expect_err("a raised error must fail the call");
    assert_eq!(err.kind, ErrorKind::Evaluation);
    assert_eq!(err.message, "boom");
}

#[test]
fn environment_snapshot_is_respected_per_call() {
    let a = call_with(
        "$env.FOO",
        PipelineData::empty(),
        None,
        None,
        vec![("FOO".to_string(), "alpha".to_string())],
    )
    .expect("env read should succeed");
    assert_eq!(as_value(a).as_str().unwrap(), "alpha");
    let b = call_with(
        "$env.FOO",
        PipelineData::empty(),
        None,
        None,
        vec![("FOO".to_string(), "beta".to_string())],
    )
    .expect("env read should succeed");
    assert_eq!(as_value(b).as_str().unwrap(), "beta");
}

#[test]
fn both_overrides_together_are_call_scoped() {
    let out = call_with("echo 3", PipelineData::empty(), Some("markdown"), Some("short"), Vec::new())
        .expect("both overrides valid: the call must succeed");
    assert_eq!(as_value(out).as_int().unwrap(), 3);
    // The invalid style stays fatal even while a valid mode is supplied.
    let err = call_with("echo 3", PipelineData::empty(), Some("markdown"), Some("loud"), Vec::new())
        .expect_err("the style override keeps its own fatality policy");
    assert_eq!(err.kind, ErrorKind::ConfigOverride);
}

#[test]
fn identical_calls_yield_identical_results() {
    let a = call("echo 41").expect("first call");
    let b = call("echo 41").expect("second call");
    assert_eq!(as_value(a).as_int().unwrap(), as_value(b).as_int().unwrap());
}

#[test]
fn input_flows_into_the_script() {
    let input = PipelineData::Value(Value::test_int(20), None);
    let out = call_with("$in + 1", input, None, None, Vec::new()).expect("input should be read");
    assert_eq!(as_value(out).as_int().unwrap(), 21);
}

#[test]
fn parse_error_still_attempts_evaluation() {
    // A source with a parse error alongside a valid statement: the parse
    // error is advisory, so the call still reaches evaluation; the damaged
    // block then fails at evaluation time — not with any config or merge
    // error, and not with a parse-level failure.
    let err = call("echo 1; let").expect_err("the damaged block fails at evaluation time");
    assert_eq!(err.kind, ErrorKind::Evaluation);
}

#[test]
fn unusable_working_directory_is_an_environment_error() {
    // A host working directory the stack cannot use is reported softly, but a
    // context whose effective working directory cannot be resolved at all
    // fails the call before parsing.
    let err = RunInternal
        .run(
            &spanned("echo 1"),
            &"relative/path".to_string(),
            "relative/path".to_string(),
            &Vec::new(),
            PipelineData::empty(),
            EvaluateCommandsOpts { table_mode: None, error_style: None },
        )
        .expect_err("an unresolvable working directory must fail the call");
    assert_eq!(err.kind, ErrorKind::Environment);
}
