//! The trusted boundary to the embedded interpreter. Every function here is a
//! thin wrapper around one call into the interpreter's crates; its contract is
//! what this library assumes of that call. Everything that decides or
//! sequences lives outside this module, in verified code.

use vstd::prelude::*;

use crate::errors::{ErrorParts, SrcSpan};

verus! {

#[verifier::external_type_specification]
#[verifier::external_body]
pub struct ExEngineState(nu_protocol::engine::EngineState);

#[verifier::external_type_specification]
#[verifier::external_body]
pub struct ExStack(nu_protocol::engine::Stack);

#[verifier::external_type_specification]
#[verifier::external_body]
pub struct ExStateWorkingSet<'a>(nu_protocol::engine::StateWorkingSet<'a>);

#[verifier::external_type_specification]
#[verifier::external_body]
pub struct ExStateDelta(nu_protocol::engine::StateDelta);

#[verifier::external_type_specification]
#[verifier::external_body]
pub struct ExBlock(nu_protocol::ast::Block);

#[verifier::external_type_specification]
#[verifier::external_body]
pub struct ExPipelineData(nu_protocol::PipelineData);

#[verifier::external_type_specification]
#[verifier::external_body]
pub struct ExShellError(nu_protocol::ShellError);

/// What evaluation handed back, split by whether the single output value is an
/// embedded error.
pub enum EvalOutput {
    /// The output was a single value holding an embedded error.
    ErrorValue(Box<nu_protocol::ShellError>),
    /// Any other output: it passes through unchanged.
    Data(nu_protocol::PipelineData),
}

/// Relies on nu_cmd_lang::create_default_context: a fresh interpreter state
/// holding the core builtin command set. Nothing is shared with earlier calls.
#[verifier::external_body]
pub(crate) fn create_core_context() -> nu_protocol::engine::EngineState {
    nu_cmd_lang::create_default_context()
}

/// Relies on Stack::new: a fresh, empty call-local stack.
#[verifier::external_body]
pub(crate) fn new_stack() -> nu_protocol::engine::Stack {
    nu_protocol::engine::Stack::new()
}

/// Relies on Stack::set_cwd: records `path` as the stack's working directory,
/// or reports why it cannot be used.
#[verifier::external_body]
pub(crate) fn stack_set_cwd(
    stack: &mut nu_protocol::engine::Stack,
    path: &str,
) -> Result<(), nu_protocol::ShellError> {
    stack.set_cwd(path)
}

/// Relies on EngineState::cwd: checks that an effective working directory can
/// be resolved for this state and stack.
#[verifier::external_body]
pub(crate) fn engine_cwd_check(
    es: &nu_protocol::engine::EngineState,
    stack: &nu_protocol::engine::Stack,
) -> Result<(), nu_protocol::ShellError> {
    es.cwd(Some(stack)).map(|_| ())
}

/// Relies on report_shell_error: prints a shell error to the diagnostic
/// channel; never fatal.
#[verifier::external_body]
pub(crate) fn report_shell(es: &nu_protocol::engine::EngineState, err: &nu_protocol::ShellError) {
    nu_protocol::report_shell_error(None, es, err)
}

/// Relies on EngineState::add_env_var: records one environment variable, as a
/// plain string value, in the interpreter state's overlay environment.
#[verifier::external_body]
pub(crate) fn add_env_string(
    es: &mut nu_protocol::engine::EngineState,
    name: String,
    value: String,
) {
    es.add_env_var(name, nu_protocol::Value::string(value, nu_protocol::Span::unknown()));
}

/// Relies on nu_engine::convert_env_values: translates the recorded string
/// environment variables into typed values.
#[verifier::external_body]
pub(crate) fn convert_env(
    es: &mut nu_protocol::engine::EngineState,
    stack: &mut nu_protocol::engine::Stack,
) -> Result<(), nu_protocol::ShellError> {
    nu_engine::convert_env_values(es, stack)
}

/// Relies on the session config being call-scoped: writes the given error
/// style into this state's config. Each variant maps to the interpreter's
/// variant of the same name.
#[verifier::external_body]
pub(crate) fn set_error_style(
    es: &mut nu_protocol::engine::EngineState,
    style: &crate::overrides::ErrorStyle,
) {
    let s = match style {
        crate::overrides::ErrorStyle::Fancy => nu_protocol::ErrorStyle::Fancy,
        crate::overrides::ErrorStyle::Plain => nu_protocol::ErrorStyle::Plain,
        crate::overrides::ErrorStyle::Short => nu_protocol::ErrorStyle::Short,
        crate::overrides::ErrorStyle::Nested => nu_protocol::ErrorStyle::Nested,
    };
    std::sync::Arc::make_mut(&mut es.config).error_style = s;
}

/// Relies on TableMode::from_str: writes the table mode spelled by
/// `name_bytes` into this state's config, or the default mode where the name
/// is unknown.
#[verifier::external_body]
pub(crate) fn set_table_mode(es: &mut nu_protocol::engine::EngineState, name_bytes: &[u8]) {
    let name = String::from_utf8_lossy(name_bytes);
    std::sync::Arc::make_mut(&mut es.config).table.mode = name.parse().unwrap_or_default();
}

/// Relies on StateWorkingSet::new: a fresh mutable view over the engine state,
/// holding no declarations and no diagnostics of its own yet.
#[verifier::external_body]
pub(crate) fn working_set_new<'a>(
    es: &'a nu_protocol::engine::EngineState,
) -> nu_protocol::engine::StateWorkingSet<'a> {
    nu_protocol::engine::StateWorkingSet::new(es)
}

/// Relies on nu_parser::parse: parses the source bytes into an executable
/// block, recording new declarations and all diagnostics in the working set.
#[verifier::external_body]
pub(crate) fn parse_source(
    ws: &mut nu_protocol::engine::StateWorkingSet,
    source: &[u8],
) -> std::sync::Arc<nu_protocol::ast::Block> {
    nu_parser::parse(ws, None, source, false)
}

/// Relies on report_parse_warning: reports the first parse warning, if any
/// exists, to the diagnostic channel; never fatal.
#[verifier::external_body]
pub(crate) fn report_first_parse_warning(ws: &nu_protocol::engine::StateWorkingSet) {
    if let Some(warning) = ws.parse_warnings.first() {
        nu_protocol::report_parse_warning(None, ws, warning);
    }
}

/// Relies on report_parse_error: reports the first parse error, if any exists,
/// to the diagnostic channel; never fatal.
#[verifier::external_body]
pub(crate) fn report_first_parse_error(ws: &nu_protocol::engine::StateWorkingSet) {
    if let Some(err) = ws.parse_errors.first() {
        nu_protocol::report_parse_error(None, ws, err);
    }
}

/// Relies on report_compile_error: reports the first compile error, if any
/// exists, to the diagnostic channel; never fatal.
#[verifier::external_body]
pub(crate) fn report_first_compile_error(ws: &nu_protocol::engine::StateWorkingSet) {
    if let Some(err) = ws.compile_errors.first() {
        nu_protocol::report_error::report_compile_error(None, ws, err);
    }
}

/// Relies on StateWorkingSet::render: the additive delta of every declaration
/// and type newly introduced through this working set.
#[verifier::external_body]
pub(crate) fn render_delta(
    ws: nu_protocol::engine::StateWorkingSet,
) -> nu_protocol::engine::StateDelta {
    ws.render()
}

/// Relies on EngineState::merge_delta: commits the delta into the state;
/// a conflict is returned as an error.
#[verifier::external_body]
pub(crate) fn merge_delta(
    es: &mut nu_protocol::engine::EngineState,
    delta: nu_protocol::engine::StateDelta,
) -> Result<(), nu_protocol::ShellError> {
    es.merge_delta(delta)
}

/// Relies on nu_engine::eval_block, run without debugging: evaluates the block
/// against the stack and the input data, returning the output data.
#[verifier::external_body]
pub(crate) fn eval_block_no_debug(
    es: &nu_protocol::engine::EngineState,
    stack: &mut nu_protocol::engine::Stack,
    block: &std::sync::Arc<nu_protocol::ast::Block>,
    input: nu_protocol::PipelineData,
) -> Result<nu_protocol::PipelineData, nu_protocol::ShellError> {
    nu_engine::eval_block::<nu_protocol::debugger::WithoutDebug>(es, stack, block, input).map(
        |p| p.body,
    )
}

/// Relies on the shape of PipelineData and Value: tells a single embedded
/// error value apart from every other output, moving the error out.
#[verifier::external_body]
pub(crate) fn split_error_value(data: nu_protocol::PipelineData) -> EvalOutput {
    match data {
        nu_protocol::PipelineData::Value(nu_protocol::Value::Error { error, .. }, ..) => {
            EvalOutput::ErrorValue(error)
        },
        other => EvalOutput::Data(other),
    }
}

/// Relies on LabeledError::from_diagnostic and on ShellError's display form:
/// renders a shell error's message, help text, first labeled span, and the
/// display form of each nested cause.
#[verifier::external_body]
pub(crate) fn shell_error_parts(err: &nu_protocol::ShellError) -> ErrorParts {
    let rendered = nu_protocol::LabeledError::from_diagnostic(err);
    ErrorParts {
        message: rendered.msg,
        help: rendered.help,
        span: rendered.labels.first().map(
            |l| SrcSpan { start: l.span.start, end: l.span.end },
        ),
        causes: rendered.inner.iter().map(|inner| inner.to_string()).collect(),
    }
}

} // verus!
