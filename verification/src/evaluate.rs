//! The heart of the bridge: apply the caller's configuration overrides with
//! their differing fatality policies, parse the source, commit the declaration
//! delta, evaluate the block, and translate an embedded error value into the
//! call's error channel.

use vstd::prelude::*;
use vstd::string::StringSliceAdditionalSpecFns;

use crate::errors::{ErrorKind, SpannedString, StructuredError};
use crate::context::structured_from_shell;
use crate::interp;
use crate::interp::EvalOutput;
use crate::overrides;

verus! {

/// The caller's per-call configuration overrides. Both shadow the session
/// config for this call only; neither is written back to any cross-call store.
#[derive(Default)]
pub struct EvaluateCommandsOpts {
    pub table_mode: Option<SpannedString>,
    pub error_style: Option<SpannedString>,
}

/// The UTF-8 bytes of a string, the form the override parsers read.
pub open spec fn string_bytes(s: String) -> Seq<u8> {
    vstd::utf8::encode_utf8(s@)
}

/// Whether the error-style override, if any, names a style. Only this decides
/// whether the call fails before parsing.
pub open spec fn style_override_ok(opts: EvaluateCommandsOpts) -> bool {
    match opts.error_style {
        None => true,
        Some(s) => overrides::error_style_of(string_bytes(s.item)) is Some,
    }
}

/// Turns the evaluator's split output into the call's result: an embedded
/// error value becomes the call's terminal error, anything else passes through
/// unchanged. This is the single point where a value-level error becomes a
/// call-level error.
pub fn translate_output(out: EvalOutput) -> (r: Result<
    nu_protocol::PipelineData,
    StructuredError,
>)
    ensures
        out matches EvalOutput::Data(d) ==> r matches Ok(v) && v == d,
        out matches EvalOutput::ErrorValue(_) ==> r matches Err(e) && e.kind
            == ErrorKind::EmbeddedValue,
{
    match out {
        EvalOutput::Data(d) => Ok(d),
        EvalOutput::ErrorValue(err) => Err(
            structured_from_shell(ErrorKind::EmbeddedValue, &*err),
        ),
    }
}

/// Runs the commands given to us by the caller against the input data.
///
/// The error-style override is handled first: an invalid style fails the call
/// with a configuration error carrying the override's span, before any parsing.
/// The rendering-mode override is applied immediately before parsing and never
/// fails the call: an unknown mode silently selects the default mode. Parse
/// warnings, parse errors and compile errors are reported to the diagnostic
/// channel and are not fatal: evaluation is attempted even when they exist.
/// The declaration delta of the parse is committed exactly once, before
/// evaluation; a merge conflict is fatal, as is an evaluation failure. An
/// output that is a single embedded error value is unwrapped into the call's
/// error.
pub fn evaluate_commands(
    commands: &SpannedString,
    engine_state: &mut nu_protocol::engine::EngineState,
    stack: &mut nu_protocol::engine::Stack,
    input: nu_protocol::PipelineData,
    opts: EvaluateCommandsOpts,
) -> (r: Result<nu_protocol::PipelineData, StructuredError>)
    ensures
        !style_override_ok(opts) ==> (r matches Err(e) && e.kind == ErrorKind::ConfigOverride
            && e.span == Some(opts.error_style->Some_0.span) && e.message@
            == "Invalid value for `--error-style`"@ && (e.help matches Some(h) && h@
            == "'fancy', 'plain', 'short' or 'nested'"@) && e.causes@.len() == 0),
        style_override_ok(opts) ==> (r matches Err(e) ==> e.kind != ErrorKind::ConfigOverride),
{
    // Handle the configured error style early: fatal before parsing.
    if let Some(e_style) = &opts.error_style {
        match overrides::parse_error_style(e_style.item.as_str()) {
            Some(style) => interp::set_error_style(engine_state, &style),
            None => {
                return Err(
                    StructuredError {
                        kind: ErrorKind::ConfigOverride,
                        message: "Invalid value for `--error-style`".to_owned(),
                        help: Some("'fancy', 'plain', 'short' or 'nested'".to_owned()),
                        span: Some(e_style.span),
                        causes: Vec::new(),
                    },
                );
            },
        }
    }
    // Translate environment variables from strings to typed values.
    match interp::convert_env(engine_state, stack) {
        Ok(()) => {},
        Err(err) => {
            return Err(structured_from_shell(ErrorKind::Environment, &err));
        },
    }
    // The rendering mode is applied right before parsing; an unknown mode
    // silently selects the default mode instead of failing the call.
    if let Some(t_mode) = &opts.table_mode {
        let mode = overrides::parse_table_mode(t_mode.item.as_str());
        let name = overrides::table_mode_name_bytes(&mode);
        interp::set_table_mode(engine_state, name.as_slice());
    }
    // Parse the source, report the first of each diagnostic class (never
    // fatal), and render the delta of new declarations.
    let mut working_set = interp::working_set_new(engine_state);
    let block = interp::parse_source(&mut working_set, commands.item.as_str().as_bytes());
    interp::report_first_parse_warning(&working_set);
    interp::report_first_parse_error(&working_set);
    interp::report_first_compile_error(&working_set);
    let delta = interp::render_delta(working_set);
    // Update the permanent state: the delta is committed exactly once, before
    // any evaluation can reference it.
    match interp::merge_delta(engine_state, delta) {
        Ok(()) => {},
        Err(err) => {
            return Err(structured_from_shell(ErrorKind::Merge, &err));
        },
    }
    // Run the block.
    match interp::eval_block_no_debug(engine_state, stack, &block, input) {
        Ok(out) => translate_output(interp::split_error_value(out)),
        Err(err) => Err(structured_from_shell(ErrorKind::Evaluation, &err)),
    }
}

} // verus!
