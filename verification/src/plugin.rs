//! The plugin and its one command, as the host sees them. The transport that
//! carries calls to the host lives outside this library; here stands the
//! command's identity and the whole lifecycle of one call.

use vstd::prelude::*;

use crate::context;
use crate::errors::{ErrorKind, SpannedString, StructuredError};
use crate::evaluate::{self, EvaluateCommandsOpts};

verus! {

/// The plugin: it offers exactly one command.
pub struct RunInternalPlugin;

/// The `run-internal` command: runs a block of internal commands against the
/// call's input.
pub struct RunInternal;

impl RunInternalPlugin {
    /// The plugin's version, as sent to the host.
    pub fn version(&self) -> (r: &'static str)
        ensures
            r@ == "0.1.0"@,
    {
        "0.1.0"
    }

    /// The commands this plugin offers: only `run-internal`.
    pub fn commands(&self) -> (r: Vec<RunInternal>)
        ensures
            r@.len() == 1,
    {
        let mut cmds: Vec<RunInternal> = Vec::new();
        cmds.push(RunInternal);
        cmds
    }
}

impl RunInternal {
    /// The command's name.
    pub fn name(&self) -> (r: &'static str)
        ensures
            r@ == "run-internal"@,
    {
        "run-internal"
    }

    /// The command's one-line description.
    pub fn description(&self) -> (r: &'static str)
        ensures
            r@ == "Runs internal command."@,
    {
        "Runs internal command."
    }

    /// One full call: builds a fresh execution context from the host's
    /// snapshot (working directory, initial directory, environment variables),
    /// then evaluates the commands against the input under the caller's
    /// overrides. Context construction can only fail with an environment
    /// error; after that, the overrides' fatality policies and the evaluation
    /// itself decide the result.
    pub fn run(
        &self,
        commands: &SpannedString,
        host_cwd: &String,
        init_cwd: String,
        env_vars: &Vec<(String, String)>,
        input: nu_protocol::PipelineData,
        opts: EvaluateCommandsOpts,
    ) -> (r: Result<nu_protocol::PipelineData, StructuredError>)
        ensures
            !evaluate::style_override_ok(opts) ==> (r matches Err(e) && (e.kind
                == ErrorKind::Environment || (e.kind == ErrorKind::ConfigOverride && e.span
                == Some(opts.error_style->Some_0.span) && e.message@
                == "Invalid value for `--error-style`"@))),
            evaluate::style_override_ok(opts) ==> (r matches Err(e) ==> e.kind
                != ErrorKind::ConfigOverride),
    {
        let (mut engine_state, mut stack) = match context::build_context(
            host_cwd,
            init_cwd,
            env_vars,
        ) {
            Ok(pair) => pair,
            Err(err) => {
                return Err(err);
            },
        };
        evaluate::evaluate_commands(commands, &mut engine_state, &mut stack, input, opts)
    }
}

} // verus!
