//! The execution context builder: a fresh interpreter state and call-local
//! stack per call, the working directory wired in, and the host's environment
//! snapshot committed as string variables. Nothing built here outlives the
//! call.

use vstd::prelude::*;

use crate::errors::{ErrorKind, StructuredError};
use crate::interp;

verus! {

/// Renders an interpreter error as the structured error of the given phase.
pub(crate) fn structured_from_shell(kind: ErrorKind, err: &nu_protocol::ShellError) -> (r:
    StructuredError)
    ensures
        r.kind == kind,
{
    let parts = interp::shell_error_parts(err);
    StructuredError::from_parts(kind, parts)
}

/// Builds a fresh execution context: the core builtin registry, a call-local
/// stack whose working directory is `host_cwd`, and the host's environment
/// snapshot recorded as string variables, with `init_cwd` as the `PWD`
/// variable. A working directory the stack cannot use is reported to the
/// diagnostic channel and left at its default — never fatal. A state whose
/// effective working directory cannot be resolved at all fails the call with
/// an environment error.
pub fn build_context(
    host_cwd: &String,
    init_cwd: String,
    env_vars: &Vec<(String, String)>,
) -> (r: Result<(nu_protocol::engine::EngineState, nu_protocol::engine::Stack), StructuredError>)
    ensures
        r matches Err(e) ==> e.kind == ErrorKind::Environment,
{
    let mut engine_state = interp::create_core_context();
    let mut stack = interp::new_stack();
    match interp::stack_set_cwd(&mut stack, host_cwd.as_str()) {
        Ok(()) => {},
        Err(err) => interp::report_shell(&engine_state, &err),
    }
    match interp::engine_cwd_check(&engine_state, &stack) {
        Ok(()) => {},
        Err(err) => {
            return Err(structured_from_shell(ErrorKind::Environment, &err));
        },
    }
    let n = env_vars.len();
    let mut i: usize = 0;
    while i < n
        invariant
            i <= n,
            n == env_vars@.len(),
        decreases n - i,
    {
        let name = env_vars[i].0.clone();
        let value = env_vars[i].1.clone();
        interp::add_env_string(&mut engine_state, name, value);
        i = i + 1;
    }
    interp::add_env_string(&mut engine_state, "PWD".to_owned(), init_cwd);
    Ok((engine_state, stack))
}

} // verus!
