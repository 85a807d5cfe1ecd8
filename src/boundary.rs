use vstd::prelude::*;
use crate::model::{AgentTask, AgentResult, join_text};
use crate::registry::{Registry, Step, dispatch_step};

verus! {

pub open spec fn unknown_task_id() -> Seq<char> {
    "unknown"@
}

pub open spec fn parse_error_prefix() -> Seq<char> {
    "Failed to parse task JSON: "@
}

pub open spec fn unavailable_error() -> Seq<char> {
    "Agent registry unavailable"@
}

pub open spec fn script_kind() -> Seq<char> {
    "script"@
}

pub open spec fn greeting_prefix() -> Seq<char> {
    "Bifröst Agent System initialized. Input: "@
}

pub open spec fn invalid_input_text() -> Seq<char> {
    "invalid utf8"@
}

/// The result for a task text that could not be decoded, with the decoder's
/// message `message`.
pub fn parse_failure(message: &str) -> (r: AgentResult)
    ensures
        r.wf(),
        r.task_id@ == unknown_task_id(),
        !r.success,
        r.output@.len() == 0,
        r.error is Some,
        r.error.unwrap()@ == parse_error_prefix() + message@,
        r.execution_time_ms == 0,
{
    AgentResult {
        task_id: "unknown".to_owned(),
        success: false,
        output: String::new(),
        error: Some(join_text("Failed to parse task JSON: ", message)),
        execution_time_ms: 0,
    }
}

/// The result for `task` when the registry could not be acquired.
pub fn registry_unavailable(task: &AgentTask) -> (r: AgentResult)
    ensures
        r.wf(),
        r.task_id@ == task.id@,
        !r.success,
        r.output@.len() == 0,
        r.error is Some,
        r.error.unwrap()@ == unavailable_error(),
        r.execution_time_ms == 0,
{
    AgentResult {
        task_id: task.id.clone(),
        success: false,
        output: String::new(),
        error: Some("Agent registry unavailable".to_owned()),
        execution_time_ms: 0,
    }
}

/// Handles one decoded task text: a decode failure `Err(m)` finishes with
/// the parse-failure result; a task is dispatched on `registry`.
pub fn execute_agent_task(registry: &Registry, decoded: Result<AgentTask, String>) -> (s: Step)
    ensures
        match decoded {
            Err(m) => s matches Step::Done(r) && r.wf() && r.task_id@ == unknown_task_id()
                && !r.success && r.output@.len() == 0 && r.error is Some && r.error.unwrap()@
                == parse_error_prefix() + m@ && r.execution_time_ms == 0,
            Ok(t) => dispatch_step(registry.view(), t, s),
        },
{
    match decoded {
        Err(m) => Step::Done(parse_failure(m.as_str())),
        Ok(t) => registry.dispatch(&t),
    }
}

/// Relies on uuid::Uuid::new_v4 and its Display impl, which writes the
/// random version-4 id in the hyphenated form of 36 characters.
#[verifier::external_body]
fn fresh_task_id() -> (r: String)
    ensures
        r@.len() == 36,
{
    uuid::Uuid::new_v4().to_string()
}

/// A descriptor that runs `code` on the script backend, under a freshly
/// generated id, with no arguments and no environment.
pub fn script_task(code: String) -> (t: AgentTask)
    ensures
        t.wf(),
        t.id@.len() == 36,
        t.agent_type@ == script_kind(),
        t.command@ == code@,
        t.args@.len() == 0,
        t.environment@.len() == 0,
{
    AgentTask {
        id: fresh_task_id(),
        agent_type: "script".to_owned(),
        command: code,
        args: Vec::new(),
        environment: Vec::new(),
    }
}

/// The start-up greeting for an input text, or for input that was not
/// valid UTF-8 (`None`).
pub fn greeting(input: Option<&str>) -> (r: String)
    ensures
        r@ == greeting_prefix() + match input {
            Some(s) => s@,
            None => invalid_input_text(),
        },
{
    match input {
        Some(s) => join_text("Bifröst Agent System initialized. Input: ", s),
        None => join_text("Bifröst Agent System initialized. Input: ", "invalid utf8"),
    }
}

} // verus!
