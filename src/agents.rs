use vstd::prelude::*;
use crate::model::{AgentTask, AgentResult, text_eq, join_text};

verus! {

/// Runs `command` as script source in a fresh namespace per call.
#[derive(Clone, Copy, PartialEq, Eq, Structural)]
pub struct PythonAgent;

/// Placeholder for a sandboxed bytecode runtime: it accepts every task and
/// echoes its command; it gives no isolation.
#[derive(Clone, Copy, PartialEq, Eq, Structural)]
pub struct WasmAgent;

/// Runs `command` as one host shell invocation.
#[derive(Clone, Copy, PartialEq, Eq, Structural)]
pub struct SystemAgent;

/// The known backends, as registered in a registry.
#[derive(Clone, Copy, PartialEq, Eq, Structural)]
pub enum Agent {
    Python(PythonAgent),
    Wasm(WasmAgent),
    System(SystemAgent),
}

/// What a host shell run handed back: whether the exit status was zero and
/// the captured streams, decoded as text.
pub struct ShellOutput {
    pub exit_ok: bool,
    pub stdout: String,
    pub stderr: String,
}

pub open spec fn python_supports(kind: Seq<char>) -> bool {
    kind == "script"@
}

pub open spec fn wasm_supports(kind: Seq<char>) -> bool {
    kind == "sandbox"@
}

pub open spec fn system_supports(kind: Seq<char>) -> bool {
    kind == "system"@ || kind == "shell"@ || kind == "bash"@
}

/// The capability predicate of each backend over a kind tag.
pub open spec fn supports(a: Agent, kind: Seq<char>) -> bool {
    match a {
        Agent::Python(_) => python_supports(kind),
        Agent::Wasm(_) => wasm_supports(kind),
        Agent::System(_) => system_supports(kind),
    }
}

pub open spec fn python_default_output() -> Seq<char> {
    "Python code executed successfully"@
}

pub open spec fn python_error_prefix() -> Seq<char> {
    "Python error: "@
}

pub open spec fn wasm_output_prefix() -> Seq<char> {
    "WASM agent executed: "@
}

pub open spec fn system_error_prefix() -> Seq<char> {
    "System command error: "@
}

pub open spec fn system_status_error() -> Seq<char> {
    "System command exited with a failure status"@
}

impl PythonAgent {
    pub fn new() -> (r: PythonAgent) {
        PythonAgent
    }

    pub fn supports(&self, agent_type: &str) -> (r: bool)
        ensures
            r == python_supports(agent_type@),
    {
        text_eq(agent_type, "script")
    }

    /// Turns what the interpreter reported into a result: `Ok(Some(v))` when
    /// the script set its result variable to `v`, `Ok(None)` when it ran
    /// without setting it, `Err(m)` when it raised `m`.
    pub fn conclude(&self, task: &AgentTask, outcome: Result<Option<String>, String>) -> (r:
        AgentResult)
        ensures
            r.wf(),
            r.task_id@ == task.id@,
            r.execution_time_ms == 0,
            r.success == outcome.is_ok(),
            match outcome {
                Ok(Some(v)) => r.output@ == v@ && r.error.is_none(),
                Ok(None) => r.output@ == python_default_output() && r.error.is_none(),
                Err(m) => r.output@.len() == 0 && r.error.is_some() && r.error.unwrap()@
                    == python_error_prefix() + m@,
            },
    {
        match outcome {
            Ok(Some(v)) => AgentResult {
                task_id: task.id.clone(),
                success: true,
                output: v,
                error: None,
                execution_time_ms: 0,
            },
            Ok(None) => AgentResult {
                task_id: task.id.clone(),
                success: true,
                output: "Python code executed successfully".to_owned(),
                error: None,
                execution_time_ms: 0,
            },
            Err(m) => AgentResult {
                task_id: task.id.clone(),
                success: false,
                output: String::new(),
                error: Some(join_text("Python error: ", m.as_str())),
                execution_time_ms: 0,
            },
        }
    }
}

impl WasmAgent {
    pub fn new() -> (r: WasmAgent) {
        WasmAgent
    }

    pub fn supports(&self, agent_type: &str) -> (r: bool)
        ensures
            r == wasm_supports(agent_type@),
    {
        text_eq(agent_type, "sandbox")
    }

    /// Accepts the task and echoes its command; never fails.
    pub fn execute(&self, task: &AgentTask) -> (r: AgentResult)
        ensures
            r.wf(),
            r.task_id@ == task.id@,
            r.success,
            r.error.is_none(),
            r.output@ == wasm_output_prefix() + task.command@,
            r.execution_time_ms == 0,
    {
        AgentResult {
            task_id: task.id.clone(),
            success: true,
            output: join_text("WASM agent executed: ", task.command.as_str()),
            error: None,
            execution_time_ms: 0,
        }
    }
}

impl SystemAgent {
    pub fn supports(&self, agent_type: &str) -> (r: bool)
        ensures
            r == system_supports(agent_type@),
    {
        text_eq(agent_type, "system") || text_eq(agent_type, "shell") || text_eq(agent_type, "bash")
    }

    /// Turns a shell run into a result: `Ok` when the process ran, `Err(m)`
    /// when it could not be started for reason `m`.
    pub fn conclude(&self, task: &AgentTask, outcome: Result<ShellOutput, String>) -> (r:
        AgentResult)
        ensures
            r.wf(),
            r.task_id@ == task.id@,
            r.execution_time_ms == 0,
            match outcome {
                Ok(out) => {
                    &&& r.success == out.exit_ok
                    &&& r.output@ == out.stdout@
                    &&& if out.stderr@.len() > 0 {
                        r.error.is_some() && r.error.unwrap()@ == out.stderr@
                    } else if out.exit_ok {
                        r.error.is_none()
                    } else {
                        r.error.is_some() && r.error.unwrap()@ == system_status_error()
                    }
                },
                Err(m) => {
                    &&& !r.success
                    &&& r.output@.len() == 0
                    &&& r.error.is_some()
                    &&& r.error.unwrap()@ == system_error_prefix() + m@
                },
            },
    {
        match outcome {
            Ok(out) => {
                let error = if out.stderr.as_str().unicode_len() > 0 {
                    Some(out.stderr)
                } else if out.exit_ok {
                    None
                } else {
                    Some("System command exited with a failure status".to_owned())
                };
                AgentResult {
                    task_id: task.id.clone(),
                    success: out.exit_ok,
                    output: out.stdout,
                    error,
                    execution_time_ms: 0,
                }
            },
            Err(m) => AgentResult {
                task_id: task.id.clone(),
                success: false,
                output: String::new(),
                error: Some(join_text("System command error: ", m.as_str())),
                execution_time_ms: 0,
            },
        }
    }
}

impl Agent {
    pub fn supports(&self, agent_type: &str) -> (r: bool)
        ensures
            r == supports(*self, agent_type@),
    {
        match self {
            Agent::Python(a) => a.supports(agent_type),
            Agent::Wasm(a) => a.supports(agent_type),
            Agent::System(a) => a.supports(agent_type),
        }
    }
}

} // verus!
