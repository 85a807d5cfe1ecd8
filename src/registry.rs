use vstd::prelude::*;
use crate::model::{AgentTask, AgentResult, join_text};
use crate::agents::{Agent, PythonAgent, WasmAgent, SystemAgent, supports, wasm_output_prefix};

verus! {

/// The ordered collection of registered backends. Registration order is the
/// tie-break for routing: the first backend that claims a kind gets it.
pub struct Registry {
    agents: Vec<Agent>,
}

/// What dispatch decided for a task: a finished result, or a backend whose
/// outside work the caller performs before concluding with that backend.
pub enum Step {
    Done(AgentResult),
    RunScript(PythonAgent),
    RunShell(SystemAgent),
}

/// `i` is the first position in `agents` whose backend claims `kind`.
pub open spec fn is_first_match(agents: Seq<Agent>, kind: Seq<char>, i: int) -> bool {
    &&& 0 <= i < agents.len()
    &&& supports(agents[i], kind)
    &&& forall|j: int| 0 <= j < i ==> !supports(#[trigger] agents[j], kind)
}

/// The position of the backend that a task of `kind` is routed to, if any.
pub open spec fn routed(agents: Seq<Agent>, kind: Seq<char>) -> Option<int> {
    if exists|i: int| is_first_match(agents, kind, i) {
        Some(choose|i: int| is_first_match(agents, kind, i))
    } else {
        None
    }
}

pub open spec fn unrouted_prefix() -> Seq<char> {
    "No agent found for type: "@
}

/// Diagnostic of a routing failure for `kind`.
pub open spec fn unrouted_error(kind: Seq<char>) -> Seq<char> {
    unrouted_prefix() + kind
}

/// `r` is the result that dispatching `task` to `agents` finishes with at
/// once: the routing failure, or the sandbox placeholder's echo.
pub open spec fn finished_result(agents: Seq<Agent>, task: AgentTask, r: AgentResult) -> bool {
    match routed(agents, task.agent_type@) {
        None => {
            &&& r.task_id@ == task.id@
            &&& !r.success
            &&& r.output@.len() == 0
            &&& r.error is Some
            &&& r.error.unwrap()@ == unrouted_error(task.agent_type@)
            &&& r.execution_time_ms == 0
        },
        Some(i) => {
            &&& agents[i] is Wasm
            &&& r.task_id@ == task.id@
            &&& r.success
            &&& r.error.is_none()
            &&& r.output@ == wasm_output_prefix() + task.command@
            &&& r.execution_time_ms == 0
        },
    }
}

/// The step that dispatching `task` to `agents` yields.
pub open spec fn dispatch_step(agents: Seq<Agent>, task: AgentTask, s: Step) -> bool {
    match s {
        Step::Done(r) => r.wf() && finished_result(agents, task, r),
        Step::RunScript(a) => {
            &&& routed(agents, task.agent_type@) is Some
            &&& agents[routed(agents, task.agent_type@)->0] == Agent::Python(a)
        },
        Step::RunShell(a) => {
            &&& routed(agents, task.agent_type@) is Some
            &&& agents[routed(agents, task.agent_type@)->0] == Agent::System(a)
        },
    }
}

/// A first match is unique: where backend `i` is the first in registration
/// order to claim `kind`, a task of that kind is routed to `i` and to no
/// other backend.
pub proof fn lemma_first_match_is_routed(agents: Seq<Agent>, kind: Seq<char>, i: int)
    requires
        is_first_match(agents, kind, i),
    ensures
        routed(agents, kind) == Some(i),
        forall|j: int| j != i ==> !is_first_match(agents, kind, j),
{
    assert forall|j: int| j != i implies !is_first_match(agents, kind, j) by {
        if is_first_match(agents, kind, j) {
            if j < i {
                assert(!supports(agents[j], kind));
            } else {
                assert(!supports(agents[i], kind));
            }
        }
    }
    let k = choose|k: int| is_first_match(agents, kind, k);
    assert(k == i);
}

/// Where no registered backend claims `kind`, nothing is routed, and the
/// failed result names the kind: it holds `kind` as a contiguous part.
pub proof fn lemma_unrouted_names_kind(agents: Seq<Agent>, kind: Seq<char>)
    requires
        forall|j: int| 0 <= j < agents.len() ==> !supports(#[trigger] agents[j], kind),
    ensures
        routed(agents, kind) is None,
        exists|k: int|
            0 <= k && k + kind.len() <= unrouted_error(kind).len()
                && #[trigger] unrouted_error(kind).subrange(k, k + kind.len()) == kind,
{
    assert(!exists|i: int| is_first_match(agents, kind, i));
    let e = unrouted_error(kind);
    let k = unrouted_prefix().len() as int;
    assert(e.subrange(k, k + kind.len()) =~= kind);
}

/// A dispatch never mixes tasks up: a result it finishes with carries the
/// id of the task it was given, whatever the registry holds, so callers
/// dispatching distinct tasks each get their own id back.
pub proof fn lemma_finished_result_echoes_id(agents: Seq<Agent>, task: AgentTask, r: AgentResult)
    requires
        dispatch_step(agents, task, Step::Done(r)),
    ensures
        r.task_id@ == task.id@,
        r.wf(),
{
}

impl Registry {
    pub closed spec fn view(&self) -> Seq<Agent> {
        self.agents@
    }

    /// A registry with no backend.
    pub fn new() -> (r: Registry)
        ensures
            r.view() == Seq::<Agent>::empty(),
    {
        Registry { agents: Vec::new() }
    }

    /// Adds `agent` after every backend registered so far.
    pub fn register(&mut self, agent: Agent)
        ensures
            final(self).view() == old(self).view().push(agent),
    {
        self.agents.push(agent);
    }

    pub fn len(&self) -> (r: usize)
        ensures
            r == self.view().len(),
    {
        self.agents.len()
    }

    /// The position of the first backend, in registration order, that
    /// claims `agent_type`.
    pub fn select(&self, agent_type: &str) -> (r: Option<usize>)
        ensures
            match r {
                Some(i) => routed(self.view(), agent_type@) == Some(i as int),
                None => routed(self.view(), agent_type@) is None,
            },
    {
        let n = self.agents.len();
        let mut i: usize = 0;
        while i < n
            invariant
                n == self.agents@.len(),
                i <= n,
                forall|j: int| 0 <= j < i ==> !supports(#[trigger] self.agents@[j], agent_type@),
            decreases n - i,
        {
            if self.agents[i].supports(agent_type) {
                proof {
                    lemma_first_match_is_routed(self.agents@, agent_type@, i as int);
                }
                return Some(i);
            }
            i = i + 1;
        }
        proof {
            lemma_unrouted_names_kind(self.agents@, agent_type@);
        }
        None
    }

    /// Routes `task` to the first backend that claims its kind. A task that
    /// no backend claims, or one that goes to the sandbox placeholder, is
    /// finished here; for the script and shell backends the caller runs the
    /// outside work and concludes with the backend returned.
    pub fn dispatch(&self, task: &AgentTask) -> (s: Step)
        ensures
            dispatch_step(self.view(), *task, s),
    {
        match self.select(task.agent_type.as_str()) {
            None => {
                let r = AgentResult {
                    task_id: task.id.clone(),
                    success: false,
                    output: String::new(),
                    error: Some(join_text("No agent found for type: ", task.agent_type.as_str())),
                    execution_time_ms: 0,
                };
                Step::Done(r)
            },
            Some(i) => match self.agents[i] {
                Agent::Python(a) => Step::RunScript(a),
                Agent::Wasm(a) => Step::Done(a.execute(task)),
                Agent::System(a) => Step::RunShell(a),
            },
        }
    }
}

/// The registry of a started process: the script backend where its runtime
/// came up, then the sandbox backend, then the shell backend.
pub fn init_agent_system(script_runtime_ready: bool) -> (r: Registry)
    ensures
        r.view() == if script_runtime_ready {
            seq![Agent::Python(PythonAgent), Agent::Wasm(WasmAgent), Agent::System(SystemAgent)]
        } else {
            seq![Agent::Wasm(WasmAgent), Agent::System(SystemAgent)]
        },
{
    let mut r = Registry::new();
    if script_runtime_ready {
        r.register(Agent::Python(PythonAgent::new()));
    }
    r.register(Agent::Wasm(WasmAgent::new()));
    r.register(Agent::System(SystemAgent));
    proof {
        if script_runtime_ready {
            assert(r.view() =~= seq![Agent::Python(PythonAgent), Agent::Wasm(WasmAgent), Agent::System(SystemAgent)]);
        } else {
            assert(r.view() =~= seq![Agent::Wasm(WasmAgent), Agent::System(SystemAgent)]);
        }
    }
    r
}

} // verus!
