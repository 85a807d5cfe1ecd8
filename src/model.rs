use vstd::prelude::*;

verus! {

/// A request to run one instruction on the backend selected by `agent_type`.
pub struct AgentTask {
    /// Caller-supplied or generated identifier, echoed in the result.
    pub id: String,
    /// Tag matched against each backend's capability predicate.
    pub agent_type: String,
    /// Instruction text interpreted by the backend.
    pub command: String,
    /// Ordered arguments, interpreted by the backend.
    pub args: Vec<String>,
    /// Name/value bindings handed to the backend; names are unique.
    pub environment: Vec<(String, String)>,
}

/// The outcome of one execution attempt.
pub struct AgentResult {
    pub task_id: String,
    pub success: bool,
    pub output: String,
    pub error: Option<String>,
    pub execution_time_ms: u64,
}

/// The names bound in an environment, in order.
pub open spec fn env_names(env: Seq<(String, String)>) -> Seq<Seq<char>> {
    env.map_values(|e: (String, String)| e.0@)
}

/// No name is bound twice.
pub open spec fn env_names_unique(env: Seq<(String, String)>) -> bool {
    forall|i: int, j: int|
        0 <= i < env.len() && 0 <= j < env.len() && i != j ==> env[i].0@ != env[j].0@
}

impl AgentTask {
    /// A descriptor that can be dispatched: a non-empty id and unique names.
    pub open spec fn wf(&self) -> bool {
        self.id@.len() > 0 && env_names_unique(self.environment@)
    }
}

impl AgentResult {
    /// A failed result always carries a diagnostic.
    pub open spec fn wf(&self) -> bool {
        self.error.is_none() ==> self.success
    }
}

/// Character-wise equality of two strings.
pub fn text_eq(a: &str, b: &str) -> (r: bool)
    ensures
        r == (a@ == b@),
{
    let n = a.unicode_len();
    let m = b.unicode_len();
    if n != m {
        return false;
    }
    let mut i: usize = 0;
    while i < n
        invariant
            n == a@.len(),
            m == b@.len(),
            n == m,
            i <= n,
            a@.subrange(0, i as int) == b@.subrange(0, i as int),
        decreases n - i,
    {
        if a.get_char(i) != b.get_char(i) {
            return false;
        }
        assert(a@.subrange(0, i + 1) == a@.subrange(0, i as int).push(a@[i as int]));
        assert(b@.subrange(0, i + 1) == b@.subrange(0, i as int).push(b@[i as int]));
        i = i + 1;
    }
    assert(a@ == a@.subrange(0, n as int));
    assert(b@ == b@.subrange(0, n as int));
    true
}

/// `prefix` followed by `rest`, as a new string.
pub fn join_text(prefix: &str, rest: &str) -> (r: String)
    ensures
        r@ == prefix@ + rest@,
{
    let mut s = prefix.to_owned();
    s.append(rest);
    s
}

} // verus!
verus! {

impl AgentResult {
    /// The same result, stamped with the wall-clock duration the dispatch
    /// layer measured around the backend call.
    pub fn timed(self, elapsed_ms: u64) -> (r: AgentResult)
        ensures
            r.task_id == self.task_id,
            r.success == self.success,
            r.output == self.output,
            r.error == self.error,
            r.execution_time_ms == elapsed_ms,
    {
        AgentResult { execution_time_ms: elapsed_ms, ..self }
    }
}

} // verus!
