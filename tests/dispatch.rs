use bifrost_core::agents::{Agent, PythonAgent, ShellOutput, SystemAgent, WasmAgent};
use bifrost_core::boundary::{execute_agent_task, parse_failure, registry_unavailable, script_task, greeting};
use bifrost_core::model::{AgentResult, AgentTask, text_eq, join_text};
use bifrost_core::registry::{init_agent_system, Registry, Step};

fn task(id: &str, kind: &str, command: &str) -> AgentTask {
    AgentTask {
        id: id.to_string(),
        agent_type: kind.to_string(),
        command: command.to_string(),
        args: Vec::new(),
        environment: Vec::new(),
    }
}

fn done(s: Step) -> AgentResult {
    match s {
        Step::Done(r) => r,
        _ => panic!("expected a finished step"),
    }
}

#[test]
fn capability_tags() {
    let p = PythonAgent::new();
    let w = WasmAgent::new();
    let s = SystemAgent;
    assert!(p.supports("script"));
    assert!(!p.supports("Script"));
    assert!(!p.supports("python"));
    assert!(w.supports("sandbox"));
    assert!(!w.supports("wasm"));
    assert!(s.supports("system"));
    assert!(s.supports("shell"));
    assert!(s.supports("bash"));
    assert!(!s.supports("sh"));
    assert!(!s.supports(""));
}

#[test]
fn text_helpers() {
    assert!(text_eq("abc", "abc"));
    assert!(!text_eq("abc", "abd"));
    assert!(!text_eq("abc", "ab"));
    assert!(text_eq("", ""));
    assert_eq!(join_text("ab", "cd"), "abcd");
}

#[test]
fn standard_registry_order() {
    let full = init_agent_system(true);
    assert_eq!(full.len(), 3);
    assert_eq!(full.select("script"), Some(0));
    assert_eq!(full.select("sandbox"), Some(1));
    assert_eq!(full.select("bash"), Some(2));
    let reduced = init_agent_system(false);
    assert_eq!(reduced.len(), 2);
    assert_eq!(reduced.select("script"), None);
    assert_eq!(reduced.select("shell"), Some(1));
}

#[test]
fn first_registered_wins() {
    let mut reg = Registry::new();
    reg.register(Agent::System(SystemAgent));
    reg.register(Agent::Wasm(WasmAgent));
    reg.register(Agent::System(SystemAgent));
    assert_eq!(reg.select("shell"), Some(0));
    assert_eq!(reg.select("sandbox"), Some(1));
    match reg.dispatch(&task("a", "bash", "true")) {
        Step::RunShell(_) => {}
        _ => panic!("shell task not routed to the shell backend"),
    }
    match reg.dispatch(&task("b", "script", "x = 1")) {
        Step::Done(r) => assert!(!r.success),
        _ => panic!("script task routed without a script backend"),
    }
}

#[test]
fn unrouted_kind_is_reported() {
    let reg = init_agent_system(true);
    let r = done(reg.dispatch(&task("t-9", "ruby", "puts 1")));
    assert_eq!(r.task_id, "t-9");
    assert!(!r.success);
    assert_eq!(r.output, "");
    assert_eq!(r.error.as_deref(), Some("No agent found for type: ruby"));
    assert!(r.error.unwrap().contains("ruby"));
    assert_eq!(r.execution_time_ms, 0);
}

#[test]
fn empty_registry_routes_nothing() {
    let reg = Registry::new();
    assert_eq!(reg.len(), 0);
    let r = done(reg.dispatch(&task("e", "shell", "ls")));
    assert!(!r.success);
    assert_eq!(r.error.as_deref(), Some("No agent found for type: shell"));
}

#[test]
fn sandbox_echoes_command() {
    let reg = init_agent_system(true);
    let r = done(reg.dispatch(&task("w1", "sandbox", "module.wasm")));
    assert_eq!(r.task_id, "w1");
    assert!(r.success);
    assert_eq!(r.output, "WASM agent executed: module.wasm");
    assert!(r.error.is_none());
}

#[test]
fn shell_echo_succeeds() {
    let reg = init_agent_system(true);
    let t = task("s1", "shell", "echo hi");
    let agent = match reg.dispatch(&t) {
        Step::RunShell(a) => a,
        _ => panic!("expected the shell backend"),
    };
    let out = ShellOutput { exit_ok: true, stdout: "hi\n".to_string(), stderr: String::new() };
    let r = agent.conclude(&t, Ok(out));
    assert!(r.success);
    assert!(r.output.contains("hi"));
    assert_eq!(r.output.trim_end(), "hi");
    assert!(r.error.is_none());
    assert_eq!(r.task_id, "s1");
}

#[test]
fn shell_exit_three_fails() {
    let t = task("s2", "bash", "exit 3");
    let out = ShellOutput { exit_ok: false, stdout: String::new(), stderr: String::new() };
    let r = SystemAgent.conclude(&t, Ok(out));
    assert!(!r.success);
    assert_eq!(r.error.as_deref(), Some("System command exited with a failure status"));
}

#[test]
fn shell_stderr_is_kept() {
    let t = task("s3", "system", "ls /nope");
    let out = ShellOutput { exit_ok: false, stdout: String::new(), stderr: "no such file\n".to_string() };
    let r = SystemAgent.conclude(&t, Ok(out));
    assert!(!r.success);
    assert_eq!(r.error.as_deref(), Some("no such file\n"));
    let out = ShellOutput { exit_ok: true, stdout: "x".to_string(), stderr: "warn".to_string() };
    let r = SystemAgent.conclude(&t, Ok(out));
    assert!(r.success);
    assert_eq!(r.output, "x");
    assert_eq!(r.error.as_deref(), Some("warn"));
}

#[test]
fn shell_spawn_failure() {
    let t = task("s4", "shell", "true");
    let r = SystemAgent.conclude(&t, Err("permission denied".to_string()));
    assert!(!r.success);
    assert_eq!(r.output, "");
    assert_eq!(r.error.as_deref(), Some("System command error: permission denied"));
}

#[test]
fn script_outcomes() {
    let t = task("p1", "script", "__result__ = 6 * 7");
    let r = PythonAgent::new().conclude(&t, Ok(Some("42".to_string())));
    assert!(r.success);
    assert_eq!(r.output, "42");
    assert!(r.error.is_none());
    let r = PythonAgent::new().conclude(&t, Ok(None));
    assert!(r.success);
    assert_eq!(r.output, "Python code executed successfully");
    let r = PythonAgent::new().conclude(&t, Err("NameError: name 'y' is not defined".to_string()));
    assert!(!r.success);
    assert_eq!(r.output, "");
    assert_eq!(r.error.as_deref(), Some("Python error: NameError: name 'y' is not defined"));
    assert_eq!(r.task_id, "p1");
}

#[test]
fn malformed_input_is_unknown() {
    let reg = init_agent_system(true);
    let r = done(execute_agent_task(&reg, Err("expected value at line 1 column 1".to_string())));
    assert_eq!(r.task_id, "unknown");
    assert!(!r.success);
    assert_eq!(r.error.as_deref(), Some("Failed to parse task JSON: expected value at line 1 column 1"));
    assert_eq!(r.execution_time_ms, 0);
    let r = parse_failure("");
    assert_eq!(r.task_id, "unknown");
    assert_eq!(r.error.as_deref(), Some("Failed to parse task JSON: "));
}

#[test]
fn decoded_task_is_dispatched() {
    let reg = init_agent_system(true);
    let r = done(execute_agent_task(&reg, Ok(task("d1", "sandbox", "m"))));
    assert_eq!(r.task_id, "d1");
    assert!(r.success);
    match execute_agent_task(&reg, Ok(task("d2", "script", "pass"))) {
        Step::RunScript(_) => {}
        _ => panic!("expected the script backend"),
    }
}

#[test]
fn result_is_stamped() {
    let t = task("s5", "shell", "true");
    let out = ShellOutput { exit_ok: true, stdout: String::new(), stderr: String::new() };
    let r = SystemAgent.conclude(&t, Ok(out)).timed(17);
    assert_eq!(r.execution_time_ms, 17);
    assert!(r.success);
    assert_eq!(r.task_id, "s5");
}

#[test]
fn unavailable_registry_result() {
    let r = registry_unavailable(&task("u1", "shell", "true"));
    assert_eq!(r.task_id, "u1");
    assert!(!r.success);
    assert_eq!(r.error.as_deref(), Some("Agent registry unavailable"));
}

#[test]
fn script_tasks_get_distinct_ids() {
    let a = script_task("print(1)".to_string());
    let b = script_task("print(1)".to_string());
    assert_eq!(a.id.chars().count(), 36);
    assert_ne!(a.id, b.id);
    assert_eq!(a.agent_type, "script");
    assert_eq!(a.command, "print(1)");
    assert!(a.args.is_empty());
    assert!(a.environment.is_empty());
}

#[test]
fn distinct_ids_echoed_per_task() {
    let reg = init_agent_system(true);
    for i in 0..16 {
        let id = format!("job-{}", i);
        let r = done(reg.dispatch(&task(&id, "sandbox", "m")));
        assert_eq!(r.task_id, id);
    }
}

#[test]
fn greeting_text() {
    assert_eq!(greeting(Some("ping")), "Bifröst Agent System initialized. Input: ping");
    assert_eq!(greeting(None), "Bifröst Agent System initialized. Input: invalid utf8");
}
