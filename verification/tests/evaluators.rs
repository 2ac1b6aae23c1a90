use neuroplasticity::evaluator::{
    command_report, container_evaluator_args, container_missing_fields, evaluator_timeout_message,
    failure_message, llm_concurrency, llm_grade, llm_grader_system_prompt, llm_grader_user_prompt,
    llm_missing_fields, missing_target_message, plan_host_bash, unreadable_target_message,
    HostBashPlan, SYSTEM_CONCURRENCY,
};

fn v(items: &[&str]) -> Vec<String> {
    items.iter().map(|s| s.to_string()).collect()
}

fn rejection(script: Option<Vec<String>>) -> String {
    match plan_host_bash(&script) {
        HostBashPlan::Reject { message } => message,
        HostBashPlan::Run { .. } => panic!("expected a rejection"),
    }
}

#[test]
fn host_bash_missing_or_empty_script() {
    assert_eq!(rejection(None), "Missing 'script' for host_bash evaluator");
    assert_eq!(rejection(Some(vec![])), "Empty host_bash script array");
}

#[test]
fn host_bash_allowlisted_command_runs() {
    match plan_host_bash(&Some(v(&["jq", ".", "/workspace/summary.json"]))) {
        HostBashPlan::Run { program, args } => {
            assert_eq!(program, "jq");
            assert_eq!(args, v(&[".", "/workspace/summary.json"]));
        }
        HostBashPlan::Reject { message } => panic!("{}", message),
    }
    match plan_host_bash(&Some(v(&["/usr/bin/grep", "-q", "x"]))) {
        HostBashPlan::Run { program, args } => {
            assert_eq!(program, "/usr/bin/grep");
            assert_eq!(args, v(&["-q", "x"]));
        }
        HostBashPlan::Reject { message } => panic!("{}", message),
    }
}

#[test]
fn host_bash_runs_shell_scripts() {
    let script = v(&["bash", "-c", "jq . /workspace/summary.json || (echo 'Output is not valid JSON!' >&2; exit 1)"]);
    match plan_host_bash(&Some(script.clone())) {
        HostBashPlan::Run { program, args } => {
            assert_eq!(program, "bash");
            assert_eq!(args, script[1..].to_vec());
        }
        HostBashPlan::Reject { message } => panic!("{}", message),
    }
    assert!(matches!(plan_host_bash(&Some(v(&["/bin/sh", "-c", "exit 0"]))), HostBashPlan::Run { .. }));
}

#[test]
fn host_bash_refuses_other_commands() {
    assert_eq!(
        rejection(Some(v(&["python3", "-c", "print(1)"]))),
        "Security Exception: host_bash command 'python3' is not in the system allowlist. Evaluators must use container environment for arbitrary execution."
    );
    assert_eq!(
        rejection(Some(v(&["./git"]))),
        "Security Exception: host_bash command './git' is not in the system allowlist. Evaluators must use container environment for arbitrary execution."
    );
    assert_eq!(
        rejection(Some(v(&["/opt/tools.d/git", "status"]))),
        "Security Exception: host_bash command cannot be a relative file execution."
    );
}

#[test]
fn container_evaluator_under_podman_with_setup() {
    let args = container_evaluator_args(
        true,
        "/tmp/scratch",
        "/workspace",
        "python:3.12-slim",
        &v(&["python", "-c", "import ast; ast.parse(open('/workspace/output.py').read())"]),
        &Some(v(&["pip install astroid"])),
    );
    assert_eq!(
        args,
        v(&[
            "run",
            "--rm",
            "--userns=keep-id",
            "--security-opt",
            "no-new-privileges",
            "-v",
            "/tmp/scratch:/workspace:ro,Z",
            "--workdir",
            "/workspace",
            "python:3.12-slim",
            "sh",
            "-c",
            "pip install astroid && python -c 'import ast; ast.parse(open('\\''/workspace/output.py'\\'').read())'",
        ])
    );
}

#[test]
fn container_evaluator_under_docker_without_setup() {
    let args = container_evaluator_args(
        false,
        "/w",
        "/scratch",
        "node:20",
        &v(&["npm", "test"]),
        &Some(vec![]),
    );
    assert_eq!(
        args,
        v(&[
            "run", "--rm", "--security-opt", "no-new-privileges", "-v", "/w:/scratch:ro,Z",
            "--workdir", "/scratch", "node:20", "npm", "test",
        ])
    );
}

#[test]
fn missing_fields_messages() {
    assert_eq!(
        container_missing_fields(&None, &Some(vec![])).unwrap(),
        "Missing 'image' or 'command' for container evaluator"
    );
    assert!(container_missing_fields(&Some("img".to_string()), &Some(vec![])).is_none());
    assert_eq!(
        llm_missing_fields(&Some("p".to_string()), &None).unwrap(),
        "Missing 'prompt' or 'target_file' for llm evaluator"
    );
    assert!(llm_missing_fields(&Some("p".to_string()), &Some("f".to_string())).is_none());
}

#[test]
fn llm_grades() {
    assert!(llm_grade("PASS"));
    assert!(llm_grade("  \nPASS: no pronouns"));
    assert!(!llm_grade("FAIL: uses I"));
    assert!(!llm_grade("The answer is PASS"));
    assert!(!llm_grade("pass"));
    assert!(!llm_grade(""));
}

#[test]
fn llm_prompts() {
    assert!(llm_grader_system_prompt().starts_with("You are an automated evaluator."));
    assert_eq!(
        llm_grader_user_prompt("No pronouns", "/workspace/summary.json", "{}"),
        "Evaluation Prompt:\nNo pronouns\n\nTarget Document (/workspace/summary.json):\n{}"
    );
    assert_eq!(missing_target_message("a.txt"), "Target file does not exist: a.txt");
    assert_eq!(unreadable_target_message("a.txt"), "Failed to read target file: a.txt");
}

#[test]
fn concurrency_limits() {
    assert_eq!(llm_concurrency("embedded"), 1);
    assert_eq!(llm_concurrency("github"), 10);
    assert_eq!(SYSTEM_CONCURRENCY, 8);
}

#[test]
fn reports_and_timeouts() {
    assert_eq!(command_report("boom", "ok"), "boom");
    assert_eq!(command_report("", "ok"), "ok");
    assert_eq!(evaluator_timeout_message(60), "Evaluator timed out after 60s");
    assert_eq!(failure_message("LLM Error: ", "offline"), "LLM Error: offline");
}
