use neuroplasticity::container::{first_probe, next_probe, no_engine_message, EngineStep, ProbeStage};
use neuroplasticity::manifest::{
    agent_timeout_secs, default_project_mount, default_provider, default_readonly,
    default_scratch_mount, evaluator_timeout_secs, project_mount, scratch_mount, Sandbox,
    WorkspaceConfig,
};
use neuroplasticity::runner::{
    agent_container_args, agent_timeout_message, container_name_for, docker_user_flag,
    is_user_home_target, new_container_name, new_run_id, volume_arg, ResolvedMount,
};

fn v(items: &[&str]) -> Vec<String> {
    items.iter().map(|s| s.to_string()).collect()
}

fn sandbox(setup: Option<Vec<String>>, workspace: Option<WorkspaceConfig>) -> Sandbox {
    Sandbox {
        engine: "podman".to_string(),
        base_image: "node:20-slim".to_string(),
        setup_script: setup,
        workspace,
        mounts: None,
        timeout_seconds: None,
    }
}

#[test]
fn manifest_defaults() {
    assert_eq!(default_project_mount(), "/project");
    assert_eq!(default_scratch_mount(), "/workspace");
    assert!(default_readonly());
    assert_eq!(default_provider(), "github");
    let s = sandbox(None, None);
    assert_eq!(scratch_mount(&s), "/workspace");
    assert_eq!(project_mount(&s), "/project");
    assert_eq!(evaluator_timeout_secs(&s), 60);
    assert_eq!(agent_timeout_secs(&s), 120);
    let mut t = sandbox(
        None,
        Some(WorkspaceConfig { project_mount: "/src".to_string(), scratch_mount: "/out".to_string() }),
    );
    t.timeout_seconds = Some(30);
    assert_eq!(scratch_mount(&t), "/out");
    assert_eq!(project_mount(&t), "/src");
    assert_eq!(evaluator_timeout_secs(&t), 30);
    assert_eq!(agent_timeout_secs(&t), 30);
}

fn found(step: EngineStep) -> Option<(String, bool)> {
    match step {
        EngineStep::Found { engine, is_podman } => Some((engine, is_podman)),
        _ => None,
    }
}

#[test]
fn preferred_engine_wins_when_installed() {
    let pref = Some("docker".to_string());
    match first_probe(&pref) {
        EngineStep::Probe { stage, command } => {
            assert_eq!(stage, ProbeStage::Preferred);
            assert_eq!(command, "docker");
        }
        _ => panic!(),
    }
    assert_eq!(found(next_probe(&pref, ProbeStage::Preferred, true)), Some(("docker".to_string(), false)));
    let pref = Some("podman".to_string());
    assert_eq!(found(next_probe(&pref, ProbeStage::Preferred, true)), Some(("podman".to_string(), true)));
}

#[test]
fn falls_back_to_podman_then_docker() {
    let pref = Some("nerdctl".to_string());
    match next_probe(&pref, ProbeStage::Preferred, false) {
        EngineStep::Probe { stage, command } => {
            assert_eq!(stage, ProbeStage::Podman);
            assert_eq!(command, "podman");
        }
        _ => panic!(),
    }
    match next_probe(&pref, ProbeStage::Podman, false) {
        EngineStep::Probe { stage, command } => {
            assert_eq!(stage, ProbeStage::Docker);
            assert_eq!(command, "docker");
        }
        _ => panic!(),
    }
    assert_eq!(found(next_probe(&pref, ProbeStage::Docker, true)), Some(("docker".to_string(), false)));
    assert!(matches!(next_probe(&pref, ProbeStage::Docker, false), EngineStep::NotFound));
    assert!(no_engine_message().starts_with("No container engine (Podman or Docker) found"));
}

#[test]
fn no_preference_starts_with_podman() {
    match first_probe(&None) {
        EngineStep::Probe { stage, command } => {
            assert_eq!(stage, ProbeStage::Podman);
            assert_eq!(command, "podman");
        }
        _ => panic!(),
    }
}

#[test]
fn container_names_and_run_ids() {
    assert_eq!(
        container_name_for("67e55044-10b1-426f-9247-bb680e5fe0c8"),
        "neuro-run-67e5504410b1426f9247bb680e5fe0c8"
    );
    let name = new_container_name();
    assert!(name.starts_with("neuro-run-"));
    assert_eq!(name.len(), 42);
    assert!(!name["neuro-run-".len()..].contains('-'));
    let id = new_run_id();
    assert_eq!(id.len(), 36);
    assert_eq!(id.matches('-').count(), 4);
}

#[test]
fn docker_user_mapping() {
    assert_eq!(docker_user_flag("1000\n", " 1000 "), Some("--user=1000:1000".to_string()));
    assert_eq!(docker_user_flag("", "1000"), None);
    assert_eq!(docker_user_flag("1000", "\n"), None);
}

#[test]
fn volumes() {
    assert_eq!(volume_arg("/home/u/.agentrc.json", "/user_home/.agentrc.json", true), "/home/u/.agentrc.json:/user_home/.agentrc.json:ro,Z");
    assert_eq!(volume_arg("/data", "/data", false), "/data:/data:Z");
    assert!(is_user_home_target("/user_home/.config/opencode"));
    assert!(!is_user_home_target("/root/.config"));
}

#[test]
fn agent_run_arguments_under_podman() {
    let s = sandbox(Some(v(&["npm install -g opencode-ai"])), None);
    let mounts = vec![ResolvedMount {
        source: "/home/u/.agentrc.json".to_string(),
        target: "/user_home/.agentrc.json".to_string(),
        readonly: true,
    }];
    let args = agent_container_args(
        true,
        "neuro-run-abc",
        &Some("--user=1:1".to_string()),
        ".",
        "/tmp/scratch",
        "/tmp/home",
        &s,
        &mounts,
        &v(&["bash", "-c", "cat rules.json > rules.txt && opencode 'go'"]),
    );
    assert_eq!(
        args,
        v(&[
            "run", "--rm", "--name", "neuro-run-abc", "--userns=keep-id",
            "--security-opt", "no-new-privileges",
            "-v", ".:/project:ro,Z",
            "-v", "/tmp/scratch:/workspace:rw,Z",
            "-v", "/tmp/home:/user_home:rw,Z",
            "-e", "HOME=/user_home",
            "-e", "NPM_CONFIG_PREFIX=/user_home/.npm-global",
            "-e", "PATH=/user_home/.local/bin:/user_home/.npm-global/bin:/usr/local/sbin:/usr/local/bin:/usr/sbin:/usr/bin:/sbin:/bin",
            "-e", "CI=true",
            "-e", "CONTINUOUS_INTEGRATION=1",
            "-e", "NONINTERACTIVE=1",
            "-e", "DEBIAN_FRONTEND=noninteractive",
            "-v", "/home/u/.agentrc.json:/user_home/.agentrc.json:ro,Z",
            "--workdir", "/workspace",
            "node:20-slim",
            "sh", "-c",
            "npm install -g opencode-ai && bash -c 'cat rules.json > rules.txt && opencode '\\''go'\\'''",
        ])
    );
}

#[test]
fn agent_run_arguments_under_docker() {
    let s = sandbox(None, Some(WorkspaceConfig { project_mount: "/p".to_string(), scratch_mount: "/s".to_string() }));
    let args = agent_container_args(false, "n", &Some("--user=1000:1000".to_string()), "/proj", "/scr", "/home", &s, &[], &v(&["opencode", "run"]));
    assert_eq!(&args[..5], &v(&["run", "--rm", "--name", "n", "--user=1000:1000"])[..]);
    assert_eq!(args[8], "/proj:/p:ro,Z");
    assert_eq!(args[10], "/scr:/s:rw,Z");
    assert_eq!(&args[args.len() - 5..], &v(&["--workdir", "/s", "node:20-slim", "opencode", "run"])[..]);
    let no_flag = agent_container_args(false, "n", &None, "/proj", "/scr", "/home", &s, &[], &v(&["x"]));
    assert_eq!(no_flag[4], "--security-opt");
}

#[test]
fn agent_timeout_report() {
    assert_eq!(agent_timeout_message(120), "ERROR: Agent execution timed out after 120 seconds.");
}
