//! The sandbox and optimiser settings of a `plasticity.json` manifest,
//! with the defaults that a manifest may leave out.

use vstd::prelude::*;
use vstd::string::*;

verus! {

/// Where the project and the scratch directory appear inside a container.
#[derive(Clone, Debug)]
pub struct WorkspaceConfig {
    pub project_mount: String,
    pub scratch_mount: String,
}

/// A host path made visible inside the agent's container.
#[derive(Clone, Debug)]
pub struct MountConfig {
    pub source: String,
    pub target: String,
    pub readonly: bool,
}

/// How the agent's container is built and run.
#[derive(Clone, Debug)]
pub struct Sandbox {
    pub engine: String,
    pub base_image: String,
    pub setup_script: Option<Vec<String>>,
    pub workspace: Option<WorkspaceConfig>,
    pub mounts: Option<Vec<MountConfig>>,
    pub timeout_seconds: Option<u64>,
}

/// The model that writes new rules and grades `llm` evaluators.
#[derive(Clone, Debug)]
pub struct MetaLlmConfig {
    pub provider: String,
    pub model: String,
    pub base_url: Option<String>,
    pub api_key_env: Option<String>,
    pub model_path: Option<String>,
}

/// Default mount point of the read-only project.
pub fn default_project_mount() -> (r: String)
    ensures
        r@ == "/project"@,
{
    String::from_str("/project")
}

/// Default mount point of the read-write scratch directory.
pub fn default_scratch_mount() -> (r: String)
    ensures
        r@ == "/workspace"@,
{
    String::from_str("/workspace")
}

/// Mounts are read-only unless the manifest says otherwise.
pub fn default_readonly() -> (r: bool)
    ensures
        r == true,
{
    true
}

/// Default optimiser provider.
pub fn default_provider() -> (r: String)
    ensures
        r@ == "github"@,
{
    String::from_str("github")
}

/// The scratch mount point a sandbox uses.
pub open spec fn scratch_mount_of(s: Sandbox) -> Seq<char> {
    match s.workspace {
        Some(w) => w.scratch_mount@,
        None => "/workspace"@,
    }
}

/// The project mount point a sandbox uses.
pub open spec fn project_mount_of(s: Sandbox) -> Seq<char> {
    match s.workspace {
        Some(w) => w.project_mount@,
        None => "/project"@,
    }
}

/// The scratch mount point: the configured one, else `/workspace`.
pub fn scratch_mount(sandbox: &Sandbox) -> (r: String)
    ensures
        r@ == scratch_mount_of(*sandbox),
{
    match &sandbox.workspace {
        Some(w) => w.scratch_mount.clone(),
        None => String::from_str("/workspace"),
    }
}

/// The project mount point: the configured one, else `/project`.
pub fn project_mount(sandbox: &Sandbox) -> (r: String)
    ensures
        r@ == project_mount_of(*sandbox),
{
    match &sandbox.workspace {
        Some(w) => w.project_mount.clone(),
        None => String::from_str("/project"),
    }
}

/// Seconds an evaluator may run: the configured timeout, else 60.
pub fn evaluator_timeout_secs(sandbox: &Sandbox) -> (r: u64)
    ensures
        r == match sandbox.timeout_seconds {
            Some(t) => t,
            None => 60,
        },
{
    match sandbox.timeout_seconds {
        Some(t) => t,
        None => 60,
    }
}

/// Seconds the agent may run: the configured timeout, else 120.
pub fn agent_timeout_secs(sandbox: &Sandbox) -> (r: u64)
    ensures
        r == match sandbox.timeout_seconds {
            Some(t) => t,
            None => 120,
        },
{
    match sandbox.timeout_seconds {
        Some(t) => t,
        None => 120,
    }
}

} // verus!
