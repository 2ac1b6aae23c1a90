//! Choosing a container engine: the preferred one where it is installed,
//! else podman, else docker. The probing itself (`which <engine>`) is done
//! by the caller; this module decides what to probe next and what the
//! answers mean.

use vstd::prelude::*;
use vstd::string::*;
use crate::text::{str_eq, opt_string_view};

verus! {

/// Which candidate a probe is about.
#[derive(Clone, Copy, Debug, PartialEq, Eq, Structural)]
pub enum ProbeStage {
    Preferred,
    Podman,
    Docker,
}

/// What the caller does next.
pub enum EngineStep {
    /// Check whether `command` is installed, then report the answer for `stage`.
    Probe { stage: ProbeStage, command: String },
    /// Use `engine`; `is_podman` says whether it is podman.
    Found { engine: String, is_podman: bool },
    /// No engine is installed.
    NotFound,
}

/// The spec view of a step.
pub enum EngineStepView {
    Probe { stage: ProbeStage, command: Seq<char> },
    Found { engine: Seq<char>, is_podman: bool },
    NotFound,
}

impl View for EngineStep {
    type V = EngineStepView;

    open spec fn view(&self) -> EngineStepView {
        match self {
            EngineStep::Probe { stage, command } => EngineStepView::Probe {
                stage: *stage,
                command: command@,
            },
            EngineStep::Found { engine, is_podman } => EngineStepView::Found {
                engine: engine@,
                is_podman: *is_podman,
            },
            EngineStep::NotFound => EngineStepView::NotFound,
        }
    }
}

/// The first probe: the preferred engine where one is named, else podman.
pub open spec fn first_probe_spec(preferred: Option<Seq<char>>) -> EngineStepView {
    match preferred {
        Some(e) => EngineStepView::Probe { stage: ProbeStage::Preferred, command: e },
        None => EngineStepView::Probe { stage: ProbeStage::Podman, command: "podman"@ },
    }
}

/// The step after learning whether the candidate of `stage` is installed.
pub open spec fn next_probe_spec(
    preferred: Option<Seq<char>>,
    stage: ProbeStage,
    available: bool,
) -> EngineStepView {
    match stage {
        ProbeStage::Preferred => if available && preferred is Some {
            EngineStepView::Found {
                engine: preferred->0,
                is_podman: preferred->0 == "podman"@,
            }
        } else {
            EngineStepView::Probe { stage: ProbeStage::Podman, command: "podman"@ }
        },
        ProbeStage::Podman => if available {
            EngineStepView::Found { engine: "podman"@, is_podman: true }
        } else {
            EngineStepView::Probe { stage: ProbeStage::Docker, command: "docker"@ }
        },
        ProbeStage::Docker => if available {
            EngineStepView::Found { engine: "docker"@, is_podman: false }
        } else {
            EngineStepView::NotFound
        },
    }
}

/// The first engine to probe.
pub fn first_probe(preferred: &Option<String>) -> (r: EngineStep)
    ensures
        r@ == first_probe_spec(opt_string_view(*preferred)),
{
    match preferred {
        Some(e) => EngineStep::Probe { stage: ProbeStage::Preferred, command: e.clone() },
        None => EngineStep::Probe {
            stage: ProbeStage::Podman,
            command: String::from_str("podman"),
        },
    }
}

/// The step that follows the answer of a probe.
pub fn next_probe(preferred: &Option<String>, stage: ProbeStage, available: bool) -> (r:
    EngineStep)
    ensures
        r@ == next_probe_spec(opt_string_view(*preferred), stage, available),
{
    match stage {
        ProbeStage::Preferred => {
            match preferred {
                Some(e) => {
                    if available {
                        let is_podman = str_eq(e.as_str(), "podman");
                        return EngineStep::Found { engine: e.clone(), is_podman };
                    }
                },
                None => {},
            }
            EngineStep::Probe { stage: ProbeStage::Podman, command: String::from_str("podman") }
        },
        ProbeStage::Podman => {
            if available {
                EngineStep::Found { engine: String::from_str("podman"), is_podman: true }
            } else {
                EngineStep::Probe {
                    stage: ProbeStage::Docker,
                    command: String::from_str("docker"),
                }
            }
        },
        ProbeStage::Docker => {
            if available {
                EngineStep::Found { engine: String::from_str("docker"), is_podman: false }
            } else {
                EngineStep::NotFound
            }
        },
    }
}

/// The error reported where no engine is installed.
pub fn no_engine_message() -> (r: String)
    ensures
        r@
            == "No container engine (Podman or Docker) found on this system.\nNeuroPlasticity requires an engine to run isolated sandboxes.\n\nPlease install Podman:\nUbuntu/Debian: sudo apt-get install podman\nmacOS: brew install podman\nWindows/Docs: https://podman.io/docs/installation"@,
{
    String::from_str(
        "No container engine (Podman or Docker) found on this system.\nNeuroPlasticity requires an engine to run isolated sandboxes.\n\nPlease install Podman:\nUbuntu/Debian: sudo apt-get install podman\nmacOS: brew install podman\nWindows/Docs: https://podman.io/docs/installation",
    )
}

/// Runs the probing steps against fixed answers (`installed(c)` says
/// whether command `c` is installed), for at most `fuel` probes.
pub open spec fn drive(
    preferred: Option<Seq<char>>,
    step: EngineStepView,
    installed: spec_fn(Seq<char>) -> bool,
    fuel: nat,
) -> EngineStepView
    decreases fuel,
{
    match step {
        EngineStepView::Probe { stage, command } => if fuel == 0 {
            step
        } else {
            drive(
                preferred,
                next_probe_spec(preferred, stage, installed(command)),
                installed,
                (fuel - 1) as nat,
            )
        },
        _ => step,
    }
}

/// The engine that is chosen: the preferred one if it is installed, else
/// podman if installed, else docker if installed, else none.
pub open spec fn chosen_engine(
    preferred: Option<Seq<char>>,
    installed: spec_fn(Seq<char>) -> bool,
) -> EngineStepView {
    if preferred is Some && installed(preferred->0) {
        EngineStepView::Found { engine: preferred->0, is_podman: preferred->0 == "podman"@ }
    } else if installed("podman"@) {
        EngineStepView::Found { engine: "podman"@, is_podman: true }
    } else if installed("docker"@) {
        EngineStepView::Found { engine: "docker"@, is_podman: false }
    } else {
        EngineStepView::NotFound
    }
}

/// Engine choice: three probes at most settle the choice, and it is the
/// preferred engine where installed, else podman, else docker, else none;
/// `is_podman` holds exactly when the chosen engine is `podman`.
pub proof fn engine_choice_law(
    preferred: Option<Seq<char>>,
    installed: spec_fn(Seq<char>) -> bool,
)
    ensures
        drive(preferred, first_probe_spec(preferred), installed, 3) == chosen_engine(
            preferred,
            installed,
        ),
        drive(preferred, first_probe_spec(preferred), installed, 3) matches EngineStepView::Found {
            engine,
            is_podman,
        } ==> (is_podman <==> engine == "podman"@),
{
    reveal_with_fuel(drive, 4);
}

} // verus!
