//! The in-process model: which model files are acceptable, where they are
//! looked for, and the chat template its prompt uses.

use vstd::prelude::*;
use vstd::string::*;
use crate::text::{path_join, join_path, opt_str_view, opt_string_view};

verus! {

/// A model file that may serve as the in-process model.
#[derive(Clone, Debug)]
pub struct AcceptableModel {
    pub filename: String,
    pub download_url: String,
}

/// The views of a list of models.
pub open spec fn model_views(ms: Seq<AcceptableModel>) -> Seq<(Seq<char>, Seq<char>)> {
    ms.map_values(|m: AcceptableModel| (m.filename@, m.download_url@))
}

/// The models accepted where no list is configured, the first being the
/// one downloaded when none is found.
pub open spec fn default_models() -> Seq<(Seq<char>, Seq<char>)> {
    seq![
        (
            "qwen2.5-coder-7b-instruct-q4_k_m.gguf"@,
            "https://huggingface.co/Qwen/Qwen2.5-Coder-7B-Instruct-GGUF/resolve/main/qwen2.5-coder-7b-instruct-q4_k_m.gguf"@,
        ),
        (
            "Meta-Llama-3-8B-Instruct-Q4_K_M.gguf"@,
            "https://huggingface.co/QuantFactory/Meta-Llama-3-8B-Instruct-GGUF/resolve/main/Meta-Llama-3-8B-Instruct.Q4_K_M.gguf"@,
        ),
        (
            "Mistral-Nemo-Instruct-2407-Q4_K_M.gguf"@,
            "https://huggingface.co/bartowski/Mistral-Nemo-Instruct-2407-GGUF/resolve/main/Mistral-Nemo-Instruct-2407-Q4_K_M.gguf"@,
        ),
    ]
}

fn model(filename: &str, url: &str) -> (r: AcceptableModel)
    ensures
        r.filename@ == filename@,
        r.download_url@ == url@,
{
    AcceptableModel { filename: String::from_str(filename), download_url: String::from_str(url) }
}

/// The default list of acceptable models.
pub fn default_acceptable_models() -> (r: Vec<AcceptableModel>)
    ensures
        model_views(r@) == default_models(),
{
    let mut v: Vec<AcceptableModel> = Vec::new();
    v.push(
        model(
            "qwen2.5-coder-7b-instruct-q4_k_m.gguf",
            "https://huggingface.co/Qwen/Qwen2.5-Coder-7B-Instruct-GGUF/resolve/main/qwen2.5-coder-7b-instruct-q4_k_m.gguf",
        ),
    );
    v.push(
        model(
            "Meta-Llama-3-8B-Instruct-Q4_K_M.gguf",
            "https://huggingface.co/QuantFactory/Meta-Llama-3-8B-Instruct-GGUF/resolve/main/Meta-Llama-3-8B-Instruct.Q4_K_M.gguf",
        ),
    );
    v.push(
        model(
            "Mistral-Nemo-Instruct-2407-Q4_K_M.gguf",
            "https://huggingface.co/bartowski/Mistral-Nemo-Instruct-2407-GGUF/resolve/main/Mistral-Nemo-Instruct-2407-Q4_K_M.gguf",
        ),
    );
    assert(model_views(v@) =~= default_models());
    v
}

/// The acceptable models: the configured list where it was read and is
/// not empty (`None` where the file was missing or did not parse), else
/// the defaults. The second value says whether the defaults should be
/// written out for the user to edit.
pub fn choose_acceptable_models(configured: Option<Vec<AcceptableModel>>) -> (r: (
    Vec<AcceptableModel>,
    bool,
))
    ensures
        match configured {
            Some(ms) => if ms@.len() > 0 {
                r.0@ == ms@ && !r.1
            } else {
                model_views(r.0@) == default_models() && r.1
            },
            None => model_views(r.0@) == default_models() && r.1,
        },
{
    match configured {
        Some(ms) => {
            if ms.len() > 0 {
                (ms, false)
            } else {
                (default_acceptable_models(), true)
            }
        },
        None => (default_acceptable_models(), true),
    }
}

/// A directory under the home directory, or a fallback where `HOME` is unset.
pub open spec fn home_or(home: Option<Seq<char>>, under_home: Seq<char>, fallback: Seq<char>) -> Seq<
    char,
> {
    match home {
        Some(h) => path_join(h, under_home),
        None => fallback,
    }
}

/// Where the list of acceptable models is kept.
pub fn config_dir(home: Option<&str>) -> (r: String)
    ensures
        r@ == home_or(opt_str_view(home), ".config/NeuroPlasticity"@, ".neuroplasticity"@),
{
    match home {
        Some(h) => join_path(h, ".config/NeuroPlasticity"),
        None => String::from_str(".neuroplasticity"),
    }
}

/// Where downloaded models are stored.
pub fn models_dir(home: Option<&str>) -> (r: String)
    ensures
        r@ == home_or(opt_str_view(home), ".cache/neuro/models"@, ".neuroplasticity/models"@),
{
    match home {
        Some(h) => join_path(h, ".cache/neuro/models"),
        None => String::from_str(".neuroplasticity/models"),
    }
}

/// The model caches searched, in order: Hugging Face, Ollama, LM Studio,
/// then this tool's own.
pub fn model_cache_dirs(home: &str) -> (r: Vec<String>)
    ensures
        r@.len() == 4,
        r@[0]@ == path_join(home@, ".cache/huggingface/hub"@),
        r@[1]@ == path_join(home@, ".ollama/models/blobs"@),
        r@[2]@ == path_join(home@, ".cache/lm-studio/models"@),
        r@[3]@ == path_join(home@, ".cache/neuro/models"@),
{
    let mut v: Vec<String> = Vec::new();
    v.push(join_path(home, ".cache/huggingface/hub"));
    v.push(join_path(home, ".ollama/models/blobs"));
    v.push(join_path(home, ".cache/lm-studio/models"));
    v.push(join_path(home, ".cache/neuro/models"));
    v
}

/// The prompt in the ChatML template, ending where the assistant speaks.
pub fn chatml_prompt(system_prompt: &str, user_prompt: &str) -> (r: String)
    ensures
        r@ == "<|im_start|>system\n"@ + system_prompt@ + "<|im_end|>\n<|im_start|>user\n"@
            + user_prompt@ + "<|im_end|>\n<|im_start|>assistant\n"@,
{
    let mut m = String::from_str("<|im_start|>system\n");
    m.append(system_prompt);
    m.append("<|im_end|>\n<|im_start|>user\n");
    m.append(user_prompt);
    m.append("<|im_end|>\n<|im_start|>assistant\n");
    m
}

/// What the model lookup does next.
pub enum ModelStep {
    /// Load the model at `path`.
    Use { path: String },
    /// Search the caches for acceptable model `index`, then report what was found.
    Probe { index: usize },
    /// Download `url` to `target`, then load it.
    Download { url: String, target: String },
}

/// The spec view of a lookup step.
pub enum ModelStepView {
    Use { path: Seq<char> },
    Probe { index: int },
    Download { url: Seq<char>, target: Seq<char> },
}

impl View for ModelStep {
    type V = ModelStepView;

    open spec fn view(&self) -> ModelStepView {
        match self {
            ModelStep::Use { path } => ModelStepView::Use { path: path@ },
            ModelStep::Probe { index } => ModelStepView::Probe { index: *index as int },
            ModelStep::Download { url, target } => ModelStepView::Download {
                url: url@,
                target: target@,
            },
        }
    }
}

/// The first step: a configured model path that exists is used as it is;
/// otherwise the caches are searched, starting with the first acceptable model.
pub open spec fn model_first_spec(explicit: Option<Seq<char>>, explicit_exists: bool) -> ModelStepView {
    if explicit is Some && explicit_exists {
        ModelStepView::Use { path: explicit->0 }
    } else {
        ModelStepView::Probe { index: 0 }
    }
}

/// The step after searching the caches for model `index`: use what was
/// found; else search for the next model; after the last, download the
/// first acceptable model into the models directory.
pub open spec fn model_after_spec(
    models: Seq<AcceptableModel>,
    models_dir: Seq<char>,
    index: int,
    found: Option<Seq<char>>,
) -> ModelStepView {
    match found {
        Some(p) => ModelStepView::Use { path: p },
        None => if index + 1 < models.len() {
            ModelStepView::Probe { index: index + 1 }
        } else {
            ModelStepView::Download {
                url: models[0].download_url@,
                target: path_join(models_dir, models[0].filename@),
            }
        },
    }
}

/// The first step of the model lookup.
pub fn model_first_step(explicit: Option<&str>, explicit_exists: bool) -> (r: ModelStep)
    ensures
        r@ == model_first_spec(opt_str_view(explicit), explicit_exists),
{
    match explicit {
        Some(p) => {
            if explicit_exists {
                return ModelStep::Use { path: String::from_str(p) };
            }
        },
        None => {},
    }
    ModelStep::Probe { index: 0 }
}

/// The step after the caches were searched for model `index`.
pub fn model_step_after_probe(
    models: &[AcceptableModel],
    models_dir: &str,
    index: usize,
    found: Option<String>,
) -> (r: ModelStep)
    requires
        index < models@.len(),
    ensures
        r@ == model_after_spec(models@, models_dir@, index as int, opt_string_view(found)),
{
    match found {
        Some(p) => ModelStep::Use { path: p },
        None => {
            let n = models.len();
            if index < n - 1 {
                ModelStep::Probe { index: index + 1 }
            } else {
                let first = &models[0];
                ModelStep::Download {
                    url: first.download_url.clone(),
                    target: join_path(models_dir, first.filename.as_str()),
                }
            }
        },
    }
}

/// Runs the lookup against fixed search results (`found(i)` is what the
/// caches hold for model `i`), for at most `fuel` searches.
pub open spec fn drive_lookup(
    models: Seq<AcceptableModel>,
    models_dir: Seq<char>,
    step: ModelStepView,
    found: spec_fn(int) -> Option<Seq<char>>,
    fuel: nat,
) -> ModelStepView
    decreases fuel,
{
    match step {
        ModelStepView::Probe { index } => if fuel == 0 || index < 0 || index >= models.len() {
            step
        } else {
            drive_lookup(
                models,
                models_dir,
                model_after_spec(models, models_dir, index, found(index)),
                found,
                (fuel - 1) as nat,
            )
        },
        _ => step,
    }
}

proof fn lemma_lookup_from(
    models: Seq<AcceptableModel>,
    models_dir: Seq<char>,
    k: int,
    found: spec_fn(int) -> Option<Seq<char>>,
)
    requires
        0 <= k < models.len(),
        forall|i: int| 0 <= i < k ==> #[trigger] found(i) is None,
    ensures
        ({
            let r = drive_lookup(
                models,
                models_dir,
                ModelStepView::Probe { index: k },
                found,
                (models.len() - k) as nat,
            );
            &&& !(r is Probe)
            &&& r matches ModelStepView::Download { url, target } ==> (forall|i: int|
                0 <= i < models.len() ==> #[trigger] found(i) is None) && url
                == models[0].download_url@ && target == path_join(models_dir, models[0].filename@)
            &&& r matches ModelStepView::Use { path } ==> exists|i: int|
                0 <= i < models.len() && #[trigger] found(i) == Some(path)
        }),
    decreases models.len() - k,
{
    let fuel = (models.len() - k) as nat;
    let next = model_after_spec(models, models_dir, k, found(k));
    assert(drive_lookup(models, models_dir, ModelStepView::Probe { index: k }, found, fuel)
        == drive_lookup(models, models_dir, next, found, (fuel - 1) as nat));
    if found(k) is None && k + 1 < models.len() {
        lemma_lookup_from(models, models_dir, k + 1, found);
    }
    if let Some(p) = found(k) {
        assert(found(k) == Some(p));
    }
}

/// No duplicate downloads: the lookup always settles within one search per
/// acceptable model; it downloads only where no usable configured path was
/// given and every acceptable model was searched for and none found, and
/// then it downloads the first acceptable model; a model it uses is the
/// configured path or one the caches returned.
pub proof fn download_only_when_nothing_found(
    models: Seq<AcceptableModel>,
    models_dir: Seq<char>,
    explicit: Option<Seq<char>>,
    explicit_exists: bool,
    found: spec_fn(int) -> Option<Seq<char>>,
)
    requires
        models.len() > 0,
    ensures
        ({
            let r = drive_lookup(
                models,
                models_dir,
                model_first_spec(explicit, explicit_exists),
                found,
                models.len(),
            );
            &&& !(r is Probe)
            &&& r matches ModelStepView::Download { url, target } ==> !(explicit is Some
                && explicit_exists) && (forall|i: int|
                0 <= i < models.len() ==> #[trigger] found(i) is None) && url
                == models[0].download_url@ && target == path_join(models_dir, models[0].filename@)
            &&& r matches ModelStepView::Use { path } ==> (explicit is Some && explicit_exists
                && path == explicit->0) || exists|i: int|
                0 <= i < models.len() && #[trigger] found(i) == Some(path)
        }),
{
    if !(explicit is Some && explicit_exists) {
        lemma_lookup_from(models, models_dir, 0, found);
    }
}

} // verus!
