use neuroplasticity::embedded_llm::{
    model_first_step, model_step_after_probe, ModelStep,
    chatml_prompt, choose_acceptable_models, config_dir, default_acceptable_models,
    model_cache_dirs, models_dir, AcceptableModel,
};
use neuroplasticity::llm_client::{
    api_key, api_key_env_allowed, api_key_env_verdict, github_token,
    reply_text, route_llm, LlmRoute,
};
use neuroplasticity::manifest::MetaLlmConfig;
use neuroplasticity::optimizer::{
    generation_reason, optimizer_system_prompt, optimizer_user_prompt, rules_overlay_path,
};
use neuroplasticity::reporter::Reporter;

fn config(provider: &str, base_url: Option<&str>, key_env: Option<&str>) -> MetaLlmConfig {
    MetaLlmConfig {
        provider: provider.to_string(),
        model: "gpt-4o".to_string(),
        base_url: base_url.map(|s| s.to_string()),
        api_key_env: key_env.map(|s| s.to_string()),
        model_path: None,
    }
}

#[test]
fn routes_by_provider() {
    assert!(matches!(route_llm(&config("embedded", None, None)), LlmRoute::Embedded { model_path: None }));
    match route_llm(&config("github", None, None)) {
        LlmRoute::GithubModels { url } => assert_eq!(url, "https://models.inference.ai.azure.com/chat/completions"),
        _ => panic!(),
    }
    match route_llm(&config("openai", None, None)) {
        LlmRoute::Endpoint { url, key_env } => {
            assert_eq!(url, "https://api.openai.com/v1/chat/completions");
            assert_eq!(key_env, "OPENAI_API_KEY");
        }
        _ => panic!(),
    }
    match route_llm(&config("anthropic", Some("http://localhost:8080/v1/chat"), Some("ANTHROPIC_API_KEY"))) {
        LlmRoute::Endpoint { url, key_env } => {
            assert_eq!(url, "http://localhost:8080/v1/chat");
            assert_eq!(key_env, "ANTHROPIC_API_KEY");
        }
        _ => panic!(),
    }
}

#[test]
fn credential_variables_are_screened() {
    match route_llm(&config("custom", None, Some("AWS_SECRET_ACCESS_KEY"))) {
        LlmRoute::Refused { message } => assert_eq!(
            message,
            "Security Exception: To prevent credential exfiltration, `api_key_env` must be a standard LLM API key name. Attempted to use: AWS_SECRET_ACCESS_KEY"
        ),
        _ => panic!(),
    }
    assert!(api_key_env_allowed("MISTRAL_API_KEY"));
    assert!(api_key_env_allowed("A_TOKEN"));
    assert!(api_key_env_allowed("GITHUB_TOKEN"));
    assert!(!api_key_env_allowed("SSH_PRIVATE_KEY"));
    assert!(!api_key_env_allowed("MY_SECRET_API_KEY"));
    assert!(!api_key_env_allowed("AZURE_OPENAI_API_KEY"));
    assert!(!api_key_env_allowed("lower_api_key"));
    assert!(!api_key_env_allowed("_API_KEY"));
    assert!(!api_key_env_allowed("HOME"));
    assert!(!api_key_env_allowed("MY_SSH_TOKEN"));
    assert!(!api_key_env_allowed("GCP_API_KEY"));
    assert!(matches!(route_llm(&config("custom", None, Some("CORP_PRIVATE_TOKEN"))), LlmRoute::Refused { .. }));
    assert!(api_key_env_verdict("X_TOKEN", Some(true)));
    assert!(!api_key_env_verdict("X_TOKEN", Some(false)));
    assert!(!api_key_env_verdict("X_TOKEN", None));
    assert!(api_key_env_verdict("OPENAI_API_KEY", None));
}

#[test]
fn tokens_and_keys() {
    assert_eq!(github_token("gho_abc\n"), Ok("gho_abc".to_string()));
    assert_eq!(github_token("  \n"), Err("GitHub token is empty. Please run `gh auth login`.".to_string()));
    assert_eq!(api_key("OPENAI_API_KEY", "sk-1"), Ok("sk-1".to_string()));
    assert_eq!(api_key("OPENAI_API_KEY", ""), Err("API key environment variable OPENAI_API_KEY is empty.".to_string()));
    assert_eq!(reply_text(Some("Rule: x")), "Rule: x");
    assert_eq!(reply_text(None), "Fallback error");
}

#[test]
fn optimizer_texts() {
    assert!(optimizer_system_prompt().starts_with("You are the NeuroPlasticity Meta-Optimizer."));
    assert_eq!(optimizer_user_prompt("Summarise", "jq: error", &[]), "Task: Summarise\n\nFailing Logs:\njq: error");
    let rules = vec!["Rule: raw JSON only".to_string(), "Rule: no pronouns".to_string()];
    assert_eq!(
        optimizer_user_prompt("Summarise", "jq: error", &rules),
        "Task: Summarise\n\nFailing Logs:\njq: error\n\nExisting Rules:\n- Rule: raw JSON only\n- Rule: no pronouns\n"
    );
    assert_eq!(
        generation_reason("Summarise", "jq: error"),
        "Generated due to failing task: 'Summarise', Error output: 'jq: error'"
    );
    assert_eq!(rules_overlay_path(), ".neuroplasticity/rules.json");
}

#[test]
fn report_locations() {
    let r = Reporter::new();
    assert_eq!(r.base_dir(), ".neuroplasticity/runs");
    assert_eq!(r.run_dir("abc"), ".neuroplasticity/runs/abc");
    assert_eq!(r.epoch_file_path("abc", 3), ".neuroplasticity/runs/abc/epoch-3.json");
    let custom = Reporter::new_with_base_dir("/tmp/reports/");
    assert_eq!(custom.epoch_file_path("id", 12), "/tmp/reports/id/epoch-12.json");
    assert_eq!(Reporter::default().base_dir(), ".neuroplasticity/runs");
}

#[test]
fn acceptable_models() {
    let d = default_acceptable_models();
    assert_eq!(d.len(), 3);
    assert_eq!(d[0].filename, "qwen2.5-coder-7b-instruct-q4_k_m.gguf");
    assert!(d[2].download_url.ends_with("Mistral-Nemo-Instruct-2407-Q4_K_M.gguf"));
    let mine = vec![AcceptableModel { filename: "m.gguf".to_string(), download_url: "http://x/m.gguf".to_string() }];
    let (chosen, write) = choose_acceptable_models(Some(mine));
    assert_eq!(chosen.len(), 1);
    assert!(!write);
    let (chosen, write) = choose_acceptable_models(Some(vec![]));
    assert_eq!(chosen.len(), 3);
    assert!(write);
    let (chosen, write) = choose_acceptable_models(None);
    assert_eq!(chosen[1].filename, "Meta-Llama-3-8B-Instruct-Q4_K_M.gguf");
    assert!(write);
}

#[test]
fn model_locations_and_template() {
    assert_eq!(config_dir(Some("/home/u")), "/home/u/.config/NeuroPlasticity");
    assert_eq!(config_dir(None), ".neuroplasticity");
    assert_eq!(models_dir(Some("/home/u")), "/home/u/.cache/neuro/models");
    assert_eq!(models_dir(None), ".neuroplasticity/models");
    assert_eq!(
        model_cache_dirs("/h"),
        vec![
            "/h/.cache/huggingface/hub".to_string(),
            "/h/.ollama/models/blobs".to_string(),
            "/h/.cache/lm-studio/models".to_string(),
            "/h/.cache/neuro/models".to_string(),
        ]
    );
    assert_eq!(
        chatml_prompt("sys", "usr"),
        "<|im_start|>system\nsys<|im_end|>\n<|im_start|>user\nusr<|im_end|>\n<|im_start|>assistant\n"
    );
}

#[test]
fn model_lookup_steps() {
    assert!(matches!(model_first_step(Some("/m/x.gguf"), true), ModelStep::Use { path } if path == "/m/x.gguf"));
    assert!(matches!(model_first_step(Some("/m/x.gguf"), false), ModelStep::Probe { index: 0 }));
    assert!(matches!(model_first_step(None, false), ModelStep::Probe { index: 0 }));
    let models = default_acceptable_models();
    assert!(matches!(model_step_after_probe(&models, "/c", 0, Some("/hf/q.gguf".to_string())), ModelStep::Use { path } if path == "/hf/q.gguf"));
    assert!(matches!(model_step_after_probe(&models, "/c", 1, None), ModelStep::Probe { index: 2 }));
    match model_step_after_probe(&models, "/c", 2, None) {
        ModelStep::Download { url, target } => {
            assert_eq!(url, models[0].download_url);
            assert_eq!(target, "/c/qwen2.5-coder-7b-instruct-q4_k_m.gguf");
        }
        _ => panic!(),
    }
}
