//! Routing of optimiser and grader requests: which provider answers, at
//! which URL, with which credential, and what a reply amounts to. The
//! HTTP exchange and the reading of tokens and environment variables are
//! the caller's.

use vstd::prelude::*;
use vstd::string::*;
use crate::manifest::MetaLlmConfig;
use crate::text::{trim, contains_seq, str_eq, str_contains, trim_str};

verus! {

/// Endpoint of the GitHub-hosted models.
pub open spec fn github_models_url() -> Seq<char> {
    "https://models.inference.ai.azure.com/chat/completions"@
}

/// Endpoint used where an OpenAI-compatible provider names no URL.
pub open spec fn default_endpoint_url() -> Seq<char> {
    "https://api.openai.com/v1/chat/completions"@
}

/// Environment variable read where a provider names none.
pub open spec fn default_key_env() -> Seq<char> {
    "OPENAI_API_KEY"@
}

/// The pattern a custom key variable must match.
pub open spec fn key_env_pattern() -> Seq<char> {
    "^[A-Z][A-Z0-9_]*_(API_KEY|TOKEN)$"@
}

/// What `regex` makes of `pattern` against `haystack`: `None` where the
/// pattern does not compile, else whether it matches somewhere.
pub uninterp spec fn regex_match(pattern: Seq<char>, haystack: Seq<char>) -> Option<bool>;

/// `regex::Regex::new(pattern)`, then `Regex::is_match(haystack)` on the
/// compiled pattern. Nothing is claimed of the outcome but that it is the
/// one `regex_match` names for these two strings.
#[verifier::external_body]
fn regex_is_match(pattern: &str, haystack: &str) -> (r: Option<bool>)
    ensures
        r == regex_match(pattern@, haystack@),
{
    match regex::Regex::new(pattern) {
        Ok(re) => Some(re.is_match(haystack)),
        Err(_) => None,
    }
}

/// Key variables accepted by name.
pub open spec fn is_known_key_env(v: Seq<char>) -> bool {
    v == "API_KEY"@ || v == "GITHUB_TOKEN"@ || v == "OPENAI_API_KEY"@ || v == "ANTHROPIC_API_KEY"@
        || v == "GEMINI_API_KEY"@ || v == "GROQ_API_KEY"@ || v == "XAI_API_KEY"@ || v
        == "DEEPSEEK_API_KEY"@ || v == "TOGETHER_API_KEY"@
}

/// Names that point at credentials other than an LLM key.
pub open spec fn has_forbidden_fragment(v: Seq<char>) -> bool {
    contains_seq(v, "SECRET"@) || contains_seq(v, "PRIVATE"@) || contains_seq(v, "AWS"@)
        || contains_seq(v, "SSH"@) || contains_seq(v, "GCP"@) || contains_seq(v, "AZURE"@)
}

/// Whether a key variable may be read, given what the pattern made of it:
/// a known name, or one the pattern matches that names no other
/// credential.
pub open spec fn key_env_allowed(v: Seq<char>, pattern_match: Option<bool>) -> bool {
    is_known_key_env(v) || (pattern_match == Some(true) && !has_forbidden_fragment(v))
}

fn is_known_key_env_exec(v: &str) -> (r: bool)
    ensures
        r == is_known_key_env(v@),
{
    str_eq(v, "API_KEY") || str_eq(v, "GITHUB_TOKEN") || str_eq(v, "OPENAI_API_KEY") || str_eq(
        v,
        "ANTHROPIC_API_KEY",
    ) || str_eq(v, "GEMINI_API_KEY") || str_eq(v, "GROQ_API_KEY") || str_eq(v, "XAI_API_KEY")
        || str_eq(v, "DEEPSEEK_API_KEY") || str_eq(v, "TOGETHER_API_KEY")
}

/// Decides a key variable from what the pattern made of it.
pub fn api_key_env_verdict(env_var: &str, pattern_match: Option<bool>) -> (r: bool)
    ensures
        r == key_env_allowed(env_var@, pattern_match),
{
    if is_known_key_env_exec(env_var) {
        return true;
    }
    match pattern_match {
        Some(true) => !(str_contains(env_var, "SECRET") || str_contains(env_var, "PRIVATE")
            || str_contains(env_var, "AWS") || str_contains(env_var, "SSH") || str_contains(
            env_var,
            "GCP",
        ) || str_contains(env_var, "AZURE")),
        _ => false,
    }
}

/// Whether a key variable may be read: known names are, others must match
/// `^[A-Z][A-Z0-9_]*_(API_KEY|TOKEN)$` and name no other credential.
pub fn api_key_env_allowed(env_var: &str) -> (r: bool)
    ensures
        r == key_env_allowed(env_var@, regex_match(key_env_pattern(), env_var@)),
{
    if is_known_key_env_exec(env_var) {
        return true;
    }
    let m = regex_is_match("^[A-Z][A-Z0-9_]*_(API_KEY|TOKEN)$", env_var);
    api_key_env_verdict(env_var, m)
}

/// Where a request goes.
pub enum LlmRoute {
    /// The in-process model, loaded from `model_path` where one is given.
    Embedded { model_path: Option<String> },
    /// GitHub models, authenticated with the `gh` CLI's token.
    GithubModels { url: String },
    /// An OpenAI-compatible endpoint, authenticated with the key in `key_env`.
    Endpoint { url: String, key_env: String },
    /// The configuration names a variable that may not be read.
    Refused { message: String },
}

/// The message of a refused key variable.
pub open spec fn refusal_message(v: Seq<char>) -> Seq<char> {
    "Security Exception: To prevent credential exfiltration, `api_key_env` must be a standard LLM API key name. Attempted to use: "@
        + v
}

/// The key variable a configuration names, else `OPENAI_API_KEY`.
pub open spec fn key_env_of(c: MetaLlmConfig) -> Seq<char> {
    match c.api_key_env {
        Some(v) => v@,
        None => default_key_env(),
    }
}

/// The URL a configuration names, else the OpenAI endpoint.
pub open spec fn url_of(c: MetaLlmConfig) -> Seq<char> {
    match c.base_url {
        Some(u) => u@,
        None => default_endpoint_url(),
    }
}

/// Routing: `embedded` runs in process; `github` goes to GitHub models;
/// any other provider goes to its endpoint, provided the key variable is
/// allowed (`key_env_allowed`), else it is refused.
pub open spec fn route_matches(c: MetaLlmConfig, r: LlmRoute, pattern_match: Option<bool>) -> bool {
    if c.provider@ == "embedded"@ {
        r matches LlmRoute::Embedded { model_path } && model_path == c.model_path
    } else if c.provider@ == "github"@ {
        r matches LlmRoute::GithubModels { url } && url@ == github_models_url()
    } else if key_env_allowed(key_env_of(c), pattern_match) {
        r matches LlmRoute::Endpoint { url, key_env } && url@ == url_of(c) && key_env@
            == key_env_of(c)
    } else {
        r matches LlmRoute::Refused { message } && message@ == refusal_message(key_env_of(c))
    }
}

/// Routes a request for `config`; see `route_matches`. The key variable is
/// judged with the pattern result of `regex_match`.
pub fn route_llm(config: &MetaLlmConfig) -> (r: LlmRoute)
    ensures
        route_matches(*config, r, regex_match(key_env_pattern(), key_env_of(*config))),
{
    if str_eq(config.provider.as_str(), "embedded") {
        return LlmRoute::Embedded { model_path: config.model_path.clone() };
    }
    if str_eq(config.provider.as_str(), "github") {
        return LlmRoute::GithubModels {
            url: String::from_str("https://models.inference.ai.azure.com/chat/completions"),
        };
    }
    let url = match &config.base_url {
        Some(u) => u.clone(),
        None => String::from_str("https://api.openai.com/v1/chat/completions"),
    };
    let key_env = match &config.api_key_env {
        Some(v) => v.clone(),
        None => String::from_str("OPENAI_API_KEY"),
    };
    if api_key_env_allowed(key_env.as_str()) {
        LlmRoute::Endpoint { url, key_env }
    } else {
        let mut m = String::from_str(
            "Security Exception: To prevent credential exfiltration, `api_key_env` must be a standard LLM API key name. Attempted to use: ",
        );
        m.append(key_env.as_str());
        LlmRoute::Refused { message: m }
    }
}

/// The GitHub token from the output of `gh auth token`, trimmed; an empty
/// token is an error.
pub fn github_token(gh_output: &str) -> (r: Result<String, String>)
    ensures
        r matches Ok(t) ==> t@ == trim(gh_output@) && t@.len() > 0,
        r matches Err(m) ==> trim(gh_output@).len() == 0 && m@
            == "GitHub token is empty. Please run `gh auth login`."@,
{
    let t = trim_str(gh_output);
    if t.as_str().unicode_len() == 0 {
        Err(String::from_str("GitHub token is empty. Please run `gh auth login`."))
    } else {
        Ok(t)
    }
}

/// The API key read from `env_var` (empty where unset); an empty key is an
/// error.
pub fn api_key(env_var: &str, value: &str) -> (r: Result<String, String>)
    ensures
        r matches Ok(k) ==> k@ == value@ && value@.len() > 0,
        r matches Err(m) ==> value@.len() == 0 && m@ == "API key environment variable "@
            + env_var@ + " is empty."@,
{
    if value.unicode_len() == 0 {
        let mut m = String::from_str("API key environment variable ");
        m.append(env_var);
        m.append(" is empty.");
        Err(m)
    } else {
        Ok(String::from_str(value))
    }
}

/// The text of a reply: the first choice's message content, or
/// `Fallback error` where the reply has none.
pub fn reply_text(content: Option<&str>) -> (r: String)
    ensures
        r@ == match content {
            Some(c) => c@,
            None => "Fallback error"@,
        },
{
    match content {
        Some(c) => String::from_str(c),
        None => String::from_str("Fallback error"),
    }
}

/// `a` directly followed by `b` somewhere in `s`.
pub open spec fn has_pair(s: Seq<char>, a: char, b: char) -> bool {
    exists|i: int| 0 <= i && i + 1 < s.len() && #[trigger] s[i] == a && s[i + 1] == b
}

proof fn lemma_fragment_needs_pair(s: Seq<char>, f: Seq<char>, k: int)
    requires
        0 <= k,
        k + 1 < f.len(),
        contains_seq(s, f),
    ensures
        has_pair(s, f[k], f[k + 1]),
{
    let i = choose|i: int|
        0 <= i && i + f.len() <= s.len() && #[trigger] s.subrange(i, i + f.len()) == f;
    assert(s.subrange(i, i + f.len())[k] == s[i + k]);
    assert(s.subrange(i, i + f.len())[k + 1] == s[i + k + 1]);
    assert(s[i + k] == f[k] && s[i + k + 1] == f[k + 1]);
}

proof fn lemma_name_clean(s: Seq<char>)
    requires
        !has_pair(s, 'E', 'C'),
        !has_pair(s, 'R', 'I'),
        !has_pair(s, 'A', 'W'),
        !has_pair(s, 'S', 'H'),
        !has_pair(s, 'G', 'C'),
        !has_pair(s, 'A', 'Z'),
    ensures
        !has_forbidden_fragment(s),
{
    reveal_strlit("SECRET");
    reveal_strlit("PRIVATE");
    reveal_strlit("AWS");
    reveal_strlit("SSH");
    reveal_strlit("GCP");
    reveal_strlit("AZURE");
    if contains_seq(s, "SECRET"@) { lemma_fragment_needs_pair(s, "SECRET"@, 1); }
    if contains_seq(s, "PRIVATE"@) { lemma_fragment_needs_pair(s, "PRIVATE"@, 1); }
    if contains_seq(s, "AWS"@) { lemma_fragment_needs_pair(s, "AWS"@, 0); }
    if contains_seq(s, "SSH"@) { lemma_fragment_needs_pair(s, "SSH"@, 1); }
    if contains_seq(s, "GCP"@) { lemma_fragment_needs_pair(s, "GCP"@, 0); }
    if contains_seq(s, "AZURE"@) { lemma_fragment_needs_pair(s, "AZURE"@, 0); }
}

proof fn lemma_known_names_clean(v: Seq<char>)
    requires
        is_known_key_env(v),
    ensures
        !has_forbidden_fragment(v),
{
    reveal_strlit("API_KEY");
    reveal_strlit("GITHUB_TOKEN");
    reveal_strlit("OPENAI_API_KEY");
    reveal_strlit("ANTHROPIC_API_KEY");
    reveal_strlit("GEMINI_API_KEY");
    reveal_strlit("GROQ_API_KEY");
    reveal_strlit("XAI_API_KEY");
    reveal_strlit("DEEPSEEK_API_KEY");
    reveal_strlit("TOGETHER_API_KEY");
    lemma_name_clean(v);
}

/// Credential screening: whatever the configuration, and whatever the
/// pattern check reports, a request never goes out with a key read from a
/// variable whose name contains `SECRET`, `PRIVATE`, `AWS`, `SSH`, `GCP` or
/// `AZURE`.
pub proof fn endpoint_never_reads_other_credentials(
    c: MetaLlmConfig,
    r: LlmRoute,
    pattern_match: Option<bool>,
)
    requires
        route_matches(c, r, pattern_match),
    ensures
        r matches LlmRoute::Endpoint { key_env, .. } ==> !has_forbidden_fragment(key_env@),
{
    if is_known_key_env(key_env_of(c)) {
        lemma_known_names_clean(key_env_of(c));
    }
}

/// The configured model file reaches the in-process model: for the
/// `embedded` provider the route carries exactly the configured
/// `model_path`, whatever it is.
pub proof fn embedded_route_keeps_model_path(
    c: MetaLlmConfig,
    r: LlmRoute,
    pattern_match: Option<bool>,
)
    requires
        c.provider@ == "embedded"@,
        route_matches(c, r, pattern_match),
    ensures
        r == (LlmRoute::Embedded { model_path: c.model_path }),
{
}

} // verus!
