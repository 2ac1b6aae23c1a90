//! Decisions of the three evaluator kinds: which host commands may run,
//! how an evaluator container is started, how an LLM grade is read, and
//! the messages an evaluator reports.

use vstd::prelude::*;
use vstd::string::*;
use crate::json::string_views;
use crate::shell::{setup_then_command, chain_setup_and_command};
use crate::text::{
    starts_with, ends_with, trim, decimal, str_eq, str_starts_with, str_ends_with, contains_char,
    trim_str, decimal_string,
};

verus! {

/// At most this many host or container evaluators run at once.
pub const SYSTEM_CONCURRENCY: usize = 8;

/// What to do with a `host_bash` evaluator.
pub enum HostBashPlan {
    /// Run `program` with `args` in the scratch directory.
    Run { program: String, args: Vec<String> },
    /// Do not run anything; the evaluator fails with `message`.
    Reject { message: String },
}

/// Commands a `host_bash` evaluator may run by name: the POSIX shells
/// (`bash`, `sh`), which host evaluators are written for, and a few
/// read-only tools.
pub open spec fn is_safe_command_name(c: Seq<char>) -> bool {
    c == "bash"@ || c == "sh"@ || c == "git"@ || c == "jq"@ || c == "cat"@ || c == "ls"@ || c
        == "grep"@ || c == "echo"@
}

/// An allowed command: one of the safe names, or an absolute path whose
/// last component is one of them.
pub open spec fn is_allowlisted(c: Seq<char>) -> bool {
    is_safe_command_name(c) || (starts_with(c, "/"@) && (ends_with(c, "/bash"@) || ends_with(
        c,
        "/sh"@,
    ) || ends_with(c, "/git"@) || ends_with(
        c,
        "/jq"@,
    ) || ends_with(c, "/cat"@) || ends_with(c, "/ls"@) || ends_with(c, "/grep"@) || ends_with(
        c,
        "/echo"@,
    )))
}

/// Why a `host_bash` script is refused, or `None` where it may run.
pub open spec fn host_bash_rejection(script: Option<Seq<Seq<char>>>) -> Option<Seq<char>> {
    match script {
        None => Some("Missing 'script' for host_bash evaluator"@),
        Some(s) => if s.len() == 0 {
            Some("Empty host_bash script array"@)
        } else if !is_allowlisted(s[0]) {
            Some(
                "Security Exception: host_bash command '"@ + s[0]
                    + "' is not in the system allowlist. Evaluators must use container environment for arbitrary execution."@,
            )
        } else if s[0].contains('.') {
            Some("Security Exception: host_bash command cannot be a relative file execution."@)
        } else {
            None
        },
    }
}

/// The views of an optional list of strings.
pub open spec fn opt_views(v: Option<Vec<String>>) -> Option<Seq<Seq<char>>> {
    match v {
        Some(x) => Some(string_views(x@)),
        None => None,
    }
}

fn is_allowlisted_exec(c: &str) -> (r: bool)
    ensures
        r == is_allowlisted(c@),
{
    str_eq(c, "bash") || str_eq(c, "sh") || str_eq(c, "git") || str_eq(c, "jq") || str_eq(c, "cat") || str_eq(c, "ls") || str_eq(c, "grep")
        || str_eq(c, "echo") || (str_starts_with(c, "/") && (str_ends_with(c, "/bash")
        || str_ends_with(c, "/sh") || str_ends_with(c, "/git")
        || str_ends_with(c, "/jq") || str_ends_with(c, "/cat") || str_ends_with(c, "/ls")
        || str_ends_with(c, "/grep") || str_ends_with(c, "/echo")))
}

/// Decides a `host_bash` evaluator: a missing or empty script, a command
/// off the allowlist, or one naming a file with a `.`, is refused with the
/// message of `host_bash_rejection`; otherwise the first word is run with
/// the rest as its arguments.
pub fn plan_host_bash(script: &Option<Vec<String>>) -> (r: HostBashPlan)
    ensures
        match r {
            HostBashPlan::Run { program, args } => {
                &&& host_bash_rejection(opt_views(*script)) is None
                &&& script is Some
                &&& program@ == script->0@[0]@
                &&& string_views(args@) == string_views(script->0@).drop_first()
            },
            HostBashPlan::Reject { message } => {
                &&& host_bash_rejection(opt_views(*script)) is Some
                &&& message@ == host_bash_rejection(opt_views(*script))->0
            },
        },
{
    match script {
        None => HostBashPlan::Reject {
            message: String::from_str("Missing 'script' for host_bash evaluator"),
        },
        Some(s) => {
            if s.len() == 0 {
                return HostBashPlan::Reject {
                    message: String::from_str("Empty host_bash script array"),
                };
            }
            let cmd = s[0].as_str();
            if !is_allowlisted_exec(cmd) {
                let mut m = String::from_str("Security Exception: host_bash command '");
                m.append(cmd);
                m.append(
                    "' is not in the system allowlist. Evaluators must use container environment for arbitrary execution.",
                );
                return HostBashPlan::Reject { message: m };
            }
            if contains_char(cmd, '.') {
                return HostBashPlan::Reject {
                    message: String::from_str(
                        "Security Exception: host_bash command cannot be a relative file execution.",
                    ),
                };
            }
            let mut args: Vec<String> = Vec::new();
            let n = s.len();
            let mut i: usize = 1;
            while i < n
                invariant
                    n == s@.len(),
                    1 <= i <= n,
                    args@.len() == i - 1,
                    forall|j: int| 0 <= j < i - 1 ==> #[trigger] args@[j]@ == s@[j + 1]@,
                decreases n - i,
            {
                args.push(s[i].clone());
                i += 1;
            }
            assert(string_views(args@) =~= string_views(s@).drop_first());
            HostBashPlan::Run { program: s[0].clone(), args }
        },
    }
}

/// Shell evaluators run: a `host_bash` script whose first word is `bash` or
/// `sh` (as in `["bash", "-c", "jq . out.json || exit 1"]`) is never refused.
pub proof fn host_bash_runs_shell_scripts(script: Seq<Seq<char>>)
    requires
        script.len() > 0,
        script[0] == "bash"@ || script[0] == "sh"@,
    ensures
        host_bash_rejection(Some(script)) is None,
{
    reveal_strlit("bash");
    reveal_strlit("sh");
    assert(!"bash"@.contains('.'));
    assert(!"sh"@.contains('.'));
}

/// Every allowlisted tool runs: a `host_bash` script whose first word is
/// one of `bash`, `sh`, `git`, `jq`, `cat`, `ls`, `grep` or `echo`, by bare
/// name, is never refused, and it runs that word with the rest as its
/// arguments.
pub proof fn host_bash_runs_allowlisted_tools(script: Seq<Seq<char>>)
    requires
        script.len() > 0,
        script[0] == "bash"@ || script[0] == "sh"@ || script[0] == "git"@ || script[0] == "jq"@
            || script[0] == "cat"@ || script[0] == "ls"@ || script[0] == "grep"@ || script[0]
            == "echo"@,
    ensures
        host_bash_rejection(Some(script)) is None,
{
    reveal_strlit("bash");
    reveal_strlit("sh");
    reveal_strlit("git");
    reveal_strlit("jq");
    reveal_strlit("cat");
    reveal_strlit("ls");
    reveal_strlit("grep");
    reveal_strlit("echo");
    assert(!script[0].contains('.'));
}

/// Only allowlisted commands run: whatever script a manifest gives, a
/// `host_bash` evaluator that is not refused runs an allowlisted command
/// whose name holds no `.`.
pub proof fn host_bash_runs_only_allowlisted(script: Seq<Seq<char>>)
    requires
        host_bash_rejection(Some(script)) is None,
    ensures
        script.len() > 0,
        is_allowlisted(script[0]),
        !script[0].contains('.'),
{
}

/// The message a finished command reports: its standard error, or its
/// standard output where standard error is empty.
pub fn command_report(stderr: &str, stdout: &str) -> (r: String)
    ensures
        r@ == (if stderr@.len() == 0 {
            stdout@
        } else {
            stderr@
        }),
{
    if stderr.unicode_len() == 0 {
        String::from_str(stdout)
    } else {
        String::from_str(stderr)
    }
}

/// `Evaluator timed out after <secs>s`.
pub fn evaluator_timeout_message(secs: u64) -> (r: String)
    ensures
        r@ == "Evaluator timed out after "@ + decimal(secs as nat) + "s"@,
{
    let mut m = String::from_str("Evaluator timed out after ");
    let d = decimal_string(secs);
    m.append(d.as_str());
    m.append("s");
    m
}

/// `<prefix><detail>`, for failures whose detail comes from elsewhere.
pub fn failure_message(prefix: &str, detail: &str) -> (r: String)
    ensures
        r@ == prefix@ + detail@,
{
    let mut m = String::from_str(prefix);
    m.append(detail);
    m
}

/// Message of a `container` evaluator without `image` or `command`, or
/// `None` where both are given.
pub fn container_missing_fields(image: &Option<String>, command: &Option<Vec<String>>) -> (r:
    Option<String>)
    ensures
        r is Some <==> (image is None || command is None),
        r matches Some(m) ==> m@ == "Missing 'image' or 'command' for container evaluator"@,
{
    if image.is_none() || command.is_none() {
        Some(String::from_str("Missing 'image' or 'command' for container evaluator"))
    } else {
        None
    }
}

/// The arguments that start an evaluator container: removed on exit,
/// user ids kept under podman, no privilege gain, the scratch directory
/// mounted read-only at the scratch mount point and used as working
/// directory; then the image and either the command or, where setup steps
/// are given, `sh -c "<steps> && <quoted command>"`.
pub open spec fn container_evaluator_args_spec(
    is_podman: bool,
    working_dir: Seq<char>,
    scratch_mount: Seq<char>,
    image: Seq<char>,
    command: Seq<Seq<char>>,
    setup: Option<Seq<Seq<char>>>,
) -> Seq<Seq<char>> {
    seq!["run"@, "--rm"@] + (if is_podman {
        seq!["--userns=keep-id"@]
    } else {
        Seq::empty()
    }) + seq![
        "--security-opt"@,
        "no-new-privileges"@,
        "-v"@,
        working_dir + ":"@ + scratch_mount + ":ro,Z"@,
        "--workdir"@,
        scratch_mount,
        image,
    ] + command_tail(command, setup, false)
}

/// The trailing words that run a command: `sh -c` with the setup steps
/// chained in front where there are any, else the command itself.
pub open spec fn command_tail(
    command: Seq<Seq<char>>,
    setup: Option<Seq<Seq<char>>>,
    extended: bool,
) -> Seq<Seq<char>> {
    match setup {
        Some(steps) => if steps.len() > 0 {
            seq!["sh"@, "-c"@, setup_then_command(steps, command, extended)]
        } else {
            command
        },
        None => command,
    }
}

/// Appends the words that run `command` after the setup steps.
pub fn push_command_tail(
    args: &mut Vec<String>,
    command: &[String],
    setup: &Option<Vec<String>>,
    extended: bool,
)
    ensures
        string_views(final(args)@) == string_views(old(args)@) + command_tail(
            string_views(command@),
            opt_views(*setup),
            extended,
        ),
{
    let ghost start = args@;
    let mut use_shell = false;
    match setup {
        Some(steps) => {
            if steps.len() > 0 {
                use_shell = true;
            }
        },
        None => {},
    }
    if use_shell {
        let steps = setup.as_ref().unwrap();
        let line = chain_setup_and_command(steps.as_slice(), command, extended);
        args.push(String::from_str("sh"));
        args.push(String::from_str("-c"));
        args.push(line);
        assert(string_views(args@) =~= string_views(start) + command_tail(
            string_views(command@),
            opt_views(*setup),
            extended,
        ));
    } else {
        let n = command.len();
        let mut i: usize = 0;
        while i < n
            invariant
                n == command@.len(),
                i <= n,
                args@.len() == start.len() + i,
                forall|j: int| 0 <= j < start.len() ==> #[trigger] args@[j] == start[j],
                forall|j: int| 0 <= j < i ==> #[trigger] args@[start.len() + j]@ == command@[j]@,
            decreases n - i,
        {
            args.push(command[i].clone());
            i += 1;
        }
        let ghost want = string_views(start) + string_views(command@);
        assert forall|k: int| 0 <= k < args@.len() implies #[trigger] string_views(args@)[k]
            == want[k] by {
            if k >= start.len() {
                let j = k - start.len();
                assert(args@[start.len() + j]@ == command@[j]@);
            } else {
                assert(args@[k] == start[k]);
            }
        }
        assert(string_views(args@) =~= want);
    }
}

/// Pushes a literal word.
pub fn push_word(args: &mut Vec<String>, w: &str)
    ensures
        string_views(final(args)@) == string_views(old(args)@).push(w@),
{
    args.push(String::from_str(w));
    assert(string_views(final(args)@) =~= string_views(old(args)@).push(w@));
}

/// The arguments (after the engine's name) that start an evaluator
/// container; see `container_evaluator_args_spec`.
pub fn container_evaluator_args(
    is_podman: bool,
    working_dir: &str,
    scratch_mount: &str,
    image: &str,
    command: &[String],
    setup: &Option<Vec<String>>,
) -> (r: Vec<String>)
    ensures
        string_views(r@) == container_evaluator_args_spec(
            is_podman,
            working_dir@,
            scratch_mount@,
            image@,
            string_views(command@),
            opt_views(*setup),
        ),
{
    let mut args: Vec<String> = Vec::new();
    push_word(&mut args, "run");
    push_word(&mut args, "--rm");
    if is_podman {
        push_word(&mut args, "--userns=keep-id");
    }
    push_word(&mut args, "--security-opt");
    push_word(&mut args, "no-new-privileges");
    push_word(&mut args, "-v");
    let mut vol = String::from_str(working_dir);
    vol.append(":");
    vol.append(scratch_mount);
    vol.append(":ro,Z");
    push_word(&mut args, vol.as_str());
    push_word(&mut args, "--workdir");
    push_word(&mut args, scratch_mount);
    push_word(&mut args, image);
    let ghost before = string_views(args@);
    assert(before =~= seq!["run"@, "--rm"@] + (if is_podman {
        seq!["--userns=keep-id"@]
    } else {
        Seq::empty()
    }) + seq![
        "--security-opt"@,
        "no-new-privileges"@,
        "-v"@,
        working_dir@ + ":"@ + scratch_mount@ + ":ro,Z"@,
        "--workdir"@,
        scratch_mount@,
        image@,
    ]);
    push_command_tail(&mut args, command, setup, false);
    args
}

/// Message of an `llm` evaluator without `prompt` or `target_file`, or
/// `None` where both are given.
pub fn llm_missing_fields(prompt: &Option<String>, target_file: &Option<String>) -> (r: Option<
    String,
>)
    ensures
        r is Some <==> (prompt is None || target_file is None),
        r matches Some(m) ==> m@ == "Missing 'prompt' or 'target_file' for llm evaluator"@,
{
    if prompt.is_none() || target_file.is_none() {
        Some(String::from_str("Missing 'prompt' or 'target_file' for llm evaluator"))
    } else {
        None
    }
}

/// The instructions given to the grading model.
pub fn llm_grader_system_prompt() -> (r: String)
    ensures
        r@
            == "You are an automated evaluator. Grade the user's document based on the provided prompt. Reply with exactly 'PASS' or 'FAIL' followed by a brief reason."@,
{
    String::from_str(
        "You are an automated evaluator. Grade the user's document based on the provided prompt. Reply with exactly 'PASS' or 'FAIL' followed by a brief reason.",
    )
}

/// The document handed to the grading model.
pub fn llm_grader_user_prompt(prompt: &str, target_file: &str, content: &str) -> (r: String)
    ensures
        r@ == "Evaluation Prompt:\n"@ + prompt@ + "\n\nTarget Document ("@ + target_file@
            + "):\n"@ + content@,
{
    let mut m = String::from_str("Evaluation Prompt:\n");
    m.append(prompt);
    m.append("\n\nTarget Document (");
    m.append(target_file);
    m.append("):\n");
    m.append(content);
    m
}

/// The grade a model's reply gives: it passes exactly where the reply,
/// without surrounding white space, begins with `PASS`.
pub fn llm_grade(response: &str) -> (r: bool)
    ensures
        r == starts_with(trim(response@), "PASS"@),
{
    let t = trim_str(response);
    str_starts_with(t.as_str(), "PASS")
}

/// `Target file does not exist: <file>`.
pub fn missing_target_message(target_file: &str) -> (r: String)
    ensures
        r@ == "Target file does not exist: "@ + target_file@,
{
    failure_message("Target file does not exist: ", target_file)
}

/// `Failed to read target file: <file>`.
pub fn unreadable_target_message(target_file: &str) -> (r: String)
    ensures
        r@ == "Failed to read target file: "@ + target_file@,
{
    failure_message("Failed to read target file: ", target_file)
}

/// How many `llm` evaluators may run at once: one for the in-process
/// model, ten for a hosted provider.
pub fn llm_concurrency(provider: &str) -> (r: usize)
    ensures
        r == (if provider@ == "embedded"@ {
            1usize
        } else {
            10usize
        }),
{
    if str_eq(provider, "embedded") {
        1
    } else {
        10
    }
}

} // verus!
