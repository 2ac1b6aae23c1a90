//! The agent's sandbox: container names, the user mapping under docker,
//! volume arguments and the full `run` argument list.

use vstd::prelude::*;
use vstd::string::*;
use crate::json::string_views;
use crate::manifest::{Sandbox, project_mount_of, scratch_mount_of, project_mount, scratch_mount};
use crate::evaluator::{command_tail, opt_views, push_word, push_command_tail};
use crate::text::{is_hex_char, opt_string_view, starts_with, trim, decimal, push_char, str_starts_with, trim_str, decimal_string};

verus! {

/// The hyphenated text form of a UUID: 36 characters, hyphens at 8, 13,
/// 18 and 23, lower-case hex digits elsewhere.
pub open spec fn is_hyphenated_uuid(s: Seq<char>) -> bool {
    &&& s.len() == 36
    &&& forall|i: int|
        0 <= i < 36 ==> if i == 8 || i == 13 || i == 18 || i == 23 {
            s[i] == '-'
        } else {
            is_hex_char(#[trigger] s[i])
        }
}

/// `Uuid::new_v4().to_string()`: a fresh random UUID in hyphenated form.
#[verifier::external_body]
fn new_v4_string() -> (r: String)
    ensures
        is_hyphenated_uuid(r@),
{
    uuid::Uuid::new_v4().to_string()
}

/// A fresh run identifier: a random UUID in hyphenated form.
pub fn new_run_id() -> (r: String)
    ensures
        is_hyphenated_uuid(r@),
{
    new_v4_string()
}

/// `s` with every `-` removed.
pub open spec fn without_hyphens(s: Seq<char>) -> Seq<char>
    decreases s.len(),
{
    if s.len() == 0 {
        Seq::empty()
    } else if s.last() == '-' {
        without_hyphens(s.drop_last())
    } else {
        without_hyphens(s.drop_last()).push(s.last())
    }
}

/// The container name for a run: `neuro-run-` and the UUID without hyphens.
pub fn container_name_for(uuid: &str) -> (r: String)
    ensures
        r@ == "neuro-run-"@ + without_hyphens(uuid@),
{
    let mut out = String::from_str("neuro-run-");
    let n = uuid.unicode_len();
    let mut i: usize = 0;
    while i < n
        invariant
            n == uuid@.len(),
            i <= n,
            out@ == "neuro-run-"@ + without_hyphens(uuid@.subrange(0, i as int)),
        decreases n - i,
    {
        let c = uuid.get_char(i);
        proof {
            let p = uuid@.subrange(0, i + 1);
            assert(p.drop_last() =~= uuid@.subrange(0, i as int));
            assert(p.last() == c);
        }
        if c != '-' {
            push_char(&mut out, c);
        }
        i += 1;
    }
    assert(uuid@.subrange(0, n as int) =~= uuid@);
    out
}

/// A fresh container name for the agent's run.
pub fn new_container_name() -> (r: String)
    ensures
        exists|u: Seq<char>| #[trigger]
            is_hyphenated_uuid(u) && r@ == "neuro-run-"@ + without_hyphens(u),
{
    let u = new_v4_string();
    let r = container_name_for(u.as_str());
    assert(is_hyphenated_uuid(u@) && r@ == "neuro-run-"@ + without_hyphens(u@));
    r
}

/// The `--user=<uid>:<gid>` flag docker gets from the output of `id -u`
/// and `id -g`, trimmed; none where either is empty.
pub fn docker_user_flag(uid_output: &str, gid_output: &str) -> (r: Option<String>)
    ensures
        r is Some <==> (trim(uid_output@).len() > 0 && trim(gid_output@).len() > 0),
        r matches Some(f) ==> f@ == "--user="@ + trim(uid_output@) + ":"@ + trim(gid_output@),
{
    let uid = trim_str(uid_output);
    let gid = trim_str(gid_output);
    if uid.as_str().unicode_len() == 0 || gid.as_str().unicode_len() == 0 {
        return None;
    }
    let mut f = String::from_str("--user=");
    f.append(uid.as_str());
    f.append(":");
    f.append(gid.as_str());
    Some(f)
}

/// A mount whose source exists on the host, with `~` already expanded.
#[derive(Clone, Debug)]
pub struct ResolvedMount {
    pub source: String,
    pub target: String,
    pub readonly: bool,
}

/// The `-v` value of a mount: `<source>:<target>:` then `ro,` for a
/// read-only mount, then `Z`.
pub open spec fn volume_spec(source: Seq<char>, target: Seq<char>, readonly: bool) -> Seq<char> {
    source + ":"@ + target + ":"@ + (if readonly {
        "ro,"@
    } else {
        ""@
    }) + "Z"@
}

/// Builds the `-v` value of a mount.
pub fn volume_arg(source: &str, target: &str, readonly: bool) -> (r: String)
    ensures
        r@ == volume_spec(source@, target@, readonly),
{
    let mut v = String::from_str(source);
    v.append(":");
    v.append(target);
    v.append(":");
    if readonly {
        v.append("ro,");
    } else {
        v.append("");
    }
    v.append("Z");
    v
}

/// `-v <volume>` for every mount, in order.
pub open spec fn mount_args(ms: Seq<ResolvedMount>) -> Seq<Seq<char>>
    decreases ms.len(),
{
    if ms.len() == 0 {
        Seq::empty()
    } else {
        mount_args(ms.drop_last()) + seq![
            "-v"@,
            volume_spec(ms.last().source@, ms.last().target@, ms.last().readonly),
        ]
    }
}

/// Whether a mount target lies in the container's ephemeral home, whose
/// parent directories are created on the host before the run.
pub fn is_user_home_target(target: &str) -> (r: bool)
    ensures
        r == starts_with(target@, "/user_home/"@),
{
    str_starts_with(target, "/user_home/")
}

/// The environment the agent sees: its home in `/user_home`, npm's global
/// prefix there too, a `PATH` through both, and non-interactive CI flags.
pub open spec fn agent_env_args() -> Seq<Seq<char>> {
    seq![
        "-e"@,
        "HOME=/user_home"@,
        "-e"@,
        "NPM_CONFIG_PREFIX=/user_home/.npm-global"@,
        "-e"@,
        "PATH=/user_home/.local/bin:/user_home/.npm-global/bin:/usr/local/sbin:/usr/local/bin:/usr/sbin:/usr/bin:/sbin:/bin"@,
        "-e"@,
        "CI=true"@,
        "-e"@,
        "CONTINUOUS_INTEGRATION=1"@,
        "-e"@,
        "NONINTERACTIVE=1"@,
        "-e"@,
        "DEBIAN_FRONTEND=noninteractive"@,
    ]
}

/// The arguments (after the engine's name) that run the agent: a named,
/// self-removing container; podman keeps the caller's user ids, docker
/// gets the `--user` flag where there is one; no privilege gain; the
/// project read-only, the scratch directory and an ephemeral home
/// read-write; the agent environment; the extra mounts; the scratch mount
/// as working directory; the base image; then the agent command, behind
/// the setup steps where the sandbox has any.
pub open spec fn agent_args_spec(
    is_podman: bool,
    container_name: Seq<char>,
    user_flag: Option<Seq<char>>,
    project_dir: Seq<char>,
    scratch_dir: Seq<char>,
    home_dir: Seq<char>,
    sandbox: Sandbox,
    mounts: Seq<ResolvedMount>,
    command: Seq<Seq<char>>,
) -> Seq<Seq<char>> {
    seq!["run"@, "--rm"@, "--name"@, container_name] + (if is_podman {
        seq!["--userns=keep-id"@]
    } else {
        match user_flag {
            Some(f) => seq![f],
            None => Seq::empty(),
        }
    }) + seq![
        "--security-opt"@,
        "no-new-privileges"@,
        "-v"@,
        project_dir + ":"@ + project_mount_of(sandbox) + ":ro,Z"@,
        "-v"@,
        scratch_dir + ":"@ + scratch_mount_of(sandbox) + ":rw,Z"@,
        "-v"@,
        home_dir + ":/user_home:rw,Z"@,
    ] + agent_env_args() + mount_args(mounts) + seq![
        "--workdir"@,
        scratch_mount_of(sandbox),
        sandbox.base_image@,
    ] + command_tail(command, opt_views(sandbox.setup_script), true)
}

/// Builds the agent's `run` arguments; see `agent_args_spec`.
pub fn agent_container_args(
    is_podman: bool,
    container_name: &str,
    user_flag: &Option<String>,
    project_dir: &str,
    scratch_dir: &str,
    home_dir: &str,
    sandbox: &Sandbox,
    mounts: &[ResolvedMount],
    agent_command: &[String],
) -> (r: Vec<String>)
    ensures
        string_views(r@) == agent_args_spec(
            is_podman,
            container_name@,
            opt_string_view(*user_flag),
            project_dir@,
            scratch_dir@,
            home_dir@,
            *sandbox,
            mounts@,
            string_views(agent_command@),
        ),
{
    let mut args: Vec<String> = Vec::new();
    push_word(&mut args, "run");
    push_word(&mut args, "--rm");
    push_word(&mut args, "--name");
    push_word(&mut args, container_name);
    if is_podman {
        push_word(&mut args, "--userns=keep-id");
    } else {
        match user_flag {
            Some(f) => push_word(&mut args, f.as_str()),
            None => {},
        }
    }
    push_word(&mut args, "--security-opt");
    push_word(&mut args, "no-new-privileges");
    let pm = project_mount(sandbox);
    let sm = scratch_mount(sandbox);
    push_word(&mut args, "-v");
    let mut v1 = String::from_str(project_dir);
    v1.append(":");
    v1.append(pm.as_str());
    v1.append(":ro,Z");
    push_word(&mut args, v1.as_str());
    push_word(&mut args, "-v");
    let mut v2 = String::from_str(scratch_dir);
    v2.append(":");
    v2.append(sm.as_str());
    v2.append(":rw,Z");
    push_word(&mut args, v2.as_str());
    push_word(&mut args, "-v");
    let mut v3 = String::from_str(home_dir);
    v3.append(":/user_home:rw,Z");
    push_word(&mut args, v3.as_str());
    push_word(&mut args, "-e");
    push_word(&mut args, "HOME=/user_home");
    push_word(&mut args, "-e");
    push_word(&mut args, "NPM_CONFIG_PREFIX=/user_home/.npm-global");
    push_word(&mut args, "-e");
    push_word(
        &mut args,
        "PATH=/user_home/.local/bin:/user_home/.npm-global/bin:/usr/local/sbin:/usr/local/bin:/usr/sbin:/usr/bin:/sbin:/bin",
    );
    push_word(&mut args, "-e");
    push_word(&mut args, "CI=true");
    push_word(&mut args, "-e");
    push_word(&mut args, "CONTINUOUS_INTEGRATION=1");
    push_word(&mut args, "-e");
    push_word(&mut args, "NONINTERACTIVE=1");
    push_word(&mut args, "-e");
    push_word(&mut args, "DEBIAN_FRONTEND=noninteractive");
    let ghost head = string_views(args@);
    assert(head =~= seq!["run"@, "--rm"@, "--name"@, container_name@] + (if is_podman {
        seq!["--userns=keep-id"@]
    } else {
        match opt_string_view(*user_flag) {
            Some(f) => seq![f],
            None => Seq::empty(),
        }
    }) + seq![
        "--security-opt"@,
        "no-new-privileges"@,
        "-v"@,
        project_dir@ + ":"@ + project_mount_of(*sandbox) + ":ro,Z"@,
        "-v"@,
        scratch_dir@ + ":"@ + scratch_mount_of(*sandbox) + ":rw,Z"@,
        "-v"@,
        home_dir@ + ":/user_home:rw,Z"@,
    ] + agent_env_args());
    let n = mounts.len();
    let mut i: usize = 0;
    while i < n
        invariant
            n == mounts@.len(),
            i <= n,
            string_views(args@) == head + mount_args(mounts@.subrange(0, i as int)),
        decreases n - i,
    {
        let m = &mounts[i];
        let vol = volume_arg(m.source.as_str(), m.target.as_str(), m.readonly);
        push_word(&mut args, "-v");
        push_word(&mut args, vol.as_str());
        proof {
            let p = mounts@.subrange(0, i + 1);
            assert(p.drop_last() =~= mounts@.subrange(0, i as int));
            assert(p.last() == mounts@[i as int]);
            assert(string_views(args@) =~= head + mount_args(p));
        }
        i += 1;
    }
    assert(mounts@.subrange(0, n as int) =~= mounts@);
    push_word(&mut args, "--workdir");
    push_word(&mut args, sm.as_str());
    push_word(&mut args, sandbox.base_image.as_str());
    push_command_tail(&mut args, agent_command, &sandbox.setup_script, true);
    args
}

proof fn lemma_mount_args_index(ms: Seq<ResolvedMount>)
    ensures
        mount_args(ms).len() == 2 * ms.len(),
        forall|k: int|
            #![trigger ms[k]]
            0 <= k < ms.len() ==> mount_args(ms).subrange(2 * k, 2 * k + 2) == seq![
                "-v"@,
                volume_spec(ms[k].source@, ms[k].target@, ms[k].readonly),
            ],
    decreases ms.len(),
{
    if ms.len() > 0 {
        let p = ms.drop_last();
        lemma_mount_args_index(p);
        let a = mount_args(ms);
        let last = seq!["-v"@, volume_spec(ms.last().source@, ms.last().target@, ms.last().readonly)];
        assert(a == mount_args(p) + last);
        assert forall|k: int| #![trigger ms[k]] 0 <= k < ms.len() implies a.subrange(2 * k, 2 * k + 2)
            == seq!["-v"@, volume_spec(ms[k].source@, ms[k].target@, ms[k].readonly)] by {
            if k < ms.len() - 1 {
                assert(p[k] == ms[k]);
                assert(a.subrange(2 * k, 2 * k + 2) =~= mount_args(p).subrange(2 * k, 2 * k + 2));
            } else {
                assert(ms.last() == ms[k]);
                assert(a.subrange(2 * k, 2 * k + 2) =~= last);
            }
        }
    }
}

/// A pair inside the middle part of `a + b + c` is the same pair of `b`.
proof fn lemma_middle_pair(a: Seq<Seq<char>>, b: Seq<Seq<char>>, c: Seq<Seq<char>>, i: int)
    requires
        0 <= i,
        i + 2 <= b.len(),
    ensures
        (a + b + c).subrange(a.len() + i, a.len() + i + 2) == b.subrange(i, i + 2),
{
    assert((a + b + c).subrange(a.len() + i, a.len() + i + 2) =~= b.subrange(i, i + 2));
}

/// One volume per mount, in order: in the agent's arguments, right after
/// the fixed head (name, user mapping, the three workspace volumes and the
/// environment), the `k`-th extra volume is `-v` and the `k`-th mount's
/// `source:target:[ro,]Z`; and the working directory follows the last one.
pub proof fn each_mount_gets_its_volume(
    is_podman: bool,
    container_name: Seq<char>,
    user_flag: Option<Seq<char>>,
    project_dir: Seq<char>,
    scratch_dir: Seq<char>,
    home_dir: Seq<char>,
    sandbox: Sandbox,
    mounts: Seq<ResolvedMount>,
    command: Seq<Seq<char>>,
)
    ensures
        ({
            let args = agent_args_spec(
                is_podman,
                container_name,
                user_flag,
                project_dir,
                scratch_dir,
                home_dir,
                sandbox,
                mounts,
                command,
            );
            let h = 26 + (if is_podman || user_flag is Some {
                1int
            } else {
                0int
            });
            &&& forall|k: int|
                #![trigger mounts[k]]
                0 <= k < mounts.len() ==> args.subrange(h + 2 * k, h + 2 * k + 2) == seq![
                    "-v"@,
                    volume_spec(mounts[k].source@, mounts[k].target@, mounts[k].readonly),
                ]
            &&& args[h + 2 * mounts.len()] == "--workdir"@
        }),
{
    lemma_mount_args_index(mounts);
    let head = seq!["run"@, "--rm"@, "--name"@, container_name] + (if is_podman {
        seq!["--userns=keep-id"@]
    } else {
        match user_flag {
            Some(f) => seq![f],
            None => Seq::empty(),
        }
    }) + seq![
        "--security-opt"@,
        "no-new-privileges"@,
        "-v"@,
        project_dir + ":"@ + project_mount_of(sandbox) + ":ro,Z"@,
        "-v"@,
        scratch_dir + ":"@ + scratch_mount_of(sandbox) + ":rw,Z"@,
        "-v"@,
        home_dir + ":/user_home:rw,Z"@,
    ] + agent_env_args();
    let h = 26 + (if is_podman || user_flag is Some {
        1int
    } else {
        0int
    });
    assert(head.len() == h);
    let args = agent_args_spec(
        is_podman,
        container_name,
        user_flag,
        project_dir,
        scratch_dir,
        home_dir,
        sandbox,
        mounts,
        command,
    );
    let ma = mount_args(mounts);
    let tail = seq!["--workdir"@, scratch_mount_of(sandbox), sandbox.base_image@] + command_tail(
        command,
        opt_views(sandbox.setup_script),
        true,
    );
    assert(args == head + ma + tail);
    assert forall|k: int| #![trigger mounts[k]] 0 <= k < mounts.len() implies args.subrange(
        h + 2 * k,
        h + 2 * k + 2,
    ) == seq!["-v"@, volume_spec(mounts[k].source@, mounts[k].target@, mounts[k].readonly)] by {
        lemma_middle_pair(head, ma, tail, 2 * k);
    }
    assert(args[h + 2 * mounts.len()] == tail[0]);
}

/// `ERROR: Agent execution timed out after <secs> seconds.`, the standard
/// error reported for a run that hit its timeout.
pub fn agent_timeout_message(secs: u64) -> (r: String)
    ensures
        r@ == "ERROR: Agent execution timed out after "@ + decimal(secs as nat) + " seconds."@,
{
    let mut m = String::from_str("ERROR: Agent execution timed out after ");
    let d = decimal_string(secs);
    m.append(d.as_str());
    m.append(" seconds.");
    m
}

} // verus!
