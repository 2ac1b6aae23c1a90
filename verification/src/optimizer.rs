//! The meta-optimiser's prompts and the record of why a rule was made.

use vstd::prelude::*;
use vstd::string::*;
use crate::json::string_views;
use crate::text::contains_seq;

verus! {

/// The instructions given to the meta-optimiser.
pub fn optimizer_system_prompt() -> (r: String)
    ensures
        r@
            == "You are the NeuroPlasticity Meta-Optimizer. Read the failing test logs and output ONLY a JSON rule to fix the agent's behavior. Format as a string: 'Rule: ...'"@,
{
    String::from_str(
        "You are the NeuroPlasticity Meta-Optimizer. Read the failing test logs and output ONLY a JSON rule to fix the agent's behavior. Format as a string: 'Rule: ...'",
    )
}

/// The rules in force, one `- <rule>` line each.
pub open spec fn rule_lines(rules: Seq<Seq<char>>) -> Seq<char>
    decreases rules.len(),
{
    if rules.len() == 0 {
        Seq::empty()
    } else {
        rule_lines(rules.drop_last()) + "- "@ + rules.last() + "\n"@
    }
}

/// The prompt of the meta-optimiser: the task, the failing logs and,
/// where there are any, the rules already in force.
pub open spec fn optimizer_prompt_spec(
    task: Seq<char>,
    logs: Seq<char>,
    rules: Seq<Seq<char>>,
) -> Seq<char> {
    "Task: "@ + task + "\n\nFailing Logs:\n"@ + logs + (if rules.len() == 0 {
        Seq::empty()
    } else {
        "\n\nExisting Rules:\n"@ + rule_lines(rules)
    })
}

proof fn lemma_contains_extend(s: Seq<char>, t: Seq<char>, f: Seq<char>)
    requires
        contains_seq(s, f),
    ensures
        contains_seq(s + t, f),
{
    let i = choose|i: int|
        0 <= i && i + f.len() <= s.len() && #[trigger] s.subrange(i, i + f.len()) == f;
    assert((s + t).subrange(i, i + f.len()) =~= s.subrange(i, i + f.len()));
}

proof fn lemma_contains_at(a: Seq<char>, f: Seq<char>, b: Seq<char>)
    ensures
        contains_seq(a + f + b, f),
{
    let s = a + f + b;
    assert(s.subrange(a.len() as int, (a.len() + f.len()) as int) =~= f);
}

/// The task, the failing logs and the rules in force, as handed to the
/// meta-optimiser; every rule in force appears in it.
pub fn optimizer_user_prompt(task_prompt: &str, failing_logs: &str, existing_rules: &[String]) -> (r:
    String)
    ensures
        r@ == optimizer_prompt_spec(task_prompt@, failing_logs@, string_views(existing_rules@)),
        forall|i: int|
            0 <= i < existing_rules@.len() ==> contains_seq(r@, #[trigger] existing_rules@[i]@),
{
    let mut m = String::from_str("Task: ");
    m.append(task_prompt);
    m.append("\n\nFailing Logs:\n");
    m.append(failing_logs);
    let n = existing_rules.len();
    if n == 0 {
        assert(m@ =~= optimizer_prompt_spec(task_prompt@, failing_logs@, string_views(existing_rules@)));
        return m;
    }
    m.append("\n\nExisting Rules:\n");
    let ghost head = m@;
    let mut i: usize = 0;
    while i < n
        invariant
            n == existing_rules@.len(),
            i <= n,
            m@ == head + rule_lines(string_views(existing_rules@.subrange(0, i as int))),
            forall|j: int| 0 <= j < i ==> contains_seq(m@, #[trigger] existing_rules@[j]@),
        decreases n - i,
    {
        let ghost before = m@;
        m.append("- ");
        m.append(existing_rules[i].as_str());
        m.append("\n");
        proof {
            let p = string_views(existing_rules@.subrange(0, i + 1));
            assert(p.drop_last() =~= string_views(existing_rules@.subrange(0, i as int)));
            assert(p.last() == existing_rules@[i as int]@);
            assert(m@ =~= head + rule_lines(p));
            assert(m@ =~= (before + "- "@) + existing_rules@[i as int]@ + "\n"@);
            lemma_contains_at(before + "- "@, existing_rules@[i as int]@, "\n"@);
            assert forall|j: int| 0 <= j < i + 1 implies contains_seq(
                m@,
                #[trigger] existing_rules@[j]@,
            ) by {
                if j < i {
                    lemma_contains_extend(before, "- "@ + existing_rules@[i as int]@ + "\n"@, existing_rules@[j]@);
                    assert(before + ("- "@ + existing_rules@[i as int]@ + "\n"@) =~= m@);
                }
            }
        }
        i += 1;
    }
    assert(existing_rules@.subrange(0, n as int) =~= existing_rules@);
    m
}

/// Why a rules overlay was generated.
pub fn generation_reason(task_prompt: &str, stderr: &str) -> (r: String)
    ensures
        r@ == "Generated due to failing task: '"@ + task_prompt@ + "', Error output: '"@
            + stderr@ + "'"@,
{
    let mut m = String::from_str("Generated due to failing task: '");
    m.append(task_prompt);
    m.append("', Error output: '");
    m.append(stderr);
    m.append("'");
    m
}

/// Where the rules overlay is written, relative to the project.
pub fn rules_overlay_path() -> (r: String)
    ensures
        r@ == ".neuroplasticity/rules.json"@,
{
    String::from_str(".neuroplasticity/rules.json")
}

} // verus!
