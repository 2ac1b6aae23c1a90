//! The control of a run: which manifest the command line names, the epoch
//! loop of one manifest, the waterfall over several manifests, the rules
//! file between epochs and the improvement patch at the end. The caller
//! performs each step (running containers, calling the optimiser, writing
//! files) and reports back; these functions decide what comes next.

use vstd::prelude::*;
use vstd::string::*;
use crate::json::{json_string_array, json_pretty, string_views, parse_string_array, to_pretty_json};
use crate::text::{opt_str_view, starts_with, ends_with, decimal, str_eq, str_starts_with, str_ends_with, decimal_string};

verus! {

/// The manifest path after reading `args` with `current` as the path so
/// far: `test <path>` names the path, any other word that does not start
/// with `--` names it, flags are skipped.
pub open spec fn manifest_path_after(args: Seq<Seq<char>>, current: Seq<char>) -> Seq<char>
    decreases args.len(),
{
    if args.len() == 0 {
        current
    } else if args[0] == "test"@ {
        if args.len() >= 2 {
            manifest_path_after(args.subrange(2, args.len() as int), args[1])
        } else {
            current
        }
    } else if !starts_with(args[0], "--"@) {
        manifest_path_after(args.drop_first(), args[0])
    } else {
        manifest_path_after(args.drop_first(), current)
    }
}

/// The manifest path the command line names (arguments after the program
/// name); `plasticity.json` where it names none.
pub fn manifest_path_from_args(args: &[String]) -> (r: String)
    ensures
        r@ == manifest_path_after(string_views(args@), "plasticity.json"@),
{
    let n = args.len();
    let mut current = String::from_str("plasticity.json");
    let mut i: usize = 0;
    assert(string_views(args@).subrange(0, n as int) =~= string_views(args@));
    while i < n
        invariant
            n == args@.len(),
            i <= n,
            manifest_path_after(string_views(args@).subrange(i as int, n as int), current@)
                == manifest_path_after(string_views(args@), "plasticity.json"@),
        decreases n - i,
    {
        let ghost rest = string_views(args@).subrange(i as int, n as int);
        let a = args[i].as_str();
        assert(rest[0] == a@);
        if str_eq(a, "test") {
            if i + 1 < n {
                assert(rest[1] == args@[i + 1]@);
                assert(rest.subrange(2, rest.len() as int) =~= string_views(args@).subrange(
                    i + 2,
                    n as int,
                ));
                current = args[i + 1].clone();
                i += 2;
            } else {
                return current;
            }
        } else {
            assert(rest.drop_first() =~= string_views(args@).subrange(i + 1, n as int));
            if !str_starts_with(a, "--") {
                current = args[i].clone();
            }
            i += 1;
        }
    }
    assert(string_views(args@).subrange(n as int, n as int) =~= Seq::<Seq<char>>::empty());
    current
}

/// Whether a directory entry is a manifest: its name has the extension
/// `json` (a name that is only `.json` has none).
pub fn is_json_file_name(name: &str) -> (r: bool)
    ensures
        r == (ends_with(name@, ".json"@) && name@.len() > 5),
{
    str_ends_with(name, ".json") && name.unicode_len() > 5
}

/// A step of one manifest's epoch loop.
#[derive(Clone, Copy, Debug, PartialEq, Eq, Structural)]
pub enum EpochStep {
    /// Run epoch `epoch` (after optimising the rules, when it is not the first).
    Run { epoch: u32 },
    /// The manifest is done.
    Finish { passed: bool, epochs_taken: u32 },
}

/// The first step: epoch 1, or an immediate failure where no epoch is allowed.
pub open spec fn epoch_begin_spec(max_epochs: u32) -> EpochStep {
    if max_epochs == 0 {
        EpochStep::Finish { passed: false, epochs_taken: 0 }
    } else {
        EpochStep::Run { epoch: 1 }
    }
}

/// The step after epoch `epoch`: done on a pass; the next epoch while some
/// remain; else failed after all `max_epochs`.
pub open spec fn epoch_after_spec(epoch: u32, max_epochs: u32, passed: bool) -> EpochStep {
    if passed {
        EpochStep::Finish { passed: true, epochs_taken: epoch }
    } else if epoch < max_epochs {
        EpochStep::Run { epoch: (epoch + 1) as u32 }
    } else {
        EpochStep::Finish { passed: false, epochs_taken: max_epochs }
    }
}

/// The first step of a manifest with `max_epochs` epochs.
pub fn epoch_begin(max_epochs: u32) -> (r: EpochStep)
    ensures
        r == epoch_begin_spec(max_epochs),
{
    if max_epochs == 0 {
        EpochStep::Finish { passed: false, epochs_taken: 0 }
    } else {
        EpochStep::Run { epoch: 1 }
    }
}

/// The step after epoch `epoch` passed or failed.
pub fn epoch_after(epoch: u32, max_epochs: u32, passed: bool) -> (r: EpochStep)
    requires
        1 <= epoch <= max_epochs,
    ensures
        r == epoch_after_spec(epoch, max_epochs, passed),
{
    if passed {
        EpochStep::Finish { passed: true, epochs_taken: epoch }
    } else if epoch < max_epochs {
        EpochStep::Run { epoch: epoch + 1 }
    } else {
        EpochStep::Finish { passed: false, epochs_taken: max_epochs }
    }
}

/// Runs the epoch loop against fixed outcomes (`outcomes[e - 1]` says
/// whether epoch `e` passes), for at most `fuel` epochs.
pub open spec fn drive_epochs(max_epochs: u32, step: EpochStep, outcomes: Seq<bool>, fuel: nat) -> EpochStep
    decreases fuel,
{
    match step {
        EpochStep::Run { epoch } => if fuel == 0 || epoch < 1 || epoch > max_epochs {
            step
        } else {
            drive_epochs(
                max_epochs,
                epoch_after_spec(epoch, max_epochs, outcomes[epoch - 1]),
                outcomes,
                (fuel - 1) as nat,
            )
        },
        _ => step,
    }
}

proof fn lemma_drive_epochs_from(max_epochs: u32, e: u32, outcomes: Seq<bool>)
    requires
        1 <= e <= max_epochs,
        outcomes.len() >= max_epochs,
        forall|i: int| 0 <= i < e - 1 ==> !outcomes[i],
    ensures
        drive_epochs(max_epochs, EpochStep::Run { epoch: e }, outcomes, (max_epochs - e + 1) as nat)
            matches EpochStep::Finish { passed, epochs_taken } && (if passed {
            1 <= epochs_taken <= max_epochs && outcomes[epochs_taken - 1] && forall|i: int|
                0 <= i < epochs_taken - 1 ==> !outcomes[i]
        } else {
            epochs_taken == max_epochs && forall|i: int| 0 <= i < max_epochs ==> !outcomes[i]
        }),
    decreases max_epochs - e,
{
    let fuel = (max_epochs - e + 1) as nat;
    let next = epoch_after_spec(e, max_epochs, outcomes[e - 1]);
    assert(drive_epochs(max_epochs, EpochStep::Run { epoch: e }, outcomes, fuel) == drive_epochs(
        max_epochs,
        next,
        outcomes,
        (fuel - 1) as nat,
    ));
    if !outcomes[e - 1] && e < max_epochs {
        lemma_drive_epochs_from(max_epochs, (e + 1) as u32, outcomes);
    }
}

/// The epoch loop stops at the first passing epoch; where none of the
/// allowed epochs passes, it fails after exactly `max_epochs` of them. It
/// always finishes within `max_epochs` epochs.
pub proof fn epoch_loop_law(max_epochs: u32, outcomes: Seq<bool>)
    requires
        outcomes.len() >= max_epochs,
    ensures
        drive_epochs(max_epochs, epoch_begin_spec(max_epochs), outcomes, max_epochs as nat)
            matches EpochStep::Finish { passed, epochs_taken } && (if passed {
            1 <= epochs_taken <= max_epochs && outcomes[epochs_taken - 1] && forall|i: int|
                0 <= i < epochs_taken - 1 ==> !outcomes[i]
        } else {
            epochs_taken == max_epochs && forall|i: int| 0 <= i < max_epochs ==> !outcomes[i]
        }),
{
    if max_epochs > 0 {
        lemma_drive_epochs_from(max_epochs, 1, outcomes);
    }
}

/// Where an epoch's outcome comes from: the failure cache (a configuration
/// already known to fail, so the agent is not run), or a fresh run and
/// evaluation.
#[derive(Clone, Copy, Debug, PartialEq, Eq, Structural)]
pub enum EpochEvidence {
    Cached,
    Evaluated { passed: bool },
}

/// Whether the epoch passed: a cached outcome is a failure.
pub open spec fn evidence_passed(e: EpochEvidence) -> bool {
    e matches EpochEvidence::Evaluated { passed } && passed
}

/// Whether the outcome is recorded in the failure cache: only a freshly
/// evaluated failure is.
pub open spec fn evidence_recorded(e: EpochEvidence) -> bool {
    e matches EpochEvidence::Evaluated { passed } && !passed
}

/// Whether the epoch passed.
pub fn epoch_passed(e: EpochEvidence) -> (r: bool)
    ensures
        r == evidence_passed(e),
{
    match e {
        EpochEvidence::Cached => false,
        EpochEvidence::Evaluated { passed } => passed,
    }
}

/// Whether to record the outcome in the failure cache.
pub fn records_failure(e: EpochEvidence) -> (r: bool)
    ensures
        r == evidence_recorded(e),
{
    match e {
        EpochEvidence::Cached => false,
        EpochEvidence::Evaluated { passed } => !passed,
    }
}

/// Only failures are cached, and a cached configuration never passes: an
/// outcome that is recorded did not pass, and a cached outcome is neither a
/// pass nor recorded again.
pub proof fn failure_cache_law(e: EpochEvidence)
    ensures
        evidence_recorded(e) ==> !evidence_passed(e),
        e == EpochEvidence::Cached ==> !evidence_passed(e) && !evidence_recorded(e),
        e matches EpochEvidence::Evaluated { passed } ==> (evidence_passed(e) || evidence_recorded(e)),
{
}

/// A step of the waterfall over the manifests of a directory.
#[derive(Clone, Copy, Debug, PartialEq, Eq, Structural)]
pub enum WaterfallStep {
    /// Run manifest `index` (in name order).
    Run { index: usize },
    /// Manifest `index` did not pass: stop, keeping the rules so far.
    Halt { index: usize },
    /// Every manifest passed in its first epoch.
    Complete,
}

/// The first step: manifest 0; none where there are no manifests.
pub fn waterfall_begin(count: usize) -> (r: Option<WaterfallStep>)
    ensures
        r == (if count == 0 {
            None
        } else {
            Some(WaterfallStep::Run { index: 0 })
        }),
{
    if count == 0 {
        None
    } else {
        Some(WaterfallStep::Run { index: 0 })
    }
}

/// The step after manifest `index` finished: halt where it failed; start
/// over from the first manifest where its rules changed (it took more than
/// one epoch); else the next manifest, or completion after the last.
pub open spec fn waterfall_after_spec(index: usize, count: usize, passed: bool, epochs_taken: u32) -> WaterfallStep {
    if !passed {
        WaterfallStep::Halt { index }
    } else if epochs_taken > 1 {
        WaterfallStep::Run { index: 0 }
    } else if index + 1 < count {
        WaterfallStep::Run { index: (index + 1) as usize }
    } else {
        WaterfallStep::Complete
    }
}

/// The step after manifest `index` finished.
pub fn waterfall_after(index: usize, count: usize, passed: bool, epochs_taken: u32) -> (r:
    WaterfallStep)
    requires
        index < count,
    ensures
        r == waterfall_after_spec(index, count, passed, epochs_taken),
{
    if !passed {
        WaterfallStep::Halt { index }
    } else if epochs_taken > 1 {
        WaterfallStep::Run { index: 0 }
    } else if index + 1 < count {
        WaterfallStep::Run { index: index + 1 }
    } else {
        WaterfallStep::Complete
    }
}

/// A manifest result that changes nothing: passed in its first epoch.
pub open spec fn is_clean(r: (bool, u32)) -> bool {
    r.0 && r.1 <= 1
}

/// The waterfall's state after the manifest results `results`, in the
/// order they came; results after a halt or completion change nothing.
pub open spec fn waterfall_trace(count: usize, results: Seq<(bool, u32)>) -> WaterfallStep
    decreases results.len(),
{
    if results.len() == 0 {
        WaterfallStep::Run { index: 0 }
    } else {
        match waterfall_trace(count, results.drop_last()) {
            WaterfallStep::Run { index } => if index < count {
                waterfall_after_spec(index, count, results.last().0, results.last().1)
            } else {
                WaterfallStep::Run { index }
            },
            other => other,
        }
    }
}

proof fn lemma_waterfall_run_index(count: usize, results: Seq<(bool, u32)>)
    requires
        count > 0,
    ensures
        waterfall_trace(count, results) matches WaterfallStep::Run { index } ==> index < count
            && index <= results.len() && forall|j: int|
            results.len() - index <= j < results.len() ==> is_clean(#[trigger] results[j]),
    decreases results.len(),
{
    if results.len() > 0 {
        let prev = results.drop_last();
        lemma_waterfall_run_index(count, prev);
        match waterfall_trace(count, prev) {
            WaterfallStep::Run { index } => {
                let last = results.last();
                if last.0 && last.1 <= 1 && index + 1 < count {
                    assert forall|j: int|
                        results.len() - (index + 1) <= j < results.len() implies is_clean(
                        #[trigger] results[j],
                    ) by {
                        if j < results.len() - 1 {
                            assert(results[j] == prev[j]);
                        }
                    }
                }
            },
            _ => {},
        }
    }
}

/// The waterfall completes only after a full pass in which every manifest
/// passed in its first epoch: at the result that completes it, the last
/// `count` results are all clean.
pub proof fn waterfall_complete_law(count: usize, results: Seq<(bool, u32)>)
    requires
        count > 0,
        results.len() > 0,
        waterfall_trace(count, results.drop_last()) is Run,
        waterfall_trace(count, results) == WaterfallStep::Complete,
    ensures
        results.len() >= count,
        forall|j: int| results.len() - count <= j < results.len() ==> is_clean(#[trigger] results[j]),
{
    let prev = results.drop_last();
    lemma_waterfall_run_index(count, prev);
    assert forall|j: int| results.len() - count <= j < results.len() implies is_clean(
        #[trigger] results[j],
    ) by {
        if j < results.len() - 1 {
            assert(results[j] == prev[j]);
        }
    }
}

/// Progress: a manifest that is not the last and passed in its first epoch
/// hands over to the next manifest in name order.
pub proof fn waterfall_advances_on_clean_pass(index: usize, count: usize, epochs_taken: u32)
    requires
        index + 1 < count,
        epochs_taken <= 1,
    ensures
        waterfall_after_spec(index, count, true, epochs_taken) == (WaterfallStep::Run {
            index: (index + 1) as usize,
        }),
{
}

/// Every manifest runs, in order: after `k < count` clean results the
/// waterfall runs manifest `k`, and after `count` clean results it is
/// complete.
pub proof fn waterfall_clean_results_run_in_order(count: usize, results: Seq<(bool, u32)>)
    requires
        count > 0,
        results.len() <= count,
        forall|j: int| 0 <= j < results.len() ==> is_clean(#[trigger] results[j]),
    ensures
        results.len() < count ==> waterfall_trace(count, results) == (WaterfallStep::Run {
            index: results.len() as usize,
        }),
        results.len() == count ==> waterfall_trace(count, results) == WaterfallStep::Complete,
    decreases results.len(),
{
    if results.len() > 0 {
        let prev = results.drop_last();
        assert forall|j: int| 0 <= j < prev.len() implies is_clean(#[trigger] prev[j]) by {
            assert(prev[j] == results[j]);
        }
        waterfall_clean_results_run_in_order(count, prev);
        assert(is_clean(results[results.len() - 1]));
    }
}

/// A failing manifest halts the waterfall at once, and a manifest that
/// needed more than one epoch sends it back to the first manifest.
pub proof fn waterfall_reaction_law(count: usize, results: Seq<(bool, u32)>, index: usize)
    requires
        results.len() > 0,
        index < count,
        waterfall_trace(count, results.drop_last()) == (WaterfallStep::Run { index }),
    ensures
        !results.last().0 ==> waterfall_trace(count, results) == (WaterfallStep::Halt { index }),
        results.last().0 && results.last().1 > 1 ==> waterfall_trace(count, results)
            == (WaterfallStep::Run { index: 0 }),
{
}

/// The rules currently in force: the strings of the rules file where it
/// was read and holds a JSON array of strings, else none.
pub open spec fn existing_rules_spec(content: Option<Seq<char>>) -> Seq<Seq<char>> {
    match content {
        Some(c) => match json_string_array(c) {
            Some(items) => items,
            None => Seq::empty(),
        },
        None => Seq::empty(),
    }
}

/// The rules currently in force (see `existing_rules_spec`).
pub fn existing_rules(content: Option<&str>) -> (r: Vec<String>)
    ensures
        string_views(r@) == existing_rules_spec(opt_str_view(content)),
{
    match content {
        Some(c) => match parse_string_array(c) {
            Ok(items) => items,
            Err(_) => {
                let v: Vec<String> = Vec::new();
                assert(string_views(v@) =~= Seq::<Seq<char>>::empty());
                v
            },
        },
        None => {
            let v: Vec<String> = Vec::new();
            assert(string_views(v@) =~= Seq::<Seq<char>>::empty());
            v
        },
    }
}

/// The new rules file: the rules in force with the new rule appended, as
/// pretty-printed JSON.
pub fn rules_after_optimization(existing: &[String], new_rule: &str) -> (r: String)
    ensures
        r@ == json_pretty(string_views(existing@).push(new_rule@)),
{
    let mut rules: Vec<String> = Vec::new();
    let n = existing.len();
    let mut i: usize = 0;
    while i < n
        invariant
            n == existing@.len(),
            i <= n,
            rules@.len() == i,
            forall|j: int| 0 <= j < i ==> #[trigger] rules@[j]@ == existing@[j]@,
        decreases n - i,
    {
        rules.push(existing[i].clone());
        i += 1;
    }
    rules.push(String::from_str(new_rule));
    assert(string_views(rules@) =~= string_views(existing@).push(new_rule@));
    to_pretty_json(&rules).unwrap()
}

/// The head of the improvement patch.
pub open spec fn patch_header(name: Seq<char>) -> Seq<char> {
    "# 🧠 NeuroPlasticity Improvement Patch\n\n"@ + "**Target Project:** `"@ + name + "`\n"@
        + "**Status:** ✅ Verified against deterministic evaluators across the entire Waterfall.\n\n"@
        + "The following behavioral constraints successfully corrected the agent's failure paths. You should permanently inject these into the target agent's system prompt or `AGENTS.md`:\n\n"@
}

/// One section per rule, numbered from 1: `### Rule <n>` and the rule
/// quoted below it.
pub open spec fn patch_rules(rules: Seq<Seq<char>>) -> Seq<char>
    decreases rules.len(),
{
    if rules.len() == 0 {
        Seq::empty()
    } else {
        patch_rules(rules.drop_last()) + "### Rule "@ + decimal(rules.len()) + "\n> "@
            + rules.last() + "\n\n"@
    }
}

/// The improvement patch for the rules of `rules_content`: `None` where
/// the file holds no JSON array of strings or an empty one.
pub open spec fn patch_spec(name: Seq<char>, rules_content: Seq<char>) -> Option<Seq<char>> {
    match json_string_array(rules_content) {
        Some(rules) => if rules.len() > 0 {
            Some(patch_header(name) + patch_rules(rules))
        } else {
            None
        },
        None => None,
    }
}

/// Writes the improvement patch (see `patch_spec`).
pub fn improvement_patch(manifest_name: &str, rules_content: &str) -> (r: Option<String>)
    ensures
        match r {
            Some(doc) => patch_spec(manifest_name@, rules_content@) == Some(doc@),
            None => patch_spec(manifest_name@, rules_content@) is None,
        },
{
    let rules = match parse_string_array(rules_content) {
        Ok(v) => v,
        Err(_) => {
            return None;
        },
    };
    if rules.len() == 0 {
        return None;
    }
    let mut doc = String::from_str("# 🧠 NeuroPlasticity Improvement Patch\n\n");
    doc.append("**Target Project:** `");
    doc.append(manifest_name);
    doc.append("`\n");
    doc.append(
        "**Status:** ✅ Verified against deterministic evaluators across the entire Waterfall.\n\n",
    );
    doc.append(
        "The following behavioral constraints successfully corrected the agent's failure paths. You should permanently inject these into the target agent's system prompt or `AGENTS.md`:\n\n",
    );
    let ghost header = doc@;
    assert(header == patch_header(manifest_name@));
    let n = rules.len();
    let mut i: usize = 0;
    while i < n
        invariant
            n == rules@.len(),
            i <= n,
            doc@ == header + patch_rules(string_views(rules@.subrange(0, i as int))),
        decreases n - i,
    {
        doc.append("### Rule ");
        let d = decimal_string((i + 1) as u64);
        doc.append(d.as_str());
        doc.append("\n> ");
        doc.append(rules[i].as_str());
        doc.append("\n\n");
        proof {
            let p = string_views(rules@.subrange(0, i + 1));
            assert(p.drop_last() =~= string_views(rules@.subrange(0, i as int)));
            assert(p.last() == rules@[i as int]@);
            assert(p.len() == i + 1);
            assert(doc@ =~= header + patch_rules(p));
        }
        i += 1;
    }
    assert(rules@.subrange(0, n as int) =~= rules@);
    Some(doc)
}

} // verus!
