use neuroplasticity::orchestrator::{
    epoch_after, epoch_begin, existing_rules, improvement_patch, is_json_file_name,
    manifest_path_from_args, rules_after_optimization, waterfall_after, waterfall_begin,
    EpochStep, WaterfallStep, EpochEvidence, epoch_passed, records_failure,
};

fn v(items: &[&str]) -> Vec<String> {
    items.iter().map(|s| s.to_string()).collect()
}

#[test]
fn manifest_path_from_command_line() {
    assert_eq!(manifest_path_from_args(&[]), "plasticity.json");
    assert_eq!(manifest_path_from_args(&v(&["tests/"])), "tests/");
    assert_eq!(manifest_path_from_args(&v(&["test", "suite/01.json"])), "suite/01.json");
    assert_eq!(manifest_path_from_args(&v(&["--verbose", "x.json", "--dry"])), "x.json");
    assert_eq!(manifest_path_from_args(&v(&["test"])), "plasticity.json");
    assert_eq!(manifest_path_from_args(&v(&["test", "--flag"])), "--flag");
}

#[test]
fn manifest_file_names() {
    assert!(is_json_file_name("01-reasoning.json"));
    assert!(!is_json_file_name(".json"));
    assert!(!is_json_file_name("notes.md"));
    assert!(!is_json_file_name("json"));
    assert!(is_json_file_name("a.b.json"));
}

#[test]
fn epoch_loop_steps() {
    assert_eq!(epoch_begin(0), EpochStep::Finish { passed: false, epochs_taken: 0 });
    assert_eq!(epoch_begin(3), EpochStep::Run { epoch: 1 });
    assert_eq!(epoch_after(1, 3, false), EpochStep::Run { epoch: 2 });
    assert_eq!(epoch_after(2, 3, true), EpochStep::Finish { passed: true, epochs_taken: 2 });
    assert_eq!(epoch_after(3, 3, false), EpochStep::Finish { passed: false, epochs_taken: 3 });
}

#[test]
fn epoch_loop_stops_at_first_pass() {
    let outcomes = [false, false, true, true];
    let mut step = epoch_begin(4);
    let mut runs = 0;
    while let EpochStep::Run { epoch } = step {
        runs += 1;
        step = epoch_after(epoch, 4, outcomes[(epoch - 1) as usize]);
    }
    assert_eq!(runs, 3);
    assert_eq!(step, EpochStep::Finish { passed: true, epochs_taken: 3 });
}

#[test]
fn waterfall_steps() {
    assert_eq!(waterfall_begin(0), None);
    assert_eq!(waterfall_begin(2), Some(WaterfallStep::Run { index: 0 }));
    assert_eq!(waterfall_after(0, 2, false, 3), WaterfallStep::Halt { index: 0 });
    assert_eq!(waterfall_after(1, 2, true, 2), WaterfallStep::Run { index: 0 });
    assert_eq!(waterfall_after(0, 2, true, 1), WaterfallStep::Run { index: 1 });
    assert_eq!(waterfall_after(1, 2, true, 1), WaterfallStep::Complete);
}

#[test]
fn waterfall_restarts_until_a_clean_pass() {
    let results = [(true, 1), (true, 2), (true, 1), (true, 1)];
    let mut step = waterfall_begin(2).unwrap();
    let mut k = 0;
    while let WaterfallStep::Run { index } = step {
        let (passed, epochs) = results[k];
        k += 1;
        step = waterfall_after(index, 2, passed, epochs);
    }
    assert_eq!(step, WaterfallStep::Complete);
    assert_eq!(k, 4);
}

#[test]
fn rules_in_force_and_appended() {
    assert!(existing_rules(None).is_empty());
    assert!(existing_rules(Some("not json")).is_empty());
    assert_eq!(existing_rules(Some("[\"Rule: a\"]")), v(&["Rule: a"]));
    let out = rules_after_optimization(&v(&["Rule: a"]), "Rule: b");
    assert_eq!(out, "[\n  \"Rule: a\",\n  \"Rule: b\"\n]");
    assert_eq!(existing_rules(Some(&out)), v(&["Rule: a", "Rule: b"]));
}

#[test]
fn improvement_patch_document() {
    assert_eq!(improvement_patch("demo", "[]"), None);
    assert_eq!(improvement_patch("demo", "{"), None);
    let doc = improvement_patch("demo", "[\"Rule: no markdown\", \"Rule: raw JSON\"]").unwrap();
    let expected = "# 🧠 NeuroPlasticity Improvement Patch\n\n**Target Project:** `demo`\n**Status:** ✅ Verified against deterministic evaluators across the entire Waterfall.\n\nThe following behavioral constraints successfully corrected the agent's failure paths. You should permanently inject these into the target agent's system prompt or `AGENTS.md`:\n\n### Rule 1\n> Rule: no markdown\n\n### Rule 2\n> Rule: raw JSON\n\n";
    assert_eq!(doc, expected);
}

#[test]
fn only_fresh_failures_are_cached() {
    assert!(!epoch_passed(EpochEvidence::Cached));
    assert!(!records_failure(EpochEvidence::Cached));
    assert!(epoch_passed(EpochEvidence::Evaluated { passed: true }));
    assert!(!records_failure(EpochEvidence::Evaluated { passed: true }));
    assert!(!epoch_passed(EpochEvidence::Evaluated { passed: false }));
    assert!(records_failure(EpochEvidence::Evaluated { passed: false }));
}
