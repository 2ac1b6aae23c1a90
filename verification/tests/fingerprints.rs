use neuroplasticity::fingerprint::{calculate_fingerprint, get_cache_path};
use sha2::{Digest, Sha256};

fn reference(parts: &[&str]) -> String {
    let mut h = Sha256::new();
    for p in parts {
        h.update(p.as_bytes());
    }
    hex::encode(h.finalize())
}

#[test]
fn cache_path_is_fixed() {
    assert_eq!(get_cache_path(), ".neuroplasticity/failed_fingerprints.json");
}

#[test]
fn empty_configuration_hashes_nothing() {
    assert_eq!(
        calculate_fingerprint(&[], None, "", "", ""),
        "e3b0c44298fc1c149afbf4c8996fb92427ae41e4649b934ca495991b7852b855"
    );
}

#[test]
fn fingerprint_covers_command_manifest_and_rules() {
    let cmd = vec!["bash".to_string(), "-c".to_string(), "run".to_string()];
    let fp = calculate_fingerprint(&cmd, Some("not json"), "demo", "qwen", "[]");
    assert_eq!(fp, reference(&["bash", "-c", "run", "demo", "qwen", "[]", "not json"]));
    assert_eq!(fp.len(), 64);
}

#[test]
fn rules_are_hashed_in_compact_form() {
    let cmd = vec!["agent".to_string()];
    let pretty = "[\n  \"Rule: a\",\n  \"Rule: b\"\n]";
    let fp = calculate_fingerprint(&cmd, Some(pretty), "n", "m", "e");
    assert_eq!(fp, reference(&["agent", "n", "m", "e", "[\"Rule: a\",\"Rule: b\"]"]));
}

#[test]
fn rule_formatting_does_not_change_fingerprint() {
    let cmd = vec!["agent".to_string()];
    let a = calculate_fingerprint(&cmd, Some("[\"x\",\"y\"]"), "n", "m", "e");
    let b = calculate_fingerprint(&cmd, Some("[ \"x\" ,\n \"y\" ]"), "n", "m", "e");
    assert_eq!(a, b);
    let c = calculate_fingerprint(&cmd, Some("[\"x\"]"), "n", "m", "e");
    assert_ne!(a, c);
}

#[test]
fn missing_rules_differ_from_empty_rules() {
    let cmd = vec!["agent".to_string()];
    let none = calculate_fingerprint(&cmd, None, "n", "m", "e");
    let empty = calculate_fingerprint(&cmd, Some("[]"), "n", "m", "e");
    assert_ne!(none, empty);
    assert_eq!(none, reference(&["agent", "n", "m", "e"]));
}

#[test]
fn fingerprints_are_sixty_four_hex_digits() {
    let cmd = vec!["a b".to_string(), "ü".to_string()];
    let fp = calculate_fingerprint(&cmd, Some("[\"r\"]"), "name", "model", "[{}]");
    assert_eq!(fp.len(), 64);
    assert!(fp.chars().all(|c| c.is_ascii_digit() || ('a'..='f').contains(&c)));
    assert_eq!(fp, calculate_fingerprint(&cmd, Some("[\"r\"]"), "name", "model", "[{}]"));
}
