//! Deterministic run fingerprints: SHA-256 over the agent command, the
//! manifest settings and the current rules, rendered in lower-case hex.

use vstd::prelude::*;
use vstd::utf8::*;
use crate::text::{opt_str_view, is_hex_char};
use crate::json::{json_string_array, json_compact, string_views, parse_string_array, to_compact_json};

verus! {

/// The SHA-256 digest of `data`, as the `sha2` crate computes it.
pub uninterp spec fn sha256(data: Seq<u8>) -> Seq<u8>;

/// `<Sha256 as Digest>::digest`: the 32-byte SHA-256 digest of `data`.
#[verifier::external_body]
fn sha256_digest(data: &[u8]) -> (r: Vec<u8>)
    ensures
        r@ == sha256(data@),
        r@.len() == 32,
{
    <sha2::Sha256 as sha2::Digest>::digest(data).to_vec()
}

/// Lower-case hexadecimal digit for `n < 16`.
pub open spec fn hex_digit(n: nat) -> char {
    if n < 10 {
        crate::text::digit(n)
    } else if n == 10 {
        'a'
    } else if n == 11 {
        'b'
    } else if n == 12 {
        'c'
    } else if n == 13 {
        'd'
    } else if n == 14 {
        'e'
    } else {
        'f'
    }
}

/// Two lower-case hex digits per byte, high nibble first.
pub open spec fn lower_hex(b: Seq<u8>) -> Seq<char>
    decreases b.len(),
{
    if b.len() == 0 {
        Seq::empty()
    } else {
        seq![hex_digit((b[0] / 16) as nat), hex_digit((b[0] % 16) as nat)] + lower_hex(
            b.drop_first(),
        )
    }
}

proof fn lemma_lower_hex_shape(b: Seq<u8>)
    ensures
        lower_hex(b).len() == 2 * b.len(),
        forall|i: int| 0 <= i < lower_hex(b).len() ==> is_hex_char(#[trigger] lower_hex(b)[i]),
    decreases b.len(),
{
    if b.len() > 0 {
        lemma_lower_hex_shape(b.drop_first());
        let hi = (b[0] / 16) as nat;
        let lo = (b[0] % 16) as nat;
        assert(is_hex_char(hex_digit(hi)));
        assert(is_hex_char(hex_digit(lo)));
        let h = lower_hex(b);
        let t = lower_hex(b.drop_first());
        assert(h == seq![hex_digit(hi), hex_digit(lo)] + t);
        assert forall|i: int| 0 <= i < h.len() implies is_hex_char(#[trigger] h[i]) by {
            if i >= 2 {
                assert(h[i] == t[i - 2]);
            }
        }
    }
}

/// `hex::encode`: each byte as two lower-case hex digits.
#[verifier::external_body]
fn hex_encode(data: &[u8]) -> (r: String)
    ensures
        r@ == lower_hex(data@),
{
    hex::encode(data)
}

/// Where the cache of failed fingerprints lives, relative to the project.
pub fn get_cache_path() -> (r: String)
    ensures
        r@ == ".neuroplasticity/failed_fingerprints.json"@,
{
    String::from_str(".neuroplasticity/failed_fingerprints.json")
}

/// UTF-8 bytes of every command part, in order, with no separator.
pub open spec fn command_bytes(cmd: Seq<Seq<char>>) -> Seq<u8>
    decreases cmd.len(),
{
    if cmd.len() == 0 {
        Seq::empty()
    } else {
        command_bytes(cmd.drop_last()) + encode_utf8(cmd.last())
    }
}

/// The bytes that stand for the rules file: nothing where it could not be
/// read; its compact re-encoding where it is a JSON array of strings (so
/// that formatting does not matter); otherwise its text as it stands.
pub open spec fn rules_bytes(content: Option<Seq<char>>) -> Seq<u8> {
    match content {
        None => Seq::empty(),
        Some(c) => match json_string_array(c) {
            Some(items) => encode_utf8(json_compact(items)),
            None => encode_utf8(c),
        },
    }
}

/// Everything that is hashed, in the order it is hashed.
pub open spec fn fingerprint_message(
    cmd: Seq<Seq<char>>,
    rules: Option<Seq<char>>,
    name: Seq<char>,
    model: Seq<char>,
    evaluators: Seq<char>,
) -> Seq<u8> {
    command_bytes(cmd) + encode_utf8(name) + encode_utf8(model) + encode_utf8(evaluators)
        + rules_bytes(rules)
}

/// The fingerprint: lower-case hex of the SHA-256 of the message.
pub open spec fn fingerprint_of(
    cmd: Seq<Seq<char>>,
    rules: Option<Seq<char>>,
    name: Seq<char>,
    model: Seq<char>,
    evaluators: Seq<char>,
) -> Seq<char> {
    lower_hex(sha256(fingerprint_message(cmd, rules, name, model, evaluators)))
}

fn append_bytes(v: &mut Vec<u8>, b: &[u8])
    ensures
        final(v)@ == old(v)@ + b@,
{
    let n = b.len();
    let mut i: usize = 0;
    while i < n
        invariant
            n == b@.len(),
            i <= n,
            v@ == old(v)@ + b@.subrange(0, i as int),
        decreases n - i,
    {
        v.push(b[i]);
        assert(b@.subrange(0, i + 1) =~= b@.subrange(0, i as int).push(b@[i as int]));
        i += 1;
    }
    assert(b@.subrange(0, n as int) =~= b@);
}

fn append_str(v: &mut Vec<u8>, s: &str)
    ensures
        final(v)@ == old(v)@ + encode_utf8(s@),
{
    append_bytes(v, s.as_bytes());
}

/// The bytes that stand for the rules file (see `rules_bytes`).
fn rules_part(content: Option<&str>) -> (r: Vec<u8>)
    ensures
        r@ == rules_bytes(opt_str_view(content)),
{
    let mut out: Vec<u8> = Vec::new();
    match content {
        None => {},
        Some(c) => match parse_string_array(c) {
            Ok(items) => {
                let m = to_compact_json(&items).unwrap();
                append_str(&mut out, m.as_str());
            },
            Err(_) => append_str(&mut out, c),
        },
    }
    assert(out@ =~= rules_bytes(opt_str_view(content)));
    out
}

/// The fingerprint of one configuration: the command parts, the manifest
/// name, the optimiser model and the serialised evaluators, then the rules
/// file's content where it could be read (`None` where it is missing or
/// unreadable), hashed with SHA-256 and written as lower-case hex.
pub fn calculate_fingerprint(
    agent_command: &[String],
    rules_content: Option<&str>,
    manifest_name: &str,
    meta_model: &str,
    evaluators_serialized: &str,
) -> (r: String)
    ensures
        r@ == fingerprint_of(
            string_views(agent_command@),
            opt_str_view(rules_content),
            manifest_name@,
            meta_model@,
            evaluators_serialized@,
        ),
        r@.len() == 64,
        forall|i: int| 0 <= i < r@.len() ==> is_hex_char(#[trigger] r@[i]),
{
    let mut msg: Vec<u8> = Vec::new();
    let n = agent_command.len();
    let mut i: usize = 0;
    while i < n
        invariant
            n == agent_command@.len(),
            i <= n,
            msg@ == command_bytes(string_views(agent_command@.subrange(0, i as int))),
        decreases n - i,
    {
        append_str(&mut msg, agent_command[i].as_str());
        proof {
            let a = string_views(agent_command@.subrange(0, i + 1));
            assert(a.drop_last() =~= string_views(agent_command@.subrange(0, i as int)));
            assert(a.last() == agent_command@[i as int]@);
        }
        i += 1;
    }
    assert(agent_command@.subrange(0, n as int) =~= agent_command@);
    append_str(&mut msg, manifest_name);
    append_str(&mut msg, meta_model);
    append_str(&mut msg, evaluators_serialized);
    let rules = rules_part(rules_content);
    append_bytes(&mut msg, rules.as_slice());
    let digest = sha256_digest(msg.as_slice());
    proof {
        lemma_lower_hex_shape(digest@);
    }
    hex_encode(digest.as_slice())
}

/// Formatting of the rules file does not matter: two rule files that
/// denote the same JSON array of strings give the same fingerprint.
pub proof fn fingerprint_ignores_rules_formatting(
    cmd: Seq<Seq<char>>,
    a: Seq<char>,
    b: Seq<char>,
    name: Seq<char>,
    model: Seq<char>,
    evaluators: Seq<char>,
)
    requires
        json_string_array(a) is Some,
        json_string_array(a) == json_string_array(b),
    ensures
        fingerprint_of(cmd, Some(a), name, model, evaluators) == fingerprint_of(
            cmd,
            Some(b),
            name,
            model,
            evaluators,
        ),
{
}

} // verus!
