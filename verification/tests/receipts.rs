//! Canonical JSON and content addresses of intents, evidence and outcomes.

use wicket::canonical::{evidence_bytes, intent_bytes, outcome_bytes, string_bytes};
use wicket::digest::sha256_hex;
use wicket::model::{
    ActorStanding, ClaimedBasis, Precedence, Revocation, ScopeAssertion, ValidityStatus,
};
use wicket::receipt::seal;
use wicket::{
    check, Evidence, EvidenceKind, Intent, OperationClass, PrecedenceResolution, Provenance,
    StandingClass,
};

fn sample_evidence() -> Evidence {
    Evidence {
        reference: "session://prompt#current".to_string(),
        kind: EvidenceKind::Prompt,
        issuer: "user".to_string(),
        subject: "agent-7".to_string(),
        valid_from: "2026-05-09T22:00:00Z".to_string(),
        valid_until: "2026-05-09T23:00:00Z".to_string(),
        status: ValidityStatus::Valid,
    }
}

fn sample_intent() -> Intent {
    Intent {
        actor: "agent-7".to_string(),
        actor_standing: ActorStanding {
            class: StandingClass::Interpret,
            provenance: Provenance::CallerAsserted,
        },
        intended_action: "git.commit".to_string(),
        operation_class: OperationClass::Execute,
        target: "docs/gaps/COVERAGE.md".to_string(),
        scope_assertion: Some(ScopeAssertion {
            scope_includes_target: true,
            provenance: Provenance::CallerAsserted,
            evidence_refs: vec!["policy://repo/CONTRIBUTING.md#write-scope".to_string()],
        }),
        claimed_basis: ClaimedBasis {
            rule: "user said \"go\"\n\tnow \\ é".to_string(),
            evidence_refs: vec![sample_evidence()],
        },
        precedence: Precedence {
            resolution: PrecedenceResolution::Active,
            superseded_by: Some("rule://v2".to_string()),
            provenance: Provenance::CallerAsserted,
            evidence_refs: vec!["policy://repo/v1".to_string()],
        },
        revocation: Revocation {
            basis_revoked: false,
            standing_forbidden: false,
            provenance: Provenance::CallerAsserted,
            evidence_refs: vec![],
        },
        expected_effect: "modify repository file at target path".to_string(),
        call_timestamp: "2026-05-09T23:14:02Z".to_string(),
        prev_receipt_hash: Some("sha256:abc".to_string()),
    }
}

/// Re-canonicalizing with `serde_jcs` must give back the same bytes.
fn assert_canonical(bytes: &[u8]) {
    let value: serde_json::Value = serde_json::from_slice(bytes).expect("valid JSON");
    let again = serde_jcs::to_vec(&value).expect("jcs");
    assert_eq!(String::from_utf8(again).unwrap(), String::from_utf8(bytes.to_vec()).unwrap());
}

#[test]
fn evidence_canonical_json_is_exact() {
    let bytes = evidence_bytes(&sample_evidence());
    assert_eq!(
        String::from_utf8(bytes.clone()).unwrap(),
        "{\"issuer\":\"user\",\"kind\":\"prompt\",\"ref\":\"session://prompt#current\",\"status\":\"valid\",\"subject\":\"agent-7\",\"valid_from\":\"2026-05-09T22:00:00Z\",\"valid_until\":\"2026-05-09T23:00:00Z\"}"
    );
    assert_canonical(&bytes);
}

#[test]
fn intent_canonical_json_matches_jcs() {
    let bytes = intent_bytes(&sample_intent());
    assert_canonical(&bytes);
    let text = String::from_utf8(bytes).unwrap();
    assert!(text.starts_with("{\"actor\":\"agent-7\",\"actor_standing\":{\"class\":\"interpret\",\"provenance\":\"caller_asserted\"},"));
    assert!(text.contains("\"rule\":\"user said \\\"go\\\"\\n\\tnow \\\\ é\""));
    assert!(text.contains("\"superseded_by\":\"rule://v2\""));
    assert!(text.contains("\"prev_receipt_hash\":\"sha256:abc\""));
    assert!(text.ends_with("\"target\":\"docs/gaps/COVERAGE.md\"}"));
}

#[test]
fn intent_without_optional_fields_omits_them() {
    let mut i = sample_intent();
    i.scope_assertion = None;
    i.prev_receipt_hash = None;
    i.precedence.superseded_by = None;
    let text = String::from_utf8(intent_bytes(&i)).unwrap();
    assert!(!text.contains("scope_assertion"));
    assert!(!text.contains("prev_receipt_hash"));
    assert!(!text.contains("superseded_by"));
    assert_canonical(text.as_bytes());
}

#[test]
fn control_characters_escape_as_jcs_does() {
    let bytes = string_bytes("a\u{1}b\u{1f}\u{8}\u{c}\r/\u{7f}");
    assert_eq!(String::from_utf8(bytes.clone()).unwrap(), "\"a\\u0001b\\u001f\\b\\f\\r/\u{7f}\"");
    assert_canonical(&bytes);
}

#[test]
fn sha256_addresses_are_exact() {
    assert_eq!(
        sha256_hex(b""),
        "sha256:e3b0c44298fc1c149afbf4c8996fb92427ae41e4649b934ca495991b7852b855"
    );
    assert_eq!(
        sha256_hex(b"abc"),
        "sha256:ba7816bf8f01cfea414140de5dae2223b00361a396177a9cb410ff61f20015ad"
    );
}

#[test]
fn input_hash_addresses_the_canonical_intent() {
    let i = sample_intent();
    let o = check(&i);
    assert_eq!(o.receipt.input_hash, sha256_hex(&intent_bytes(&i)));
    assert_eq!(o.receipt.evidence_ref_hashes, vec![sha256_hex(&evidence_bytes(&sample_evidence()))]);
    assert_eq!(o.receipt.prev_receipt_hash.as_deref(), Some("sha256:abc"));
    assert_eq!(o.receipt.timestamp, "2026-05-09T23:14:02Z");
}

#[test]
fn receipt_id_is_the_address_of_the_outcome_with_id_blanked() {
    let o = check(&sample_intent());
    let id = o.receipt.receipt_id.clone();
    let mut blank = check(&sample_intent());
    blank.receipt.receipt_id = String::new();
    assert_eq!(id, sha256_hex(&outcome_bytes(&blank)));
    let mut resealed = check(&sample_intent());
    seal(&mut resealed);
    assert_eq!(resealed.receipt.receipt_id, id);
    assert_canonical(&outcome_bytes(&o));
}

#[test]
fn outcome_canonical_json_key_order() {
    let o = check(&sample_intent());
    let text = String::from_utf8(outcome_bytes(&o)).unwrap();
    assert!(text.starts_with("{\"allowed\":["));
    assert!(text.contains("],\"class\":\"verdict\",\"dimensions\":{\"basis\":{\"reason_codes\":["));
    assert!(text.contains("\"receipt\":{\"evidence_ref_hashes\":["));
    assert!(text.ends_with("\"surface_verdict\":\"denied\"}"));
}

#[test]
fn different_intents_get_different_receipts() {
    let a = check(&sample_intent());
    let mut other = sample_intent();
    other.target = "docs/other.md".to_string();
    let b = check(&other);
    assert_ne!(a.receipt.input_hash, b.receipt.input_hash);
    assert_ne!(a.receipt.receipt_id, b.receipt.receipt_id);
}
