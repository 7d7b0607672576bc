//! Doctrine fixtures: one preflight call each, with the expected verdict,
//! dimension statuses, reason codes and next actions.

use wicket::model::{
    ActorStanding, ClaimedBasis, Precedence, Revocation, ScopeAssertion, ValidityStatus,
};
use wicket::{
    check, BasisStatus, Evidence, EvidenceKind, Intent, OperationClass, Outcome,
    PrecedenceResolution, PrecedenceStatus, Provenance, StandingClass, StandingStatus,
    SurfaceVerdict,
};
use wicket::EvidenceKind::{
    ActorAssertion, CommandOutput, FileHash, HumanConfirmation, PolicyRef, PriorReceipt, Prompt,
    TestLog, ToolOutput, ToolTrace,
};
use wicket::ReceiptObligation::{
    ActionReceipt, AdvisoryReceipt, ErrorReceipt, GapReceipt, RefusalReceipt,
};

const ACTOR: &str = "agent-7";
const CALL: &str = "2026-05-09T23:14:02Z";

fn ev(kind: EvidenceKind, issuer: &str, from: &str, until: &str) -> Evidence {
    Evidence {
        reference: format!("ref://{:?}/{}", kind, issuer),
        kind,
        issuer: issuer.to_string(),
        subject: ACTOR.to_string(),
        valid_from: from.to_string(),
        valid_until: until.to_string(),
        status: ValidityStatus::Valid,
    }
}

fn fresh(kind: EvidenceKind) -> Evidence {
    ev(kind, "user", "2026-05-09T22:00:00Z", "2026-05-09T23:59:00Z")
}

fn intent(op: OperationClass, standing: StandingClass, evidence: Vec<Evidence>) -> Intent {
    Intent {
        actor: ACTOR.to_string(),
        actor_standing: ActorStanding { class: standing, provenance: Provenance::CallerAsserted },
        intended_action: "git.commit".to_string(),
        operation_class: op,
        target: "docs/gaps/COVERAGE.md".to_string(),
        scope_assertion: Some(ScopeAssertion {
            scope_includes_target: true,
            provenance: Provenance::CallerAsserted,
            evidence_refs: vec!["policy://repo/CONTRIBUTING.md#write-scope".to_string()],
        }),
        claimed_basis: ClaimedBasis {
            rule: "user requested edit in current session".to_string(),
            evidence_refs: evidence,
        },
        precedence: Precedence {
            resolution: PrecedenceResolution::Active,
            superseded_by: None,
            provenance: Provenance::CallerAsserted,
            evidence_refs: vec![],
        },
        revocation: Revocation {
            basis_revoked: false,
            standing_forbidden: false,
            provenance: Provenance::CallerAsserted,
            evidence_refs: vec![],
        },
        expected_effect: "modify repository file at target path".to_string(),
        call_timestamp: CALL.to_string(),
        prev_receipt_hash: None,
    }
}

struct Expected {
    surface: SurfaceVerdict,
    basis: BasisStatus,
    precedence: PrecedenceStatus,
    standing: StandingStatus,
    codes: &'static [&'static str],
    forbid: &'static [&'static str],
    allow: &'static [&'static str],
}

struct Fixture {
    name: &'static str,
    intent: Intent,
    expected: Expected,
}

fn fixtures() -> Vec<Fixture> {
    let mut out = Vec::new();

    out.push(Fixture {
        name: "open_finding_is_admissible",
        intent: intent(OperationClass::Execute, StandingClass::Execute, vec![fresh(PolicyRef)]),
        expected: Expected {
            surface: SurfaceVerdict::Gap,
            basis: BasisStatus::Insufficient,
            precedence: PrecedenceStatus::Satisfied,
            standing: StandingStatus::Satisfied,
            codes: &["BASIS_INSUFFICIENT_FOR_EXECUTE", "OPEN_FINDING_ACCOUNTED"],
            forbid: &["mutate_target"],
            allow: &["supply_supporting_evidence"],
        },
    });

    out.push(Fixture {
        name: "observe_with_current_basis",
        intent: intent(OperationClass::Observe, StandingClass::Observe, vec![fresh(Prompt)]),
        expected: Expected {
            surface: SurfaceVerdict::Authorized,
            basis: BasisStatus::Satisfied,
            precedence: PrecedenceStatus::Satisfied,
            standing: StandingStatus::Satisfied,
            codes: &["BASIS_OK", "PRECEDENCE_OK", "STANDING_OK"],
            forbid: &[],
            allow: &["execute_intended_action"],
        },
    });

    out.push(Fixture {
        name: "recommend_class_admissible",
        intent: intent(
            OperationClass::Recommend,
            StandingClass::Recommend,
            vec![fresh(Prompt), fresh(FileHash)],
        ),
        expected: Expected {
            surface: SurfaceVerdict::AdvisoryOnly,
            basis: BasisStatus::Satisfied,
            precedence: PrecedenceStatus::Satisfied,
            standing: StandingStatus::Satisfied,
            codes: &["BASIS_OK"],
            forbid: &["claim_authorization", "execute_recommendation_as_authorization"],
            allow: &["share_recommendation", "draft_recommendation"],
        },
    });

    out.push(Fixture {
        name: "bind_with_fresh_human_confirmation",
        intent: intent(
            OperationClass::Bind,
            StandingClass::Execute,
            vec![
                ev(HumanConfirmation, "operator", "2026-05-09T23:10:00Z", "2026-05-10T00:10:00Z"),
                fresh(TestLog),
            ],
        ),
        expected: Expected {
            surface: SurfaceVerdict::Authorized,
            basis: BasisStatus::Satisfied,
            precedence: PrecedenceStatus::Satisfied,
            standing: StandingStatus::Satisfied,
            codes: &["BASIS_OK", "STANDING_LADDER_V1_FLAT"],
            forbid: &[],
            allow: &["execute_intended_action"],
        },
    });

    out.push(Fixture {
        name: "recommend_standing_attempts_execute",
        intent: intent(
            OperationClass::Execute,
            StandingClass::Recommend,
            vec![fresh(PolicyRef), fresh(ToolTrace)],
        ),
        expected: Expected {
            surface: SurfaceVerdict::Denied,
            basis: BasisStatus::Satisfied,
            precedence: PrecedenceStatus::Satisfied,
            standing: StandingStatus::Insufficient,
            codes: &["STANDING_INSUFFICIENT_FOR_OPERATION"],
            forbid: &["mutate_target", "claim_authorization"],
            allow: &["propose_recommendation"],
        },
    });

    out.push(Fixture {
        name: "recommend_standing_attempts_bind",
        intent: intent(
            OperationClass::Bind,
            StandingClass::Recommend,
            vec![
                ev(HumanConfirmation, "operator", "2026-05-09T23:10:00Z", "2026-05-10T00:10:00Z"),
                fresh(FileHash),
            ],
        ),
        expected: Expected {
            surface: SurfaceVerdict::Denied,
            basis: BasisStatus::Satisfied,
            precedence: PrecedenceStatus::Satisfied,
            standing: StandingStatus::Insufficient,
            codes: &["STANDING_INSUFFICIENT_FOR_OPERATION", "STANDING_LADDER_V1_FLAT"],
            forbid: &["mutate_target"],
            allow: &["propose_recommendation"],
        },
    });

    // Re-entry through the basis a prior refusal already revoked.
    let mut corrective = intent(
        OperationClass::Execute,
        StandingClass::Execute,
        vec![fresh(PolicyRef), fresh(PriorReceipt), fresh(TestLog)],
    );
    corrective.revocation.basis_revoked = true;
    corrective.revocation.evidence_refs = vec!["receipt://sha256:prior-refusal".to_string()];
    out.push(Fixture {
        name: "same_basis_corrective_to_forward",
        intent: corrective,
        expected: Expected {
            surface: SurfaceVerdict::Denied,
            basis: BasisStatus::Revoked,
            precedence: PrecedenceStatus::Satisfied,
            standing: StandingStatus::Satisfied,
            codes: &["BASIS_REVOKED"],
            forbid: &["mutate_target"],
            allow: &["request_fresh_basis"],
        },
    });

    // "No rule forbids it" asserted by the actor about itself.
    let mut policy_gap = intent(
        OperationClass::Execute,
        StandingClass::Execute,
        vec![
            ev(ActorAssertion, ACTOR, "2026-05-09T22:00:00Z", "2026-05-09T23:59:00Z"),
            fresh(CommandOutput),
        ],
    );
    policy_gap.claimed_basis.rule = "no policy forbids editing this file".to_string();
    out.push(Fixture {
        name: "policy_gap_promoted_to_policy",
        intent: policy_gap,
        expected: Expected {
            surface: SurfaceVerdict::Denied,
            basis: BasisStatus::Inadmissible,
            precedence: PrecedenceStatus::Satisfied,
            standing: StandingStatus::Satisfied,
            codes: &["BASIS_INADMISSIBLE_SELF_CERTIFIED"],
            forbid: &["mutate_target"],
            allow: &["supply_admissible_basis"],
        },
    });

    let mut revoked = intent(
        OperationClass::Bind,
        StandingClass::Execute,
        vec![
            ev(HumanConfirmation, "operator", "2026-05-09T23:10:00Z", "2026-05-10T00:10:00Z"),
            fresh(TestLog),
        ],
    );
    revoked.revocation.basis_revoked = true;
    out.push(Fixture {
        name: "revoked_basis_irreversible_action",
        intent: revoked,
        expected: Expected {
            surface: SurfaceVerdict::Denied,
            basis: BasisStatus::Revoked,
            precedence: PrecedenceStatus::Satisfied,
            standing: StandingStatus::Satisfied,
            codes: &["BASIS_REVOKED"],
            forbid: &["mutate_target"],
            allow: &["request_fresh_basis"],
        },
    });

    out.push(Fixture {
        name: "stale_evidence_past_window",
        intent: intent(
            OperationClass::Execute,
            StandingClass::Execute,
            vec![
                ev(PolicyRef, "user", "2026-05-09T20:00:00Z", "2026-05-09T21:00:00Z"),
                ev(ToolTrace, "tool", "2026-05-09T20:00:00Z", "2026-05-09T21:00:00Z"),
            ],
        ),
        expected: Expected {
            surface: SurfaceVerdict::Gap,
            basis: BasisStatus::Stale,
            precedence: PrecedenceStatus::Satisfied,
            standing: StandingStatus::Satisfied,
            codes: &["BASIS_TTL_EXPIRED", "OPEN_FINDING_ACCOUNTED"],
            forbid: &["mutate_target", "claim_authorization"],
            allow: &["request_fresh_basis", "propose_recommendation"],
        },
    });

    out.push(Fixture {
        name: "self_certification_as_evidence",
        intent: intent(
            OperationClass::Execute,
            StandingClass::Execute,
            vec![
                fresh(PolicyRef),
                fresh(TestLog),
                ev(ActorAssertion, ACTOR, "2026-05-09T22:00:00Z", "2026-05-09T23:59:00Z"),
            ],
        ),
        expected: Expected {
            surface: SurfaceVerdict::Denied,
            basis: BasisStatus::Inadmissible,
            precedence: PrecedenceStatus::Satisfied,
            standing: StandingStatus::Satisfied,
            codes: &["BASIS_INADMISSIBLE_SELF_CERTIFIED"],
            forbid: &["mutate_target"],
            allow: &["supply_admissible_basis"],
        },
    });

    out.push(Fixture {
        name: "bind_without_human_confirmation",
        intent: intent(
            OperationClass::Bind,
            StandingClass::Execute,
            vec![fresh(PolicyRef), fresh(TestLog)],
        ),
        expected: Expected {
            surface: SurfaceVerdict::Denied,
            basis: BasisStatus::Inadmissible,
            precedence: PrecedenceStatus::Satisfied,
            standing: StandingStatus::Satisfied,
            codes: &["BASIS_INADMISSIBLE_BIND_REQUIRES_HUMAN_CONFIRMATION"],
            forbid: &["mutate_target"],
            allow: &["supply_admissible_basis"],
        },
    });

    out.push(Fixture {
        name: "bind_with_human_confirmation_but_no_supporting_refs",
        intent: intent(
            OperationClass::Bind,
            StandingClass::Execute,
            vec![ev(HumanConfirmation, "operator", "2026-05-09T23:10:00Z", "2026-05-10T00:10:00Z")],
        ),
        expected: Expected {
            surface: SurfaceVerdict::Gap,
            basis: BasisStatus::Insufficient,
            precedence: PrecedenceStatus::Satisfied,
            standing: StandingStatus::Satisfied,
            codes: &["BASIS_INSUFFICIENT_FOR_BIND", "OPEN_FINDING_ACCOUNTED"],
            forbid: &["mutate_target"],
            allow: &["supply_supporting_evidence"],
        },
    });

    let mut reserved = intent(OperationClass::Observe, StandingClass::Observe, vec![fresh(Prompt)]);
    reserved.actor_standing.provenance = Provenance::Attested;
    out.push(Fixture {
        name: "reserved_provenance_is_unaccounted",
        intent: reserved,
        expected: Expected {
            surface: SurfaceVerdict::Unaccounted,
            basis: BasisStatus::Ambiguous,
            precedence: PrecedenceStatus::Ambiguous,
            standing: StandingStatus::Insufficient,
            codes: &["INPUT_FUTURE_PROVENANCE_RESERVED", "UNACCOUNTED_INPUT"],
            forbid: &["proceed_with_unaccounted_intent"],
            allow: &["fix_input_and_retry"],
        },
    });

    out
}

fn mismatches(name: &str, o: &Outcome, e: &Expected) -> Vec<String> {
    let mut local = Vec::new();
    if o.surface_verdict != e.surface {
        local.push(format!("{name}: verdict {:?}, wanted {:?}", o.surface_verdict, e.surface));
    }
    if o.dimensions.basis.status != e.basis {
        local.push(format!("{name}: basis.status: got {:?}, expected {:?}", o.dimensions.basis.status, e.basis));
    }
    if o.dimensions.precedence.status != e.precedence {
        local.push(format!(
            "{name}: precedence.status: got {:?}, expected {:?}",
            o.dimensions.precedence.status, e.precedence
        ));
    }
    if o.dimensions.standing.status != e.standing {
        local.push(format!(
            "{name}: standing.status: got {:?}, expected {:?}",
            o.dimensions.standing.status, e.standing
        ));
    }
    for code in e.codes {
        if !o.reason_codes.iter().any(|c| c == code) {
            local.push(format!("{name}: missing reason_code {code}; got {:?}", o.reason_codes));
        }
    }
    for f in e.forbid {
        if !o.forbidden.iter().any(|c| c == f) {
            local.push(format!("{name}: missing forbidden {f}; got {:?}", o.forbidden));
        }
    }
    for a in e.allow {
        if !o.allowed.iter().any(|c| c == a) {
            local.push(format!("{name}: missing allowed {a}; got {:?}", o.allowed));
        }
    }
    local
}

#[test]
fn all_executable_fixtures_match_expected() {
    let mut failures: Vec<String> = Vec::new();
    let mut executed = 0usize;
    for f in fixtures() {
        executed += 1;
        let outcome = check(&f.intent);
        failures.extend(mismatches(f.name, &outcome, &f.expected));
    }
    assert!(executed >= 13, "expected at least 13 executable fixtures, got {executed}");
    if !failures.is_empty() {
        panic!("\n{} fixture failures:\n\n{}\n", failures.len(), failures.join("\n"));
    }
}

#[test]
fn receipts_are_content_addressed_and_stable() {
    for f in fixtures() {
        let a = check(&f.intent);
        let b = check(&f.intent);
        assert_eq!(a.receipt.receipt_id, b.receipt.receipt_id, "fixture {}: receipt_id not stable", f.name);
        assert!(
            a.receipt.receipt_id.starts_with("sha256:"),
            "fixture {}: receipt_id not sha256-prefixed: {}",
            f.name,
            a.receipt.receipt_id
        );
        assert_eq!(
            a.receipt.receipt_id.len(),
            "sha256:".len() + 64,
            "fixture {}: receipt_id wrong length: {}",
            f.name,
            a.receipt.receipt_id
        );
    }
}

#[test]
fn every_fixture_owes_the_receipt_of_its_verdict() {
    for f in fixtures() {
        let o = check(&f.intent);
        let expected = match o.surface_verdict {
            SurfaceVerdict::Authorized => ActionReceipt,
            SurfaceVerdict::AdvisoryOnly => AdvisoryReceipt,
            SurfaceVerdict::Denied => RefusalReceipt,
            SurfaceVerdict::Gap => GapReceipt,
            SurfaceVerdict::Unaccounted => ErrorReceipt,
        };
        assert_eq!(o.receipt.obligation, expected, "fixture {}", f.name);
        assert_eq!(o.receipt.timestamp, CALL);
        assert_eq!(o.receipt.evidence_ref_hashes.len(), f.intent.claimed_basis.evidence_refs.len());
    }
}

#[test]
fn observe_authorized_reason_codes_in_dimension_order() {
    let o = check(&intent(OperationClass::Observe, StandingClass::Observe, vec![fresh(EvidenceKind::Prompt)]));
    assert_eq!(
        o.reason_codes,
        vec![
            "BASIS_OK",
            "PRECEDENCE_OK",
            "PRECEDENCE_CALLER_ASSERTED_UNVERIFIED",
            "STANDING_OK",
            "STANDING_CALLER_ASSERTED_UNVERIFIED",
            "SCOPE_CALLER_ASSERTED_UNVERIFIED",
            "REVOCATION_CALLER_ASSERTED_UNVERIFIED",
        ]
    );
    assert!(o.forbidden.is_empty());
    assert_eq!(o.class, wicket::OutcomeClass::Verdict);
}

#[test]
fn stale_gap_lists_codes_exactly() {
    let o = check(&intent(
        OperationClass::Execute,
        StandingClass::Execute,
        vec![ev(EvidenceKind::PolicyRef, "user", "2026-05-09T20:00:00Z", "2026-05-09T21:00:00Z")],
    ));
    assert_eq!(o.dimensions.basis.reason_codes, vec!["BASIS_TTL_EXPIRED"]);
    assert_eq!(
        o.reason_codes,
        vec![
            "BASIS_TTL_EXPIRED",
            "PRECEDENCE_OK",
            "PRECEDENCE_CALLER_ASSERTED_UNVERIFIED",
            "STANDING_OK",
            "STANDING_CALLER_ASSERTED_UNVERIFIED",
            "SCOPE_CALLER_ASSERTED_UNVERIFIED",
            "REVOCATION_CALLER_ASSERTED_UNVERIFIED",
            "STANDING_LADDER_V1_FLAT",
            "OPEN_FINDING_ACCOUNTED",
        ]
    );
    assert_eq!(o.allowed, vec!["request_fresh_basis", "propose_recommendation"]);
    assert_eq!(o.forbidden, vec!["mutate_target", "claim_authorization"]);
}
