//! Concrete instances of the laws the library proves.

use wicket::model::{
    ActorStanding, ClaimedBasis, Precedence, Revocation, ScopeAssertion, ValidityStatus,
};
use wicket::{
    check, BasisStatus, Evidence, EvidenceKind, Intent, OperationClass, PrecedenceResolution,
    PrecedenceStatus, Provenance, StandingClass, StandingStatus, SurfaceVerdict,
};
use wicket::EvidenceKind::{
    ActorAssertion, CommandOutput, FileHash, HumanConfirmation, PolicyRef, PriorReceipt, Prompt,
    TestLog, ToolOutput, ToolTrace,
};

const ACTOR: &str = "agent-7";
const CALL: &str = "2026-05-09T23:14:02Z";

fn ev(kind: EvidenceKind, issuer: &str, from: &str, until: &str) -> Evidence {
    Evidence {
        reference: format!("ref://{:?}/{}", kind, issuer),
        kind,
        issuer: issuer.to_string(),
        subject: ACTOR.to_string(),
        valid_from: from.to_string(),
        valid_until: until.to_string(),
        status: ValidityStatus::Valid,
    }
}

fn fresh(kind: EvidenceKind) -> Evidence {
    ev(kind, "user", "2026-05-09T22:00:00Z", "2026-05-09T23:59:00Z")
}

fn intent(op: OperationClass, standing: StandingClass, evidence: Vec<Evidence>) -> Intent {
    Intent {
        actor: ACTOR.to_string(),
        actor_standing: ActorStanding { class: standing, provenance: Provenance::CallerAsserted },
        intended_action: "git.commit".to_string(),
        operation_class: op,
        target: "docs/gaps/COVERAGE.md".to_string(),
        scope_assertion: Some(ScopeAssertion {
            scope_includes_target: true,
            provenance: Provenance::CallerAsserted,
            evidence_refs: vec!["policy://repo/CONTRIBUTING.md#write-scope".to_string()],
        }),
        claimed_basis: ClaimedBasis {
            rule: "user requested edit in current session".to_string(),
            evidence_refs: evidence,
        },
        precedence: Precedence {
            resolution: PrecedenceResolution::Active,
            superseded_by: None,
            provenance: Provenance::CallerAsserted,
            evidence_refs: vec![],
        },
        revocation: Revocation {
            basis_revoked: false,
            standing_forbidden: false,
            provenance: Provenance::CallerAsserted,
            evidence_refs: vec![],
        },
        expected_effect: "modify repository file at target path".to_string(),
        call_timestamp: CALL.to_string(),
        prev_receipt_hash: None,
    }
}


const REGISTRY: &[&str] = &[
    "BASIS_OK", "BASIS_ABSENT", "BASIS_INSUFFICIENT_FOR_OBSERVE", "BASIS_INSUFFICIENT_FOR_INTERPRET",
    "BASIS_INSUFFICIENT_FOR_RECOMMEND", "BASIS_INSUFFICIENT_FOR_AUTHORIZE",
    "BASIS_INSUFFICIENT_FOR_EXECUTE", "BASIS_INSUFFICIENT_FOR_BIND", "BASIS_TTL_EXPIRED",
    "BASIS_AMBIGUOUS_EVIDENCE_KIND", "BASIS_INADMISSIBLE_SELF_CERTIFIED",
    "BASIS_INADMISSIBLE_BIND_REQUIRES_HUMAN_CONFIRMATION", "BASIS_REVOKED", "PRECEDENCE_OK",
    "PRECEDENCE_SUPERSEDED", "PRECEDENCE_AMBIGUOUS", "PRECEDENCE_UNRESOLVED",
    "PRECEDENCE_CALLER_ASSERTED_UNVERIFIED", "STANDING_OK", "STANDING_INSUFFICIENT_FOR_OPERATION",
    "STANDING_ABSENT", "STANDING_OUT_OF_SCOPE", "STANDING_FORBIDDEN",
    "STANDING_CALLER_ASSERTED_UNVERIFIED", "STANDING_LADDER_V1_FLAT", "SCOPE_NOT_ASSERTED",
    "SCOPE_CALLER_ASSERTED_UNVERIFIED", "REVOCATION_CALLER_ASSERTED_UNVERIFIED",
    "OPEN_FINDING_ACCOUNTED", "UNACCOUNTED_INPUT", "INPUT_SCHEMA_INVALID",
    "INPUT_UNKNOWN_ENUM_VALUE", "INPUT_FUTURE_PROVENANCE_RESERVED", "RECEIPT_HASH_MISMATCH",
];

fn hc(from: &str) -> Evidence {
    ev(EvidenceKind::HumanConfirmation, "operator", from, "2026-05-10T01:00:00Z")
}

fn sample_intents() -> Vec<Intent> {
    let mut v = vec![
        intent(OperationClass::Observe, StandingClass::Observe, vec![fresh(Prompt)]),
        intent(OperationClass::Execute, StandingClass::Execute, vec![fresh(PolicyRef), fresh(TestLog)]),
        intent(OperationClass::Execute, StandingClass::Execute, vec![fresh(PolicyRef)]),
        intent(OperationClass::Recommend, StandingClass::Execute, vec![fresh(Prompt), fresh(ToolOutput)]),
        intent(OperationClass::Bind, StandingClass::Execute, vec![hc("2026-05-09T23:10:00Z"), fresh(FileHash)]),
        intent(OperationClass::Interpret, StandingClass::Observe, vec![fresh(Prompt)]),
    ];
    let mut unresolved = intent(OperationClass::Authorize, StandingClass::Authorize, vec![fresh(PolicyRef)]);
    unresolved.precedence.resolution = PrecedenceResolution::Unresolved;
    v.push(unresolved);
    let mut no_scope = intent(OperationClass::Observe, StandingClass::Observe, vec![fresh(FileHash)]);
    no_scope.scope_assertion = None;
    v.push(no_scope);
    let mut reserved = intent(OperationClass::Observe, StandingClass::Observe, vec![]);
    reserved.revocation.provenance = Provenance::Verified;
    v.push(reserved);
    v
}

#[test]
fn law_authorized_iff_all_dimensions_satisfied_example() {
    for i in sample_intents() {
        let o = check(&i);
        let all = o.dimensions.basis.status == BasisStatus::Satisfied
            && o.dimensions.precedence.status == PrecedenceStatus::Satisfied
            && o.dimensions.standing.status == StandingStatus::Satisfied
            && o.surface_verdict != SurfaceVerdict::Unaccounted
            && i.operation_class != OperationClass::Recommend;
        assert_eq!(o.surface_verdict == SurfaceVerdict::Authorized, all);
    }
}

#[test]
fn law_open_finding_is_admissible_example() {
    let o = check(&intent(OperationClass::Execute, StandingClass::Execute, vec![fresh(EvidenceKind::PolicyRef)]));
    assert_eq!(o.surface_verdict, SurfaceVerdict::Gap);
    assert_eq!(o.class, wicket::OutcomeClass::Verdict);
    assert!(o.reason_codes.iter().any(|c| c == "OPEN_FINDING_ACCOUNTED"));
    assert_eq!(o.receipt.obligation, wicket::ReceiptObligation::GapReceipt);
}

#[test]
fn law_unaccounted_iff_unclassifiable_example() {
    let mut i = intent(OperationClass::Execute, StandingClass::Execute, vec![fresh(EvidenceKind::PolicyRef)]);
    i.precedence.provenance = Provenance::Verified;
    let o = check(&i);
    assert_eq!(o.surface_verdict, SurfaceVerdict::Unaccounted);
    assert_eq!(o.class, wicket::OutcomeClass::Error);
    assert_eq!(o.reason_codes, vec!["INPUT_FUTURE_PROVENANCE_RESERVED", "UNACCOUNTED_INPUT"]);
    assert_eq!(o.receipt.obligation, wicket::ReceiptObligation::ErrorReceipt);
    let mut scoped = intent(OperationClass::Observe, StandingClass::Observe, vec![fresh(EvidenceKind::Prompt)]);
    scoped.scope_assertion.as_mut().unwrap().provenance = Provenance::Attested;
    assert_eq!(check(&scoped).surface_verdict, SurfaceVerdict::Unaccounted);
}

#[test]
fn law_revoked_basis_never_authorizes_example() {
    let mut i = intent(OperationClass::Observe, StandingClass::Execute, vec![fresh(EvidenceKind::Prompt)]);
    i.revocation.basis_revoked = true;
    let o = check(&i);
    assert_eq!(o.dimensions.basis.status, BasisStatus::Revoked);
    assert_eq!(o.surface_verdict, SurfaceVerdict::Denied);
}

#[test]
fn law_bind_needs_recent_human_confirmation_example() {
    // Confirmation issued 74 minutes before the call: too old for a bind.
    let old = check(&intent(OperationClass::Bind, StandingClass::Execute, vec![hc("2026-05-09T22:00:00Z"), fresh(FileHash)]));
    assert_eq!(old.surface_verdict, SurfaceVerdict::Denied);
    assert_eq!(old.dimensions.basis.reason_codes, vec!["BASIS_INADMISSIBLE_BIND_REQUIRES_HUMAN_CONFIRMATION"]);
    // Exactly 60 minutes is still within the window.
    let edge = check(&intent(OperationClass::Bind, StandingClass::Execute, vec![hc("2026-05-09T22:14:02Z"), fresh(FileHash)]));
    assert_eq!(edge.surface_verdict, SurfaceVerdict::Authorized);
    // A self-issued confirmation does not count either: it poisons the basis.
    let selfie = ev(HumanConfirmation, ACTOR, "2026-05-09T23:10:00Z", "2026-05-10T01:00:00Z");
    let o = check(&intent(OperationClass::Bind, StandingClass::Execute, vec![selfie, fresh(FileHash)]));
    assert_eq!(o.dimensions.basis.status, BasisStatus::Inadmissible);
}

#[test]
fn bind_citing_nothing_is_an_open_finding() {
    // With no rule and no evidence the basis is absent (soft), so the law on
    // bind confirmations is stated for intents that cite something.
    let mut i = intent(OperationClass::Bind, StandingClass::Execute, vec![]);
    i.claimed_basis.rule = "  \t".to_string();
    let o = check(&i);
    assert_eq!(o.dimensions.basis.status, BasisStatus::Absent);
    assert_eq!(o.dimensions.basis.reason_codes, vec!["BASIS_ABSENT"]);
    assert_eq!(o.surface_verdict, SurfaceVerdict::Gap);
    assert_eq!(o.allowed, vec!["supply_basis_and_evidence", "propose_recommendation"]);
}

#[test]
fn unparseable_call_timestamp_is_unaccounted() {
    let mut i = intent(OperationClass::Observe, StandingClass::Observe, vec![fresh(EvidenceKind::Prompt)]);
    i.call_timestamp = "not a time".to_string();
    let o = check(&i);
    assert_eq!(o.surface_verdict, SurfaceVerdict::Unaccounted);
    assert_eq!(o.class, wicket::OutcomeClass::Error);
    assert_eq!(o.reason_codes, vec!["INPUT_SCHEMA_INVALID", "UNACCOUNTED_INPUT"]);
    assert_eq!(o.dimensions.basis.reason_codes, vec!["INPUT_SCHEMA_INVALID"]);
    assert_eq!(o.allowed, vec!["fix_input_and_retry"]);
    assert_eq!(o.forbidden, vec!["proceed_with_unaccounted_intent"]);
    assert_eq!(o.receipt.obligation, wicket::ReceiptObligation::ErrorReceipt);
    assert_eq!(o.receipt.timestamp, "not a time");
    // Reserved provenance is reported first when both are wrong.
    i.actor_standing.provenance = Provenance::Attested;
    assert_eq!(check(&i).reason_codes, vec!["INPUT_FUTURE_PROVENANCE_RESERVED", "UNACCOUNTED_INPUT"]);
    // The basis dimension on its own still reads the timestamp as ambiguous.
    let b = wicket::rules::derive_basis(&i);
    assert_eq!(b.status, BasisStatus::Ambiguous);
    assert_eq!(b.reason_codes, vec!["BASIS_AMBIGUOUS_EVIDENCE_KIND"]);
}

#[test]
fn law_low_standing_is_denied_example() {
    let o = check(&intent(OperationClass::Authorize, StandingClass::Interpret, vec![fresh(EvidenceKind::PolicyRef)]));
    assert_eq!(o.surface_verdict, SurfaceVerdict::Denied);
    assert_eq!(o.allowed, vec!["propose_recommendation"]);
    let o = check(&intent(OperationClass::Interpret, StandingClass::Observe, vec![fresh(EvidenceKind::Prompt)]));
    assert_eq!(o.surface_verdict, SurfaceVerdict::Denied);
    assert_eq!(o.allowed, vec!["review_dimensional_accounting"]);
}

#[test]
fn law_superseded_precedence_denies_example() {
    let mut i = intent(OperationClass::Observe, StandingClass::Observe, vec![fresh(EvidenceKind::Prompt)]);
    i.precedence.resolution = PrecedenceResolution::Superseded;
    i.precedence.superseded_by = Some("rule://v2".to_string());
    let o = check(&i);
    assert_eq!(o.dimensions.precedence.status, PrecedenceStatus::Superseded);
    assert_eq!(o.surface_verdict, SurfaceVerdict::Denied);
    assert_eq!(o.allowed, vec!["adopt_superseding_rule"]);
}

#[test]
fn law_unresolved_collapses_to_ambiguous_example() {
    let mut i = intent(OperationClass::Observe, StandingClass::Observe, vec![fresh(EvidenceKind::Prompt)]);
    i.precedence.resolution = PrecedenceResolution::Unresolved;
    let o = check(&i);
    assert_eq!(o.dimensions.precedence.status, PrecedenceStatus::Ambiguous);
    assert_eq!(o.dimensions.precedence.reason_codes, vec!["PRECEDENCE_UNRESOLVED", "PRECEDENCE_CALLER_ASSERTED_UNVERIFIED"]);
    assert_eq!(o.surface_verdict, SurfaceVerdict::Gap);
    assert_eq!(o.allowed, vec!["resolve_precedence"]);
}

#[test]
fn law_scope_required_beyond_observe_example() {
    let mut i = intent(OperationClass::Execute, StandingClass::Execute, vec![fresh(EvidenceKind::PolicyRef), fresh(EvidenceKind::TestLog)]);
    i.scope_assertion = None;
    let o = check(&i);
    assert_eq!(o.dimensions.standing.status, StandingStatus::OutOfScope);
    assert_eq!(o.dimensions.standing.reason_codes, vec!["SCOPE_NOT_ASSERTED", "STANDING_LADDER_V1_FLAT"]);
    assert_eq!(o.surface_verdict, SurfaceVerdict::Denied);
    assert_eq!(o.allowed, vec!["escalate_to_authority_holder"]);
    let mut obs = intent(OperationClass::Observe, StandingClass::Observe, vec![fresh(EvidenceKind::Prompt)]);
    obs.scope_assertion = None;
    let o = check(&obs);
    assert_eq!(o.surface_verdict, SurfaceVerdict::Authorized);
    assert_eq!(o.dimensions.standing.reason_codes[0], "SCOPE_NOT_ASSERTED");
}

#[test]
fn forbidden_standing_is_denied() {
    let mut i = intent(OperationClass::Observe, StandingClass::Execute, vec![fresh(EvidenceKind::Prompt)]);
    i.revocation.standing_forbidden = true;
    let o = check(&i);
    assert_eq!(o.dimensions.standing.status, StandingStatus::Forbidden);
    assert_eq!(o.dimensions.standing.reason_codes, vec!["STANDING_FORBIDDEN", "REVOCATION_CALLER_ASSERTED_UNVERIFIED"]);
    assert_eq!(o.surface_verdict, SurfaceVerdict::Denied);
}

#[test]
fn law_recommend_is_at_most_advisory_example() {
    let o = check(&intent(OperationClass::Recommend, StandingClass::Execute, vec![fresh(EvidenceKind::HumanConfirmation), fresh(EvidenceKind::CommandOutput)]));
    assert_eq!(o.surface_verdict, SurfaceVerdict::AdvisoryOnly);
    assert_eq!(o.receipt.obligation, wicket::ReceiptObligation::AdvisoryReceipt);
}

#[test]
fn law_reason_codes_are_unique_and_registered_example() {
    for i in sample_intents() {
        let o = check(&i);
        let mut seen = std::collections::HashSet::new();
        for c in &o.reason_codes {
            assert!(seen.insert(c.clone()), "repeated code {c}");
            assert!(REGISTRY.contains(&c.as_str()), "unregistered code {c}");
        }
        for d in [&o.dimensions.basis.reason_codes, &o.dimensions.precedence.reason_codes, &o.dimensions.standing.reason_codes] {
            for c in d {
                assert!(REGISTRY.contains(&c.as_str()), "unregistered code {c}");
            }
        }
    }
}

#[test]
fn law_non_authorization_forbids_claiming_it_example() {
    for i in sample_intents() {
        let o = check(&i);
        match o.surface_verdict {
            SurfaceVerdict::Authorized => assert!(o.forbidden.is_empty()),
            SurfaceVerdict::Unaccounted => assert_eq!(o.forbidden, vec!["proceed_with_unaccounted_intent"]),
            SurfaceVerdict::AdvisoryOnly => assert!(o.forbidden.iter().any(|f| f == "claim_authorization")),
            _ => {
                assert!(o.forbidden.iter().any(|f| f == "claim_authorization"));
                assert!(o.forbidden.iter().any(|f| f == "mutate_target"));
            }
        }
    }
}

#[test]
fn law_caller_assertions_are_marked_unverified_example() {
    let o = check(&intent(OperationClass::Execute, StandingClass::Execute, vec![fresh(EvidenceKind::PolicyRef), fresh(EvidenceKind::TestLog)]));
    assert_eq!(o.surface_verdict, SurfaceVerdict::Authorized);
    assert_eq!(
        o.dimensions.standing.reason_codes,
        vec![
            "STANDING_OK",
            "STANDING_CALLER_ASSERTED_UNVERIFIED",
            "SCOPE_CALLER_ASSERTED_UNVERIFIED",
            "REVOCATION_CALLER_ASSERTED_UNVERIFIED",
            "STANDING_LADDER_V1_FLAT",
        ]
    );
}

#[test]
fn law_reason_codes_are_the_union_of_dimensions_example() {
    for i in sample_intents() {
        let o = check(&i);
        if o.surface_verdict == SurfaceVerdict::Unaccounted {
            continue;
        }
        let mut all: Vec<String> = Vec::new();
        all.extend(o.dimensions.basis.reason_codes.iter().cloned());
        all.extend(o.dimensions.precedence.reason_codes.iter().cloned());
        all.extend(o.dimensions.standing.reason_codes.iter().cloned());
        for c in &all {
            assert!(o.reason_codes.contains(c), "dimension code {c} missing at top level");
        }
        for c in &o.reason_codes {
            assert!(
                all.contains(c)
                    || (o.surface_verdict == SurfaceVerdict::Gap && c == "OPEN_FINDING_ACCOUNTED"),
                "top-level code {c} comes from no dimension"
            );
        }
        // First occurrences, in dimension order.
        let mut expected: Vec<String> = Vec::new();
        for c in &all {
            if !expected.contains(c) {
                expected.push(c.clone());
            }
        }
        assert_eq!(o.reason_codes[..expected.len()], expected[..]);
    }
}

#[test]
fn ladder_debt_is_marked_on_every_ladder_call() {
    // Forbidden standing.
    let mut forbidden = intent(OperationClass::Authorize, StandingClass::Authorize, vec![fresh(PolicyRef)]);
    forbidden.revocation.standing_forbidden = true;
    let o = check(&forbidden);
    assert_eq!(
        o.dimensions.standing.reason_codes,
        vec!["STANDING_FORBIDDEN", "REVOCATION_CALLER_ASSERTED_UNVERIFIED", "STANDING_LADDER_V1_FLAT"]
    );
    assert!(o.reason_codes.iter().any(|c| c == "STANDING_LADDER_V1_FLAT"));
    // No scope asserted.
    let mut unscoped = intent(OperationClass::Execute, StandingClass::Execute, vec![fresh(PolicyRef)]);
    unscoped.scope_assertion = None;
    assert_eq!(
        check(&unscoped).dimensions.standing.reason_codes,
        vec!["SCOPE_NOT_ASSERTED", "STANDING_LADDER_V1_FLAT"]
    );
    // Target out of scope.
    let mut outside = intent(OperationClass::Execute, StandingClass::Execute, vec![fresh(PolicyRef)]);
    outside.scope_assertion.as_mut().unwrap().scope_includes_target = false;
    assert_eq!(
        check(&outside).dimensions.standing.reason_codes,
        vec!["STANDING_OUT_OF_SCOPE", "SCOPE_CALLER_ASSERTED_UNVERIFIED", "STANDING_LADDER_V1_FLAT"]
    );
    // A bind carries the code only once the ladder is consulted.
    let mut bind_outside = intent(OperationClass::Bind, StandingClass::Execute, vec![fresh(PolicyRef)]);
    bind_outside.scope_assertion.as_mut().unwrap().scope_includes_target = false;
    assert_eq!(
        check(&bind_outside).dimensions.standing.reason_codes,
        vec!["STANDING_OUT_OF_SCOPE", "SCOPE_CALLER_ASSERTED_UNVERIFIED"]
    );
    let mut bind_forbidden = intent(OperationClass::Bind, StandingClass::Execute, vec![fresh(PolicyRef)]);
    bind_forbidden.revocation.standing_forbidden = true;
    assert_eq!(
        check(&bind_forbidden).dimensions.standing.reason_codes,
        vec!["STANDING_FORBIDDEN", "REVOCATION_CALLER_ASSERTED_UNVERIFIED"]
    );
    let mut bind_unscoped = intent(OperationClass::Bind, StandingClass::Execute, vec![fresh(PolicyRef)]);
    bind_unscoped.scope_assertion = None;
    assert_eq!(check(&bind_unscoped).dimensions.standing.reason_codes, vec!["SCOPE_NOT_ASSERTED"]);
    let bind_low = check(&intent(OperationClass::Bind, StandingClass::Recommend, vec![fresh(PolicyRef)]));
    assert_eq!(bind_low.dimensions.standing.reason_codes.last().unwrap(), "STANDING_LADDER_V1_FLAT");
    // Not a ladder class: no debt code.
    let mut observe = intent(OperationClass::Interpret, StandingClass::Interpret, vec![fresh(Prompt)]);
    observe.scope_assertion = None;
    assert_eq!(check(&observe).dimensions.standing.reason_codes, vec!["SCOPE_NOT_ASSERTED"]);
}

#[test]
fn insufficient_standing_marks_the_scope_claim_unverified() {
    let o = check(&intent(OperationClass::Execute, StandingClass::Recommend, vec![fresh(PolicyRef)]));
    assert_eq!(
        o.dimensions.standing.reason_codes,
        vec![
            "STANDING_INSUFFICIENT_FOR_OPERATION",
            "STANDING_CALLER_ASSERTED_UNVERIFIED",
            "SCOPE_CALLER_ASSERTED_UNVERIFIED",
            "STANDING_LADDER_V1_FLAT",
        ]
    );
}

#[test]
fn law_basis_status_carries_its_code_example() {
    let stale = ev(Prompt, "user", "2026-05-09T20:00:00Z", "2026-05-09T21:00:00Z");
    let o = check(&intent(OperationClass::Observe, StandingClass::Observe, vec![stale]));
    assert_eq!(o.dimensions.basis.status, BasisStatus::Stale);
    assert_eq!(o.dimensions.basis.reason_codes, vec!["BASIS_TTL_EXPIRED"]);
    let o = check(&intent(OperationClass::Execute, StandingClass::Execute, vec![]));
    assert_eq!(o.dimensions.basis.status, BasisStatus::Absent);
    assert_eq!(o.dimensions.basis.reason_codes, vec!["BASIS_ABSENT"]);
    let o = check(&intent(OperationClass::Execute, StandingClass::Execute, vec![fresh(PolicyRef)]));
    assert_eq!(o.dimensions.basis.status, BasisStatus::Insufficient);
    assert_eq!(o.dimensions.basis.reason_codes, vec!["BASIS_INSUFFICIENT_FOR_EXECUTE"]);
}

#[test]
fn law_more_evidence_keeps_basis_satisfied_example() {
    let base = || vec![fresh(PolicyRef), fresh(TestLog)];
    let o = check(&intent(OperationClass::Execute, StandingClass::Execute, base()));
    assert_eq!(o.dimensions.basis.status, BasisStatus::Satisfied);
    for extra in [
        ev(ToolOutput, "tool", "2026-05-09T20:00:00Z", "2026-05-09T21:00:00Z"),
        fresh(ActorAssertion),
        fresh(CommandOutput),
    ] {
        let mut more = base();
        more.push(extra);
        let o = check(&intent(OperationClass::Execute, StandingClass::Execute, more));
        assert_eq!(o.dimensions.basis.status, BasisStatus::Satisfied);
    }
}
