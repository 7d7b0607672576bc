//! Cooking verb packets into intents, and the command-line report.

use wicket::cook::{
    auto_detect_policy_paths, cook_commit, cook_edit, cook_run, merge_policy_paths, policy_doc_candidates, policy_doc_names,
    CommitPacket, EditPacket, RunPacket, Surroundings,
};
use wicket::report::{brief_label, brief_reasons, exit_code};
use wicket::time::Timestamp;
use wicket::{
    check, EvidenceKind, OperationClass, PrecedenceResolution, Provenance, StandingClass,
    SurfaceVerdict,
};

const NOW: Timestamp = Timestamp { secs: 1778368442, nanos: 0 }; // 2026-05-09T23:14:02Z

fn env(policy_exists: Vec<bool>) -> Surroundings {
    Surroundings {
        now: NOW,
        policy_exists,
        target_contents: None,
        target_canonical: None,
        cwd_canonical: None,
        git_status: None,
    }
}

fn edit_packet() -> EditPacket {
    EditPacket {
        actor: "agent-7".to_string(),
        standing: StandingClass::Execute,
        because: "document the wrapper".to_string(),
        target: "docs/guide.md".to_string(),
        cwd: "/work/repo".to_string(),
        policy_paths: vec!["/work/repo/README.md".to_string(), "/work/repo/missing.md".to_string()],
        human_confirmation: None,
        precedence: PrecedenceResolution::Active,
        grant_evidence: None,
    }
}

#[test]
fn edit_gathers_existing_policy_and_file_hash() {
    let mut e = env(vec![true, false]);
    e.target_contents = Some(b"abc".to_vec());
    e.target_canonical = None;
    e.cwd_canonical = Some("/work/repo".to_string());
    let intent = cook_edit(edit_packet(), &e);
    assert_eq!(intent.intended_action, "fs.edit");
    assert_eq!(intent.operation_class, OperationClass::Execute);
    assert_eq!(intent.target, "docs/guide.md");
    assert_eq!(intent.expected_effect, "modify docs/guide.md");
    assert_eq!(intent.call_timestamp, "2026-05-09T23:14:02Z");
    assert_eq!(intent.actor_standing.provenance, Provenance::CallerAsserted);
    let evs = &intent.claimed_basis.evidence_refs;
    assert_eq!(evs.len(), 2);
    assert_eq!(evs[0].reference, "policy:///work/repo/README.md");
    assert_eq!(evs[0].kind, EvidenceKind::PolicyRef);
    assert_eq!(evs[0].issuer, "repo-owner");
    assert_eq!(evs[0].valid_from, "2026-05-09T22:14:02Z");
    assert_eq!(evs[0].valid_until, "2026-05-10T00:14:02Z");
    assert_eq!(
        evs[1].reference,
        "file://docs/guide.md#sha256:ba7816bf8f01cfea414140de5dae2223b00361a396177a9cb410ff61f20015ad"
    );
    assert_eq!(evs[1].kind, EvidenceKind::FileHash);
    assert_eq!(evs[1].valid_from, "2026-05-09T23:14:02Z");
    // The new file joined onto the working directory lies inside it.
    let scope = intent.scope_assertion.as_ref().expect("scope asserted");
    assert!(scope.scope_includes_target);
    assert_eq!(
        scope.evidence_refs,
        vec!["policy:///work/repo/README.md", "policy:///work/repo/missing.md"]
    );
    // Policy plus file hash is enough to execute.
    let o = check(&intent);
    assert_eq!(o.surface_verdict, SurfaceVerdict::Authorized);
}

#[test]
fn edit_without_resolvable_cwd_asserts_no_scope() {
    let intent = cook_edit(edit_packet(), &env(vec![true, true]));
    assert!(intent.scope_assertion.is_none());
    let o = check(&intent);
    assert_eq!(o.surface_verdict, SurfaceVerdict::Denied);
    assert!(o.reason_codes.iter().any(|c| c == "SCOPE_NOT_ASSERTED"));
}

#[test]
fn edit_target_outside_cwd_asserts_no_scope() {
    let mut e = env(vec![true, true]);
    e.target_canonical = Some("/elsewhere/guide.md".to_string());
    e.cwd_canonical = Some("/work/repo".to_string());
    assert!(cook_edit(edit_packet(), &e).scope_assertion.is_none());
}

#[test]
fn run_with_human_confirmation_and_grant() {
    let grant_ev = wicket::Evidence {
        reference: "wicket-grant://g.json#sha256:x".to_string(),
        kind: EvidenceKind::PolicyRef,
        issuer: "maintainer".to_string(),
        subject: "agent-7".to_string(),
        valid_from: "2026-05-09T10:00:00Z".to_string(),
        valid_until: "2026-05-10T18:00:00Z".to_string(),
        status: wicket::model::ValidityStatus::Valid,
    };
    let p = RunPacket {
        actor: "agent-7".to_string(),
        standing: StandingClass::Execute,
        because: "verify".to_string(),
        command: "cargo test --release".to_string(),
        operation_class: OperationClass::Bind,
        cwd: "/work/repo".to_string(),
        policy_paths: vec!["/work/repo/README.md".to_string()],
        human_confirmation: Some("release-mgr".to_string()),
        precedence: PrecedenceResolution::Unresolved,
        grant_evidence: Some(grant_ev),
    };
    let intent = cook_run(p, &env(vec![true]));
    assert_eq!(intent.intended_action, "shell.run: cargo test --release");
    assert_eq!(intent.target, "cargo test --release");
    assert_eq!(intent.expected_effect, "execute command: cargo test --release");
    let evs = &intent.claimed_basis.evidence_refs;
    assert_eq!(evs.len(), 3);
    assert_eq!(evs[1].reference, "human://release-mgr");
    assert_eq!(evs[1].kind, EvidenceKind::HumanConfirmation);
    assert_eq!(evs[1].issuer, "operator");
    assert_eq!(evs[1].valid_from, "2026-05-09T23:09:02Z");
    assert_eq!(evs[2].reference, "wicket-grant://g.json#sha256:x");
    assert_eq!(
        intent.scope_assertion.as_ref().unwrap().evidence_refs,
        vec!["policy:///work/repo/README.md", "cwd:///work/repo"]
    );
    assert_eq!(intent.precedence.resolution, PrecedenceResolution::Unresolved);
    // A bind with a fresh confirmation but nothing supporting it is an open finding.
    let o = check(&intent);
    assert_eq!(o.surface_verdict, SurfaceVerdict::Gap);
}

#[test]
fn commit_pins_git_status() {
    let p = CommitPacket {
        actor: "agent-7".to_string(),
        standing: StandingClass::Recommend,
        because: "checkpoint".to_string(),
        operation_class: OperationClass::Execute,
        cwd: "/work/repo".to_string(),
        policy_paths: vec![],
        human_confirmation: None,
        precedence: PrecedenceResolution::Active,
        grant_evidence: None,
    };
    let mut e = env(vec![]);
    e.git_status = Some(b"".to_vec());
    let intent = cook_commit(p, &e);
    assert_eq!(intent.target, "/work/repo@HEAD");
    assert_eq!(intent.intended_action, "git.commit");
    assert_eq!(intent.expected_effect, "create a git commit on the current branch");
    assert!(intent.scope_assertion.is_none());
    let evs = &intent.claimed_basis.evidence_refs;
    assert_eq!(evs.len(), 1);
    assert_eq!(
        evs[0].reference,
        "git:///work/repo#status:sha256:e3b0c44298fc1c149afbf4c8996fb92427ae41e4649b934ca495991b7852b855"
    );
    assert_eq!(evs[0].kind, EvidenceKind::CommandOutput);
}

#[test]
fn policy_detection_and_merge() {
    assert_eq!(policy_doc_names(), vec!["README.md"]);
    let names: Vec<String> =
        ["CONTRIBUTING.md", "POLICY.md", "README.md"].iter().map(|s| s.to_string()).collect();
    assert_eq!(
        policy_doc_candidates("/work/repo", &names),
        vec!["/work/repo/CONTRIBUTING.md", "/work/repo/POLICY.md", "/work/repo/README.md"]
    );
    assert_eq!(
        auto_detect_policy_paths("/work/repo", &names, &vec![true, true, true]),
        vec!["/work/repo/CONTRIBUTING.md", "/work/repo/POLICY.md", "/work/repo/README.md"]
    );
    assert_eq!(
        auto_detect_policy_paths("/work/repo", &names, &vec![false, true, false]),
        vec!["/work/repo/POLICY.md"]
    );
    assert_eq!(
        auto_detect_policy_paths("/work/repo", &names, &vec![true, false, true]),
        vec!["/work/repo/CONTRIBUTING.md", "/work/repo/README.md"]
    );
    assert!(auto_detect_policy_paths("/work/repo", &names, &vec![false, false, false]).is_empty());
    let merged = merge_policy_paths(
        vec!["/work/repo//README.md".to_string(), "/etc/policy.md".to_string()],
        &vec!["/work/repo/README.md".to_string(), "/work/repo/NOTES.md".to_string()],
    );
    assert_eq!(merged, vec!["/work/repo//README.md", "/etc/policy.md", "/work/repo/NOTES.md"]);
}

#[test]
fn exit_codes() {
    assert_eq!(exit_code(SurfaceVerdict::Authorized, true), 0);
    assert_eq!(exit_code(SurfaceVerdict::AdvisoryOnly, true), 0);
    assert_eq!(exit_code(SurfaceVerdict::Denied, false), 0);
    assert_eq!(exit_code(SurfaceVerdict::Denied, true), 2);
    assert_eq!(exit_code(SurfaceVerdict::Gap, false), 0);
    assert_eq!(exit_code(SurfaceVerdict::Gap, true), 2);
    assert_eq!(exit_code(SurfaceVerdict::Unaccounted, false), 2);
}

#[test]
fn brief_shows_salient_codes() {
    assert_eq!(brief_label(SurfaceVerdict::AdvisoryOnly), "ADVISORY_ONLY");
    let codes: Vec<String> = [
        "BASIS_TTL_EXPIRED",
        "PRECEDENCE_OK",
        "PRECEDENCE_CALLER_ASSERTED_UNVERIFIED",
        "BASIS_TTL_EXPIRED",
        "STANDING_LADDER_V1_FLAT",
        "STANDING_OK",
        "SCOPE_NOT_ASSERTED",
        "OPEN_FINDING_ACCOUNTED",
    ]
    .iter()
    .map(|s| s.to_string())
    .collect();
    assert_eq!(
        brief_reasons(&codes),
        vec!["BASIS_TTL_EXPIRED", "PRECEDENCE_OK", "STANDING_OK", "SCOPE_NOT_ASSERTED"]
    );
    let only_bookkeeping = vec!["STANDING_CALLER_ASSERTED_UNVERIFIED".to_string()];
    assert_eq!(brief_reasons(&only_bookkeeping), vec!["(no salient codes)"]);
}

#[test]
fn cooked_intents_are_never_unaccounted() {
    // A fractional clock reading is stamped to the second and parses back.
    let mut e = env(vec![true, false]);
    e.now = Timestamp { secs: 1778368442, nanos: 750_000_000 };
    let intent = cook_edit(edit_packet(), &e);
    assert_eq!(intent.call_timestamp, "2026-05-09T23:14:02Z");
    assert_eq!(wicket::time::parse_ts(&intent.call_timestamp), Some(Timestamp { secs: 1778368442, nanos: 0 }));
    assert_ne!(check(&intent).surface_verdict, SurfaceVerdict::Unaccounted);
    // Year 9999 still formats with four digits.
    let mut late = env(vec![true, false]);
    late.now = Timestamp { secs: 253402300000, nanos: 0 };
    let intent = cook_edit(edit_packet(), &late);
    assert_eq!(intent.call_timestamp, "9999-12-31T23:46:40Z");
    assert_ne!(check(&intent).surface_verdict, SurfaceVerdict::Unaccounted);
}

#[test]
fn cooked_bind_commit_meets_the_bind_row() {
    let p = CommitPacket {
        actor: "agent-7".to_string(),
        standing: StandingClass::Execute,
        because: "publish release".to_string(),
        operation_class: OperationClass::Bind,
        cwd: "/work/repo".to_string(),
        policy_paths: vec!["/work/repo/README.md".to_string()],
        human_confirmation: Some("release-mgr-2026-05-09".to_string()),
        precedence: PrecedenceResolution::Active,
        grant_evidence: None,
    };
    let mut e = env(vec![true]);
    e.git_status = Some(b" M src/lib.rs\n".to_vec());
    let intent = cook_commit(p, &e);
    let b = wicket::rules::derive_basis(&intent);
    assert_eq!(b.status, wicket::BasisStatus::Satisfied);
    assert_eq!(b.reason_codes, vec!["BASIS_OK"]);
    let o = check(&intent);
    assert_eq!(o.surface_verdict, SurfaceVerdict::Authorized);
    // Without the git output the confirmation alone is not enough.
    let p = CommitPacket {
        actor: "agent-7".to_string(),
        standing: StandingClass::Execute,
        because: "publish release".to_string(),
        operation_class: OperationClass::Bind,
        cwd: "/work/repo".to_string(),
        policy_paths: vec![],
        human_confirmation: Some("release-mgr-2026-05-09".to_string()),
        precedence: PrecedenceResolution::Active,
        grant_evidence: None,
    };
    let o = check(&cook_commit(p, &env(vec![])));
    assert_eq!(o.dimensions.basis.status, wicket::BasisStatus::Insufficient);
}
