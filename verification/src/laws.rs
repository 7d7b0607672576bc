//! What holds of every preflight call: the doctrine of the verdict, the
//! receipt, and the reason codes, stated over the outcome that [`crate::check`]
//! returns (its contract is `outcome_spec`).
use vstd::prelude::*;

use crate::codes;
use crate::digest::content_address;
use crate::canonical::{
    actor_standing_json, claimed_basis_json, evidence_json, evidence_kind_name, intent_json,
    intent_members, json_object, json_string, precedence_json, revocation_json, validity_name,
};
use crate::model::{
    BasisStatus, Evidence, EvidenceKind, EvidenceView, Intent, ValidityStatus, strs, OperationClass, OutcomeClass, PrecedenceResolution, PrecedenceStatus,
    Provenance, ReceiptObligation, StandingClass, StandingStatus, SurfaceVerdict, opt_str, standing_rank,
};
use crate::cook::{
    CommitPacket, EditPacket, RunPacket, Surroundings, cook_commit_spec, cook_edit_spec,
    cook_run_spec, file_hash_spec, git_status_spec, human_conf_spec, policy_refs_spec,
    tail_evidence,
};
use crate::grant::{Grant, GrantCheck, ResolvedPaths, grant_evidence_spec, grant_id_spec, validate_spec};
use crate::paths::spec_path_starts_with;
use crate::report::exit_code_spec;
use crate::receipt::outcome_address;
use crate::report::{is_bookkeeping, salient_spec};
use crate::rules::{
    any_self_cert, caller_asserted, flat_ladder_class, counts, has_kind, is_self_cert, sufficiency_spec,
    within_an_hour, code_if, is_blank, basis_spec, clocks_spec, has_recent_confirmation, precedence_spec,
    standing_spec, future_provenance_spec,
};
use crate::time::{
    Timestamp, parsed_instant, spec_format_utc_seconds, spec_minutes_between, spec_shift_minutes,
};
use crate::verdict::{
    allowed_spec, dedup, gap_allowed_spec, surface_spec, top_codes_spec, forbidden_spec, input_fault_code, lemma_outcome_fields, outcome_spec,
    outcome_unsealed, standing_denies, unaccounted_spec,
};

verus! {

/// Every reason code of the v1 registry.
pub open spec fn registry() -> Seq<Seq<char>> {
    seq![
        codes::BASIS_OK@, codes::BASIS_ABSENT@, codes::BASIS_INSUFFICIENT_FOR_OBSERVE@,
        codes::BASIS_INSUFFICIENT_FOR_INTERPRET@, codes::BASIS_INSUFFICIENT_FOR_RECOMMEND@,
        codes::BASIS_INSUFFICIENT_FOR_AUTHORIZE@, codes::BASIS_INSUFFICIENT_FOR_EXECUTE@,
        codes::BASIS_INSUFFICIENT_FOR_BIND@, codes::BASIS_TTL_EXPIRED@,
        codes::BASIS_AMBIGUOUS_EVIDENCE_KIND@, codes::BASIS_INADMISSIBLE_SELF_CERTIFIED@,
        codes::BASIS_INADMISSIBLE_BIND_REQUIRES_HUMAN_CONFIRMATION@, codes::BASIS_REVOKED@,
        codes::PRECEDENCE_OK@, codes::PRECEDENCE_SUPERSEDED@, codes::PRECEDENCE_AMBIGUOUS@,
        codes::PRECEDENCE_UNRESOLVED@, codes::PRECEDENCE_CALLER_ASSERTED_UNVERIFIED@,
        codes::STANDING_OK@, codes::STANDING_INSUFFICIENT_FOR_OPERATION@,
        codes::STANDING_ABSENT@, codes::STANDING_OUT_OF_SCOPE@, codes::STANDING_FORBIDDEN@,
        codes::STANDING_CALLER_ASSERTED_UNVERIFIED@, codes::STANDING_LADDER_V1_FLAT@,
        codes::SCOPE_NOT_ASSERTED@, codes::SCOPE_CALLER_ASSERTED_UNVERIFIED@,
        codes::REVOCATION_CALLER_ASSERTED_UNVERIFIED@, codes::OPEN_FINDING_ACCOUNTED@,
        codes::UNACCOUNTED_INPUT@, codes::INPUT_SCHEMA_INVALID@,
        codes::INPUT_UNKNOWN_ENUM_VALUE@, codes::INPUT_FUTURE_PROVENANCE_RESERVED@,
        codes::RECEIPT_HASH_MISMATCH@,
    ]
}

/// Every element of `s` is a registered reason code.
pub open spec fn all_registered(s: Seq<Seq<char>>) -> bool {
    forall|k: int| 0 <= k < s.len() ==> registry().contains(#[trigger] s[k])
}

/// The intent can be classified under the v1 model: no reserved
/// provenance, and a call timestamp that parses.
pub open spec fn classifiable(intent: Intent) -> bool {
    !unaccounted_spec(intent)
}

// ---------------------------------------------------------------------------
// The surface verdict
// ---------------------------------------------------------------------------
/// The verdict is dimensional: an operation is authorized exactly when the
/// intent is classifiable, basis, precedence and standing are all satisfied,
/// and the operation is not a recommendation (which is advisory at best).
pub proof fn law_authorized_iff_all_dimensions_satisfied(intent: Intent)
    ensures
        outcome_spec(intent).surface_verdict == SurfaceVerdict::Authorized <==> {
            &&& classifiable(intent)
            &&& basis_spec(intent).status == BasisStatus::Satisfied
            &&& precedence_spec(intent).status == PrecedenceStatus::Satisfied
            &&& standing_spec(intent).status == StandingStatus::Satisfied
            &&& intent.operation_class != OperationClass::Recommend
        },
{
    lemma_outcome_fields(intent);
}

/// The outcome reports the dimensions it was derived from.
pub proof fn law_outcome_reports_its_dimensions(intent: Intent)
    requires
        classifiable(intent),
    ensures
        outcome_spec(intent).basis == basis_spec(intent),
        outcome_spec(intent).precedence == precedence_spec(intent),
        outcome_spec(intent).standing == standing_spec(intent),
        outcome_spec(intent).operation_class == intent.operation_class,
{
    lemma_outcome_fields(intent);
}

/// An open finding is admissible: `gap` comes exactly when nothing is in a
/// hard state and the basis is soft-unsatisfied or precedence ambiguous; it
/// is a verdict (not an error), carries `OPEN_FINDING_ACCOUNTED`, owes a gap
/// receipt, and still forbids mutating the target.
pub proof fn law_open_finding_is_admissible(intent: Intent)
    ensures
        outcome_spec(intent).surface_verdict == SurfaceVerdict::Gap <==> {
            &&& classifiable(intent)
            &&& !basis_spec(intent).status.spec_is_hard()
            &&& precedence_spec(intent).status != PrecedenceStatus::Superseded
            &&& !standing_denies(standing_spec(intent).status)
            &&& (basis_spec(intent).status.spec_is_soft_unsatisfied()
                || precedence_spec(intent).status == PrecedenceStatus::Ambiguous)
        },
        outcome_spec(intent).surface_verdict == SurfaceVerdict::Gap ==> {
            &&& outcome_spec(intent).class == OutcomeClass::Verdict
            &&& outcome_spec(intent).reason_codes.contains(codes::OPEN_FINDING_ACCOUNTED@)
            &&& outcome_spec(intent).receipt.obligation == ReceiptObligation::GapReceipt
            &&& outcome_spec(intent).forbidden.contains("mutate_target"@)
        },
{
    lemma_outcome_fields(intent);
    let o = outcome_spec(intent);
    if o.surface_verdict == SurfaceVerdict::Gap {
        let u = dedup(
            basis_spec(intent).reason_codes + precedence_spec(intent).reason_codes + standing_spec(
                intent,
            ).reason_codes,
        );
        if !u.contains(codes::OPEN_FINDING_ACCOUNTED@) {
            assert(u.push(codes::OPEN_FINDING_ACCOUNTED@).last() == codes::OPEN_FINDING_ACCOUNTED@);
        }
        assert(o.forbidden[0] == "mutate_target"@);
    }
}

/// `unaccounted` is the only error-class verdict, and it comes exactly when
/// the intent cannot be classified: some provenance field uses a reserved
/// value (reported as `INPUT_FUTURE_PROVENANCE_RESERVED`), or the call
/// timestamp does not parse (reported as `INPUT_SCHEMA_INVALID`). It carries
/// `UNACCOUNTED_INPUT` and owes an error receipt.
pub proof fn law_unaccounted_iff_unclassifiable(intent: Intent)
    ensures
        outcome_spec(intent).surface_verdict == SurfaceVerdict::Unaccounted <==> !classifiable(
            intent,
        ),
        outcome_spec(intent).class == OutcomeClass::Error <==> !classifiable(intent),
        !classifiable(intent) ==> {
            &&& outcome_spec(intent).reason_codes.contains(codes::UNACCOUNTED_INPUT@)
            &&& outcome_spec(intent).receipt.obligation == ReceiptObligation::ErrorReceipt
            &&& outcome_spec(intent).reason_codes[0] == if future_provenance_spec(intent) {
                codes::INPUT_FUTURE_PROVENANCE_RESERVED@
            } else {
                codes::INPUT_SCHEMA_INVALID@
            }
        },
{
    lemma_outcome_fields(intent);
    if !classifiable(intent) {
        assert(outcome_spec(intent).reason_codes[1] == codes::UNACCOUNTED_INPUT@);
    }
}

/// Soft and hard basis failures part ways: a hard one (revoked,
/// inadmissible) denies; a soft one gaps unless something else denies.
pub proof fn law_soft_gap_hard_denied(intent: Intent)
    requires
        classifiable(intent),
    ensures
        basis_spec(intent).status.spec_is_hard() ==> outcome_spec(intent).surface_verdict
            == SurfaceVerdict::Denied,
        basis_spec(intent).status.spec_is_soft_unsatisfied() && precedence_spec(intent).status
            != PrecedenceStatus::Superseded && !standing_denies(standing_spec(intent).status)
            ==> outcome_spec(intent).surface_verdict == SurfaceVerdict::Gap,
{
    lemma_outcome_fields(intent);
}

/// A revoked basis can never authorize: the basis is `revoked` and the
/// operation denied (or, with reserved provenance, unaccounted).
pub proof fn law_revoked_basis_never_authorizes(intent: Intent)
    requires
        intent.revocation.basis_revoked,
    ensures
        classifiable(intent) ==> basis_spec(intent).status == BasisStatus::Revoked,
        classifiable(intent) ==> outcome_spec(intent).surface_verdict == SurfaceVerdict::Denied,
        outcome_spec(intent).surface_verdict != SurfaceVerdict::Authorized,
{
    reveal(basis_spec);
    lemma_outcome_fields(intent);
}

/// Stale evidence cannot authorize anything.
pub proof fn law_stale_basis_never_authorizes(intent: Intent)
    requires
        basis_spec(intent).status == BasisStatus::Stale,
    ensures
        outcome_spec(intent).surface_verdict != SurfaceVerdict::Authorized,
{
    lemma_outcome_fields(intent);
}

/// Self-certified evidence anywhere in the basis poisons it: the operation
/// is denied.
pub proof fn law_self_certification_denies(intent: Intent)
    requires
        classifiable(intent),
        any_self_cert(intent),
    ensures
        basis_spec(intent).status == BasisStatus::Revoked || basis_spec(intent).status
            == BasisStatus::Inadmissible,
        outcome_spec(intent).surface_verdict == SurfaceVerdict::Denied,
{
    reveal(basis_spec);
    lemma_outcome_fields(intent);
}

/// Each basis status is reported with its own code: `BASIS_OK` when
/// satisfied, `BASIS_TTL_EXPIRED` alone when stale, `BASIS_ABSENT` alone when
/// absent, `BASIS_REVOKED` when revoked, the ambiguous-kind code when
/// ambiguous, one `BASIS_INSUFFICIENT_FOR_*` code when insufficient, and one
/// `BASIS_INADMISSIBLE_*` code when inadmissible.
pub proof fn law_basis_status_carries_its_code(intent: Intent)
    ensures
        ({
            let b = basis_spec(intent);
            &&& b.reason_codes.len() == 1
            &&& b.status == BasisStatus::Satisfied ==> b.reason_codes[0] == codes::BASIS_OK@
            &&& b.status == BasisStatus::Stale ==> b.reason_codes[0] == codes::BASIS_TTL_EXPIRED@
            &&& b.status == BasisStatus::Absent ==> b.reason_codes[0] == codes::BASIS_ABSENT@
            &&& b.status == BasisStatus::Revoked ==> b.reason_codes[0] == codes::BASIS_REVOKED@
            &&& b.status == BasisStatus::Ambiguous ==> b.reason_codes[0]
                == codes::BASIS_AMBIGUOUS_EVIDENCE_KIND@
            &&& b.status == BasisStatus::Insufficient ==> {
                ||| b.reason_codes[0] == codes::BASIS_INSUFFICIENT_FOR_OBSERVE@
                ||| b.reason_codes[0] == codes::BASIS_INSUFFICIENT_FOR_INTERPRET@
                ||| b.reason_codes[0] == codes::BASIS_INSUFFICIENT_FOR_RECOMMEND@
                ||| b.reason_codes[0] == codes::BASIS_INSUFFICIENT_FOR_AUTHORIZE@
                ||| b.reason_codes[0] == codes::BASIS_INSUFFICIENT_FOR_EXECUTE@
                ||| b.reason_codes[0] == codes::BASIS_INSUFFICIENT_FOR_BIND@
            }
            &&& b.status == BasisStatus::Inadmissible ==> {
                ||| b.reason_codes[0] == codes::BASIS_INADMISSIBLE_SELF_CERTIFIED@
                ||| b.reason_codes[0] == codes::BASIS_INADMISSIBLE_BIND_REQUIRES_HUMAN_CONFIRMATION@
            }
        }),
{
    reveal(basis_spec);
}

proof fn lemma_clocks_extend(a: Intent, b: Intent, e: Evidence)
    requires
        b.call_timestamp@ == a.call_timestamp@,
        b.claimed_basis.evidence_refs@ == a.claimed_basis.evidence_refs@.push(e),
    ensures
        forall|i: int|
            0 <= i < a.claimed_basis.evidence_refs@.len() ==> #[trigger] clocks_spec(b)[i]
                == clocks_spec(a)[i],
        clocks_spec(b).len() == clocks_spec(a).len() + 1,
{
    assert forall|i: int| 0 <= i < a.claimed_basis.evidence_refs@.len() implies #[trigger] clocks_spec(
        b,
    )[i] == clocks_spec(a)[i] by {
        assert(b.claimed_basis.evidence_refs@[i] == a.claimed_basis.evidence_refs@[i]);
    }
}

/// Adding evidence never takes a satisfied basis away: when the basis of `a`
/// is satisfied and `b` is `a` with one more evidence ref that is not
/// self-certified (everything the basis reads otherwise unchanged), the basis
/// of `b` is satisfied too.
pub proof fn law_more_evidence_keeps_basis_satisfied(a: Intent, b: Intent, e: Evidence)
    requires
        b.actor@ == a.actor@,
        b.revocation.basis_revoked == a.revocation.basis_revoked,
        b.call_timestamp@ == a.call_timestamp@,
        b.claimed_basis.rule@ == a.claimed_basis.rule@,
        b.operation_class == a.operation_class,
        b.claimed_basis.evidence_refs@ == a.claimed_basis.evidence_refs@.push(e),
        !is_self_cert(e, a.actor@),
        basis_spec(a).status == BasisStatus::Satisfied,
    ensures
        basis_spec(b).status == BasisStatus::Satisfied,
{
    reveal(basis_spec);
    lemma_clocks_extend(a, b, e);
    let ca = clocks_spec(a);
    let cb = clocks_spec(b);
    let n = a.claimed_basis.evidence_refs@.len();
    let c = parsed_instant(a.call_timestamp@).unwrap();
    assert forall|i: int| 0 <= i < n implies #[trigger] counts(b, cb, c, i) == counts(a, ca, c, i) by {
        assert(b.claimed_basis.evidence_refs@[i] == a.claimed_basis.evidence_refs@[i]);
        assert(cb[i] == ca[i]);
    }
    assert forall|k: EvidenceKind| has_kind(a, ca, c, k) implies has_kind(b, cb, c, k) by {
        let i = choose|i: int|
            0 <= i < n && #[trigger] counts(a, ca, c, i) && a.claimed_basis.evidence_refs@[i].kind
                == k;
        assert(counts(b, cb, c, i));
        assert(b.claimed_basis.evidence_refs@[i] == a.claimed_basis.evidence_refs@[i]);
    }
    if has_recent_confirmation(a, ca, c) {
        let i = choose|i: int|
            0 <= i < n && #[trigger] counts(a, ca, c, i) && a.claimed_basis.evidence_refs@[i].kind
                == EvidenceKind::HumanConfirmation && within_an_hour(ca[i].minutes_since_valid_from);
        assert(counts(b, cb, c, i));
        assert(b.claimed_basis.evidence_refs@[i] == a.claimed_basis.evidence_refs@[i]);
        assert(cb[i] == ca[i]);
        assert(has_recent_confirmation(b, cb, c));
    }
    assert(!any_self_cert(b)) by {
        if any_self_cert(b) {
            let j = choose|j: int|
                0 <= j < b.claimed_basis.evidence_refs@.len() && is_self_cert(
                    #[trigger] b.claimed_basis.evidence_refs@[j],
                    b.actor@,
                );
            if j < n {
                assert(b.claimed_basis.evidence_refs@[j] == a.claimed_basis.evidence_refs@[j]);
                assert(any_self_cert(a));
            } else {
                assert(b.claimed_basis.evidence_refs@[j] == e);
            }
        }
    }
    assert(b.claimed_basis.evidence_refs@.len() > 0);
    assert(sufficiency_spec(a, ca, c) is Met);
    assert(has_kind(a, ca, c, EvidenceKind::Prompt) ==> has_kind(b, cb, c, EvidenceKind::Prompt));
    assert(has_kind(a, ca, c, EvidenceKind::PolicyRef) ==> has_kind(b, cb, c, EvidenceKind::PolicyRef));
    assert(has_kind(a, ca, c, EvidenceKind::FileHash) ==> has_kind(b, cb, c, EvidenceKind::FileHash));
    assert(has_kind(a, ca, c, EvidenceKind::ToolOutput) ==> has_kind(b, cb, c, EvidenceKind::ToolOutput));
    assert(has_kind(a, ca, c, EvidenceKind::PriorReceipt) ==> has_kind(b, cb, c, EvidenceKind::PriorReceipt));
    assert(has_kind(a, ca, c, EvidenceKind::HumanConfirmation) ==> has_kind(b, cb, c, EvidenceKind::HumanConfirmation));
    assert(has_kind(a, ca, c, EvidenceKind::CommandOutput) ==> has_kind(b, cb, c, EvidenceKind::CommandOutput));
    assert(has_kind(a, ca, c, EvidenceKind::ToolTrace) ==> has_kind(b, cb, c, EvidenceKind::ToolTrace));
    assert(has_kind(a, ca, c, EvidenceKind::TestLog) ==> has_kind(b, cb, c, EvidenceKind::TestLog));
    assert(sufficiency_spec(b, cb, c) is Met);
}

proof fn lemma_bind_basis(intent: Intent)
    requires
        intent.operation_class == OperationClass::Bind,
    ensures
        basis_spec(intent).status == BasisStatus::Satisfied ==> (parsed_instant(
            intent.call_timestamp@,
        ) matches Some(c) && has_recent_confirmation(intent, clocks_spec(intent), c)),
        (parsed_instant(intent.call_timestamp@) matches Some(c) && !has_recent_confirmation(
            intent,
            clocks_spec(intent),
            c,
        )) && !(is_blank(intent.claimed_basis.rule@) && intent.claimed_basis.evidence_refs@.len()
            == 0) ==> basis_spec(intent).status.spec_is_hard(),
{
    reveal(basis_spec);
}

/// A bind is authorized only with a fresh human confirmation issued within
/// an hour of the call; when something is cited at all and no such
/// confirmation is among it, the bind is denied.
pub proof fn law_bind_needs_recent_human_confirmation(intent: Intent)
    requires
        intent.operation_class == OperationClass::Bind,
    ensures
        outcome_spec(intent).surface_verdict == SurfaceVerdict::Authorized ==> (parsed_instant(
            intent.call_timestamp@,
        ) matches Some(c) && has_recent_confirmation(intent, clocks_spec(intent), c)),
        classifiable(intent) && (parsed_instant(intent.call_timestamp@) matches Some(c)
            && !has_recent_confirmation(intent, clocks_spec(intent), c)) && !(is_blank(
            intent.claimed_basis.rule@,
        ) && intent.claimed_basis.evidence_refs@.len() == 0)
            ==> outcome_spec(intent).surface_verdict == SurfaceVerdict::Denied,
{
    lemma_bind_basis(intent);
    law_authorized_iff_all_dimensions_satisfied(intent);
    if classifiable(intent) {
        law_soft_gap_hard_denied(intent);
    }
}

/// Recommendation does not authorize execution: standing below the
/// operation's minimum is always denied; when the standing claim itself is
/// in scope and not forbidden, an authorize, execute or bind attempt is
/// pointed at proposing a recommendation instead.
pub proof fn law_low_standing_is_denied(intent: Intent)
    requires
        classifiable(intent),
        standing_rank(intent.actor_standing.class) < standing_rank(
            intent.operation_class.spec_min_standing(),
        ),
    ensures
        outcome_spec(intent).surface_verdict == SurfaceVerdict::Denied,
        !intent.revocation.standing_forbidden && intent.operation_class.spec_is_ladder_class() && (
        intent.scope_assertion matches Some(s) && s.scope_includes_target)
            ==> outcome_spec(intent).allowed.contains("propose_recommendation"@),
{
    reveal(standing_spec);
    lemma_outcome_fields(intent);
    let o = outcome_spec(intent);
    if !intent.revocation.standing_forbidden && intent.operation_class.spec_is_ladder_class() && (
    intent.scope_assertion matches Some(s) && s.scope_includes_target) {
        assert(standing_spec(intent).status == StandingStatus::Insufficient);
        assert(o.allowed[0] == "propose_recommendation"@);
    }
}

/// A superseded basis is denied.
pub proof fn law_superseded_precedence_denies(intent: Intent)
    requires
        classifiable(intent),
        intent.precedence.resolution == PrecedenceResolution::Superseded,
    ensures
        outcome_spec(intent).surface_verdict == SurfaceVerdict::Denied,
{
    lemma_outcome_fields(intent);
}

/// `unresolved` precedence collapses to the `ambiguous` status but keeps its
/// own reason code.
pub proof fn law_unresolved_collapses_to_ambiguous(intent: Intent)
    requires
        intent.precedence.resolution == PrecedenceResolution::Unresolved,
    ensures
        precedence_spec(intent).status == PrecedenceStatus::Ambiguous,
        precedence_spec(intent).reason_codes[0] == codes::PRECEDENCE_UNRESOLVED@,
{
    lemma_outcome_fields(intent);
}

/// Without a scope claim, only `observe` can proceed: anything else is out
/// of scope and denied.
pub proof fn law_scope_required_beyond_observe(intent: Intent)
    requires
        classifiable(intent),
        intent.scope_assertion is None,
        intent.operation_class != OperationClass::Observe,
    ensures
        standing_spec(intent).status == StandingStatus::OutOfScope
            || standing_spec(intent).status == StandingStatus::Forbidden,
        outcome_spec(intent).surface_verdict == SurfaceVerdict::Denied,
{
    reveal(standing_spec);
    lemma_outcome_fields(intent);
}

/// A recommend-class operation is never authorized; meeting the recommend
/// bar makes it advisory only.
pub proof fn law_recommend_is_at_most_advisory(intent: Intent)
    requires
        intent.operation_class == OperationClass::Recommend,
    ensures
        outcome_spec(intent).surface_verdict != SurfaceVerdict::Authorized,
        classifiable(intent) && basis_spec(intent).status == BasisStatus::Satisfied
            && precedence_spec(intent).status == PrecedenceStatus::Satisfied && standing_spec(
            intent,
        ).status == StandingStatus::Satisfied ==> outcome_spec(intent).surface_verdict
            == SurfaceVerdict::AdvisoryOnly,
{
    lemma_outcome_fields(intent);
}

/// Caller-cooked context is accounted as unverified: a caller-asserted
/// precedence always carries its unverified code; a caller-asserted standing
/// claim carries its code whenever the ladder is consulted; a caller-asserted,
/// in-scope scope claim carries its code whenever the standing is not
/// forbidden; every authorize and execute call carries the ladder-debt
/// code, in its standing dimension and, when the intent is classifiable,
/// among the outcome's reason codes; and a bind call carries it whenever the
/// ladder is consulted (standing satisfied or insufficient).
pub proof fn law_caller_assertions_are_marked_unverified(intent: Intent)
    ensures
        intent.precedence.provenance == Provenance::CallerAsserted ==> precedence_spec(
            intent,
        ).reason_codes.contains(codes::PRECEDENCE_CALLER_ASSERTED_UNVERIFIED@),
        (standing_spec(intent).status == StandingStatus::Satisfied || standing_spec(intent).status
            == StandingStatus::Insufficient) && intent.actor_standing.provenance
            == Provenance::CallerAsserted ==> standing_spec(intent).reason_codes.contains(
            codes::STANDING_CALLER_ASSERTED_UNVERIFIED@,
        ),
        !intent.revocation.standing_forbidden && (intent.scope_assertion matches Some(sc)
            && sc.provenance == Provenance::CallerAsserted) ==> standing_spec(
            intent,
        ).reason_codes.contains(codes::SCOPE_CALLER_ASSERTED_UNVERIFIED@),
        flat_ladder_class(intent.operation_class) ==> standing_spec(
            intent,
        ).reason_codes.contains(codes::STANDING_LADDER_V1_FLAT@),
        classifiable(intent) && flat_ladder_class(intent.operation_class) ==> outcome_spec(
            intent,
        ).reason_codes.contains(codes::STANDING_LADDER_V1_FLAT@),
        intent.operation_class == OperationClass::Bind && (standing_spec(intent).status
            == StandingStatus::Satisfied || standing_spec(intent).status
            == StandingStatus::Insufficient) ==> standing_spec(intent).reason_codes.contains(
            codes::STANDING_LADDER_V1_FLAT@,
        ),
        intent.operation_class == OperationClass::Bind && !(standing_spec(intent).status
            == StandingStatus::Satisfied || standing_spec(intent).status
            == StandingStatus::Insufficient) ==> !standing_spec(intent).reason_codes.contains(
            codes::STANDING_LADDER_V1_FLAT@,
        ),
{
    reveal(standing_spec);
    lemma_outcome_fields(intent);
    let p = precedence_spec(intent);
    if intent.precedence.provenance == Provenance::CallerAsserted {
        assert(p.reason_codes[1] == codes::PRECEDENCE_CALLER_ASSERTED_UNVERIFIED@);
    }
    let s = standing_spec(intent);
    let op = intent.operation_class;
    if flat_ladder_class(op) || (op == OperationClass::Bind && (s.status
        == StandingStatus::Satisfied || s.status == StandingStatus::Insufficient)) {
        assert(s.reason_codes.last() == codes::STANDING_LADDER_V1_FLAT@);
        assert(s.reason_codes[s.reason_codes.len() - 1] == codes::STANDING_LADDER_V1_FLAT@);
        if classifiable(intent) {
            law_reason_codes_are_the_union_of_dimensions(intent);
            let all = basis_spec(intent).reason_codes + precedence_spec(intent).reason_codes
                + s.reason_codes;
            assert(all[all.len() - 1] == codes::STANDING_LADDER_V1_FLAT@);
            assert(all.contains(codes::STANDING_LADDER_V1_FLAT@));
        }
    }
    if op == OperationClass::Bind && !(s.status == StandingStatus::Satisfied || s.status
        == StandingStatus::Insufficient) {
        reveal_strlit("STANDING_LADDER_V1_FLAT");
        reveal_strlit("STANDING_FORBIDDEN");
        reveal_strlit("REVOCATION_CALLER_ASSERTED_UNVERIFIED");
        reveal_strlit("SCOPE_NOT_ASSERTED");
        reveal_strlit("STANDING_OUT_OF_SCOPE");
        reveal_strlit("SCOPE_CALLER_ASSERTED_UNVERIFIED");
        let l = codes::STANDING_LADDER_V1_FLAT@;
        assert(codes::STANDING_FORBIDDEN@[9] != l[9]);
        assert(codes::REVOCATION_CALLER_ASSERTED_UNVERIFIED@[0] != l[0]);
        assert(codes::SCOPE_NOT_ASSERTED@[1] != l[1]);
        assert(codes::STANDING_OUT_OF_SCOPE@[9] != l[9]);
        assert(codes::SCOPE_CALLER_ASSERTED_UNVERIFIED@[1] != l[1]);
        assert forall|k: int| 0 <= k < s.reason_codes.len() implies s.reason_codes[k] != l by {
            if k == 0 {
            } else {
            }
        }
    }
    let prefix = if intent.scope_assertion is None {
        seq![codes::SCOPE_NOT_ASSERTED@]
    } else {
        seq![]
    };
    if (s.status == StandingStatus::Satisfied || s.status == StandingStatus::Insufficient)
        && intent.actor_standing.provenance == Provenance::CallerAsserted {
        assert(s.reason_codes[prefix.len() as int + 1] == codes::STANDING_CALLER_ASSERTED_UNVERIFIED@);
    }
    if !intent.revocation.standing_forbidden && (intent.scope_assertion matches Some(sc)
        && sc.provenance == Provenance::CallerAsserted) {
        let sc = intent.scope_assertion.unwrap();
        if !sc.scope_includes_target {
            assert(s.reason_codes[1] == codes::SCOPE_CALLER_ASSERTED_UNVERIFIED@);
        } else {
            let k: int = if caller_asserted(intent.actor_standing.provenance) { 2 } else { 1 };
            assert(s.reason_codes[k] == codes::SCOPE_CALLER_ASSERTED_UNVERIFIED@);
        }
    }
}

// ---------------------------------------------------------------------------
// Next actions and receipt obligations
// ---------------------------------------------------------------------------
proof fn lemma_sealed_keeps_verdict_fields(intent: Intent)
    ensures
        outcome_spec(intent).forbidden == forbidden_spec(outcome_spec(intent).surface_verdict),
{
    lemma_outcome_fields(intent);
}

/// Anything short of authorization forbids claiming authorization; denied
/// and gap verdicts forbid mutating the target; an authorization forbids
/// nothing.
pub proof fn law_non_authorization_forbids_claiming_it(intent: Intent)
    ensures
        outcome_spec(intent).surface_verdict == SurfaceVerdict::Denied ==> outcome_spec(
            intent,
        ).forbidden == seq!["mutate_target"@, "claim_authorization"@],
        outcome_spec(intent).surface_verdict == SurfaceVerdict::Gap ==> outcome_spec(
            intent,
        ).forbidden == seq!["mutate_target"@, "claim_authorization"@],
        outcome_spec(intent).surface_verdict == SurfaceVerdict::AdvisoryOnly ==> outcome_spec(
            intent,
        ).forbidden == seq!["execute_recommendation_as_authorization"@, "claim_authorization"@],
        outcome_spec(intent).surface_verdict == SurfaceVerdict::Authorized ==> outcome_spec(
            intent,
        ).forbidden.len() == 0,
{
    lemma_sealed_keeps_verdict_fields(intent);
}

/// Each surface verdict owes its own receipt: action, advisory, refusal,
/// gap or error.
pub proof fn law_receipt_obligation_follows_verdict(intent: Intent)
    ensures
        ({
            let o = outcome_spec(intent);
            o.receipt.obligation == match o.surface_verdict {
                SurfaceVerdict::Authorized => ReceiptObligation::ActionReceipt,
                SurfaceVerdict::AdvisoryOnly => ReceiptObligation::AdvisoryReceipt,
                SurfaceVerdict::Denied => ReceiptObligation::RefusalReceipt,
                SurfaceVerdict::Gap => ReceiptObligation::GapReceipt,
                SurfaceVerdict::Unaccounted => ReceiptObligation::ErrorReceipt,
            }
        }),
{
    lemma_outcome_fields(intent);
}

// ---------------------------------------------------------------------------
// Receipts
// ---------------------------------------------------------------------------
/// Receipts are content-addressed: the receipt id is the address of the
/// outcome itself with the id blanked, so re-addressing a returned outcome
/// reproduces its id; the input hash addresses the intent, each evidence
/// hash addresses its evidence reference object, the timestamp is the
/// caller's call timestamp, and the previous receipt hash is carried through.
pub proof fn law_receipt_is_content_addressed(intent: Intent)
    ensures
        ({
            let o = outcome_spec(intent);
            &&& o.receipt.receipt_id == outcome_address(o)
            &&& o.receipt.input_hash == content_address(intent_json(intent))
            &&& o.receipt.evidence_ref_hashes.len() == intent.claimed_basis.evidence_refs@.len()
            &&& forall|k: int|
                0 <= k < o.receipt.evidence_ref_hashes.len() ==> #[trigger] o.receipt.evidence_ref_hashes[k]
                    == content_address(evidence_json(intent.claimed_basis.evidence_refs@[k]))
            &&& o.receipt.timestamp == intent.call_timestamp@
            &&& o.receipt.prev_receipt_hash == opt_str(intent.prev_receipt_hash)
        }),
{
    reveal(outcome_spec);
    let o = outcome_spec(intent);
    assert(crate::receipt::with_receipt_id(o, seq![]) =~= crate::receipt::with_receipt_id(
        crate::verdict::outcome_unsealed(intent),
        seq![],
    ));
}

// ---------------------------------------------------------------------------
// Reason codes
// ---------------------------------------------------------------------------
proof fn lemma_dedup_props(s: Seq<Seq<char>>)
    ensures
        dedup(s).no_duplicates(),
        forall|k: int| 0 <= k < dedup(s).len() ==> s.contains(#[trigger] dedup(s)[k]),
    decreases s.len(),
{
    if s.len() > 0 {
        let d = dedup(s.drop_last());
        lemma_dedup_props(s.drop_last());
        assert forall|k: int| 0 <= k < d.len() implies s.contains(#[trigger] d[k]) by {
            let j = choose|j: int| 0 <= j < s.drop_last().len() && s.drop_last()[j] == d[k];
            assert(s[j] == d[k]);
        }
        if !d.contains(s.last()) {
            let e = d.push(s.last());
            assert forall|a: int, b: int| 0 <= a < e.len() && 0 <= b < e.len() && a != b implies e[a]
                != e[b] by {
                if a < d.len() && b < d.len() {
                } else if a == d.len() {
                    assert(d[b] == e[b]);
                } else {
                    assert(d[a] == e[a]);
                }
            }
            assert forall|k: int| 0 <= k < e.len() implies s.contains(#[trigger] e[k]) by {
                if k < d.len() {
                    assert(e[k] == d[k]);
                } else {
                    assert(s[s.len() - 1] == e[k]);
                }
            }
        }
    }
}

proof fn lemma_dedup_keeps_every_element(s: Seq<Seq<char>>, x: Seq<char>)
    requires
        s.contains(x),
    ensures
        dedup(s).contains(x),
    decreases s.len(),
{
    let d = dedup(s.drop_last());
    if s.last() == x {
        if !d.contains(x) {
            assert(d.push(x).last() == x);
        }
    } else {
        let j = choose|j: int| 0 <= j < s.len() && s[j] == x;
        assert(s.drop_last()[j] == x);
        lemma_dedup_keeps_every_element(s.drop_last(), x);
        if !d.contains(s.last()) {
            let k = choose|k: int| 0 <= k < d.len() && d[k] == x;
            assert(d.push(s.last())[k] == x);
        }
    }
}

/// The top-level reason codes are the union of the three dimensions' codes:
/// every code of every dimension appears among them, and each of them is
/// some dimension's code, or `OPEN_FINDING_ACCOUNTED` on a gap.
pub proof fn law_reason_codes_are_the_union_of_dimensions(intent: Intent)
    requires
        classifiable(intent),
    ensures
        ({
            let o = outcome_spec(intent);
            let all = basis_spec(intent).reason_codes + precedence_spec(intent).reason_codes
                + standing_spec(intent).reason_codes;
            &&& forall|c: Seq<char>| all.contains(c) ==> o.reason_codes.contains(c)
            &&& forall|k: int|
                0 <= k < o.reason_codes.len() ==> all.contains(#[trigger] o.reason_codes[k]) || (
                o.surface_verdict == SurfaceVerdict::Gap && o.reason_codes[k]
                    == codes::OPEN_FINDING_ACCOUNTED@)
        }),
{
    lemma_outcome_fields(intent);
    let o = outcome_spec(intent);
    let all = basis_spec(intent).reason_codes + precedence_spec(intent).reason_codes
        + standing_spec(intent).reason_codes;
    let u = dedup(all);
    lemma_dedup_props(all);
    assert forall|c: Seq<char>| all.contains(c) implies o.reason_codes.contains(c) by {
        lemma_dedup_keeps_every_element(all, c);
        if o.reason_codes != u {
            let k = choose|k: int| 0 <= k < u.len() && u[k] == c;
            assert(o.reason_codes[k] == c);
        }
    }
    assert forall|k: int| 0 <= k < o.reason_codes.len() implies all.contains(
        #[trigger] o.reason_codes[k],
    ) || (o.surface_verdict == SurfaceVerdict::Gap && o.reason_codes[k]
        == codes::OPEN_FINDING_ACCOUNTED@) by {
        if k < u.len() {
            assert(o.reason_codes[k] == u[k]);
        }
    }
}

/// Deduplication keeps exactly the elements of the list, each once: the
/// result has no repeats and holds an element iff the list does.
pub proof fn law_dedup_keeps_each_element_once(s: Seq<Seq<char>>)
    ensures
        dedup(s).no_duplicates(),
        forall|x: Seq<char>| s.contains(x) <==> #[trigger] dedup(s).contains(x),
{
    lemma_dedup_props(s);
    assert forall|x: Seq<char>| s.contains(x) <==> #[trigger] dedup(s).contains(x) by {
        if s.contains(x) {
            lemma_dedup_keeps_every_element(s, x);
        }
        if dedup(s).contains(x) {
            let k = choose|k: int| 0 <= k < dedup(s).len() && dedup(s)[k] == x;
        }
    }
}

/// The derivation table: a verdict of three dimensions is never
/// `unaccounted`, and it is `denied` exactly when the basis is in a hard
/// state, the precedence is superseded, or the standing is anything but
/// satisfied.
pub proof fn law_surface_verdict_table(
    op: OperationClass,
    b: BasisStatus,
    p: PrecedenceStatus,
    s: StandingStatus,
)
    ensures
        surface_spec(op, b, p, s) != SurfaceVerdict::Unaccounted,
        surface_spec(op, b, p, s) == SurfaceVerdict::Denied <==> (b.spec_is_hard() || p
            == PrecedenceStatus::Superseded || s != StandingStatus::Satisfied),
{
}

/// Some action is always suggested next, whatever the verdict.
pub proof fn law_next_actions_are_never_empty(
    op: OperationClass,
    v: SurfaceVerdict,
    b: BasisStatus,
    p: PrecedenceStatus,
    s: StandingStatus,
)
    ensures
        allowed_spec(op, v, b, p, s).len() > 0,
{
}

/// On an open finding, each basis remedy is suggested exactly when the basis
/// is in the state it remedies, and resolving precedence exactly when the
/// precedence is ambiguous.
pub proof fn law_gap_remedies_match_the_finding(op: OperationClass, b: BasisStatus, p: PrecedenceStatus)
    ensures
        gap_allowed_spec(op, b, p).contains("request_fresh_basis"@) <==> b == BasisStatus::Stale,
        gap_allowed_spec(op, b, p).contains("supply_supporting_evidence"@) <==> b
            == BasisStatus::Insufficient,
        gap_allowed_spec(op, b, p).contains("supply_basis_and_evidence"@) <==> b
            == BasisStatus::Absent,
        gap_allowed_spec(op, b, p).contains("clarify_basis_evidence_kinds"@) <==> b
            == BasisStatus::Ambiguous,
        gap_allowed_spec(op, b, p).contains("resolve_precedence"@) <==> p
            == PrecedenceStatus::Ambiguous,
{
    reveal_strlit("request_fresh_basis");
    reveal_strlit("supply_supporting_evidence");
    reveal_strlit("supply_basis_and_evidence");
    reveal_strlit("clarify_basis_evidence_kinds");
    reveal_strlit("resolve_precedence");
    reveal_strlit("propose_recommendation");
    reveal_strlit("close_open_finding");
    let g = gap_allowed_spec(op, b, p);
    assert("request_fresh_basis"@[0] != "supply_supporting_evidence"@[0]);
    assert("request_fresh_basis"@[0] != "supply_basis_and_evidence"@[0]);
    assert("request_fresh_basis"@[0] != "clarify_basis_evidence_kinds"@[0]);
    assert("request_fresh_basis"@[2] != "resolve_precedence"@[2]);
    assert("request_fresh_basis"@[0] != "propose_recommendation"@[0]);
    assert("request_fresh_basis"@[0] != "close_open_finding"@[0]);
    assert("supply_supporting_evidence"@[7] != "supply_basis_and_evidence"@[7]);
    assert("supply_supporting_evidence"@[0] != "clarify_basis_evidence_kinds"@[0]);
    assert("supply_supporting_evidence"@[0] != "resolve_precedence"@[0]);
    assert("supply_supporting_evidence"@[0] != "propose_recommendation"@[0]);
    assert("supply_supporting_evidence"@[0] != "close_open_finding"@[0]);
    assert("supply_basis_and_evidence"@[0] != "clarify_basis_evidence_kinds"@[0]);
    assert("supply_basis_and_evidence"@[0] != "resolve_precedence"@[0]);
    assert("supply_basis_and_evidence"@[0] != "propose_recommendation"@[0]);
    assert("supply_basis_and_evidence"@[0] != "close_open_finding"@[0]);
    assert("clarify_basis_evidence_kinds"@[0] != "resolve_precedence"@[0]);
    assert("clarify_basis_evidence_kinds"@[0] != "propose_recommendation"@[0]);
    assert("clarify_basis_evidence_kinds"@[2] != "close_open_finding"@[2]);
    assert("resolve_precedence"@[0] != "propose_recommendation"@[0]);
    assert("resolve_precedence"@[0] != "close_open_finding"@[0]);
    assert("propose_recommendation"@[0] != "close_open_finding"@[0]);
    if b == BasisStatus::Stale {
        assert(g[0] == "request_fresh_basis"@);
    }
    if b == BasisStatus::Insufficient {
        assert(g[0] == "supply_supporting_evidence"@);
    }
    if b == BasisStatus::Absent {
        assert(g[0] == "supply_basis_and_evidence"@);
    }
    if b == BasisStatus::Ambiguous {
        assert(g[0] == "clarify_basis_evidence_kinds"@);
    }
    if p == PrecedenceStatus::Ambiguous {
        let k: int = if b.spec_is_soft_unsatisfied() { 1 } else { 0 };
        assert(g[k] == "resolve_precedence"@);
    }
}

/// The top-level reason codes never repeat a code.
#[verifier::rlimit(40)]
pub proof fn law_reason_codes_are_unique(intent: Intent)
    ensures
        outcome_spec(intent).reason_codes.no_duplicates(),
{
    lemma_outcome_fields(intent);
    if classifiable(intent) {
        let u = dedup(
            basis_spec(intent).reason_codes + precedence_spec(intent).reason_codes + standing_spec(
                intent,
            ).reason_codes,
        );
        lemma_dedup_props(
            basis_spec(intent).reason_codes + precedence_spec(intent).reason_codes + standing_spec(
                intent,
            ).reason_codes,
        );
        if !u.contains(codes::OPEN_FINDING_ACCOUNTED@) {
            let e = u.push(codes::OPEN_FINDING_ACCOUNTED@);
            assert forall|a: int, b: int| 0 <= a < e.len() && 0 <= b < e.len() && a != b implies e[a]
                != e[b] by {
                if a < u.len() && b < u.len() {
                } else if a == u.len() {
                    assert(u[b] == e[b]);
                } else {
                    assert(u[a] == e[a]);
                }
            }
        }
    } else {
        reveal_strlit("INPUT_FUTURE_PROVENANCE_RESERVED");
        reveal_strlit("INPUT_SCHEMA_INVALID");
        reveal_strlit("UNACCOUNTED_INPUT");
        assert(codes::INPUT_FUTURE_PROVENANCE_RESERVED@[0] != codes::UNACCOUNTED_INPUT@[0]);
        assert(codes::INPUT_SCHEMA_INVALID@[0] != codes::UNACCOUNTED_INPUT@[0]);
    }
}


proof fn lemma_registry_members()
    ensures
        registry().contains(codes::BASIS_OK@),
        registry().contains(codes::BASIS_ABSENT@),
        registry().contains(codes::BASIS_INSUFFICIENT_FOR_OBSERVE@),
        registry().contains(codes::BASIS_INSUFFICIENT_FOR_INTERPRET@),
        registry().contains(codes::BASIS_INSUFFICIENT_FOR_RECOMMEND@),
        registry().contains(codes::BASIS_INSUFFICIENT_FOR_AUTHORIZE@),
        registry().contains(codes::BASIS_INSUFFICIENT_FOR_EXECUTE@),
        registry().contains(codes::BASIS_INSUFFICIENT_FOR_BIND@),
        registry().contains(codes::BASIS_TTL_EXPIRED@),
        registry().contains(codes::BASIS_AMBIGUOUS_EVIDENCE_KIND@),
        registry().contains(codes::BASIS_INADMISSIBLE_SELF_CERTIFIED@),
        registry().contains(codes::BASIS_INADMISSIBLE_BIND_REQUIRES_HUMAN_CONFIRMATION@),
        registry().contains(codes::BASIS_REVOKED@),
        registry().contains(codes::PRECEDENCE_OK@),
        registry().contains(codes::PRECEDENCE_SUPERSEDED@),
        registry().contains(codes::PRECEDENCE_AMBIGUOUS@),
        registry().contains(codes::PRECEDENCE_UNRESOLVED@),
        registry().contains(codes::PRECEDENCE_CALLER_ASSERTED_UNVERIFIED@),
        registry().contains(codes::STANDING_OK@),
        registry().contains(codes::STANDING_INSUFFICIENT_FOR_OPERATION@),
        registry().contains(codes::STANDING_ABSENT@),
        registry().contains(codes::STANDING_OUT_OF_SCOPE@),
        registry().contains(codes::STANDING_FORBIDDEN@),
        registry().contains(codes::STANDING_CALLER_ASSERTED_UNVERIFIED@),
        registry().contains(codes::STANDING_LADDER_V1_FLAT@),
        registry().contains(codes::SCOPE_NOT_ASSERTED@),
        registry().contains(codes::SCOPE_CALLER_ASSERTED_UNVERIFIED@),
        registry().contains(codes::REVOCATION_CALLER_ASSERTED_UNVERIFIED@),
        registry().contains(codes::OPEN_FINDING_ACCOUNTED@),
        registry().contains(codes::UNACCOUNTED_INPUT@),
        registry().contains(codes::INPUT_SCHEMA_INVALID@),
        registry().contains(codes::INPUT_UNKNOWN_ENUM_VALUE@),
        registry().contains(codes::INPUT_FUTURE_PROVENANCE_RESERVED@),
        registry().contains(codes::RECEIPT_HASH_MISMATCH@),
{
    assert(registry()[0] == codes::BASIS_OK@);
    assert(registry()[1] == codes::BASIS_ABSENT@);
    assert(registry()[2] == codes::BASIS_INSUFFICIENT_FOR_OBSERVE@);
    assert(registry()[3] == codes::BASIS_INSUFFICIENT_FOR_INTERPRET@);
    assert(registry()[4] == codes::BASIS_INSUFFICIENT_FOR_RECOMMEND@);
    assert(registry()[5] == codes::BASIS_INSUFFICIENT_FOR_AUTHORIZE@);
    assert(registry()[6] == codes::BASIS_INSUFFICIENT_FOR_EXECUTE@);
    assert(registry()[7] == codes::BASIS_INSUFFICIENT_FOR_BIND@);
    assert(registry()[8] == codes::BASIS_TTL_EXPIRED@);
    assert(registry()[9] == codes::BASIS_AMBIGUOUS_EVIDENCE_KIND@);
    assert(registry()[10] == codes::BASIS_INADMISSIBLE_SELF_CERTIFIED@);
    assert(registry()[11] == codes::BASIS_INADMISSIBLE_BIND_REQUIRES_HUMAN_CONFIRMATION@);
    assert(registry()[12] == codes::BASIS_REVOKED@);
    assert(registry()[13] == codes::PRECEDENCE_OK@);
    assert(registry()[14] == codes::PRECEDENCE_SUPERSEDED@);
    assert(registry()[15] == codes::PRECEDENCE_AMBIGUOUS@);
    assert(registry()[16] == codes::PRECEDENCE_UNRESOLVED@);
    assert(registry()[17] == codes::PRECEDENCE_CALLER_ASSERTED_UNVERIFIED@);
    assert(registry()[18] == codes::STANDING_OK@);
    assert(registry()[19] == codes::STANDING_INSUFFICIENT_FOR_OPERATION@);
    assert(registry()[20] == codes::STANDING_ABSENT@);
    assert(registry()[21] == codes::STANDING_OUT_OF_SCOPE@);
    assert(registry()[22] == codes::STANDING_FORBIDDEN@);
    assert(registry()[23] == codes::STANDING_CALLER_ASSERTED_UNVERIFIED@);
    assert(registry()[24] == codes::STANDING_LADDER_V1_FLAT@);
    assert(registry()[25] == codes::SCOPE_NOT_ASSERTED@);
    assert(registry()[26] == codes::SCOPE_CALLER_ASSERTED_UNVERIFIED@);
    assert(registry()[27] == codes::REVOCATION_CALLER_ASSERTED_UNVERIFIED@);
    assert(registry()[28] == codes::OPEN_FINDING_ACCOUNTED@);
    assert(registry()[29] == codes::UNACCOUNTED_INPUT@);
    assert(registry()[30] == codes::INPUT_SCHEMA_INVALID@);
    assert(registry()[31] == codes::INPUT_UNKNOWN_ENUM_VALUE@);
    assert(registry()[32] == codes::INPUT_FUTURE_PROVENANCE_RESERVED@);
    assert(registry()[33] == codes::RECEIPT_HASH_MISMATCH@);
}

proof fn lemma_registered_concat(a: Seq<Seq<char>>, b: Seq<Seq<char>>)
    requires
        all_registered(a),
        all_registered(b),
    ensures
        all_registered(a + b),
{
    assert forall|k: int| 0 <= k < (a + b).len() implies registry().contains(#[trigger] (a + b)[k]) by {
        if k < a.len() {
            assert((a + b)[k] == a[k]);
        } else {
            assert((a + b)[k] == b[k - a.len()]);
        }
    }
}

proof fn lemma_registered_code_if(b: bool, c: &str)
    requires
        registry().contains(c@),
    ensures
        all_registered(code_if(b, c)),
{
}

proof fn lemma_registered_one(c: Seq<char>)
    requires
        registry().contains(c),
    ensures
        all_registered(seq![c]),
{
}

proof fn lemma_registered_dims(intent: Intent)
    ensures
        all_registered(basis_spec(intent).reason_codes),
        all_registered(precedence_spec(intent).reason_codes),
        all_registered(standing_spec(intent).reason_codes),
{
    reveal(basis_spec);
    lemma_registry_members();
    let p = precedence_spec(intent);
    lemma_registered_code_if(
        intent.precedence.provenance == Provenance::CallerAsserted,
        codes::PRECEDENCE_CALLER_ASSERTED_UNVERIFIED,
    );
    lemma_registered_concat(seq![p.reason_codes[0]], code_if(
        intent.precedence.provenance == Provenance::CallerAsserted,
        codes::PRECEDENCE_CALLER_ASSERTED_UNVERIFIED,
    ));
    assert(p.reason_codes =~= seq![p.reason_codes[0]] + code_if(
        intent.precedence.provenance == Provenance::CallerAsserted,
        codes::PRECEDENCE_CALLER_ASSERTED_UNVERIFIED,
    ));
    let b = basis_spec(intent);
    assert forall|k: int| 0 <= k < b.reason_codes.len() implies registry().contains(
        #[trigger] b.reason_codes[k],
    ) by {
    }
    lemma_registered_standing(intent);
}

proof fn lemma_registered_standing(intent: Intent)
    ensures
        all_registered(standing_spec(intent).reason_codes),
{
    reveal(standing_spec);
    lemma_registry_members();
    let ca = Provenance::CallerAsserted;
    let op = intent.operation_class;
    lemma_registered_code_if(
        intent.actor_standing.provenance == ca,
        codes::STANDING_CALLER_ASSERTED_UNVERIFIED,
    );
    lemma_registered_code_if(op.spec_is_ladder_class(), codes::STANDING_LADDER_V1_FLAT);
    lemma_registered_code_if(intent.revocation.provenance == ca, codes::REVOCATION_CALLER_ASSERTED_UNVERIFIED);
    lemma_registered_one(codes::STANDING_FORBIDDEN@);
    lemma_registered_one(codes::STANDING_OUT_OF_SCOPE@);
    lemma_registered_one(codes::STANDING_OK@);
    lemma_registered_one(codes::STANDING_INSUFFICIENT_FOR_OPERATION@);
    lemma_registered_one(codes::SCOPE_NOT_ASSERTED@);
    let ok_tail = |prefix: Seq<Seq<char>>, scope_ca: bool|
        prefix + seq![codes::STANDING_OK@] + code_if(
            intent.actor_standing.provenance == ca,
            codes::STANDING_CALLER_ASSERTED_UNVERIFIED,
        ) + code_if(scope_ca, codes::SCOPE_CALLER_ASSERTED_UNVERIFIED) + code_if(
            intent.revocation.provenance == ca,
            codes::REVOCATION_CALLER_ASSERTED_UNVERIFIED,
        ) + code_if(op.spec_is_ladder_class(), codes::STANDING_LADDER_V1_FLAT);
    let low_tail = |prefix: Seq<Seq<char>>|
        prefix + seq![codes::STANDING_INSUFFICIENT_FOR_OPERATION@] + code_if(
            intent.actor_standing.provenance == ca,
            codes::STANDING_CALLER_ASSERTED_UNVERIFIED,
        ) + code_if(op.spec_is_ladder_class(), codes::STANDING_LADDER_V1_FLAT);
    assert forall|prefix: Seq<Seq<char>>, scope_ca: bool| all_registered(prefix) implies all_registered(
        #[trigger] ok_tail(prefix, scope_ca),
    ) && all_registered(low_tail(prefix)) by {
        lemma_registered_code_if(scope_ca, codes::SCOPE_CALLER_ASSERTED_UNVERIFIED);
        lemma_registered_concat(prefix, seq![codes::STANDING_OK@]);
        lemma_registered_concat(prefix + seq![codes::STANDING_OK@], code_if(
            intent.actor_standing.provenance == ca,
            codes::STANDING_CALLER_ASSERTED_UNVERIFIED,
        ));
        lemma_registered_concat(prefix + seq![codes::STANDING_OK@] + code_if(
            intent.actor_standing.provenance == ca,
            codes::STANDING_CALLER_ASSERTED_UNVERIFIED,
        ), code_if(scope_ca, codes::SCOPE_CALLER_ASSERTED_UNVERIFIED));
        lemma_registered_concat(prefix + seq![codes::STANDING_OK@] + code_if(
            intent.actor_standing.provenance == ca,
            codes::STANDING_CALLER_ASSERTED_UNVERIFIED,
        ) + code_if(scope_ca, codes::SCOPE_CALLER_ASSERTED_UNVERIFIED), code_if(
            intent.revocation.provenance == ca,
            codes::REVOCATION_CALLER_ASSERTED_UNVERIFIED,
        ));
        lemma_registered_concat(prefix + seq![codes::STANDING_OK@] + code_if(
            intent.actor_standing.provenance == ca,
            codes::STANDING_CALLER_ASSERTED_UNVERIFIED,
        ) + code_if(scope_ca, codes::SCOPE_CALLER_ASSERTED_UNVERIFIED) + code_if(
            intent.revocation.provenance == ca,
            codes::REVOCATION_CALLER_ASSERTED_UNVERIFIED,
        ), code_if(op.spec_is_ladder_class(), codes::STANDING_LADDER_V1_FLAT));
        lemma_registered_concat(prefix, seq![codes::STANDING_INSUFFICIENT_FOR_OPERATION@]);
        lemma_registered_concat(prefix + seq![codes::STANDING_INSUFFICIENT_FOR_OPERATION@], code_if(
            intent.actor_standing.provenance == ca,
            codes::STANDING_CALLER_ASSERTED_UNVERIFIED,
        ));
        lemma_registered_concat(prefix + seq![codes::STANDING_INSUFFICIENT_FOR_OPERATION@] + code_if(
            intent.actor_standing.provenance == ca,
            codes::STANDING_CALLER_ASSERTED_UNVERIFIED,
        ), code_if(op.spec_is_ladder_class(), codes::STANDING_LADDER_V1_FLAT));
    }
    assert(all_registered(seq![]));
    lemma_registered_concat(seq![codes::STANDING_FORBIDDEN@], code_if(
        intent.revocation.provenance == ca,
        codes::REVOCATION_CALLER_ASSERTED_UNVERIFIED,
    ));
    lemma_registered_code_if(true, codes::SCOPE_CALLER_ASSERTED_UNVERIFIED);
    lemma_registered_code_if(false, codes::SCOPE_CALLER_ASSERTED_UNVERIFIED);
    match intent.scope_assertion {
        Some(sa) => {
            lemma_registered_concat(seq![codes::STANDING_OUT_OF_SCOPE@], code_if(
                sa.provenance == ca,
                codes::SCOPE_CALLER_ASSERTED_UNVERIFIED,
            ));
            assert(all_registered(ok_tail(seq![], sa.provenance == ca)));
            assert(all_registered(low_tail(seq![])));
        },
        None => {
            assert(all_registered(ok_tail(seq![codes::SCOPE_NOT_ASSERTED@], false)));
            assert(all_registered(low_tail(seq![codes::SCOPE_NOT_ASSERTED@])));
        },
    }
}

proof fn lemma_top_codes_registered(
    v: SurfaceVerdict,
    b: Seq<Seq<char>>,
    p: Seq<Seq<char>>,
    s: Seq<Seq<char>>,
)
    requires
        all_registered(b),
        all_registered(p),
        all_registered(s),
    ensures
        all_registered(top_codes_spec(v, b, p, s)),
{
    lemma_registry_members();
    let all = b + p + s;
    lemma_registered_concat(b, p);
    lemma_registered_concat(b + p, s);
    lemma_dedup_props(all);
    let u = dedup(all);
    assert forall|k: int| 0 <= k < u.len() implies registry().contains(#[trigger] u[k]) by {
        let j = choose|j: int| 0 <= j < all.len() && all[j] == u[k];
        assert(registry().contains(all[j]));
    }
    lemma_registered_concat(u, seq![codes::OPEN_FINDING_ACCOUNTED@]);
    assert(u.push(codes::OPEN_FINDING_ACCOUNTED@) =~= u + seq![codes::OPEN_FINDING_ACCOUNTED@]);
}

/// Only registered reason codes are ever emitted: every code of every
/// dimension and of the top-level list is in the v1 registry.
#[verifier::rlimit(40)]
pub proof fn law_reason_codes_are_registered(intent: Intent)
    ensures
        all_registered(outcome_spec(intent).reason_codes),
        all_registered(outcome_spec(intent).basis.reason_codes),
        all_registered(outcome_spec(intent).precedence.reason_codes),
        all_registered(outcome_spec(intent).standing.reason_codes),
{
    lemma_outcome_fields(intent);
    if classifiable(intent) {
        lemma_registered_dims(intent);
        lemma_top_codes_registered(
            outcome_spec(intent).surface_verdict,
            basis_spec(intent).reason_codes,
            precedence_spec(intent).reason_codes,
            standing_spec(intent).reason_codes,
        );
    } else {
        lemma_registry_members();
        crate::receipt::lemma_sealed_fields(
            crate::verdict::unaccounted_body_spec(intent, input_fault_code(intent)),
        );
    }
}


// ---------------------------------------------------------------------------
// The brief
// ---------------------------------------------------------------------------
/// The brief shows the first salient codes: at most four, none repeated,
/// none of the provenance or ladder bookkeeping, each one of the outcome's
/// codes; and when it shows fewer than four, it shows every salient code.
pub proof fn law_brief_shows_the_first_salient_codes(codes: Seq<Seq<char>>)
    ensures
        salient_spec(codes).len() <= 4,
        salient_spec(codes).no_duplicates(),
        forall|k: int|
            0 <= k < salient_spec(codes).len() ==> codes.contains(#[trigger] salient_spec(codes)[k])
                && !is_bookkeeping(salient_spec(codes)[k]),
        salient_spec(codes).len() < 4 ==> forall|j: int|
            0 <= j < codes.len() && !is_bookkeeping(#[trigger] codes[j]) ==> salient_spec(
                codes,
            ).contains(codes[j]),
    decreases codes.len(),
{
    if codes.len() > 0 {
        let init = codes.drop_last();
        law_brief_shows_the_first_salient_codes(init);
        let a = salient_spec(init);
        let x = codes.last();
        assert forall|k: int| 0 <= k < a.len() implies codes.contains(#[trigger] a[k]) by {
            let j = choose|j: int| 0 <= j < init.len() && init[j] == a[k];
            assert(codes[j] == a[k]);
        }
        if !(a.len() >= 4 || is_bookkeeping(x) || a.contains(x)) {
            let e = a.push(x);
            assert forall|i: int, j: int| 0 <= i < e.len() && 0 <= j < e.len() && i != j implies e[i]
                != e[j] by {
                if i < a.len() && j < a.len() {
                    assert(e[i] == a[i] && e[j] == a[j]);
                } else if i == a.len() {
                    assert(e[j] == a[j]);
                } else {
                    assert(e[i] == a[i]);
                }
            }
            assert forall|k: int| 0 <= k < e.len() implies codes.contains(#[trigger] e[k])
                && !is_bookkeeping(e[k]) by {
                if k < a.len() {
                    assert(e[k] == a[k]);
                } else {
                    assert(codes[codes.len() - 1] == e[k]);
                }
            }
            if e.len() < 4 {
                assert forall|j: int| 0 <= j < codes.len() && !is_bookkeeping(#[trigger] codes[j])
                    implies e.contains(codes[j]) by {
                    if j < init.len() {
                        assert(init[j] == codes[j]);
                        let k = choose|k: int| 0 <= k < a.len() && a[k] == codes[j];
                        assert(e[k] == codes[j]);
                    } else {
                        assert(e[a.len() as int] == codes[j]);
                    }
                }
            }
        } else {
            if a.len() < 4 {
                assert forall|j: int| 0 <= j < codes.len() && !is_bookkeeping(#[trigger] codes[j])
                    implies a.contains(codes[j]) by {
                    if j < init.len() {
                        assert(init[j] == codes[j]);
                    }
                }
            }
        }
    }
}


// ---------------------------------------------------------------------------
// The sufficiency matrix, stated over the evidence itself
// ---------------------------------------------------------------------------
/// Evidence ref `k` counts toward the basis: it exists, its status is
/// `valid`, it is not self-certified (issuer and subject both the actor), and
/// its `valid_until` parses to an instant at or after the parsed call
/// timestamp.
pub open spec fn counting_ref(intent: Intent, k: int) -> bool {
    let e = intent.claimed_basis.evidence_refs@[k];
    &&& 0 <= k < intent.claimed_basis.evidence_refs@.len()
    &&& e.status == ValidityStatus::Valid
    &&& !(e.issuer@ == e.subject@ && e.subject@ == intent.actor@)
    &&& parsed_instant(intent.call_timestamp@) matches Some(c)
    &&& parsed_instant(e.valid_until@) matches Some(u)
    &&& (c.secs < u.secs || (c.secs == u.secs && c.nanos <= u.nanos))
}

/// Some counting evidence ref has kind `k`.
pub open spec fn cites(intent: Intent, k: EvidenceKind) -> bool {
    exists|i: int| #[trigger] counting_ref(intent, i) && intent.claimed_basis.evidence_refs@[i].kind == k
}

/// Some counting human confirmation was issued within 60 minutes of the call
/// timestamp, in either direction.
pub open spec fn recently_confirmed(intent: Intent) -> bool {
    exists|i: int|
        #[trigger] counting_ref(intent, i) && intent.claimed_basis.evidence_refs@[i].kind
            == EvidenceKind::HumanConfirmation && (parsed_instant(intent.call_timestamp@) matches Some(c)
            && parsed_instant(intent.claimed_basis.evidence_refs@[i].valid_from@) matches Some(f)
            && -60 <= spec_minutes_between(c.secs, c.nanos, f.secs, f.nanos) <= 60)
}

/// The v1 sufficiency matrix: what fresh evidence each operation class needs.
pub open spec fn matrix_row_met(intent: Intent) -> bool {
    let has = |k: EvidenceKind| cites(intent, k);
    match intent.operation_class {
        OperationClass::Observe => has(EvidenceKind::Prompt) || has(EvidenceKind::PolicyRef) || has(
            EvidenceKind::FileHash,
        ),
        OperationClass::Interpret => (has(EvidenceKind::Prompt) || has(EvidenceKind::PolicyRef)) && (
        has(EvidenceKind::FileHash) || has(EvidenceKind::ToolOutput) || has(
            EvidenceKind::PriorReceipt,
        )),
        OperationClass::Recommend => (has(EvidenceKind::Prompt) || has(
            EvidenceKind::HumanConfirmation,
        ) || has(EvidenceKind::PolicyRef)) && (has(EvidenceKind::FileHash) || has(
            EvidenceKind::ToolOutput,
        ) || has(EvidenceKind::PriorReceipt) || has(EvidenceKind::CommandOutput)),
        OperationClass::Authorize => has(EvidenceKind::PolicyRef) || has(
            EvidenceKind::HumanConfirmation,
        ),
        OperationClass::Execute => (has(EvidenceKind::PolicyRef) || has(
            EvidenceKind::HumanConfirmation,
        )) && (has(EvidenceKind::ToolTrace) || has(EvidenceKind::TestLog) || has(
            EvidenceKind::CommandOutput,
        ) || has(EvidenceKind::FileHash)),
        OperationClass::Bind => recently_confirmed(intent) && (has(EvidenceKind::ToolTrace) || has(
            EvidenceKind::TestLog,
        ) || has(EvidenceKind::CommandOutput) || has(EvidenceKind::FileHash) || has(
            EvidenceKind::PriorReceipt,
        )),
    }
}

/// The code an unmet row is reported with.
pub open spec fn row_code(op: OperationClass) -> Seq<char> {
    match op {
        OperationClass::Observe => "BASIS_INSUFFICIENT_FOR_OBSERVE"@,
        OperationClass::Interpret => "BASIS_INSUFFICIENT_FOR_INTERPRET"@,
        OperationClass::Recommend => "BASIS_INSUFFICIENT_FOR_RECOMMEND"@,
        OperationClass::Authorize => "BASIS_INSUFFICIENT_FOR_AUTHORIZE"@,
        OperationClass::Execute => "BASIS_INSUFFICIENT_FOR_EXECUTE"@,
        OperationClass::Bind => "BASIS_INSUFFICIENT_FOR_BIND"@,
    }
}

proof fn lemma_counts_agree(intent: Intent)
    requires
        parsed_instant(intent.call_timestamp@) is Some,
    ensures
        forall|i: int|
            0 <= i < intent.claimed_basis.evidence_refs@.len() ==> (#[trigger] counts(
                intent,
                clocks_spec(intent),
                parsed_instant(intent.call_timestamp@).unwrap(),
                i,
            ) <==> counting_ref(intent, i)),
        forall|k: EvidenceKind|
            #[trigger] has_kind(
                intent,
                clocks_spec(intent),
                parsed_instant(intent.call_timestamp@).unwrap(),
                k,
            ) <==> cites(intent, k),
        has_recent_confirmation(
            intent,
            clocks_spec(intent),
            parsed_instant(intent.call_timestamp@).unwrap(),
        ) <==> recently_confirmed(intent),
        crate::rules::has_any_fresh(
            intent,
            clocks_spec(intent),
            parsed_instant(intent.call_timestamp@).unwrap(),
        ) <==> exists|i: int| #[trigger] counting_ref(intent, i),
{
    let c = parsed_instant(intent.call_timestamp@).unwrap();
    let cl = clocks_spec(intent);
    let n = intent.claimed_basis.evidence_refs@.len();
    assert forall|i: int| 0 <= i < n implies (#[trigger] counts(intent, cl, c, i) <==> counting_ref(
        intent,
        i,
    )) by {}
    assert forall|k: EvidenceKind| #[trigger] has_kind(intent, cl, c, k) <==> cites(intent, k) by {
        if has_kind(intent, cl, c, k) {
            let i = choose|i: int|
                0 <= i < n && #[trigger] counts(intent, cl, c, i)
                    && intent.claimed_basis.evidence_refs@[i].kind == k;
            assert(counting_ref(intent, i));
        }
        if cites(intent, k) {
            let i = choose|i: int|
                #[trigger] counting_ref(intent, i) && intent.claimed_basis.evidence_refs@[i].kind == k;
            assert(counts(intent, cl, c, i));
        }
    }
    if has_recent_confirmation(intent, cl, c) {
        let i = choose|i: int|
            0 <= i < n && #[trigger] counts(intent, cl, c, i)
                && intent.claimed_basis.evidence_refs@[i].kind == EvidenceKind::HumanConfirmation
                && within_an_hour(cl[i].minutes_since_valid_from);
        assert(counting_ref(intent, i));
    }
    if recently_confirmed(intent) {
        let i = choose|i: int|
            #[trigger] counting_ref(intent, i) && intent.claimed_basis.evidence_refs@[i].kind
                == EvidenceKind::HumanConfirmation && (parsed_instant(intent.call_timestamp@) matches Some(c)
                && parsed_instant(intent.claimed_basis.evidence_refs@[i].valid_from@) matches Some(f)
                && -60 <= spec_minutes_between(c.secs, c.nanos, f.secs, f.nanos) <= 60);
        assert(counts(intent, cl, c, i));
    }
    if crate::rules::has_any_fresh(intent, cl, c) {
        let i = choose|i: int| 0 <= i < n && #[trigger] counts(intent, cl, c, i);
        assert(counting_ref(intent, i));
    }
    if exists|i: int| #[trigger] counting_ref(intent, i) {
        let i = choose|i: int| #[trigger] counting_ref(intent, i);
        assert(counts(intent, cl, c, i));
    }
}

/// The sufficiency matrix. For an intent whose basis is not revoked, none
/// of whose evidence is self-certified, whose call timestamp parses and that
/// cites something: the basis is satisfied exactly when the operation's row
/// is met by counting (fresh, valid, not self-certified) evidence; a bind
/// without a recent human confirmation is inadmissible; otherwise an unmet
/// row is insufficient with the row's code when some evidence counts, stale
/// when evidence is cited but none counts, and absent when none is cited.
pub proof fn law_sufficiency_matrix(intent: Intent)
    requires
        !intent.revocation.basis_revoked,
        forall|k: int|
            0 <= k < intent.claimed_basis.evidence_refs@.len() ==> !(
            #[trigger] intent.claimed_basis.evidence_refs@[k].issuer@
                == intent.claimed_basis.evidence_refs@[k].subject@
                && intent.claimed_basis.evidence_refs@[k].subject@ == intent.actor@),
        parsed_instant(intent.call_timestamp@) is Some,
        !(is_blank(intent.claimed_basis.rule@) && intent.claimed_basis.evidence_refs@.len() == 0),
    ensures
        basis_spec(intent).status == BasisStatus::Satisfied <==> matrix_row_met(intent),
        basis_spec(intent).status == BasisStatus::Satisfied ==> basis_spec(intent).reason_codes
            == seq!["BASIS_OK"@],
        intent.operation_class == OperationClass::Bind && !recently_confirmed(intent) ==> {
            &&& basis_spec(intent).status == BasisStatus::Inadmissible
            &&& basis_spec(intent).reason_codes
                == seq!["BASIS_INADMISSIBLE_BIND_REQUIRES_HUMAN_CONFIRMATION"@]
        },
        !matrix_row_met(intent) && !(intent.operation_class == OperationClass::Bind
            && !recently_confirmed(intent)) ==> {
            &&& (exists|i: int| #[trigger] counting_ref(intent, i)) ==> basis_spec(intent).status
                == BasisStatus::Insufficient && basis_spec(intent).reason_codes == seq![
                row_code(intent.operation_class)]
            &&& (!(exists|i: int| #[trigger] counting_ref(intent, i))
                && intent.claimed_basis.evidence_refs@.len() > 0) ==> basis_spec(intent).status
                == BasisStatus::Stale && basis_spec(intent).reason_codes == seq![
                "BASIS_TTL_EXPIRED"@]
            &&& intent.claimed_basis.evidence_refs@.len() == 0 ==> basis_spec(intent).status
                == BasisStatus::Absent && basis_spec(intent).reason_codes == seq!["BASIS_ABSENT"@]
        },
{
    reveal(basis_spec);
    lemma_counts_agree(intent);
    assert(!any_self_cert(intent));
    let c = parsed_instant(intent.call_timestamp@).unwrap();
    let cl = clocks_spec(intent);
    assert(sufficiency_spec(intent, cl, c) is Met <==> matrix_row_met(intent));
    reveal_strlit("BASIS_OK");
    reveal_strlit("BASIS_TTL_EXPIRED");
    reveal_strlit("BASIS_ABSENT");
    reveal_strlit("BASIS_INADMISSIBLE_BIND_REQUIRES_HUMAN_CONFIRMATION");
    reveal_strlit("BASIS_INSUFFICIENT_FOR_OBSERVE");
    reveal_strlit("BASIS_INSUFFICIENT_FOR_INTERPRET");
    reveal_strlit("BASIS_INSUFFICIENT_FOR_RECOMMEND");
    reveal_strlit("BASIS_INSUFFICIENT_FOR_AUTHORIZE");
    reveal_strlit("BASIS_INSUFFICIENT_FOR_EXECUTE");
    reveal_strlit("BASIS_INSUFFICIENT_FOR_BIND");
}


// ---------------------------------------------------------------------------
// The v1 standing ladder, stated class by class
// ---------------------------------------------------------------------------
/// The v1 table of minimum standings (observe < interpret < recommend <
/// authorize < execute; bind needs execute): whether `class` meets the
/// minimum for `op`.
pub open spec fn meets_v1_minimum(class: StandingClass, op: OperationClass) -> bool {
    match op {
        OperationClass::Observe => true,
        OperationClass::Interpret => class != StandingClass::Observe,
        OperationClass::Recommend => class == StandingClass::Recommend || class
            == StandingClass::Authorize || class == StandingClass::Execute,
        OperationClass::Authorize => class == StandingClass::Authorize || class
            == StandingClass::Execute,
        OperationClass::Execute => class == StandingClass::Execute,
        OperationClass::Bind => class == StandingClass::Execute,
    }
}

/// The standing ladder: for a standing that is not forbidden and an
/// in-scope claim, the standing is satisfied exactly when the actor's class
/// meets the operation's v1 minimum, and is otherwise insufficient, first
/// coded `STANDING_INSUFFICIENT_FOR_OPERATION`. A satisfied standing is first
/// coded `STANDING_OK`.
pub proof fn law_standing_ladder(intent: Intent)
    requires
        !intent.revocation.standing_forbidden,
        intent.scope_assertion matches Some(s) && s.scope_includes_target,
    ensures
        standing_spec(intent).status == StandingStatus::Satisfied <==> meets_v1_minimum(
            intent.actor_standing.class,
            intent.operation_class,
        ),
        !meets_v1_minimum(intent.actor_standing.class, intent.operation_class) ==> {
            &&& standing_spec(intent).status == StandingStatus::Insufficient
            &&& standing_spec(intent).reason_codes[0] == "STANDING_INSUFFICIENT_FOR_OPERATION"@
        },
        meets_v1_minimum(intent.actor_standing.class, intent.operation_class)
            ==> standing_spec(intent).reason_codes[0] == "STANDING_OK"@,
{
    reveal(standing_spec);
    reveal_strlit("STANDING_INSUFFICIENT_FOR_OPERATION");
    reveal_strlit("STANDING_OK");
}

/// With no scope claim, only an observe can stand: any other operation is
/// out of scope, and an observe is satisfied whatever the actor's class.
pub proof fn law_standing_without_scope(intent: Intent)
    requires
        !intent.revocation.standing_forbidden,
        intent.scope_assertion is None,
    ensures
        intent.operation_class == OperationClass::Observe ==> standing_spec(intent).status
            == StandingStatus::Satisfied,
        intent.operation_class != OperationClass::Observe ==> standing_spec(intent).status
            == StandingStatus::OutOfScope,
        standing_spec(intent).reason_codes[0] == "SCOPE_NOT_ASSERTED"@,
{
    reveal(standing_spec);
    reveal_strlit("SCOPE_NOT_ASSERTED");
}

// ---------------------------------------------------------------------------
// Canonical JSON holds every field
// ---------------------------------------------------------------------------
/// The canonical JSON of an intent is an object with a member for each of
/// its fields: `actor`, `call_timestamp`, `expected_effect`,
/// `intended_action`, `operation_class` and `target` as strings, and the
/// structured members for the standing claim, the claimed basis, precedence
/// and revocation. So intents whose fields differ have different members,
/// and the receipt's input hash addresses all of them.
pub proof fn law_intent_json_holds_every_field(i: Intent)
    ensures
        exists|ms: Seq<(Seq<char>, Seq<u8>)>|
            {
                &&& intent_json(i) == json_object(ms)
                &&& ms.contains(("actor"@, json_string(i.actor@)))
                &&& ms.contains(("call_timestamp"@, json_string(i.call_timestamp@)))
                &&& ms.contains(("expected_effect"@, json_string(i.expected_effect@)))
                &&& ms.contains(("intended_action"@, json_string(i.intended_action@)))
                &&& ms.contains(
                    ("operation_class"@, json_string(i.operation_class.spec_as_snake())),
                )
                &&& ms.contains(("target"@, json_string(i.target@)))
                &&& ms.contains(("actor_standing"@, actor_standing_json(i.actor_standing)))
                &&& ms.contains(("claimed_basis"@, claimed_basis_json(i.claimed_basis)))
                &&& ms.contains(("precedence"@, precedence_json(i.precedence)))
                &&& ms.contains(("revocation"@, revocation_json(i.revocation)))
            },
{
    let ms = intent_members(i);
    assert(ms[0] == ("actor"@, json_string(i.actor@)));
    assert(ms[1] == ("actor_standing"@, actor_standing_json(i.actor_standing)));
    assert(ms[2] == ("call_timestamp"@, json_string(i.call_timestamp@)));
    assert(ms[3] == ("claimed_basis"@, claimed_basis_json(i.claimed_basis)));
    assert(ms[4] == ("expected_effect"@, json_string(i.expected_effect@)));
    assert(ms[5] == ("intended_action"@, json_string(i.intended_action@)));
    assert(ms[6] == ("operation_class"@, json_string(i.operation_class.spec_as_snake())));
    assert(ms[7] == ("precedence"@, precedence_json(i.precedence)));
    let k: int = if i.prev_receipt_hash is Some { 9 } else { 8 };
    assert(ms[k] == ("revocation"@, revocation_json(i.revocation)));
    assert(ms[ms.len() - 1] == ("target"@, json_string(i.target@)));
}

/// The canonical JSON of an evidence ref is an object with a member for each
/// of its fields, the status and kind by their wire names.
pub proof fn law_evidence_json_holds_every_field(e: Evidence)
    ensures
        exists|ms: Seq<(Seq<char>, Seq<u8>)>|
            {
                &&& evidence_json(e) == json_object(ms)
                &&& ms.contains(("issuer"@, json_string(e.issuer@)))
                &&& ms.contains(("kind"@, json_string(evidence_kind_name(e.kind))))
                &&& ms.contains(("ref"@, json_string(e.reference@)))
                &&& ms.contains(("status"@, json_string(validity_name(e.status))))
                &&& ms.contains(("subject"@, json_string(e.subject@)))
                &&& ms.contains(("valid_from"@, json_string(e.valid_from@)))
                &&& ms.contains(("valid_until"@, json_string(e.valid_until@)))
            },
{
    let ms = seq![
        ("issuer"@, json_string(e.issuer@)),
        ("kind"@, json_string(evidence_kind_name(e.kind))),
        ("ref"@, json_string(e.reference@)),
        ("status"@, json_string(validity_name(e.status))),
        ("subject"@, json_string(e.subject@)),
        ("valid_from"@, json_string(e.valid_from@)),
        ("valid_until"@, json_string(e.valid_until@)),
    ];
    assert(ms[0] == ("issuer"@, json_string(e.issuer@)));
    assert(ms[1] == ("kind"@, json_string(evidence_kind_name(e.kind))));
    assert(ms[2] == ("ref"@, json_string(e.reference@)));
    assert(ms[3] == ("status"@, json_string(validity_name(e.status))));
    assert(ms[4] == ("subject"@, json_string(e.subject@)));
    assert(ms[5] == ("valid_from"@, json_string(e.valid_from@)));
    assert(ms[6] == ("valid_until"@, json_string(e.valid_until@)));
    assert(evidence_json(e) == json_object(ms));
    assert(ms.contains(("issuer"@, json_string(e.issuer@))));
}


// ---------------------------------------------------------------------------
// What a cooked intent carries from its packet
// ---------------------------------------------------------------------------
proof fn lemma_tail_shape(
    head: Seq<EvidenceView>,
    token: Option<String>,
    grant: Option<Evidence>,
    now: Timestamp,
    actor: Seq<char>,
)
    ensures
        ({
            let all = head + tail_evidence(token, grant, now, actor);
            &&& (grant matches Some(g) ==> all.last() == g@)
            &&& (token matches Some(t) ==> all[head.len() as int] == human_conf_spec(t@, now, actor))
            &&& all.len() >= head.len()
        }),
{
}

/// An edit packet cooks into an intent for `fs.edit` at execute class on
/// the packet's target, with the packet's actor, standing, rule and
/// precedence, every claim caller-asserted, nothing revoked or forbidden,
/// stamped with the clock reading; a given grant evidence comes last and a
/// given confirmation token becomes an operator-issued human confirmation.
pub proof fn law_cook_edit_carries_the_packet(p: EditPacket, env: Surroundings)
    ensures
        ({
            let v = cook_edit_spec(p, env);
            &&& v.intended_action == "fs.edit"@
            &&& v.operation_class == OperationClass::Execute
            &&& v.target == p.target@
            &&& v.expected_effect == "modify "@ + p.target@
            &&& v.actor == p.actor@
            &&& v.standing_class == p.standing
            &&& v.standing_provenance == Provenance::CallerAsserted
            &&& v.rule == p.because@
            &&& v.precedence.resolution == p.precedence
            &&& v.precedence.provenance == Provenance::CallerAsserted
            &&& !v.revocation.basis_revoked
            &&& !v.revocation.standing_forbidden
            &&& v.revocation.provenance == Provenance::CallerAsserted
            &&& v.call_timestamp == spec_format_utc_seconds(env.now.secs, env.now.nanos)
            &&& v.prev_receipt_hash is None
            &&& (v.scope_assertion matches Some(sc) ==> sc.provenance == Provenance::CallerAsserted
                && sc.scope_includes_target)
            &&& (p.grant_evidence matches Some(g) ==> v.evidence_refs.last() == g@)
            &&& (p.human_confirmation matches Some(t) ==> exists|k: int|
                0 <= k < v.evidence_refs.len() && (#[trigger] v.evidence_refs[k]).reference
                    == "human://"@ + t@ && v.evidence_refs[k].kind == EvidenceKind::HumanConfirmation
                && v.evidence_refs[k].issuer == "operator"@ && v.evidence_refs[k].subject == p.actor@)
        }),
{
    let v = cook_edit_spec(p, env);
    let head = policy_refs_spec(strs(p.policy_paths@), env.policy_exists@, env.now, p.actor@) + (
    match env.target_contents {
        Some(b) => seq![file_hash_spec(p.target@, b@, env.now, p.actor@)],
        None => seq![],
    });
    lemma_tail_shape(head, p.human_confirmation, p.grant_evidence, env.now, p.actor@);
    assert(spec_shift_minutes(env.now, 0) == env.now);
    if p.human_confirmation is Some {
        assert(v.evidence_refs[head.len() as int] == human_conf_spec(
            p.human_confirmation.unwrap()@,
            env.now,
            p.actor@,
        ));
    }
}

/// A run packet cooks into an intent for `shell.run` of the packet's
/// command, at the packet's operation class, with the packet's actor,
/// standing, rule and precedence (see [`law_cook_edit_carries_the_packet`]
/// for the rest).
pub proof fn law_cook_run_carries_the_packet(p: RunPacket, env: Surroundings)
    ensures
        ({
            let v = cook_run_spec(p, env);
            &&& v.intended_action == "shell.run: "@ + p.command@
            &&& v.operation_class == p.operation_class
            &&& v.target == p.command@
            &&& v.expected_effect == "execute command: "@ + p.command@
            &&& v.actor == p.actor@
            &&& v.standing_class == p.standing
            &&& v.standing_provenance == Provenance::CallerAsserted
            &&& v.rule == p.because@
            &&& v.precedence.resolution == p.precedence
            &&& v.precedence.provenance == Provenance::CallerAsserted
            &&& !v.revocation.basis_revoked
            &&& !v.revocation.standing_forbidden
            &&& v.revocation.provenance == Provenance::CallerAsserted
            &&& v.call_timestamp == spec_format_utc_seconds(env.now.secs, env.now.nanos)
            &&& v.prev_receipt_hash is None
            &&& (v.scope_assertion matches Some(sc) ==> sc.provenance == Provenance::CallerAsserted
                && sc.scope_includes_target)
            &&& (p.grant_evidence matches Some(g) ==> v.evidence_refs.last() == g@)
            &&& (p.human_confirmation matches Some(t) ==> exists|k: int|
                0 <= k < v.evidence_refs.len() && (#[trigger] v.evidence_refs[k]).reference
                    == "human://"@ + t@ && v.evidence_refs[k].kind == EvidenceKind::HumanConfirmation
                && v.evidence_refs[k].issuer == "operator"@ && v.evidence_refs[k].subject == p.actor@)
        }),
{
    let v = cook_run_spec(p, env);
    let head = policy_refs_spec(strs(p.policy_paths@), env.policy_exists@, env.now, p.actor@);
    lemma_tail_shape(head, p.human_confirmation, p.grant_evidence, env.now, p.actor@);
    assert(spec_shift_minutes(env.now, 0) == env.now);
    if p.human_confirmation is Some {
        assert(v.evidence_refs[head.len() as int] == human_conf_spec(
            p.human_confirmation.unwrap()@,
            env.now,
            p.actor@,
        ));
    }
}

/// A commit packet cooks into an intent for `git.commit` on the working
/// directory's `HEAD`, at the packet's operation class, with the packet's
/// actor, standing, rule and precedence (see
/// [`law_cook_edit_carries_the_packet`] for the rest).
pub proof fn law_cook_commit_carries_the_packet(p: CommitPacket, env: Surroundings)
    ensures
        ({
            let v = cook_commit_spec(p, env);
            &&& v.intended_action == "git.commit"@
            &&& v.operation_class == p.operation_class
            &&& v.target == p.cwd@ + "@HEAD"@
            &&& v.actor == p.actor@
            &&& v.standing_class == p.standing
            &&& v.standing_provenance == Provenance::CallerAsserted
            &&& v.rule == p.because@
            &&& v.precedence.resolution == p.precedence
            &&& v.precedence.provenance == Provenance::CallerAsserted
            &&& !v.revocation.basis_revoked
            &&& !v.revocation.standing_forbidden
            &&& v.revocation.provenance == Provenance::CallerAsserted
            &&& v.call_timestamp == spec_format_utc_seconds(env.now.secs, env.now.nanos)
            &&& v.prev_receipt_hash is None
            &&& (v.scope_assertion matches Some(sc) ==> sc.provenance == Provenance::CallerAsserted
                && sc.scope_includes_target)
            &&& (p.grant_evidence matches Some(g) ==> v.evidence_refs.last() == g@)
            &&& (p.human_confirmation matches Some(t) ==> exists|k: int|
                0 <= k < v.evidence_refs.len() && (#[trigger] v.evidence_refs[k]).reference
                    == "human://"@ + t@ && v.evidence_refs[k].kind == EvidenceKind::HumanConfirmation
                && v.evidence_refs[k].issuer == "operator"@ && v.evidence_refs[k].subject == p.actor@)
        }),
{
    let v = cook_commit_spec(p, env);
    let head = policy_refs_spec(strs(p.policy_paths@), env.policy_exists@, env.now, p.actor@) + (
    match env.git_status {
        Some(b) => seq![git_status_spec(p.cwd@, b@, env.now, p.actor@)],
        None => seq![],
    });
    lemma_tail_shape(head, p.human_confirmation, p.grant_evidence, env.now, p.actor@);
    assert(spec_shift_minutes(env.now, 0) == env.now);
    if p.human_confirmation is Some {
        assert(v.evidence_refs[head.len() as int] == human_conf_spec(
            p.human_confirmation.unwrap()@,
            env.now,
            p.actor@,
        ));
    }
}

// ---------------------------------------------------------------------------
// The evidence a grant leaves
// ---------------------------------------------------------------------------
/// The evidence built for a grant is a valid `policy_ref` about the actor,
/// issued by the grant's issuer, valid from the grant's issue time, whose
/// reference names the grant file and the grant's id.
pub proof fn law_grant_evidence_is_a_valid_policy_ref(
    g: Grant,
    grant_path: Seq<char>,
    actor: Seq<char>,
    now: Timestamp,
)
    ensures
        ({
            let e = grant_evidence_spec(g, grant_path, actor, now);
            &&& e.kind == EvidenceKind::PolicyRef
            &&& e.status == ValidityStatus::Valid
            &&& e.subject == actor
            &&& e.issuer == g.issued_by@
            &&& e.valid_from == g.issued_at@
            &&& e.reference == "wicket-grant://"@ + grant_path + "#"@ + grant_id_spec(g)
            &&& (g.grant_id matches Some(id) ==> grant_id_spec(g) == id@)
        }),
{
}


// ---------------------------------------------------------------------------
// Precedence, grants, next actions and exit codes, entry by entry
// ---------------------------------------------------------------------------
/// The precedence table: `active` is satisfied (`PRECEDENCE_OK`),
/// `superseded` superseded (`PRECEDENCE_SUPERSEDED`), `ambiguous` ambiguous
/// (`PRECEDENCE_AMBIGUOUS`), `unresolved` ambiguous (`PRECEDENCE_UNRESOLVED`);
/// a caller-asserted claim is followed by its unverified code, and nothing
/// else is reported.
pub proof fn law_precedence_table(intent: Intent)
    ensures
        ({
            let d = precedence_spec(intent);
            let ca = intent.precedence.provenance == Provenance::CallerAsserted;
            let tail = if ca {
                seq!["PRECEDENCE_CALLER_ASSERTED_UNVERIFIED"@]
            } else {
                seq![]
            };
            &&& intent.precedence.resolution == PrecedenceResolution::Active ==> d.status
                == PrecedenceStatus::Satisfied && d.reason_codes == seq!["PRECEDENCE_OK"@] + tail
            &&& intent.precedence.resolution == PrecedenceResolution::Superseded ==> d.status
                == PrecedenceStatus::Superseded && d.reason_codes == seq!["PRECEDENCE_SUPERSEDED"@]
                + tail
            &&& intent.precedence.resolution == PrecedenceResolution::Ambiguous ==> d.status
                == PrecedenceStatus::Ambiguous && d.reason_codes == seq!["PRECEDENCE_AMBIGUOUS"@]
                + tail
            &&& intent.precedence.resolution == PrecedenceResolution::Unresolved ==> d.status
                == PrecedenceStatus::Ambiguous && d.reason_codes == seq!["PRECEDENCE_UNRESOLVED"@]
                + tail
        }),
{
    reveal_strlit("PRECEDENCE_OK");
    reveal_strlit("PRECEDENCE_SUPERSEDED");
    reveal_strlit("PRECEDENCE_AMBIGUOUS");
    reveal_strlit("PRECEDENCE_UNRESOLVED");
    reveal_strlit("PRECEDENCE_CALLER_ASSERTED_UNVERIFIED");
}

/// A grant applies exactly when its schema is `wicket-grant/v1`, it names
/// the invoking actor, it permits the verb, both its timestamps parse, the
/// clock reading lies in the closed window between them, and the target lies
/// under the scope root.
pub proof fn law_grant_applies_iff_every_check_passes(
    g: Grant,
    actor: Seq<char>,
    op: Seq<char>,
    paths: ResolvedPaths,
    now: Timestamp,
)
    ensures
        validate_spec(g, actor, op, paths, now) == GrantCheck::Valid <==> {
            &&& g.schema@ == "wicket-grant/v1"@
            &&& g.actor@ == actor
            &&& strs(g.operations@).contains(op)
            &&& parsed_instant(g.issued_at@) matches Some(issued)
            &&& parsed_instant(g.expires_at@) matches Some(expires)
            &&& (issued.secs < now.secs || (issued.secs == now.secs && issued.nanos <= now.nanos))
            &&& (now.secs < expires.secs || (now.secs == expires.secs && now.nanos
                <= expires.nanos))
            &&& spec_path_starts_with(paths.target@, paths.scope_root@)
        },
{
    reveal_strlit("wicket-grant/v1");
}

/// The actions suggested next: `execute_intended_action` alone on an
/// authorization; sharing or drafting the recommendation on an advisory
/// verdict; fixing the input on an unaccounted one; on a denial, proposing a
/// recommendation exactly when the standing is merely too low for an
/// authorize, execute or bind, escalating exactly when the standing is
/// absent, forbidden or out of scope, and requesting a fresh or admissible
/// basis exactly when the basis is revoked or inadmissible.
pub proof fn law_next_actions_by_verdict(
    op: OperationClass,
    v: SurfaceVerdict,
    b: BasisStatus,
    p: PrecedenceStatus,
    s: StandingStatus,
)
    ensures
        v == SurfaceVerdict::Authorized ==> allowed_spec(op, v, b, p, s) == seq![
            "execute_intended_action"@],
        v == SurfaceVerdict::AdvisoryOnly ==> allowed_spec(op, v, b, p, s) == seq![
            "share_recommendation"@, "draft_recommendation"@],
        v == SurfaceVerdict::Unaccounted ==> allowed_spec(op, v, b, p, s) == seq![
            "fix_input_and_retry"@],
        v == SurfaceVerdict::Denied ==> {
            let a = allowed_spec(op, v, b, p, s);
            &&& a.contains("propose_recommendation"@) <==> (s == StandingStatus::Insufficient && (op
                == OperationClass::Authorize || op == OperationClass::Execute || op
                == OperationClass::Bind))
            &&& a.contains("escalate_to_authority_holder"@) <==> (s == StandingStatus::Absent || s
                == StandingStatus::Forbidden || s == StandingStatus::OutOfScope)
            &&& a.contains("request_fresh_basis"@) <==> b == BasisStatus::Revoked
            &&& a.contains("supply_admissible_basis"@) <==> b == BasisStatus::Inadmissible
            &&& a.contains("adopt_superseding_rule"@) <==> p == PrecedenceStatus::Superseded
        },
{
    reveal_strlit("propose_recommendation");
    reveal_strlit("escalate_to_authority_holder");
    reveal_strlit("request_fresh_basis");
    reveal_strlit("supply_admissible_basis");
    reveal_strlit("adopt_superseding_rule");
    reveal_strlit("review_dimensional_accounting");
    assert("propose_recommendation"@[0] != "escalate_to_authority_holder"@[0]);
    assert("propose_recommendation"@[0] != "request_fresh_basis"@[0]);
    assert("propose_recommendation"@[0] != "supply_admissible_basis"@[0]);
    assert("propose_recommendation"@[0] != "adopt_superseding_rule"@[0]);
    assert("propose_recommendation"@[0] != "review_dimensional_accounting"@[0]);
    assert("escalate_to_authority_holder"@[0] != "request_fresh_basis"@[0]);
    assert("escalate_to_authority_holder"@[0] != "supply_admissible_basis"@[0]);
    assert("escalate_to_authority_holder"@[0] != "adopt_superseding_rule"@[0]);
    assert("escalate_to_authority_holder"@[0] != "review_dimensional_accounting"@[0]);
    assert("request_fresh_basis"@[0] != "supply_admissible_basis"@[0]);
    assert("request_fresh_basis"@[0] != "adopt_superseding_rule"@[0]);
    assert("request_fresh_basis"@[2] != "review_dimensional_accounting"@[2]);
    assert("supply_admissible_basis"@[0] != "adopt_superseding_rule"@[0]);
    assert("supply_admissible_basis"@[0] != "review_dimensional_accounting"@[0]);
    assert("adopt_superseding_rule"@[0] != "review_dimensional_accounting"@[0]);
    if v == SurfaceVerdict::Denied {
        let c1 = code_if(s == StandingStatus::Insufficient && op.spec_is_ladder_class(), "propose_recommendation");
        let c2 = code_if(
            s == StandingStatus::Absent || s == StandingStatus::Forbidden || s
                == StandingStatus::OutOfScope,
            "escalate_to_authority_holder",
        );
        let c3 = code_if(b == BasisStatus::Revoked, "request_fresh_basis");
        let c4 = code_if(b == BasisStatus::Inadmissible, "supply_admissible_basis");
        let c5 = code_if(p == PrecedenceStatus::Superseded, "adopt_superseding_rule");
        let x1 = c1;
        let x2 = x1 + c2;
        let x3 = x2 + c3;
        let x4 = x3 + c4;
        let x5 = x4 + c5;
        lemma_contains_code_if(s == StandingStatus::Insufficient && op.spec_is_ladder_class(), "propose_recommendation");
        lemma_contains_code_if(
            s == StandingStatus::Absent || s == StandingStatus::Forbidden || s
                == StandingStatus::OutOfScope,
            "escalate_to_authority_holder",
        );
        lemma_contains_code_if(b == BasisStatus::Revoked, "request_fresh_basis");
        lemma_contains_code_if(b == BasisStatus::Inadmissible, "supply_admissible_basis");
        lemma_contains_code_if(p == PrecedenceStatus::Superseded, "adopt_superseding_rule");
        lemma_contains_concat(x1, c2);
        lemma_contains_concat(x2, c3);
        lemma_contains_concat(x3, c4);
        lemma_contains_concat(x4, c5);
        assert(x5 == crate::verdict::denied_allowed_spec(op, b, p, s) || x5.len() == 0);
        let a = allowed_spec(op, v, b, p, s);
        if x5.len() == 0 {
            assert(a == seq!["review_dimensional_accounting"@]);
            assert(!x5.contains("propose_recommendation"@));
            assert(!x5.contains("escalate_to_authority_holder"@));
            assert(!x5.contains("request_fresh_basis"@));
            assert(!x5.contains("supply_admissible_basis"@));
            assert(!x5.contains("adopt_superseding_rule"@));
            assert(forall|m: Seq<char>| #[trigger] a.contains(m) ==> m == "review_dimensional_accounting"@);
        } else {
            assert(a == x5);
        }
    }
}

proof fn lemma_contains_code_if(c: bool, n: &str)
    ensures
        forall|m: Seq<char>| #[trigger] code_if(c, n).contains(m) <==> (c && m == n@),
{
    if c {
        assert(code_if(c, n)[0] == n@);
    }
}

proof fn lemma_contains_concat(a: Seq<Seq<char>>, b: Seq<Seq<char>>)
    ensures
        forall|x: Seq<char>| #[trigger] (a + b).contains(x) <==> a.contains(x) || b.contains(x),
{
    assert forall|x: Seq<char>| #[trigger] (a + b).contains(x) <==> a.contains(x) || b.contains(x) by {
        if (a + b).contains(x) {
            let k = choose|k: int| 0 <= k < (a + b).len() && (a + b)[k] == x;
            if k < a.len() {
                assert(a[k] == x);
            } else {
                assert(b[k - a.len()] == x);
            }
        }
        if a.contains(x) {
            let k = choose|k: int| 0 <= k < a.len() && a[k] == x;
            assert((a + b)[k] == x);
        }
        if b.contains(x) {
            let k = choose|k: int| 0 <= k < b.len() && b[k] == x;
            assert((a + b)[k + a.len()] == x);
        }
    }
}

/// Exit codes: 2 for an unaccounted verdict, and with the strict flag for a
/// denial or a gap too; 0 for every other verdict.
pub proof fn law_exit_codes(v: SurfaceVerdict, strict: bool)
    ensures
        exit_code_spec(v, strict) == 2 <==> (v == SurfaceVerdict::Unaccounted || (strict && (v
            == SurfaceVerdict::Denied || v == SurfaceVerdict::Gap))),
        exit_code_spec(v, strict) == 0 <==> !(v == SurfaceVerdict::Unaccounted || (strict && (v
            == SurfaceVerdict::Denied || v == SurfaceVerdict::Gap))),
{
}

} // verus!
