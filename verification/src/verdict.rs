//! The surface verdict (first match wins: unaccounted, denied,
//! advisory_only, gap, authorized), the allowed and forbidden next actions,
//! the receipt obligation, and the orchestrator that assembles an outcome.
use vstd::prelude::*;

use crate::codes;
use crate::model::{
    BasisStatus, DimensionResult, DimensionView, Dimensions, Intent, OperationClass, Outcome,
    OutcomeClass, OutcomeView, PrecedenceStatus, ReceiptObligation, StandingStatus, SurfaceVerdict,
    strs,
};
use crate::receipt::{build, receipt_spec, seal, sealed};
use crate::rules::{
    basis_spec, code_if, derive_basis, derive_precedence, derive_standing,
    future_provenance_spec, has_future_provenance, one_code, precedence_spec, push_code,
    push_code_if, standing_spec, two_codes,
};
use crate::time::{parse_ts, parsed_instant};

verus! {

// ---------------------------------------------------------------------------
// Surface verdict
// ---------------------------------------------------------------------------
/// A standing status that denies outright: absent, forbidden, out of scope
/// or insufficient.
pub open spec fn standing_denies(s: StandingStatus) -> bool {
    s == StandingStatus::Absent || s == StandingStatus::Forbidden || s == StandingStatus::OutOfScope
        || s == StandingStatus::Insufficient
}

/// The derivation table for the three dimensions of a classifiable intent.
pub open spec fn surface_spec(
    op: OperationClass,
    b: BasisStatus,
    p: PrecedenceStatus,
    s: StandingStatus,
) -> SurfaceVerdict {
    if b.spec_is_hard() || p == PrecedenceStatus::Superseded || standing_denies(s) {
        SurfaceVerdict::Denied
    } else if op == OperationClass::Recommend && b == BasisStatus::Satisfied && p
        == PrecedenceStatus::Satisfied && s == StandingStatus::Satisfied {
        SurfaceVerdict::AdvisoryOnly
    } else if b.spec_is_soft_unsatisfied() || p == PrecedenceStatus::Ambiguous {
        SurfaceVerdict::Gap
    } else {
        SurfaceVerdict::Authorized
    }
}

/// The surface verdict of three derived dimensions (see [`surface_spec`]).
pub fn surface_verdict(
    intent: &Intent,
    basis: &DimensionResult<BasisStatus>,
    precedence: &DimensionResult<PrecedenceStatus>,
    standing: &DimensionResult<StandingStatus>,
) -> (r: SurfaceVerdict)
    ensures
        r == surface_spec(intent.operation_class, basis.status, precedence.status, standing.status),
{
    // Hard denials.
    if basis.status.is_hard() {
        return SurfaceVerdict::Denied;
    }
    if precedence.status == PrecedenceStatus::Superseded {
        return SurfaceVerdict::Denied;
    }
    match standing.status {
        StandingStatus::Absent | StandingStatus::Forbidden | StandingStatus::OutOfScope
        | StandingStatus::Insufficient => {
            return SurfaceVerdict::Denied;
        },
        _ => {},
    }
    // A recommend-class operation that meets the recommend-class bar.
    if intent.operation_class == OperationClass::Recommend && basis.status
        == BasisStatus::Satisfied && precedence.status == PrecedenceStatus::Satisfied
        && standing.status == StandingStatus::Satisfied {
        return SurfaceVerdict::AdvisoryOnly;
    }
    // An open finding: soft basis failure or ambiguous precedence.
    if basis.status.is_soft_unsatisfied() || precedence.status == PrecedenceStatus::Ambiguous {
        return SurfaceVerdict::Gap;
    }
    SurfaceVerdict::Authorized
}

// ---------------------------------------------------------------------------
// Reason codes, class, obligation
// ---------------------------------------------------------------------------
/// `s` with later repeats of an element removed.
pub open spec fn dedup(s: Seq<Seq<char>>) -> Seq<Seq<char>>
    decreases s.len(),
{
    if s.len() == 0 {
        seq![]
    } else {
        let d = dedup(s.drop_last());
        if d.contains(s.last()) {
            d
        } else {
            d.push(s.last())
        }
    }
}

/// The top-level reason codes: the union of the dimensions' codes in
/// dimension order without repeats, plus `OPEN_FINDING_ACCOUNTED` on a gap.
pub open spec fn top_codes_spec(
    surface: SurfaceVerdict,
    b: Seq<Seq<char>>,
    p: Seq<Seq<char>>,
    s: Seq<Seq<char>>,
) -> Seq<Seq<char>> {
    let u = dedup(b + p + s);
    if surface == SurfaceVerdict::Gap && !u.contains(codes::OPEN_FINDING_ACCOUNTED@) {
        u.push(codes::OPEN_FINDING_ACCOUNTED@)
    } else {
        u
    }
}

fn contains_code(v: &Vec<String>, c: &String) -> (r: bool)
    ensures
        r == strs(v@).contains(c@),
{
    for i in 0..v.len()
        invariant
            forall|j: int| 0 <= j < i ==> strs(v@)[j] != c@,
    {
        if v[i] == *c {
            assert(strs(v@)[i as int] == c@);
            return true;
        }
    }
    false
}

fn append_unique(out: &mut Vec<String>, src: &Vec<String>, Ghost(prefix): Ghost<Seq<Seq<char>>>)
    requires
        strs(old(out)@) == dedup(prefix),
    ensures
        strs(final(out)@) == dedup(prefix + strs(src@)),
{
    let ghost all = prefix + strs(src@);
    assert(all.take(prefix.len() as int) =~= prefix);
    for i in 0..src.len()
        invariant
            all == prefix + strs(src@),
            strs(out@) == dedup(all.take(prefix.len() + i)),
    {
        let c = &src[i];
        assert(all.take(prefix.len() + i + 1).drop_last() =~= all.take(prefix.len() + i));
        assert(all[prefix.len() + i] == c@);
        if !contains_code(out, c) {
            out.push(c.clone());
            assert(strs(out@) =~= dedup(all.take(prefix.len() + i)).push(c@));
        }
    }
    assert(all.take(all.len() as int) =~= all);
}

/// The dimensions' reason codes in dimension order, each kept at its first
/// occurrence.
pub fn union_codes(
    basis: &DimensionResult<BasisStatus>,
    precedence: &DimensionResult<PrecedenceStatus>,
    standing: &DimensionResult<StandingStatus>,
) -> (r: Vec<String>)
    ensures
        strs(r@) == dedup(
            strs(basis.reason_codes@) + strs(precedence.reason_codes@) + strs(
                standing.reason_codes@,
            ),
        ),
{
    let mut out: Vec<String> = Vec::new();
    assert(strs(out@) =~= dedup(seq![]));
    append_unique(&mut out, &basis.reason_codes, Ghost(Seq::empty()));
    assert(seq![] + strs(basis.reason_codes@) =~= strs(basis.reason_codes@));
    append_unique(&mut out, &precedence.reason_codes, Ghost(strs(basis.reason_codes@)));
    append_unique(
        &mut out,
        &standing.reason_codes,
        Ghost(strs(basis.reason_codes@) + strs(precedence.reason_codes@)),
    );
    out
}

/// `Error` for the unaccounted verdict, `Verdict` otherwise.
pub open spec fn class_spec(surface: SurfaceVerdict) -> OutcomeClass {
    if surface == SurfaceVerdict::Unaccounted {
        OutcomeClass::Error
    } else {
        OutcomeClass::Verdict
    }
}

/// The receipt obligation of each surface verdict.
pub open spec fn obligation_spec(surface: SurfaceVerdict) -> ReceiptObligation {
    match surface {
        SurfaceVerdict::Authorized => ReceiptObligation::ActionReceipt,
        SurfaceVerdict::AdvisoryOnly => ReceiptObligation::AdvisoryReceipt,
        SurfaceVerdict::Denied => ReceiptObligation::RefusalReceipt,
        SurfaceVerdict::Gap => ReceiptObligation::GapReceipt,
        SurfaceVerdict::Unaccounted => ReceiptObligation::ErrorReceipt,
    }
}

// ---------------------------------------------------------------------------
// Allowed and forbidden next actions (suggestions, not commands)
// ---------------------------------------------------------------------------
/// What a denied actor may try next.
pub open spec fn denied_allowed_spec(
    op: OperationClass,
    b: BasisStatus,
    p: PrecedenceStatus,
    s: StandingStatus,
) -> Seq<Seq<char>> {
    let all = code_if(s == StandingStatus::Insufficient && op.spec_is_ladder_class(), "propose_recommendation")
        + code_if(
        s == StandingStatus::Absent || s == StandingStatus::Forbidden || s
            == StandingStatus::OutOfScope,
        "escalate_to_authority_holder",
    ) + code_if(b == BasisStatus::Revoked, "request_fresh_basis") + code_if(
        b == BasisStatus::Inadmissible,
        "supply_admissible_basis",
    ) + code_if(p == PrecedenceStatus::Superseded, "adopt_superseding_rule");
    if all.len() == 0 {
        seq!["review_dimensional_accounting"@]
    } else {
        all
    }
}

/// What an actor facing an open finding may do to close it.
pub open spec fn gap_allowed_spec(op: OperationClass, b: BasisStatus, p: PrecedenceStatus) -> Seq<
    Seq<char>,
> {
    let first = match b {
        BasisStatus::Stale => seq!["request_fresh_basis"@],
        BasisStatus::Insufficient => seq!["supply_supporting_evidence"@],
        BasisStatus::Absent => seq!["supply_basis_and_evidence"@],
        BasisStatus::Ambiguous => seq!["clarify_basis_evidence_kinds"@],
        _ => seq![],
    };
    let all = first + code_if(p == PrecedenceStatus::Ambiguous, "resolve_precedence") + code_if(
        op != OperationClass::Observe,
        "propose_recommendation",
    );
    if all.len() == 0 {
        seq!["close_open_finding"@]
    } else {
        all
    }
}

/// The actions suggested next for each surface verdict.
pub open spec fn allowed_spec(
    op: OperationClass,
    surface: SurfaceVerdict,
    b: BasisStatus,
    p: PrecedenceStatus,
    s: StandingStatus,
) -> Seq<Seq<char>> {
    match surface {
        SurfaceVerdict::Authorized => seq!["execute_intended_action"@],
        SurfaceVerdict::AdvisoryOnly => seq!["share_recommendation"@, "draft_recommendation"@],
        SurfaceVerdict::Denied => denied_allowed_spec(op, b, p, s),
        SurfaceVerdict::Gap => gap_allowed_spec(op, b, p),
        SurfaceVerdict::Unaccounted => seq!["fix_input_and_retry"@],
    }
}

/// The actions explicitly ruled out for each surface verdict.
pub open spec fn forbidden_spec(surface: SurfaceVerdict) -> Seq<Seq<char>> {
    match surface {
        SurfaceVerdict::Authorized => seq![],
        SurfaceVerdict::AdvisoryOnly => seq![
            "execute_recommendation_as_authorization"@,
            "claim_authorization"@,
        ],
        SurfaceVerdict::Denied => seq!["mutate_target"@, "claim_authorization"@],
        SurfaceVerdict::Gap => seq!["mutate_target"@, "claim_authorization"@],
        SurfaceVerdict::Unaccounted => seq!["proceed_with_unaccounted_intent"@],
    }
}

/// The remedies offered on a denial (see [`denied_allowed_spec`]).
pub fn denied_allowed(
    intent: &Intent,
    basis: &DimensionResult<BasisStatus>,
    precedence: &DimensionResult<PrecedenceStatus>,
    standing: &DimensionResult<StandingStatus>,
) -> (r: Vec<String>)
    ensures
        strs(r@) == denied_allowed_spec(
            intent.operation_class,
            basis.status,
            precedence.status,
            standing.status,
        ),
{
    let mut out: Vec<String> = Vec::new();
    assert(strs(out@) =~= seq![]);
    let s = standing.status;
    // Standing too low for a higher class: recommend instead.
    push_code_if(
        &mut out,
        s == StandingStatus::Insufficient && intent.operation_class.is_ladder_class(),
        "propose_recommendation",
    );
    push_code_if(
        &mut out,
        s == StandingStatus::Absent || s == StandingStatus::Forbidden || s
            == StandingStatus::OutOfScope,
        "escalate_to_authority_holder",
    );
    push_code_if(&mut out, basis.status == BasisStatus::Revoked, "request_fresh_basis");
    push_code_if(&mut out, basis.status == BasisStatus::Inadmissible, "supply_admissible_basis");
    push_code_if(
        &mut out,
        precedence.status == PrecedenceStatus::Superseded,
        "adopt_superseding_rule",
    );
    if out.len() == 0 {
        push_code(&mut out, "review_dimensional_accounting");
        assert(strs(out@) =~= seq!["review_dimensional_accounting"@]);
    }
    out
}

/// The actions that may close an open finding (see [`gap_allowed_spec`]).
pub fn gap_allowed(
    intent: &Intent,
    basis: &DimensionResult<BasisStatus>,
    precedence: &DimensionResult<PrecedenceStatus>,
) -> (r: Vec<String>)
    ensures
        strs(r@) == gap_allowed_spec(intent.operation_class, basis.status, precedence.status),
{
    let mut out: Vec<String> = Vec::new();
    match basis.status {
        BasisStatus::Stale => push_code(&mut out, "request_fresh_basis"),
        BasisStatus::Insufficient => push_code(&mut out, "supply_supporting_evidence"),
        BasisStatus::Absent => push_code(&mut out, "supply_basis_and_evidence"),
        BasisStatus::Ambiguous => push_code(&mut out, "clarify_basis_evidence_kinds"),
        _ => {},
    }
    let ghost first = strs(out@);
    assert(first =~= match basis.status {
        BasisStatus::Stale => seq!["request_fresh_basis"@],
        BasisStatus::Insufficient => seq!["supply_supporting_evidence"@],
        BasisStatus::Absent => seq!["supply_basis_and_evidence"@],
        BasisStatus::Ambiguous => seq!["clarify_basis_evidence_kinds"@],
        _ => seq![],
    });
    push_code_if(&mut out, precedence.status == PrecedenceStatus::Ambiguous, "resolve_precedence");
    push_code_if(
        &mut out,
        intent.operation_class != OperationClass::Observe,
        "propose_recommendation",
    );
    if out.len() == 0 {
        push_code(&mut out, "close_open_finding");
        assert(strs(out@) =~= seq!["close_open_finding"@]);
    }
    out
}

/// The actions suggested next for a verdict (see [`allowed_spec`]).
pub fn allowed_actions(
    intent: &Intent,
    surface: SurfaceVerdict,
    basis: &DimensionResult<BasisStatus>,
    precedence: &DimensionResult<PrecedenceStatus>,
    standing: &DimensionResult<StandingStatus>,
) -> (r: Vec<String>)
    ensures
        strs(r@) == allowed_spec(
            intent.operation_class,
            surface,
            basis.status,
            precedence.status,
            standing.status,
        ),
{
    match surface {
        SurfaceVerdict::Authorized => one_code("execute_intended_action"),
        SurfaceVerdict::AdvisoryOnly => two_codes("share_recommendation", "draft_recommendation"),
        SurfaceVerdict::Denied => denied_allowed(intent, basis, precedence, standing),
        SurfaceVerdict::Gap => gap_allowed(intent, basis, precedence),
        SurfaceVerdict::Unaccounted => one_code("fix_input_and_retry"),
    }
}

/// The actions ruled out for a verdict (see [`forbidden_spec`]).
pub fn forbidden_actions(surface: SurfaceVerdict) -> (r: Vec<String>)
    ensures
        strs(r@) == forbidden_spec(surface),
{
    match surface {
        SurfaceVerdict::Authorized => {
            let v: Vec<String> = Vec::new();
            assert(strs(v@) =~= seq![]);
            v
        },
        SurfaceVerdict::AdvisoryOnly => two_codes(
            "execute_recommendation_as_authorization",
            "claim_authorization",
        ),
        SurfaceVerdict::Denied => two_codes("mutate_target", "claim_authorization"),
        SurfaceVerdict::Gap => two_codes("mutate_target", "claim_authorization"),
        SurfaceVerdict::Unaccounted => one_code("proceed_with_unaccounted_intent"),
    }
}

// ---------------------------------------------------------------------------
// Outcome assembly
// ---------------------------------------------------------------------------
/// The outcome for a classified intent, before sealing.
pub open spec fn outcome_body_spec(
    intent: Intent,
    surface: SurfaceVerdict,
    b: DimensionView<BasisStatus>,
    p: DimensionView<PrecedenceStatus>,
    s: DimensionView<StandingStatus>,
) -> OutcomeView {
    OutcomeView {
        class: class_spec(surface),
        surface_verdict: surface,
        operation_class: intent.operation_class,
        basis: b,
        precedence: p,
        standing: s,
        reason_codes: top_codes_spec(surface, b.reason_codes, p.reason_codes, s.reason_codes),
        allowed: allowed_spec(intent.operation_class, surface, b.status, p.status, s.status),
        forbidden: forbidden_spec(surface),
        receipt: receipt_spec(intent, obligation_spec(surface)),
    }
}

/// The intent cannot be classified under the v1 model: some provenance
/// field uses a reserved value, or the call timestamp does not parse.
pub open spec fn unaccounted_spec(intent: Intent) -> bool {
    future_provenance_spec(intent) || parsed_instant(intent.call_timestamp@) is None
}

/// The input code an unclassifiable intent is reported with: reserved
/// provenance first, else the malformed call timestamp.
pub open spec fn input_fault_code(intent: Intent) -> Seq<char> {
    if future_provenance_spec(intent) {
        codes::INPUT_FUTURE_PROVENANCE_RESERVED@
    } else {
        codes::INPUT_SCHEMA_INVALID@
    }
}

/// The outcome for an unclassifiable intent, reported with `fault`, before
/// sealing.
pub open spec fn unaccounted_body_spec(intent: Intent, fault: Seq<char>) -> OutcomeView {
    let reserved = seq![fault];
    OutcomeView {
        class: OutcomeClass::Error,
        surface_verdict: SurfaceVerdict::Unaccounted,
        operation_class: intent.operation_class,
        basis: DimensionView { status: BasisStatus::Ambiguous, reason_codes: reserved },
        precedence: DimensionView { status: PrecedenceStatus::Ambiguous, reason_codes: reserved },
        standing: DimensionView { status: StandingStatus::Insufficient, reason_codes: reserved },
        reason_codes: seq![fault, codes::UNACCOUNTED_INPUT@],
        allowed: seq!["fix_input_and_retry"@],
        forbidden: seq!["proceed_with_unaccounted_intent"@],
        receipt: receipt_spec(intent, ReceiptObligation::ErrorReceipt),
    }
}

/// The surface verdict of a classifiable intent.
pub open spec fn classified_verdict(intent: Intent) -> SurfaceVerdict {
    surface_spec(
        intent.operation_class,
        basis_spec(intent).status,
        precedence_spec(intent).status,
        standing_spec(intent).status,
    )
}

/// The complete outcome of one preflight call on `intent`, before sealing.
pub open spec fn outcome_unsealed(intent: Intent) -> OutcomeView {
    if unaccounted_spec(intent) {
        unaccounted_body_spec(intent, input_fault_code(intent))
    } else {
        outcome_body_spec(
            intent,
            classified_verdict(intent),
            basis_spec(intent),
            precedence_spec(intent),
            standing_spec(intent),
        )
    }
}

/// The complete outcome of one preflight call on `intent`.
#[verifier::opaque]
pub open spec fn outcome_spec(intent: Intent) -> OutcomeView {
    sealed(outcome_unsealed(intent))
}

/// The fields of the outcome of `intent`, one by one.
pub proof fn lemma_outcome_fields(intent: Intent)
    ensures
        ({
            let o = outcome_spec(intent);
            let v = o.surface_verdict;
            let b = basis_spec(intent);
            let p = precedence_spec(intent);
            let s = standing_spec(intent);
            &&& v == if unaccounted_spec(intent) {
                SurfaceVerdict::Unaccounted
            } else {
                classified_verdict(intent)
            }
            &&& o.class == class_spec(v)
            &&& o.operation_class == intent.operation_class
            &&& o.forbidden == forbidden_spec(v)
            &&& o.receipt.obligation == obligation_spec(v)
            &&& !unaccounted_spec(intent) ==> {
                &&& o.basis == b
                &&& o.precedence == p
                &&& o.standing == s
                &&& o.reason_codes == top_codes_spec(
                    v,
                    b.reason_codes,
                    p.reason_codes,
                    s.reason_codes,
                )
                &&& o.allowed == allowed_spec(
                    intent.operation_class,
                    v,
                    b.status,
                    p.status,
                    s.status,
                )
            }
            &&& unaccounted_spec(intent) ==> o == sealed(
                unaccounted_body_spec(intent, input_fault_code(intent)),
            )
        }),
{
    reveal(outcome_spec);
}

/// Assembles and seals the outcome of a classified intent from its verdict
/// and dimensions.
pub fn finalize(
    intent: &Intent,
    surface: SurfaceVerdict,
    basis: DimensionResult<BasisStatus>,
    precedence: DimensionResult<PrecedenceStatus>,
    standing: DimensionResult<StandingStatus>,
) -> (r: Outcome)
    ensures
        r@ == sealed(outcome_body_spec(*intent, surface, basis@, precedence@, standing@)),
        r.receipt.receipt_id@.len() == 71,
        r.receipt.receipt_id@.subrange(0, 7) == "sha256:"@,
{
    let class = match surface {
        SurfaceVerdict::Unaccounted => OutcomeClass::Error,
        _ => OutcomeClass::Verdict,
    };
    let obligation = match surface {
        SurfaceVerdict::Authorized => ReceiptObligation::ActionReceipt,
        SurfaceVerdict::AdvisoryOnly => ReceiptObligation::AdvisoryReceipt,
        SurfaceVerdict::Denied => ReceiptObligation::RefusalReceipt,
        SurfaceVerdict::Gap => ReceiptObligation::GapReceipt,
        SurfaceVerdict::Unaccounted => ReceiptObligation::ErrorReceipt,
    };
    let mut top_codes = union_codes(&basis, &precedence, &standing);
    if surface == SurfaceVerdict::Gap {
        let open = crate::rules::code(codes::OPEN_FINDING_ACCOUNTED);
        if !contains_code(&top_codes, &open) {
            push_code(&mut top_codes, codes::OPEN_FINDING_ACCOUNTED);
        }
    }
    let allowed = allowed_actions(intent, surface, &basis, &precedence, &standing);
    let forbidden = forbidden_actions(surface);
    let dimensions = Dimensions { basis, precedence, standing };
    let receipt = build(intent, &dimensions, top_codes.as_slice(), obligation);
    let mut outcome = Outcome {
        class,
        surface_verdict: surface,
        operation_class: intent.operation_class,
        dimensions,
        reason_codes: top_codes,
        allowed,
        forbidden,
        receipt,
    };
    seal(&mut outcome);
    outcome
}

/// Assembles and seals the outcome of an unclassifiable intent, reported
/// with the input code `fault`.
pub fn unaccounted_outcome(intent: &Intent, fault: &'static str) -> (r: Outcome)
    ensures
        r@ == sealed(unaccounted_body_spec(*intent, fault@)),
        r.receipt.receipt_id@.len() == 71,
        r.receipt.receipt_id@.subrange(0, 7) == "sha256:"@,
{
    let basis = DimensionResult { status: BasisStatus::Ambiguous, reason_codes: one_code(fault) };
    let precedence = DimensionResult {
        status: PrecedenceStatus::Ambiguous,
        reason_codes: one_code(fault),
    };
    let standing = DimensionResult {
        status: StandingStatus::Insufficient,
        reason_codes: one_code(fault),
    };
    let top_codes = two_codes(fault, codes::UNACCOUNTED_INPUT);
    let dimensions = Dimensions { basis, precedence, standing };
    let receipt = build(
        intent,
        &dimensions,
        top_codes.as_slice(),
        ReceiptObligation::ErrorReceipt,
    );
    let mut outcome = Outcome {
        class: OutcomeClass::Error,
        surface_verdict: SurfaceVerdict::Unaccounted,
        operation_class: intent.operation_class,
        dimensions,
        reason_codes: top_codes,
        allowed: one_code("fix_input_and_retry"),
        forbidden: one_code("proceed_with_unaccounted_intent"),
        receipt,
    };
    seal(&mut outcome);
    outcome
}

/// Derives the complete outcome of one intent: the three dimensions, the
/// surface verdict, the reason codes, the next actions and a sealed receipt.
pub fn derive(intent: &Intent) -> (r: Outcome)
    ensures
        r@ == outcome_spec(*intent),
        r.receipt.receipt_id@.len() == 71,
        r.receipt.receipt_id@.subrange(0, 7) == "sha256:"@,
{
    reveal(outcome_spec);
    // Reserved provenance, or a call timestamp that does not parse, cannot
    // be classified under the v1 model.
    if has_future_provenance(intent) {
        return unaccounted_outcome(intent, codes::INPUT_FUTURE_PROVENANCE_RESERVED);
    }
    if parse_ts(intent.call_timestamp.as_str()).is_none() {
        return unaccounted_outcome(intent, codes::INPUT_SCHEMA_INVALID);
    }
    let basis = derive_basis(intent);
    let precedence = derive_precedence(intent);
    let standing = derive_standing(intent);
    let surface = surface_verdict(intent, &basis, &precedence, &standing);
    finalize(intent, surface, basis, precedence, standing)
}

} // verus!
