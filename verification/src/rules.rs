//! Per-dimension derivation: basis (with the sufficiency matrix), precedence
//! and standing, and the reserved-provenance gate.
use vstd::prelude::*;

use crate::codes;
use crate::model::{
    BasisStatus, DimensionResult, DimensionView, Evidence, EvidenceKind, Intent, OperationClass,
    PrecedenceResolution, PrecedenceStatus, Provenance, ScopeAssertion, StandingStatus,
    ValidityStatus, standing_rank, strs,
};
use crate::time::{
    Timestamp, at_or_after, minutes_between, parse_ts, parsed_instant, representable,
    spec_minutes_between, ts_le,
};

verus! {

// ---------------------------------------------------------------------------
// Text helpers
// ---------------------------------------------------------------------------
/// The Unicode `White_Space` characters, the set that `str::trim` removes.
pub open spec fn is_unicode_whitespace(c: char) -> bool {
    let u = c as u32;
    ||| (0x9 <= u <= 0xD)
    ||| u == 0x20
    ||| u == 0x85
    ||| u == 0xA0
    ||| u == 0x1680
    ||| (0x2000 <= u <= 0x200A)
    ||| u == 0x2028
    ||| u == 0x2029
    ||| u == 0x202F
    ||| u == 0x205F
    ||| u == 0x3000
}

/// A string that trims to nothing.
pub open spec fn is_blank(s: Seq<char>) -> bool {
    forall|i: int| 0 <= i < s.len() ==> is_unicode_whitespace(#[trigger] s[i])
}

fn char_is_whitespace(c: char) -> (r: bool)
    ensures
        r == is_unicode_whitespace(c),
{
    let u = c as u32;
    (0x9 <= u && u <= 0xD) || u == 0x20 || u == 0x85 || u == 0xA0 || u == 0x1680 || (0x2000
        <= u && u <= 0x200A) || u == 0x2028 || u == 0x2029 || u == 0x202F || u == 0x205F || u
        == 0x3000
}

/// Whether `s.trim()` is empty.
pub fn trims_to_empty(s: &str) -> (r: bool)
    ensures
        r == is_blank(s@),
{
    let mut all = true;
    for c in it: s.chars()
        invariant
            all == (forall|j: int| 0 <= j < it.index() ==> is_unicode_whitespace(
                #[trigger] it.seq()[j],
            )),
            it.seq() == s@,
    {
        if !char_is_whitespace(c) {
            all = false;
        }
    }
    all
}

/// A reason code as an owned string.
pub fn code(c: &str) -> (r: String)
    ensures
        r@ == c@,
{
    c.to_owned()
}

/// A list of one reason code.
pub fn one_code(a: &str) -> (r: Vec<String>)
    ensures
        strs(r@) == seq![a@],
{
    let r = vec![code(a)];
    assert(strs(r@) =~= seq![a@]);
    r
}

/// `c` alone when `b` holds, else nothing.
pub open spec fn code_if(b: bool, c: &str) -> Seq<Seq<char>> {
    if b {
        seq![c@]
    } else {
        seq![]
    }
}

/// Appends the reason code `c`.
pub fn push_code(v: &mut Vec<String>, c: &str)
    ensures
        strs(final(v)@) == strs(old(v)@).push(c@),
{
    v.push(code(c));
    assert(strs(v@) =~= strs(old(v)@).push(c@));
}

/// Appends the reason code `c` when `b` holds.
pub fn push_code_if(v: &mut Vec<String>, b: bool, c: &str)
    ensures
        strs(final(v)@) == strs(old(v)@) + code_if(b, c),
{
    if b {
        push_code(v, c);
    }
    assert(strs(v@) =~= strs(old(v)@) + code_if(b, c));
}

/// A list of two reason codes, in order.
pub fn two_codes(a: &str, b: &str) -> (r: Vec<String>)
    ensures
        strs(r@) == seq![a@, b@],
{
    let r = vec![code(a), code(b)];
    assert(strs(r@) =~= seq![a@, b@]);
    r
}


// ---------------------------------------------------------------------------
// Basis: the sufficiency matrix
// ---------------------------------------------------------------------------
/// What the clock says of one evidence ref at call time: its `valid_until`
/// parsed, and the whole minutes from its `valid_from` to the call timestamp
/// when both parse.
#[derive(Debug, Clone, Copy, PartialEq, Eq, Structural)]
pub struct EvidenceClock {
    pub valid_until: Option<Timestamp>,
    pub minutes_since_valid_from: Option<i64>,
}

/// Evidence whose issuer and subject are both the actor.
pub open spec fn is_self_cert(e: Evidence, actor: Seq<char>) -> bool {
    e.issuer@ == e.subject@ && e.subject@ == actor
}

/// A ref that is `valid` and whose `valid_until` parses to an instant at or
/// after the call timestamp.
pub open spec fn is_fresh(e: Evidence, c: EvidenceClock, call: Timestamp) -> bool {
    &&& e.status == ValidityStatus::Valid
    &&& c.valid_until matches Some(u)
    &&& ts_le(call, u)
}

/// Evidence ref `i` counts toward sufficiency: fresh and not self-certified.
pub open spec fn counts(intent: Intent, clocks: Seq<EvidenceClock>, call: Timestamp, i: int) -> bool {
    let e = intent.claimed_basis.evidence_refs@[i];
    !is_self_cert(e, intent.actor@) && is_fresh(e, clocks[i], call)
}

/// Some counting evidence ref has kind `k`.
pub open spec fn has_kind(
    intent: Intent,
    clocks: Seq<EvidenceClock>,
    call: Timestamp,
    k: EvidenceKind,
) -> bool {
    exists|i: int|
        0 <= i < intent.claimed_basis.evidence_refs@.len() && #[trigger] counts(
            intent,
            clocks,
            call,
            i,
        ) && intent.claimed_basis.evidence_refs@[i].kind == k
}

/// Some evidence ref counts at all.
pub open spec fn has_any_fresh(intent: Intent, clocks: Seq<EvidenceClock>, call: Timestamp) -> bool {
    exists|i: int|
        0 <= i < intent.claimed_basis.evidence_refs@.len() && #[trigger] counts(
            intent,
            clocks,
            call,
            i,
        )
}

/// Some counting human confirmation has a `valid_from` within 60 minutes of
/// the call timestamp, in either direction.
pub open spec fn has_recent_confirmation(
    intent: Intent,
    clocks: Seq<EvidenceClock>,
    call: Timestamp,
) -> bool {
    exists|i: int|
        0 <= i < intent.claimed_basis.evidence_refs@.len() && #[trigger] counts(
            intent,
            clocks,
            call,
            i,
        ) && intent.claimed_basis.evidence_refs@[i].kind == EvidenceKind::HumanConfirmation
            && within_an_hour(clocks[i].minutes_since_valid_from)
}

/// A minute count of at most 60 in either direction.
pub open spec fn within_an_hour(m: Option<i64>) -> bool {
    match m {
        Some(m) => -60 <= m <= 60,
        None => false,
    }
}

/// Outcome of the sufficiency matrix for one operation class.
#[derive(Debug, Clone, Copy)]
pub enum Sufficiency {
    /// The row is met.
    Met,
    /// Missing but supplyable evidence, with the code that names the row.
    Soft(&'static str),
    /// The row's hard rule is violated, with the code that names it.
    Hard(&'static str),
}

/// The sufficiency matrix: which fresh evidence kinds each operation class
/// needs.
pub open spec fn sufficiency_spec(
    intent: Intent,
    clocks: Seq<EvidenceClock>,
    call: Timestamp,
) -> Sufficiency {
    let has = |k: EvidenceKind| has_kind(intent, clocks, call, k);
    match intent.operation_class {
        OperationClass::Observe => {
            if has(EvidenceKind::Prompt) || has(EvidenceKind::PolicyRef) || has(
                EvidenceKind::FileHash,
            ) {
                Sufficiency::Met
            } else {
                Sufficiency::Soft(codes::BASIS_INSUFFICIENT_FOR_OBSERVE)
            }
        },
        OperationClass::Interpret => {
            if (has(EvidenceKind::Prompt) || has(EvidenceKind::PolicyRef)) && (has(
                EvidenceKind::FileHash,
            ) || has(EvidenceKind::ToolOutput) || has(EvidenceKind::PriorReceipt)) {
                Sufficiency::Met
            } else {
                Sufficiency::Soft(codes::BASIS_INSUFFICIENT_FOR_INTERPRET)
            }
        },
        OperationClass::Recommend => {
            if (has(EvidenceKind::Prompt) || has(EvidenceKind::HumanConfirmation) || has(
                EvidenceKind::PolicyRef,
            )) && (has(EvidenceKind::FileHash) || has(EvidenceKind::ToolOutput) || has(
                EvidenceKind::PriorReceipt,
            ) || has(EvidenceKind::CommandOutput)) {
                Sufficiency::Met
            } else {
                Sufficiency::Soft(codes::BASIS_INSUFFICIENT_FOR_RECOMMEND)
            }
        },
        OperationClass::Authorize => {
            if has(EvidenceKind::PolicyRef) || has(EvidenceKind::HumanConfirmation) {
                Sufficiency::Met
            } else {
                Sufficiency::Soft(codes::BASIS_INSUFFICIENT_FOR_AUTHORIZE)
            }
        },
        OperationClass::Execute => {
            if (has(EvidenceKind::PolicyRef) || has(EvidenceKind::HumanConfirmation)) && (has(
                EvidenceKind::ToolTrace,
            ) || has(EvidenceKind::TestLog) || has(EvidenceKind::CommandOutput) || has(
                EvidenceKind::FileHash,
            )) {
                Sufficiency::Met
            } else {
                Sufficiency::Soft(codes::BASIS_INSUFFICIENT_FOR_EXECUTE)
            }
        },
        OperationClass::Bind => {
            if !has_recent_confirmation(intent, clocks, call) {
                Sufficiency::Hard(codes::BASIS_INADMISSIBLE_BIND_REQUIRES_HUMAN_CONFIRMATION)
            } else if has(EvidenceKind::ToolTrace) || has(EvidenceKind::TestLog) || has(
                EvidenceKind::CommandOutput,
            ) || has(EvidenceKind::FileHash) || has(EvidenceKind::PriorReceipt) {
                Sufficiency::Met
            } else {
                Sufficiency::Soft(codes::BASIS_INSUFFICIENT_FOR_BIND)
            }
        },
    }
}

/// Some cited evidence ref is self-certified.
pub open spec fn any_self_cert(intent: Intent) -> bool {
    exists|i: int|
        0 <= i < intent.claimed_basis.evidence_refs@.len() && is_self_cert(
            #[trigger] intent.claimed_basis.evidence_refs@[i],
            intent.actor@,
        )
}

/// The basis dimension, given the parsed call timestamp and the clock of
/// each evidence ref. First match wins: revoked, self-certified, unparseable
/// call timestamp, nothing cited, then the sufficiency matrix.
pub open spec fn basis_at_spec(
    intent: Intent,
    call: Option<Timestamp>,
    clocks: Seq<EvidenceClock>,
) -> DimensionView<BasisStatus> {
    let evs = intent.claimed_basis.evidence_refs@;
    if intent.revocation.basis_revoked {
        DimensionView { status: BasisStatus::Revoked, reason_codes: seq![codes::BASIS_REVOKED@] }
    } else if any_self_cert(intent) {
        DimensionView {
            status: BasisStatus::Inadmissible,
            reason_codes: seq![codes::BASIS_INADMISSIBLE_SELF_CERTIFIED@],
        }
    } else {
        match call {
            None => DimensionView {
                status: BasisStatus::Ambiguous,
                reason_codes: seq![codes::BASIS_AMBIGUOUS_EVIDENCE_KIND@],
            },
            Some(c) => {
                if is_blank(intent.claimed_basis.rule@) && evs.len() == 0 {
                    DimensionView {
                        status: BasisStatus::Absent,
                        reason_codes: seq![codes::BASIS_ABSENT@],
                    }
                } else {
                    match sufficiency_spec(intent, clocks, c) {
                        Sufficiency::Met => DimensionView {
                            status: BasisStatus::Satisfied,
                            reason_codes: seq![codes::BASIS_OK@],
                        },
                        Sufficiency::Soft(code) => {
                            if evs.len() == 0 {
                                DimensionView {
                                    status: BasisStatus::Absent,
                                    reason_codes: seq![codes::BASIS_ABSENT@],
                                }
                            } else if !has_any_fresh(intent, clocks, c) {
                                DimensionView {
                                    status: BasisStatus::Stale,
                                    reason_codes: seq![codes::BASIS_TTL_EXPIRED@],
                                }
                            } else {
                                DimensionView {
                                    status: BasisStatus::Insufficient,
                                    reason_codes: seq![code@],
                                }
                            }
                        },
                        Sufficiency::Hard(code) => DimensionView {
                            status: BasisStatus::Inadmissible,
                            reason_codes: seq![code@],
                        },
                    }
                }
            },
        }
    }
}

/// The clock of each evidence ref of `intent`, read with chrono.
pub open spec fn clocks_spec(intent: Intent) -> Seq<EvidenceClock> {
    let evs = intent.claimed_basis.evidence_refs@;
    Seq::new(
        evs.len(),
        |j: int|
            EvidenceClock {
                valid_until: parsed_instant(evs[j].valid_until@),
                minutes_since_valid_from: match (
                    parsed_instant(intent.call_timestamp@),
                    parsed_instant(evs[j].valid_from@),
                ) {
                    (Some(c), Some(f)) => Some(
                        spec_minutes_between(c.secs, c.nanos, f.secs, f.nanos),
                    ),
                    _ => None,
                },
            },
    )
}

/// The basis dimension of `intent`.
#[verifier::opaque]
pub open spec fn basis_spec(intent: Intent) -> DimensionView<BasisStatus> {
    basis_at_spec(intent, parsed_instant(intent.call_timestamp@), clocks_spec(intent))
}

fn counts_at(intent: &Intent, clocks: &Vec<EvidenceClock>, call: Timestamp, i: usize) -> (r: bool)
    requires
        clocks.len() == intent.claimed_basis.evidence_refs.len(),
        i < clocks.len(),
    ensures
        r == counts(*intent, clocks@, call, i as int),
{
    let e = &intent.claimed_basis.evidence_refs[i];
    let self_cert = e.issuer == e.subject && e.subject == intent.actor;
    if self_cert || e.status != ValidityStatus::Valid {
        return false;
    }
    match clocks[i].valid_until {
        Some(u) => at_or_after(u, call),
        None => false,
    }
}

fn has_kind_at(
    intent: &Intent,
    clocks: &Vec<EvidenceClock>,
    call: Timestamp,
    k: EvidenceKind,
) -> (r: bool)
    requires
        clocks.len() == intent.claimed_basis.evidence_refs.len(),
    ensures
        r == has_kind(*intent, clocks@, call, k),
{
    let n = clocks.len();
    for i in 0..n
        invariant
            n == clocks.len(),
            clocks.len() == intent.claimed_basis.evidence_refs.len(),
            forall|j: int|
                0 <= j < i ==> !(#[trigger] counts(*intent, clocks@, call, j)
                    && intent.claimed_basis.evidence_refs@[j].kind == k),
    {
        if counts_at(intent, clocks, call, i) && intent.claimed_basis.evidence_refs[i].kind == k {
            return true;
        }
    }
    false
}

fn has_any_fresh_at(intent: &Intent, clocks: &Vec<EvidenceClock>, call: Timestamp) -> (r: bool)
    requires
        clocks.len() == intent.claimed_basis.evidence_refs.len(),
    ensures
        r == has_any_fresh(*intent, clocks@, call),
{
    let n = clocks.len();
    for i in 0..n
        invariant
            n == clocks.len(),
            clocks.len() == intent.claimed_basis.evidence_refs.len(),
            forall|j: int| 0 <= j < i ==> !#[trigger] counts(*intent, clocks@, call, j),
    {
        if counts_at(intent, clocks, call, i) {
            return true;
        }
    }
    false
}

fn has_recent_confirmation_at(
    intent: &Intent,
    clocks: &Vec<EvidenceClock>,
    call: Timestamp,
) -> (r: bool)
    requires
        clocks.len() == intent.claimed_basis.evidence_refs.len(),
    ensures
        r == has_recent_confirmation(*intent, clocks@, call),
{
    let n = clocks.len();
    for i in 0..n
        invariant
            n == clocks.len(),
            clocks.len() == intent.claimed_basis.evidence_refs.len(),
            forall|j: int|
                0 <= j < i ==> !(#[trigger] counts(*intent, clocks@, call, j)
                    && intent.claimed_basis.evidence_refs@[j].kind
                    == EvidenceKind::HumanConfirmation
                    && within_an_hour(clocks@[j].minutes_since_valid_from)),
    {
        if counts_at(intent, clocks, call, i) && intent.claimed_basis.evidence_refs[i].kind
            == EvidenceKind::HumanConfirmation {
            match clocks[i].minutes_since_valid_from {
                Some(m) => {
                    if -60 <= m && m <= 60 {
                        return true;
                    }
                },
                None => {},
            }
        }
    }
    false
}

fn sufficiency(intent: &Intent, clocks: &Vec<EvidenceClock>, call: Timestamp) -> (r: Sufficiency)
    requires
        clocks.len() == intent.claimed_basis.evidence_refs.len(),
    ensures
        r == sufficiency_spec(*intent, clocks@, call),
{
    let prompt = has_kind_at(intent, clocks, call, EvidenceKind::Prompt);
    let file_hash = has_kind_at(intent, clocks, call, EvidenceKind::FileHash);
    let test_log = has_kind_at(intent, clocks, call, EvidenceKind::TestLog);
    let tool_output = has_kind_at(intent, clocks, call, EvidenceKind::ToolOutput);
    let tool_trace = has_kind_at(intent, clocks, call, EvidenceKind::ToolTrace);
    let command_output = has_kind_at(intent, clocks, call, EvidenceKind::CommandOutput);
    let policy_ref = has_kind_at(intent, clocks, call, EvidenceKind::PolicyRef);
    let prior_receipt = has_kind_at(intent, clocks, call, EvidenceKind::PriorReceipt);
    let human = has_kind_at(intent, clocks, call, EvidenceKind::HumanConfirmation);
    match intent.operation_class {
        OperationClass::Observe => {
            if prompt || policy_ref || file_hash {
                Sufficiency::Met
            } else {
                Sufficiency::Soft(codes::BASIS_INSUFFICIENT_FOR_OBSERVE)
            }
        },
        OperationClass::Interpret => {
            if (prompt || policy_ref) && (file_hash || tool_output || prior_receipt) {
                Sufficiency::Met
            } else {
                Sufficiency::Soft(codes::BASIS_INSUFFICIENT_FOR_INTERPRET)
            }
        },
        OperationClass::Recommend => {
            if (prompt || human || policy_ref) && (file_hash || tool_output || prior_receipt
                || command_output) {
                Sufficiency::Met
            } else {
                Sufficiency::Soft(codes::BASIS_INSUFFICIENT_FOR_RECOMMEND)
            }
        },
        OperationClass::Authorize => {
            if policy_ref || human {
                Sufficiency::Met
            } else {
                Sufficiency::Soft(codes::BASIS_INSUFFICIENT_FOR_AUTHORIZE)
            }
        },
        OperationClass::Execute => {
            if (policy_ref || human) && (tool_trace || test_log || command_output || file_hash) {
                Sufficiency::Met
            } else {
                Sufficiency::Soft(codes::BASIS_INSUFFICIENT_FOR_EXECUTE)
            }
        },
        OperationClass::Bind => {
            if !has_recent_confirmation_at(intent, clocks, call) {
                Sufficiency::Hard(codes::BASIS_INADMISSIBLE_BIND_REQUIRES_HUMAN_CONFIRMATION)
            } else if tool_trace || test_log || command_output || file_hash || prior_receipt {
                Sufficiency::Met
            } else {
                Sufficiency::Soft(codes::BASIS_INSUFFICIENT_FOR_BIND)
            }
        },
    }
}

fn any_self_cert_at(intent: &Intent) -> (r: bool)
    ensures
        r == any_self_cert(*intent),
{
    let evs = &intent.claimed_basis.evidence_refs;
    for i in 0..evs.len()
        invariant
            evs == &intent.claimed_basis.evidence_refs,
            forall|j: int| 0 <= j < i ==> !is_self_cert(#[trigger] evs@[j], intent.actor@),
    {
        if evs[i].issuer == evs[i].subject && evs[i].subject == intent.actor {
            return true;
        }
    }
    false
}

fn dimension<S: Copy>(status: S, codes: Vec<String>) -> (r: DimensionResult<S>)
    ensures
        r.status == status,
        r.reason_codes == codes,
{
    DimensionResult { status, reason_codes: codes }
}

/// The basis dimension, given the parsed call timestamp and the clock of
/// each evidence ref (see [`derive_basis`], which reads them with chrono).
pub fn basis_at(
    intent: &Intent,
    call: Option<Timestamp>,
    clocks: &Vec<EvidenceClock>,
) -> (r: DimensionResult<BasisStatus>)
    requires
        clocks.len() == intent.claimed_basis.evidence_refs.len(),
    ensures
        r@ == basis_at_spec(*intent, call, clocks@),
{
    // Hard: the caller says a prior receipt or policy revokes the basis.
    if intent.revocation.basis_revoked {
        return dimension(BasisStatus::Revoked, one_code(codes::BASIS_REVOKED));
    }
    // Hard: any self-certified ref poisons the whole basis.
    if any_self_cert_at(intent) {
        return dimension(
            BasisStatus::Inadmissible,
            one_code(codes::BASIS_INADMISSIBLE_SELF_CERTIFIED),
        );
    }
    let call_ts = match call {
        Some(t) => t,
        None => {
            return dimension(
                BasisStatus::Ambiguous,
                one_code(codes::BASIS_AMBIGUOUS_EVIDENCE_KIND),
            );
        },
    };
    let no_evidence = intent.claimed_basis.evidence_refs.len() == 0;
    // Soft: nothing cited at all.
    if no_evidence && trims_to_empty(intent.claimed_basis.rule.as_str()) {
        return dimension(BasisStatus::Absent, one_code(codes::BASIS_ABSENT));
    }
    match sufficiency(intent, clocks, call_ts) {
        Sufficiency::Met => dimension(BasisStatus::Satisfied, one_code(codes::BASIS_OK)),
        Sufficiency::Soft(c) => {
            if no_evidence {
                dimension(BasisStatus::Absent, one_code(codes::BASIS_ABSENT))
            } else if !has_any_fresh_at(intent, clocks, call_ts) {
                dimension(BasisStatus::Stale, one_code(codes::BASIS_TTL_EXPIRED))
            } else {
                dimension(BasisStatus::Insufficient, one_code(c))
            }
        },
        Sufficiency::Hard(c) => dimension(BasisStatus::Inadmissible, one_code(c)),
    }
}

/// Reads the clock of each evidence ref of `intent` with chrono.
pub fn evidence_clocks(intent: &Intent) -> (r: Vec<EvidenceClock>)
    ensures
        r@ == clocks_spec(*intent),
{
    let call = parse_ts(intent.call_timestamp.as_str());
    let evs = &intent.claimed_basis.evidence_refs;
    let mut out: Vec<EvidenceClock> = Vec::new();
    for i in 0..evs.len()
        invariant
            evs == &intent.claimed_basis.evidence_refs,
            call == parsed_instant(intent.call_timestamp@),
            call matches Some(c) ==> representable(c),
            out.len() == i,
            forall|j: int| 0 <= j < i ==> #[trigger] out@[j] == clocks_spec(*intent)[j],
    {
        let until = parse_ts(evs[i].valid_until.as_str());
        let from = parse_ts(evs[i].valid_from.as_str());
        let minutes = match (call, from) {
            (Some(c), Some(f)) => Some(minutes_between(c, f)),
            _ => None,
        };
        out.push(EvidenceClock { valid_until: until, minutes_since_valid_from: minutes });
    }
    assert(out@ =~= clocks_spec(*intent));
    out
}

/// The basis dimension: does the actor have a current, non-revoked,
/// evidence-grounded reason to act, sufficient for the operation class?
pub fn derive_basis(intent: &Intent) -> (r: DimensionResult<BasisStatus>)
    ensures
        r@ == basis_spec(*intent),
{
    reveal(basis_spec);
    let call = parse_ts(intent.call_timestamp.as_str());
    let clocks = evidence_clocks(intent);
    basis_at(intent, call, &clocks)
}


// ---------------------------------------------------------------------------
// Precedence
// ---------------------------------------------------------------------------
/// The precedence dimension: the caller's resolution mapped to a status and
/// a code, plus the unverified-provenance code for a caller assertion.
pub open spec fn precedence_spec(intent: Intent) -> DimensionView<PrecedenceStatus> {
    let (status, c) = match intent.precedence.resolution {
        PrecedenceResolution::Active => (PrecedenceStatus::Satisfied, codes::PRECEDENCE_OK),
        PrecedenceResolution::Superseded => (
            PrecedenceStatus::Superseded,
            codes::PRECEDENCE_SUPERSEDED,
        ),
        PrecedenceResolution::Ambiguous => (
            PrecedenceStatus::Ambiguous,
            codes::PRECEDENCE_AMBIGUOUS,
        ),
        PrecedenceResolution::Unresolved => (
            PrecedenceStatus::Ambiguous,
            codes::PRECEDENCE_UNRESOLVED,
        ),
    };
    DimensionView {
        status,
        reason_codes: seq![c@] + code_if(
            intent.precedence.provenance == Provenance::CallerAsserted,
            codes::PRECEDENCE_CALLER_ASSERTED_UNVERIFIED,
        ),
    }
}

/// The precedence dimension: among rules bearing on the operation, does the
/// cited basis hold (as the caller resolved it)?
pub fn derive_precedence(intent: &Intent) -> (r: DimensionResult<PrecedenceStatus>)
    ensures
        r@ == precedence_spec(*intent),
{
    let (status, c) = match intent.precedence.resolution {
        PrecedenceResolution::Active => (PrecedenceStatus::Satisfied, codes::PRECEDENCE_OK),
        PrecedenceResolution::Superseded => (
            PrecedenceStatus::Superseded,
            codes::PRECEDENCE_SUPERSEDED,
        ),
        PrecedenceResolution::Ambiguous => (
            PrecedenceStatus::Ambiguous,
            codes::PRECEDENCE_AMBIGUOUS,
        ),
        PrecedenceResolution::Unresolved => (
            PrecedenceStatus::Ambiguous,
            codes::PRECEDENCE_UNRESOLVED,
        ),
    };
    let mut v = one_code(c);
    push_code_if(
        &mut v,
        intent.precedence.provenance == Provenance::CallerAsserted,
        codes::PRECEDENCE_CALLER_ASSERTED_UNVERIFIED,
    );
    dimension(status, v)
}

// ---------------------------------------------------------------------------
// Standing
// ---------------------------------------------------------------------------
/// Whether a provenance is the v1 `caller_asserted`.
pub open spec fn caller_asserted(p: Provenance) -> bool {
    p == Provenance::CallerAsserted
}

/// The classes whose every call carries the ladder-debt code, whatever the
/// standing path: `authorize` and `execute` (a `bind` carries it only once
/// the ladder is consulted).
pub open spec fn flat_ladder_class(op: OperationClass) -> bool {
    op == OperationClass::Authorize || op == OperationClass::Execute
}

fn is_flat_ladder_class(op: OperationClass) -> (r: bool)
    ensures
        r == flat_ladder_class(op),
{
    op == OperationClass::Authorize || op == OperationClass::Execute
}

/// The standing dimension once scope is settled: `prefix` holds the codes
/// already emitted, `scope` the provenance of an asserted in-scope claim.
pub open spec fn standing_inner_spec(
    intent: Intent,
    scope: Option<Provenance>,
    prefix: Seq<Seq<char>>,
) -> DimensionView<StandingStatus> {
    let op = intent.operation_class;
    let actor_ca = caller_asserted(intent.actor_standing.provenance);
    if standing_rank(intent.actor_standing.class) < standing_rank(op.spec_min_standing()) {
        DimensionView {
            status: StandingStatus::Insufficient,
            reason_codes: prefix + seq![codes::STANDING_INSUFFICIENT_FOR_OPERATION@] + code_if(
                actor_ca,
                codes::STANDING_CALLER_ASSERTED_UNVERIFIED,
            ) + code_if(
                scope == Some(Provenance::CallerAsserted),
                codes::SCOPE_CALLER_ASSERTED_UNVERIFIED,
            ) + code_if(op.spec_is_ladder_class(), codes::STANDING_LADDER_V1_FLAT),
        }
    } else {
        DimensionView {
            status: StandingStatus::Satisfied,
            reason_codes: prefix + seq![codes::STANDING_OK@] + code_if(
                actor_ca,
                codes::STANDING_CALLER_ASSERTED_UNVERIFIED,
            ) + code_if(
                scope == Some(Provenance::CallerAsserted),
                codes::SCOPE_CALLER_ASSERTED_UNVERIFIED,
            ) + code_if(
                caller_asserted(intent.revocation.provenance),
                codes::REVOCATION_CALLER_ASSERTED_UNVERIFIED,
            ) + code_if(op.spec_is_ladder_class(), codes::STANDING_LADDER_V1_FLAT),
        }
    }
}

/// The standing dimension: forbidden first, then scope (absent scope denies
/// every operation but `observe`), then the standing ladder.
#[verifier::opaque]
pub open spec fn standing_spec(intent: Intent) -> DimensionView<StandingStatus> {
    if intent.revocation.standing_forbidden {
        DimensionView {
            status: StandingStatus::Forbidden,
            reason_codes: seq![codes::STANDING_FORBIDDEN@] + code_if(
                caller_asserted(intent.revocation.provenance),
                codes::REVOCATION_CALLER_ASSERTED_UNVERIFIED,
            ) + code_if(
                flat_ladder_class(intent.operation_class),
                codes::STANDING_LADDER_V1_FLAT,
            ),
        }
    } else {
        match intent.scope_assertion {
            None => {
                if intent.operation_class != OperationClass::Observe {
                    DimensionView {
                        status: StandingStatus::OutOfScope,
                        reason_codes: seq![codes::SCOPE_NOT_ASSERTED@] + code_if(
                            flat_ladder_class(intent.operation_class),
                            codes::STANDING_LADDER_V1_FLAT,
                        ),
                    }
                } else {
                    standing_inner_spec(intent, None, seq![codes::SCOPE_NOT_ASSERTED@])
                }
            },
            Some(s) => {
                if !s.scope_includes_target {
                    DimensionView {
                        status: StandingStatus::OutOfScope,
                        reason_codes: seq![codes::STANDING_OUT_OF_SCOPE@] + code_if(
                            caller_asserted(s.provenance),
                            codes::SCOPE_CALLER_ASSERTED_UNVERIFIED,
                        ) + code_if(
                            flat_ladder_class(intent.operation_class),
                            codes::STANDING_LADDER_V1_FLAT,
                        ),
                    }
                } else {
                    standing_inner_spec(intent, Some(s.provenance), seq![])
                }
            },
        }
    }
}

/// The standing dimension once scope is settled (see
/// [`standing_inner_spec`]); `codes` are the codes already emitted.
#[verifier::rlimit(30)]
pub fn derive_standing_inner(
    intent: &Intent,
    scope: Option<&ScopeAssertion>,
    codes: Vec<String>,
) -> (r: DimensionResult<StandingStatus>)
    ensures
        r@ == standing_inner_spec(
            *intent,
            match scope {
                Some(s) => Some(s.provenance),
                None => None,
            },
            strs(codes@),
        ),
{
    let ghost prefix = strs(codes@);
    let mut codes = codes;
    let op = intent.operation_class;
    let actor_ca = intent.actor_standing.provenance == Provenance::CallerAsserted;
    let scope_ca = match scope {
        Some(s) => s.provenance == Provenance::CallerAsserted,
        None => false,
    };
    if intent.actor_standing.class.is_below(op.min_standing()) {
        push_code(&mut codes, codes::STANDING_INSUFFICIENT_FOR_OPERATION);
        push_code_if(&mut codes, actor_ca, codes::STANDING_CALLER_ASSERTED_UNVERIFIED);
        push_code_if(&mut codes, scope_ca, codes::SCOPE_CALLER_ASSERTED_UNVERIFIED);
        push_code_if(&mut codes, op.is_ladder_class(), codes::STANDING_LADDER_V1_FLAT);
        assert(strs(codes@) =~= prefix + seq![codes::STANDING_INSUFFICIENT_FOR_OPERATION@]
            + code_if(actor_ca, codes::STANDING_CALLER_ASSERTED_UNVERIFIED) + code_if(
            scope_ca,
            codes::SCOPE_CALLER_ASSERTED_UNVERIFIED,
        ) + code_if(op.spec_is_ladder_class(), codes::STANDING_LADDER_V1_FLAT));
        return dimension(StandingStatus::Insufficient, codes);
    }
    push_code(&mut codes, codes::STANDING_OK);
    push_code_if(&mut codes, actor_ca, codes::STANDING_CALLER_ASSERTED_UNVERIFIED);
    push_code_if(&mut codes, scope_ca, codes::SCOPE_CALLER_ASSERTED_UNVERIFIED);
    push_code_if(
        &mut codes,
        intent.revocation.provenance == Provenance::CallerAsserted,
        codes::REVOCATION_CALLER_ASSERTED_UNVERIFIED,
    );
    push_code_if(&mut codes, op.is_ladder_class(), codes::STANDING_LADDER_V1_FLAT);
    assert(strs(codes@) =~= prefix + seq![codes::STANDING_OK@] + code_if(
        actor_ca,
        codes::STANDING_CALLER_ASSERTED_UNVERIFIED,
    ) + code_if(scope_ca, codes::SCOPE_CALLER_ASSERTED_UNVERIFIED) + code_if(
        intent.revocation.provenance == Provenance::CallerAsserted,
        codes::REVOCATION_CALLER_ASSERTED_UNVERIFIED,
    ) + code_if(op.spec_is_ladder_class(), codes::STANDING_LADDER_V1_FLAT));
    dimension(StandingStatus::Satisfied, codes)
}

/// The standing dimension: does the actor hold the authority class the
/// operation needs, over this target?
pub fn derive_standing(intent: &Intent) -> (r: DimensionResult<StandingStatus>)
    ensures
        r@ == standing_spec(*intent),
{
    reveal(standing_spec);
    // Hard: the caller says a prior receipt or policy forbids this standing.
    if intent.revocation.standing_forbidden {
        let mut v = one_code(codes::STANDING_FORBIDDEN);
        push_code_if(
            &mut v,
            intent.revocation.provenance == Provenance::CallerAsserted,
            codes::REVOCATION_CALLER_ASSERTED_UNVERIFIED,
        );
        push_code_if(&mut v, is_flat_ladder_class(intent.operation_class), codes::STANDING_LADDER_V1_FLAT);
        return dimension(StandingStatus::Forbidden, v);
    }
    match &intent.scope_assertion {
        None => {
            let mut v = one_code(codes::SCOPE_NOT_ASSERTED);
            if intent.operation_class != OperationClass::Observe {
                // Without a scope claim, anything beyond reading is out of scope.
                push_code_if(
                    &mut v,
                    is_flat_ladder_class(intent.operation_class),
                    codes::STANDING_LADDER_V1_FLAT,
                );
                dimension(StandingStatus::OutOfScope, v)
            } else {
                derive_standing_inner(intent, None, v)
            }
        },
        Some(scope) => {
            if !scope.scope_includes_target {
                let mut v = one_code(codes::STANDING_OUT_OF_SCOPE);
                push_code_if(
                    &mut v,
                    scope.provenance == Provenance::CallerAsserted,
                    codes::SCOPE_CALLER_ASSERTED_UNVERIFIED,
                );
                push_code_if(
                    &mut v,
                    is_flat_ladder_class(intent.operation_class),
                    codes::STANDING_LADDER_V1_FLAT,
                );
                return dimension(StandingStatus::OutOfScope, v);
            }
            let v: Vec<String> = Vec::new();
            assert(strs(v@) =~= seq![]);
            derive_standing_inner(intent, Some(scope), v)
        },
    }
}

// ---------------------------------------------------------------------------
// Reserved provenance
// ---------------------------------------------------------------------------
/// `attested` and `verified`: accepted by the schema, not by the v1 model.
pub open spec fn reserved(p: Provenance) -> bool {
    p == Provenance::Attested || p == Provenance::Verified
}

/// Some provenance field of the intent uses a reserved value.
pub open spec fn future_provenance_spec(intent: Intent) -> bool {
    ||| reserved(intent.actor_standing.provenance)
    ||| (intent.scope_assertion matches Some(s) && reserved(s.provenance))
    ||| reserved(intent.precedence.provenance)
    ||| reserved(intent.revocation.provenance)
}

fn is_reserved(p: Provenance) -> (r: bool)
    ensures
        r == reserved(p),
{
    match p {
        Provenance::Attested | Provenance::Verified => true,
        Provenance::CallerAsserted => false,
    }
}

/// Whether any provenance field of the intent uses a value reserved for a
/// later version (`attested`, `verified`).
pub fn has_future_provenance(intent: &Intent) -> (r: bool)
    ensures
        r == future_provenance_spec(*intent),
{
    let scope_reserved = match &intent.scope_assertion {
        Some(s) => is_reserved(s.provenance),
        None => false,
    };
    is_reserved(intent.actor_standing.provenance) || scope_reserved || is_reserved(
        intent.precedence.provenance,
    ) || is_reserved(intent.revocation.provenance)
}

} // verus!
