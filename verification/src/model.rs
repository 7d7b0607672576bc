//! Data model: the input intent, the output outcome, the dimensional
//! accounting and the receipt, with the mathematical views that contracts
//! speak of.
use vstd::prelude::*;

verus! {

/// The value of a list of strings as a sequence of character sequences.
pub open spec fn strs(v: Seq<String>) -> Seq<Seq<char>> {
    v.map_values(|s: String| s@)
}

/// The value of an optional string.
pub open spec fn opt_str(o: Option<String>) -> Option<Seq<char>> {
    match o {
        Some(s) => Some(s@),
        None => None,
    }
}

// ---------------------------------------------------------------------------
// Input
// ---------------------------------------------------------------------------
/// One intended agentic operation, with the context the caller cooked for it.
pub struct Intent {
    pub actor: String,
    pub actor_standing: ActorStanding,
    pub intended_action: String,
    pub operation_class: OperationClass,
    pub target: String,
    /// Optional: when omitted, the standing dimension records `SCOPE_NOT_ASSERTED`.
    pub scope_assertion: Option<ScopeAssertion>,
    pub claimed_basis: ClaimedBasis,
    pub precedence: Precedence,
    pub revocation: Revocation,
    pub expected_effect: String,
    pub call_timestamp: String,
    pub prev_receipt_hash: Option<String>,
}

/// The standing class the actor claims, and where that claim comes from.
pub struct ActorStanding {
    pub class: StandingClass,
    pub provenance: Provenance,
}

/// The caller's answer to whether the target lies inside the actor's scope.
pub struct ScopeAssertion {
    pub scope_includes_target: bool,
    pub provenance: Provenance,
    pub evidence_refs: Vec<String>,
}

/// The rule the actor cites and the evidence it points at.
pub struct ClaimedBasis {
    pub rule: String,
    pub evidence_refs: Vec<Evidence>,
}

/// One evidence reference (a pointer; never dereferenced).
pub struct Evidence {
    pub reference: String,
    pub kind: EvidenceKind,
    pub issuer: String,
    pub subject: String,
    pub valid_from: String,
    pub valid_until: String,
    pub status: ValidityStatus,
}

/// The caller's precedence resolution for the cited basis.
pub struct Precedence {
    pub resolution: PrecedenceResolution,
    pub superseded_by: Option<String>,
    pub provenance: Provenance,
    pub evidence_refs: Vec<String>,
}

/// The caller's answer to whether the basis is revoked or the standing forbidden.
pub struct Revocation {
    pub basis_revoked: bool,
    pub standing_forbidden: bool,
    pub provenance: Provenance,
    pub evidence_refs: Vec<String>,
}

// ---------------------------------------------------------------------------
// Input enums
// ---------------------------------------------------------------------------
#[derive(Debug, Clone, Copy, PartialEq, Eq, Structural)]
pub enum OperationClass {
    Observe,
    Interpret,
    Recommend,
    Authorize,
    Execute,
    Bind,
}

/// Standing classes, in the strict v1 order
/// observe < interpret < recommend < authorize < execute.
#[derive(Debug, Clone, Copy, PartialEq, Eq, Structural, PartialOrd, Ord)]
pub enum StandingClass {
    Observe,
    Interpret,
    Recommend,
    Authorize,
    Execute,
}

#[derive(Debug, Clone, Copy, PartialEq, Eq, Structural)]
pub enum Provenance {
    CallerAsserted,
    Attested,
    Verified,
}

#[derive(Debug, Clone, Copy, PartialEq, Eq, Structural)]
pub enum PrecedenceResolution {
    Active,
    Superseded,
    Ambiguous,
    Unresolved,
}

#[derive(Debug, Clone, Copy, PartialEq, Eq, Structural)]
pub enum EvidenceKind {
    Prompt,
    FileHash,
    TestLog,
    ToolOutput,
    ToolTrace,
    CommandOutput,
    PolicyRef,
    PriorReceipt,
    HumanConfirmation,
    ActorAssertion,
}

#[derive(Debug, Clone, Copy, PartialEq, Eq, Structural)]
pub enum ValidityStatus {
    Valid,
    Stale,
    Unavailable,
}

// ---------------------------------------------------------------------------
// Output
// ---------------------------------------------------------------------------
/// The full result of one preflight call.
pub struct Outcome {
    pub class: OutcomeClass,
    pub surface_verdict: SurfaceVerdict,
    pub operation_class: OperationClass,
    pub dimensions: Dimensions,
    pub reason_codes: Vec<String>,
    pub allowed: Vec<String>,
    pub forbidden: Vec<String>,
    pub receipt: Receipt,
}

/// The three independently evaluated dimensions.
pub struct Dimensions {
    pub basis: DimensionResult<BasisStatus>,
    pub precedence: DimensionResult<PrecedenceStatus>,
    pub standing: DimensionResult<StandingStatus>,
}

/// The status of one dimension and the reason codes that account for it.
pub struct DimensionResult<S> {
    pub status: S,
    pub reason_codes: Vec<String>,
}

/// The receipt obligation and the content addresses of one call.
pub struct Receipt {
    pub receipt_id: String,
    pub obligation: ReceiptObligation,
    pub input_hash: String,
    pub evidence_ref_hashes: Vec<String>,
    pub prev_receipt_hash: Option<String>,
    pub timestamp: String,
}

#[derive(Debug, Clone, Copy, PartialEq, Eq, Structural)]
pub enum OutcomeClass {
    Verdict,
    Error,
}

#[derive(Debug, Clone, Copy, PartialEq, Eq, Structural)]
pub enum SurfaceVerdict {
    Authorized,
    AdvisoryOnly,
    Denied,
    Gap,
    Unaccounted,
}

#[derive(Debug, Clone, Copy, PartialEq, Eq, Structural)]
pub enum BasisStatus {
    Satisfied,
    Insufficient,
    Stale,
    Absent,
    Ambiguous,
    Inadmissible,
    Revoked,
}

#[derive(Debug, Clone, Copy, PartialEq, Eq, Structural)]
pub enum PrecedenceStatus {
    Satisfied,
    Superseded,
    Ambiguous,
}

#[derive(Debug, Clone, Copy, PartialEq, Eq, Structural)]
pub enum StandingStatus {
    Satisfied,
    Insufficient,
    Absent,
    OutOfScope,
    Forbidden,
}

#[derive(Debug, Clone, Copy, PartialEq, Eq, Structural)]
pub enum ReceiptObligation {
    ActionReceipt,
    AdvisoryReceipt,
    RefusalReceipt,
    GapReceipt,
    ErrorReceipt,
}

// ---------------------------------------------------------------------------
// Views of the input
// ---------------------------------------------------------------------------
/// The value of an evidence ref.
pub struct EvidenceView {
    pub reference: Seq<char>,
    pub kind: EvidenceKind,
    pub issuer: Seq<char>,
    pub subject: Seq<char>,
    pub valid_from: Seq<char>,
    pub valid_until: Seq<char>,
    pub status: ValidityStatus,
}

impl View for Evidence {
    type V = EvidenceView;

    open spec fn view(&self) -> EvidenceView {
        EvidenceView {
            reference: self.reference@,
            kind: self.kind,
            issuer: self.issuer@,
            subject: self.subject@,
            valid_from: self.valid_from@,
            valid_until: self.valid_until@,
            status: self.status,
        }
    }
}

/// The value of a list of evidence refs.
pub open spec fn evidence_views(v: Seq<Evidence>) -> Seq<EvidenceView> {
    v.map_values(|e: Evidence| e@)
}

/// The value of a scope claim.
pub struct ScopeView {
    pub scope_includes_target: bool,
    pub provenance: Provenance,
    pub evidence_refs: Seq<Seq<char>>,
}

impl View for ScopeAssertion {
    type V = ScopeView;

    open spec fn view(&self) -> ScopeView {
        ScopeView {
            scope_includes_target: self.scope_includes_target,
            provenance: self.provenance,
            evidence_refs: strs(self.evidence_refs@),
        }
    }
}

/// The value of a precedence claim.
pub struct PrecedenceView {
    pub resolution: PrecedenceResolution,
    pub superseded_by: Option<Seq<char>>,
    pub provenance: Provenance,
    pub evidence_refs: Seq<Seq<char>>,
}

impl View for Precedence {
    type V = PrecedenceView;

    open spec fn view(&self) -> PrecedenceView {
        PrecedenceView {
            resolution: self.resolution,
            superseded_by: opt_str(self.superseded_by),
            provenance: self.provenance,
            evidence_refs: strs(self.evidence_refs@),
        }
    }
}

/// The value of a revocation claim.
pub struct RevocationView {
    pub basis_revoked: bool,
    pub standing_forbidden: bool,
    pub provenance: Provenance,
    pub evidence_refs: Seq<Seq<char>>,
}

impl View for Revocation {
    type V = RevocationView;

    open spec fn view(&self) -> RevocationView {
        RevocationView {
            basis_revoked: self.basis_revoked,
            standing_forbidden: self.standing_forbidden,
            provenance: self.provenance,
            evidence_refs: strs(self.evidence_refs@),
        }
    }
}

/// The value of an intent.
pub struct IntentView {
    pub actor: Seq<char>,
    pub standing_class: StandingClass,
    pub standing_provenance: Provenance,
    pub intended_action: Seq<char>,
    pub operation_class: OperationClass,
    pub target: Seq<char>,
    pub scope_assertion: Option<ScopeView>,
    pub rule: Seq<char>,
    pub evidence_refs: Seq<EvidenceView>,
    pub precedence: PrecedenceView,
    pub revocation: RevocationView,
    pub expected_effect: Seq<char>,
    pub call_timestamp: Seq<char>,
    pub prev_receipt_hash: Option<Seq<char>>,
}

impl View for Intent {
    type V = IntentView;

    open spec fn view(&self) -> IntentView {
        IntentView {
            actor: self.actor@,
            standing_class: self.actor_standing.class,
            standing_provenance: self.actor_standing.provenance,
            intended_action: self.intended_action@,
            operation_class: self.operation_class,
            target: self.target@,
            scope_assertion: match self.scope_assertion {
                Some(s) => Some(s@),
                None => None,
            },
            rule: self.claimed_basis.rule@,
            evidence_refs: evidence_views(self.claimed_basis.evidence_refs@),
            precedence: self.precedence@,
            revocation: self.revocation@,
            expected_effect: self.expected_effect@,
            call_timestamp: self.call_timestamp@,
            prev_receipt_hash: opt_str(self.prev_receipt_hash),
        }
    }
}

// ---------------------------------------------------------------------------
// Views of the output
// ---------------------------------------------------------------------------
/// The value of a dimension result.
pub struct DimensionView<S> {
    pub status: S,
    pub reason_codes: Seq<Seq<char>>,
}

impl<S: Copy> View for DimensionResult<S> {
    type V = DimensionView<S>;

    open spec fn view(&self) -> DimensionView<S> {
        DimensionView { status: self.status, reason_codes: strs(self.reason_codes@) }
    }
}

/// The value of a receipt.
pub struct ReceiptView {
    pub receipt_id: Seq<char>,
    pub obligation: ReceiptObligation,
    pub input_hash: Seq<char>,
    pub evidence_ref_hashes: Seq<Seq<char>>,
    pub prev_receipt_hash: Option<Seq<char>>,
    pub timestamp: Seq<char>,
}

impl View for Receipt {
    type V = ReceiptView;

    open spec fn view(&self) -> ReceiptView {
        ReceiptView {
            receipt_id: self.receipt_id@,
            obligation: self.obligation,
            input_hash: self.input_hash@,
            evidence_ref_hashes: strs(self.evidence_ref_hashes@),
            prev_receipt_hash: opt_str(self.prev_receipt_hash),
            timestamp: self.timestamp@,
        }
    }
}

/// The value of an outcome.
pub struct OutcomeView {
    pub class: OutcomeClass,
    pub surface_verdict: SurfaceVerdict,
    pub operation_class: OperationClass,
    pub basis: DimensionView<BasisStatus>,
    pub precedence: DimensionView<PrecedenceStatus>,
    pub standing: DimensionView<StandingStatus>,
    pub reason_codes: Seq<Seq<char>>,
    pub allowed: Seq<Seq<char>>,
    pub forbidden: Seq<Seq<char>>,
    pub receipt: ReceiptView,
}

impl View for Outcome {
    type V = OutcomeView;

    open spec fn view(&self) -> OutcomeView {
        OutcomeView {
            class: self.class,
            surface_verdict: self.surface_verdict,
            operation_class: self.operation_class,
            basis: self.dimensions.basis@,
            precedence: self.dimensions.precedence@,
            standing: self.dimensions.standing@,
            reason_codes: strs(self.reason_codes@),
            allowed: strs(self.allowed@),
            forbidden: strs(self.forbidden@),
            receipt: self.receipt@,
        }
    }
}

// ---------------------------------------------------------------------------
// Helpers on the enums
// ---------------------------------------------------------------------------
impl BasisStatus {
    /// Hard basis failures: not closable from this call.
    pub open spec fn spec_is_hard(self) -> bool {
        self == BasisStatus::Inadmissible || self == BasisStatus::Revoked
    }

    /// Soft basis failures: closable by supplying more or fresher evidence.
    pub open spec fn spec_is_soft_unsatisfied(self) -> bool {
        ||| self == BasisStatus::Insufficient
        ||| self == BasisStatus::Stale
        ||| self == BasisStatus::Absent
        ||| self == BasisStatus::Ambiguous
    }

    #[verifier::when_used_as_spec(spec_is_hard)]
    pub fn is_hard(self) -> (r: bool)
        ensures
            r == self.spec_is_hard(),
    {
        match self {
            BasisStatus::Inadmissible | BasisStatus::Revoked => true,
            _ => false,
        }
    }

    #[verifier::when_used_as_spec(spec_is_soft_unsatisfied)]
    pub fn is_soft_unsatisfied(self) -> (r: bool)
        ensures
            r == self.spec_is_soft_unsatisfied(),
    {
        match self {
            BasisStatus::Insufficient | BasisStatus::Stale | BasisStatus::Absent
            | BasisStatus::Ambiguous => true,
            _ => false,
        }
    }
}

/// Position of a standing class in the v1 ladder.
pub open spec fn standing_rank(s: StandingClass) -> nat {
    match s {
        StandingClass::Observe => 0,
        StandingClass::Interpret => 1,
        StandingClass::Recommend => 2,
        StandingClass::Authorize => 3,
        StandingClass::Execute => 4,
    }
}

impl StandingClass {
    /// Position of this class in the v1 ladder.
    pub fn rank(self) -> (r: u8)
        ensures
            r == standing_rank(self),
    {
        match self {
            StandingClass::Observe => 0,
            StandingClass::Interpret => 1,
            StandingClass::Recommend => 2,
            StandingClass::Authorize => 3,
            StandingClass::Execute => 4,
        }
    }

    /// Whether this class is strictly below `other` in the v1 ladder.
    pub fn is_below(self, other: StandingClass) -> (r: bool)
        ensures
            r == (standing_rank(self) < standing_rank(other)),
    {
        self.rank() < other.rank()
    }
}

impl OperationClass {
    /// Minimum standing required to perform this operation class.
    pub open spec fn spec_min_standing(self) -> StandingClass {
        match self {
            OperationClass::Observe => StandingClass::Observe,
            OperationClass::Interpret => StandingClass::Interpret,
            OperationClass::Recommend => StandingClass::Recommend,
            OperationClass::Authorize => StandingClass::Authorize,
            OperationClass::Execute => StandingClass::Execute,
            OperationClass::Bind => StandingClass::Execute,
        }
    }

    /// Minimum standing required to perform this operation class. `Bind`
    /// needs `Execute` standing plus the fresh human confirmation that the
    /// basis rules demand.
    #[verifier::when_used_as_spec(spec_min_standing)]
    pub fn min_standing(self) -> (r: StandingClass)
        ensures
            r == self.spec_min_standing(),
    {
        match self {
            OperationClass::Observe => StandingClass::Observe,
            OperationClass::Interpret => StandingClass::Interpret,
            OperationClass::Recommend => StandingClass::Recommend,
            OperationClass::Authorize => StandingClass::Authorize,
            OperationClass::Execute => StandingClass::Execute,
            OperationClass::Bind => StandingClass::Execute,
        }
    }

    /// Wire name of this operation class.
    pub open spec fn spec_as_snake(self) -> Seq<char> {
        match self {
            OperationClass::Observe => "observe"@,
            OperationClass::Interpret => "interpret"@,
            OperationClass::Recommend => "recommend"@,
            OperationClass::Authorize => "authorize"@,
            OperationClass::Execute => "execute"@,
            OperationClass::Bind => "bind"@,
        }
    }

    /// Wire name of this operation class.
    pub fn as_snake(self) -> (r: &'static str)
        ensures
            r@ == self.spec_as_snake(),
    {
        match self {
            OperationClass::Observe => "observe",
            OperationClass::Interpret => "interpret",
            OperationClass::Recommend => "recommend",
            OperationClass::Authorize => "authorize",
            OperationClass::Execute => "execute",
            OperationClass::Bind => "bind",
        }
    }

    /// Whether the v1 standing ladder debt applies (authorize, execute, bind).
    pub open spec fn spec_is_ladder_class(self) -> bool {
        self == OperationClass::Authorize || self == OperationClass::Execute || self
            == OperationClass::Bind
    }

    #[verifier::when_used_as_spec(spec_is_ladder_class)]
    pub fn is_ladder_class(self) -> (r: bool)
        ensures
            r == self.spec_is_ladder_class(),
    {
        match self {
            OperationClass::Authorize | OperationClass::Execute | OperationClass::Bind => true,
            _ => false,
        }
    }
}

} // verus!
