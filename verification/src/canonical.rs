//! Canonical JSON (RFC 8785) of the library's own values, as bytes.
//!
//! Every value hashed here holds only strings, booleans, arrays and objects,
//! so canonical form comes down to three things: no whitespace, object
//! members in ascending order of their keys, and each string as `serde_jcs`
//! writes it. The members of each object below are listed in key order; the
//! strings themselves are written by `serde_jcs`.
use vstd::prelude::*;

use crate::model::{
    ActorStanding, ClaimedBasis, DimensionResult, DimensionView, Evidence, Intent, Outcome,
    OutcomeView, Precedence, Receipt, ReceiptView, Revocation, ScopeAssertion, opt_str, strs,
    BasisStatus, EvidenceKind, OperationClass, OutcomeClass, PrecedenceResolution,
    PrecedenceStatus, Provenance, ReceiptObligation, StandingClass, StandingStatus, SurfaceVerdict,
    ValidityStatus,
};

verus! {

pub const COMMA: u8 = 0x2Cu8;

pub const COLON: u8 = 0x3Au8;

pub const LBRACKET: u8 = 0x5Bu8;

pub const RBRACKET: u8 = 0x5Du8;

pub const LBRACE: u8 = 0x7Bu8;

pub const RBRACE: u8 = 0x7Du8;

// ---------------------------------------------------------------------------
// Strings
// ---------------------------------------------------------------------------
/// The bytes `serde_jcs::to_vec` writes for a string: the RFC 8785 string
/// literal holding it.
pub uninterp spec fn spec_jcs_string(s: Seq<char>) -> Seq<u8>;

/// Calls `serde_jcs::to_vec` on a string. Serializing a `str` into a vector
/// makes no failing write, so the error arm is never taken. The contract
/// names the result.
#[verifier::external_body]
fn jcs_string(s: &str) -> (r: Vec<u8>)
    ensures
        r@ == spec_jcs_string(s@),
{
    match serde_jcs::to_vec(s) {
        Ok(bytes) => bytes,
        Err(_) => Vec::new(),
    }
}

/// A JSON string literal holding `s`.
pub open spec fn json_string(s: Seq<char>) -> Seq<u8> {
    spec_jcs_string(s)
}

/// `true` or `false`.
pub open spec fn json_bool(b: bool) -> Seq<u8> {
    if b {
        seq![0x74u8, 0x72u8, 0x75u8, 0x65u8]
    } else {
        seq![0x66u8, 0x61u8, 0x6Cu8, 0x73u8, 0x65u8]
    }
}

// ---------------------------------------------------------------------------
// Arrays and objects
// ---------------------------------------------------------------------------
/// The items separated by commas.
pub open spec fn join(items: Seq<Seq<u8>>) -> Seq<u8>
    decreases items.len(),
{
    if items.len() == 0 {
        seq![]
    } else if items.len() == 1 {
        items[0]
    } else {
        join(items.drop_last()) + seq![COMMA] + items.last()
    }
}

/// A JSON array of already encoded items.
pub open spec fn json_array(items: Seq<Seq<u8>>) -> Seq<u8> {
    seq![LBRACKET] + join(items) + seq![RBRACKET]
}

/// A JSON array of strings.
pub open spec fn json_strings(v: Seq<Seq<char>>) -> Seq<u8> {
    json_array(v.map_values(|s: Seq<char>| json_string(s)))
}

/// One object member: key, colon, encoded value.
pub open spec fn json_member(m: (Seq<char>, Seq<u8>)) -> Seq<u8> {
    json_string(m.0) + seq![COLON] + m.1
}

/// A JSON object with the given members, in the given order.
pub open spec fn json_object(ms: Seq<(Seq<char>, Seq<u8>)>) -> Seq<u8> {
    seq![LBRACE] + join(ms.map_values(|m: (Seq<char>, Seq<u8>)| json_member(m))) + seq![RBRACE]
}

/// The value of a list of object members under construction.
pub open spec fn members_view(ms: Seq<(&'static str, Vec<u8>)>) -> Seq<(Seq<char>, Seq<u8>)> {
    ms.map_values(|m: (&'static str, Vec<u8>)| (m.0@, m.1@))
}

/// The value of a list of encoded items.
pub open spec fn items_view(v: Seq<Vec<u8>>) -> Seq<Seq<u8>> {
    v.map_values(|b: Vec<u8>| b@)
}

proof fn lemma_join_push(items: Seq<Seq<u8>>, x: Seq<u8>)
    ensures
        join(items.push(x)) == if items.len() == 0 {
            x
        } else {
            join(items) + seq![COMMA] + x
        },
{
    assert(items.push(x).drop_last() =~= items);
}

/// Appends the bytes of `src`.
pub fn extend(out: &mut Vec<u8>, src: &[u8])
    ensures
        final(out)@ == old(out)@ + src@,
{
    let ghost start = out@;
    for i in 0..src.len()
        invariant
            out@ == start + src@.take(i as int),
    {
        out.push(src[i]);
        assert(src@.take(i + 1) =~= src@.take(i as int).push(src@[i as int]));
    }
    assert(src@.take(src@.len() as int) =~= src@);
}

/// Appends `s` as a JSON string literal.
pub fn write_string(out: &mut Vec<u8>, s: &str)
    ensures
        final(out)@ == old(out)@ + json_string(s@),
{
    let bytes = jcs_string(s);
    extend(out, bytes.as_slice());
}

/// `s` as a JSON string literal.
pub fn string_bytes(s: &str) -> (r: Vec<u8>)
    ensures
        r@ == json_string(s@),
{
    let mut out: Vec<u8> = Vec::new();
    write_string(&mut out, s);
    assert(out@ =~= json_string(s@));
    out
}

/// `true` or `false`.
pub fn bool_bytes(b: bool) -> (r: Vec<u8>)
    ensures
        r@ == json_bool(b),
{
    let r = if b {
        vec![0x74u8, 0x72u8, 0x75u8, 0x65u8]
    } else {
        vec![0x66u8, 0x61u8, 0x6Cu8, 0x73u8, 0x65u8]
    };
    assert(r@ =~= json_bool(b));
    r
}

/// A JSON array of already encoded items.
pub fn array_bytes(items: &Vec<Vec<u8>>) -> (r: Vec<u8>)
    ensures
        r@ == json_array(items_view(items@)),
{
    let mut out: Vec<u8> = Vec::new();
    out.push(LBRACKET);
    for i in 0..items.len()
        invariant
            out@ == seq![LBRACKET] + join(items_view(items@).take(i as int)),
    {
        let ghost before = items_view(items@).take(i as int);
        proof {
            assert(items_view(items@).take(i + 1) =~= before.push(items@[i as int]@));
            lemma_join_push(before, items@[i as int]@);
        }
        if i > 0 {
            out.push(COMMA);
        }
        extend(&mut out, items[i].as_slice());
        assert(out@ =~= seq![LBRACKET] + join(items_view(items@).take(i + 1)));
    }
    assert(items_view(items@).take(items@.len() as int) =~= items_view(items@));
    out.push(RBRACKET);
    assert(out@ =~= json_array(items_view(items@)));
    out
}

/// A JSON array of strings.
pub fn strings_bytes(v: &Vec<String>) -> (r: Vec<u8>)
    ensures
        r@ == json_strings(crate::model::strs(v@)),
{
    let mut items: Vec<Vec<u8>> = Vec::new();
    for i in 0..v.len()
        invariant
            items@.len() == i,
            forall|j: int| 0 <= j < i ==> #[trigger] items@[j]@ == json_string(v@[j]@),
    {
        items.push(string_bytes(v[i].as_str()));
    }
    assert(items_view(items@) =~= crate::model::strs(v@).map_values(
        |s: Seq<char>| json_string(s),
    ));
    array_bytes(&items)
}

/// A JSON object with the given members, in the given order.
pub fn object_bytes(ms: &Vec<(&'static str, Vec<u8>)>) -> (r: Vec<u8>)
    ensures
        r@ == json_object(members_view(ms@)),
{
    let ghost encoded = members_view(ms@).map_values(
        |m: (Seq<char>, Seq<u8>)| json_member(m),
    );
    let mut out: Vec<u8> = Vec::new();
    out.push(LBRACE);
    for i in 0..ms.len()
        invariant
            encoded == members_view(ms@).map_values(|m: (Seq<char>, Seq<u8>)| json_member(m)),
            out@ == seq![LBRACE] + join(encoded.take(i as int)),
    {
        let ghost before = encoded.take(i as int);
        proof {
            assert(encoded.take(i + 1) =~= before.push(encoded[i as int]));
            lemma_join_push(before, encoded[i as int]);
        }
        let ghost start = out@;
        if i > 0 {
            out.push(COMMA);
        }
        write_string(&mut out, ms[i].0);
        out.push(COLON);
        extend(&mut out, ms[i].1.as_slice());
        assert(out@ =~= seq![LBRACE] + join(encoded.take(i + 1)));
    }
    assert(encoded.take(ms@.len() as int) =~= encoded);
    out.push(RBRACE);
    assert(out@ =~= json_object(members_view(ms@)));
    out
}


// ---------------------------------------------------------------------------
// Wire names of the enums (snake case)
// ---------------------------------------------------------------------------
/// Wire name of a `StandingClass`.
pub open spec fn standing_class_name(v: StandingClass) -> Seq<char> {
    match v {
        StandingClass::Observe => "observe"@,
        StandingClass::Interpret => "interpret"@,
        StandingClass::Recommend => "recommend"@,
        StandingClass::Authorize => "authorize"@,
        StandingClass::Execute => "execute"@,
    }
}

/// Wire name of a `StandingClass`.
pub fn standing_class_name_str(v: StandingClass) -> (r: &'static str)
    ensures
        r@ == standing_class_name(v),
{
    match v {
        StandingClass::Observe => "observe",
        StandingClass::Interpret => "interpret",
        StandingClass::Recommend => "recommend",
        StandingClass::Authorize => "authorize",
        StandingClass::Execute => "execute",
    }
}

/// Wire name of a `Provenance`.
pub open spec fn provenance_name(v: Provenance) -> Seq<char> {
    match v {
        Provenance::CallerAsserted => "caller_asserted"@,
        Provenance::Attested => "attested"@,
        Provenance::Verified => "verified"@,
    }
}

/// Wire name of a `Provenance`.
pub fn provenance_name_str(v: Provenance) -> (r: &'static str)
    ensures
        r@ == provenance_name(v),
{
    match v {
        Provenance::CallerAsserted => "caller_asserted",
        Provenance::Attested => "attested",
        Provenance::Verified => "verified",
    }
}

/// Wire name of a `PrecedenceResolution`.
pub open spec fn resolution_name(v: PrecedenceResolution) -> Seq<char> {
    match v {
        PrecedenceResolution::Active => "active"@,
        PrecedenceResolution::Superseded => "superseded"@,
        PrecedenceResolution::Ambiguous => "ambiguous"@,
        PrecedenceResolution::Unresolved => "unresolved"@,
    }
}

/// Wire name of a `PrecedenceResolution`.
pub fn resolution_name_str(v: PrecedenceResolution) -> (r: &'static str)
    ensures
        r@ == resolution_name(v),
{
    match v {
        PrecedenceResolution::Active => "active",
        PrecedenceResolution::Superseded => "superseded",
        PrecedenceResolution::Ambiguous => "ambiguous",
        PrecedenceResolution::Unresolved => "unresolved",
    }
}

/// Wire name of a `EvidenceKind`.
pub open spec fn evidence_kind_name(v: EvidenceKind) -> Seq<char> {
    match v {
        EvidenceKind::Prompt => "prompt"@,
        EvidenceKind::FileHash => "file_hash"@,
        EvidenceKind::TestLog => "test_log"@,
        EvidenceKind::ToolOutput => "tool_output"@,
        EvidenceKind::ToolTrace => "tool_trace"@,
        EvidenceKind::CommandOutput => "command_output"@,
        EvidenceKind::PolicyRef => "policy_ref"@,
        EvidenceKind::PriorReceipt => "prior_receipt"@,
        EvidenceKind::HumanConfirmation => "human_confirmation"@,
        EvidenceKind::ActorAssertion => "actor_assertion"@,
    }
}

/// Wire name of a `EvidenceKind`.
pub fn evidence_kind_name_str(v: EvidenceKind) -> (r: &'static str)
    ensures
        r@ == evidence_kind_name(v),
{
    match v {
        EvidenceKind::Prompt => "prompt",
        EvidenceKind::FileHash => "file_hash",
        EvidenceKind::TestLog => "test_log",
        EvidenceKind::ToolOutput => "tool_output",
        EvidenceKind::ToolTrace => "tool_trace",
        EvidenceKind::CommandOutput => "command_output",
        EvidenceKind::PolicyRef => "policy_ref",
        EvidenceKind::PriorReceipt => "prior_receipt",
        EvidenceKind::HumanConfirmation => "human_confirmation",
        EvidenceKind::ActorAssertion => "actor_assertion",
    }
}

/// Wire name of a `ValidityStatus`.
pub open spec fn validity_name(v: ValidityStatus) -> Seq<char> {
    match v {
        ValidityStatus::Valid => "valid"@,
        ValidityStatus::Stale => "stale"@,
        ValidityStatus::Unavailable => "unavailable"@,
    }
}

/// Wire name of a `ValidityStatus`.
pub fn validity_name_str(v: ValidityStatus) -> (r: &'static str)
    ensures
        r@ == validity_name(v),
{
    match v {
        ValidityStatus::Valid => "valid",
        ValidityStatus::Stale => "stale",
        ValidityStatus::Unavailable => "unavailable",
    }
}

/// Wire name of a `OutcomeClass`.
pub open spec fn outcome_class_name(v: OutcomeClass) -> Seq<char> {
    match v {
        OutcomeClass::Verdict => "verdict"@,
        OutcomeClass::Error => "error"@,
    }
}

/// Wire name of a `OutcomeClass`.
pub fn outcome_class_name_str(v: OutcomeClass) -> (r: &'static str)
    ensures
        r@ == outcome_class_name(v),
{
    match v {
        OutcomeClass::Verdict => "verdict",
        OutcomeClass::Error => "error",
    }
}

/// Wire name of a `SurfaceVerdict`.
pub open spec fn surface_verdict_name(v: SurfaceVerdict) -> Seq<char> {
    match v {
        SurfaceVerdict::Authorized => "authorized"@,
        SurfaceVerdict::AdvisoryOnly => "advisory_only"@,
        SurfaceVerdict::Denied => "denied"@,
        SurfaceVerdict::Gap => "gap"@,
        SurfaceVerdict::Unaccounted => "unaccounted"@,
    }
}

/// Wire name of a `SurfaceVerdict`.
pub fn surface_verdict_name_str(v: SurfaceVerdict) -> (r: &'static str)
    ensures
        r@ == surface_verdict_name(v),
{
    match v {
        SurfaceVerdict::Authorized => "authorized",
        SurfaceVerdict::AdvisoryOnly => "advisory_only",
        SurfaceVerdict::Denied => "denied",
        SurfaceVerdict::Gap => "gap",
        SurfaceVerdict::Unaccounted => "unaccounted",
    }
}

/// Wire name of a `BasisStatus`.
pub open spec fn basis_status_name(v: BasisStatus) -> Seq<char> {
    match v {
        BasisStatus::Satisfied => "satisfied"@,
        BasisStatus::Insufficient => "insufficient"@,
        BasisStatus::Stale => "stale"@,
        BasisStatus::Absent => "absent"@,
        BasisStatus::Ambiguous => "ambiguous"@,
        BasisStatus::Inadmissible => "inadmissible"@,
        BasisStatus::Revoked => "revoked"@,
    }
}

/// Wire name of a `BasisStatus`.
pub fn basis_status_name_str(v: BasisStatus) -> (r: &'static str)
    ensures
        r@ == basis_status_name(v),
{
    match v {
        BasisStatus::Satisfied => "satisfied",
        BasisStatus::Insufficient => "insufficient",
        BasisStatus::Stale => "stale",
        BasisStatus::Absent => "absent",
        BasisStatus::Ambiguous => "ambiguous",
        BasisStatus::Inadmissible => "inadmissible",
        BasisStatus::Revoked => "revoked",
    }
}

/// Wire name of a `PrecedenceStatus`.
pub open spec fn precedence_status_name(v: PrecedenceStatus) -> Seq<char> {
    match v {
        PrecedenceStatus::Satisfied => "satisfied"@,
        PrecedenceStatus::Superseded => "superseded"@,
        PrecedenceStatus::Ambiguous => "ambiguous"@,
    }
}

/// Wire name of a `PrecedenceStatus`.
pub fn precedence_status_name_str(v: PrecedenceStatus) -> (r: &'static str)
    ensures
        r@ == precedence_status_name(v),
{
    match v {
        PrecedenceStatus::Satisfied => "satisfied",
        PrecedenceStatus::Superseded => "superseded",
        PrecedenceStatus::Ambiguous => "ambiguous",
    }
}

/// Wire name of a `StandingStatus`.
pub open spec fn standing_status_name(v: StandingStatus) -> Seq<char> {
    match v {
        StandingStatus::Satisfied => "satisfied"@,
        StandingStatus::Insufficient => "insufficient"@,
        StandingStatus::Absent => "absent"@,
        StandingStatus::OutOfScope => "out_of_scope"@,
        StandingStatus::Forbidden => "forbidden"@,
    }
}

/// Wire name of a `StandingStatus`.
pub fn standing_status_name_str(v: StandingStatus) -> (r: &'static str)
    ensures
        r@ == standing_status_name(v),
{
    match v {
        StandingStatus::Satisfied => "satisfied",
        StandingStatus::Insufficient => "insufficient",
        StandingStatus::Absent => "absent",
        StandingStatus::OutOfScope => "out_of_scope",
        StandingStatus::Forbidden => "forbidden",
    }
}

/// Wire name of a `ReceiptObligation`.
pub open spec fn obligation_name(v: ReceiptObligation) -> Seq<char> {
    match v {
        ReceiptObligation::ActionReceipt => "action_receipt"@,
        ReceiptObligation::AdvisoryReceipt => "advisory_receipt"@,
        ReceiptObligation::RefusalReceipt => "refusal_receipt"@,
        ReceiptObligation::GapReceipt => "gap_receipt"@,
        ReceiptObligation::ErrorReceipt => "error_receipt"@,
    }
}

/// Wire name of a `ReceiptObligation`.
pub fn obligation_name_str(v: ReceiptObligation) -> (r: &'static str)
    ensures
        r@ == obligation_name(v),
{
    match v {
        ReceiptObligation::ActionReceipt => "action_receipt",
        ReceiptObligation::AdvisoryReceipt => "advisory_receipt",
        ReceiptObligation::RefusalReceipt => "refusal_receipt",
        ReceiptObligation::GapReceipt => "gap_receipt",
        ReceiptObligation::ErrorReceipt => "error_receipt",
    }
}


// ---------------------------------------------------------------------------
// The input intent
// ---------------------------------------------------------------------------
/// Canonical JSON of an evidence ref.
pub open spec fn evidence_json(e: Evidence) -> Seq<u8> {
    json_object(
        seq![
            ("issuer"@, json_string(e.issuer@)),
            ("kind"@, json_string(evidence_kind_name(e.kind))),
            ("ref"@, json_string(e.reference@)),
            ("status"@, json_string(validity_name(e.status))),
            ("subject"@, json_string(e.subject@)),
            ("valid_from"@, json_string(e.valid_from@)),
            ("valid_until"@, json_string(e.valid_until@)),
        ],
    )
}

/// Canonical JSON of the claimed basis.
pub open spec fn claimed_basis_json(b: ClaimedBasis) -> Seq<u8> {
    json_object(
        seq![
            ("evidence_refs"@, json_array(b.evidence_refs@.map_values(|e: Evidence| evidence_json(e)))),
            ("rule"@, json_string(b.rule@)),
        ],
    )
}

/// Canonical JSON of the actor's standing claim.
pub open spec fn actor_standing_json(a: ActorStanding) -> Seq<u8> {
    json_object(
        seq![
            ("class"@, json_string(standing_class_name(a.class))),
            ("provenance"@, json_string(provenance_name(a.provenance))),
        ],
    )
}

/// Canonical JSON of the precedence claim (`superseded_by` only when present).
pub open spec fn precedence_json(p: Precedence) -> Seq<u8> {
    json_object(
        seq![
            ("evidence_refs"@, json_strings(strs(p.evidence_refs@))),
            ("provenance"@, json_string(provenance_name(p.provenance))),
            ("resolution"@, json_string(resolution_name(p.resolution))),
        ] + match p.superseded_by {
            Some(s) => seq![("superseded_by"@, json_string(s@))],
            None => seq![],
        },
    )
}

/// Canonical JSON of the revocation claim.
pub open spec fn revocation_json(r: Revocation) -> Seq<u8> {
    json_object(
        seq![
            ("basis_revoked"@, json_bool(r.basis_revoked)),
            ("evidence_refs"@, json_strings(strs(r.evidence_refs@))),
            ("provenance"@, json_string(provenance_name(r.provenance))),
            ("standing_forbidden"@, json_bool(r.standing_forbidden)),
        ],
    )
}

/// Canonical JSON of the scope claim.
pub open spec fn scope_json(s: ScopeAssertion) -> Seq<u8> {
    json_object(
        seq![
            ("evidence_refs"@, json_strings(strs(s.evidence_refs@))),
            ("provenance"@, json_string(provenance_name(s.provenance))),
            ("scope_includes_target"@, json_bool(s.scope_includes_target)),
        ],
    )
}

/// The members of an intent's canonical JSON (optional fields only when present).
pub open spec fn intent_members(i: Intent) -> Seq<(Seq<char>, Seq<u8>)> {
    seq![
        ("actor"@, json_string(i.actor@)),
        ("actor_standing"@, actor_standing_json(i.actor_standing)),
        ("call_timestamp"@, json_string(i.call_timestamp@)),
        ("claimed_basis"@, claimed_basis_json(i.claimed_basis)),
        ("expected_effect"@, json_string(i.expected_effect@)),
        ("intended_action"@, json_string(i.intended_action@)),
        ("operation_class"@, json_string(i.operation_class.spec_as_snake())),
        ("precedence"@, precedence_json(i.precedence)),
    ] + match i.prev_receipt_hash {
        Some(h) => seq![("prev_receipt_hash"@, json_string(h@))],
        None => seq![],
    } + seq![("revocation"@, revocation_json(i.revocation))] + match i.scope_assertion {
        Some(s) => seq![("scope_assertion"@, scope_json(s))],
        None => seq![],
    } + seq![("target"@, json_string(i.target@))]
}

/// Canonical JSON of an intent.
pub open spec fn intent_json(i: Intent) -> Seq<u8> {
    json_object(intent_members(i))
}

/// Canonical JSON of an evidence ref.
pub fn evidence_bytes(e: &Evidence) -> (r: Vec<u8>)
    ensures
        r@ == evidence_json(*e),
{
    let mut ms: Vec<(&'static str, Vec<u8>)> = Vec::new();
    ms.push(("issuer", string_bytes(e.issuer.as_str())));
    ms.push(("kind", string_bytes(evidence_kind_name_str(e.kind))));
    ms.push(("ref", string_bytes(e.reference.as_str())));
    ms.push(("status", string_bytes(validity_name_str(e.status))));
    ms.push(("subject", string_bytes(e.subject.as_str())));
    ms.push(("valid_from", string_bytes(e.valid_from.as_str())));
    ms.push(("valid_until", string_bytes(e.valid_until.as_str())));
    assert(members_view(ms@) =~= seq![
        ("issuer"@, json_string(e.issuer@)),
        ("kind"@, json_string(evidence_kind_name(e.kind))),
        ("ref"@, json_string(e.reference@)),
        ("status"@, json_string(validity_name(e.status))),
        ("subject"@, json_string(e.subject@)),
        ("valid_from"@, json_string(e.valid_from@)),
        ("valid_until"@, json_string(e.valid_until@)),
    ]);
    object_bytes(&ms)
}

fn evidence_list_bytes(v: &Vec<Evidence>) -> (r: Vec<u8>)
    ensures
        r@ == json_array(v@.map_values(|e: Evidence| evidence_json(e))),
{
    let mut items: Vec<Vec<u8>> = Vec::new();
    for i in 0..v.len()
        invariant
            items@.len() == i,
            forall|j: int| 0 <= j < i ==> #[trigger] items@[j]@ == evidence_json(v@[j]),
    {
        items.push(evidence_bytes(&v[i]));
    }
    assert(items_view(items@) =~= v@.map_values(|e: Evidence| evidence_json(e)));
    array_bytes(&items)
}

fn claimed_basis_bytes(b: &ClaimedBasis) -> (r: Vec<u8>)
    ensures
        r@ == claimed_basis_json(*b),
{
    let mut ms: Vec<(&'static str, Vec<u8>)> = Vec::new();
    ms.push(("evidence_refs", evidence_list_bytes(&b.evidence_refs)));
    ms.push(("rule", string_bytes(b.rule.as_str())));
    assert(members_view(ms@) =~= seq![
        ("evidence_refs"@, json_array(b.evidence_refs@.map_values(|e: Evidence| evidence_json(e)))),
        ("rule"@, json_string(b.rule@)),
    ]);
    object_bytes(&ms)
}

fn actor_standing_bytes(a: &ActorStanding) -> (r: Vec<u8>)
    ensures
        r@ == actor_standing_json(*a),
{
    let mut ms: Vec<(&'static str, Vec<u8>)> = Vec::new();
    ms.push(("class", string_bytes(standing_class_name_str(a.class))));
    ms.push(("provenance", string_bytes(provenance_name_str(a.provenance))));
    assert(members_view(ms@) =~= seq![
        ("class"@, json_string(standing_class_name(a.class))),
        ("provenance"@, json_string(provenance_name(a.provenance))),
    ]);
    object_bytes(&ms)
}

fn precedence_bytes(p: &Precedence) -> (r: Vec<u8>)
    ensures
        r@ == precedence_json(*p),
{
    let mut ms: Vec<(&'static str, Vec<u8>)> = Vec::new();
    ms.push(("evidence_refs", strings_bytes(&p.evidence_refs)));
    ms.push(("provenance", string_bytes(provenance_name_str(p.provenance))));
    ms.push(("resolution", string_bytes(resolution_name_str(p.resolution))));
    match &p.superseded_by {
        Some(s) => ms.push(("superseded_by", string_bytes(s.as_str()))),
        None => {},
    }
    assert(members_view(ms@) =~= seq![
        ("evidence_refs"@, json_strings(strs(p.evidence_refs@))),
        ("provenance"@, json_string(provenance_name(p.provenance))),
        ("resolution"@, json_string(resolution_name(p.resolution))),
    ] + match p.superseded_by {
        Some(s) => seq![("superseded_by"@, json_string(s@))],
        None => seq![],
    });
    object_bytes(&ms)
}

fn revocation_bytes(v: &Revocation) -> (r: Vec<u8>)
    ensures
        r@ == revocation_json(*v),
{
    let mut ms: Vec<(&'static str, Vec<u8>)> = Vec::new();
    ms.push(("basis_revoked", bool_bytes(v.basis_revoked)));
    ms.push(("evidence_refs", strings_bytes(&v.evidence_refs)));
    ms.push(("provenance", string_bytes(provenance_name_str(v.provenance))));
    ms.push(("standing_forbidden", bool_bytes(v.standing_forbidden)));
    assert(members_view(ms@) =~= seq![
        ("basis_revoked"@, json_bool(v.basis_revoked)),
        ("evidence_refs"@, json_strings(strs(v.evidence_refs@))),
        ("provenance"@, json_string(provenance_name(v.provenance))),
        ("standing_forbidden"@, json_bool(v.standing_forbidden)),
    ]);
    object_bytes(&ms)
}

fn scope_bytes(v: &ScopeAssertion) -> (r: Vec<u8>)
    ensures
        r@ == scope_json(*v),
{
    let mut ms: Vec<(&'static str, Vec<u8>)> = Vec::new();
    ms.push(("evidence_refs", strings_bytes(&v.evidence_refs)));
    ms.push(("provenance", string_bytes(provenance_name_str(v.provenance))));
    ms.push(("scope_includes_target", bool_bytes(v.scope_includes_target)));
    assert(members_view(ms@) =~= seq![
        ("evidence_refs"@, json_strings(strs(v.evidence_refs@))),
        ("provenance"@, json_string(provenance_name(v.provenance))),
        ("scope_includes_target"@, json_bool(v.scope_includes_target)),
    ]);
    object_bytes(&ms)
}

/// Appends one member, keeping track of the members' value.
pub fn push_member(ms: &mut Vec<(&'static str, Vec<u8>)>, key: &'static str, value: Vec<u8>)
    ensures
        members_view(final(ms)@) == members_view(old(ms)@).push((key@, value@)),
{
    ms.push((key, value));
    assert(members_view(ms@) =~= members_view(old(ms)@).push((key@, value@)));
}

/// Canonical JSON of an intent.
pub fn intent_bytes(i: &Intent) -> (r: Vec<u8>)
    ensures
        r@ == intent_json(*i),
{
    let mut ms: Vec<(&'static str, Vec<u8>)> = Vec::new();
    push_member(&mut ms, "actor", string_bytes(i.actor.as_str()));
    push_member(&mut ms, "actor_standing", actor_standing_bytes(&i.actor_standing));
    push_member(&mut ms, "call_timestamp", string_bytes(i.call_timestamp.as_str()));
    push_member(&mut ms, "claimed_basis", claimed_basis_bytes(&i.claimed_basis));
    push_member(&mut ms, "expected_effect", string_bytes(i.expected_effect.as_str()));
    push_member(&mut ms, "intended_action", string_bytes(i.intended_action.as_str()));
    push_member(&mut ms, "operation_class", string_bytes(i.operation_class.as_snake()));
    push_member(&mut ms, "precedence", precedence_bytes(&i.precedence));
    let ghost head = members_view(ms@);
    assert(head =~= seq![
        ("actor"@, json_string(i.actor@)),
        ("actor_standing"@, actor_standing_json(i.actor_standing)),
        ("call_timestamp"@, json_string(i.call_timestamp@)),
        ("claimed_basis"@, claimed_basis_json(i.claimed_basis)),
        ("expected_effect"@, json_string(i.expected_effect@)),
        ("intended_action"@, json_string(i.intended_action@)),
        ("operation_class"@, json_string(i.operation_class.spec_as_snake())),
        ("precedence"@, precedence_json(i.precedence)),
    ]);
    match &i.prev_receipt_hash {
        Some(h) => push_member(&mut ms, "prev_receipt_hash", string_bytes(h.as_str())),
        None => {},
    }
    let ghost with_prev = members_view(ms@);
    assert(with_prev =~= head + match i.prev_receipt_hash {
        Some(h) => seq![("prev_receipt_hash"@, json_string(h@))],
        None => seq![],
    });
    push_member(&mut ms, "revocation", revocation_bytes(&i.revocation));
    let ghost with_rev = members_view(ms@);
    match &i.scope_assertion {
        Some(s) => push_member(&mut ms, "scope_assertion", scope_bytes(s)),
        None => {},
    }
    let ghost with_scope = members_view(ms@);
    assert(with_scope =~= with_rev + match i.scope_assertion {
        Some(s) => seq![("scope_assertion"@, scope_json(s))],
        None => seq![],
    });
    push_member(&mut ms, "target", string_bytes(i.target.as_str()));
    assert(members_view(ms@) =~= intent_members(*i));
    object_bytes(&ms)
}


// ---------------------------------------------------------------------------
// The outcome
// ---------------------------------------------------------------------------
/// Canonical JSON of a dimension result, given its status's wire name.
pub open spec fn dimension_json(status: Seq<char>, reason_codes: Seq<Seq<char>>) -> Seq<u8> {
    json_object(
        seq![("reason_codes"@, json_strings(reason_codes)), ("status"@, json_string(status))],
    )
}

/// Canonical JSON of the three dimensions.
pub open spec fn dimensions_json(o: OutcomeView) -> Seq<u8> {
    json_object(
        seq![
            ("basis"@, dimension_json(basis_status_name(o.basis.status), o.basis.reason_codes)),
            ("precedence"@, dimension_json(
                precedence_status_name(o.precedence.status),
                o.precedence.reason_codes,
            )),
            ("standing"@, dimension_json(
                standing_status_name(o.standing.status),
                o.standing.reason_codes,
            )),
        ],
    )
}

/// Canonical JSON of a receipt (`prev_receipt_hash` only when present).
pub open spec fn receipt_json(r: ReceiptView) -> Seq<u8> {
    json_object(
        seq![
            ("evidence_ref_hashes"@, json_strings(r.evidence_ref_hashes)),
            ("input_hash"@, json_string(r.input_hash)),
            ("obligation"@, json_string(obligation_name(r.obligation))),
        ] + match r.prev_receipt_hash {
            Some(h) => seq![("prev_receipt_hash"@, json_string(h))],
            None => seq![],
        } + seq![("receipt_id"@, json_string(r.receipt_id)), ("timestamp"@, json_string(r.timestamp))],
    )
}

/// The members of an outcome's canonical JSON.
pub open spec fn outcome_members(o: OutcomeView) -> Seq<(Seq<char>, Seq<u8>)> {
    seq![
        ("allowed"@, json_strings(o.allowed)),
        ("class"@, json_string(outcome_class_name(o.class))),
        ("dimensions"@, dimensions_json(o)),
        ("forbidden"@, json_strings(o.forbidden)),
        ("operation_class"@, json_string(o.operation_class.spec_as_snake())),
        ("reason_codes"@, json_strings(o.reason_codes)),
        ("receipt"@, receipt_json(o.receipt)),
        ("surface_verdict"@, json_string(surface_verdict_name(o.surface_verdict))),
    ]
}

/// Canonical JSON of an outcome.
pub open spec fn outcome_json(o: OutcomeView) -> Seq<u8> {
    json_object(outcome_members(o))
}

fn dimension_bytes<S: Copy>(status: &'static str, d: &DimensionResult<S>) -> (r: Vec<u8>)
    ensures
        r@ == dimension_json(status@, strs(d.reason_codes@)),
{
    let mut ms: Vec<(&'static str, Vec<u8>)> = Vec::new();
    push_member(&mut ms, "reason_codes", strings_bytes(&d.reason_codes));
    push_member(&mut ms, "status", string_bytes(status));
    assert(members_view(ms@) =~= seq![
        ("reason_codes"@, json_strings(strs(d.reason_codes@))),
        ("status"@, json_string(status@)),
    ]);
    object_bytes(&ms)
}

fn receipt_bytes(rc: &Receipt) -> (r: Vec<u8>)
    ensures
        r@ == receipt_json(rc@),
{
    let mut ms: Vec<(&'static str, Vec<u8>)> = Vec::new();
    push_member(&mut ms, "evidence_ref_hashes", strings_bytes(&rc.evidence_ref_hashes));
    push_member(&mut ms, "input_hash", string_bytes(rc.input_hash.as_str()));
    push_member(&mut ms, "obligation", string_bytes(obligation_name_str(rc.obligation)));
    match &rc.prev_receipt_hash {
        Some(h) => push_member(&mut ms, "prev_receipt_hash", string_bytes(h.as_str())),
        None => {},
    }
    push_member(&mut ms, "receipt_id", string_bytes(rc.receipt_id.as_str()));
    push_member(&mut ms, "timestamp", string_bytes(rc.timestamp.as_str()));
    let ghost v = rc@;
    assert(members_view(ms@) =~= seq![
        ("evidence_ref_hashes"@, json_strings(v.evidence_ref_hashes)),
        ("input_hash"@, json_string(v.input_hash)),
        ("obligation"@, json_string(obligation_name(v.obligation))),
    ] + match v.prev_receipt_hash {
        Some(h) => seq![("prev_receipt_hash"@, json_string(h))],
        None => seq![],
    } + seq![("receipt_id"@, json_string(v.receipt_id)), ("timestamp"@, json_string(v.timestamp))]);
    object_bytes(&ms)
}

fn dimensions_bytes(o: &Outcome) -> (r: Vec<u8>)
    ensures
        r@ == dimensions_json(o@),
{
    let mut dims: Vec<(&'static str, Vec<u8>)> = Vec::new();
    push_member(
        &mut dims,
        "basis",
        dimension_bytes(basis_status_name_str(o.dimensions.basis.status), &o.dimensions.basis),
    );
    push_member(
        &mut dims,
        "precedence",
        dimension_bytes(
            precedence_status_name_str(o.dimensions.precedence.status),
            &o.dimensions.precedence,
        ),
    );
    push_member(
        &mut dims,
        "standing",
        dimension_bytes(
            standing_status_name_str(o.dimensions.standing.status),
            &o.dimensions.standing,
        ),
    );
    let ghost v = o@;
    assert(members_view(dims@) =~= seq![
        ("basis"@, dimension_json(basis_status_name(v.basis.status), v.basis.reason_codes)),
        ("precedence"@, dimension_json(
            precedence_status_name(v.precedence.status),
            v.precedence.reason_codes,
        )),
        ("standing"@, dimension_json(
            standing_status_name(v.standing.status),
            v.standing.reason_codes,
        )),
    ]);
    object_bytes(&dims)
}

/// Canonical JSON of an outcome.
pub fn outcome_bytes(o: &Outcome) -> (r: Vec<u8>)
    ensures
        r@ == outcome_json(o@),
{
    let ghost v = o@;
    let mut ms: Vec<(&'static str, Vec<u8>)> = Vec::new();
    push_member(&mut ms, "allowed", strings_bytes(&o.allowed));
    push_member(&mut ms, "class", string_bytes(outcome_class_name_str(o.class)));
    push_member(&mut ms, "dimensions", dimensions_bytes(o));
    push_member(&mut ms, "forbidden", strings_bytes(&o.forbidden));
    push_member(&mut ms, "operation_class", string_bytes(o.operation_class.as_snake()));
    push_member(&mut ms, "reason_codes", strings_bytes(&o.reason_codes));
    push_member(&mut ms, "receipt", receipt_bytes(&o.receipt));
    push_member(&mut ms, "surface_verdict", string_bytes(surface_verdict_name_str(o.surface_verdict)));
    assert(members_view(ms@) =~= outcome_members(v));
    object_bytes(&ms)
}

} // verus!
