//! Receipts: content addresses over canonical JSON.
//!
//! `input_hash` addresses the whole intent; each `evidence_ref_hashes` entry
//! addresses one evidence reference object (never the evidence it points
//! at); `receipt_id` addresses the whole outcome with `receipt_id` itself
//! set to the empty string, `receipt.timestamp` included.
use vstd::prelude::*;

use crate::canonical::{evidence_bytes, evidence_json, intent_bytes, intent_json, outcome_bytes, outcome_json};
use crate::digest::{content_address, sha256_hex};
use crate::model::{
    Dimensions, Evidence, Intent, Outcome, OutcomeView, Receipt, ReceiptObligation, ReceiptView,
    opt_str, strs,
};

verus! {

/// The receipt of `intent` before sealing: `receipt_id` still empty.
pub open spec fn receipt_spec(intent: Intent, obligation: ReceiptObligation) -> ReceiptView {
    ReceiptView {
        receipt_id: seq![],
        obligation,
        input_hash: content_address(intent_json(intent)),
        evidence_ref_hashes: intent.claimed_basis.evidence_refs@.map_values(
            |e: Evidence| content_address(evidence_json(e)),
        ),
        prev_receipt_hash: opt_str(intent.prev_receipt_hash),
        timestamp: intent.call_timestamp@,
    }
}

/// `o` with its receipt id replaced by `id`.
pub open spec fn with_receipt_id(o: OutcomeView, id: Seq<char>) -> OutcomeView {
    OutcomeView { receipt: ReceiptView { receipt_id: id, ..o.receipt }, ..o }
}

/// The address of an outcome: canonical JSON with an empty receipt id.
pub open spec fn outcome_address(o: OutcomeView) -> Seq<char> {
    content_address(outcome_json(with_receipt_id(o, seq![])))
}

/// `o` with its receipt id set to its own address.
pub open spec fn sealed(o: OutcomeView) -> OutcomeView {
    with_receipt_id(o, outcome_address(o))
}

/// Sealing changes nothing but the receipt id.
pub proof fn lemma_sealed_fields(o: OutcomeView)
    ensures
        sealed(o).reason_codes == o.reason_codes,
        sealed(o).basis == o.basis,
        sealed(o).precedence == o.precedence,
        sealed(o).standing == o.standing,
        sealed(o).allowed == o.allowed,
        sealed(o).forbidden == o.forbidden,
{
}

/// Builds the receipt of `intent` with `receipt_id` left empty; [`seal`]
/// fills it in once the whole outcome is assembled.
pub fn build(
    intent: &Intent,
    dimensions: &Dimensions,
    top_codes: &[String],
    obligation: ReceiptObligation,
) -> (r: Receipt)
    ensures
        r@ == receipt_spec(*intent, obligation),
{
    let input_hash = sha256_hex(intent_bytes(intent).as_slice());
    let evs = &intent.claimed_basis.evidence_refs;
    let mut hashes: Vec<String> = Vec::new();
    for i in 0..evs.len()
        invariant
            evs == &intent.claimed_basis.evidence_refs,
            hashes@.len() == i,
            forall|j: int|
                0 <= j < i ==> #[trigger] hashes@[j]@ == content_address(evidence_json(evs@[j])),
    {
        hashes.push(sha256_hex(evidence_bytes(&evs[i]).as_slice()));
    }
    assert(strs(hashes@) =~= evs@.map_values(|e: Evidence| content_address(evidence_json(e))));
    let prev = match &intent.prev_receipt_hash {
        Some(h) => Some(h.clone()),
        None => None,
    };
    Receipt {
        receipt_id: String::new(),
        obligation,
        input_hash,
        evidence_ref_hashes: hashes,
        prev_receipt_hash: prev,
        timestamp: intent.call_timestamp.clone(),
    }
}

/// Sets `receipt_id` to the address of the outcome: SHA-256 over its
/// canonical JSON with `receipt_id` empty.
pub fn seal(outcome: &mut Outcome)
    ensures
        final(outcome)@ == sealed(old(outcome)@),
        final(outcome).receipt.receipt_id@.len() == 71,
        final(outcome).receipt.receipt_id@.subrange(0, 7) == "sha256:"@,
{
    outcome.receipt.receipt_id = String::new();
    assert(outcome@ == with_receipt_id(old(outcome)@, seq![]));
    let id = sha256_hex(outcome_bytes(outcome).as_slice());
    outcome.receipt.receipt_id = id;
    assert(outcome@ == sealed(old(outcome)@));
}

} // verus!
