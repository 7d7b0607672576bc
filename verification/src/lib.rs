//! Wicket: admissibility preflight for agentic operations.
//!
//! One intended operation goes in; a bounded verdict, the dimensional
//! accounting behind it (basis, precedence, standing), the actions the actor
//! may and may not take next, and a content-addressed receipt come out.
//!
//! Public entry point: [`check`].
use vstd::prelude::*;

pub mod canonical;
pub mod codes;
pub mod cook;
pub mod digest;
pub mod grant;
pub mod laws;
pub mod model;
pub mod paths;
pub mod receipt;
pub mod report;
pub mod rules;
pub mod time;
pub mod verdict;

pub use model::{
    BasisStatus, DimensionResult, Evidence, EvidenceKind, Intent, OperationClass, Outcome,
    OutcomeClass, PrecedenceResolution, PrecedenceStatus, Provenance, Receipt, ReceiptObligation,
    StandingClass, StandingStatus, SurfaceVerdict,
};

verus! {

/// Runs admissibility preflight on one intent: the verdict, the dimensional
/// accounting, the allowed and forbidden next actions, and a sealed receipt.
pub fn check(intent: &Intent) -> (r: Outcome)
    ensures
        r@ == verdict::outcome_spec(*intent),
        r.receipt.receipt_id@.len() == 71,
        r.receipt.receipt_id@.subrange(0, 7) == "sha256:"@,
{
    verdict::derive(intent)
}

} // verus!
