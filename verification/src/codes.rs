//! The reason-code registry. No other code is ever emitted.
use vstd::prelude::*;

verus! {

// Basis: soft failures (surface verdict gap) and the satisfied code
pub const BASIS_OK: &'static str = "BASIS_OK";
pub const BASIS_ABSENT: &'static str = "BASIS_ABSENT";
pub const BASIS_INSUFFICIENT_FOR_OBSERVE: &'static str = "BASIS_INSUFFICIENT_FOR_OBSERVE";
pub const BASIS_INSUFFICIENT_FOR_INTERPRET: &'static str = "BASIS_INSUFFICIENT_FOR_INTERPRET";
pub const BASIS_INSUFFICIENT_FOR_RECOMMEND: &'static str = "BASIS_INSUFFICIENT_FOR_RECOMMEND";
pub const BASIS_INSUFFICIENT_FOR_AUTHORIZE: &'static str = "BASIS_INSUFFICIENT_FOR_AUTHORIZE";
pub const BASIS_INSUFFICIENT_FOR_EXECUTE: &'static str = "BASIS_INSUFFICIENT_FOR_EXECUTE";
pub const BASIS_INSUFFICIENT_FOR_BIND: &'static str = "BASIS_INSUFFICIENT_FOR_BIND";
pub const BASIS_TTL_EXPIRED: &'static str = "BASIS_TTL_EXPIRED";
pub const BASIS_AMBIGUOUS_EVIDENCE_KIND: &'static str = "BASIS_AMBIGUOUS_EVIDENCE_KIND";

// Basis: hard failures (surface verdict denied)
pub const BASIS_INADMISSIBLE_SELF_CERTIFIED: &'static str = "BASIS_INADMISSIBLE_SELF_CERTIFIED";
pub const BASIS_INADMISSIBLE_BIND_REQUIRES_HUMAN_CONFIRMATION: &'static str = "BASIS_INADMISSIBLE_BIND_REQUIRES_HUMAN_CONFIRMATION";
pub const BASIS_REVOKED: &'static str = "BASIS_REVOKED";

// Precedence
pub const PRECEDENCE_OK: &'static str = "PRECEDENCE_OK";
pub const PRECEDENCE_SUPERSEDED: &'static str = "PRECEDENCE_SUPERSEDED";
pub const PRECEDENCE_AMBIGUOUS: &'static str = "PRECEDENCE_AMBIGUOUS";
pub const PRECEDENCE_UNRESOLVED: &'static str = "PRECEDENCE_UNRESOLVED";
pub const PRECEDENCE_CALLER_ASSERTED_UNVERIFIED: &'static str = "PRECEDENCE_CALLER_ASSERTED_UNVERIFIED";

// Standing, scope and revocation provenance
pub const STANDING_OK: &'static str = "STANDING_OK";
pub const STANDING_INSUFFICIENT_FOR_OPERATION: &'static str = "STANDING_INSUFFICIENT_FOR_OPERATION";
pub const STANDING_ABSENT: &'static str = "STANDING_ABSENT";
pub const STANDING_OUT_OF_SCOPE: &'static str = "STANDING_OUT_OF_SCOPE";
pub const STANDING_FORBIDDEN: &'static str = "STANDING_FORBIDDEN";
pub const STANDING_CALLER_ASSERTED_UNVERIFIED: &'static str = "STANDING_CALLER_ASSERTED_UNVERIFIED";
pub const STANDING_LADDER_V1_FLAT: &'static str = "STANDING_LADDER_V1_FLAT";
pub const SCOPE_NOT_ASSERTED: &'static str = "SCOPE_NOT_ASSERTED";
pub const SCOPE_CALLER_ASSERTED_UNVERIFIED: &'static str = "SCOPE_CALLER_ASSERTED_UNVERIFIED";
pub const REVOCATION_CALLER_ASSERTED_UNVERIFIED: &'static str = "REVOCATION_CALLER_ASSERTED_UNVERIFIED";

// Accounting across dimensions
pub const OPEN_FINDING_ACCOUNTED: &'static str = "OPEN_FINDING_ACCOUNTED";
pub const UNACCOUNTED_INPUT: &'static str = "UNACCOUNTED_INPUT";
pub const INPUT_SCHEMA_INVALID: &'static str = "INPUT_SCHEMA_INVALID";
pub const INPUT_UNKNOWN_ENUM_VALUE: &'static str = "INPUT_UNKNOWN_ENUM_VALUE";
pub const INPUT_FUTURE_PROVENANCE_RESERVED: &'static str = "INPUT_FUTURE_PROVENANCE_RESERVED";
pub const RECEIPT_HASH_MISMATCH: &'static str = "RECEIPT_HASH_MISMATCH";

} // verus!
