//! Standing grants: a wrapper-level convention, not kernel doctrine.
//!
//! A grant binds an issuer's authorization of an actor at a standing class
//! over a scope root, for some operation verbs, between two timestamps. The
//! wrapper validates it before cooking an intent; the kernel only ever sees
//! the resulting intent, with the grant attached as `policy_ref` evidence.
use vstd::prelude::*;

use crate::canonical::{
    json_object, json_string, json_strings, members_view, object_bytes, push_member,
    standing_class_name, standing_class_name_str, string_bytes, strings_bytes,
};
use crate::digest::{content_address, sha256_hex};
use crate::model::{Evidence, EvidenceKind, EvidenceView, StandingClass, ValidityStatus, strs};
use crate::paths::{concat, path_starts_with, spec_path_starts_with, str_eq};
use crate::time::{
    Timestamp, at_or_after, format_rfc3339, format_utc_seconds, parse_ts, parsed_instant,
    representable, spec_format_rfc3339, spec_format_utc_seconds, ts_le,
};

verus! {

/// The schema tag every v1 grant carries.
pub const GRANT_SCHEMA_V1: &'static str = "wicket-grant/v1";

/// One issuance of standing authority.
pub struct Grant {
    pub schema: String,
    pub actor: String,
    pub standing: StandingClass,
    pub scope_root: String,
    pub operations: Vec<String>,
    pub issued_by: String,
    pub issued_at: String,
    pub expires_at: String,
    pub basis: String,
    pub grant_id: Option<String>,
}

/// The grant's scope root and the intent's target, each as the filesystem
/// resolves it (its canonical path, or the path as written when it cannot
/// be resolved).
pub struct ResolvedPaths {
    pub scope_root: String,
    pub target: String,
}

/// Why a grant does or does not apply to an invocation.
pub enum GrantValidation {
    Valid,
    SchemaMismatch { found: String, expected: String },
    ActorMismatch { grant: String, intent: String },
    ScopeOutOfRange { scope_root: String, target: String },
    OperationNotPermitted { permitted: Vec<String>, requested: String },
    Expired { expires_at: String, now: String },
    NotYetValid { issued_at: String, now: String },
    UnparseableTimestamp { field: &'static str, value: String },
}

/// The value of a grant validation.
pub enum GrantCheck {
    Valid,
    SchemaMismatch { found: Seq<char>, expected: Seq<char> },
    ActorMismatch { grant: Seq<char>, intent: Seq<char> },
    ScopeOutOfRange { scope_root: Seq<char>, target: Seq<char> },
    OperationNotPermitted { permitted: Seq<Seq<char>>, requested: Seq<char> },
    Expired { expires_at: Seq<char>, now: Seq<char> },
    NotYetValid { issued_at: Seq<char>, now: Seq<char> },
    UnparseableTimestamp { field: Seq<char>, value: Seq<char> },
}

impl View for GrantValidation {
    type V = GrantCheck;

    open spec fn view(&self) -> GrantCheck {
        match self {
            GrantValidation::Valid => GrantCheck::Valid,
            GrantValidation::SchemaMismatch { found, expected } => GrantCheck::SchemaMismatch {
                found: found@,
                expected: expected@,
            },
            GrantValidation::ActorMismatch { grant, intent } => GrantCheck::ActorMismatch {
                grant: grant@,
                intent: intent@,
            },
            GrantValidation::ScopeOutOfRange { scope_root, target } => GrantCheck::ScopeOutOfRange {
                scope_root: scope_root@,
                target: target@,
            },
            GrantValidation::OperationNotPermitted { permitted, requested } =>
                GrantCheck::OperationNotPermitted {
                permitted: strs(permitted@),
                requested: requested@,
            },
            GrantValidation::Expired { expires_at, now } => GrantCheck::Expired {
                expires_at: expires_at@,
                now: now@,
            },
            GrantValidation::NotYetValid { issued_at, now } => GrantCheck::NotYetValid {
                issued_at: issued_at@,
                now: now@,
            },
            GrantValidation::UnparseableTimestamp { field, value } =>
                GrantCheck::UnparseableTimestamp { field: field@, value: value@ },
        }
    }
}

/// The text that `format!("{:?}", s)` gives for a string: `s` quoted, with
/// the characters that `str`'s `Debug` escapes written as escapes.
pub uninterp spec fn spec_debug_str(s: Seq<char>) -> Seq<char>;

/// `s` as `Debug` shows a string.
#[verifier::external_body]
fn debug_str(s: &str) -> (r: String)
    ensures
        r@ == spec_debug_str(s@),
{
    format!("{:?}", s)
}

/// The items shown as `Debug` shows a list of strings: each quoted, joined by
/// `", "`, in square brackets.
pub open spec fn debug_list(items: Seq<Seq<char>>) -> Seq<char> {
    "["@ + debug_items(items) + "]"@
}

/// The quoted items joined by `", "`.
pub open spec fn debug_items(items: Seq<Seq<char>>) -> Seq<char>
    decreases items.len(),
{
    if items.len() == 0 {
        seq![]
    } else if items.len() == 1 {
        spec_debug_str(items[0])
    } else {
        debug_items(items.drop_last()) + ", "@ + spec_debug_str(items.last())
    }
}

fn debug_list_exec(items: &Vec<String>) -> (r: String)
    ensures
        r@ == debug_list(strs(items@)),
{
    let mut out = String::new();
    for i in 0..items.len()
        invariant
            out@ == debug_items(strs(items@).take(i as int)),
    {
        proof {
            assert(strs(items@).take(i + 1).drop_last() =~= strs(items@).take(i as int));
        }
        let q = debug_str(items[i].as_str());
        if i > 0 {
            out = concat(out.as_str(), ", ");
        }
        out = concat(out.as_str(), q.as_str());
        proof {
            if i == 0 {
                assert(out@ =~= spec_debug_str(strs(items@)[0]));
            }
        }
        assert(out@ =~= debug_items(strs(items@).take(i + 1)));
    }
    assert(strs(items@).take(items@.len() as int) =~= strs(items@));
    let open = concat("[", out.as_str());
    concat(open.as_str(), "]")
}

/// The line a refused grant is reported with: its code, then the values
/// that refused it.
pub open spec fn message_spec(v: GrantCheck) -> Seq<char> {
    match v {
        GrantCheck::Valid => "valid"@,
        GrantCheck::SchemaMismatch { found, expected } => "GRANT_SCHEMA_MISMATCH: found "@
            + spec_debug_str(found) + ", expected "@ + spec_debug_str(expected),
        GrantCheck::ActorMismatch { grant, intent } => "GRANT_ACTOR_MISMATCH: grant is for "@
            + spec_debug_str(grant) + ", intent actor is "@ + spec_debug_str(intent),
        GrantCheck::ScopeOutOfRange { scope_root, target } => "GRANT_OUT_OF_SCOPE: scope_root="@
            + scope_root + " does not contain target="@ + target,
        GrantCheck::OperationNotPermitted { permitted, requested } =>
            "GRANT_OPERATION_NOT_PERMITTED: requested "@ + spec_debug_str(requested)
            + " not in permitted "@ + debug_list(permitted),
        GrantCheck::Expired { expires_at, now } => "GRANT_EXPIRED: expires_at="@ + expires_at
            + ", now="@ + now,
        GrantCheck::NotYetValid { issued_at, now } => "GRANT_NOT_YET_VALID: issued_at="@
            + issued_at + ", now="@ + now,
        GrantCheck::UnparseableTimestamp { field, value } => "GRANT_UNPARSEABLE_TIMESTAMP: field="@
            + field + " value="@ + spec_debug_str(value),
    }
}

impl GrantValidation {
    /// The line this validation is reported with.
    pub fn message(&self) -> (r: String)
        ensures
            r@ == message_spec(self@),
    {
        match self {
            GrantValidation::Valid => "valid".to_owned(),
            GrantValidation::SchemaMismatch { found, expected } => {
                let a = concat("GRANT_SCHEMA_MISMATCH: found ", debug_str(found.as_str()).as_str());
                let b = concat(a.as_str(), ", expected ");
                concat(b.as_str(), debug_str(expected.as_str()).as_str())
            },
            GrantValidation::ActorMismatch { grant, intent } => {
                let a = concat("GRANT_ACTOR_MISMATCH: grant is for ", debug_str(grant.as_str()).as_str());
                let b = concat(a.as_str(), ", intent actor is ");
                concat(b.as_str(), debug_str(intent.as_str()).as_str())
            },
            GrantValidation::ScopeOutOfRange { scope_root, target } => {
                let a = concat("GRANT_OUT_OF_SCOPE: scope_root=", scope_root.as_str());
                let b = concat(a.as_str(), " does not contain target=");
                concat(b.as_str(), target.as_str())
            },
            GrantValidation::OperationNotPermitted { permitted, requested } => {
                let a = concat(
                    "GRANT_OPERATION_NOT_PERMITTED: requested ",
                    debug_str(requested.as_str()).as_str(),
                );
                let b = concat(a.as_str(), " not in permitted ");
                concat(b.as_str(), debug_list_exec(permitted).as_str())
            },
            GrantValidation::Expired { expires_at, now } => {
                let a = concat("GRANT_EXPIRED: expires_at=", expires_at.as_str());
                let b = concat(a.as_str(), ", now=");
                concat(b.as_str(), now.as_str())
            },
            GrantValidation::NotYetValid { issued_at, now } => {
                let a = concat("GRANT_NOT_YET_VALID: issued_at=", issued_at.as_str());
                let b = concat(a.as_str(), ", now=");
                concat(b.as_str(), now.as_str())
            },
            GrantValidation::UnparseableTimestamp { field, value } => {
                let a = concat("GRANT_UNPARSEABLE_TIMESTAMP: field=", field);
                let b = concat(a.as_str(), " value=");
                concat(b.as_str(), debug_str(value.as_str()).as_str())
            },
        }
    }
}

/// The checks in order: schema, actor, operation, both timestamps parse,
/// `now` inside the closed window, target under the scope root.
pub open spec fn validate_spec(
    g: Grant,
    actor: Seq<char>,
    op: Seq<char>,
    paths: ResolvedPaths,
    now: Timestamp,
) -> GrantCheck {
    if g.schema@ != GRANT_SCHEMA_V1@ {
        GrantCheck::SchemaMismatch { found: g.schema@, expected: GRANT_SCHEMA_V1@ }
    } else if g.actor@ != actor {
        GrantCheck::ActorMismatch { grant: g.actor@, intent: actor }
    } else if !strs(g.operations@).contains(op) {
        GrantCheck::OperationNotPermitted { permitted: strs(g.operations@), requested: op }
    } else {
        match parsed_instant(g.issued_at@) {
            None => GrantCheck::UnparseableTimestamp { field: "issued_at"@, value: g.issued_at@ },
            Some(issued) => match parsed_instant(g.expires_at@) {
                None => GrantCheck::UnparseableTimestamp {
                    field: "expires_at"@,
                    value: g.expires_at@,
                },
                Some(expires) => {
                    if !ts_le(issued, now) {
                        GrantCheck::NotYetValid {
                            issued_at: g.issued_at@,
                            now: spec_format_rfc3339(now.secs, now.nanos),
                        }
                    } else if !ts_le(now, expires) {
                        GrantCheck::Expired {
                            expires_at: g.expires_at@,
                            now: spec_format_rfc3339(now.secs, now.nanos),
                        }
                    } else if !spec_path_starts_with(paths.target@, paths.scope_root@) {
                        GrantCheck::ScopeOutOfRange {
                            scope_root: paths.scope_root@,
                            target: paths.target@,
                        }
                    } else {
                        GrantCheck::Valid
                    }
                },
            },
        }
    }
}

fn contains_str(v: &Vec<String>, s: &str) -> (r: bool)
    ensures
        r == strs(v@).contains(s@),
{
    for i in 0..v.len()
        invariant
            forall|j: int| 0 <= j < i ==> strs(v@)[j] != s@,
    {
        if str_eq(v[i].as_str(), s) {
            assert(strs(v@)[i as int] == s@);
            return true;
        }
    }
    false
}

fn copy_strings(v: &Vec<String>) -> (r: Vec<String>)
    ensures
        strs(r@) == strs(v@),
{
    let mut out: Vec<String> = Vec::new();
    for i in 0..v.len()
        invariant
            out@.len() == i,
            forall|j: int| 0 <= j < i ==> #[trigger] out@[j]@ == v@[j]@,
    {
        out.push(v[i].clone());
    }
    assert(strs(out@) =~= strs(v@));
    out
}

/// Validates a grant against one invocation: `op` is the wrapper verb
/// (`edit`, `run` or `commit`), `paths` the resolved scope root and target,
/// `now` the wrapper's clock reading.
pub fn validate(
    grant: &Grant,
    actor: &str,
    op: &str,
    paths: &ResolvedPaths,
    now: Timestamp,
) -> (r: GrantValidation)
    requires
        representable(now),
    ensures
        r@ == validate_spec(*grant, actor@, op@, *paths, now),
{
    if !str_eq(grant.schema.as_str(), GRANT_SCHEMA_V1) {
        return GrantValidation::SchemaMismatch {
            found: grant.schema.clone(),
            expected: GRANT_SCHEMA_V1.to_owned(),
        };
    }
    if !str_eq(grant.actor.as_str(), actor) {
        return GrantValidation::ActorMismatch { grant: grant.actor.clone(), intent: actor.to_owned() };
    }
    if !contains_str(&grant.operations, op) {
        return GrantValidation::OperationNotPermitted {
            permitted: copy_strings(&grant.operations),
            requested: op.to_owned(),
        };
    }
    let issued = match parse_ts(grant.issued_at.as_str()) {
        Some(t) => t,
        None => {
            return GrantValidation::UnparseableTimestamp {
                field: "issued_at",
                value: grant.issued_at.clone(),
            };
        },
    };
    let expires = match parse_ts(grant.expires_at.as_str()) {
        Some(t) => t,
        None => {
            return GrantValidation::UnparseableTimestamp {
                field: "expires_at",
                value: grant.expires_at.clone(),
            };
        },
    };
    if !at_or_after(now, issued) {
        return GrantValidation::NotYetValid {
            issued_at: grant.issued_at.clone(),
            now: format_rfc3339(now),
        };
    }
    if !at_or_after(expires, now) {
        return GrantValidation::Expired {
            expires_at: grant.expires_at.clone(),
            now: format_rfc3339(now),
        };
    }
    if !path_starts_with(paths.target.as_str(), paths.scope_root.as_str()) {
        return GrantValidation::ScopeOutOfRange {
            scope_root: paths.scope_root.clone(),
            target: paths.target.clone(),
        };
    }
    GrantValidation::Valid
}

/// The members of a grant's body, `grant_id` excluded.
pub open spec fn grant_body_members(g: Grant) -> Seq<(Seq<char>, Seq<u8>)> {
    seq![
        ("actor"@, json_string(g.actor@)),
        ("basis"@, json_string(g.basis@)),
        ("expires_at"@, json_string(g.expires_at@)),
        ("issued_at"@, json_string(g.issued_at@)),
        ("issued_by"@, json_string(g.issued_by@)),
        ("operations"@, json_strings(strs(g.operations@))),
        ("schema"@, json_string(g.schema@)),
        ("scope_root"@, json_string(g.scope_root@)),
        ("standing"@, json_string(standing_class_name(g.standing))),
    ]
}

/// The id of a grant that carries none: the address of its canonical body.
pub open spec fn grant_id_spec(g: Grant) -> Seq<char> {
    match g.grant_id {
        Some(id) => id@,
        None => content_address(json_object(grant_body_members(g))),
    }
}

/// The address of a grant's canonical body, `grant_id` excluded.
pub fn compute_grant_id(grant: &Grant) -> (r: String)
    ensures
        r@ == content_address(json_object(grant_body_members(*grant))),
{
    let mut ms: Vec<(&'static str, Vec<u8>)> = Vec::new();
    push_member(&mut ms, "actor", string_bytes(grant.actor.as_str()));
    push_member(&mut ms, "basis", string_bytes(grant.basis.as_str()));
    push_member(&mut ms, "expires_at", string_bytes(grant.expires_at.as_str()));
    push_member(&mut ms, "issued_at", string_bytes(grant.issued_at.as_str()));
    push_member(&mut ms, "issued_by", string_bytes(grant.issued_by.as_str()));
    push_member(&mut ms, "operations", strings_bytes(&grant.operations));
    push_member(&mut ms, "schema", string_bytes(grant.schema.as_str()));
    push_member(&mut ms, "scope_root", string_bytes(grant.scope_root.as_str()));
    push_member(&mut ms, "standing", string_bytes(standing_class_name_str(grant.standing)));
    assert(members_view(ms@) =~= grant_body_members(*grant));
    sha256_hex(object_bytes(&ms).as_slice())
}

/// The `policy_ref` evidence that points at a validated grant.
pub open spec fn grant_evidence_spec(
    g: Grant,
    grant_path: Seq<char>,
    actor: Seq<char>,
    now: Timestamp,
) -> EvidenceView {
    let until = match parsed_instant(g.expires_at@) {
        Some(t) => t,
        None => now,
    };
    EvidenceView {
        reference: "wicket-grant://"@ + grant_path + "#"@ + grant_id_spec(g),
        kind: EvidenceKind::PolicyRef,
        issuer: g.issued_by@,
        subject: actor,
        valid_from: g.issued_at@,
        valid_until: spec_format_utc_seconds(until.secs, until.nanos),
        status: ValidityStatus::Valid,
    }
}

/// Builds the `policy_ref` evidence that points at a validated grant; the
/// receipt's evidence hashes then record that a grant raised the standing.
pub fn grant_evidence(grant: &Grant, grant_path: &str, actor: &str, now: Timestamp) -> (r: Evidence)
    requires
        representable(now),
    ensures
        r@ == grant_evidence_spec(*grant, grant_path@, actor@, now),
{
    let id = match &grant.grant_id {
        Some(id) => id.clone(),
        None => compute_grant_id(grant),
    };
    let until = match parse_ts(grant.expires_at.as_str()) {
        Some(t) => t,
        None => now,
    };
    let head = concat("wicket-grant://", grant_path);
    let with_hash = concat(head.as_str(), "#");
    Evidence {
        reference: concat(with_hash.as_str(), id.as_str()),
        kind: EvidenceKind::PolicyRef,
        issuer: grant.issued_by.clone(),
        subject: actor.to_owned(),
        valid_from: grant.issued_at.clone(),
        valid_until: format_utc_seconds(until),
        status: ValidityStatus::Valid,
    }
}


/// Applies a grant to one invocation: when it validates, the grant's
/// standing class replaces the asserted one and its `policy_ref` evidence is
/// attached; otherwise the validation says why the grant was refused.
pub fn apply_grant(
    grant: &Grant,
    grant_path: &str,
    actor: &str,
    op: &str,
    paths: &ResolvedPaths,
    now: Timestamp,
) -> (r: Result<(StandingClass, Evidence), GrantValidation>)
    requires
        representable(now),
    ensures
        validate_spec(*grant, actor@, op@, *paths, now) == GrantCheck::Valid ==> (r matches Ok(
            (s, e),
        ) && s == grant.standing && e@ == grant_evidence_spec(*grant, grant_path@, actor@, now)),
        validate_spec(*grant, actor@, op@, *paths, now) != GrantCheck::Valid ==> (r matches Err(v)
            && v@ == validate_spec(*grant, actor@, op@, *paths, now)),
{
    let v = validate(grant, actor, op, paths, now);
    match v {
        GrantValidation::Valid => Ok((grant.standing, grant_evidence(grant, grant_path, actor, now))),
        _ => Err(v),
    }
}

} // verus!
