//! The thin adapter that turns verb-shaped fact packets into intents.
//!
//! The wrapper gathers what it can (the clock, which policy documents exist,
//! the target's bytes, `git status`), hands those facts in as
//! [`Surroundings`], and this module builds the intent: every claim tagged
//! `caller_asserted`, and whatever could not be determined left out so the
//! kernel records an honest gap.
use vstd::prelude::*;

use crate::digest::{content_address, sha256_hex};
use crate::model::{
    ActorStanding, BasisStatus, ClaimedBasis, Evidence, EvidenceKind, EvidenceView, Intent, IntentView,
    OperationClass, Precedence, PrecedenceResolution, PrecedenceView, Provenance, Revocation,
    RevocationView, ScopeAssertion, ScopeView, StandingClass, ValidityStatus, evidence_views, strs,
};
use crate::paths::{
    concat, path_eq, path_join, path_starts_with, spec_path_eq, spec_path_join,
    spec_path_starts_with,
};
use crate::rules::{
    any_self_cert, basis_spec, clocks_spec, counts, has_kind, has_recent_confirmation,
    is_self_cert,
};
use crate::verdict::unaccounted_spec;
use crate::time::{
    MAX_SECS, MIN_SECS, Timestamp, format_utc_seconds, four_digit_year, parsed_instant,
    representable, shift_minutes, spec_minutes_between,
    spec_format_utc_seconds, spec_shift_minutes,
};

verus! {

// ---------------------------------------------------------------------------
// Fact packets: what the user supplies
// ---------------------------------------------------------------------------
/// A proposed edit of one file.
pub struct EditPacket {
    pub actor: String,
    pub standing: StandingClass,
    pub because: String,
    pub target: String,
    pub cwd: String,
    pub policy_paths: Vec<String>,
    pub human_confirmation: Option<String>,
    pub precedence: PrecedenceResolution,
    /// Evidence for a grant the wrapper has already validated.
    pub grant_evidence: Option<Evidence>,
}

/// A proposed command run (described, never run here).
pub struct RunPacket {
    pub actor: String,
    pub standing: StandingClass,
    pub because: String,
    pub command: String,
    pub operation_class: OperationClass,
    pub cwd: String,
    pub policy_paths: Vec<String>,
    pub human_confirmation: Option<String>,
    pub precedence: PrecedenceResolution,
    pub grant_evidence: Option<Evidence>,
}

/// A proposed git commit on the current branch.
pub struct CommitPacket {
    pub actor: String,
    pub standing: StandingClass,
    pub because: String,
    pub operation_class: OperationClass,
    pub cwd: String,
    pub policy_paths: Vec<String>,
    pub human_confirmation: Option<String>,
    pub precedence: PrecedenceResolution,
    pub grant_evidence: Option<Evidence>,
}

/// What the wrapper read from the clock and the filesystem for one cook.
pub struct Surroundings {
    /// The wrapper's clock reading.
    pub now: Timestamp,
    /// Whether each of the packet's policy paths exists, in order.
    pub policy_exists: Vec<bool>,
    /// The target file's bytes, when it could be read (edit).
    pub target_contents: Option<Vec<u8>>,
    /// The target's canonical path, when it resolves (edit).
    pub target_canonical: Option<String>,
    /// The working directory's canonical path, when it resolves (edit).
    pub cwd_canonical: Option<String>,
    /// Standard output of a successful `git status --porcelain` (commit).
    pub git_status: Option<Vec<u8>>,
}

/// A clock reading outside a leap second, with an hour of representable
/// time on either side.
pub open spec fn clock_ok(now: Timestamp) -> bool {
    &&& now.nanos < 1_000_000_000
    &&& MIN_SECS + 3600 <= now.secs <= MAX_SECS - 3600
}

/// The surroundings fit a packet with `n` policy paths.
pub open spec fn surroundings_fit(env: Surroundings, n: nat) -> bool {
    env.policy_exists@.len() == n && clock_ok(env.now)
}

// ---------------------------------------------------------------------------
// Evidence the cook gathers
// ---------------------------------------------------------------------------
/// `now`, `minutes` minutes later, formatted.
pub open spec fn stamp(now: Timestamp, minutes: int) -> Seq<char> {
    let t = spec_shift_minutes(now, minutes);
    spec_format_utc_seconds(t.secs, t.nanos)
}

/// A `policy_ref` pointing at a policy document, valid an hour either side
/// of now.
pub open spec fn policy_ref_spec(path: Seq<char>, now: Timestamp, actor: Seq<char>) -> EvidenceView {
    EvidenceView {
        reference: "policy://"@ + path,
        kind: EvidenceKind::PolicyRef,
        issuer: "repo-owner"@,
        subject: actor,
        valid_from: stamp(now, -60),
        valid_until: stamp(now, 60),
        status: ValidityStatus::Valid,
    }
}

/// One `policy_ref` per policy path that exists, in order.
pub open spec fn policy_refs_spec(
    paths: Seq<Seq<char>>,
    exists: Seq<bool>,
    now: Timestamp,
    actor: Seq<char>,
) -> Seq<EvidenceView>
    decreases paths.len(),
{
    if paths.len() == 0 {
        seq![]
    } else {
        let rest = policy_refs_spec(paths.drop_last(), exists.drop_last(), now, actor);
        if exists[paths.len() - 1] {
            rest.push(policy_ref_spec(paths.last(), now, actor))
        } else {
            rest
        }
    }
}

/// A `file_hash` pinning the target's bytes, valid for the next hour.
pub open spec fn file_hash_spec(
    path: Seq<char>,
    bytes: Seq<u8>,
    now: Timestamp,
    actor: Seq<char>,
) -> EvidenceView {
    EvidenceView {
        reference: "file://"@ + path + "#"@ + content_address(bytes),
        kind: EvidenceKind::FileHash,
        issuer: "filesystem"@,
        subject: actor,
        valid_from: stamp(now, 0),
        valid_until: stamp(now, 60),
        status: ValidityStatus::Valid,
    }
}

/// A `human_confirmation` for an operator token, from five minutes ago to
/// an hour from now.
pub open spec fn human_conf_spec(token: Seq<char>, now: Timestamp, actor: Seq<char>) -> EvidenceView {
    EvidenceView {
        reference: "human://"@ + token,
        kind: EvidenceKind::HumanConfirmation,
        issuer: "operator"@,
        subject: actor,
        valid_from: stamp(now, -5),
        valid_until: stamp(now, 60),
        status: ValidityStatus::Valid,
    }
}

/// A `command_output` pinning the output of `git status --porcelain`.
pub open spec fn git_status_spec(
    cwd: Seq<char>,
    bytes: Seq<u8>,
    now: Timestamp,
    actor: Seq<char>,
) -> EvidenceView {
    EvidenceView {
        reference: "git://"@ + cwd + "#status:"@ + content_address(bytes),
        kind: EvidenceKind::CommandOutput,
        issuer: "git"@,
        subject: actor,
        valid_from: stamp(now, 0),
        valid_until: stamp(now, 60),
        status: ValidityStatus::Valid,
    }
}

/// The optional human confirmation and grant evidence, in that order.
pub open spec fn tail_evidence(
    token: Option<String>,
    grant: Option<Evidence>,
    now: Timestamp,
    actor: Seq<char>,
) -> Seq<EvidenceView> {
    (match token {
        Some(t) => seq![human_conf_spec(t@, now, actor)],
        None => seq![],
    }) + match grant {
        Some(g) => seq![g@],
        None => seq![],
    }
}

/// A clock reading an hour inside the four-digit years, so that every stamp
/// the cook writes reads back.
pub open spec fn clock_in_four_digit_years(now: Timestamp) -> bool {
    -62167219200 + 3600 <= now.secs <= 253402300799 - 3600
}

/// The stamp `minutes` minutes from `now` parses back to that whole second.
pub open spec fn stamp_reads_back(now: Timestamp, minutes: int) -> bool {
    parsed_instant(stamp(now, minutes)) == Some(
        Timestamp { secs: (now.secs + minutes * 60) as i64, nanos: 0 },
    )
}

fn stamp_exec(now: Timestamp, minutes: i64) -> (r: String)
    requires
        clock_ok(now),
        -60 <= minutes <= 60,
    ensures
        r@ == stamp(now, minutes as int),
        minutes == 0 && four_digit_year(now) ==> parsed_instant(r@) == Some(
            Timestamp { secs: now.secs, nanos: 0 },
        ),
        clock_in_four_digit_years(now) ==> stamp_reads_back(now, minutes as int),
{
    format_utc_seconds(shift_minutes(now, minutes))
}

fn make_evidence(
    reference: String,
    kind: EvidenceKind,
    issuer: &str,
    actor: &str,
    now: Timestamp,
    from_minutes: i64,
) -> (r: Evidence)
    requires
        clock_ok(now),
        -60 <= from_minutes <= 0,
    ensures
        r@ == (EvidenceView {
            reference: reference@,
            kind,
            issuer: issuer@,
            subject: actor@,
            valid_from: stamp(now, from_minutes as int),
            valid_until: stamp(now, 60),
            status: ValidityStatus::Valid,
        }),
        clock_in_four_digit_years(now) ==> stamp_reads_back(now, from_minutes as int)
            && stamp_reads_back(now, 60),
{
    Evidence {
        reference,
        kind,
        issuer: issuer.to_owned(),
        subject: actor.to_owned(),
        valid_from: stamp_exec(now, from_minutes),
        valid_until: stamp_exec(now, 60),
        status: ValidityStatus::Valid,
    }
}

fn gather_policy_refs(paths: &Vec<String>, exists: &Vec<bool>, now: Timestamp, actor: &str) -> (r:
    Vec<Evidence>)
    requires
        exists.len() == paths.len(),
        clock_ok(now),
    ensures
        evidence_views(r@) == policy_refs_spec(strs(paths@), exists@, now, actor@),
{
    let mut out: Vec<Evidence> = Vec::new();
    for i in 0..paths.len()
        invariant
            exists.len() == paths.len(),
            clock_ok(now),
            evidence_views(out@) == policy_refs_spec(
                strs(paths@).take(i as int),
                exists@.take(i as int),
                now,
                actor@,
            ),
    {
        proof {
            assert(strs(paths@).take(i + 1).drop_last() =~= strs(paths@).take(i as int));
            assert(exists@.take(i + 1).drop_last() =~= exists@.take(i as int));
        }
        if exists[i] {
            let ev = make_evidence(
                concat("policy://", paths[i].as_str()),
                EvidenceKind::PolicyRef,
                "repo-owner",
                actor,
                now,
                -60,
            );
            out.push(ev);
        }
        assert(evidence_views(out@) =~= policy_refs_spec(
            strs(paths@).take(i + 1),
            exists@.take(i + 1),
            now,
            actor@,
        ));
    }
    assert(strs(paths@).take(paths@.len() as int) =~= strs(paths@));
    assert(exists@.take(paths@.len() as int) =~= exists@);
    out
}

fn push_tail_evidence(
    out: &mut Vec<Evidence>,
    token: Option<String>,
    grant: Option<Evidence>,
    now: Timestamp,
    actor: &str,
)
    requires
        clock_ok(now),
    ensures
        evidence_views(final(out)@) == evidence_views(old(out)@) + tail_evidence(
            token,
            grant,
            now,
            actor@,
        ),
        token is Some && clock_in_four_digit_years(now) ==> stamp_reads_back(now, -5)
            && stamp_reads_back(now, 60),
{
    let ghost t = token;
    let ghost g = grant;
    match token {
        Some(tok) => {
            let ev = make_evidence(
                concat("human://", tok.as_str()),
                EvidenceKind::HumanConfirmation,
                "operator",
                actor,
                now,
                -5,
            );
            out.push(ev);
        },
        None => {},
    }
    match grant {
        Some(g) => out.push(g),
        None => {},
    }
    assert(evidence_views(out@) =~= evidence_views(old(out)@) + tail_evidence(t, g, now, actor@));
}

// ---------------------------------------------------------------------------
// Scope, precedence, revocation
// ---------------------------------------------------------------------------
/// `policy://` refs for each policy path.
pub open spec fn policy_uris(paths: Seq<Seq<char>>) -> Seq<Seq<char>> {
    paths.map_values(|p: Seq<char>| "policy://"@ + p)
}

/// The scope an edit may assert: the target (resolved, or joined onto the
/// resolved working directory when it does not exist yet) lies under the
/// resolved working directory and some policy document is cited. Otherwise
/// no scope is asserted and the kernel records `SCOPE_NOT_ASSERTED`.
pub open spec fn derive_scope_spec(
    target: Seq<char>,
    policy_paths: Seq<Seq<char>>,
    target_canonical: Option<Seq<char>>,
    cwd_canonical: Option<Seq<char>>,
) -> Option<ScopeView> {
    let target_abs = match target_canonical {
        Some(t) => Some(t),
        None => match cwd_canonical {
            Some(c) => Some(spec_path_join(c, target)),
            None => None,
        },
    };
    match (target_abs, cwd_canonical) {
        (Some(t), Some(c)) => {
            if spec_path_starts_with(t, c) && policy_paths.len() > 0 {
                Some(
                    ScopeView {
                        scope_includes_target: true,
                        provenance: Provenance::CallerAsserted,
                        evidence_refs: policy_uris(policy_paths),
                    },
                )
            } else {
                None
            }
        },
        _ => None,
    }
}

/// The scope a run or commit may assert: the working directory, when some
/// policy document is cited.
pub open spec fn scope_for_cwd_spec(cwd: Seq<char>, policy_paths: Seq<Seq<char>>) -> Option<
    ScopeView,
> {
    if policy_paths.len() == 0 {
        None
    } else {
        Some(
            ScopeView {
                scope_includes_target: true,
                provenance: Provenance::CallerAsserted,
                evidence_refs: policy_uris(policy_paths).push("cwd://"@ + cwd),
            },
        )
    }
}

fn policy_uri_list(paths: &Vec<String>) -> (r: Vec<String>)
    ensures
        strs(r@) == policy_uris(strs(paths@)),
{
    let mut out: Vec<String> = Vec::new();
    for i in 0..paths.len()
        invariant
            out@.len() == i,
            forall|j: int| 0 <= j < i ==> #[trigger] out@[j]@ == "policy://"@ + paths@[j]@,
    {
        out.push(concat("policy://", paths[i].as_str()));
    }
    assert(strs(out@) =~= policy_uris(strs(paths@)));
    out
}

/// The scope an edit may assert (see [`derive_scope_spec`]).
pub fn derive_scope(
    target: &str,
    policy_paths: &Vec<String>,
    target_canonical: &Option<String>,
    cwd_canonical: &Option<String>,
) -> (r: Option<ScopeAssertion>)
    ensures
        (match r {
            Some(s) => Some(s@),
            None => None,
        }) == derive_scope_spec(
            target@,
            strs(policy_paths@),
            crate::model::opt_str(*target_canonical),
            crate::model::opt_str(*cwd_canonical),
        ),
{
    let target_abs = match target_canonical {
        Some(t) => t.clone(),
        None => match cwd_canonical {
            Some(c) => path_join(c.as_str(), target),
            None => {
                return None;
            },
        },
    };
    let cwd_abs = match cwd_canonical {
        Some(c) => c,
        None => {
            return None;
        },
    };
    let inside = path_starts_with(target_abs.as_str(), cwd_abs.as_str());
    if !inside || policy_paths.len() == 0 {
        return None;
    }
    Some(
        ScopeAssertion {
            scope_includes_target: true,
            provenance: Provenance::CallerAsserted,
            evidence_refs: policy_uri_list(policy_paths),
        },
    )
}

/// The scope a run or commit may assert (see [`scope_for_cwd_spec`]).
pub fn scope_for_cwd(cwd: &str, policy_paths: &Vec<String>) -> (r: Option<ScopeAssertion>)
    ensures
        (match r {
            Some(s) => Some(s@),
            None => None,
        }) == scope_for_cwd_spec(cwd@, strs(policy_paths@)),
{
    if policy_paths.len() == 0 {
        return None;
    }
    let mut refs = policy_uri_list(policy_paths);
    refs.push(concat("cwd://", cwd));
    assert(strs(refs@) =~= policy_uris(strs(policy_paths@)).push("cwd://"@ + cwd@));
    Some(
        ScopeAssertion {
            scope_includes_target: true,
            provenance: Provenance::CallerAsserted,
            evidence_refs: refs,
        },
    )
}

/// The wrapper's precedence claim: the given resolution, caller-asserted,
/// with no supersession and no evidence.
pub open spec fn precedence_for_spec(resolution: PrecedenceResolution) -> PrecedenceView {
    PrecedenceView {
        resolution,
        superseded_by: None,
        provenance: Provenance::CallerAsserted,
        evidence_refs: seq![],
    }
}

/// The wrapper's precedence claim for a resolution.
pub fn precedence_for(resolution: PrecedenceResolution) -> (r: Precedence)
    ensures
        r@ == precedence_for_spec(resolution),
{
    let refs: Vec<String> = Vec::new();
    assert(strs(refs@) =~= seq![]);
    Precedence {
        resolution,
        superseded_by: None,
        provenance: Provenance::CallerAsserted,
        evidence_refs: refs,
    }
}

/// The wrapper's revocation claim: nothing revoked, nothing forbidden,
/// caller-asserted, no evidence.
pub open spec fn default_revocation_spec() -> RevocationView {
    RevocationView {
        basis_revoked: false,
        standing_forbidden: false,
        provenance: Provenance::CallerAsserted,
        evidence_refs: seq![],
    }
}

/// The wrapper's revocation claim.
pub fn default_revocation() -> (r: Revocation)
    ensures
        r@ == default_revocation_spec(),
{
    let refs: Vec<String> = Vec::new();
    assert(strs(refs@) =~= seq![]);
    Revocation {
        basis_revoked: false,
        standing_forbidden: false,
        provenance: Provenance::CallerAsserted,
        evidence_refs: refs,
    }
}


// ---------------------------------------------------------------------------
// Cooking
// ---------------------------------------------------------------------------
/// The intent cooked from an edit packet.
pub open spec fn cook_edit_spec(p: EditPacket, env: Surroundings) -> IntentView {
    let now = env.now;
    let actor = p.actor@;
    IntentView {
        actor,
        standing_class: p.standing,
        standing_provenance: Provenance::CallerAsserted,
        intended_action: "fs.edit"@,
        operation_class: OperationClass::Execute,
        target: p.target@,
        scope_assertion: derive_scope_spec(
            p.target@,
            strs(p.policy_paths@),
            crate::model::opt_str(env.target_canonical),
            crate::model::opt_str(env.cwd_canonical),
        ),
        rule: p.because@,
        evidence_refs: policy_refs_spec(strs(p.policy_paths@), env.policy_exists@, now, actor)
            + (match env.target_contents {
            Some(b) => seq![file_hash_spec(p.target@, b@, now, actor)],
            None => seq![],
        }) + tail_evidence(p.human_confirmation, p.grant_evidence, now, actor),
        precedence: precedence_for_spec(p.precedence),
        revocation: default_revocation_spec(),
        expected_effect: "modify "@ + p.target@,
        call_timestamp: stamp(now, 0),
        prev_receipt_hash: None,
    }
}

/// The intent cooked from a run packet.
pub open spec fn cook_run_spec(p: RunPacket, env: Surroundings) -> IntentView {
    let now = env.now;
    let actor = p.actor@;
    IntentView {
        actor,
        standing_class: p.standing,
        standing_provenance: Provenance::CallerAsserted,
        intended_action: "shell.run: "@ + p.command@,
        operation_class: p.operation_class,
        target: p.command@,
        scope_assertion: scope_for_cwd_spec(p.cwd@, strs(p.policy_paths@)),
        rule: p.because@,
        evidence_refs: policy_refs_spec(strs(p.policy_paths@), env.policy_exists@, now, actor)
            + tail_evidence(p.human_confirmation, p.grant_evidence, now, actor),
        precedence: precedence_for_spec(p.precedence),
        revocation: default_revocation_spec(),
        expected_effect: "execute command: "@ + p.command@,
        call_timestamp: stamp(now, 0),
        prev_receipt_hash: None,
    }
}

/// The intent cooked from a commit packet.
pub open spec fn cook_commit_spec(p: CommitPacket, env: Surroundings) -> IntentView {
    let now = env.now;
    let actor = p.actor@;
    IntentView {
        actor,
        standing_class: p.standing,
        standing_provenance: Provenance::CallerAsserted,
        intended_action: "git.commit"@,
        operation_class: p.operation_class,
        target: p.cwd@ + "@HEAD"@,
        scope_assertion: scope_for_cwd_spec(p.cwd@, strs(p.policy_paths@)),
        rule: p.because@,
        evidence_refs: policy_refs_spec(strs(p.policy_paths@), env.policy_exists@, now, actor)
            + (match env.git_status {
            Some(b) => seq![git_status_spec(p.cwd@, b@, now, actor)],
            None => seq![],
        }) + tail_evidence(p.human_confirmation, p.grant_evidence, now, actor),
        precedence: precedence_for_spec(p.precedence),
        revocation: default_revocation_spec(),
        expected_effect: "create a git commit on the current branch"@,
        call_timestamp: stamp(now, 0),
        prev_receipt_hash: None,
    }
}

/// Cooks an edit packet: policy refs for the policy documents that exist, a
/// file hash of the target when it could be read, the human confirmation
/// and the grant evidence when given; scope asserted only when the target
/// lies under the working directory and some policy is cited.
/// In a four-digit year the intent can always be classified: its call
/// timestamp parses and every provenance it asserts is `caller_asserted`.
pub fn cook_edit(p: EditPacket, env: &Surroundings) -> (r: Intent)
    requires
        surroundings_fit(*env, p.policy_paths@.len()),
    ensures
        r@ == cook_edit_spec(p, *env),
        four_digit_year(env.now) ==> !unaccounted_spec(r),
{
    let ghost p0 = p;
    let now = env.now;
    let mut evidence = gather_policy_refs(&p.policy_paths, &env.policy_exists, now, p.actor.as_str());
    let ghost policy_part = evidence_views(evidence@);
    // Pin the target's content by hash, when it could be read.
    match &env.target_contents {
        Some(bytes) => {
            let hash = sha256_hex(bytes.as_slice());
            let head = concat("file://", p.target.as_str());
            let with_hash = concat(head.as_str(), "#");
            let ev = make_evidence(
                concat(with_hash.as_str(), hash.as_str()),
                EvidenceKind::FileHash,
                "filesystem",
                p.actor.as_str(),
                now,
                0,
            );
            evidence.push(ev);
        },
        None => {},
    }
    assert(evidence_views(evidence@) =~= policy_part + match env.target_contents {
        Some(b) => seq![file_hash_spec(p0.target@, b@, now, p0.actor@)],
        None => seq![],
    });
    let scope = derive_scope(
        p.target.as_str(),
        &p.policy_paths,
        &env.target_canonical,
        &env.cwd_canonical,
    );
    push_tail_evidence(&mut evidence, p.human_confirmation, p.grant_evidence, now, p.actor.as_str());
    let expected_effect = concat("modify ", p.target.as_str());
    Intent {
        actor: p.actor,
        actor_standing: ActorStanding { class: p.standing, provenance: Provenance::CallerAsserted },
        intended_action: "fs.edit".to_owned(),
        operation_class: OperationClass::Execute,
        target: p.target,
        scope_assertion: scope,
        claimed_basis: ClaimedBasis { rule: p.because, evidence_refs: evidence },
        precedence: precedence_for(p.precedence),
        revocation: default_revocation(),
        expected_effect,
        call_timestamp: stamp_exec(now, 0),
        prev_receipt_hash: None,
    }
}

/// Cooks a run packet: the command is the target and part of the action
/// name; evidence is the existing policy refs, the human confirmation and
/// the grant evidence; scope is the working directory when policy is cited.
/// In a four-digit year the intent can always be classified: its call
/// timestamp parses and every provenance it asserts is `caller_asserted`.
pub fn cook_run(p: RunPacket, env: &Surroundings) -> (r: Intent)
    requires
        surroundings_fit(*env, p.policy_paths@.len()),
    ensures
        r@ == cook_run_spec(p, *env),
        four_digit_year(env.now) ==> !unaccounted_spec(r),
{
    let now = env.now;
    let mut evidence = gather_policy_refs(&p.policy_paths, &env.policy_exists, now, p.actor.as_str());
    push_tail_evidence(&mut evidence, p.human_confirmation, p.grant_evidence, now, p.actor.as_str());
    let scope = scope_for_cwd(p.cwd.as_str(), &p.policy_paths);
    let action = concat("shell.run: ", p.command.as_str());
    let effect = concat("execute command: ", p.command.as_str());
    Intent {
        actor: p.actor,
        actor_standing: ActorStanding { class: p.standing, provenance: Provenance::CallerAsserted },
        intended_action: action,
        operation_class: p.operation_class,
        target: p.command,
        scope_assertion: scope,
        claimed_basis: ClaimedBasis { rule: p.because, evidence_refs: evidence },
        precedence: precedence_for(p.precedence),
        revocation: default_revocation(),
        expected_effect: effect,
        call_timestamp: stamp_exec(now, 0),
        prev_receipt_hash: None,
    }
}

proof fn lemma_policy_refs_not_self_certified(
    paths: Seq<Seq<char>>,
    exists: Seq<bool>,
    now: Timestamp,
    actor: Seq<char>,
)
    ensures
        forall|k: int|
            0 <= k < policy_refs_spec(paths, exists, now, actor).len() ==> {
                &&& (#[trigger] policy_refs_spec(paths, exists, now, actor)[k]).issuer
                    == "repo-owner"@
                &&& policy_refs_spec(paths, exists, now, actor)[k].subject == actor
            },
    decreases paths.len(),
{
    if paths.len() > 0 {
        lemma_policy_refs_not_self_certified(paths.drop_last(), exists.drop_last(), now, actor);
    }
}

proof fn lemma_five_minutes(s: i64)
    requires
        -62167219200 <= s - 300,
        s <= 253402300799,
    ensures
        spec_minutes_between(s, 0, (s - 300) as i64, 0) == 5,
{
    let ls = s as int;
    let es = ls - 300;
    vstd::arithmetic::div_mod::lemma_fundamental_div_mod(ls, 86400);
    vstd::arithmetic::div_mod::lemma_fundamental_div_mod(es, 86400);
    assert(0 <= ls % 86400 < 86400) by {
        vstd::arithmetic::div_mod::lemma_mod_bound(ls, 86400);
    }
    assert(0 <= es % 86400 < 86400) by {
        vstd::arithmetic::div_mod::lemma_mod_bound(es, 86400);
    }
    assert((ls / 86400 - es / 86400) * 86400 + ls % 86400 - es % 86400 == 300) by (nonlinear_arith)
        requires
            ls == 86400 * (ls / 86400) + ls % 86400,
            es == 86400 * (es / 86400) + es % 86400,
            es == ls - 300,
    ;
}

/// A bind commit cooked with a human confirmation, with `git status` output,
/// without grant evidence and for an actor that is none of the cook's
/// issuers meets the bind row: the confirmation is five minutes old and the
/// command output is fresh.
proof fn lemma_cooked_bind_commit_basis(r: Intent, p: CommitPacket, env: Surroundings)
    requires
        r@ == cook_commit_spec(p, env),
        p.operation_class == OperationClass::Bind,
        p.human_confirmation is Some,
        env.git_status is Some,
        p.grant_evidence is None,
        p.actor@ != "repo-owner"@,
        p.actor@ != "git"@,
        p.actor@ != "operator"@,
        clock_ok(env.now),
        clock_in_four_digit_years(env.now),
        stamp_reads_back(env.now, -5),
        stamp_reads_back(env.now, 0),
        stamp_reads_back(env.now, 60),
    ensures
        basis_spec(r).status == BasisStatus::Satisfied,
{
    reveal(basis_spec);
    let now = env.now;
    let actor = p.actor@;
    let c = Timestamp { secs: now.secs, nanos: 0 };
    let evs = r.claimed_basis.evidence_refs@;
    let pol = policy_refs_spec(strs(p.policy_paths@), env.policy_exists@, now, actor);
    let n = pol.len() as int;
    lemma_policy_refs_not_self_certified(strs(p.policy_paths@), env.policy_exists@, now, actor);
    assert(evidence_views(evs) == pol + seq![git_status_spec(p.cwd@, env.git_status.unwrap()@, now, actor)]
        + seq![human_conf_spec(p.human_confirmation.unwrap()@, now, actor)]);
    assert(evs.len() == n + 2);
    assert(evs[n]@ == evidence_views(evs)[n]);
    assert(evs[n + 1]@ == evidence_views(evs)[n + 1]);
    assert(r.actor@ == actor);
    assert(parsed_instant(r.call_timestamp@) == Some(c));
    let clocks = clocks_spec(r);
    lemma_five_minutes(now.secs);
    // The git output: fresh command output, not self-certified.
    assert(clocks[n].valid_until == Some(Timestamp { secs: (now.secs + 3600) as i64, nanos: 0 }));
    assert(counts(r, clocks, c, n));
    assert(evs[n].kind == EvidenceKind::CommandOutput);
    assert(has_kind(r, clocks, c, EvidenceKind::CommandOutput));
    // The human confirmation: fresh and five minutes old.
    assert(clocks[n + 1].minutes_since_valid_from == Some(5i64));
    assert(counts(r, clocks, c, n + 1));
    assert(has_recent_confirmation(r, clocks, c));
    // Nothing is self-certified.
    assert forall|k: int| 0 <= k < evs.len() implies !is_self_cert(#[trigger] evs[k], r.actor@) by {
        assert(evs[k]@ == evidence_views(evs)[k]);
        if k < n {
            assert(evidence_views(evs)[k] == pol[k]);
        }
    }
    assert(!any_self_cert(r));
    assert(!r.revocation.basis_revoked) by {
        assert(r.revocation@ == default_revocation_spec());
    }
}

/// Cooks a commit packet: the existing policy refs, the output of
/// `git status --porcelain` as command output when it ran, the human
/// confirmation and the grant evidence; the target is the working
/// directory's `HEAD`.
/// In a four-digit year the intent can always be classified: its call
/// timestamp parses and every provenance it asserts is `caller_asserted`.
pub fn cook_commit(p: CommitPacket, env: &Surroundings) -> (r: Intent)
    requires
        surroundings_fit(*env, p.policy_paths@.len()),
    ensures
        r@ == cook_commit_spec(p, *env),
        four_digit_year(env.now) ==> !unaccounted_spec(r),
        p.operation_class == OperationClass::Bind && p.human_confirmation is Some
            && env.git_status is Some && p.grant_evidence is None && p.actor@ != "repo-owner"@
            && p.actor@ != "git"@ && p.actor@ != "operator"@ && clock_in_four_digit_years(env.now)
            ==> basis_spec(r).status == BasisStatus::Satisfied,
{
    let ghost p0 = p;
    let now = env.now;
    let mut evidence = gather_policy_refs(&p.policy_paths, &env.policy_exists, now, p.actor.as_str());
    let ghost policy_part = evidence_views(evidence@);
    // The repository state, as `git status --porcelain` printed it.
    match &env.git_status {
        Some(bytes) => {
            let hash = sha256_hex(bytes.as_slice());
            let head = concat("git://", p.cwd.as_str());
            let with_tag = concat(head.as_str(), "#status:");
            let ev = make_evidence(
                concat(with_tag.as_str(), hash.as_str()),
                EvidenceKind::CommandOutput,
                "git",
                p.actor.as_str(),
                now,
                0,
            );
            evidence.push(ev);
        },
        None => {},
    }
    assert(evidence_views(evidence@) =~= policy_part + match env.git_status {
        Some(b) => seq![git_status_spec(p0.cwd@, b@, now, p0.actor@)],
        None => seq![],
    });
    push_tail_evidence(&mut evidence, p.human_confirmation, p.grant_evidence, now, p.actor.as_str());
    let scope = scope_for_cwd(p.cwd.as_str(), &p.policy_paths);
    let target = concat(p.cwd.as_str(), "@HEAD");
    let call_timestamp = stamp_exec(now, 0);
    let r = Intent {
        actor: p.actor,
        actor_standing: ActorStanding { class: p.standing, provenance: Provenance::CallerAsserted },
        intended_action: "git.commit".to_owned(),
        operation_class: p.operation_class,
        target,
        scope_assertion: scope,
        claimed_basis: ClaimedBasis { rule: p.because, evidence_refs: evidence },
        precedence: precedence_for(p.precedence),
        revocation: default_revocation(),
        expected_effect: "create a git commit on the current branch".to_owned(),
        call_timestamp,
        prev_receipt_hash: None,
    };
    proof {
        assert(r@ =~= cook_commit_spec(p0, *env));
        if p0.operation_class == OperationClass::Bind && p0.human_confirmation is Some
            && env.git_status is Some && p0.grant_evidence is None && p0.actor@ != "repo-owner"@
            && p0.actor@ != "git"@ && p0.actor@ != "operator"@ && clock_in_four_digit_years(now) {
            lemma_cooked_bind_commit_basis(r, p0, *env);
        }
    }
    r
}


// ---------------------------------------------------------------------------
// Policy documents
// ---------------------------------------------------------------------------
/// The names of the repository-shaped policy documents this build looks
/// for, in order.
pub open spec fn policy_doc_names_spec() -> Seq<Seq<char>> {
    seq!["README.md"@]
}

/// The names of the repository-shaped policy documents this build looks
/// for, in order.
pub fn policy_doc_names() -> (r: Vec<String>)
    ensures
        strs(r@) == policy_doc_names_spec(),
{
    let mut out: Vec<String> = Vec::new();
    out.push("README.md".to_owned());
    assert(strs(out@) =~= policy_doc_names_spec());
    out
}

/// The paths looked for in `cwd`: each name joined onto it, in order.
pub open spec fn policy_doc_candidates_spec(cwd: Seq<char>, names: Seq<Seq<char>>) -> Seq<
    Seq<char>,
> {
    names.map_values(|n: Seq<char>| spec_path_join(cwd, n))
}

/// The candidates whose flag in `found` is set, in order.
pub open spec fn present_spec(candidates: Seq<Seq<char>>, found: Seq<bool>) -> Seq<Seq<char>>
    decreases candidates.len(),
{
    if candidates.len() == 0 {
        seq![]
    } else {
        let rest = present_spec(candidates.drop_last(), found.drop_last());
        if found[candidates.len() - 1] {
            rest.push(candidates.last())
        } else {
            rest
        }
    }
}

/// The paths to look for in `cwd`, one per name, in order.
pub fn policy_doc_candidates(cwd: &str, names: &Vec<String>) -> (r: Vec<String>)
    ensures
        strs(r@) == policy_doc_candidates_spec(cwd@, strs(names@)),
{
    let mut out: Vec<String> = Vec::new();
    for i in 0..names.len()
        invariant
            out@.len() == i,
            forall|j: int| 0 <= j < i ==> #[trigger] out@[j]@ == spec_path_join(cwd@, names@[j]@),
    {
        out.push(path_join(cwd, names[i].as_str()));
    }
    assert(strs(out@) =~= policy_doc_candidates_spec(cwd@, strs(names@)));
    out
}

/// The policy documents of `cwd`: the candidate for each of `names` whose
/// entry in `found` says it exists, in the order of `names`.
pub fn auto_detect_policy_paths(cwd: &str, names: &Vec<String>, found: &Vec<bool>) -> (r: Vec<
    String,
>)
    requires
        found.len() == names.len(),
    ensures
        strs(r@) == present_spec(policy_doc_candidates_spec(cwd@, strs(names@)), found@),
{
    let candidates = policy_doc_candidates(cwd, names);
    let ghost cs = strs(candidates@);
    assert(candidates@.len() == cs.len());
    let mut out: Vec<String> = Vec::new();
    for i in 0..candidates.len()
        invariant
            candidates.len() == found.len(),
            cs == strs(candidates@),
            strs(out@) == present_spec(cs.take(i as int), found@.take(i as int)),
    {
        proof {
            assert(cs.take(i + 1).drop_last() =~= cs.take(i as int));
            assert(found@.take(i + 1).drop_last() =~= found@.take(i as int));
        }
        if found[i] {
            out.push(candidates[i].clone());
        }
        assert(strs(out@) =~= present_spec(cs.take(i + 1), found@.take(i + 1)));
    }
    assert(cs.take(cs.len() as int) =~= cs);
    assert(found@.take(found@.len() as int) =~= found@);
    out
}

/// Some path of `paths` equals `p` as paths compare.
pub open spec fn has_path(paths: Seq<Seq<char>>, p: Seq<char>) -> bool {
    exists|k: int| 0 <= k < paths.len() && spec_path_eq(#[trigger] paths[k], p)
}

/// `user` followed by each detected path not already present.
pub open spec fn merge_spec(user: Seq<Seq<char>>, detected: Seq<Seq<char>>) -> Seq<Seq<char>>
    decreases detected.len(),
{
    if detected.len() == 0 {
        user
    } else {
        let m = merge_spec(user, detected.drop_last());
        if has_path(m, detected.last()) {
            m
        } else {
            m.push(detected.last())
        }
    }
}

fn has_path_exec(paths: &Vec<String>, p: &str) -> (r: bool)
    ensures
        r == has_path(strs(paths@), p@),
{
    for i in 0..paths.len()
        invariant
            forall|k: int| 0 <= k < i ==> !spec_path_eq(#[trigger] strs(paths@)[k], p@),
    {
        if path_eq(paths[i].as_str(), p) {
            assert(spec_path_eq(strs(paths@)[i as int], p@));
            return true;
        }
    }
    false
}

/// The user's policy paths, then each detected one that is not already
/// among them.
pub fn merge_policy_paths(user: Vec<String>, detected: &Vec<String>) -> (r: Vec<String>)
    ensures
        strs(r@) == merge_spec(strs(user@), strs(detected@)),
{
    let ghost u = strs(user@);
    let mut out = user;
    for i in 0..detected.len()
        invariant
            u == strs(user@),
            strs(out@) == merge_spec(u, strs(detected@).take(i as int)),
    {
        proof {
            assert(strs(detected@).take(i + 1).drop_last() =~= strs(detected@).take(i as int));
        }
        if !has_path_exec(&out, detected[i].as_str()) {
            out.push(detected[i].clone());
        }
        assert(strs(out@) =~= merge_spec(u, strs(detected@).take(i + 1)));
    }
    assert(strs(detected@).take(detected@.len() as int) =~= strs(detected@));
    out
}

} // verus!
