//! Timestamps and standing grants.

use wicket::grant::{apply_grant, grant_evidence, validate, Grant, GrantValidation, ResolvedPaths};
use wicket::time::{parse_ts, Timestamp, MAX_SECS, MIN_SECS};
use wicket::{EvidenceKind, StandingClass};

const T_1000: i64 = 1778320800; // 2026-05-09T10:00:00Z
const T_1200: i64 = 1778328000; // 2026-05-09T12:00:00Z
const T_1800: i64 = 1778349600; // 2026-05-09T18:00:00Z
const T_1900: i64 = 1778353200; // 2026-05-09T19:00:00Z

fn at(secs: i64) -> Timestamp {
    Timestamp { secs, nanos: 0 }
}

fn grant() -> Grant {
    Grant {
        schema: "wicket-grant/v1".to_string(),
        actor: "agent-7".to_string(),
        standing: StandingClass::Execute,
        scope_root: "/work/repo".to_string(),
        operations: vec!["edit".to_string(), "run".to_string(), "commit".to_string()],
        issued_by: "maintainer".to_string(),
        issued_at: "2026-05-09T10:00:00Z".to_string(),
        expires_at: "2026-05-09T18:00:00Z".to_string(),
        basis: "interactive coding session approval".to_string(),
        grant_id: None,
    }
}

fn inside() -> ResolvedPaths {
    ResolvedPaths { scope_root: "/work/repo".to_string(), target: "/work/repo/src/lib.rs".to_string() }
}

#[test]
fn parse_reads_instants_in_utc() {
    assert_eq!(parse_ts("2026-05-09T23:14:02Z"), Some(Timestamp { secs: 1778368442, nanos: 0 }));
    assert_eq!(parse_ts("2026-05-09T23:14:02+02:00"), Some(Timestamp { secs: 1778361242, nanos: 0 }));
    assert_eq!(
        parse_ts("2026-05-09T23:14:02.5Z"),
        Some(Timestamp { secs: 1778368442, nanos: 500_000_000 })
    );
    assert_eq!(parse_ts("yesterday"), None);
    assert_eq!(parse_ts(""), None);
}

#[test]
fn representable_range_matches_chrono() {
    assert!(chrono::DateTime::from_timestamp(MIN_SECS, 0).is_some());
    assert!(chrono::DateTime::from_timestamp(MIN_SECS - 1, 0).is_none());
    assert!(chrono::DateTime::from_timestamp(MAX_SECS, 999_999_999).is_some());
    assert!(chrono::DateTime::from_timestamp(MAX_SECS + 1, 0).is_none());
}

#[test]
fn valid_grant_validates() {
    assert!(matches!(validate(&grant(), "agent-7", "edit", &inside(), at(T_1200)), GrantValidation::Valid));
    // The window is closed at both ends.
    assert!(matches!(validate(&grant(), "agent-7", "run", &inside(), at(T_1000)), GrantValidation::Valid));
    assert!(matches!(validate(&grant(), "agent-7", "commit", &inside(), at(T_1800)), GrantValidation::Valid));
}

#[test]
fn schema_mismatch() {
    let mut g = grant();
    g.schema = "wicket-grant/v0".to_string();
    match validate(&g, "agent-7", "edit", &inside(), at(T_1200)) {
        GrantValidation::SchemaMismatch { found, expected } => {
            assert_eq!(found, "wicket-grant/v0");
            assert_eq!(expected, "wicket-grant/v1");
        }
        _ => panic!("expected SchemaMismatch"),
    }
}

#[test]
fn actor_mismatch() {
    match validate(&grant(), "someone-else", "edit", &inside(), at(T_1200)) {
        GrantValidation::ActorMismatch { grant, intent } => {
            assert_eq!(grant, "agent-7");
            assert_eq!(intent, "someone-else");
        }
        _ => panic!("expected ActorMismatch"),
    }
}

#[test]
fn operation_not_permitted() {
    match validate(&grant(), "agent-7", "deploy", &inside(), at(T_1200)) {
        GrantValidation::OperationNotPermitted { permitted, requested } => {
            assert_eq!(permitted, vec!["edit", "run", "commit"]);
            assert_eq!(requested, "deploy");
        }
        _ => panic!("expected OperationNotPermitted"),
    }
}

#[test]
fn unparseable_timestamps() {
    let mut g = grant();
    g.issued_at = "soon".to_string();
    match validate(&g, "agent-7", "edit", &inside(), at(T_1200)) {
        GrantValidation::UnparseableTimestamp { field, value } => {
            assert_eq!(field, "issued_at");
            assert_eq!(value, "soon");
        }
        _ => panic!("expected UnparseableTimestamp"),
    }
    let mut g = grant();
    g.expires_at = "later".to_string();
    match validate(&g, "agent-7", "edit", &inside(), at(T_1200)) {
        GrantValidation::UnparseableTimestamp { field, .. } => assert_eq!(field, "expires_at"),
        _ => panic!("expected UnparseableTimestamp"),
    }
}

#[test]
fn outside_the_window() {
    match validate(&grant(), "agent-7", "edit", &inside(), at(T_1000 - 3600)) {
        GrantValidation::NotYetValid { issued_at, now } => {
            assert_eq!(issued_at, "2026-05-09T10:00:00Z");
            assert_eq!(now, "2026-05-09T09:00:00+00:00");
        }
        _ => panic!("expected NotYetValid"),
    }
    match validate(&grant(), "agent-7", "edit", &inside(), at(T_1900)) {
        GrantValidation::Expired { expires_at, now } => {
            assert_eq!(expires_at, "2026-05-09T18:00:00Z");
            assert_eq!(now, "2026-05-09T19:00:00+00:00");
        }
        _ => panic!("expected Expired"),
    }
}

#[test]
fn target_outside_scope_root() {
    let paths = ResolvedPaths { scope_root: "/work/repo".to_string(), target: "/work/repository/x".to_string() };
    match validate(&grant(), "agent-7", "edit", &paths, at(T_1200)) {
        GrantValidation::ScopeOutOfRange { scope_root, target } => {
            assert_eq!(scope_root, "/work/repo");
            assert_eq!(target, "/work/repository/x");
        }
        _ => panic!("expected ScopeOutOfRange"),
    }
}

#[test]
fn grant_evidence_points_at_the_grant() {
    let ev = grant_evidence(&grant(), "grants/g.json", "agent-7", at(T_1200));
    assert_eq!(ev.kind, EvidenceKind::PolicyRef);
    assert_eq!(ev.issuer, "maintainer");
    assert_eq!(ev.subject, "agent-7");
    assert_eq!(ev.valid_from, "2026-05-09T10:00:00Z");
    assert_eq!(ev.valid_until, "2026-05-09T18:00:00Z");
    assert!(ev.reference.starts_with("wicket-grant://grants/g.json#sha256:"));
    assert_eq!(ev.reference.len(), "wicket-grant://grants/g.json#".len() + 71);

    // The id is the address of the canonical body without grant_id.
    let body = "{\"actor\":\"agent-7\",\"basis\":\"interactive coding session approval\",\"expires_at\":\"2026-05-09T18:00:00Z\",\"issued_at\":\"2026-05-09T10:00:00Z\",\"issued_by\":\"maintainer\",\"operations\":[\"edit\",\"run\",\"commit\"],\"schema\":\"wicket-grant/v1\",\"scope_root\":\"/work/repo\",\"standing\":\"execute\"}";
    let expected = format!("wicket-grant://grants/g.json#{}", wicket::digest::sha256_hex(body.as_bytes()));
    assert_eq!(ev.reference, expected);

    let mut with_id = grant();
    with_id.grant_id = Some("sha256:given".to_string());
    let ev = grant_evidence(&with_id, "g.json", "agent-7", at(T_1200));
    assert_eq!(ev.reference, "wicket-grant://g.json#sha256:given");
}

#[test]
fn unparseable_expiry_falls_back_to_now() {
    let mut g = grant();
    g.expires_at = "never".to_string();
    let ev = grant_evidence(&g, "g.json", "agent-7", at(T_1200));
    assert_eq!(ev.valid_until, "2026-05-09T12:00:00Z");
}

#[test]
fn applying_a_grant_elevates_standing_or_explains_refusal() {
    match apply_grant(&grant(), "g.json", "agent-7", "edit", &inside(), at(T_1200)) {
        Ok((standing, ev)) => {
            assert_eq!(standing, StandingClass::Execute);
            assert_eq!(ev.kind, EvidenceKind::PolicyRef);
        }
        Err(_) => panic!("expected the grant to apply"),
    }
    assert!(matches!(
        apply_grant(&grant(), "g.json", "agent-7", "edit", &inside(), at(T_1900)),
        Err(GrantValidation::Expired { .. })
    ));
}

#[test]
fn refusals_are_reported_with_their_code_and_values() {
    let mut g = grant();
    g.schema = "wicket-grant/v0".to_string();
    assert_eq!(
        validate(&g, "agent-7", "edit", &inside(), at(T_1200)).message(),
        "GRANT_SCHEMA_MISMATCH: found \"wicket-grant/v0\", expected \"wicket-grant/v1\""
    );
    assert_eq!(
        validate(&grant(), "agent-\"9\"", "edit", &inside(), at(T_1200)).message(),
        "GRANT_ACTOR_MISMATCH: grant is for \"agent-7\", intent actor is \"agent-\\\"9\\\"\""
    );
    let mut g = grant();
    g.operations = vec!["edit".to_string(), "run".to_string()];
    assert_eq!(
        validate(&g, "agent-7", "commit", &inside(), at(T_1200)).message(),
        "GRANT_OPERATION_NOT_PERMITTED: requested \"commit\" not in permitted [\"edit\", \"run\"]"
    );
    let mut g = grant();
    g.operations = vec![];
    assert_eq!(
        validate(&g, "agent-7", "edit", &inside(), at(T_1200)).message(),
        "GRANT_OPERATION_NOT_PERMITTED: requested \"edit\" not in permitted []"
    );
    assert_eq!(
        validate(&grant(), "agent-7", "edit", &inside(), at(T_1900)).message(),
        "GRANT_EXPIRED: expires_at=2026-05-09T18:00:00Z, now=2026-05-09T19:00:00+00:00"
    );
    assert_eq!(
        validate(&grant(), "agent-7", "edit", &inside(), at(T_1000 - 1)).message(),
        "GRANT_NOT_YET_VALID: issued_at=2026-05-09T10:00:00Z, now=2026-05-09T09:59:59+00:00"
    );
    let outside = ResolvedPaths { scope_root: "/work/repo".to_string(), target: "/etc/passwd".to_string() };
    assert_eq!(
        validate(&grant(), "agent-7", "edit", &outside, at(T_1200)).message(),
        "GRANT_OUT_OF_SCOPE: scope_root=/work/repo does not contain target=/etc/passwd"
    );
    let mut g = grant();
    g.issued_at = "soon".to_string();
    assert_eq!(
        validate(&g, "agent-7", "edit", &inside(), at(T_1200)).message(),
        "GRANT_UNPARSEABLE_TIMESTAMP: field=issued_at value=\"soon\""
    );
    assert_eq!(validate(&grant(), "agent-7", "edit", &inside(), at(T_1200)).message(), "valid");
}

/// The minute count as the library states it, written out in plain Rust.
fn stated_minutes(ls: i64, ln: u32, es: i64, en: u32) -> i64 {
    let (ls, ln, es, en) = (ls as i128, ln as i128, es as i128, en as i128);
    let (day_l, day_e) = (ls.div_euclid(86400), es.div_euclid(86400));
    let (tod_l, tod_e) = (ls.rem_euclid(86400), es.rem_euclid(86400));
    let tod = if tod_l > tod_e && en >= 1_000_000_000 {
        tod_l - tod_e + 1
    } else if tod_l < tod_e && ln >= 1_000_000_000 {
        tod_l - tod_e - 1
    } else {
        tod_l - tod_e
    };
    let frac = ln - en;
    let secs = (day_l - day_e) * 86400 + tod + frac.div_euclid(1_000_000_000);
    let nanos = frac.rem_euclid(1_000_000_000);
    let whole = if secs < 0 && nanos > 0 { secs + 1 } else { secs };
    (whole / 60) as i64
}

#[test]
fn minute_count_matches_chrono() {
    let secs = [
        0i64, 59, 60, 86399, 86400, -1, -59, -60, -61, -86401, 1778368442, 1778368442 - 300,
        1778368442 + 3599, 1778368442 - 3661, 1778367599, -62167219200, 253402300799,
    ];
    let nanos = [0u32, 1, 500_000_000, 999_999_999, 1_000_000_000, 1_999_999_999];
    for &a in &secs {
        for &an in &nanos {
            if an >= 1_000_000_000 && a.rem_euclid(60) != 59 {
                continue;
            }
            for &b in &secs {
                for &bn in &nanos {
                    if bn >= 1_000_000_000 && b.rem_euclid(60) != 59 {
                        continue;
                    }
                    let l = chrono::DateTime::from_timestamp(a, an).unwrap();
                    let e = chrono::DateTime::from_timestamp(b, bn).unwrap();
                    assert_eq!((l - e).num_minutes(), stated_minutes(a, an, b, bn), "{a}.{an} - {b}.{bn}");
                }
            }
        }
    }
}
