//! What the command line reports of an outcome: the exit code and the
//! one-line brief.
use vstd::prelude::*;
use vstd::string::StrSliceExecFns;

use crate::model::{SurfaceVerdict, strs};
use crate::paths::str_eq;

verus! {

/// Exit status of the command line for a verdict.
pub open spec fn exit_code_spec(v: SurfaceVerdict, strict: bool) -> u8 {
    if v == SurfaceVerdict::Unaccounted {
        2
    } else if strict && (v == SurfaceVerdict::Denied || v == SurfaceVerdict::Gap) {
        2
    } else {
        0
    }
}

/// The exit code for a verdict (see [`exit_code_spec`]).
pub fn exit_code(v: SurfaceVerdict, strict: bool) -> (r: u8)
    ensures
        r == exit_code_spec(v, strict),
{
    match v {
        SurfaceVerdict::Unaccounted => 2,
        SurfaceVerdict::Denied | SurfaceVerdict::Gap => if strict {
            2
        } else {
            0
        },
        _ => 0,
    }
}

/// The upper-case label of a verdict in the brief.
pub open spec fn brief_label_spec(v: SurfaceVerdict) -> Seq<char> {
    match v {
        SurfaceVerdict::Authorized => "AUTHORIZED"@,
        SurfaceVerdict::AdvisoryOnly => "ADVISORY_ONLY"@,
        SurfaceVerdict::Denied => "DENIED"@,
        SurfaceVerdict::Gap => "GAP"@,
        SurfaceVerdict::Unaccounted => "UNACCOUNTED"@,
    }
}

/// The upper-case label of a verdict in the brief.
pub fn brief_label(v: SurfaceVerdict) -> (r: &'static str)
    ensures
        r@ == brief_label_spec(v),
{
    match v {
        SurfaceVerdict::Authorized => "AUTHORIZED",
        SurfaceVerdict::AdvisoryOnly => "ADVISORY_ONLY",
        SurfaceVerdict::Denied => "DENIED",
        SurfaceVerdict::Gap => "GAP",
        SurfaceVerdict::Unaccounted => "UNACCOUNTED",
    }
}

/// `s` ends with `t`.
pub open spec fn ends_with(s: Seq<char>, t: Seq<char>) -> bool {
    t.len() <= s.len() && s.subrange(s.len() - t.len(), s.len() as int) == t
}

/// Codes the brief leaves out: the provenance and ladder bookkeeping.
pub open spec fn is_bookkeeping(c: Seq<char>) -> bool {
    ends_with(c, "_CALLER_ASSERTED_UNVERIFIED"@) || ends_with(c, "_LADDER_V1_FLAT"@)
}

/// The salient codes in order, without repeats, at most four.
pub open spec fn salient_spec(codes: Seq<Seq<char>>) -> Seq<Seq<char>>
    decreases codes.len(),
{
    if codes.len() == 0 {
        seq![]
    } else {
        let a = salient_spec(codes.drop_last());
        if a.len() >= 4 || is_bookkeeping(codes.last()) || a.contains(codes.last()) {
            a
        } else {
            a.push(codes.last())
        }
    }
}

/// The codes the brief shows: the salient ones, or a placeholder when none is.
pub open spec fn brief_reasons_spec(codes: Seq<Seq<char>>) -> Seq<Seq<char>> {
    if salient_spec(codes).len() == 0 {
        seq!["(no salient codes)"@]
    } else {
        salient_spec(codes)
    }
}

fn ends_with_exec(s: &str, t: &str) -> (r: bool)
    ensures
        r == ends_with(s@, t@),
{
    let n = s.unicode_len();
    let m = t.unicode_len();
    if m > n {
        return false;
    }
    for k in 0..m
        invariant
            n == s@.len(),
            m == t@.len(),
            m <= n,
            forall|j: int| 0 <= j < k ==> s@[n - m + j] == t@[j],
    {
        if s.get_char(n - m + k) != t.get_char(k) {
            assert(s@.subrange(n - m, n as int)[k as int] != t@[k as int]);
            return false;
        }
    }
    assert(s@.subrange(n - m, n as int) =~= t@);
    true
}

fn contains_string(v: &Vec<String>, c: &str) -> (r: bool)
    ensures
        r == strs(v@).contains(c@),
{
    for i in 0..v.len()
        invariant
            forall|j: int| 0 <= j < i ==> strs(v@)[j] != c@,
    {
        if str_eq(v[i].as_str(), c) {
            assert(strs(v@)[i as int] == c@);
            return true;
        }
    }
    false
}

/// The reason codes a one-line brief shows: leaving out the
/// `*_CALLER_ASSERTED_UNVERIFIED` and `*_LADDER_V1_FLAT` bookkeeping, the
/// first four distinct codes in order, or `(no salient codes)`.
pub fn brief_reasons(codes: &Vec<String>) -> (r: Vec<String>)
    ensures
        strs(r@) == brief_reasons_spec(strs(codes@)),
{
    let ghost cs = strs(codes@);
    let mut top: Vec<String> = Vec::new();
    for i in 0..codes.len()
        invariant
            cs == strs(codes@),
            strs(top@) == salient_spec(cs.take(i as int)),
    {
        proof {
            assert(cs.take(i + 1).drop_last() =~= cs.take(i as int));
            assert(cs.take(i + 1).last() == codes@[i as int]@);
        }
        let c = codes[i].as_str();
        let skip = ends_with_exec(c, "_CALLER_ASSERTED_UNVERIFIED") || ends_with_exec(
            c,
            "_LADDER_V1_FLAT",
        );
        if top.len() < 4 && !skip && !contains_string(&top, c) {
            top.push(c.to_owned());
        }
        assert(strs(top@) =~= salient_spec(cs.take(i + 1)));
    }
    assert(cs.take(cs.len() as int) =~= cs);
    if top.len() == 0 {
        top.push("(no salient codes)".to_owned());
        assert(strs(top@) =~= seq!["(no salient codes)"@]);
    }
    top
}

} // verus!
