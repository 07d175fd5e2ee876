//! The status-check surface: a static liveness report for the two services
//! the relay bridges, and its JSON rendering.

use vstd::prelude::*;

verus! {

/// Health of the two sides of the relay, as reported by `GET /`.
pub struct Status {
    pub discord: bool,
    pub github: bool,
}

/// What the JSON rendering of a [`Status`] looks like.
pub open spec fn spec_status_json(discord: bool, github: bool) -> Seq<char> {
    "{\"discord\":"@ + spec_bool_json(discord) + ",\"github\":"@ + spec_bool_json(github) + "}"@
}

pub open spec fn spec_bool_json(b: bool) -> Seq<char> {
    if b {
        "true"@
    } else {
        "false"@
    }
}

/// Report the health of both services. Both are reported live while the
/// process runs: the relay holds no per-service failure state.
pub fn check_status() -> (s: Status)
    ensures
        s.discord,
        s.github,
{
    Status { discord: true, github: true }
}

/// Render a [`Status`] as the JSON object `{"discord": .., "github": ..}`.
pub fn status_json(s: &Status) -> (r: String)
    ensures
        r@ == spec_status_json(s.discord, s.github),
{
    let mut out = String::from_str("{\"discord\":");
    out.append(if s.discord {
        "true"
    } else {
        "false"
    });
    out.append(",\"github\":");
    out.append(if s.github {
        "true"
    } else {
        "false"
    });
    out.append("}");
    out
}

} // verus!
