//! The webhook ingestor: validates an inbound request's headers and
//! signature, parses the body, and admits the resulting event onto the relay
//! queue.  Validation fails fast: the first violation decides the answer.
//!
//! Header names are the canonical lowercase wire forms (HTTP header names
//! are case-insensitive; the HTTP layer normalizes them to lowercase before
//! handing them over).  The body is the raw JSON request body.

use vstd::prelude::*;
use crate::queue::{EnqueueError, Event, RelayQueue};
use crate::render::{json_body_ok, json_wf};
use crate::signature::{signature_accepted, verify_signature};
use crate::text::{spec_contains, str_contains, str_eq};

verus! {

/// The headers a webhook request must carry.
#[derive(Clone, Copy, Debug)]
pub enum GithubHeaders {
    HookID,
    Event,
    Deliver,
    Signature,
    Signature256,
    UserAgent,
    HookInstallationTargetType,
    HookInstallationTargetID,
}

impl GithubHeaders {
    /// Canonical lowercase wire name of the header.
    pub open spec fn spec_name(self) -> Seq<char> {
        match self {
            GithubHeaders::HookID => "x-github-hook-id"@,
            GithubHeaders::Event => "x-github-event"@,
            GithubHeaders::Deliver => "x-github-delivery"@,
            GithubHeaders::Signature => "x-hub-signature"@,
            GithubHeaders::Signature256 => "x-hub-signature-256"@,
            GithubHeaders::UserAgent => "user-agent"@,
            GithubHeaders::HookInstallationTargetType => "x-github-hook-installation-target-type"@,
            GithubHeaders::HookInstallationTargetID => "x-github-hook-installation-target-id"@,
        }
    }

    /// Canonical lowercase wire name of the header.
    pub fn as_str(&self) -> (r: &'static str)
        ensures
            r@ == self.spec_name(),
    {
        match self {
            GithubHeaders::HookID => "x-github-hook-id",
            GithubHeaders::Event => "x-github-event",
            GithubHeaders::Deliver => "x-github-delivery",
            GithubHeaders::Signature => "x-hub-signature",
            GithubHeaders::Signature256 => "x-hub-signature-256",
            GithubHeaders::UserAgent => "user-agent",
            GithubHeaders::HookInstallationTargetType => "x-github-hook-installation-target-type",
            GithubHeaders::HookInstallationTargetID => "x-github-hook-installation-target-id",
        }
    }

    /// The required headers, in validation order.
    pub fn iterator() -> (r: Vec<GithubHeaders>)
        ensures
            r@ == required_headers(),
    {
        let mut v: Vec<GithubHeaders> = Vec::new();
        v.push(GithubHeaders::HookID);
        v.push(GithubHeaders::Event);
        v.push(GithubHeaders::Deliver);
        v.push(GithubHeaders::Signature);
        v.push(GithubHeaders::Signature256);
        v.push(GithubHeaders::UserAgent);
        v.push(GithubHeaders::HookInstallationTargetType);
        v.push(GithubHeaders::HookInstallationTargetID);
        proof {
            assert(v@ =~= required_headers());
        }
        v
    }
}

/// The fixed required set, in validation order.
pub open spec fn required_headers() -> Seq<GithubHeaders> {
    seq![
        GithubHeaders::HookID,
        GithubHeaders::Event,
        GithubHeaders::Deliver,
        GithubHeaders::Signature,
        GithubHeaders::Signature256,
        GithubHeaders::UserAgent,
        GithubHeaders::HookInstallationTargetType,
        GithubHeaders::HookInstallationTargetID,
    ]
}

/// The value of the first header with the given name, if any.
pub open spec fn spec_lookup(h: Seq<(String, String)>, name: Seq<char>) -> Option<Seq<char>>
    decreases h.len(),
{
    if h.len() <= 0 {
        None
    } else if h[0].0@ == name {
        Some(h[0].1@)
    } else {
        spec_lookup(h.skip(1), name)
    }
}

/// Find the value of the first header with the given name.
pub fn header_lookup(headers: &Vec<(String, String)>, name: &str) -> (r: Option<String>)
    ensures
        match r {
            Some(v) => spec_lookup(headers@, name@) == Some(v@),
            None => spec_lookup(headers@, name@) is None,
        },
{
    proof {
        assert(headers@.skip(0) =~= headers@);
    }
    for i in 0..headers.len()
        invariant
            spec_lookup(headers@, name@) == spec_lookup(headers@.skip(i as int), name@),
    {
        proof {
            assert(headers@.skip(i as int)[0] == headers@[i as int]);
        }
        if str_eq(headers[i].0.as_str(), name) {
            return Some(headers[i].1.clone());
        }
        proof {
            assert(headers@.skip(i as int).skip(1) =~= headers@.skip(i as int + 1));
        }
    }
    proof {
        assert(headers@.skip(headers@.len() as int).len() == 0);
    }
    None
}

/// Every required header is present.
pub open spec fn headers_complete(h: Seq<(String, String)>) -> bool {
    forall|g: GithubHeaders| #[trigger] spec_lookup(h, g.spec_name()) is Some
}

/// The sender identity the user-agent header must carry.
pub open spec fn ua_ok(h: Seq<(String, String)>) -> bool {
    match spec_lookup(h, GithubHeaders::UserAgent.spec_name()) {
        Some(v) => spec_contains(v, "GitHub-Hookshot/"@),
        None => false,
    }
}

/// The signature header carries the expected signature over the body.
pub open spec fn sig_ok(secret: Seq<u8>, h: Seq<(String, String)>, body: Seq<u8>) -> bool {
    match spec_lookup(h, GithubHeaders::Signature256.spec_name()) {
        Some(v) => signature_accepted(secret, body, v),
        None => false,
    }
}

/// The ingestor's answer to a webhook submission.
#[derive(Clone, Copy, PartialEq, Eq, Structural, Debug)]
pub enum AcceptanceStatus {
    /// The event was validated and enqueued.
    Accepted,
    /// The request fails structural or header validation.
    Malformed,
    /// The signature does not match the body under the configured secret.
    Unauthorized,
    /// The queue is at capacity; the caller should retry later.
    Overloaded,
    /// The queue is closed by shutdown.
    Unavailable,
}

/// The HTTP status code each answer maps to.
pub open spec fn spec_status_code(s: AcceptanceStatus) -> u16 {
    match s {
        AcceptanceStatus::Accepted => 202,
        AcceptanceStatus::Malformed => 400,
        AcceptanceStatus::Unauthorized => 400,
        AcceptanceStatus::Overloaded => 503,
        AcceptanceStatus::Unavailable => 503,
    }
}

/// The HTTP status code for an ingestor answer.
pub fn status_code(s: &AcceptanceStatus) -> (r: u16)
    ensures
        r == spec_status_code(*s),
{
    match s {
        AcceptanceStatus::Accepted => 202,
        AcceptanceStatus::Malformed => 400,
        AcceptanceStatus::Unauthorized => 400,
        AcceptanceStatus::Overloaded => 503,
        AcceptanceStatus::Unavailable => 503,
    }
}

/// The verdict of header validation alone: empty header set, a missing
/// required header or a foreign user agent are malformed; a wrong signature
/// is unauthorized.  `None` means the headers pass.
pub open spec fn spec_header_verdict(
    secret: Seq<u8>,
    headers: Seq<(String, String)>,
    body: Seq<u8>,
) -> Option<AcceptanceStatus> {
    if headers.len() == 0 {
        Some(AcceptanceStatus::Malformed)
    } else if !headers_complete(headers) {
        Some(AcceptanceStatus::Malformed)
    } else if !ua_ok(headers) {
        Some(AcceptanceStatus::Malformed)
    } else if !sig_ok(secret, headers, body) {
        Some(AcceptanceStatus::Unauthorized)
    } else {
        None
    }
}

/// The verdict of the whole validation sequence: headers first, then the
/// body must parse as JSON.  `None` means the request is admitted.
pub open spec fn validation_verdict(
    secret: Seq<u8>,
    headers: Seq<(String, String)>,
    body: Seq<u8>,
) -> Option<AcceptanceStatus> {
    match spec_header_verdict(secret, headers, body) {
        Some(s) => Some(s),
        None => if !json_wf(body) {
            Some(AcceptanceStatus::Malformed)
        } else {
            None
        },
    }
}

/// The answer the ingestor owes for a request, given the queue's state:
/// validation first, then shutdown, then backpressure, then acceptance.
pub open spec fn decide(
    secret: Seq<u8>,
    headers: Seq<(String, String)>,
    body: Seq<u8>,
    qlen: nat,
    cap: nat,
    closed: bool,
) -> AcceptanceStatus {
    match validation_verdict(secret, headers, body) {
        Some(s) => s,
        None => if closed {
            AcceptanceStatus::Unavailable
        } else if qlen >= cap {
            AcceptanceStatus::Overloaded
        } else {
            AcceptanceStatus::Accepted
        },
    }
}

/// Check that the user-agent value names the expected sender.
pub fn handle_user_agent_value(val: &str) -> (r: Result<(), ()>)
    ensures
        r is Ok <==> spec_contains(val@, "GitHub-Hookshot/"@),
{
    if str_contains(val, "GitHub-Hookshot/") {
        Ok(())
    } else {
        Err(())
    }
}

/// Validate the header collection of a request: presence of every required
/// header, the sender identity in the user agent, and the signature over the
/// raw body under the shared secret.
pub fn handle_headers(headers: &Vec<(String, String)>, webhook_secret: &[u8], body: &[u8]) -> (r:
    Result<(), AcceptanceStatus>)
    ensures
        match r {
            Ok(()) => spec_header_verdict(webhook_secret@, headers@, body@) is None,
            Err(s) => spec_header_verdict(webhook_secret@, headers@, body@) == Some(s),
        },
{
    if headers.len() == 0 {
        return Err(AcceptanceStatus::Malformed);
    }
    let required = GithubHeaders::iterator();
    for i in 0..required.len()
        invariant
            required@ == required_headers(),
            forall|j: int|
                0 <= j < i ==> #[trigger] spec_lookup(headers@, required@[j].spec_name()) is Some,
    {
        if header_lookup(headers, required[i].as_str()).is_none() {
            proof {
                assert(spec_lookup(headers@, required@[i as int].spec_name()) is None);
                assert(!headers_complete(headers@));
            }
            return Err(AcceptanceStatus::Malformed);
        }
    }
    proof {
        assert forall|g: GithubHeaders| #[trigger] spec_lookup(headers@, g.spec_name()) is Some by {
            let req = required_headers();
            match g {
                GithubHeaders::HookID => assert(req[0] == g),
                GithubHeaders::Event => assert(req[1] == g),
                GithubHeaders::Deliver => assert(req[2] == g),
                GithubHeaders::Signature => assert(req[3] == g),
                GithubHeaders::Signature256 => assert(req[4] == g),
                GithubHeaders::UserAgent => assert(req[5] == g),
                GithubHeaders::HookInstallationTargetType => assert(req[6] == g),
                GithubHeaders::HookInstallationTargetID => assert(req[7] == g),
            }
        }
    }
    match header_lookup(headers, GithubHeaders::UserAgent.as_str()) {
        Some(v) => {
            if handle_user_agent_value(v.as_str()).is_err() {
                return Err(AcceptanceStatus::Malformed);
            }
        },
        None => {
            proof {
                assert(spec_lookup(headers@, GithubHeaders::UserAgent.spec_name()) is Some);
            }
            return Err(AcceptanceStatus::Malformed);
        },
    }
    match header_lookup(headers, GithubHeaders::Signature256.as_str()) {
        Some(v) => {
            if !verify_signature(webhook_secret, body, v.as_str()) {
                return Err(AcceptanceStatus::Unauthorized);
            }
        },
        None => {
            proof {
                assert(spec_lookup(headers@, GithubHeaders::Signature256.spec_name()) is Some);
            }
            return Err(AcceptanceStatus::Unauthorized);
        },
    }
    Ok(())
}

/// Byte-for-byte copy of a slice.
fn clone_bytes(v: &[u8]) -> (r: Vec<u8>)
    ensures
        r@ == v@,
{
    let mut out: Vec<u8> = Vec::new();
    for i in 0..v.len()
        invariant
            out@ =~= v@.take(i as int),
    {
        out.push(v[i]);
        proof {
            assert(v@.take(i as int).push(v@[i as int]) =~= v@.take(i as int + 1));
        }
    }
    proof {
        assert(v@.take(v@.len() as int) =~= v@);
    }
    out
}

/// Run the whole validation sequence over a request and construct the event
/// it carries: its kind from the event-type header, its id from the
/// delivery-id header, its payload the verbatim body.
pub fn validate_request(webhook_secret: &[u8], headers: &Vec<(String, String)>, body: &Vec<u8>) -> (r:
    Result<Event, AcceptanceStatus>)
    ensures
        match r {
            Ok(e) => {
                &&& validation_verdict(webhook_secret@, headers@, body@) is None
                &&& Some(e.kind@) == spec_lookup(headers@, GithubHeaders::Event.spec_name())
                &&& Some(e.id@) == spec_lookup(headers@, GithubHeaders::Deliver.spec_name())
                &&& e.payload@ == body@
            },
            Err(s) => validation_verdict(webhook_secret@, headers@, body@) == Some(s),
        },
{
    match handle_headers(headers, webhook_secret, body.as_slice()) {
        Ok(()) => {},
        Err(s) => {
            return Err(s);
        },
    }
    if !json_body_ok(body.as_slice()) {
        return Err(AcceptanceStatus::Malformed);
    }
    let kind = match header_lookup(headers, GithubHeaders::Event.as_str()) {
        Some(v) => v,
        None => {
            proof {
                assert(spec_lookup(headers@, GithubHeaders::Event.spec_name()) is Some);
            }
            return Err(AcceptanceStatus::Malformed);
        },
    };
    let id = match header_lookup(headers, GithubHeaders::Deliver.as_str()) {
        Some(v) => v,
        None => {
            proof {
                assert(spec_lookup(headers@, GithubHeaders::Deliver.spec_name()) is Some);
            }
            return Err(AcceptanceStatus::Malformed);
        },
    };
    Ok(Event { id, kind, payload: clone_bytes(body.as_slice()) })
}

/// Handle a webhook submission end to end: validate it, and on success
/// enqueue the event it carries.  The answer is exactly what [`decide`]
/// states for the request and the queue's prior state; a refused request
/// leaves the queue untouched.
pub fn handle(webhook_secret: &[u8], headers: &Vec<(String, String)>, body: &Vec<u8>, queue:
    &mut RelayQueue) -> (r: AcceptanceStatus)
    requires
        old(queue).wf(),
    ensures
        final(queue).wf(),
        final(queue).spec_capacity() == old(queue).spec_capacity(),
        final(queue).spec_closed() == old(queue).spec_closed(),
        final(queue).spec_taken() == old(queue).spec_taken(),
        r == decide(
            webhook_secret@,
            headers@,
            body@,
            old(queue)@.len(),
            old(queue).spec_capacity(),
            old(queue).spec_closed(),
        ),
        r is Accepted ==> {
            &&& final(queue)@.len() == old(queue)@.len() + 1
            &&& final(queue)@ == old(queue)@.push(final(queue)@.last())
            &&& Some(final(queue)@.last().kind@) == spec_lookup(
                headers@,
                GithubHeaders::Event.spec_name(),
            )
            &&& Some(final(queue)@.last().id@) == spec_lookup(
                headers@,
                GithubHeaders::Deliver.spec_name(),
            )
            &&& final(queue)@.last().payload@ == body@
            &&& final(queue).spec_accepted() == old(queue).spec_accepted().push(
                final(queue)@.last(),
            )
        },
        !(r is Accepted) ==> {
            &&& final(queue)@ == old(queue)@
            &&& final(queue).spec_accepted() == old(queue).spec_accepted()
        },
{
    match validate_request(webhook_secret, headers, body) {
        Err(s) => s,
        Ok(e) => match queue.enqueue(e) {
            Ok(()) => AcceptanceStatus::Accepted,
            Err(EnqueueError::Full) => AcceptanceStatus::Overloaded,
            Err(EnqueueError::Closed) => AcceptanceStatus::Unavailable,
        },
    }
}

/// A request missing any required header is refused as malformed, whatever
/// the rest of the request holds; by [`handle`]'s contract no event reaches
/// the queue for it.
pub proof fn lemma_missing_header_malformed(
    secret: Seq<u8>,
    headers: Seq<(String, String)>,
    body: Seq<u8>,
    g: GithubHeaders,
)
    requires
        spec_lookup(headers, g.spec_name()) is None,
    ensures
        validation_verdict(secret, headers, body) == Some(AcceptanceStatus::Malformed),
{
    assert(!headers_complete(headers));
}

/// Backpressure: once an open queue holds as many undelivered events as its
/// capacity, the next request is answered `Overloaded`, however valid it is;
/// by [`handle`]'s contract the queue keeps exactly the events it held, so
/// nothing is lost or duplicated — the new event is simply rejected.
pub proof fn lemma_backpressure(
    secret: Seq<u8>,
    headers: Seq<(String, String)>,
    body: Seq<u8>,
    qlen: nat,
    cap: nat,
)
    requires
        validation_verdict(secret, headers, body) is None,
        qlen >= cap,
    ensures
        decide(secret, headers, body, qlen, cap, false) == AcceptanceStatus::Overloaded,
{
}

} // verus!
