//! End-to-end tests of the ingestion pipeline: header validation, signature
//! verification over real HMAC-SHA-256 tags, enqueueing, backpressure and
//! FIFO order.

use gh_relay::ingest::{
    handle, handle_user_agent_value, status_code, validate_request, AcceptanceStatus,
    GithubHeaders,
};
use gh_relay::queue::{EnqueueError, Event, RelayQueue};
use gh_relay::render::format_message;
use gh_relay::signature::verify_signature;
use hmac::{KeyInit, Mac};

const SECRET: &[u8] = b"test-webhook-secret";

fn hex_char(n: u8) -> char {
    if n < 10 {
        (n + b'0') as char
    } else {
        (n - 10 + b'a') as char
    }
}

/// The signature header value the sender would compute for `body`.
fn sign(secret: &[u8], body: &[u8]) -> String {
    let mut mac = <hmac::Hmac<sha2::Sha256> as KeyInit>::new_from_slice(secret)
        .expect("any key length works");
    mac.update(body);
    let digest = mac.finalize().into_bytes();
    let mut s = String::from("sha256=");
    for b in digest.iter() {
        s.push(hex_char(b >> 4));
        s.push(hex_char(b & 15));
    }
    s
}

fn full_headers(secret: &[u8], body: &[u8], kind: &str) -> Vec<(String, String)> {
    vec![
        ("x-github-hook-id".to_string(), "12345".to_string()),
        ("x-github-event".to_string(), kind.to_string()),
        ("x-github-delivery".to_string(), "72d3162e-cc78-11e3".to_string()),
        ("x-hub-signature".to_string(), "sha1=unused".to_string()),
        ("x-hub-signature-256".to_string(), sign(secret, body)),
        ("user-agent".to_string(), "GitHub-Hookshot/044aadd".to_string()),
        ("x-github-hook-installation-target-type".to_string(), "repository".to_string()),
        ("x-github-hook-installation-target-id".to_string(), "79929171".to_string()),
    ]
}

#[test]
fn accepted_end_to_end() {
    let body = b"{\"action\":\"opened\"}".to_vec();
    let headers = full_headers(SECRET, &body, "issues");
    let mut q = RelayQueue::new(16);
    let r = handle(SECRET, &headers, &body, &mut q);
    assert_eq!(r, AcceptanceStatus::Accepted);
    assert_eq!(status_code(&r), 202);
    assert_eq!(q.len(), 1);
    let e = q.dequeue().expect("one event was accepted");
    assert_eq!(e.kind, "issues");
    assert_eq!(e.id, "72d3162e-cc78-11e3");
    assert_eq!(e.payload, body);
    let msg = format_message(&e.payload).expect("payload is well-formed JSON");
    assert_eq!(msg, "```json\n{\n  \"action\": \"opened\"\n}\n```");
}

#[test]
fn empty_headers_rejected() {
    let body = b"{\"action\":\"opened\"}".to_vec();
    let headers: Vec<(String, String)> = Vec::new();
    let mut q = RelayQueue::new(16);
    let r = handle(SECRET, &headers, &body, &mut q);
    assert_eq!(r, AcceptanceStatus::Malformed);
    assert_eq!(status_code(&r), 400);
    assert_eq!(q.len(), 0);
}

#[test]
fn each_missing_header_rejected() {
    let body = b"{\"action\":\"opened\"}".to_vec();
    let all = full_headers(SECRET, &body, "issues");
    for skip in 0..all.len() {
        let mut headers = all.clone();
        headers.remove(skip);
        let mut q = RelayQueue::new(16);
        let r = handle(SECRET, &headers, &body, &mut q);
        assert_eq!(r, AcceptanceStatus::Malformed);
        assert_eq!(q.len(), 0);
    }
}

#[test]
fn foreign_user_agent_rejected() {
    let body = b"{\"action\":\"opened\"}".to_vec();
    let mut headers = full_headers(SECRET, &body, "issues");
    headers[5].1 = "curl/8.0".to_string();
    let mut q = RelayQueue::new(16);
    let r = handle(SECRET, &headers, &body, &mut q);
    assert_eq!(r, AcceptanceStatus::Malformed);
    assert_eq!(q.len(), 0);
}

#[test]
fn user_agent_value_check() {
    assert!(handle_user_agent_value("GitHub-Hookshot/044aadd").is_ok());
    assert!(handle_user_agent_value("prefix GitHub-Hookshot/1 suffix").is_ok());
    assert!(handle_user_agent_value("curl/8.0").is_err());
    assert!(handle_user_agent_value("").is_err());
}

#[test]
fn correct_signature_verifies() {
    let body = b"{\"action\":\"opened\"}";
    let sig = sign(SECRET, body);
    assert!(verify_signature(SECRET, body, &sig));
}

#[test]
fn known_signature_vector() {
    // the published example vector for webhook signature validation
    let secret = b"It's a Secret to Everybody";
    let body = b"Hello, World!";
    let expected = "sha256=757107ea0eb2509fc211221cce984b8a37570b6d7586c22c46f4379c8b043e17";
    assert!(verify_signature(secret, body, expected));
    assert_eq!(sign(secret, body), expected);
}

#[test]
fn mutated_signature_fails() {
    let body = b"{\"action\":\"opened\"}";
    let sig = sign(SECRET, body);
    let mut chars: Vec<char> = sig.chars().collect();
    // flip one bit of the last hex digit
    let last = *chars.last().unwrap();
    let flipped = if last == 'a' { 'b' } else { 'a' };
    *chars.last_mut().unwrap() = flipped;
    let mutated: String = chars.into_iter().collect();
    assert_ne!(mutated, sig);
    assert!(!verify_signature(SECRET, body, &mutated));
}

#[test]
fn mutated_body_fails_verification() {
    let body = b"{\"action\":\"opened\"}".to_vec();
    let sig = sign(SECRET, &body);
    let mut other = body.clone();
    other[0] ^= 1;
    assert!(!verify_signature(SECRET, &other, &sig));
}

#[test]
fn wrong_secret_is_unauthorized() {
    let body = b"{\"action\":\"opened\"}".to_vec();
    let headers = full_headers(b"another-secret", &body, "issues");
    let mut q = RelayQueue::new(16);
    let r = handle(SECRET, &headers, &body, &mut q);
    assert_eq!(r, AcceptanceStatus::Unauthorized);
    assert_eq!(status_code(&r), 400);
    assert_eq!(q.len(), 0);
}

#[test]
fn invalid_json_body_rejected() {
    let body = b"not json at all".to_vec();
    let headers = full_headers(SECRET, &body, "issues");
    let mut q = RelayQueue::new(16);
    let r = handle(SECRET, &headers, &body, &mut q);
    assert_eq!(r, AcceptanceStatus::Malformed);
    assert_eq!(q.len(), 0);
}

#[test]
fn fifo_order_kept() {
    let mut q = RelayQueue::new(8);
    for i in 0..3 {
        let body = format!("{{\"n\":{}}}", i).into_bytes();
        let headers = full_headers(SECRET, &body, "issues");
        let mut h = headers.clone();
        h[2].1 = format!("delivery-{}", i);
        let r = handle(SECRET, &h, &body, &mut q);
        assert_eq!(r, AcceptanceStatus::Accepted);
    }
    assert_eq!(q.len(), 3);
    for i in 0..3 {
        let e = q.dequeue().expect("queued");
        assert_eq!(e.id, format!("delivery-{}", i));
    }
    assert!(q.dequeue().is_none());
}

#[test]
fn backpressure_rejects_without_loss() {
    let mut q = RelayQueue::new(2);
    let bodies: Vec<Vec<u8>> = (0..3).map(|i| format!("{{\"n\":{}}}", i).into_bytes()).collect();
    let mut answers = Vec::new();
    for (i, body) in bodies.iter().enumerate() {
        let mut h = full_headers(SECRET, body, "issues");
        h[2].1 = format!("delivery-{}", i);
        answers.push(handle(SECRET, &h, body, &mut q));
    }
    assert_eq!(answers[0], AcceptanceStatus::Accepted);
    assert_eq!(answers[1], AcceptanceStatus::Accepted);
    assert_eq!(answers[2], AcceptanceStatus::Overloaded);
    assert_eq!(status_code(&answers[2]), 503);
    // the first two events are intact and in order; the third left no trace
    assert_eq!(q.len(), 2);
    assert_eq!(q.dequeue().unwrap().id, "delivery-0");
    assert_eq!(q.dequeue().unwrap().id, "delivery-1");
    assert!(q.dequeue().is_none());
}

#[test]
fn closed_queue_unavailable() {
    let body = b"{\"action\":\"opened\"}".to_vec();
    let headers = full_headers(SECRET, &body, "issues");
    let mut q = RelayQueue::new(4);
    q.close();
    assert!(q.is_closed());
    let r = handle(SECRET, &headers, &body, &mut q);
    assert_eq!(r, AcceptanceStatus::Unavailable);
    assert_eq!(status_code(&r), 503);
    assert_eq!(q.len(), 0);
}

#[test]
fn direct_enqueue_signals() {
    let mut q = RelayQueue::new(1);
    let e1 = Event {
        id: "a".to_string(),
        kind: "issues".to_string(),
        payload: b"{}".to_vec(),
    };
    let e2 = Event {
        id: "b".to_string(),
        kind: "issues".to_string(),
        payload: b"{}".to_vec(),
    };
    assert!(q.enqueue(e1).is_ok());
    assert_eq!(q.enqueue(e2), Err(EnqueueError::Full));
    q.close();
    let e3 = Event {
        id: "c".to_string(),
        kind: "issues".to_string(),
        payload: b"{}".to_vec(),
    };
    assert_eq!(q.enqueue(e3), Err(EnqueueError::Closed));
}

#[test]
fn validate_request_builds_event() {
    let body = b"{\"action\":\"opened\"}".to_vec();
    let headers = full_headers(SECRET, &body, "push");
    let e = validate_request(SECRET, &headers, &body).expect("valid request");
    assert_eq!(e.kind, "push");
    assert_eq!(e.id, "72d3162e-cc78-11e3");
    assert_eq!(e.payload, body);
}

#[test]
fn header_names_enumerated() {
    let all = GithubHeaders::iterator();
    assert_eq!(all.len(), 8);
    assert_eq!(all[0].as_str(), "x-github-hook-id");
    assert_eq!(all[1].as_str(), "x-github-event");
    assert_eq!(all[2].as_str(), "x-github-delivery");
    assert_eq!(all[3].as_str(), "x-hub-signature");
    assert_eq!(all[4].as_str(), "x-hub-signature-256");
    assert_eq!(all[5].as_str(), "user-agent");
    assert_eq!(all[6].as_str(), "x-github-hook-installation-target-type");
    assert_eq!(all[7].as_str(), "x-github-hook-installation-target-id");
}
