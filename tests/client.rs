use users_client::client::{classify, into_typed, Client, Correlation, TransportOutcome};
use users_client::error::{ClientResult, Error, ErrorMessage};
use users_client::queue::{Method, Refused, RequestQueue};
use users_client::retry::{RetryPolicy, RetryStep};

fn network(detail: &str) -> ClientResult {
    Err(Error::Network(detail.to_string()))
}

/// Runs one logical request against scripted attempt outcomes; returns the
/// terminal outcome, the attempts made and the retries made.
fn run_logical(max_retries: usize, outcomes: Vec<ClientResult>) -> (ClientResult, usize, usize) {
    let mut policy = RetryPolicy::new(max_retries);
    let mut attempts = 0;
    for outcome in outcomes {
        attempts += 1;
        match policy.observe(outcome) {
            RetryStep::Reissue => continue,
            RetryStep::Finish(r) => return (r, attempts, policy.retries_made()),
        }
    }
    panic!("scripted outcomes ran out");
}

fn decode_error_body(body: &str) -> Option<ErrorMessage> {
    let v: serde_json::Value = serde_json::from_str(body).ok()?;
    let code = v.get("code")?.as_u64()?;
    let message = v.get("message")?.as_str()?;
    Some(ErrorMessage { code: code as u16, message: message.to_string() })
}

/// Dispatches every queued payload with a transport that answers each with `outcome`.
fn dispatch_all(client: &mut Client, outcome: &TransportOutcome) -> usize {
    let mut n = 0;
    while let Some(p) = client.next_payload() {
        let r = classify(outcome.clone(), None);
        client.complete(p.id, r);
        n += 1;
    }
    n
}

#[test]
fn classify_success_keeps_body() {
    let r = classify(TransportOutcome::Response(200, "{}".to_string()), None);
    assert_eq!(r, Ok("{}".to_string()));
    let r = classify(TransportOutcome::Response(204, String::new()), None);
    assert_eq!(r, Ok(String::new()));
}

#[test]
fn classify_non_2xx_is_api_error() {
    let r = classify(TransportOutcome::Response(404, "not json".to_string()), None);
    assert_eq!(r, Err(Error::Api(404, None)));
    let r = classify(TransportOutcome::Response(302, String::new()), None);
    assert_eq!(r, Err(Error::Api(302, None)));
}

#[test]
fn classify_failure_is_network_error() {
    let r = classify(TransportOutcome::Failure("connection reset".to_string()), None);
    assert_eq!(r, Err(Error::Network("connection reset".to_string())));
}

#[test]
fn scenario_typed_request_userinfo() {
    let mut client = Client::new(4, 3);
    let id = client.submit(Method::Get, "http://provider/userinfo".to_string(), None).unwrap();
    let p = client.next_payload().unwrap();
    assert_eq!(p.id, id);
    assert_eq!(p.method, Method::Get);
    assert_eq!(p.url, "http://provider/userinfo");
    assert_eq!(p.body, None);
    let body = "{\"id\":\"42\"}".to_string();
    assert!(client.complete(p.id, classify(TransportOutcome::Response(200, body), None)));
    let raw = client.collect(id).unwrap().unwrap();
    let decoded: Result<String, String> = serde_json::from_str::<serde_json::Value>(&raw)
        .map_err(|e| e.to_string())
        .and_then(|v| v.get("id").and_then(|x| x.as_str()).map(|s| s.to_string()).ok_or("missing id".to_string()));
    assert_eq!(into_typed(decoded), Ok("42".to_string()));
}

#[test]
fn scenario_api_error_with_structured_body() {
    let body = "{\"code\":500,\"message\":\"boom\"}";
    let message = decode_error_body(body);
    let r = classify(TransportOutcome::Response(500, body.to_string()), message);
    assert_eq!(
        r,
        Err(Error::Api(500, Some(ErrorMessage { code: 500, message: "boom".to_string() })))
    );
}

#[test]
fn decode_failure_is_parse_error() {
    let r: Result<u32, Error> = into_typed(Err("expected u32".to_string()));
    assert_eq!(r, Err(Error::Parse("expected u32".to_string())));
    assert_eq!(into_typed::<u32>(Ok(7)), Ok(7));
}

#[test]
fn bounded_retry_success() {
    let outcomes = vec![network("timeout"), network("reset"), Ok("ok".to_string())];
    let (r, attempts, retries) = run_logical(3, outcomes);
    assert_eq!(r, Ok("ok".to_string()));
    assert_eq!(attempts, 3);
    assert_eq!(retries, 2);
}

#[test]
fn retry_exhaustion_returns_last_network_error() {
    let outcomes = vec![network("a"), network("b"), network("c"), network("d")];
    let (r, attempts, retries) = run_logical(2, outcomes);
    assert_eq!(r, Err(Error::Network("c".to_string())));
    assert_eq!(attempts, 3);
    assert_eq!(retries, 2);
}

#[test]
fn non_retryable_api_error() {
    let api = classify(TransportOutcome::Response(404, String::new()), None);
    let (r, attempts, retries) = run_logical(5, vec![api, Ok("never".to_string())]);
    assert_eq!(r, Err(Error::Api(404, None)));
    assert_eq!(attempts, 1);
    assert_eq!(retries, 0);
}

#[test]
fn parse_error_is_not_retried() {
    let (r, attempts, _) = run_logical(3, vec![Err(Error::Parse("bad".to_string())), Ok(String::new())]);
    assert_eq!(r, Err(Error::Parse("bad".to_string())));
    assert_eq!(attempts, 1);
}

#[test]
fn zero_budget_makes_exactly_one_attempt() {
    let (r, attempts, retries) = run_logical(0, vec![network("down"), Ok(String::new())]);
    assert_eq!(r, Err(Error::Network("down".to_string())));
    assert_eq!((attempts, retries), (1, 0));
    let (r, attempts, _) = run_logical(0, vec![Ok("fine".to_string())]);
    assert_eq!(r, Ok("fine".to_string()));
    assert_eq!(attempts, 1);
}

#[test]
fn retry_policy_counts_remaining() {
    let mut p = RetryPolicy::new(2);
    assert_eq!(p.remaining_retries(), 2);
    assert_eq!(p.observe(network("x")), RetryStep::Reissue);
    assert_eq!(p.remaining_retries(), 1);
    assert_eq!(p.retries_made(), 1);
}

#[test]
fn backpressure_with_capacity_one() {
    let mut client = Client::new(1, 0);
    let first = client.submit(Method::Post, "http://a".to_string(), Some("{}".to_string())).unwrap();
    match client.submit(Method::Get, "http://b".to_string(), None) {
        Err(Refused::Full(p)) => assert_eq!(p.url, "http://b"),
        other => panic!("expected a full queue, got {:?}", other),
    }
    assert_eq!(client.queued(), 1);
    let p = client.next_payload().unwrap();
    assert_eq!(p.id, first);
    let second = client.submit(Method::Get, "http://b".to_string(), None).unwrap();
    assert_eq!(second, first + 1);
}

#[test]
fn every_request_resolves_exactly_once() {
    let mut client = Client::new(3, 0);
    let mut ids = Vec::new();
    let mut pending = 10;
    while pending > 0 {
        match client.submit(Method::Get, format!("http://x/{}", pending), None) {
            Ok(id) => {
                ids.push(id);
                pending -= 1;
            }
            Err(Refused::Full(_)) => {
                dispatch_all(&mut client, &TransportOutcome::Response(200, "ok".to_string()));
            }
            Err(Refused::Closed(_)) => panic!("queue closed"),
        }
    }
    dispatch_all(&mut client, &TransportOutcome::Response(200, "ok".to_string()));
    assert_eq!(ids, (0..10).collect::<Vec<usize>>());
    for id in ids {
        assert!(client.is_resolved(id));
        assert_eq!(client.collect(id), Some(Ok("ok".to_string())));
        assert_eq!(client.collect(id), None);
        assert!(!client.complete(id, Ok("again".to_string())));
    }
}

#[test]
fn dispatch_preserves_submission_order() {
    let mut client = Client::new(8, 0);
    for u in ["http://1", "http://2", "http://3"] {
        client.submit(Method::Get, u.to_string(), None).unwrap();
    }
    let urls: Vec<String> = std::iter::from_fn(|| client.next_payload()).map(|p| p.url).collect();
    assert_eq!(urls, vec!["http://1", "http://2", "http://3"]);
}

#[test]
fn second_resolution_is_dropped() {
    let mut client = Client::new(2, 0);
    let id = client.submit(Method::Get, "http://a".to_string(), None).unwrap();
    assert!(!client.complete(id, Ok("early".to_string())));
    client.next_payload().unwrap();
    assert!(client.complete(id, Ok("first".to_string())));
    assert!(!client.complete(id, Ok("second".to_string())));
    assert_eq!(client.collect(id), Some(Ok("first".to_string())));
    assert!(!client.complete(99, Ok(String::new())));
}

#[test]
fn cancellation_mid_dispatch_is_harmless() {
    let mut client = Client::new(2, 0);
    let abandoned = client.submit(Method::Get, "http://slow".to_string(), None).unwrap();
    let p = client.next_payload().unwrap();
    client.cancel(abandoned);
    assert!(!client.complete(p.id, Ok("late".to_string())));
    assert_eq!(client.collect(abandoned), None);
    let next = client.submit(Method::Get, "http://fast".to_string(), None).unwrap();
    let p = client.next_payload().unwrap();
    assert_eq!(p.id, next);
    assert!(client.complete(p.id, Ok("done".to_string())));
    assert_eq!(client.collect(next), Some(Ok("done".to_string())));
}

#[test]
fn cancelled_queued_request_is_still_dequeued() {
    let mut client = Client::new(2, 0);
    let a = client.submit(Method::Get, "http://a".to_string(), None).unwrap();
    let b = client.submit(Method::Get, "http://b".to_string(), None).unwrap();
    client.cancel(a);
    assert_eq!(client.next_payload().unwrap().id, a);
    assert_eq!(client.next_payload().unwrap().id, b);
    assert!(client.complete(b, Ok(String::new())));
}

#[test]
fn shutdown_resolves_pending_to_unknown() {
    let mut client = Client::new(4, 1);
    let queued = client.submit(Method::Get, "http://q".to_string(), None).unwrap();
    let in_flight = client.submit(Method::Get, "http://f".to_string(), None).unwrap();
    let done = client.submit(Method::Get, "http://d".to_string(), None).unwrap();
    // dispatch the first two of three in order: ids 0 and 1
    assert_eq!(client.next_payload().unwrap().id, queued);
    assert!(client.complete(queued, Ok("q".to_string())));
    assert_eq!(client.next_payload().unwrap().id, in_flight);
    assert_eq!(client.shutdown(), 2);
    assert_eq!(client.queued(), 0);
    assert_eq!(client.collect(queued), Some(Ok("q".to_string())));
    assert!(matches!(client.collect(in_flight), Some(Err(Error::Unknown(_)))));
    assert!(matches!(client.collect(done), Some(Err(Error::Unknown(_)))));
    match client.submit(Method::Get, "http://late".to_string(), None) {
        Err(Refused::Closed(p)) => assert_eq!(p.url, "http://late"),
        other => panic!("expected a closed queue, got {:?}", other),
    }
    assert!(client.next_payload().is_none());
}

#[test]
fn request_queue_close_drains() {
    let mut q = RequestQueue::new(2);
    assert_eq!(q.capacity_limit(), 2);
    let mut c = Client::new(2, 0);
    c.submit(Method::Put, "http://z".to_string(), None).unwrap();
    let p = c.next_payload().unwrap();
    assert!(q.try_push(p).is_ok());
    assert_eq!(q.len(), 1);
    let drained = q.close();
    assert_eq!(drained.len(), 1);
    assert_eq!(drained[0].url, "http://z");
    assert!(q.closed_now());
    assert!(q.pop().is_none());
}

#[test]
fn handle_carries_retry_budget() {
    let client = Client::new(1, 4);
    let h = client.handle();
    assert_eq!(h.max_retries, 4);
    assert_eq!(h.retry_policy().remaining_retries(), 4);
}

#[test]
fn error_class_codes() {
    assert_eq!(Error::Api(500, None).class_code(), 100);
    assert_eq!(Error::Network(String::new()).class_code(), 200);
    assert_eq!(Error::Parse(String::new()).class_code(), 300);
    assert_eq!(Error::Unknown(String::new()).class_code(), 400);
    assert!(Error::Network(String::new()).is_transient());
    assert!(!Error::Api(503, None).is_transient());
}

#[test]
fn correlation_states_compare() {
    assert_eq!(Correlation::Queued, Correlation::Queued);
    assert_ne!(Correlation::InFlight, Correlation::Abandoned);
}

#[test]
fn complete_with_classifies_the_outcome() {
    let mut client = Client::new(2, 0);
    let a = client.submit(Method::Get, "http://a".to_string(), None).unwrap();
    let b = client.submit(Method::Get, "http://b".to_string(), None).unwrap();
    client.next_payload().unwrap();
    client.next_payload().unwrap();
    let msg = ErrorMessage { code: 7, message: "nope".to_string() };
    assert!(client.complete_with(a, TransportOutcome::Response(403, "x".to_string()), Some(msg.clone())));
    assert!(client.complete_with(b, TransportOutcome::Failure("reset".to_string()), None));
    assert_eq!(client.collect(a), Some(Err(Error::Api(403, Some(msg)))));
    assert_eq!(client.collect(b), Some(Err(Error::Network("reset".to_string()))));
    assert_eq!(client.submitted(), 2);
}

#[test]
fn shutdown_of_idle_client_resolves_nothing() {
    let mut client = Client::new(2, 0);
    assert_eq!(client.shutdown(), 0);
    assert!(matches!(client.submit(Method::Get, "http://a".to_string(), None), Err(Refused::Closed(_))));
}
