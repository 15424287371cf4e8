use sdp_engine::misc::ResponseStatus;
use sdp_engine::retry::{policy_event, run_policy, AttemptOutcome, PolicyOutcome, BAN_RETRY_LIMIT};
use sdp_engine::transport::{BanKind, Reply, SiteEvent, TransportError};

fn ban() -> AttemptOutcome {
    AttemptOutcome::Failed(TransportError::ProtectionBan(BanKind::Variti))
}

fn delivered(status: u16) -> AttemptOutcome {
    AttemptOutcome::Delivered(Reply { status, parsed: None, body: String::new() })
}

#[test]
fn three_bans_then_success_is_delivered_on_fourth_attempt() {
    let transcript = vec![ban(), ban(), ban(), delivered(200), delivered(200)];
    let (outcome, calls) = run_policy(transcript, 3);
    assert_eq!(calls, 4);
    match outcome {
        PolicyOutcome::Delivered(reply) => assert_eq!(reply.status, 200),
        other => panic!("expected a delivered reply, got {:?}", other),
    }
}

#[test]
fn three_bans_exceed_a_bound_of_two() {
    let transcript = vec![ban(), ban(), ban(), delivered(200)];
    let (outcome, calls) = run_policy(transcript, 2);
    assert_eq!(calls, 3);
    assert!(matches!(outcome, PolicyOutcome::Banned(BanKind::Variti)));
}

#[test]
fn default_bound_admits_three_extra_attempts() {
    assert_eq!(BAN_RETRY_LIMIT, 3);
    let transcript = vec![ban(), ban(), ban(), delivered(204), delivered(204)];
    let (outcome, calls) = run_policy(transcript, BAN_RETRY_LIMIT);
    assert_eq!(calls, 4);
    assert!(matches!(outcome, PolicyOutcome::Delivered(_)));
}

#[test]
fn timeout_is_not_retried() {
    let transcript = vec![
        AttemptOutcome::Failed(TransportError::Timeout),
        delivered(200),
        delivered(200),
        delivered(200),
    ];
    let (outcome, calls) = run_policy(transcript, 3);
    assert_eq!(calls, 1);
    assert!(matches!(outcome, PolicyOutcome::Net(ResponseStatus::Timeout)));
}

#[test]
fn connection_error_is_not_retried() {
    let transcript = vec![
        ban(),
        AttemptOutcome::Failed(TransportError::ConnectionError),
        delivered(200),
        delivered(200),
    ];
    let (outcome, calls) = run_policy(transcript, 3);
    assert_eq!(calls, 2);
    assert!(matches!(outcome, PolicyOutcome::Net(ResponseStatus::ConnectionError)));
}

#[test]
fn surfaced_outcomes_become_engine_events() {
    let (banned, _) = run_policy(vec![ban(), ban(), ban()], 2);
    assert!(matches!(policy_event(banned), SiteEvent::Ban(BanKind::Variti)));
    let (net, _) = run_policy(vec![AttemptOutcome::Failed(TransportError::Timeout)], 0);
    assert!(matches!(
        policy_event(net),
        SiteEvent::Net(ResponseStatus::Timeout)
    ));
    let (ok, _) = run_policy(vec![delivered(200)], 0);
    assert!(matches!(policy_event(ok), SiteEvent::Reply(_)));
}

#[test]
fn immediate_success_takes_one_attempt() {
    let transcript = vec![delivered(200), ban(), ban(), ban()];
    let (outcome, calls) = run_policy(transcript, 3);
    assert_eq!(calls, 1);
    assert!(matches!(outcome, PolicyOutcome::Delivered(_)));
}
