use guessbot::correlator::CorrelationFilter;
use guessbot::correlator::Correlator;
use guessbot::dispatch::DispatchConfig;
use guessbot::dispatch::DispatchOutcome;
use guessbot::dispatch::DispatchRequest;
use guessbot::game::REPLY_TIMEOUT_SECS;
use guessbot::intake::Routed;
use guessbot::intake::intake;
use guessbot::registry::builtin_registry;

fn msg(content: &str, author_id: u64, channel_id: u64) -> DispatchRequest {
    DispatchRequest {
        content: content.to_string(),
        author_id,
        channel_id,
        guild_id: Some(1),
        from_bot: false,
    }
}

#[test]
fn filter_carries_the_configured_timeout() {
    let f = CorrelationFilter::new(5, 7);
    assert_eq!(f.author_id, 5);
    assert_eq!(f.channel_id, 7);
    assert_eq!(f.timeout_secs, REPLY_TIMEOUT_SECS);
    assert_eq!(REPLY_TIMEOUT_SECS, 15);
}

#[test]
fn one_wait_per_pair() {
    let mut c = Correlator::new();
    assert!(c.begin_wait(CorrelationFilter::new(5, 7)));
    assert!(!c.begin_wait(CorrelationFilter::new(5, 7)));
    assert!(c.begin_wait(CorrelationFilter::new(5, 8)));
    assert!(c.begin_wait(CorrelationFilter::new(6, 7)));
}

#[test]
fn deliver_resolves_a_wait_exactly_once() {
    let mut c = Correlator::new();
    assert!(c.begin_wait(CorrelationFilter::new(5, 7)));
    assert!(c.deliver(&msg("50", 5, 7)));
    // The wait is gone: the same message resolves nothing now.
    assert!(!c.deliver(&msg("50", 5, 7)));
    assert!(!c.expire(5, 7));
}

#[test]
fn deliver_ignores_non_matching_content_and_identities() {
    let mut c = Correlator::new();
    assert!(c.begin_wait(CorrelationFilter::new(5, 7)));
    // Content that fails the reply predicate is left for dispatch.
    assert!(!c.deliver(&msg("hello", 5, 7)));
    // A different author or channel does not match.
    assert!(!c.deliver(&msg("50", 6, 7)));
    assert!(!c.deliver(&msg("50", 5, 8)));
    // The wait is still in place afterwards.
    assert!(c.deliver(&msg("50", 5, 7)));
}

#[test]
fn expired_waits_never_match_late_messages() {
    let mut c = Correlator::new();
    assert!(c.begin_wait(CorrelationFilter::new(5, 7)));
    assert!(c.expire(5, 7));
    // Removal happens exactly once.
    assert!(!c.expire(5, 7));
    // A message arriving after the timeout resolves nothing.
    assert!(!c.deliver(&msg("50", 5, 7)));
    // Other pairs are untouched by the expiry.
    assert!(c.begin_wait(CorrelationFilter::new(6, 7)));
    assert!(c.expire(6, 7));
}

#[test]
fn cancellation_keywords_match_a_wait() {
    let mut c = Correlator::new();
    assert!(c.begin_wait(CorrelationFilter::new(5, 7)));
    assert!(c.deliver(&msg("STOP", 5, 7)));
}

fn config() -> DispatchConfig {
    DispatchConfig { prefix: "m!".to_string(), bot_id: 42, owners: vec![1] }
}

#[test]
fn intake_routes_a_guess_to_the_session_not_to_dispatch() {
    let mut c = Correlator::new();
    let cfg = config();
    let reg = builtin_registry();
    assert!(c.begin_wait(CorrelationFilter::new(5, 7)));
    // "5" would be ignored text to the dispatcher; with a wait outstanding
    // it belongs to the session.
    let r = intake(&mut c, &cfg, &reg, &msg("5", 5, 7));
    assert!(matches!(r, Routed::ToSession));
    // Never both: the wait consumed it, so a second intake dispatches.
    let r = intake(&mut c, &cfg, &reg, &msg("5", 5, 7));
    assert!(matches!(r, Routed::Dispatched(DispatchOutcome::Ignored)));
}

#[test]
fn intake_lets_commands_through_during_a_wait() {
    let mut c = Correlator::new();
    let cfg = config();
    let reg = builtin_registry();
    assert!(c.begin_wait(CorrelationFilter::new(5, 7)));
    let r = intake(&mut c, &cfg, &reg, &msg("m!ping", 5, 7));
    match r {
        Routed::Dispatched(DispatchOutcome::Invoke { name, .. }) => assert_eq!(name, "ping"),
        _ => panic!("expected the command to dispatch"),
    }
    // The wait survived the unrelated command.
    assert!(c.deliver(&msg("50", 5, 7)));
}

#[test]
fn intake_ignores_bot_messages_and_keeps_waits() {
    let mut c = Correlator::new();
    let cfg = config();
    let reg = builtin_registry();
    assert!(c.begin_wait(CorrelationFilter::new(5, 7)));
    let mut m = msg("50", 5, 7);
    m.from_bot = true;
    let r = intake(&mut c, &cfg, &reg, &m);
    assert!(matches!(r, Routed::Dispatched(DispatchOutcome::Ignored)));
    // The wait is still there for the real author.
    assert!(c.deliver(&msg("50", 5, 7)));
}
