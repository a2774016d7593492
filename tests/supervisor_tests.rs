use skipper::error::SkipperError;
use skipper::runtime::{chain_prefix, SupportedRuntime};
use skipper::supervisor::{
    classify, connected_message, Action, Config, Event, LogLevel, NodeIdentity, Phase, Recovery,
    Session, Step, Supervisor, CONNECT_RETRY_SECS, RESTART_DELAY_SECS,
};
use skipper::text::decimal_string;

fn config(interval: u64) -> Config {
    Config { substrate_ws_url: "ws://127.0.0.1:9944".to_string(), error_interval: interval }
}

fn identity() -> NodeIdentity {
    NodeIdentity {
        chain: Some("Westend".to_string()),
        name: Some("node".to_string()),
        version: Some("0.9.1".to_string()),
    }
}

fn connected(sup: &mut Supervisor, ss58: Option<u64>) -> Step {
    sup.step(Event::Connected { identity: identity(), ss58_format: ss58 })
}

fn notify_texts(step: &Step) -> (String, String) {
    match &step.action {
        Action::Notify { message, formatted_message } => (message.clone(), formatted_message.clone()),
        _ => panic!("expected a notification"),
    }
}

#[test]
fn decimal_rendering() {
    assert_eq!(decimal_string(0), "0");
    assert_eq!(decimal_string(5), "5");
    assert_eq!(decimal_string(300), "300");
    assert_eq!(decimal_string(u64::MAX), "18446744073709551615");
}

#[test]
fn error_messages() {
    assert_eq!(SkipperError::Other("decode failure".to_string()).message(), "decode failure");
    assert_eq!(SkipperError::SubscriptionFinished.message(), "Subscription finished");
    assert_eq!(SkipperError::MatrixError("down".to_string()).message(), "Matrix error: down");
    assert_eq!(SkipperError::Io("denied".to_string()).message(), "I/O error: denied");
    assert_eq!(SkipperError::Subxt("closed".to_string()).message(), "Subxt error: closed");
    assert_eq!(SkipperError::Utf8("bad".to_string()).message(), "UTF-8 error: bad");
}

#[test]
fn runtime_selection_of_supported_prefixes() {
    assert_eq!(SupportedRuntime::from(0u16), SupportedRuntime::Polkadot);
    assert_eq!(SupportedRuntime::from(2u16), SupportedRuntime::Kusama);
    assert_eq!(SupportedRuntime::from(42u16), SupportedRuntime::Westend);
    assert!(SupportedRuntime::is_supported(42));
    assert!(!SupportedRuntime::is_supported(7));
}

#[test]
fn unsupported_prefix_falls_back_the_same_way_every_time() {
    let first = SupportedRuntime::from(7u16);
    for _ in 0..5 {
        assert_eq!(SupportedRuntime::from(7u16), first);
    }
    assert_eq!(first, SupportedRuntime::Polkadot);
    assert_eq!(SupportedRuntime::from(u16::MAX), SupportedRuntime::Polkadot);
}

#[test]
fn chain_prefix_defaults() {
    assert_eq!(chain_prefix(None), 0);
    assert_eq!(chain_prefix(Some(2)), 2);
    assert_eq!(chain_prefix(Some(65535)), 65535);
    assert_eq!(chain_prefix(Some(65536)), 0);
}

#[test]
fn connected_message_uses_placeholders() {
    let id = NodeIdentity { chain: None, name: Some("n".to_string()), version: None };
    assert_eq!(
        connected_message(&id, "ws://x"),
        "Connected to Chain undefined network using ws://x * Substrate node n vNode version undefined"
    );
}

#[test]
fn connection_failures_then_success() {
    let mut sup = Supervisor::new(config(5));
    for k in 0..3 {
        let step = sup.step(Event::ConnectFailed(format!("refused {}", k)));
        assert!(matches!(step.action, Action::Connect { delay_secs } if delay_secs == CONNECT_RETRY_SECS));
        assert_eq!(step.logs.len(), 2);
        assert_eq!(step.logs[0].level, LogLevel::Error);
        assert_eq!(step.logs[0].text, format!("refused {}", k));
        assert_eq!(step.logs[1].level, LogLevel::Info);
        assert_eq!(step.logs[1].text, "Awaiting for connection using ws://127.0.0.1:9944");
        assert_eq!(sup.phase, Phase::Connecting);
    }
    let step = connected(&mut sup, Some(42));
    assert_eq!(sup.phase, Phase::Subscribed);
    assert_eq!(step.logs.len(), 1);
    assert_eq!(
        step.logs[0].text,
        "Connected to Westend network using ws://127.0.0.1:9944 * Substrate node node v0.9.1"
    );
    match step.action {
        Action::Subscribe(s) => {
            assert_eq!(s, Session { runtime: SupportedRuntime::Westend, chain_prefix: 42 })
        },
        _ => panic!("expected a subscription"),
    }
}

#[test]
fn classification_of_errors() {
    assert_eq!(classify(&SkipperError::SubscriptionFinished), Recovery::Restart);
    assert_eq!(classify(&SkipperError::MatrixError("x".to_string())), Recovery::SkipMessage);
    assert_eq!(classify(&SkipperError::Other("x".to_string())), Recovery::Hold);
    assert_eq!(classify(&SkipperError::Io("x".to_string())), Recovery::Hold);
}

#[test]
fn subscription_finished_restarts_at_once() {
    let mut sup = Supervisor::new(config(5));
    connected(&mut sup, None);
    let step = sup.step(Event::SubscriptionStopped(Err(SkipperError::SubscriptionFinished)));
    assert!(matches!(step.action, Action::Connect { delay_secs } if delay_secs == RESTART_DELAY_SECS));
    assert_eq!(step.logs[0].level, LogLevel::Warn);
    assert_eq!(step.logs[0].text, "Subscription finished");
    assert_eq!(sup.phase, Phase::Connecting);
}

#[test]
fn clean_end_of_stream_restarts_at_once() {
    let mut sup = Supervisor::new(config(5));
    connected(&mut sup, None);
    let step = sup.step(Event::SubscriptionStopped(Ok(())));
    assert!(matches!(step.action, Action::Connect { delay_secs } if delay_secs == RESTART_DELAY_SECS));
    assert_eq!(step.logs[0].level, LogLevel::Warn);
}

#[test]
fn failed_notification_is_skipped() {
    let mut sup = Supervisor::new(config(5));
    connected(&mut sup, None);
    let step = sup.step(Event::SubscriptionStopped(Err(SkipperError::MatrixError("503".to_string()))));
    assert!(matches!(step.action, Action::Connect { delay_secs } if delay_secs == RESTART_DELAY_SECS));
    assert_eq!(step.logs[0].level, LogLevel::Warn);
    assert_eq!(step.logs[0].text, "Matrix message skipped!");
    assert_eq!(sup.phase, Phase::Connecting);
}

#[test]
fn other_error_notifies_then_cools_down() {
    let mut sup = Supervisor::new(config(5));
    connected(&mut sup, Some(0));
    let step = sup.step(Event::SubscriptionStopped(Err(SkipperError::Other("decode failure".to_string()))));
    assert_eq!(sup.phase, Phase::Notifying);
    assert_eq!(step.logs.len(), 1);
    assert_eq!(step.logs[0].level, LogLevel::Error);
    assert_eq!(step.logs[0].text, "decode failure");
    let (message, formatted) = notify_texts(&step);
    assert_eq!(message, "On hold for 5 min! decode failure");
    assert!(message.contains('5') && message.contains("decode failure"));
    assert!(formatted.contains("on hold for 5 min") && formatted.contains("decode failure"));
    let step = sup.step(Event::NotificationDone(Ok(())));
    assert!(step.logs.is_empty());
    assert!(matches!(step.action, Action::Connect { delay_secs: 300 }));
    assert_eq!(sup.phase, Phase::Connecting);
    let step = connected(&mut sup, Some(0));
    assert!(matches!(step.action, Action::Subscribe(_)));
}

#[test]
fn failed_hold_notification_still_cools_down() {
    let mut sup = Supervisor::new(config(2));
    connected(&mut sup, Some(2));
    let step = sup.step(Event::SubscriptionStopped(Err(SkipperError::Io("broken pipe".to_string()))));
    let (message, _) = notify_texts(&step);
    assert_eq!(message, "On hold for 2 min! I/O error: broken pipe");
    let step = sup.step(Event::NotificationDone(Err(SkipperError::MatrixError("401".to_string()))));
    assert_eq!(step.logs.len(), 1);
    assert_eq!(step.logs[0].text, "Notification skipped: Matrix error: 401");
    assert!(matches!(step.action, Action::Connect { delay_secs: 120 }));
    assert_eq!(sup.phase, Phase::Connecting);
}

#[test]
fn unexpected_event_restarts() {
    let mut sup = Supervisor::new(config(5));
    let step = sup.step(Event::NotificationDone(Ok(())));
    assert!(matches!(step.action, Action::Connect { delay_secs } if delay_secs == RESTART_DELAY_SECS));
    assert_eq!(sup.phase, Phase::Connecting);
}
