use pact::agent::subscription::{
    classify_update, SubscriptionConfig, SubscriptionState, UpdateDecision, UpdatePayload,
};

fn test_config() -> SubscriptionConfig {
    SubscriptionConfig {
        node_id: "node-001".into(),
        vcluster_id: "ml-training".into(),
        reconnect_base_ms: 100,
        reconnect_max_ms: 5000,
        max_reconnect_attempts: 5,
    }
}

#[test]
fn reconnect_backoff_exponential() {
    let config = test_config();
    let mut state = SubscriptionState::default();
    assert_eq!(state.on_disconnected(&config), Some(200));
    assert_eq!(state.on_disconnected(&config), Some(400));
    assert_eq!(state.on_disconnected(&config), Some(800));
}

#[test]
fn reconnect_delay_capped_at_max() {
    let config = SubscriptionConfig {
        reconnect_base_ms: 1000,
        reconnect_max_ms: 5000,
        max_reconnect_attempts: 20,
        ..test_config()
    };
    let mut state = SubscriptionState::default();
    let mut delays = Vec::new();
    for _ in 0..15 {
        delays.push(state.on_disconnected(&config).unwrap());
    }
    for (i, delay) in delays.iter().enumerate() {
        assert!(*delay <= 5000, "delay at attempt {} was {}", i + 1, delay);
    }
    assert_eq!(*delays.last().unwrap(), 5000);
    assert!(delays[0] < delays[2]);
}

#[test]
fn max_reconnect_attempts_returns_none() {
    let config = test_config();
    let mut state = SubscriptionState::default();
    for _ in 0..5 {
        assert!(state.on_disconnected(&config).is_some());
    }
    assert!(state.on_disconnected(&config).is_none());
}

#[test]
fn on_connected_resets_attempts() {
    let config = test_config();
    let mut state = SubscriptionState::default();
    state.on_disconnected(&config);
    state.on_disconnected(&config);
    assert_eq!(state.reconnect_attempts, 2);
    state.on_connected();
    assert_eq!(state.reconnect_attempts, 0);
    assert!(state.connected);
}

#[test]
fn sequence_advances_through_updates() {
    let mut state = SubscriptionState::default();
    assert_eq!(state.from_sequence(), 0);
    state.record_processed(1);
    assert_eq!(state.from_sequence(), 1);
    state.record_processed(5);
    assert_eq!(state.from_sequence(), 5);
}

#[test]
fn subscription_config_defaults() {
    let c = SubscriptionConfig::default();
    assert_eq!(c.reconnect_base_ms, 1000);
    assert_eq!(c.reconnect_max_ms, 60_000);
    assert_eq!(c.max_reconnect_attempts, 100);
}

#[test]
fn process_overlay_and_node_changes() {
    match classify_update(UpdatePayload::VClusterChange(vec![1, 2, 3]), Ok(())).unwrap() {
        UpdateDecision::OverlayChanged(d) => assert_eq!(d, vec![1, 2, 3]),
        other => panic!("unexpected {other:?}"),
    }
    match classify_update(UpdatePayload::NodeChange(vec![10, 20]), Ok(())).unwrap() {
        UpdateDecision::NodeDeltaChanged(d) => assert_eq!(d, vec![10, 20]),
        other => panic!("unexpected {other:?}"),
    }
}

#[test]
fn process_blacklist_change() {
    let payload = br#"["/tmp/**","/var/log/**"]"#.to_vec();
    match classify_update(UpdatePayload::BlacklistChange(payload), Ok(())).unwrap() {
        UpdateDecision::BlacklistChanged(p) => assert_eq!(p, vec!["/tmp/**", "/var/log/**"]),
        other => panic!("unexpected {other:?}"),
    }
    let bad = classify_update(UpdatePayload::BlacklistChange(vec![0xFF, 0xFE]), Ok(()));
    assert!(bad.unwrap_err().starts_with("invalid blacklist payload: "));
}

#[test]
fn policy_payload_passes_only_when_it_parses() {
    match classify_update(UpdatePayload::PolicyChange(b"{}".to_vec()), Ok(())).unwrap() {
        UpdateDecision::PolicyChanged(d) => assert_eq!(d, b"{}".to_vec()),
        other => panic!("unexpected {other:?}"),
    }
    let bad = classify_update(UpdatePayload::PolicyChange(vec![0xFF, 0xFE]), Err("expected value".into()));
    assert_eq!(bad.unwrap_err(), "invalid policy payload: expected value");
}

#[test]
fn sequence_advances_only_when_the_action_is_handed_on() {
    let mut state = SubscriptionState::default();
    state.last_sequence = 4;
    let err = state.finish_update(9, Err("channel closed".into()));
    assert_eq!(err.unwrap_err(), "action channel closed: channel closed");
    assert_eq!(state.last_sequence, 4);
    state.finish_update(9, Ok(())).unwrap();
    assert_eq!(state.last_sequence, 9);
}
