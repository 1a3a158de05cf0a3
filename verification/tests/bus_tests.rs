use meteo_pipeline::bus::{
    consumer_settings, is_transient, poll_step, producer_settings, BusAction, BusEvent, BusState,
    SubscriptionError,
};
use meteo_pipeline::messages::ApiMessage;
use meteo_pipeline::station_config::config_object_key;

#[test]
fn frames_are_dispatched_without_blocking() {
    let (s, a) = poll_step(BusState::Polling, BusEvent::FrameReceived);
    assert_eq!(s, BusState::Polling);
    assert_eq!(a, BusAction::Dispatch);
}

#[test]
fn missing_topic_continues_without_backoff() {
    let (s, a) = poll_step(
        BusState::Polling,
        BusEvent::ReceiveError(SubscriptionError::TopicNotYetAvailable),
    );
    assert_eq!(s, BusState::Polling);
    assert_eq!(a, BusAction::ContinueImmediately);
}

#[test]
fn broker_transport_failure_backs_off() {
    let (s, a) = poll_step(
        BusState::Polling,
        BusEvent::ReceiveError(SubscriptionError::BrokerTransportFailure),
    );
    assert_eq!(s, BusState::Polling);
    assert_eq!(a, BusAction::Backoff(5));
}

#[test]
fn other_receive_errors_never_stop_polling() {
    let (s, a) = poll_step(BusState::Polling, BusEvent::ReceiveError(SubscriptionError::Other));
    assert_eq!(s, BusState::Polling);
    assert_eq!(a, BusAction::ContinueImmediately);
}

#[test]
fn lifecycle_idle_subscribed_polling() {
    let (s, _) = poll_step(BusState::Idle, BusEvent::SubscribeOk);
    assert_eq!(s, BusState::Subscribed);
    let (s, a) = poll_step(s, BusEvent::FrameReceived);
    assert_eq!(s, BusState::Polling);
    assert_eq!(a, BusAction::Dispatch);
}

#[test]
fn shutdown_and_failed_subscription_are_terminal() {
    let (s, a) = poll_step(BusState::Polling, BusEvent::Shutdown);
    assert_eq!(s, BusState::Idle);
    assert_eq!(a, BusAction::Stop);
    let (_, a) = poll_step(BusState::Idle, BusEvent::SubscribeFailed);
    assert_eq!(a, BusAction::Stop);
}

#[test]
fn transient_errors_are_the_two_expected_kinds() {
    assert!(is_transient(&SubscriptionError::TopicNotYetAvailable));
    assert!(is_transient(&SubscriptionError::BrokerTransportFailure));
    assert!(!is_transient(&SubscriptionError::Other));
}

#[test]
fn consumer_settings_disable_auto_commit() {
    let s = consumer_settings("localhost:19092", "geojson_producer");
    assert_eq!(s.len(), 6);
    assert_eq!(s[0], ("group.id".to_string(), "geojson_producer".to_string()));
    assert_eq!(s[1], ("bootstrap.servers".to_string(), "localhost:19092".to_string()));
    assert_eq!(s[2], ("enable.partition.eof".to_string(), "false".to_string()));
    assert_eq!(s[3], ("session.timeout.ms".to_string(), "6000".to_string()));
    assert_eq!(s[4], ("enable.auto.commit".to_string(), "false".to_string()));
    assert_eq!(
        s[5],
        ("topic.metadata.refresh.interval.ms".to_string(), "10000".to_string())
    );
}

#[test]
fn producer_settings_name_the_brokers() {
    let s = producer_settings("broker:9092");
    assert_eq!(s.len(), 2);
    assert_eq!(s[0], ("bootstrap.servers".to_string(), "broker:9092".to_string()));
    assert_eq!(s[1], ("message.timeout.ms".to_string(), "5000".to_string()));
}

#[test]
fn config_key_is_decimal_id_dot_json() {
    assert_eq!(config_object_key(50), b"50.json".to_vec());
    assert_eq!(config_object_key(0), b"0.json".to_vec());
    assert_eq!(config_object_key(65535), b"65535.json".to_vec());
}

#[test]
fn envelope_types_are_areas_and_wind() {
    let m = ApiMessage::areas(1u64);
    assert_eq!(m.message_type, "areas");
    assert_eq!(m.payload, Some(1));
    let m = ApiMessage::wind("sample".to_string());
    assert_eq!(m.message_type, "wind");
    assert_eq!(m.payload, Some("sample".to_string()));
}
