//! Bus client policy: the poll loop's state machine and its failure/backoff
//! classification, plus the exact consumer and producer settings. The loop
//! itself — broker I/O, task dispatch — runs in the unverified shell, which
//! feeds every observed event through `poll_step` and performs the returned
//! action.

use vstd::prelude::*;

verus! {

/// Error taxonomy of the topic subscription and poll loop.
#[derive(Clone, Copy, Debug, PartialEq, Eq, Structural)]
pub enum SubscriptionError {
    /// No topic matches yet: expected during startup races with pattern
    /// subscriptions; transient, polling continues without backoff.
    TopicNotYetAvailable,
    /// The broker transport failed: transient, retried after a fixed delay.
    BrokerTransportFailure,
    /// Any other receive error: logged, polling continues.
    Other,
}

/// Error taxonomy of the bus publish.
#[derive(Clone, Copy, Debug, PartialEq, Eq, Structural)]
pub enum PublishError {
    /// The send to the bus failed; the message is lost for delivery.
    BusUnavailable,
}

/// Error taxonomy of the artifact upload.
#[derive(Clone, Copy, Debug, PartialEq, Eq, Structural)]
pub enum UploadError {
    /// The object store rejected or never answered the upload.
    StoreUnavailable,
}

/// Bus client lifecycle: `Idle` until the subscription stands, `Subscribed`
/// until the first poll, then `Polling`; terminal only on explicit shutdown
/// or unrecoverable subscription failure.
#[derive(Clone, Copy, Debug, PartialEq, Eq, Structural)]
pub enum BusState {
    Idle,
    Subscribed,
    Polling,
}

/// What the poll loop observes.
#[derive(Clone, Copy, Debug, PartialEq, Eq, Structural)]
pub enum BusEvent {
    SubscribeOk,
    SubscribeFailed,
    FrameReceived,
    ReceiveError(SubscriptionError),
    Shutdown,
}

/// What the loop must do next.
#[derive(Clone, Copy, Debug, PartialEq, Eq, Structural)]
pub enum BusAction {
    /// Dispatch the received frame to an independent unit of work, without
    /// blocking the next poll.
    Dispatch,
    /// Poll again at once.
    ContinueImmediately,
    /// Wait the given number of seconds, then poll again.
    Backoff(u64),
    /// Cease polling.
    Stop,
}

/// Fixed delay before the next poll after a broker transport failure.
pub const BROKER_BACKOFF_SECS: u64 = 5;

/// Whether a subscription error is transient: polling goes on after it.
pub open spec fn is_transient_spec(e: SubscriptionError) -> bool {
    e is TopicNotYetAvailable || e is BrokerTransportFailure
}

pub fn is_transient(e: &SubscriptionError) -> (r: bool)
    ensures
        r == is_transient_spec(*e),
{
    match e {
        SubscriptionError::TopicNotYetAvailable => true,
        SubscriptionError::BrokerTransportFailure => true,
        SubscriptionError::Other => false,
    }
}

/// The transition table of the poll loop. Receive errors never terminate the
/// loop; only a broker transport failure delays it; shutdown and a failed
/// subscription are terminal.
pub open spec fn step_spec(s: BusState, e: BusEvent) -> (BusState, BusAction) {
    match e {
        BusEvent::Shutdown => (BusState::Idle, BusAction::Stop),
        BusEvent::SubscribeOk => match s {
            BusState::Idle => (BusState::Subscribed, BusAction::ContinueImmediately),
            _ => (s, BusAction::ContinueImmediately),
        },
        BusEvent::SubscribeFailed => (BusState::Idle, BusAction::Stop),
        BusEvent::FrameReceived => match s {
            BusState::Idle => (BusState::Idle, BusAction::Stop),
            _ => (BusState::Polling, BusAction::Dispatch),
        },
        BusEvent::ReceiveError(err) => match s {
            BusState::Idle => (BusState::Idle, BusAction::Stop),
            _ => (
                BusState::Polling,
                match err {
                    SubscriptionError::BrokerTransportFailure => BusAction::Backoff(
                        BROKER_BACKOFF_SECS,
                    ),
                    _ => BusAction::ContinueImmediately,
                },
            ),
        },
    }
}

/// One step of the poll loop: exactly the transition `step_spec` gives.
pub fn poll_step(s: BusState, e: BusEvent) -> (r: (BusState, BusAction))
    ensures
        r == step_spec(s, e),
{
    match e {
        BusEvent::Shutdown => (BusState::Idle, BusAction::Stop),
        BusEvent::SubscribeOk => match s {
            BusState::Idle => (BusState::Subscribed, BusAction::ContinueImmediately),
            _ => (s, BusAction::ContinueImmediately),
        },
        BusEvent::SubscribeFailed => (BusState::Idle, BusAction::Stop),
        BusEvent::FrameReceived => match s {
            BusState::Idle => (BusState::Idle, BusAction::Stop),
            _ => (BusState::Polling, BusAction::Dispatch),
        },
        BusEvent::ReceiveError(err) => match s {
            BusState::Idle => (BusState::Idle, BusAction::Stop),
            _ => (
                BusState::Polling,
                match err {
                    SubscriptionError::BrokerTransportFailure => BusAction::Backoff(
                        BROKER_BACKOFF_SECS,
                    ),
                    _ => BusAction::ContinueImmediately,
                },
            ),
        },
    }
}

/// The consumer settings, as key–value pairs: consumer-group membership,
/// the broker list, and auto-commit disabled.
pub fn consumer_settings(brokers: &str, group_id: &str) -> (r: Vec<(String, String)>)
    ensures
        r@.len() == 6,
        r@[0].0@ == "group.id"@ && r@[0].1@ == group_id@,
        r@[1].0@ == "bootstrap.servers"@ && r@[1].1@ == brokers@,
        r@[2].0@ == "enable.partition.eof"@ && r@[2].1@ == "false"@,
        r@[3].0@ == "session.timeout.ms"@ && r@[3].1@ == "6000"@,
        r@[4].0@ == "enable.auto.commit"@ && r@[4].1@ == "false"@,
        r@[5].0@ == "topic.metadata.refresh.interval.ms"@ && r@[5].1@ == "10000"@,
{
    let mut r: Vec<(String, String)> = Vec::new();
    r.push(("group.id".to_owned(), group_id.to_owned()));
    r.push(("bootstrap.servers".to_owned(), brokers.to_owned()));
    r.push(("enable.partition.eof".to_owned(), "false".to_owned()));
    r.push(("session.timeout.ms".to_owned(), "6000".to_owned()));
    r.push(("enable.auto.commit".to_owned(), "false".to_owned()));
    r.push(("topic.metadata.refresh.interval.ms".to_owned(), "10000".to_owned()));
    r
}

/// The producer settings, as key–value pairs.
pub fn producer_settings(brokers: &str) -> (r: Vec<(String, String)>)
    ensures
        r@.len() == 2,
        r@[0].0@ == "bootstrap.servers"@ && r@[0].1@ == brokers@,
        r@[1].0@ == "message.timeout.ms"@ && r@[1].1@ == "5000"@,
{
    let mut r: Vec<(String, String)> = Vec::new();
    r.push(("bootstrap.servers".to_owned(), brokers.to_owned()));
    r.push(("message.timeout.ms".to_owned(), "5000".to_owned()));
    r
}

} // verus!
