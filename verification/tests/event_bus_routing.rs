use std::sync::atomic::{AtomicUsize, Ordering};
use std::sync::Arc;

use ddd::environment::Environment;
use ddd::event_bus::EventBus;
use ddd::ids::{CommandId, EventId, IssuerId};
use ddd::timestamp::Timestamp;
use ddd::traits::DomainEvent;

#[derive(Debug)]
pub struct CreatedAccount {
    command_id: CommandId,
    environment: Environment,
    issuer_id: IssuerId,
    event_id: EventId,
    issued_at: Timestamp,
}

impl CreatedAccount {
    pub fn new(command_id: u128) -> Self {
        Self {
            command_id: CommandId::new(command_id),
            environment: Environment::Development,
            event_id: EventId::new_random(),
            issuer_id: IssuerId::new("test.client".to_string()),
            issued_at: Timestamp::new(0),
        }
    }
}

impl DomainEvent for CreatedAccount {
    fn command_id(&self) -> &CommandId {
        &self.command_id
    }

    fn event_id(&self) -> &EventId {
        &self.event_id
    }

    fn issuer_id(&self) -> &IssuerId {
        &self.issuer_id
    }

    fn issued_at(&self) -> &Timestamp {
        &self.issued_at
    }

    fn environment(&self) -> &Environment {
        &self.environment
    }
}

struct AccountListener {
    count: Arc<AtomicUsize>,
}

impl AccountListener {
    fn new() -> (Self, Arc<AtomicUsize>) {
        let count = Arc::new(AtomicUsize::default());
        (
            Self {
                count: count.clone(),
            },
            count,
        )
    }

    fn on_event(&self, _event: &CreatedAccount) {
        self.count.fetch_add(1, Ordering::SeqCst);
    }
}

#[test]
fn given_a_listener_and_event_bus_when_publishing_an_event_then_the_listeners_should_receive_it() {
    let mut bus = EventBus::new();
    let (sub1, count1) = AccountListener::new();
    let (sub2, count2) = AccountListener::new();

    let id1 = bus.add_subscriber("account-created");
    let id2 = bus.add_subscriber("account-updated");
    let listeners: Vec<&AccountListener> = vec![&sub1, &sub2];

    assert_eq!(bus.subscriber_count(), 2);

    let event = CreatedAccount::new(1);
    let event2 = CreatedAccount::new(2);
    for id in bus.publish("account-created") {
        listeners[id].on_event(&event);
    }
    for id in bus.publish("account-created") {
        listeners[id].on_event(&event2);
    }

    assert_eq!(id1, 0);
    assert_eq!(id2, 1);
    assert_eq!(count1.load(Ordering::SeqCst), 2);
    assert_eq!(count2.load(Ordering::SeqCst), 0);
}

#[test]
fn publishing_on_an_unknown_topic_notifies_nobody() {
    let mut bus = EventBus::new();
    bus.add_subscriber("account-created");
    assert!(bus.publish("account-deleted").is_empty());
}

#[test]
fn listeners_of_one_topic_are_notified_in_subscription_order() {
    let mut bus = EventBus::new();
    let first = bus.add_subscriber("account-created");
    bus.add_subscriber("account-updated");
    let third = bus.add_subscriber("account-created");
    assert_eq!(bus.publish("account-created"), vec![first, third]);
    assert_eq!(bus.subscriber_count(), 2);
}
