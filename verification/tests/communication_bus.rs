use e170_systems::communication_bus::{CommunicationBus, MessageID};

const VOLTS: u64 = 1;
const AMPERES: u64 = 2;

fn received(store: &CommunicationBus<i64>, id: MessageID, kind: u64) -> Vec<i64> {
    store.receive(id, kind).into_iter().copied().collect()
}

#[test]
fn new_store_holds_nothing() {
    let store: CommunicationBus<i64> = CommunicationBus::new();
    assert!(store.receive(MessageID::Electrical, VOLTS).is_empty());
    assert!(store.receive(MessageID::Hydraulic, VOLTS).is_empty());
}

#[test]
fn messages_come_back_in_the_order_in_which_they_were_sent() {
    let mut store = CommunicationBus::new();
    store.send(MessageID::Electrical, VOLTS, 28);
    store.send(MessageID::Electrical, VOLTS, 27);
    store.send(MessageID::Electrical, VOLTS, 29);
    assert_eq!(received(&store, MessageID::Electrical, VOLTS), vec![28, 27, 29]);
    // Receiving takes nothing away.
    assert_eq!(received(&store, MessageID::Electrical, VOLTS), vec![28, 27, 29]);
}

#[test]
fn messages_of_other_kinds_are_passed_over() {
    let mut store = CommunicationBus::new();
    store.send(MessageID::Electrical, VOLTS, 28);
    store.send(MessageID::Electrical, AMPERES, 15);
    store.send(MessageID::Electrical, VOLTS, 27);
    store.send(MessageID::Electrical, AMPERES, 10);
    assert_eq!(received(&store, MessageID::Electrical, VOLTS), vec![28, 27]);
    assert_eq!(received(&store, MessageID::Electrical, AMPERES), vec![15, 10]);
    assert!(received(&store, MessageID::Electrical, 3).is_empty());
}

#[test]
fn categories_are_kept_apart() {
    let mut store = CommunicationBus::new();
    store.send(MessageID::Electrical, VOLTS, 28);
    store.send(MessageID::Hydraulic, VOLTS, 3000);
    assert_eq!(received(&store, MessageID::Electrical, VOLTS), vec![28]);
    assert_eq!(received(&store, MessageID::Hydraulic, VOLTS), vec![3000]);
    assert!(received(&store, MessageID::Hydraulic, AMPERES).is_empty());
}

#[test]
fn store_holds_messages_that_cannot_be_copied() {
    let mut store: CommunicationBus<String> = CommunicationBus::new();
    store.send(MessageID::Hydraulic, 7, "pump on".to_string());
    store.send(MessageID::Hydraulic, 8, "ignored".to_string());
    store.send(MessageID::Hydraulic, 7, "pump off".to_string());
    let found: Vec<&str> =
        store.receive(MessageID::Hydraulic, 7).into_iter().map(|text| text.as_str()).collect();
    assert_eq!(found, vec!["pump on", "pump off"]);
}
