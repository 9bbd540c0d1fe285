use rithmic_api::broadcaster::Broadcaster;
use rithmic_api::errors::RithmicApiError;
use rithmic_api::hub::BroadcastHub;
use rithmic_api::plants::SysInfraType;

fn name(s: &str) -> String {
    s.to_string()
}

#[test]
fn new_broadcaster_has_no_subscribers() {
    let mut hub = Broadcaster::new();
    assert!(!hub.is_subscribed(&name("a")));
    assert_eq!(hub.receive(&name("a")), None);
    hub.broadcast(vec![1, 2, 3]);
    assert_eq!(hub.receive(&name("a")), None);
}

#[test]
fn broadcast_reaches_both_subscribers() {
    let mut hub = Broadcaster::new();
    hub.subscribe(name("a"), 4);
    hub.subscribe(name("b"), 4);
    hub.broadcast(vec![1, 2, 3]);
    assert_eq!(hub.receive(&name("a")), Some(vec![1, 2, 3]));
    assert_eq!(hub.receive(&name("b")), Some(vec![1, 2, 3]));
    assert_eq!(hub.receive(&name("a")), None);
    assert_eq!(hub.receive(&name("b")), None);
}

#[test]
fn frames_come_out_in_the_order_they_arrived() {
    let mut hub = Broadcaster::new();
    hub.subscribe(name("a"), 8);
    hub.broadcast(vec![1]);
    hub.broadcast(vec![2]);
    hub.broadcast(vec![3]);
    assert_eq!(hub.receive(&name("a")), Some(vec![1]));
    assert_eq!(hub.receive(&name("a")), Some(vec![2]));
    assert_eq!(hub.receive(&name("a")), Some(vec![3]));
    assert_eq!(hub.receive(&name("a")), None);
}

#[test]
fn unsubscribing_one_leaves_the_other() {
    let mut hub = Broadcaster::new();
    hub.subscribe(name("a"), 4);
    hub.subscribe(name("b"), 4);
    hub.broadcast(vec![1]);
    hub.unsubscribe(&name("a"));
    assert!(!hub.is_subscribed(&name("a")));
    assert!(hub.is_subscribed(&name("b")));
    hub.broadcast(vec![2]);
    assert_eq!(hub.receive(&name("a")), None);
    assert_eq!(hub.receive(&name("b")), Some(vec![1]));
    assert_eq!(hub.receive(&name("b")), Some(vec![2]));
}

#[test]
fn unsubscribing_a_stranger_changes_nothing() {
    let mut hub = Broadcaster::new();
    hub.subscribe(name("a"), 4);
    hub.broadcast(vec![1]);
    hub.unsubscribe(&name("nobody"));
    assert!(hub.is_subscribed(&name("a")));
    assert_eq!(hub.receive(&name("a")), Some(vec![1]));
}

#[test]
fn full_queue_drops_for_that_subscriber_only() {
    let mut hub = Broadcaster::new();
    hub.subscribe(name("slow"), 1);
    hub.subscribe(name("fast"), 3);
    hub.broadcast(vec![1]);
    hub.broadcast(vec![2]);
    hub.broadcast(vec![3]);
    assert_eq!(hub.receive(&name("slow")), Some(vec![1]));
    assert_eq!(hub.receive(&name("slow")), None);
    assert_eq!(hub.receive(&name("fast")), Some(vec![1]));
    assert_eq!(hub.receive(&name("fast")), Some(vec![2]));
    assert_eq!(hub.receive(&name("fast")), Some(vec![3]));
    // room again: the next frame is taken
    hub.broadcast(vec![4]);
    assert_eq!(hub.receive(&name("slow")), Some(vec![4]));
    assert_eq!(hub.receive(&name("fast")), Some(vec![4]));
}

#[test]
fn subscribing_again_replaces_the_queue() {
    let mut hub = Broadcaster::new();
    assert_eq!(hub.subscribe(name("a"), 1), None);
    hub.broadcast(vec![1]);
    assert_eq!(hub.subscribe(name("a"), 2), Some(1));
    assert_eq!(hub.receive(&name("a")), None);
    assert_eq!(hub.subscribe(name("a"), 2), Some(0));
    hub.broadcast(vec![2]);
    hub.broadcast(vec![3]);
    hub.broadcast(vec![4]);
    assert_eq!(hub.receive(&name("a")), Some(vec![2]));
    assert_eq!(hub.receive(&name("a")), Some(vec![3]));
    assert_eq!(hub.receive(&name("a")), None);
}

#[test]
fn hub_refuses_subscribers_of_a_plant_that_never_connected() {
    let mut hub = BroadcastHub::new();
    assert!(!hub.is_open(SysInfraType::TickerPlant));
    assert!(matches!(
        hub.subscribe(SysInfraType::TickerPlant, name("a"), 4),
        Err(RithmicApiError::ClientErrorDebug(_))
    ));
    hub.open(SysInfraType::TickerPlant);
    assert!(hub.is_open(SysInfraType::TickerPlant));
    assert!(matches!(hub.subscribe(SysInfraType::TickerPlant, name("a"), 4), Ok(None)));
    hub.publish(SysInfraType::TickerPlant, vec![1]);
    hub.publish(SysInfraType::TickerPlant, vec![2]);
    assert!(matches!(hub.subscribe(SysInfraType::TickerPlant, name("a"), 4), Ok(Some(2))));
    assert!(matches!(
        hub.subscribe(SysInfraType::OrderPlant, name("a"), 4),
        Err(RithmicApiError::ClientErrorDebug(_))
    ));
}

#[test]
fn hub_keeps_the_plants_apart() {
    let mut hub = BroadcastHub::new();
    hub.open(SysInfraType::TickerPlant);
    hub.open(SysInfraType::OrderPlant);
    hub.subscribe(SysInfraType::TickerPlant, name("a"), 4).unwrap();
    hub.subscribe(SysInfraType::OrderPlant, name("a"), 4).unwrap();
    hub.publish(SysInfraType::TickerPlant, vec![1]);
    hub.publish(SysInfraType::PnlPlant, vec![9]);
    assert_eq!(hub.receive(SysInfraType::OrderPlant, &name("a")), None);
    assert_eq!(hub.receive(SysInfraType::TickerPlant, &name("a")), Some(vec![1]));
    assert_eq!(hub.receive(SysInfraType::PnlPlant, &name("a")), None);
}

#[test]
fn hub_open_keeps_an_existing_broadcaster() {
    let mut hub = BroadcastHub::new();
    hub.open(SysInfraType::HistoryPlant);
    hub.subscribe(SysInfraType::HistoryPlant, name("a"), 4).unwrap();
    hub.publish(SysInfraType::HistoryPlant, vec![5]);
    hub.open(SysInfraType::HistoryPlant);
    assert_eq!(hub.receive(SysInfraType::HistoryPlant, &name("a")), Some(vec![5]));
}

#[test]
fn hub_clear_drops_the_subscribers_and_keeps_the_plant() {
    let mut hub = BroadcastHub::new();
    hub.open(SysInfraType::RepositoryPlant);
    hub.subscribe(SysInfraType::RepositoryPlant, name("a"), 4).unwrap();
    hub.publish(SysInfraType::RepositoryPlant, vec![5]);
    hub.clear(SysInfraType::RepositoryPlant);
    assert_eq!(hub.receive(SysInfraType::RepositoryPlant, &name("a")), None);
    assert!(hub.is_open(SysInfraType::RepositoryPlant));
    assert!(hub.subscribe(SysInfraType::RepositoryPlant, name("b"), 1).is_ok());
    hub.clear(SysInfraType::PnlPlant);
    assert!(!hub.is_open(SysInfraType::PnlPlant));
}

#[test]
fn hub_unsubscribe_is_quiet() {
    let mut hub = BroadcastHub::new();
    hub.unsubscribe(SysInfraType::TickerPlant, &name("a"));
    hub.open(SysInfraType::TickerPlant);
    hub.unsubscribe(SysInfraType::TickerPlant, &name("a"));
    hub.subscribe(SysInfraType::TickerPlant, name("a"), 2).unwrap();
    hub.unsubscribe(SysInfraType::TickerPlant, &name("a"));
    hub.publish(SysInfraType::TickerPlant, vec![1]);
    assert_eq!(hub.receive(SysInfraType::TickerPlant, &name("a")), None);
}

#[test]
fn hub_knows_its_subscribers() {
    let mut hub = BroadcastHub::new();
    assert!(!hub.is_subscribed(SysInfraType::TickerPlant, &name("a")));
    hub.open(SysInfraType::TickerPlant);
    assert!(!hub.is_subscribed(SysInfraType::TickerPlant, &name("a")));
    hub.subscribe(SysInfraType::TickerPlant, name("a"), 1).unwrap();
    assert!(hub.is_subscribed(SysInfraType::TickerPlant, &name("a")));
    assert!(!hub.is_subscribed(SysInfraType::OrderPlant, &name("a")));
    assert!(!hub.is_subscribed(SysInfraType::TickerPlant, &name("b")));
}

#[test]
fn queue_of_the_largest_capacity_can_be_made() {
    let mut hub = Broadcaster::new();
    assert_eq!(hub.subscribe(name("a"), usize::MAX / 8), None);
    hub.broadcast(vec![1]);
    assert_eq!(hub.receive(&name("a")), Some(vec![1]));
}

#[test]
fn many_subscribers_each_get_every_frame() {
    let mut hub = Broadcaster::new();
    for i in 0..50 {
        hub.subscribe(format!("subscriber {}", i), 3);
    }
    hub.broadcast(vec![1]);
    hub.broadcast(vec![2]);
    for i in 0..50 {
        let subscriber = format!("subscriber {}", i);
        assert_eq!(hub.receive(&subscriber), Some(vec![1]));
        assert_eq!(hub.receive(&subscriber), Some(vec![2]));
        assert_eq!(hub.receive(&subscriber), None);
    }
}
