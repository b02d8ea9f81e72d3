use mqtt_sse_bridge::hub::{Hub, Received, DEFAULT_BUFFER_SIZE};
use mqtt_sse_bridge::session::{Session, SessionStep};

fn texts(hub: &mut Hub, id: u64) -> Vec<String> {
    let mut out = Vec::new();
    loop {
        match hub.receive(id) {
            Received::Message(m) => out.push(m),
            Received::Lagged(_) => {}
            Received::Empty | Received::Closed => return out,
        }
    }
}

#[test]
fn one_subscriber_sees_abc_in_order() {
    let mut hub = Hub::new(DEFAULT_BUFFER_SIZE);
    let id = hub.subscribe().unwrap();
    for m in ["a", "b", "c"] {
        hub.publish(m.to_string());
    }
    assert_eq!(texts(&mut hub, id), vec!["a", "b", "c"]);
}

#[test]
fn late_subscriber_sees_only_later_messages() {
    let mut hub = Hub::new(DEFAULT_BUFFER_SIZE);
    let a = hub.subscribe().unwrap();
    hub.publish("x".to_string());
    let b = hub.subscribe().unwrap();
    hub.publish("y".to_string());
    assert_eq!(texts(&mut hub, a), vec!["x", "y"]);
    assert_eq!(texts(&mut hub, b), vec!["y"]);
}

#[test]
fn every_subscriber_gets_every_message() {
    let mut hub = Hub::new(8);
    let ids: Vec<u64> = (0..5).map(|_| hub.subscribe().unwrap()).collect();
    let msgs: Vec<String> = (0..8).map(|i| format!("m{}", i)).collect();
    for m in &msgs {
        hub.publish(m.clone());
    }
    for id in ids {
        assert_eq!(texts(&mut hub, id), msgs);
    }
}

#[test]
fn stalled_subscriber_lags_without_hurting_others() {
    let mut hub = Hub::new(3);
    let slow = hub.subscribe().unwrap();
    let fast = hub.subscribe().unwrap();
    let mut seen = Vec::new();
    for i in 0..10 {
        hub.publish(format!("{}", i));
        if let Received::Message(m) = hub.receive(fast) {
            seen.push(m);
        }
    }
    let expected: Vec<String> = (0..10).map(|i| format!("{}", i)).collect();
    assert_eq!(seen, expected);
    assert!(matches!(hub.receive(slow), Received::Lagged(7)));
    assert_eq!(texts(&mut hub, slow), vec!["7", "8", "9"]);
}

#[test]
fn unsubscribed_is_gone() {
    let mut hub = Hub::new(4);
    let id = hub.subscribe().unwrap();
    assert!(hub.is_subscribed(id));
    assert!(hub.unsubscribe(id));
    assert!(!hub.is_subscribed(id));
    hub.publish("z".to_string());
    assert!(matches!(hub.receive(id), Received::Closed));
    assert!(!hub.unsubscribe(id));
}

#[test]
fn empty_hub_has_nothing() {
    let mut hub = Hub::new(1);
    let id = hub.subscribe().unwrap();
    assert!(matches!(hub.receive(id), Received::Empty));
    assert_eq!(hub.published(), 0);
    assert_eq!(hub.capacity(), 1);
}

#[test]
fn ring_of_one_keeps_the_latest() {
    let mut hub = Hub::new(1);
    let id = hub.subscribe().unwrap();
    hub.publish("p".to_string());
    hub.publish("q".to_string());
    assert_eq!(hub.published(), 2);
    assert!(matches!(hub.receive(id), Received::Lagged(1)));
    assert_eq!(texts(&mut hub, id), vec!["q"]);
}

#[test]
fn session_skips_lag_silently() {
    let mut hub = Hub::new(2);
    let s = Session::open(&mut hub).unwrap();
    for m in ["1", "2", "3", "4"] {
        hub.publish(m.to_string());
    }
    assert!(matches!(s.next_step(&mut hub), SessionStep::Send(ref m) if m == "3"));
    assert!(matches!(s.next_step(&mut hub), SessionStep::Send(ref m) if m == "4"));
    assert!(matches!(s.next_step(&mut hub), SessionStep::Wait));
}

#[test]
fn closed_session_ends() {
    let mut hub = Hub::new(2);
    let s = Session::open(&mut hub).unwrap();
    let other = Session::open(&mut hub).unwrap();
    let id = s.id();
    assert_ne!(id, other.id());
    s.close(&mut hub);
    assert!(!hub.is_subscribed(id));
    hub.publish("after".to_string());
    assert!(matches!(other.next_step(&mut hub), SessionStep::Send(ref m) if m == "after"));
    let gone = Session::open(&mut hub).unwrap();
    assert!(hub.unsubscribe(gone.id()));
    assert!(matches!(gone.next_step(&mut hub), SessionStep::End));
}

#[test]
fn publishing_ignores_stalled_subscribers() {
    let mut hub = Hub::new(16);
    let ids: Vec<u64> = (0..1000).map(|_| hub.subscribe().unwrap()).collect();
    for i in 0..5000u32 {
        hub.publish(i.to_string());
    }
    assert_eq!(hub.published(), 5000);
    for id in ids {
        assert!(hub.is_subscribed(id));
        assert!(matches!(hub.receive(id), Received::Lagged(4984)));
        assert!(matches!(hub.receive(id), Received::Message(ref m) if m == "4984"));
    }
}
