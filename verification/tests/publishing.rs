use event_hub::{channel, published, Config, Event, EventHandler, Telemetry};
use futures::Stream;

fn drained(mut receiver: event_hub::EventReceiver) -> Vec<Event> {
    receiver.close();
    receiver.wait().map(|item| item.unwrap()).collect()
}

#[test]
fn publish_appends_to_the_channel() {
    let (sender, receiver) = channel();
    let handler = EventHandler::new(sender);
    let result = handler.publish(Event::Log(2, String::from("box")));
    assert!(result.is_ok());
    let seen = drained(receiver);
    assert_eq!(seen.len(), 1);
    assert!(matches!(&seen[0], Event::Log(2, text) if text == "box"));
}

#[test]
fn published_events_arrive_in_order() {
    let (sender, receiver) = channel();
    let handler = EventHandler::new(sender);
    for severity in 0..5u8 {
        assert!(handler.publish(Event::Log(severity, format!("line {}", severity))).is_ok());
    }
    let seen = drained(receiver);
    assert_eq!(seen.len(), 5);
    for (index, event) in seen.iter().enumerate() {
        match event {
            Event::Log(severity, text) => {
                assert_eq!(*severity as usize, index);
                assert_eq!(text, &format!("line {}", index));
            }
            other => panic!("unexpected event: {:?}", other),
        }
    }
}

#[test]
fn clones_of_a_handle_feed_one_channel() {
    let (sender, receiver) = channel();
    let first = EventHandler::new(sender);
    let second = first.clone();
    assert!(first.publish(Event::Log(1, String::from("a"))).is_ok());
    assert!(second.publish(Event::Log(2, String::from("b"))).is_ok());
    assert!(first.publish(Event::Log(3, String::from("c"))).is_ok());
    let seen = drained(receiver);
    let severities: Vec<u8> = seen
        .iter()
        .map(|event| match event {
            Event::Log(severity, _) => *severity,
            other => panic!("unexpected event: {:?}", other),
        })
        .collect();
    assert_eq!(severities, vec![1, 2, 3]);
}

#[test]
fn publish_after_the_consumer_is_gone_hands_the_event_back() {
    let (sender, receiver) = channel();
    let handler = EventHandler::new(sender);
    drop(receiver);
    let result = handler.publish(Event::TelemetryUpdate(Telemetry { snapshot: vec![5, 6] }));
    match result {
        Err(failure) => match failure.0 {
            Event::TelemetryUpdate(frame) => assert_eq!(frame.snapshot, vec![5, 6]),
            other => panic!("unexpected event: {:?}", other),
        },
        Ok(()) => panic!("the consumer is gone"),
    }
}

#[test]
fn publish_after_close_fails_every_time() {
    let (sender, mut receiver) = channel();
    let handler = EventHandler::new(sender);
    assert!(handler.publish(Event::Log(1, String::from("kept"))).is_ok());
    receiver.close();
    assert!(handler.publish(Event::Log(2, String::from("late"))).is_err());
    assert!(handler.publish(Event::Log(3, String::from("later"))).is_err());
    let seen: Vec<Event> = receiver.wait().map(|item| item.unwrap()).collect();
    assert_eq!(seen.len(), 1);
    assert!(matches!(&seen[0], Event::Log(1, text) if text == "kept"));
}

#[test]
fn a_successful_send_is_a_successful_publish() {
    assert!(published(Ok(())).is_ok());
}

#[test]
fn a_failed_send_is_a_disconnect_that_holds_the_event() {
    let result = published(Err(Event::ConfigUpdate(Config { snapshot: vec![1] })));
    match result {
        Err(failure) => match failure.0 {
            Event::ConfigUpdate(config) => assert_eq!(config.snapshot, vec![1]),
            other => panic!("unexpected event: {:?}", other),
        },
        Ok(()) => panic!("the send failed"),
    }
}
