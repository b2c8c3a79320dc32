use event_hub::{Config, Message, Telemetry, TimeSlot, TimeSlots};

#[test]
fn telemetry_clone_keeps_the_snapshot() {
    let frame = Telemetry { snapshot: vec![1, 2, 3, 255] };
    let copy = frame.clone();
    assert_eq!(copy, frame);
    assert_eq!(copy.snapshot, vec![1, 2, 3, 255]);
}

#[test]
fn time_slot_clone_keeps_the_record() {
    let slot = TimeSlot { record: vec![9, 8] };
    assert_eq!(slot.clone().record, vec![9, 8]);
}

#[test]
fn time_slots_clone_keeps_every_slot_in_order() {
    let slots = TimeSlots {
        slots: vec![
            TimeSlot { record: vec![1] },
            TimeSlot { record: vec![] },
            TimeSlot { record: vec![2, 3] },
        ],
    };
    let copy = slots.clone();
    assert_eq!(copy.slots.len(), 3);
    assert_eq!(copy.slots[0].record, vec![1]);
    assert_eq!(copy.slots[1].record, Vec::<u8>::new());
    assert_eq!(copy.slots[2].record, vec![2, 3]);
    assert_eq!(copy, slots);
}

#[test]
fn empty_time_slots_clone_is_empty() {
    let slots = TimeSlots { slots: Vec::new() };
    assert_eq!(slots.clone().slots.len(), 0);
}

#[test]
fn config_clone_keeps_the_snapshot() {
    let config = Config { snapshot: vec![7; 40] };
    assert_eq!(config.clone(), config);
}

#[test]
fn message_clone_keeps_the_body() {
    let message = Message { body: b"pit now".to_vec() };
    assert_eq!(message.clone().body, b"pit now".to_vec());
}

#[test]
fn a_clone_is_independent_of_its_source() {
    let mut frame = Telemetry { snapshot: vec![1, 2] };
    let copy = frame.clone();
    frame.snapshot.push(3);
    assert_eq!(copy.snapshot, vec![1, 2]);
    assert_eq!(frame.snapshot, vec![1, 2, 3]);
}
