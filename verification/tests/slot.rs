use threaded_logger::SinkSlot;

#[test]
fn empty_slot_holds_nothing() {
    let slot: SinkSlot<String> = SinkSlot::new();
    assert!(slot.get().is_none());
}

#[test]
fn first_set_wins_s1_before_s2() {
    let mut slot: SinkSlot<&str> = SinkSlot::new();
    assert!(slot.set("S1").is_ok());
    assert!(slot.set("S2").is_err());
    assert_eq!(slot.get().copied(), Some("S1"));
}

#[test]
fn first_set_wins_s2_before_s1() {
    let mut slot: SinkSlot<&str> = SinkSlot::new();
    assert!(slot.set("S2").is_ok());
    assert!(slot.set("S1").is_err());
    assert_eq!(slot.get().copied(), Some("S2"));
}

#[test]
fn exactly_one_of_many_sets_succeeds() {
    let mut slot: SinkSlot<u32> = SinkSlot::new();
    let mut successes: usize = 0;
    for sink in 0..5u32 {
        if slot.set(sink).is_ok() {
            successes += 1;
        }
    }
    assert_eq!(successes, 1);
    assert_eq!(slot.get().copied(), Some(0));
}
