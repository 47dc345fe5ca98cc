use threaded_logger::{Level, LevelFilter, SinkSlot};

#[test]
fn scenario_info_then_warn() {
    let mut slot: SinkSlot<String> = SinkSlot::new();
    let (facade, drain) =
        threaded_logger::try_init(&mut slot, String::from("sink"), LevelFilter::Trace)
            .expect("first install must succeed");

    assert!(facade.log_event(Level::Info, "t", "42", None, None, None));
    assert!(facade.log_event(Level::Warn, "t", "hello", None, None, None));

    let first = drain.next_snapshot().expect("first snapshot must arrive");
    assert!(first.level == Level::Info);
    assert_eq!(first.target, "t");
    assert_eq!(first.message, "42");

    let second = drain.next_snapshot().expect("second snapshot must arrive");
    assert!(second.level == Level::Warn);
    assert_eq!(second.target, "t");
    assert_eq!(second.message, "hello");

    drop(facade);
    assert!(drain.next_snapshot().is_none());
}

#[test]
fn snapshot_fields_cross_the_channel() {
    let mut slot: SinkSlot<u32> = SinkSlot::new();
    let (facade, drain) = threaded_logger::try_init(&mut slot, 7, LevelFilter::Debug)
        .expect("first install must succeed");

    assert!(facade.log_event(
        Level::Debug,
        "app::worker",
        "job done",
        Some("app::worker::inner"),
        Some("worker.rs"),
        Some(31),
    ));

    let snap = drain.next_snapshot().expect("snapshot must arrive");
    assert!(snap.level == Level::Debug);
    assert_eq!(snap.target, "app::worker");
    assert_eq!(snap.message, "job done");
    assert_eq!(snap.module.as_deref(), Some("app::worker::inner"));
    assert_eq!(snap.file.as_deref(), Some("worker.rs"));
    assert_eq!(snap.line, Some(31));
}

#[test]
fn second_install_fails_and_keeps_the_first_sink() {
    let mut slot: SinkSlot<&str> = SinkSlot::new();
    assert!(threaded_logger::try_init(&mut slot, "S1", LevelFilter::Info).is_ok());

    let second = threaded_logger::try_init(&mut slot, "S2", LevelFilter::Error);
    let err = second.err().expect("second install must fail");
    assert_eq!(err.message(), "attempted to set a logger more than once");
    assert_eq!(slot.get().copied(), Some("S1"));
}

#[test]
fn racing_installs_service_replays_through_the_winner_only() {
    // a race between two installs serializes into one of the two orders;
    // in both, every later replay is serviced by the winner's sink alone
    for winner_first in [true, false] {
        let (s1, s2) = ("S1", "S2");
        let (first, second) = if winner_first { (s1, s2) } else { (s2, s1) };

        let mut slot: SinkSlot<&str> = SinkSlot::new();
        let won = threaded_logger::try_init(&mut slot, first, LevelFilter::Info)
            .expect("the first install of the race must succeed");
        let lost = threaded_logger::try_init(&mut slot, second, LevelFilter::Info);
        assert!(lost.is_err());

        let (facade, drain) = won;
        assert!(facade.log_event(Level::Info, "t", "after the race", None, None, None));
        let snap = drain.next_snapshot().expect("replay must arrive");
        let servicing_sink = *slot.get().expect("a sink is installed");
        assert_eq!(servicing_sink, first);
        assert_eq!(snap.message, "after the race");
    }
}

#[test]
fn init_on_an_empty_slot_installs_the_sink() {
    let mut slot: SinkSlot<&str> = SinkSlot::new();
    let (facade, drain) = threaded_logger::init(&mut slot, "sink", LevelFilter::Warn);
    assert_eq!(slot.get().copied(), Some("sink"));

    assert!(facade.log_event(Level::Error, "boot", "failed", None, None, None));
    let snap = drain.next_snapshot().expect("snapshot must arrive");
    assert!(snap.level == Level::Error);
    assert_eq!(snap.message, "failed");
}
