use pcal6416a::hl::interrupt::{interrupt_events, wait_step, InterruptEvent, WaitAction, WaitEvent, WaitFor};

fn ev(pin: u8, level: bool) -> InterruptEvent {
    InterruptEvent { pin, level }
}

#[test]
fn no_status_no_events() {
    assert!(interrupt_events(0, 0xffff).is_empty());
}

#[test]
fn events_follow_status_in_pin_order() {
    // Status flags P0_0 (0x0100), P0_3 (0x0800) and P1_2 (0x0004);
    // input: P0_0 high, P0_3 low, P1_2 high.
    let events = interrupt_events(0x0100 | 0x0800 | 0x0004, 0x0100 | 0x0004 | 0x0001);
    assert_eq!(events, vec![ev(0, true), ev(3, false), ev(10, true)]);
}

#[test]
fn every_pin_flagged() {
    let events = interrupt_events(0xffff, 0x00ff);
    assert_eq!(events.len(), 16);
    for (k, e) in events.iter().enumerate() {
        assert_eq!(e.pin as usize, k);
        assert_eq!(e.level, k >= 8);
    }
}

#[test]
fn wait_for_level() {
    let high = WaitFor::Level(true);
    assert_eq!(wait_step(high, WaitEvent::Started), WaitAction::ReadLevel);
    assert_eq!(wait_step(high, WaitEvent::LevelRead(true)), WaitAction::Finish);
    assert_eq!(wait_step(high, WaitEvent::LevelRead(false)), WaitAction::Receive);
    assert_eq!(wait_step(high, WaitEvent::Received(false)), WaitAction::Receive);
    assert_eq!(wait_step(high, WaitEvent::Received(true)), WaitAction::Finish);
    let low = WaitFor::Level(false);
    assert_eq!(wait_step(low, WaitEvent::LevelRead(false)), WaitAction::Finish);
    assert_eq!(wait_step(low, WaitEvent::Received(true)), WaitAction::Receive);
}

#[test]
fn wait_for_edge() {
    let rising = WaitFor::Edge(true);
    assert_eq!(wait_step(rising, WaitEvent::Started), WaitAction::Receive);
    assert_eq!(wait_step(rising, WaitEvent::Received(false)), WaitAction::Receive);
    assert_eq!(wait_step(rising, WaitEvent::Received(true)), WaitAction::Finish);
    let falling = WaitFor::Edge(false);
    assert_eq!(wait_step(falling, WaitEvent::Received(false)), WaitAction::Finish);
    assert_eq!(wait_step(falling, WaitEvent::Received(true)), WaitAction::Receive);
}

#[test]
fn wait_for_any_edge() {
    let any = WaitFor::AnyEdge;
    assert_eq!(wait_step(any, WaitEvent::Started), WaitAction::DiscardStaged);
    assert_eq!(wait_step(any, WaitEvent::StagedDiscarded), WaitAction::Receive);
    assert_eq!(wait_step(any, WaitEvent::Received(false)), WaitAction::Finish);
    assert_eq!(wait_step(any, WaitEvent::Received(true)), WaitAction::Finish);
}

#[test]
fn wait_loop_runs_to_the_awaited_level() {
    // A wait for high on a pin that reads low, then gets interrupts low, low, high.
    let mut reported = vec![true, false, false];
    let mut event = WaitEvent::Started;
    let mut receives = 0;
    loop {
        match wait_step(WaitFor::Level(true), event) {
            WaitAction::ReadLevel => event = WaitEvent::LevelRead(false),
            WaitAction::Receive => {
                receives += 1;
                event = WaitEvent::Received(reported.pop().unwrap());
            }
            WaitAction::DiscardStaged => event = WaitEvent::StagedDiscarded,
            WaitAction::Finish => break,
        }
    }
    assert_eq!(receives, 3);
}
