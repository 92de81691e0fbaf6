//! Interrupts: which pins an interrupt reports, with what level, and when a
//! wait for a level or an edge on a pin is over.
use vstd::prelude::*;

use crate::hl::{idx_to_mask_be, pin_level};

verus! {

/// A change on one pin that an interrupt reports: the pin, and the level it
/// had when the input register was read.
#[derive(Clone, Copy, Debug, PartialEq, Eq, Structural)]
pub struct InterruptEvent {
    pub pin: u8,
    pub level: bool,
}

/// The events for the pins below `n` that the interrupt status `status`
/// flags, in pin order, each with the pin's level in `input`.
pub open spec fn interrupt_events_below(status: u16, input: u16, n: nat) -> Seq<InterruptEvent>
    decreases n,
{
    if n == 0 {
        Seq::empty()
    } else {
        let earlier = interrupt_events_below(status, input, (n - 1) as nat);
        let idx = (n - 1) as u16;
        if pin_level(status, idx) {
            earlier.push(InterruptEvent { pin: idx as u8, level: pin_level(input, idx) })
        } else {
            earlier
        }
    }
}

/// The events of one interrupt: one for each pin that the interrupt status
/// flags, in pin order.
pub open spec fn interrupt_events_of(status: u16, input: u16) -> Seq<InterruptEvent> {
    interrupt_events_below(status, input, 16)
}

/// Turns the interrupt status register and the input register, read in that
/// order (reading the input clears the interrupt), into the events to hand to
/// each pin's waiter.
pub fn interrupt_events(status: u16, input: u16) -> (events: Vec<InterruptEvent>)
    ensures
        events@ == interrupt_events_of(status, input),
{
    let mut events: Vec<InterruptEvent> = Vec::new();
    let mut idx: u16 = 0;
    while idx < 16
        invariant
            idx <= 16,
            events@ == interrupt_events_below(status, input, idx as nat),
        decreases 16 - idx,
    {
        let mask_be = idx_to_mask_be(idx);
        if status & mask_be != 0 {
            let level = input & mask_be != 0;
            events.push(InterruptEvent { pin: idx as u8, level });
        }
        idx = idx + 1;
    }
    events
}

/// The events for the pins below `n` are those of the flagged pins below `n`,
/// in increasing pin order, each with its input level.
proof fn lemma_interrupt_events_below(status: u16, input: u16, n: nat)
    requires
        n <= 16,
    ensures
        ({
            let events = interrupt_events_below(status, input, n);
            &&& forall|k: int|
                0 <= k < events.len() ==> {
                    &&& (#[trigger] events[k]).pin < n
                    &&& pin_level(status, events[k].pin as u16)
                    &&& events[k].level == pin_level(input, events[k].pin as u16)
                }
            &&& forall|k1: int, k2: int|
                0 <= k1 < k2 < events.len() ==> (#[trigger] events[k1]).pin < (
                #[trigger] events[k2]).pin
            &&& forall|i: u16|
                i < n && #[trigger] pin_level(status, i) ==> exists|k: int|
                    0 <= k < events.len() && (#[trigger] events[k]).pin == i
        }),
    decreases n,
{
    if n > 0 {
        lemma_interrupt_events_below(status, input, (n - 1) as nat);
        let earlier = interrupt_events_below(status, input, (n - 1) as nat);
        let events = interrupt_events_below(status, input, n);
        let idx = (n - 1) as u16;
        if pin_level(status, idx) {
            assert(events[earlier.len() as int].pin == idx);
            assert forall|i: u16| i < n && #[trigger] pin_level(status, i) implies exists|k: int|
                0 <= k < events.len() && (#[trigger] events[k]).pin == i by {
                if i < n - 1 {
                    let k = choose|k: int| 0 <= k < earlier.len() && (#[trigger] earlier[k]).pin == i;
                    assert(events[k] == earlier[k]);
                } else {
                    assert(events[earlier.len() as int].pin == i);
                }
            }
        }
    }
}

/// Law: one interrupt yields exactly one event for each pin that its status
/// flags, no event for any other pin, in increasing pin order, each carrying
/// the pin's level in the input register.
pub proof fn law_interrupt_events(status: u16, input: u16)
    ensures
        ({
            let events = interrupt_events_of(status, input);
            &&& forall|k: int|
                0 <= k < events.len() ==> {
                    &&& (#[trigger] events[k]).pin < 16
                    &&& pin_level(status, events[k].pin as u16)
                    &&& events[k].level == pin_level(input, events[k].pin as u16)
                }
            &&& forall|k1: int, k2: int|
                0 <= k1 < k2 < events.len() ==> (#[trigger] events[k1]).pin < (
                #[trigger] events[k2]).pin
            &&& forall|i: u16|
                i < 16 && #[trigger] pin_level(status, i) ==> exists|k: int|
                    0 <= k < events.len() && (#[trigger] events[k]).pin == i
        }),
{
    lemma_interrupt_events_below(status, input, 16);
    let events = interrupt_events_of(status, input);
    assert(events == interrupt_events_below(status, input, 16));
    assert forall|i: u16| i < 16 && #[trigger] pin_level(status, i) implies exists|k: int|
        0 <= k < events.len() && (#[trigger] events[k]).pin == i by {
        assert(i < 16nat);
    }
}

/// What a waiter waits for on an interrupt pin.
#[derive(Clone, Copy, Debug, PartialEq, Eq, Structural)]
pub enum WaitFor {
    /// The pin is at this level (high: `true`).
    Level(bool),
    /// The pin changes to this level: a rising edge for `true`, a falling
    /// edge for `false`.
    Edge(bool),
    /// The pin changes at all.
    AnyEdge,
}

/// What the waiter's caller reports back.
#[derive(Clone, Copy, Debug, PartialEq, Eq, Structural)]
pub enum WaitEvent {
    /// The wait begins.
    Started,
    /// The pin's level was read from the input register.
    LevelRead(bool),
    /// An interrupt for the pin arrived, with the pin's level at that time.
    Received(bool),
    /// Any interrupt already waiting for the pin was thrown away.
    StagedDiscarded,
}

/// What the waiter asks its caller to do next.
#[derive(Clone, Copy, Debug, PartialEq, Eq, Structural)]
pub enum WaitAction {
    /// Read the pin's level from the input register.
    ReadLevel,
    /// Throw away an interrupt already waiting for the pin, without waiting.
    DiscardStaged,
    /// Wait for the next interrupt for the pin.
    Receive,
    /// The wait is over.
    Finish,
}

/// The next step of a wait for `target`, after `event`.
///
/// A wait for a level first reads the pin and is over at once if the pin has
/// the level; otherwise it takes interrupts until one reports the level. A
/// wait for an edge takes interrupts until one reports the level that the
/// edge leads to. A wait for any edge first throws away an interrupt that is
/// already waiting, then is over with the next one. An event that does not
/// belong to the wait asks for the next interrupt.
pub open spec fn next_wait_action(target: WaitFor, event: WaitEvent) -> WaitAction {
    match target {
        WaitFor::Level(value) => match event {
            WaitEvent::Started => WaitAction::ReadLevel,
            WaitEvent::LevelRead(level) => if level == value {
                WaitAction::Finish
            } else {
                WaitAction::Receive
            },
            WaitEvent::Received(level) => if level == value {
                WaitAction::Finish
            } else {
                WaitAction::Receive
            },
            WaitEvent::StagedDiscarded => WaitAction::Receive,
        },
        WaitFor::Edge(value) => match event {
            WaitEvent::Received(level) => if level == value {
                WaitAction::Finish
            } else {
                WaitAction::Receive
            },
            _ => WaitAction::Receive,
        },
        WaitFor::AnyEdge => match event {
            WaitEvent::Started => WaitAction::DiscardStaged,
            WaitEvent::Received(_) => WaitAction::Finish,
            _ => WaitAction::Receive,
        },
    }
}

/// Decides the next step of a wait for `target` after `event`.
pub fn wait_step(target: WaitFor, event: WaitEvent) -> (action: WaitAction)
    ensures
        action == next_wait_action(target, event),
{
    match target {
        WaitFor::Level(value) => match event {
            WaitEvent::Started => WaitAction::ReadLevel,
            WaitEvent::LevelRead(level) => {
                if level == value {
                    WaitAction::Finish
                } else {
                    WaitAction::Receive
                }
            },
            WaitEvent::Received(level) => {
                if level == value {
                    WaitAction::Finish
                } else {
                    WaitAction::Receive
                }
            },
            WaitEvent::StagedDiscarded => WaitAction::Receive,
        },
        WaitFor::Edge(value) => match event {
            WaitEvent::Received(level) => {
                if level == value {
                    WaitAction::Finish
                } else {
                    WaitAction::Receive
                }
            },
            _ => WaitAction::Receive,
        },
        WaitFor::AnyEdge => match event {
            WaitEvent::Started => WaitAction::DiscardStaged,
            WaitEvent::Received(_) => WaitAction::Finish,
            _ => WaitAction::Receive,
        },
    }
}

/// Law: a wait for a level or an edge is over after an interrupt exactly
/// when the interrupt reports the awaited level; a wait for any edge is over
/// with every interrupt.
pub proof fn law_wait_ends_on_awaited_level(value: bool, level: bool)
    ensures
        (next_wait_action(WaitFor::Level(value), WaitEvent::Received(level)) == WaitAction::Finish)
            <==> level == value,
        (next_wait_action(WaitFor::Edge(value), WaitEvent::Received(level)) == WaitAction::Finish)
            <==> level == value,
        next_wait_action(WaitFor::AnyEdge, WaitEvent::Received(level)) == WaitAction::Finish,
{
}

/// Law: a wait for a level starts by reading the pin and needs no interrupt
/// when the pin already has the level; a wait for an edge never ends without
/// an interrupt; a wait for any edge first throws away an interrupt that
/// arrived before it began.
pub proof fn law_wait_start(value: bool, level: bool)
    ensures
        next_wait_action(WaitFor::Level(value), WaitEvent::Started) == WaitAction::ReadLevel,
        (next_wait_action(WaitFor::Level(value), WaitEvent::LevelRead(level)) == WaitAction::Finish)
            <==> level == value,
        next_wait_action(WaitFor::Edge(value), WaitEvent::Started) == WaitAction::Receive,
        next_wait_action(WaitFor::Edge(value), WaitEvent::LevelRead(level)) == WaitAction::Receive,
        next_wait_action(WaitFor::AnyEdge, WaitEvent::Started) == WaitAction::DiscardStaged,
        next_wait_action(WaitFor::AnyEdge, WaitEvent::StagedDiscarded) == WaitAction::Receive,
{
}

/// Law: a wait is over only on news of what it waits for. A wait for a level
/// finishes only after a read or an interrupt that reports that level, a wait
/// for an edge only after an interrupt that reports the level the edge leads
/// to, a wait for any edge only after an interrupt.
pub proof fn law_wait_finishes_only_when_awaited(value: bool, event: WaitEvent)
    ensures
        next_wait_action(WaitFor::Level(value), event) == WaitAction::Finish ==> (event
            == WaitEvent::LevelRead(value) || event == WaitEvent::Received(value)),
        next_wait_action(WaitFor::Edge(value), event) == WaitAction::Finish ==> event
            == WaitEvent::Received(value),
        next_wait_action(WaitFor::AnyEdge, event) == WaitAction::Finish ==> event is Received,
{
}

/// Law: a wait that learns the pin has the other level keeps waiting for the
/// next interrupt: after a read of the wrong level, and after an interrupt
/// that reports the wrong level.
pub proof fn law_wait_blocks_on_other_level(value: bool)
    ensures
        next_wait_action(WaitFor::Level(value), WaitEvent::LevelRead(!value))
            == WaitAction::Receive,
        next_wait_action(WaitFor::Level(value), WaitEvent::Received(!value))
            == WaitAction::Receive,
        next_wait_action(WaitFor::Edge(value), WaitEvent::Received(!value))
            == WaitAction::Receive,
{
}

/// Law: each wait takes only the steps of its kind. Only a wait for a level
/// reads the pin, and only when it begins; only a wait for any edge throws
/// away a staged interrupt, and only when it begins.
pub proof fn law_wait_steps_of_its_kind(target: WaitFor, event: WaitEvent)
    ensures
        next_wait_action(target, event) == WaitAction::ReadLevel ==> target is Level && event
            == WaitEvent::Started,
        next_wait_action(target, event) == WaitAction::DiscardStaged ==> target == WaitFor::AnyEdge
            && event == WaitEvent::Started,
{
}

} // verus!
