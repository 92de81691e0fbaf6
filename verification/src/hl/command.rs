//! What each pin operation writes to the expander.
//!
//! Every operation is a list of register changes, carried out in order while
//! the caller holds the bus: read the register, replace the pin's bit with
//! [`Pin::set_bit`], write the register back. Read as a change of the
//! expander's registers, carrying out a list is [`run_changes`].
use vstd::prelude::*;

use crate::hl::{
    lemma_pin_bits,
    law_pin_write_overwrites,
    pin_level,
    with_pin_level,
    Floating,
    Input,
    Output,
    Pin,
    PullDown,
    PullUp,
};
use crate::ll::Register;
use crate::Mode;

verus! {

/// One read-modify-write of a register: the pin's bit in `register` becomes
/// `level`, every other bit keeps its value.
#[derive(Clone, Copy, Debug, PartialEq, Eq, Structural)]
pub struct RegisterChange {
    pub register: Register,
    pub level: bool,
}

/// The change that sets the pin's bit in `register` to `level`.
pub open spec fn change(register: Register, level: bool) -> RegisterChange {
    RegisterChange { register, level }
}

/// Floating input: disconnect the pull resistor, then make the pin an input.
pub open spec fn into_input_changes() -> Seq<RegisterChange> {
    seq![change(Register::PullUpDownEnable, false), change(Register::Configuration, true)]
}

/// Output: store the level to drive first, then make the pin an output, so
/// that it never drives a stale level.
pub open spec fn into_output_changes(value: bool) -> Seq<RegisterChange> {
    seq![change(Register::Output, value), change(Register::Configuration, false)]
}

/// Latch (or stop latching) the pin's input change.
pub open spec fn set_input_latch_changes(value: bool) -> Seq<RegisterChange> {
    seq![change(Register::InputLatch, value)]
}

/// Pull-up: select pull-up, then connect the resistor.
pub open spec fn into_pull_up_changes() -> Seq<RegisterChange> {
    seq![change(Register::PullUpDownSelection, true), change(Register::PullUpDownEnable, true)]
}

/// Pull-down: select pull-down, then connect the resistor.
pub open spec fn into_pull_down_changes() -> Seq<RegisterChange> {
    seq![change(Register::PullUpDownSelection, false), change(Register::PullUpDownEnable, true)]
}

/// No pull: disconnect the resistor.
pub open spec fn into_pull_floating_changes() -> Seq<RegisterChange> {
    seq![change(Register::PullUpDownEnable, false)]
}

/// Interrupts on (`enabled`) or off: latch the input while they are on and
/// unmask the pin; the mask bit is set to mask the pin, hence `!enabled`.
pub open spec fn configure_interrupt_changes(enabled: bool) -> Seq<RegisterChange> {
    seq![change(Register::InputLatch, enabled), change(Register::InterruptMask, !enabled)]
}

/// Drive `value` on an output pin.
pub open spec fn set_value_changes(value: bool) -> Seq<RegisterChange> {
    seq![change(Register::Output, value)]
}

/// The expander's registers after `c` was carried out for pin `idx`.
pub open spec fn apply_change(regs: spec_fn(Register) -> u16, idx: u16, c: RegisterChange) -> spec_fn(
    Register,
) -> u16 {
    |r: Register|
        if r == c.register {
            with_pin_level(regs(r), idx, c.level)
        } else {
            regs(r)
        }
}

/// The expander's registers after `changes` were carried out in order for
/// pin `idx`, starting from `regs`.
pub open spec fn run_changes(
    regs: spec_fn(Register) -> u16,
    idx: u16,
    changes: Seq<RegisterChange>,
) -> spec_fn(Register) -> u16
    decreases changes.len(),
{
    if changes.len() == 0 {
        regs
    } else {
        apply_change(run_changes(regs, idx, changes.drop_last()), idx, changes.last())
    }
}

/// The level that the last change to `r` in `changes` writes, if any does.
pub open spec fn last_level(changes: Seq<RegisterChange>, r: Register) -> Option<bool>
    decreases changes.len(),
{
    if changes.len() == 0 {
        None
    } else if changes.last().register == r {
        Some(changes.last().level)
    } else {
        last_level(changes.drop_last(), r)
    }
}

/// In `after`, pin `idx` has `level` and every other pin the value it had in
/// `before`.
pub open spec fn pin_set_to(before: u16, after: u16, idx: u16, level: bool) -> bool {
    &&& pin_level(after, idx) == level
    &&& forall|j: u16| #![trigger pin_level(after, j)] j < 16 && j != idx ==> pin_level(after, j) == pin_level(before, j)
}

/// Law: carrying out a list of changes for one pin leaves each register as
/// the last change to it left the pin's bit, and untouched if no change names
/// it.
pub proof fn law_run_changes(regs: spec_fn(Register) -> u16, idx: u16, changes: Seq<RegisterChange>, r: Register)
    requires
        idx < 16,
    ensures
        run_changes(regs, idx, changes)(r) == match last_level(changes, r) {
            Some(level) => with_pin_level(regs(r), idx, level),
            None => regs(r),
        },
    decreases changes.len(),
{
    if changes.len() > 0 {
        law_run_changes(regs, idx, changes.drop_last(), r);
        if changes.last().register == r {
            match last_level(changes.drop_last(), r) {
                Some(level) => {
                    law_pin_write_overwrites(regs(r), idx, level, changes.last().level);
                },
                None => {},
            }
        }
    }
}

/// Law: after a pin's bit is written, the pin reads back the level written
/// and every other pin reads as before.
pub proof fn law_pin_write_reads_back(value: u16, idx: u16, level: bool)
    requires
        idx < 16,
    ensures
        pin_set_to(value, with_pin_level(value, idx, level), idx, level),
{
    lemma_pin_bits(value, idx, idx, level);
    assert forall|j: u16| j < 16 && j != idx implies pin_level(with_pin_level(value, idx, level), j)
        == pin_level(value, j) by {
        lemma_pin_bits(value, idx, j, level);
    }
}

/// What a two-change list does: `first`'s register gets `first.level` at pin
/// `idx`, `second`'s register `second.level`, the rest stays.
proof fn lemma_two_changes(
    regs: spec_fn(Register) -> u16,
    idx: u16,
    first: RegisterChange,
    second: RegisterChange,
)
    requires
        idx < 16,
        first.register != second.register,
    ensures
        ({
            let after = run_changes(regs, idx, seq![first, second]);
            &&& pin_set_to(regs(first.register), after(first.register), idx, first.level)
            &&& pin_set_to(regs(second.register), after(second.register), idx, second.level)
            &&& forall|r: Register|
                r != first.register && r != second.register ==> #[trigger] after(r) == regs(r)
        }),
{
    let one = seq![first];
    let changes = seq![first, second];
    assert(one.drop_last() == Seq::<RegisterChange>::empty());
    assert(run_changes(regs, idx, Seq::<RegisterChange>::empty()) == regs);
    assert(one.last() == first);
    assert(changes.last() == second);
    assert(changes.drop_last() == one);
    assert(run_changes(regs, idx, one) == apply_change(regs, idx, first));
    assert(run_changes(regs, idx, changes) == apply_change(apply_change(regs, idx, first), idx, second));
    law_pin_write_reads_back(regs(first.register), idx, first.level);
    law_pin_write_reads_back(regs(second.register), idx, second.level);
}

/// What a one-change list does.
proof fn lemma_one_change(regs: spec_fn(Register) -> u16, idx: u16, only: RegisterChange)
    requires
        idx < 16,
    ensures
        ({
            let after = run_changes(regs, idx, seq![only]);
            &&& pin_set_to(regs(only.register), after(only.register), idx, only.level)
            &&& forall|r: Register| r != only.register ==> #[trigger] after(r) == regs(r)
        }),
{
    let changes = seq![only];
    assert(changes.drop_last() == Seq::<RegisterChange>::empty());
    assert(run_changes(regs, idx, Seq::<RegisterChange>::empty()) == regs);
    assert(changes.last() == only);
    assert(run_changes(regs, idx, changes) == apply_change(regs, idx, only));
    law_pin_write_reads_back(regs(only.register), idx, only.level);
}

/// The registers at each point of a two-change list: before it, after its
/// first change, and after both.
proof fn lemma_two_change_prefixes(
    regs: spec_fn(Register) -> u16,
    idx: u16,
    first: RegisterChange,
    second: RegisterChange,
)
    requires
        idx < 16,
        first.register != second.register,
    ensures
        run_changes(regs, idx, seq![first, second].take(0)) == regs,
        ({
            let mid = run_changes(regs, idx, seq![first, second].take(1));
            &&& pin_set_to(regs(first.register), mid(first.register), idx, first.level)
            &&& forall|r: Register| r != first.register ==> #[trigger] mid(r) == regs(r)
        }),
        ({
            let after = run_changes(regs, idx, seq![first, second].take(2));
            &&& pin_set_to(regs(first.register), after(first.register), idx, first.level)
            &&& pin_set_to(regs(second.register), after(second.register), idx, second.level)
            &&& forall|r: Register|
                r != first.register && r != second.register ==> #[trigger] after(r) == regs(r)
        }),
{
    assert(seq![first, second].take(0) == Seq::<RegisterChange>::empty());
    assert(run_changes(regs, idx, Seq::<RegisterChange>::empty()) == regs);
    assert(seq![first, second].take(1) == seq![first]);
    assert(seq![first, second].take(2) == seq![first, second]);
    lemma_one_change(regs, idx, first);
    lemma_two_changes(regs, idx, first, second);
}

/// Law: `into_output(value)` never makes the pin drive another level. From
/// its first change on, the pin's output bit holds `value`, so at no point of
/// the operation is the pin an output that it has turned into one while its
/// output bit holds anything else.
pub proof fn law_into_output_drives_only_value(regs: spec_fn(Register) -> u16, idx: u16, value: bool)
    requires
        idx < 16,
    ensures
        forall|k: int|
            #![trigger into_output_changes(value).take(k)]
            1 <= k <= into_output_changes(value).len() ==> pin_level(
                run_changes(regs, idx, into_output_changes(value).take(k))(Register::Output),
                idx,
            ) == value,
        forall|k: int|
            #![trigger into_output_changes(value).take(k)]
            0 <= k <= into_output_changes(value).len() && pin_level(regs(Register::Configuration), idx)
                && !pin_level(
                run_changes(regs, idx, into_output_changes(value).take(k))(Register::Configuration),
                idx,
            ) ==> pin_level(
                run_changes(regs, idx, into_output_changes(value).take(k))(Register::Output),
                idx,
            ) == value,
{
    lemma_two_change_prefixes(regs, idx, change(Register::Output, value), change(Register::Configuration, false));
}

/// Law: `into_input` disconnects the pull resistor first. From its first
/// change on the resistor is off, and an output pin that it has turned into an
/// input never has its resistor connected.
pub proof fn law_into_input_floats_first(regs: spec_fn(Register) -> u16, idx: u16)
    requires
        idx < 16,
    ensures
        forall|k: int|
            #![trigger into_input_changes().take(k)]
            1 <= k <= into_input_changes().len() ==> !pin_level(
                run_changes(regs, idx, into_input_changes().take(k))(Register::PullUpDownEnable),
                idx,
            ),
        forall|k: int|
            #![trigger into_input_changes().take(k)]
            0 <= k <= into_input_changes().len() && !pin_level(regs(Register::Configuration), idx)
                && pin_level(
                run_changes(regs, idx, into_input_changes().take(k))(Register::Configuration),
                idx,
            ) ==> !pin_level(
                run_changes(regs, idx, into_input_changes().take(k))(Register::PullUpDownEnable),
                idx,
            ),
{
    lemma_two_change_prefixes(regs, idx, change(Register::PullUpDownEnable, false), change(Register::Configuration, true));
}

/// Law: `into_pull_up` selects pull-up before it connects the resistor. From
/// its first change on the selection is pull-up, and a resistor that it has
/// connected never pulls down.
pub proof fn law_into_pull_up_selects_first(regs: spec_fn(Register) -> u16, idx: u16)
    requires
        idx < 16,
    ensures
        forall|k: int|
            #![trigger into_pull_up_changes().take(k)]
            1 <= k <= into_pull_up_changes().len() ==> pin_level(
                run_changes(regs, idx, into_pull_up_changes().take(k))(Register::PullUpDownSelection),
                idx,
            ),
        forall|k: int|
            #![trigger into_pull_up_changes().take(k)]
            0 <= k <= into_pull_up_changes().len() && !pin_level(regs(Register::PullUpDownEnable), idx)
                && pin_level(
                run_changes(regs, idx, into_pull_up_changes().take(k))(Register::PullUpDownEnable),
                idx,
            ) ==> pin_level(
                run_changes(regs, idx, into_pull_up_changes().take(k))(Register::PullUpDownSelection),
                idx,
            ),
{
    lemma_two_change_prefixes(regs, idx, change(Register::PullUpDownSelection, true), change(Register::PullUpDownEnable, true));
}

/// Law: `into_pull_down` selects pull-down before it connects the resistor.
/// From its first change on the selection is pull-down, and a resistor that it
/// has connected never pulls up.
pub proof fn law_into_pull_down_selects_first(regs: spec_fn(Register) -> u16, idx: u16)
    requires
        idx < 16,
    ensures
        forall|k: int|
            #![trigger into_pull_down_changes().take(k)]
            1 <= k <= into_pull_down_changes().len() ==> !pin_level(
                run_changes(regs, idx, into_pull_down_changes().take(k))(Register::PullUpDownSelection),
                idx,
            ),
        forall|k: int|
            #![trigger into_pull_down_changes().take(k)]
            0 <= k <= into_pull_down_changes().len() && !pin_level(regs(Register::PullUpDownEnable), idx)
                && pin_level(
                run_changes(regs, idx, into_pull_down_changes().take(k))(Register::PullUpDownEnable),
                idx,
            ) ==> !pin_level(
                run_changes(regs, idx, into_pull_down_changes().take(k))(Register::PullUpDownSelection),
                idx,
            ),
{
    lemma_two_change_prefixes(regs, idx, change(Register::PullUpDownSelection, false), change(Register::PullUpDownEnable, true));
}

/// Law: turning a pin's interrupt on latches its input before it unmasks it.
/// From the first change on the latch bit holds `enabled`, and when
/// interrupts are turned on, a pin that it has unmasked always has its input
/// latched.
pub proof fn law_configure_interrupt_latches_first(regs: spec_fn(Register) -> u16, idx: u16, enabled: bool)
    requires
        idx < 16,
    ensures
        forall|k: int|
            #![trigger configure_interrupt_changes(enabled).take(k)]
            1 <= k <= configure_interrupt_changes(enabled).len() ==> pin_level(
                run_changes(regs, idx, configure_interrupt_changes(enabled).take(k))(Register::InputLatch),
                idx,
            ) == enabled,
        forall|k: int|
            #![trigger configure_interrupt_changes(enabled).take(k)]
            enabled && 0 <= k <= configure_interrupt_changes(enabled).len() && pin_level(
                regs(Register::InterruptMask),
                idx,
            ) && !pin_level(
                run_changes(regs, idx, configure_interrupt_changes(enabled).take(k))(Register::InterruptMask),
                idx,
            ) ==> pin_level(
                run_changes(regs, idx, configure_interrupt_changes(enabled).take(k))(Register::InputLatch),
                idx,
            ),
{
    lemma_two_change_prefixes(regs, idx, change(Register::InputLatch, enabled), change(Register::InterruptMask, !enabled));
}

/// Law: after `into_input` the pin is an input without pull resistor; no
/// other pin and no other register changes.
pub proof fn law_into_input(regs: spec_fn(Register) -> u16, idx: u16)
    requires
        idx < 16,
    ensures
        ({
            let after = run_changes(regs, idx, into_input_changes());
            &&& pin_set_to(regs(Register::PullUpDownEnable), after(Register::PullUpDownEnable), idx, false)
            &&& pin_set_to(regs(Register::Configuration), after(Register::Configuration), idx, true)
            &&& forall|r: Register|
                r != Register::PullUpDownEnable && r != Register::Configuration ==> #[trigger] after(r) == regs(r)
        }),
{
    lemma_two_changes(regs, idx, change(Register::PullUpDownEnable, false), change(Register::Configuration, true));
}

/// Law: after `into_output(value)` the pin is an output that drives `value`;
/// no other pin and no other register changes.
pub proof fn law_into_output(regs: spec_fn(Register) -> u16, idx: u16, value: bool)
    requires
        idx < 16,
    ensures
        ({
            let after = run_changes(regs, idx, into_output_changes(value));
            &&& pin_set_to(regs(Register::Output), after(Register::Output), idx, value)
            &&& pin_set_to(regs(Register::Configuration), after(Register::Configuration), idx, false)
            &&& forall|r: Register|
                r != Register::Output && r != Register::Configuration ==> #[trigger] after(r) == regs(r)
        }),
{
    lemma_two_changes(regs, idx, change(Register::Output, value), change(Register::Configuration, false));
}

/// Law: after `set_input_latch(value)` the pin's latch bit is `value`, all
/// else is unchanged.
pub proof fn law_set_input_latch(regs: spec_fn(Register) -> u16, idx: u16, value: bool)
    requires
        idx < 16,
    ensures
        ({
            let after = run_changes(regs, idx, set_input_latch_changes(value));
            &&& pin_set_to(regs(Register::InputLatch), after(Register::InputLatch), idx, value)
            &&& forall|r: Register| r != Register::InputLatch ==> #[trigger] after(r) == regs(r)
        }),
{
    lemma_one_change(regs, idx, change(Register::InputLatch, value));
}

/// Law: after `into_pull_up` the pin's resistor is connected and pulls up;
/// all else is unchanged.
pub proof fn law_into_pull_up(regs: spec_fn(Register) -> u16, idx: u16)
    requires
        idx < 16,
    ensures
        ({
            let after = run_changes(regs, idx, into_pull_up_changes());
            &&& pin_set_to(regs(Register::PullUpDownSelection), after(Register::PullUpDownSelection), idx, true)
            &&& pin_set_to(regs(Register::PullUpDownEnable), after(Register::PullUpDownEnable), idx, true)
            &&& forall|r: Register|
                r != Register::PullUpDownSelection && r != Register::PullUpDownEnable ==> #[trigger] after(r) == regs(r)
        }),
{
    lemma_two_changes(regs, idx, change(Register::PullUpDownSelection, true), change(Register::PullUpDownEnable, true));
}

/// Law: after `into_pull_down` the pin's resistor is connected and pulls
/// down; all else is unchanged.
pub proof fn law_into_pull_down(regs: spec_fn(Register) -> u16, idx: u16)
    requires
        idx < 16,
    ensures
        ({
            let after = run_changes(regs, idx, into_pull_down_changes());
            &&& pin_set_to(regs(Register::PullUpDownSelection), after(Register::PullUpDownSelection), idx, false)
            &&& pin_set_to(regs(Register::PullUpDownEnable), after(Register::PullUpDownEnable), idx, true)
            &&& forall|r: Register|
                r != Register::PullUpDownSelection && r != Register::PullUpDownEnable ==> #[trigger] after(r) == regs(r)
        }),
{
    lemma_two_changes(regs, idx, change(Register::PullUpDownSelection, false), change(Register::PullUpDownEnable, true));
}

/// Law: after `into_pull_floating` the pin's resistor is disconnected; all
/// else is unchanged.
pub proof fn law_into_pull_floating(regs: spec_fn(Register) -> u16, idx: u16)
    requires
        idx < 16,
    ensures
        ({
            let after = run_changes(regs, idx, into_pull_floating_changes());
            &&& pin_set_to(regs(Register::PullUpDownEnable), after(Register::PullUpDownEnable), idx, false)
            &&& forall|r: Register| r != Register::PullUpDownEnable ==> #[trigger] after(r) == regs(r)
        }),
{
    lemma_one_change(regs, idx, change(Register::PullUpDownEnable, false));
}

/// Law: after configuring interrupts (`enabled`) the pin's input is latched
/// and its interrupt unmasked exactly when they are enabled; all else is
/// unchanged.
pub proof fn law_configure_interrupt(regs: spec_fn(Register) -> u16, idx: u16, enabled: bool)
    requires
        idx < 16,
    ensures
        ({
            let after = run_changes(regs, idx, configure_interrupt_changes(enabled));
            &&& pin_set_to(regs(Register::InputLatch), after(Register::InputLatch), idx, enabled)
            &&& pin_set_to(regs(Register::InterruptMask), after(Register::InterruptMask), idx, !enabled)
            &&& forall|r: Register|
                r != Register::InputLatch && r != Register::InterruptMask ==> #[trigger] after(r) == regs(r)
        }),
{
    lemma_two_changes(regs, idx, change(Register::InputLatch, enabled), change(Register::InterruptMask, !enabled));
}

/// Law: turning a pin's interrupt on and then off again leaves its input
/// unlatched and its interrupt masked; every other pin and every other
/// register is as it was before.
pub proof fn law_interrupt_on_then_off(regs: spec_fn(Register) -> u16, idx: u16)
    requires
        idx < 16,
    ensures
        ({
            let on = run_changes(regs, idx, configure_interrupt_changes(true));
            let off = run_changes(on, idx, configure_interrupt_changes(false));
            &&& pin_set_to(regs(Register::InputLatch), off(Register::InputLatch), idx, false)
            &&& pin_set_to(regs(Register::InterruptMask), off(Register::InterruptMask), idx, true)
            &&& forall|r: Register|
                r != Register::InputLatch && r != Register::InterruptMask ==> #[trigger] off(r) == regs(r)
        }),
{
    let on = run_changes(regs, idx, configure_interrupt_changes(true));
    law_configure_interrupt(regs, idx, true);
    law_configure_interrupt(on, idx, false);
}

/// Law: after `set_value(value)` the output pin drives `value`; all else is
/// unchanged.
pub proof fn law_set_value(regs: spec_fn(Register) -> u16, idx: u16, value: bool)
    requires
        idx < 16,
    ensures
        ({
            let after = run_changes(regs, idx, set_value_changes(value));
            &&& pin_set_to(regs(Register::Output), after(Register::Output), idx, value)
            &&& forall|r: Register| r != Register::Output ==> #[trigger] after(r) == regs(r)
        }),
{
    lemma_one_change(regs, idx, change(Register::Output, value));
}


impl<DIR, MODE: Mode> Pin<DIR, MODE> {
    /// Makes the pin a floating input. Returns the pin as an input and the
    /// changes to carry out for it.
    pub fn into_input(self) -> (r: (Pin<Input<Floating>, MODE>, Vec<RegisterChange>))
        ensures
            r.0.index() == self.index(),
            r.1@ == into_input_changes(),
            r.1@ == seq![
                change(Register::PullUpDownEnable, false),
                change(Register::Configuration, true),
            ],
    {
        let changes = vec![
            RegisterChange { register: Register::PullUpDownEnable, level: false },
            RegisterChange { register: Register::Configuration, level: true },
        ];
        (self.transform(), changes)
    }

    /// Makes the pin an output that drives `value`. Returns the pin as an
    /// output and the changes to carry out for it.
    pub fn into_output(self, value: bool) -> (r: (Pin<Output, MODE>, Vec<RegisterChange>))
        ensures
            r.0.index() == self.index(),
            r.1@ == into_output_changes(value),
            r.1@ == seq![change(Register::Output, value), change(Register::Configuration, false)],
    {
        let changes = vec![
            RegisterChange { register: Register::Output, level: value },
            RegisterChange { register: Register::Configuration, level: false },
        ];
        (self.transform(), changes)
    }
}

impl<PULLUPDOWN, MODE: Mode> Pin<Input<PULLUPDOWN>, MODE> {
    /// The changes that make the pin latch (`value`) or stop latching its
    /// input.
    pub fn set_input_latch(&self, value: bool) -> (changes: Vec<RegisterChange>)
        ensures
            changes@ == set_input_latch_changes(value),
            changes@ == seq![change(Register::InputLatch, value)],
    {
        vec![RegisterChange { register: Register::InputLatch, level: value }]
    }

    /// Connects a pull-up resistor to the pin. Returns the pin as a pulled-up
    /// input and the changes to carry out for it.
    pub fn into_pull_up(self) -> (r: (Pin<Input<PullUp>, MODE>, Vec<RegisterChange>))
        ensures
            r.0.index() == self.index(),
            r.1@ == into_pull_up_changes(),
            r.1@ == seq![
                change(Register::PullUpDownSelection, true),
                change(Register::PullUpDownEnable, true),
            ],
    {
        let changes = vec![
            RegisterChange { register: Register::PullUpDownSelection, level: true },
            RegisterChange { register: Register::PullUpDownEnable, level: true },
        ];
        (self.transform(), changes)
    }

    /// Connects a pull-down resistor to the pin. Returns the pin as a
    /// pulled-down input and the changes to carry out for it.
    pub fn into_pull_down(self) -> (r: (Pin<Input<PullDown>, MODE>, Vec<RegisterChange>))
        ensures
            r.0.index() == self.index(),
            r.1@ == into_pull_down_changes(),
            r.1@ == seq![
                change(Register::PullUpDownSelection, false),
                change(Register::PullUpDownEnable, true),
            ],
    {
        let changes = vec![
            RegisterChange { register: Register::PullUpDownSelection, level: false },
            RegisterChange { register: Register::PullUpDownEnable, level: true },
        ];
        (self.transform(), changes)
    }

    /// Disconnects the pin's pull resistor. Returns the pin as a floating
    /// input and the changes to carry out for it.
    pub fn into_pull_floating(self) -> (r: (Pin<Input<Floating>, MODE>, Vec<RegisterChange>))
        ensures
            r.0.index() == self.index(),
            r.1@ == into_pull_floating_changes(),
            r.1@ == seq![change(Register::PullUpDownEnable, false)],
    {
        let changes = vec![RegisterChange { register: Register::PullUpDownEnable, level: false }];
        (self.transform(), changes)
    }

    /// The changes that turn the pin's interrupt on (`enabled`) or off.
    pub fn configure_interrupt(&self, enabled: bool) -> (changes: Vec<RegisterChange>)
        ensures
            changes@ == configure_interrupt_changes(enabled),
            changes@ == seq![
                change(Register::InputLatch, enabled),
                change(Register::InterruptMask, !enabled),
            ],
    {
        vec![
            RegisterChange { register: Register::InputLatch, level: enabled },
            RegisterChange { register: Register::InterruptMask, level: !enabled },
        ]
    }
}

impl<MODE: Mode> Pin<Output, MODE> {
    /// The changes that make the output pin drive `value`.
    pub fn set_value(&self, value: bool) -> (changes: Vec<RegisterChange>)
        ensures
            changes@ == set_value_changes(value),
            changes@ == seq![change(Register::Output, value)],
    {
        vec![RegisterChange { register: Register::Output, level: value }]
    }
}

} // verus!
