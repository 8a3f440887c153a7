//! The exception handlers: one entry point for each event that the hardware
//! raises outside the main control flow.

use vstd::prelude::*;
use vstd::string::*;
use crate::fault::{report_of, Escalation, EscalationModel, FaultKind, Stage};
use crate::frame::{render_frame, ExceptionFrame};
use crate::sink::{action_for, channel_after, DiagnosticSink, SinkAction, SinkEvent};
use crate::text::{render_i16, signed_decimal};

verus! {

/// The character that the external-line handler writes on each firing.
pub const EXTI_MARK: char = 'i';

/// What the external-line handler asks of the hardware shell.
#[derive(Clone, Copy, Debug, PartialEq, Eq, Structural)]
pub enum LineAction {
    /// Open the handler's own diagnostic channel, then come back with
    /// `Opened` or `OpenFailed`.
    OpenChannel,
    /// Write this character to the handler's channel; a failed write is
    /// dropped.
    Emit(char),
    /// Return from the handler.
    Return,
}

/// The handler's action for what its sink decided.
pub open spec fn line_action(decision: SinkAction) -> LineAction {
    match decision {
        SinkAction::OpenChannel => LineAction::OpenChannel,
        SinkAction::Write => LineAction::Emit(EXTI_MARK),
        SinkAction::Skip => LineAction::Return,
    }
}

/// Handler of the external interrupt line. `state` is the handler's own sink,
/// which lives across firings. A firing is the event `Emit`: the first one
/// asks for the channel, and every one writes the mark if the channel is
/// there. Without a channel the handler returns at once.
pub fn exti0(state: &mut DiagnosticSink, event: SinkEvent) -> (action: LineAction)
    ensures
        final(state)@ == channel_after(old(state)@, event),
        action == line_action(action_for(old(state)@, event)),
{
    match state.on_event(event) {
        SinkAction::OpenChannel => LineAction::OpenChannel,
        SinkAction::Write => LineAction::Emit(EXTI_MARK),
        SinkAction::Skip => LineAction::Return,
    }
}

/// Monotonic count of the tick periods that have elapsed.
pub struct TickCounter {
    ticks: u64,
}

impl View for TickCounter {
    type V = nat;

    closed spec fn view(&self) -> nat {
        self.ticks as nat
    }
}

impl TickCounter {
    /// A counter that has seen no period yet.
    pub fn new() -> (counter: Self)
        ensures
            counter@ == 0,
    {
        TickCounter { ticks: 0 }
    }

    /// The number of periods counted.
    pub fn ticks(&self) -> (n: u64)
        ensures
            n == self@,
    {
        self.ticks
    }
}

/// The count after one more period: one higher, but for a counter that is
/// full, which stays as it is.
pub open spec fn ticked(count: nat) -> nat {
    if count < u64::MAX {
        count + 1
    } else {
        count
    }
}

/// The count after `periods` more periods.
pub open spec fn ticked_times(count: nat, periods: nat) -> nat
    decreases periods,
{
    if periods == 0 {
        count
    } else {
        ticked(ticked_times(count, (periods - 1) as nat))
    }
}

/// Handler of the periodic tick: counts one more period, and does nothing
/// else.
pub fn sys_tick(state: &mut TickCounter)
    ensures
        final(state)@ == ticked(old(state)@),
{
    state.ticks = state.ticks.saturating_add(1);
}

/// The counter goes up by exactly one for each period, as long as the count
/// fits the counter; it never goes down and never starts over.
pub proof fn lemma_ticks_count_periods(count: nat, periods: nat)
    requires
        count <= u64::MAX,
    ensures
        count <= ticked_times(count, periods) <= u64::MAX,
        count + periods <= u64::MAX ==> ticked_times(count, periods) == count + periods,
        periods > 0 ==> ticked_times(count, (periods - 1) as nat) <= ticked_times(count, periods),
    decreases periods,
{
    if periods > 0 {
        lemma_ticks_count_periods(count, (periods - 1) as nat);
    }
}

/// Text of the message for a hard fault whose frame prints as `frame_text`.
pub open spec fn hard_fault_message(frame_text: Seq<char>) -> Seq<char> {
    "HardFault at "@ + frame_text
}

/// Text of the message for an exception without a handler of its own.
pub open spec fn unhandled_message(irqn: i16) -> Seq<char> {
    "Unhandled exception (IRQn = "@ + signed_decimal(irqn as int) + ")"@
}

/// Enters the failure path for a hard fault, given the printed frame.
pub fn hard_fault_with_text(frame_text: &str) -> (escalation: Escalation)
    ensures
        escalation@ == (EscalationModel {
            kind: FaultKind::HardFault,
            report: report_of(hard_fault_message(frame_text@)),
            stage: Stage::Raised,
        }),
{
    let message = String::from_str("HardFault at ").concat(frame_text);
    Escalation::raise_with_message(FaultKind::HardFault, message)
}

/// Handler of the hard fault: always enters the failure path, with the
/// processor state that was captured.
pub fn hard_fault(ef: &ExceptionFrame) -> (escalation: Escalation)
    ensures
        escalation@ == (EscalationModel {
            kind: FaultKind::HardFault,
            report: report_of(hard_fault_message(ef.debug_text())),
            stage: Stage::Raised,
        }),
{
    let frame_text = render_frame(ef);
    hard_fault_with_text(frame_text.as_str())
}

/// Handler of every exception and interrupt that has no handler of its own:
/// always enters the failure path, with the number of the offender.
pub fn default_handler(irqn: i16) -> (escalation: Escalation)
    ensures
        escalation@ == (EscalationModel {
            kind: FaultKind::Unhandled,
            report: report_of(unhandled_message(irqn)),
            stage: Stage::Raised,
        }),
{
    let mut message = String::from_str("Unhandled exception (IRQn = ");
    let number = render_i16(irqn);
    message.append(number.as_str());
    message.append(")");
    assert(message@ =~= unhandled_message(irqn));
    Escalation::raise_with_message(FaultKind::Unhandled, message)
}

} // verus!
