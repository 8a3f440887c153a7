//! The terminal failure path: what is reported, and in which order the
//! processor is brought to rest.

use vstd::prelude::*;
use vstd::string::*;

verus! {

/// Why normal operation ended.
#[derive(Clone, Copy, Debug, PartialEq, Eq, Structural)]
pub enum FaultKind {
    /// A component found the program in an invalid state and said so.
    Explicit,
    /// The processor detected a fault.
    HardFault,
    /// An exception or interrupt fired that has no handler of its own.
    Unhandled,
    /// The allocator could not serve a request.
    OutOfMemory,
}

/// How far the shutdown protocol has come. Each stage is named after the
/// action that was issued last.
#[derive(Clone, Copy, Debug, PartialEq, Eq, Structural)]
pub enum Stage {
    /// The failure is known; nothing was done about it yet.
    Raised,
    /// Interrupts are being disabled.
    Masking,
    /// The diagnostic channel is being opened.
    Opening,
    /// The report is being written.
    Reporting,
    /// The debugger is being signalled.
    Breaking,
    /// The processor idles, for good.
    Halted,
}

/// What the hardware shell has to do next.
#[derive(Clone, Copy, Debug, PartialEq, Eq, Structural)]
pub enum EscalationAction {
    /// Disable all further interrupts.
    DisableInterrupts,
    /// Open the diagnostic channel, or take one that is open already.
    OpenChannel,
    /// Write the report to the channel.
    Write,
    /// Signal a breakpoint to the debugger.
    DebugBreak,
    /// Idle; there is nothing left to do, now or later.
    Idle,
}

/// The stage that follows `stage`. Only the attempt to open the channel
/// branches on how the previous action went: without a channel there is
/// nothing to write to. Failure of any other action is passed over.
pub open spec fn next_stage(stage: Stage, previous_ok: bool) -> Stage {
    match stage {
        Stage::Raised => Stage::Masking,
        Stage::Masking => Stage::Opening,
        Stage::Opening => if previous_ok {
            Stage::Reporting
        } else {
            Stage::Breaking
        },
        Stage::Reporting => Stage::Breaking,
        Stage::Breaking => Stage::Halted,
        Stage::Halted => Stage::Halted,
    }
}

/// The action that entering `stage` asks for.
pub open spec fn issued_at(stage: Stage) -> EscalationAction {
    match stage {
        Stage::Raised => EscalationAction::Idle,
        Stage::Masking => EscalationAction::DisableInterrupts,
        Stage::Opening => EscalationAction::OpenChannel,
        Stage::Reporting => EscalationAction::Write,
        Stage::Breaking => EscalationAction::DebugBreak,
        Stage::Halted => EscalationAction::Idle,
    }
}

/// The stage reached from `stage` after one step per entry of `outcomes`,
/// where `outcomes[i]` tells how the action before step `i` went.
pub open spec fn stage_after(stage: Stage, outcomes: Seq<bool>) -> Stage
    decreases outcomes.len(),
{
    if outcomes.len() == 0 {
        stage
    } else {
        next_stage(stage_after(stage, outcomes.drop_last()), outcomes.last())
    }
}

/// The action that step `i` of a run from `stage` asks for.
pub open spec fn action_at(stage: Stage, outcomes: Seq<bool>, i: int) -> EscalationAction {
    issued_at(stage_after(stage, outcomes.take(i + 1)))
}

/// An upper bound on the steps that are left until `Halted`.
pub open spec fn steps_left(stage: Stage) -> nat {
    match stage {
        Stage::Raised => 5,
        Stage::Masking => 4,
        Stage::Opening => 3,
        Stage::Reporting => 2,
        Stage::Breaking => 1,
        Stage::Halted => 0,
    }
}

/// Text of the report for a failure that carries `message`.
pub open spec fn report_of(message: Seq<char>) -> Seq<char> {
    message.push('\n')
}

/// Text of the report for an exhausted allocator.
pub open spec fn oom_report() -> Seq<char> {
    "out of memory"@
}

/// What an [`Escalation`] stands for.
pub struct EscalationModel {
    /// Why normal operation ended.
    pub kind: FaultKind,
    /// The text that goes to the diagnostic channel.
    pub report: Seq<char>,
    /// How far the protocol has come.
    pub stage: Stage,
}

/// The text of a report: a fixed one, which takes no memory to make, or one
/// put together for the occasion.
#[derive(Debug)]
enum Report {
    Fixed(&'static str),
    Built(String),
}

/// A failure on its one-way path to the halt. There is no way back from it:
/// every step moves towards `Halted`, and `Halted` is left by no step.
#[derive(Debug)]
pub struct Escalation {
    kind: FaultKind,
    report: Report,
    stage: Stage,
}

impl View for Escalation {
    type V = EscalationModel;

    closed spec fn view(&self) -> EscalationModel {
        EscalationModel {
            kind: self.kind,
            report: match self.report {
                Report::Fixed(text) => text@,
                Report::Built(text) => text@,
            },
            stage: self.stage,
        }
    }
}

impl Escalation {
    /// Enters the failure path with a fixed report, written as it stands.
    /// Nothing is allocated: this is the entry to take when memory has run
    /// out.
    pub(crate) fn raise_fixed(kind: FaultKind, report: &'static str) -> (escalation: Self)
        ensures
            escalation@ == (EscalationModel { kind, report: report@, stage: Stage::Raised }),
    {
        Escalation { kind, report: Report::Fixed(report), stage: Stage::Raised }
    }

    /// Enters the failure path with a one-line report that holds `message`.
    pub(crate) fn raise_with_message(kind: FaultKind, message: String) -> (escalation: Self)
        ensures
            escalation@ == (EscalationModel {
                kind,
                report: report_of(message@),
                stage: Stage::Raised,
            }),
    {
        proof {
            reveal_strlit("\n");
        }
        let report = message.concat("\n");
        assert(report@ =~= report_of(message@));
        Escalation { kind, report: Report::Built(report), stage: Stage::Raised }
    }

    /// Why normal operation ended.
    pub fn kind(&self) -> (kind: FaultKind)
        ensures
            kind == self@.kind,
    {
        self.kind
    }

    /// The text to write when `Write` is asked for.
    pub fn report(&self) -> (text: &str)
        ensures
            text@ == self@.report,
    {
        match &self.report {
            Report::Fixed(text) => text,
            Report::Built(text) => text.as_str(),
        }
    }

    /// How far the protocol has come.
    pub fn stage(&self) -> (stage: Stage)
        ensures
            stage == self@.stage,
    {
        self.stage
    }

    /// Whether the processor has been put to rest.
    pub fn is_halted(&self) -> (halted: bool)
        ensures
            halted == (self@.stage == Stage::Halted),
    {
        match self.stage {
            Stage::Halted => true,
            _ => false,
        }
    }

    /// Moves one step along the protocol and says what to do next.
    /// `previous_ok` tells whether the action asked for by the step before
    /// succeeded; on the first step there is none and the value is ignored.
    pub fn advance(&mut self, previous_ok: bool) -> (action: EscalationAction)
        ensures
            final(self)@ == (EscalationModel {
                stage: next_stage(old(self)@.stage, previous_ok),
                ..old(self)@
            }),
            action == issued_at(final(self)@.stage),
    {
        let next = match self.stage {
            Stage::Raised => Stage::Masking,
            Stage::Masking => Stage::Opening,
            Stage::Opening => if previous_ok {
                Stage::Reporting
            } else {
                Stage::Breaking
            },
            Stage::Reporting => Stage::Breaking,
            Stage::Breaking => Stage::Halted,
            Stage::Halted => Stage::Halted,
        };
        self.stage = next;
        match next {
            Stage::Raised => EscalationAction::Idle,
            Stage::Masking => EscalationAction::DisableInterrupts,
            Stage::Opening => EscalationAction::OpenChannel,
            Stage::Reporting => EscalationAction::Write,
            Stage::Breaking => EscalationAction::DebugBreak,
            Stage::Halted => EscalationAction::Idle,
        }
    }
}

/// Entry of the failure path for an explicit failure signal: the report is
/// the message on a line of its own.
pub fn panic(message: &str) -> (escalation: Escalation)
    ensures
        escalation@ == (EscalationModel {
            kind: FaultKind::Explicit,
            report: report_of(message@),
            stage: Stage::Raised,
        }),
{
    Escalation::raise_with_message(FaultKind::Explicit, String::from_str(message))
}

/// Every step brings the halt nearer by at least one, whatever the actions
/// before it came to.
pub proof fn lemma_steps_left_decrease(stage: Stage, outcomes: Seq<bool>)
    ensures
        steps_left(stage_after(stage, outcomes)) + outcomes.len() <= steps_left(stage)
            || stage_after(stage, outcomes) == Stage::Halted,
    decreases outcomes.len(),
{
    if outcomes.len() > 0 {
        lemma_steps_left_decrease(stage, outcomes.drop_last());
    }
}

/// The halt is reached after five steps at most, and no later step leaves
/// it: the system never resumes.
pub proof fn lemma_halts_and_stays_halted(stage: Stage, outcomes: Seq<bool>)
    requires
        outcomes.len() >= steps_left(stage),
    ensures
        stage_after(stage, outcomes) == Stage::Halted,
        issued_at(stage_after(stage, outcomes)) == EscalationAction::Idle,
{
    lemma_steps_left_decrease(stage, outcomes);
}

/// The protocol in order, from a fresh failure: interrupts are disabled
/// first; then the channel is opened; the report is written if and only if
/// that succeeded; the debugger is signalled in either case; everything after
/// that is idling. No outcome other than that of the open changes the order.
pub proof fn lemma_protocol_order(outcomes: Seq<bool>, i: int)
    requires
        0 <= i < outcomes.len(),
    ensures
        i == 0 ==> action_at(Stage::Raised, outcomes, i) == EscalationAction::DisableInterrupts,
        i == 1 ==> action_at(Stage::Raised, outcomes, i) == EscalationAction::OpenChannel,
        i == 2 ==> action_at(Stage::Raised, outcomes, i) == if outcomes[2] {
            EscalationAction::Write
        } else {
            EscalationAction::DebugBreak
        },
        i == 3 ==> action_at(Stage::Raised, outcomes, i) == if outcomes[2] {
            EscalationAction::DebugBreak
        } else {
            EscalationAction::Idle
        },
        i >= 4 ==> action_at(Stage::Raised, outcomes, i) == EscalationAction::Idle,
{
    let s0 = outcomes.take(0);
    let s1 = outcomes.take(1);
    let s2 = outcomes.take(2);
    let s3 = outcomes.take(3);
    let s4 = outcomes.take(4);
    assert(stage_after(Stage::Raised, s0) == Stage::Raised);
    if i >= 0 {
        assert(s1.drop_last() =~= s0);
        assert(stage_after(Stage::Raised, s1) == Stage::Masking);
    }
    if i >= 1 {
        assert(s2.drop_last() =~= s1);
        assert(stage_after(Stage::Raised, s2) == Stage::Opening);
    }
    if i >= 2 {
        assert(s3.drop_last() =~= s2);
        assert(s3.last() == outcomes[2]);
        assert(stage_after(Stage::Raised, s3) == next_stage(Stage::Opening, outcomes[2]));
    }
    if i >= 3 {
        assert(s4.drop_last() =~= s3);
        assert(stage_after(Stage::Raised, s4) == next_stage(
            next_stage(Stage::Opening, outcomes[2]),
            outcomes[3],
        ));
    }
    if i >= 4 {
        lemma_halts_and_stays_halted(Stage::Raised, outcomes.take(i + 1));
    }
}

} // verus!
