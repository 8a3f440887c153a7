//! The main control loop: from the level of the input line to the output
//! line and the software-triggered interrupt.

use vstd::prelude::*;
use crate::line::{count_set, lemma_one_entry_per_trigger, LineModel};

verus! {

/// The line that the process writes to its diagnostic channel on start,
/// before it enters the loop.
pub const GREETING: &'static str = "Hello, world!\n";

/// What one pass of the loop asks of the hardware shell.
#[derive(Clone, Copy, Debug, PartialEq, Eq, Structural)]
pub struct LoopAction {
    /// Invert the output line.
    pub toggle_output: bool,
    /// Mark the external interrupt line as pending.
    pub raise_interrupt: bool,
}

/// What a [`ControlLoop`] stands for.
pub struct ControlModel {
    /// The input level seen last.
    pub previous: bool,
    /// The level of the output line.
    pub output: bool,
}

impl ControlModel {
    /// The answer to the input level `input`: every change of level raises
    /// the interrupt; only a change to the active level, a press, toggles the
    /// output.
    pub open spec fn reaction(self, input: bool) -> LoopAction {
        LoopAction {
            toggle_output: input && !self.previous,
            raise_interrupt: input != self.previous,
        }
    }

    /// The loop after it saw `input`.
    pub open spec fn observe(self, input: bool) -> ControlModel {
        ControlModel {
            previous: input,
            output: if input && !self.previous {
                !self.output
            } else {
                self.output
            },
        }
    }

    /// The loop after it saw `samples`, one per pass.
    pub open spec fn observe_all(self, samples: Seq<bool>) -> ControlModel
        decreases samples.len(),
    {
        if samples.len() == 0 {
            self
        } else {
            self.observe_all(samples.drop_last()).observe(samples.last())
        }
    }

    /// The answer of pass `i`.
    pub open spec fn reaction_at(self, samples: Seq<bool>, i: int) -> LoopAction
        recommends
            0 <= i < samples.len(),
    {
        self.observe_all(samples.take(i)).reaction(samples[i])
    }

    /// For each pass, whether it toggles the output.
    pub open spec fn toggle_flags(self, samples: Seq<bool>) -> Seq<bool> {
        Seq::new(samples.len(), |i: int| self.reaction_at(samples, i).toggle_output)
    }

    /// For each pass, whether it raises the interrupt.
    pub open spec fn raise_flags(self, samples: Seq<bool>) -> Seq<bool> {
        Seq::new(samples.len(), |i: int| self.reaction_at(samples, i).raise_interrupt)
    }
}

/// The input level that came before sample `i`: the sample before it, or for
/// the first one the level at the start.
pub open spec fn level_before(initial: bool, samples: Seq<bool>, i: int) -> bool {
    if i <= 0 {
        initial
    } else {
        samples[i - 1]
    }
}

/// For each sample, whether it is a press: the level is active and was not
/// before.
pub open spec fn press_flags(initial: bool, samples: Seq<bool>) -> Seq<bool> {
    Seq::new(samples.len(), |i: int| samples[i] && !level_before(initial, samples, i))
}

/// For each sample, whether the level differs from the one before.
pub open spec fn change_flags(initial: bool, samples: Seq<bool>) -> Seq<bool> {
    Seq::new(samples.len(), |i: int| samples[i] != level_before(initial, samples, i))
}

/// The supervisory loop between the input line and the output line. It
/// filters nothing: every change of level counts, however short.
pub struct ControlLoop {
    previous: bool,
    output: bool,
}

impl View for ControlLoop {
    type V = ControlModel;

    closed spec fn view(&self) -> ControlModel {
        ControlModel { previous: self.previous, output: self.output }
    }
}

impl ControlLoop {
    /// The loop at its entry, with the levels that the two lines have then.
    pub fn start(input: bool, output: bool) -> (control: Self)
        ensures
            control@ == (ControlModel { previous: input, output }),
    {
        ControlLoop { previous: input, output }
    }

    /// One pass of the loop with the input level that was read.
    pub fn step(&mut self, input: bool) -> (action: LoopAction)
        ensures
            final(self)@ == old(self)@.observe(input),
            action == old(self)@.reaction(input),
    {
        let changed = input != self.previous;
        let pressed = changed && input;
        if pressed {
            self.output = !self.output;
        }
        self.previous = input;
        LoopAction { toggle_output: pressed, raise_interrupt: changed }
    }

    /// The input level seen last.
    pub fn previous_input(&self) -> (level: bool)
        ensures
            level == self@.previous,
    {
        self.previous
    }

    /// The level of the output line.
    pub fn output(&self) -> (level: bool)
        ensures
            level == self@.output,
    {
        self.output
    }
}

/// The loop remembers the last level it saw, and nothing older.
pub proof fn lemma_last_level_is_remembered(model: ControlModel, samples: Seq<bool>)
    ensures
        model.observe_all(samples).previous == level_before(
            model.previous,
            samples,
            samples.len() as int,
        ),
{
}

/// For every sequence of input levels, a pass toggles the output if and only
/// if its sample is a press, and raises the interrupt if and only if its
/// sample differs from the one before: once for each press and each release.
pub proof fn lemma_reactions_follow_input(model: ControlModel, samples: Seq<bool>)
    ensures
        model.toggle_flags(samples) == press_flags(model.previous, samples),
        model.raise_flags(samples) == change_flags(model.previous, samples),
        forall|i: int|
            0 <= i < samples.len() && !samples[i] ==> !model.reaction_at(samples, i).toggle_output,
{
    assert forall|i: int| 0 <= i < samples.len() implies model.observe_all(
        samples.take(i),
    ).previous == level_before(model.previous, samples, i) by {
        lemma_last_level_is_remembered(model, samples.take(i));
    }
    assert(model.toggle_flags(samples) =~= press_flags(model.previous, samples));
    assert(model.raise_flags(samples) =~= change_flags(model.previous, samples));
}

/// The output line ends at its first level if the input was pressed an even
/// number of times, and at the other level if not: releases leave no trace.
pub proof fn lemma_output_counts_presses(model: ControlModel, samples: Seq<bool>)
    ensures
        model.observe_all(samples).output == if count_set(press_flags(model.previous, samples))
            % 2 == 0 {
            model.output
        } else {
            !model.output
        },
    decreases samples.len(),
{
    if samples.len() > 0 {
        let front = samples.drop_last();
        lemma_output_counts_presses(model, front);
        lemma_last_level_is_remembered(model, front);
        assert(press_flags(model.previous, samples).drop_last() =~= press_flags(
            model.previous,
            front,
        ));
    }
}

/// With the line armed and each trigger served before the next pass, the
/// handler of the external line is entered exactly once for each change of
/// the input level, press or release.
pub proof fn lemma_one_entry_per_change(model: ControlModel, line: LineModel, samples: Seq<bool>)
    requires
        line.enabled,
        !line.pending,
    ensures
        line.invocations(model.raise_flags(samples)) == count_set(
            change_flags(model.previous, samples),
        ),
{
    lemma_reactions_follow_input(model, samples);
    lemma_one_entry_per_trigger(line, model.raise_flags(samples));
}

} // verus!
