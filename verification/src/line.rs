//! One interrupt line as the interrupt controller keeps it: an enable bit
//! and a pending bit, and no queue behind them.

use vstd::prelude::*;

verus! {

/// The two bits of a line.
pub struct LineModel {
    /// Whether a pending occurrence is delivered to the handler.
    pub enabled: bool,
    /// Whether an occurrence waits for the handler.
    pub pending: bool,
}

impl LineModel {
    /// The line after it was armed.
    pub open spec fn armed(self) -> LineModel {
        LineModel { enabled: true, ..self }
    }

    /// The line after it was triggered. A second trigger before the handler
    /// has run finds the bit set and adds nothing.
    pub open spec fn raised(self) -> LineModel {
        LineModel { pending: true, ..self }
    }

    /// Whether the handler is entered now.
    pub open spec fn fires(self) -> bool {
        self.enabled && self.pending
    }

    /// The line after the controller had its chance to enter the handler:
    /// entering it takes the pending occurrence.
    pub open spec fn served(self) -> LineModel {
        if self.fires() {
            LineModel { pending: false, ..self }
        } else {
            self
        }
    }

    /// The line after one round: a trigger if `raise` says so, then the
    /// controller's chance to enter the handler.
    pub open spec fn after_round(self, raise: bool) -> LineModel {
        if raise {
            self.raised().served()
        } else {
            self.served()
        }
    }

    /// Whether the handler is entered in that round.
    pub open spec fn round_fires(self, raise: bool) -> bool {
        if raise {
            self.raised().fires()
        } else {
            self.fires()
        }
    }

    /// The line after one round for each entry of `raises`.
    pub open spec fn after_rounds(self, raises: Seq<bool>) -> LineModel
        decreases raises.len(),
    {
        if raises.len() == 0 {
            self
        } else {
            self.after_rounds(raises.drop_last()).after_round(raises.last())
        }
    }

    /// How often the handler is entered in those rounds.
    pub open spec fn invocations(self, raises: Seq<bool>) -> nat
        decreases raises.len(),
    {
        if raises.len() == 0 {
            0
        } else {
            self.invocations(raises.drop_last()) + if self.after_rounds(
                raises.drop_last(),
            ).round_fires(raises.last()) {
                1nat
            } else {
                0nat
            }
        }
    }
}

/// How many entries of `flags` are set.
pub open spec fn count_set(flags: Seq<bool>) -> nat
    decreases flags.len(),
{
    if flags.len() == 0 {
        0
    } else {
        count_set(flags.drop_last()) + if flags.last() {
            1nat
        } else {
            0nat
        }
    }
}

/// An interrupt line of the controller.
pub struct InterruptLine {
    enabled: bool,
    pending: bool,
}

impl View for InterruptLine {
    type V = LineModel;

    closed spec fn view(&self) -> LineModel {
        LineModel { enabled: self.enabled, pending: self.pending }
    }
}

impl InterruptLine {
    /// A line as it is after reset: not armed, nothing pending.
    pub fn new() -> (line: Self)
        ensures
            line@ == (LineModel { enabled: false, pending: false }),
    {
        InterruptLine { enabled: false, pending: false }
    }

    /// Arms the line.
    pub fn enable(&mut self)
        ensures
            final(self)@ == old(self)@.armed(),
    {
        self.enabled = true;
    }

    /// Triggers the line by software.
    pub fn set_pending(&mut self)
        ensures
            final(self)@ == old(self)@.raised(),
    {
        self.pending = true;
    }

    /// Lets the controller enter the handler if the line asks for it, and
    /// says whether it did.
    pub fn dispatch(&mut self) -> (entered: bool)
        ensures
            entered == old(self)@.fires(),
            final(self)@ == old(self)@.served(),
    {
        if self.enabled && self.pending {
            self.pending = false;
            true
        } else {
            false
        }
    }

    /// Whether the line is armed.
    pub fn is_enabled(&self) -> (enabled: bool)
        ensures
            enabled == self@.enabled,
    {
        self.enabled
    }

    /// Whether an occurrence waits for the handler.
    pub fn is_pending(&self) -> (pending: bool)
        ensures
            pending == self@.pending,
    {
        self.pending
    }
}

/// Triggers do not queue: one that finds the line pending changes nothing,
/// and the handler is then entered once for both.
pub proof fn lemma_triggers_do_not_queue(line: LineModel)
    ensures
        line.raised().raised() == line.raised(),
        !line.raised().raised().served().fires(),
{
}

/// On an armed line on which nothing waits, where each trigger is served
/// before the next one comes, the handler is entered exactly once for each
/// trigger: none is lost and none is served twice. Afterwards nothing waits.
pub proof fn lemma_one_entry_per_trigger(line: LineModel, raises: Seq<bool>)
    requires
        line.enabled,
        !line.pending,
    ensures
        line.after_rounds(raises) == line,
        line.invocations(raises) == count_set(raises),
        forall|i: int|
            0 <= i < raises.len() ==> line.after_rounds(raises.take(i)).round_fires(raises[i])
                == raises[i],
    decreases raises.len(),
{
    if raises.len() > 0 {
        lemma_one_entry_per_trigger(line, raises.drop_last());
        assert forall|i: int| 0 <= i < raises.len() implies line.after_rounds(
            raises.take(i),
        ).round_fires(raises[i]) == raises[i] by {
            lemma_one_entry_per_trigger(line, raises.take(i));
        }
    }
}

} // verus!
