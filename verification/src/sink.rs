//! The lazily opened diagnostic channel, as its owner sees it.

use vstd::prelude::*;

verus! {

/// What an owner knows of its diagnostic channel.
#[derive(Clone, Copy, Debug, PartialEq, Eq, Structural)]
pub enum Channel {
    /// No text was ever to be written: the channel was not asked for.
    Untried,
    /// The handshake with the debug host is under way.
    Opening,
    /// The channel is open and stays open.
    Open,
    /// The handshake failed. It is not tried again.
    Unavailable,
}

/// What happens to the owner of a channel.
#[derive(Clone, Copy, Debug, PartialEq, Eq, Structural)]
pub enum SinkEvent {
    /// The owner has text to write.
    Emit,
    /// The handshake that was asked for succeeded.
    Opened,
    /// The handshake that was asked for failed.
    OpenFailed,
}

/// What the owner has to do about its text.
#[derive(Clone, Copy, Debug, PartialEq, Eq, Structural)]
pub enum SinkAction {
    /// Start the handshake, then come back with `Opened` or `OpenFailed`.
    OpenChannel,
    /// Write the text to the open channel; a failed write is dropped.
    Write,
    /// Drop the text.
    Skip,
}

/// The channel after `event`. Only the first `Emit` starts a handshake and
/// only an awaited result ends it; every other event leaves the channel as
/// it is.
pub open spec fn channel_after(channel: Channel, event: SinkEvent) -> Channel {
    match (channel, event) {
        (Channel::Untried, SinkEvent::Emit) => Channel::Opening,
        (Channel::Opening, SinkEvent::Opened) => Channel::Open,
        (Channel::Opening, SinkEvent::OpenFailed) => Channel::Unavailable,
        _ => channel,
    }
}

/// The answer to `event` on `channel`.
pub open spec fn action_for(channel: Channel, event: SinkEvent) -> SinkAction {
    match (channel, event) {
        (Channel::Untried, SinkEvent::Emit) => SinkAction::OpenChannel,
        (Channel::Open, SinkEvent::Emit) => SinkAction::Write,
        (Channel::Opening, SinkEvent::Opened) => SinkAction::Write,
        _ => SinkAction::Skip,
    }
}

/// The channel after all of `events`, in order.
pub open spec fn channel_after_all(channel: Channel, events: Seq<SinkEvent>) -> Channel
    decreases events.len(),
{
    if events.len() == 0 {
        channel
    } else {
        channel_after(channel_after_all(channel, events.drop_last()), events.last())
    }
}

/// The answer to the last of `events`.
pub open spec fn last_action(channel: Channel, events: Seq<SinkEvent>) -> SinkAction
    recommends
        events.len() > 0,
{
    action_for(channel_after_all(channel, events.drop_last()), events.last())
}

/// How many handshakes are asked for in answer to `events`.
pub open spec fn handshakes(channel: Channel, events: Seq<SinkEvent>) -> nat
    decreases events.len(),
{
    if events.len() == 0 {
        0
    } else {
        handshakes(channel, events.drop_last()) + if last_action(channel, events)
            == SinkAction::OpenChannel {
            1nat
        } else {
            0nat
        }
    }
}

/// The diagnostic channel of one owner: it is opened on first use, and how
/// that went is remembered for the owner's lifetime.
pub struct DiagnosticSink {
    channel: Channel,
}

impl View for DiagnosticSink {
    type V = Channel;

    closed spec fn view(&self) -> Channel {
        self.channel
    }
}

impl DiagnosticSink {
    /// A sink whose channel was not asked for yet.
    pub fn new() -> (sink: Self)
        ensures
            sink@ == Channel::Untried,
    {
        DiagnosticSink { channel: Channel::Untried }
    }

    /// What is known of the channel.
    pub fn channel(&self) -> (channel: Channel)
        ensures
            channel == self@,
    {
        self.channel
    }

    /// Takes note of `event` and says what to do about the owner's text.
    pub fn on_event(&mut self, event: SinkEvent) -> (action: SinkAction)
        ensures
            final(self)@ == channel_after(old(self)@, event),
            action == action_for(old(self)@, event),
    {
        match (self.channel, event) {
            (Channel::Untried, SinkEvent::Emit) => {
                self.channel = Channel::Opening;
                SinkAction::OpenChannel
            },
            (Channel::Open, SinkEvent::Emit) => SinkAction::Write,
            (Channel::Opening, SinkEvent::Opened) => {
                self.channel = Channel::Open;
                SinkAction::Write
            },
            (Channel::Opening, SinkEvent::OpenFailed) => {
                self.channel = Channel::Unavailable;
                SinkAction::Skip
            },
            _ => SinkAction::Skip,
        }
    }
}

/// A channel that was asked for is never `Untried` again.
pub proof fn lemma_never_untried_again(channel: Channel, events: Seq<SinkEvent>)
    requires
        channel != Channel::Untried,
    ensures
        channel_after_all(channel, events) != Channel::Untried,
        handshakes(channel, events) == 0,
    decreases events.len(),
{
    if events.len() > 0 {
        lemma_never_untried_again(channel, events.drop_last());
    }
}

/// Whatever happens to an owner, its channel is opened at most once: later
/// uses go to the result that was remembered, be it the open channel or its
/// absence.
pub proof fn lemma_opened_at_most_once(channel: Channel, events: Seq<SinkEvent>)
    ensures
        handshakes(channel, events) <= 1,
        channel_after_all(channel, events) == Channel::Untried ==> handshakes(channel, events)
            == 0,
    decreases events.len(),
{
    if events.len() > 0 {
        lemma_opened_at_most_once(channel, events.drop_last());
    }
}

/// Once the handshake has ended, its result stands: an open channel takes
/// every text, an unavailable one takes none, and neither is opened again.
pub proof fn lemma_result_is_kept(channel: Channel, events: Seq<SinkEvent>)
    requires
        channel == Channel::Open || channel == Channel::Unavailable,
    ensures
        channel_after_all(channel, events) == channel,
        events.len() > 0 ==> last_action(channel, events) == if channel == Channel::Open
            && events.last() == SinkEvent::Emit {
            SinkAction::Write
        } else {
            SinkAction::Skip
        },
    decreases events.len(),
{
    if events.len() > 0 {
        lemma_result_is_kept(channel, events.drop_last());
    }
}

} // verus!
