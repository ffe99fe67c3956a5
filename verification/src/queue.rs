//! The command queue: an unbounded channel from the control side to the audio
//! side, drained without waiting.

use crossbeam_channel::{Receiver, Sender};
use vstd::prelude::*;

use crate::command::Command;

verus! {

/// `crossbeam_channel::Sender`, the sending half of a channel. Nothing of
/// its inside is known here.
#[verifier::external_type_specification]
#[verifier::external_body]
#[verifier::reject_recursive_types(T)]
pub struct ExSender<T>(Sender<T>);

/// `crossbeam_channel::Receiver`, the receiving half of a channel. Nothing
/// of its inside is known here.
#[verifier::external_type_specification]
#[verifier::external_body]
#[verifier::reject_recursive_types(T)]
pub struct ExReceiver<T>(Receiver<T>);

/// The commands that were sent into the channel of `receiver` and not yet
/// taken out, oldest first.
pub uninterp spec fn channel_pending(receiver: Receiver<Command>) -> Seq<Command>;

/// `sender` and `receiver` are the two halves that one call of
/// `crossbeam_channel::unbounded` made, and neither was cloned: whatever
/// reaches the channel goes through `sender`, whatever leaves it through
/// `receiver`.
pub uninterp spec fn channel_halves(sender: Sender<Command>, receiver: Receiver<Command>) -> bool;

/// What is pending once `command` was accepted with `pending` pending.
pub open spec fn enqueued(pending: Seq<Command>, command: Command) -> Seq<Command> {
    pending.push(command)
}

/// What is pending once `commands` were accepted one after another, the
/// first of them with `pending` pending.
pub open spec fn enqueued_all(pending: Seq<Command>, commands: Seq<Command>) -> Seq<Command>
    decreases commands.len(),
{
    if commands.len() == 0 {
        pending
    } else {
        enqueued_all(enqueued(pending, commands.first()), commands.drop_first())
    }
}

/// What a drain hands back with `pending` pending, and what it leaves
/// pending.
pub open spec fn drained(pending: Seq<Command>) -> (Seq<Command>, Seq<Command>) {
    (pending, Seq::empty())
}

/// Commands accepted one after another stand behind what was pending, in the
/// order of their acceptance.
pub proof fn lemma_enqueued_all(pending: Seq<Command>, commands: Seq<Command>)
    ensures
        enqueued_all(pending, commands) == pending + commands,
    decreases commands.len(),
{
    if commands.len() == 0 {
        assert(pending + commands =~= pending);
    } else {
        lemma_enqueued_all(enqueued(pending, commands.first()), commands.drop_first());
        assert(enqueued(pending, commands.first()) + commands.drop_first() =~= pending + commands);
    }
}

/// A drain right after any number of commands were accepted by an empty
/// queue hands back exactly those commands, in the order of their
/// acceptance, and a second drain right after it hands back nothing.
pub proof fn law_drain_returns_what_was_enqueued(commands: Seq<Command>)
    ensures
        drained(enqueued_all(Seq::empty(), commands)).0 == commands,
        drained(drained(enqueued_all(Seq::empty(), commands)).1).0 == Seq::<Command>::empty(),
{
    lemma_enqueued_all(Seq::empty(), commands);
    assert(Seq::<Command>::empty() + commands =~= commands);
}

/// What two drains hand back, one after `first` was accepted by an empty
/// queue and one after `second` was accepted behind it, is all that was
/// accepted, in the order of acceptance: nothing is lost between drains,
/// nothing comes twice, nothing changes its place.
pub proof fn law_successive_drains_concatenate(first: Seq<Command>, second: Seq<Command>)
    ensures
        drained(enqueued_all(Seq::empty(), first)).0 + drained(
            enqueued_all(drained(enqueued_all(Seq::empty(), first)).1, second),
        ).0 == first + second,
{
    lemma_enqueued_all(Seq::empty(), first);
    lemma_enqueued_all(Seq::empty(), second);
    assert(Seq::<Command>::empty() + first =~= first);
    assert(Seq::<Command>::empty() + second =~= second);
}

/// The ordered, unbounded conduit of commands. It keeps both halves of its
/// channel to itself, so every command that reaches the channel was given to
/// `enqueue`, and only `drain_all` takes commands out.
#[derive(Debug)]
pub struct CommandQueue {
    sender: Sender<Command>,
    receiver: Receiver<Command>,
}

impl CommandQueue {
    #[verifier::type_invariant]
    spec fn halves_match(self) -> bool {
        channel_halves(self.sender, self.receiver)
    }

    /// The commands enqueued and not yet drained, in enqueue order.
    pub closed spec fn pending(self) -> Seq<Command> {
        channel_pending(self.receiver)
    }

    /// `crossbeam_channel::unbounded`: the two halves of a new channel
    /// without a bound, with nothing in it.
    #[verifier::external_body]
    fn open() -> (queue: CommandQueue)
        ensures
            channel_halves(queue.sender, queue.receiver),
            channel_pending(queue.receiver) == Seq::<Command>::empty(),
    {
        let (sender, receiver) = crossbeam_channel::unbounded();
        CommandQueue { sender, receiver }
    }

    /// `crossbeam_channel::Sender::send` on an unbounded channel whose
    /// receiver is alive: it does not block and does not fail, and puts
    /// `command` behind all that is pending.
    #[verifier::external_body]
    fn send(&mut self, command: Command)
        requires
            channel_halves(old(self).sender, old(self).receiver),
        ensures
            channel_halves(final(self).sender, final(self).receiver),
            channel_pending(final(self).receiver) == channel_pending(old(self).receiver).push(
                command,
            ),
    {
        let _ = self.sender.send(command);
    }

    /// `crossbeam_channel::Receiver::try_recv`: it does not block. Where
    /// something is pending it takes out the oldest command and hands it
    /// back; where nothing is, it hands back nothing and changes nothing.
    /// (The sender is alive, so the channel is never disconnected.)
    #[verifier::external_body]
    fn try_receive(&mut self) -> (got: Option<Command>)
        requires
            channel_halves(old(self).sender, old(self).receiver),
        ensures
            channel_halves(final(self).sender, final(self).receiver),
            match got {
                Some(command) => {
                    &&& channel_pending(old(self).receiver).len() > 0
                    &&& command == channel_pending(old(self).receiver).first()
                    &&& channel_pending(final(self).receiver) == channel_pending(
                        old(self).receiver,
                    ).drop_first()
                },
                None => {
                    &&& channel_pending(old(self).receiver).len() == 0
                    &&& channel_pending(final(self).receiver) == channel_pending(
                        old(self).receiver,
                    )
                },
            },
    {
        self.receiver.try_recv().ok()
    }

    /// A fresh, empty queue.
    pub fn new() -> (queue: CommandQueue)
        ensures
            queue.pending() == Seq::<Command>::empty(),
    {
        CommandQueue::open()
    }

    /// Accepts `command` behind everything already pending. Never blocks.
    pub fn enqueue(&mut self, command: Command)
        ensures
            final(self).pending() == enqueued(old(self).pending(), command),
    {
        proof {
            use_type_invariant(&*self);
        }
        self.send(command);
    }

    /// Takes out every pending command, oldest first, without waiting for
    /// more.
    pub fn drain_all(&mut self) -> (commands: Vec<Command>)
        ensures
            (commands@, final(self).pending()) == drained(old(self).pending()),
    {
        proof {
            use_type_invariant(&*self);
        }
        let mut commands: Vec<Command> = Vec::new();
        loop
            invariant
                channel_halves(self.sender, self.receiver),
                commands@ + self.pending() == old(self).pending(),
            ensures
                commands@ == old(self).pending(),
                self.pending() == Seq::<Command>::empty(),
            decreases self.pending().len(),
        {
            match self.try_receive() {
                Some(command) => {
                    commands.push(command);
                },
                None => {
                    break ;
                },
            }
        }
        commands
    }
}

} // verus!
