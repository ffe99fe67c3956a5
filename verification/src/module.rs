//! The audio module: the command queue of one hosted unit, and what each
//! audio block asks of the unit's compute engine.

use vstd::prelude::*;

use crate::command::{engine_call, Command, EngineCall, FloatBits};
use crate::queue::{drained, enqueued, CommandQueue};

verus! {

/// The state that the control side and the audio side of one hosted unit
/// share: the queue between them, and the description of the unit's GUI where
/// it has one. The engine itself stays with the caller, who makes on it the
/// calls that this module hands out.
#[derive(Debug)]
pub struct AAModule {
    queue: CommandQueue,
    gui_description: Option<String>,
}

/// The text of an optional string.
pub open spec fn text_of(text: Option<String>) -> Option<Seq<char>> {
    match text {
        Some(text) => Some(text@),
        None => None,
    }
}

/// The engine calls that deliver `commands`, one for one and in order.
pub open spec fn engine_calls(commands: Seq<Command>) -> Seq<EngineCall> {
    commands.map_values(|command: Command| engine_call(command))
}

/// One audio block with `pending` pending: the engine calls to make, in
/// order, and what stays pending. The calls deliver every pending command,
/// oldest first, and end with the block's computation.
pub open spec fn block(pending: Seq<Command>, compute: EngineCall) -> (
    Seq<EngineCall>,
    Seq<Command>,
) {
    (engine_calls(drained(pending).0).push(compute), drained(pending).1)
}

/// What a count query answers: the count that the engine reported, and zero
/// where the engine reported failure.
pub open spec fn count_or_zero(reported: Option<i32>) -> i32 {
    match reported {
        Some(count) => count,
        None => 0,
    }
}

/// A command accepted after one block was dispatched waits for the next: the
/// earlier block holds the calls of what was pending at its dispatch, one for
/// one, and its computation; the later block delivers the command ahead of
/// its own computation.
pub proof fn law_command_waits_for_next_block(
    before: Seq<Command>,
    command: Command,
    earlier: EngineCall,
    later: EngineCall,
)
    ensures
        block(before, earlier).0.len() == before.len() + 1,
        forall|i: int|
            0 <= i < before.len() ==> block(before, earlier).0[i] == engine_call(before[i]),
        block(before, earlier).0.last() == earlier,
        block(enqueued(block(before, earlier).1, command), later).0 == seq![
            engine_call(command),
            later,
        ],
        block(enqueued(block(before, earlier).1, command), later).1 == Seq::<Command>::empty(),
{
    assert(block(enqueued(block(before, earlier).1, command), later).0 =~= seq![
        engine_call(command),
        later,
    ]);
}

/// A note on and the note off that was accepted right after it reach the
/// engine in one and the same block, the note on first, both ahead of the
/// block's computation.
pub proof fn law_note_off_follows_note_on(
    before: Seq<Command>,
    pitch: i32,
    on_velocity: FloatBits,
    off_velocity: FloatBits,
    compute: EngineCall,
)
    ensures
        ({
            let pending = enqueued(
                enqueued(before, Command::NoteOn(pitch, on_velocity)),
                Command::NoteOff(pitch, off_velocity),
            );
            let calls = block(pending, compute).0;
            let n = before.len() as int;
            &&& calls.len() == n + 3
            &&& calls[n] == EngineCall::HandleNoteOn(pitch, on_velocity)
            &&& calls[n + 1] == EngineCall::HandleNoteOff(pitch, off_velocity)
            &&& calls[n + 2] == compute
        }),
{
}

impl AAModule {
    /// The commands accepted and not yet handed to the engine, oldest first.
    pub closed spec fn pending(self) -> Seq<Command> {
        self.queue.pending()
    }

    /// The description of the GUI, where the module has one.
    pub closed spec fn gui_description(self) -> Option<Seq<char>> {
        text_of(self.gui_description)
    }

    /// A module with nothing pending.
    pub fn new(gui_description: Option<String>) -> (module: AAModule)
        ensures
            module.pending() == Seq::<Command>::empty(),
            module.gui_description() == text_of(gui_description),
    {
        AAModule { queue: CommandQueue::new(), gui_description }
    }

    /// Accepts `command` behind everything pending.
    fn accept(&mut self, command: Command)
        ensures
            final(self).pending() == enqueued(old(self).pending(), command),
            final(self).gui_description() == old(self).gui_description(),
    {
        self.queue.enqueue(command);
    }

    /// Hands the pending commands over as engine calls and adds the block's
    /// computation behind them.
    fn dispatch(&mut self, compute: EngineCall) -> (calls: Vec<EngineCall>)
        ensures
            (calls@, final(self).pending()) == block(old(self).pending(), compute),
            final(self).gui_description() == old(self).gui_description(),
    {
        let mut calls = handle_commands(self);
        calls.push(compute);
        calls
    }
}

/// The description of the module's GUI, where it has one.
pub fn get_gui_description(module: &AAModule) -> (description: Option<String>)
    ensures
        text_of(description) == module.gui_description(),
{
    match &module.gui_description {
        Some(text) => Some(text.clone()),
        None => None,
    }
}

/// Queues the setting of parameter `index` of node `node` to `param`. Never
/// blocks.
pub fn set_param_float(module: &mut AAModule, node: u32, index: u32, param: FloatBits)
    ensures
        final(module).pending() == enqueued(old(module).pending(), Command::Param(node, index, param)),
        final(module).gui_description() == old(module).gui_description(),
{
    module.accept(Command::Param(node, index, param));
}

/// Queues a note on. Never blocks.
pub fn aa_module_handle_note_on(module: &mut AAModule, note: i32, velocity: FloatBits)
    ensures
        final(module).pending() == enqueued(old(module).pending(), Command::NoteOn(note, velocity)),
        final(module).gui_description() == old(module).gui_description(),
{
    module.accept(Command::NoteOn(note, velocity));
}

/// Queues a note off. Never blocks.
pub fn aa_module_handle_note_off(module: &mut AAModule, note: i32, velocity: FloatBits)
    ensures
        final(module).pending() == enqueued(old(module).pending(), Command::NoteOff(note, velocity)),
        final(module).gui_description() == old(module).gui_description(),
{
    module.accept(Command::NoteOff(note, velocity));
}

/// The number of audio inputs: what the engine reported, or zero where it
/// reported failure.
pub fn aa_module_get_number_inputs(reported: Option<i32>) -> (count: i32)
    ensures
        count == count_or_zero(reported),
{
    match reported {
        Some(count) => count,
        None => 0,
    }
}

/// The number of audio outputs: what the engine reported, or zero where it
/// reported failure.
pub fn aa_module_get_number_outputs(reported: Option<i32>) -> (count: i32)
    ensures
        count == count_or_zero(reported),
{
    match reported {
        Some(count) => count,
        None => 0,
    }
}

/// Takes every pending command out of the queue, without waiting for more,
/// and hands back the engine calls that deliver them, oldest first.
pub fn handle_commands(module: &mut AAModule) -> (calls: Vec<EngineCall>)
    ensures
        calls@ == engine_calls(drained(old(module).pending()).0),
        final(module).pending() == drained(old(module).pending()).1,
        final(module).gui_description() == old(module).gui_description(),
{
    let commands = module.queue.drain_all();
    let mut calls: Vec<EngineCall> = Vec::new();
    let mut i: usize = 0;
    while i < commands.len()
        invariant
            i <= commands.len(),
            calls@ == engine_calls(commands@.take(i as int)),
        decreases commands.len() - i,
    {
        calls.push(commands[i].to_engine_call());
        i += 1;
        assert(calls@ =~= engine_calls(commands@.take(i as int)));
    }
    assert(commands@.take(i as int) =~= commands@);
    calls
}

/// One block of `frames` frames with no input and one output channel: the
/// pending commands, then the computation.
pub fn aa_module_compute_zero_one(module: &mut AAModule, frames: usize) -> (calls: Vec<EngineCall>)
    ensures
        (calls@, final(module).pending()) == block(
            old(module).pending(),
            EngineCall::ComputeZeroOne(frames),
        ),
        final(module).gui_description() == old(module).gui_description(),
{
    module.dispatch(EngineCall::ComputeZeroOne(frames))
}

/// One block of `frames` frames with one input and one output channel: the
/// pending commands, then the computation.
pub fn aa_module_compute_one_one(module: &mut AAModule, frames: usize) -> (calls: Vec<EngineCall>)
    ensures
        (calls@, final(module).pending()) == block(
            old(module).pending(),
            EngineCall::ComputeOneOne(frames),
        ),
        final(module).gui_description() == old(module).gui_description(),
{
    module.dispatch(EngineCall::ComputeOneOne(frames))
}

/// One block of `frames` frames with one input and two output channels, not
/// interleaved: the pending commands, then the computation.
pub fn aa_module_compute_one_two_non(module: &mut AAModule, frames: usize) -> (calls: Vec<
    EngineCall,
>)
    ensures
        (calls@, final(module).pending()) == block(
            old(module).pending(),
            EngineCall::ComputeOneTwoNon(frames),
        ),
        final(module).gui_description() == old(module).gui_description(),
{
    module.dispatch(EngineCall::ComputeOneTwoNon(frames))
}

/// One block of `frames` frames with two input and two output channels, not
/// interleaved: the pending commands, then the computation.
pub fn aa_module_compute_two_two_non(module: &mut AAModule, frames: usize) -> (calls: Vec<
    EngineCall,
>)
    ensures
        (calls@, final(module).pending()) == block(
            old(module).pending(),
            EngineCall::ComputeTwoTwoNon(frames),
        ),
        final(module).gui_description() == old(module).gui_description(),
{
    module.dispatch(EngineCall::ComputeTwoTwoNon(frames))
}

/// One block of `frames` frames with no input and two output channels, not
/// interleaved: the pending commands, then the computation.
pub fn aa_module_compute_zero_two_non(module: &mut AAModule, frames: usize) -> (calls: Vec<
    EngineCall,
>)
    ensures
        (calls@, final(module).pending()) == block(
            old(module).pending(),
            EngineCall::ComputeZeroTwoNon(frames),
        ),
        final(module).gui_description() == old(module).gui_description(),
{
    module.dispatch(EngineCall::ComputeZeroTwoNon(frames))
}

} // verus!
