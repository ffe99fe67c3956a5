//! Control events and the engine calls they turn into.

use vstd::prelude::*;

verus! {

/// A single-precision number held by its IEEE 754 bit pattern. The library
/// carries such numbers through without computing on them.
#[derive(Clone, Copy, Debug, PartialEq, Eq, Structural)]
pub struct FloatBits(pub u32);

/// A control event on its way to the audio thread.
#[derive(Clone, Copy, Debug, PartialEq, Eq, Structural)]
pub enum Command {
    /// Set parameter `index` of node `node` to a value.
    Param(u32, u32, FloatBits),
    /// Note on: pitch and velocity.
    NoteOn(i32, FloatBits),
    /// Note off: pitch and velocity.
    NoteOff(i32, FloatBits),
}

/// One call on the compute engine. The five block computations differ in
/// their channel layout; each carries the number of frames per channel.
#[derive(Clone, Copy, Debug, PartialEq, Eq, Structural)]
pub enum EngineCall {
    SetParamFloat(u32, u32, FloatBits),
    HandleNoteOn(i32, FloatBits),
    HandleNoteOff(i32, FloatBits),
    /// No input, one output channel.
    ComputeZeroOne(usize),
    /// One input, one output channel.
    ComputeOneOne(usize),
    /// One input, two output channels, not interleaved.
    ComputeOneTwoNon(usize),
    /// Two input, two output channels, not interleaved.
    ComputeTwoTwoNon(usize),
    /// No input, two output channels, not interleaved.
    ComputeZeroTwoNon(usize),
}

/// The engine call that delivers `command`.
pub open spec fn engine_call(command: Command) -> EngineCall {
    match command {
        Command::Param(node, index, value) => EngineCall::SetParamFloat(node, index, value),
        Command::NoteOn(pitch, velocity) => EngineCall::HandleNoteOn(pitch, velocity),
        Command::NoteOff(pitch, velocity) => EngineCall::HandleNoteOff(pitch, velocity),
    }
}

impl Command {
    /// The call that applies this command to the engine.
    pub fn to_engine_call(self) -> (call: EngineCall)
        ensures
            call == engine_call(self),
    {
        match self {
            Command::Param(node, index, value) => EngineCall::SetParamFloat(node, index, value),
            Command::NoteOn(pitch, velocity) => EngineCall::HandleNoteOn(pitch, velocity),
            Command::NoteOff(pitch, velocity) => EngineCall::HandleNoteOff(pitch, velocity),
        }
    }
}

} // verus!
