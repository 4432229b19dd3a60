//! The native boundary, as data.
//!
//! This layer never calls the audio engine itself. Each entry point of the
//! engine that the layer relies on is a variant of [`NativeCall`]; the
//! embedding program carries the call out and hands back what the engine
//! answered as a [`Raw`] value. Floating-point numbers cross the boundary as
//! their IEEE-754 bit patterns: the layer moves them, it never computes with
//! them.

use vstd::prelude::*;

verus! {

/// The scalar and vector channels of the engine's get/set entry points.
#[derive(Debug, Clone, Copy, PartialEq, Eq)]
pub enum Channel {
    /// One 32-bit float.
    Float,
    /// Three 32-bit floats.
    Float3,
    /// Six 32-bit floats, as an array.
    Float6,
    /// One 32-bit integer.
    Int,
    /// Three 32-bit integers.
    Int3,
}

/// A value as the engine takes or returns it.
#[derive(Debug, Clone, PartialEq, Eq)]
pub enum Raw {
    /// The call returns nothing.
    Nothing,
    /// A native boolean: zero is false, anything else is true.
    Flag(i8),
    Int(i32),
    Int3([i32; 3]),
    /// The bit pattern of one float.
    Float(u32),
    /// The bit patterns of three floats.
    Float3([u32; 3]),
    /// The bit patterns of six floats.
    Float6([u32; 6]),
    /// A buffer or source name.
    Name(u32),
    /// The address of a device or context; zero is the null pointer.
    Pointer(u64),
    Text(String),
}

impl Raw {
    /// The channel that carries this value, if it is a parameter value.
    pub open spec fn channel(self) -> Option<Channel> {
        match self {
            Raw::Float(_) => Some(Channel::Float),
            Raw::Float3(_) => Some(Channel::Float3),
            Raw::Float6(_) => Some(Channel::Float6),
            Raw::Int(_) => Some(Channel::Int),
            Raw::Int3(_) => Some(Channel::Int3),
            _ => None,
        }
    }
}

/// A size or a count as the engine takes it: the low 32 bits, read as a
/// signed integer. Whatever fits in 31 bits is itself.
pub open spec fn as_size(n: nat) -> i32 {
    let low = n % 0x1_0000_0000;
    if low < 0x8000_0000 {
        low as i32
    } else {
        (low - 0x1_0000_0000) as i32
    }
}

/// Puts a size or a count in the engine's 32-bit size parameter.
pub fn to_size(n: usize) -> (size: i32)
    ensures
        size == as_size(n as nat),
        n <= i32::MAX ==> size == n,
{
    wide_to_size(n as u128)
}

/// Puts a size that may be beyond what can be addressed in the engine's
/// 32-bit size parameter.
pub fn wide_to_size(n: u128) -> (size: i32)
    ensures
        size == as_size(n as nat),
        n <= i32::MAX ==> size == n,
{
    let low: u128 = n % 0x1_0000_0000;
    if low < 0x8000_0000 {
        low as i32
    } else {
        ((low - 0x8000_0000) as i32) + i32::MIN
    }
}

/// The number of names that an engine asked to unqueue `count` buffers may
/// write back: `count`, or none if `count` is negative.
pub open spec fn room_for(count: i32) -> usize {
    if count > 0 {
        count as usize
    } else {
        0
    }
}

/// One call into the engine.
#[derive(Debug, Clone, PartialEq, Eq)]
pub enum NativeCall {
    /// Asks whether the engine offers the entry point that makes a context
    /// current for the calling thread only. Answer: `Flag`.
    ProbeThreadContext,
    /// Makes `context` current for the calling thread. Answer: `Flag`, success.
    SetThreadContext { context: u64 },
    /// Makes `context` current for the whole process. Answer: `Flag`, success.
    MakeContextCurrent { context: u64 },
    /// The context that is current for the calling thread. Answer: `Pointer`.
    GetThreadContext,
    /// The context that is current for the process. Answer: `Pointer`.
    GetCurrentContext,
    /// Reads and clears the current context's error code. Answer: `Int`.
    GetError,
    /// Reads and clears the device's error code. Answer: `Int`.
    AlcGetError { device: u64 },
    /// Opens the named device, or the default one. Answer: `Pointer`.
    OpenDevice { specifier: Option<String> },
    CloseDevice { device: u64 },
    /// The device's specifier string. Answer: `Text`.
    DeviceName { device: u64 },
    /// Device-level extension query. Answer: `Flag`.
    AlcIsExtensionPresent { device: u64, name: String },
    /// Creates a context on the device. Answer: `Pointer`.
    CreateContext { device: u64 },
    DestroyContext { context: u64 },
    SuspendContext { context: u64 },
    ProcessContext { context: u64 },
    /// One of the engine's descriptive strings. Answer: `Text`.
    GetString { param: i32 },
    /// Context-level extension query. Answer: `Flag`.
    IsExtensionPresent { name: String },
    /// Generates one buffer. Answer: `Name`.
    GenBuffer,
    /// Generates one source. Answer: `Name`.
    GenSource,
    DeleteBuffer { buffer: u32 },
    DeleteSource { source: u32 },
    /// Replaces the buffer's contents with `size` bytes of samples.
    BufferData { buffer: u32, format: i32, size: i32, sample_rate: i32 },
    /// Reads a source parameter on the given channel. Answer: a value of
    /// that channel.
    SourceGet { source: u32, param: i32, channel: Channel },
    SourceSet { source: u32, param: i32, value: Raw },
    /// Reads a listener parameter on the given channel.
    ListenerGet { param: i32, channel: Channel },
    ListenerSet { param: i32, value: Raw },
    /// Selects the distance model of the current context.
    DistanceModel { model: i32 },
    SourcePlay { source: u32 },
    SourcePause { source: u32 },
    SourceStop { source: u32 },
    SourceRewind { source: u32 },
    /// Appends `count` buffers to the queue of the source.
    SourceQueueBuffers { source: u32, count: i32, buffers: Vec<u32> },
    /// Removes `count` buffers from the front of the queue of the source.
    /// The engine writes their names back: `room` is the number of names
    /// that there has to be room for.
    SourceUnqueueBuffers { source: u32, count: i32, room: usize },
}

} // verus!
