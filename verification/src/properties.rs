//! The parameters that sources and listeners expose, each with its native
//! id, its declared shape, whether it can be written, and the capability it
//! depends on.

use vstd::prelude::*;
use crate::extension::Capability;
use crate::value::{Shape, Value};

verus! {

pub const AL_SOURCE_RELATIVE: i32 = 0x202;

pub const AL_CONE_INNER_ANGLE: i32 = 0x1001;

pub const AL_CONE_OUTER_ANGLE: i32 = 0x1002;

pub const AL_PITCH: i32 = 0x1003;

pub const AL_POSITION: i32 = 0x1004;

pub const AL_DIRECTION: i32 = 0x1005;

pub const AL_VELOCITY: i32 = 0x1006;

pub const AL_LOOPING: i32 = 0x1007;

pub const AL_BUFFER: i32 = 0x1009;

pub const AL_GAIN: i32 = 0x100A;

pub const AL_MIN_GAIN: i32 = 0x100D;

pub const AL_MAX_GAIN: i32 = 0x100E;

pub const AL_ORIENTATION: i32 = 0x100F;

pub const AL_SOURCE_STATE: i32 = 0x1010;

pub const AL_BUFFERS_QUEUED: i32 = 0x1015;

pub const AL_BUFFERS_PROCESSED: i32 = 0x1016;

pub const AL_REFERENCE_DISTANCE: i32 = 0x1020;

pub const AL_ROLLOFF_FACTOR: i32 = 0x1021;

pub const AL_CONE_OUTER_GAIN: i32 = 0x1022;

pub const AL_MAX_DISTANCE: i32 = 0x1023;

pub const AL_SEC_OFFSET: i32 = 0x1024;

pub const AL_SAMPLE_OFFSET: i32 = 0x1025;

pub const AL_BYTE_OFFSET: i32 = 0x1026;

pub const AL_SOURCE_RADIUS: i32 = 0x1031;

pub const AL_BYTE_LENGTH_SOFT: i32 = 0x2009;

pub const AL_SAMPLE_LENGTH_SOFT: i32 = 0x200A;

pub const AL_SEC_LENGTH_SOFT: i32 = 0x200B;

/// What there is to know of a parameter.
#[derive(Debug, Clone, Copy, PartialEq, Eq, Structural)]
pub struct Descriptor {
    /// The native id of the parameter.
    pub id: i32,
    /// The shape of its values.
    pub shape: Shape,
    /// Whether it can be written as well as read.
    pub writable: bool,
    /// The capability that reading or writing it depends on.
    pub capability: Option<Capability>,
}

/// The parameters of a source.
#[derive(Debug, Clone, Copy, PartialEq, Eq, Structural)]
pub enum SourceParam {
    Pitch,
    Gain,
    MinGain,
    MaxGain,
    MaxDistance,
    RolloffFactor,
    ReferenceDistance,
    ConeOuterGain,
    ConeInnerAngle,
    ConeOuterAngle,
    /// The playback position, in seconds.
    PlaybackTimeSecs,
    /// The playback position, in samples.
    PlaybackTimeSamples,
    /// The playback position, in bytes.
    PlaybackTimeBytes,
    Position,
    Velocity,
    Direction,
    IsLooping,
    /// Whether the position is relative to the listener.
    IsRelative,
    State,
    /// The length of what the source plays, in seconds.
    LengthSecs,
    /// The length of what the source plays, in samples.
    LengthSamples,
    /// The length of what the source plays, in bytes.
    LengthBytes,
    SourceRadius,
    /// The number of buffers in the queue.
    BuffersQueued,
    /// The number of queued buffers that have been played.
    BuffersProcessed,
}

/// The parameters of a listener.
#[derive(Debug, Clone, Copy, PartialEq, Eq, Structural)]
pub enum ListenerParam {
    Gain,
    Position,
    Velocity,
    Orientation,
}

/// A parameter that is read and written, and depends on no capability.
pub open spec fn plain(id: i32, shape: Shape) -> Descriptor {
    Descriptor { id, shape, writable: true, capability: None }
}

/// A parameter that is only read, and depends on no capability.
pub open spec fn read_only(id: i32, shape: Shape) -> Descriptor {
    Descriptor { id, shape, writable: false, capability: None }
}

impl Descriptor {
    /// Whether `value` can be written to the parameter.
    pub open spec fn takes(self, value: Value) -> bool {
        self.writable && value.spec_shape() == self.shape
    }

    /// Whether `value` can be written to the parameter.
    pub fn accepts(&self, value: &Value) -> (ok: bool)
        ensures
            ok == self.takes(*value),
    {
        self.writable && value.shape() == self.shape
    }
}

impl SourceParam {
    /// The parameter table of sources.
    pub open spec fn descriptor(self) -> Descriptor {
        match self {
            SourceParam::Pitch => plain(AL_PITCH, Shape::Float),
            SourceParam::Gain => plain(AL_GAIN, Shape::Float),
            SourceParam::MinGain => plain(AL_MIN_GAIN, Shape::Float),
            SourceParam::MaxGain => plain(AL_MAX_GAIN, Shape::Float),
            SourceParam::MaxDistance => plain(AL_MAX_DISTANCE, Shape::Float),
            SourceParam::RolloffFactor => plain(AL_ROLLOFF_FACTOR, Shape::Float),
            SourceParam::ReferenceDistance => plain(AL_REFERENCE_DISTANCE, Shape::Float),
            SourceParam::ConeOuterGain => plain(AL_CONE_OUTER_GAIN, Shape::Float),
            SourceParam::ConeInnerAngle => plain(AL_CONE_INNER_ANGLE, Shape::Float),
            SourceParam::ConeOuterAngle => plain(AL_CONE_OUTER_ANGLE, Shape::Float),
            SourceParam::PlaybackTimeSecs => plain(AL_SEC_OFFSET, Shape::Float),
            SourceParam::PlaybackTimeSamples => plain(AL_SAMPLE_OFFSET, Shape::Int),
            SourceParam::PlaybackTimeBytes => plain(AL_BYTE_OFFSET, Shape::Int),
            SourceParam::Position => plain(AL_POSITION, Shape::Float3),
            SourceParam::Velocity => plain(AL_VELOCITY, Shape::Float3),
            SourceParam::Direction => plain(AL_DIRECTION, Shape::Float3),
            SourceParam::IsLooping => plain(AL_LOOPING, Shape::Bool),
            SourceParam::IsRelative => plain(AL_SOURCE_RELATIVE, Shape::Bool),
            SourceParam::State => plain(AL_SOURCE_STATE, Shape::State),
            SourceParam::LengthSecs => Descriptor {
                id: AL_SEC_LENGTH_SOFT,
                shape: Shape::Float,
                writable: false,
                capability: Some(Capability::SourceLength),
            },
            SourceParam::LengthSamples => Descriptor {
                id: AL_SAMPLE_LENGTH_SOFT,
                shape: Shape::Int,
                writable: false,
                capability: Some(Capability::SourceLength),
            },
            SourceParam::LengthBytes => Descriptor {
                id: AL_BYTE_LENGTH_SOFT,
                shape: Shape::Float,
                writable: false,
                capability: Some(Capability::SourceLength),
            },
            SourceParam::SourceRadius => Descriptor {
                id: AL_SOURCE_RADIUS,
                shape: Shape::Float,
                writable: true,
                capability: Some(Capability::SourceRadius),
            },
            SourceParam::BuffersQueued => read_only(AL_BUFFERS_QUEUED, Shape::Int),
            SourceParam::BuffersProcessed => read_only(AL_BUFFERS_PROCESSED, Shape::Int),
        }
    }

    /// Looks the parameter up in the table.
    pub fn describe(&self) -> (descriptor: Descriptor)
        ensures
            descriptor == self.descriptor(),
            descriptor.shape.spec_channel() is Some,
    {
        let (id, shape, writable, capability) = match self {
            SourceParam::Pitch => (AL_PITCH, Shape::Float, true, None),
            SourceParam::Gain => (AL_GAIN, Shape::Float, true, None),
            SourceParam::MinGain => (AL_MIN_GAIN, Shape::Float, true, None),
            SourceParam::MaxGain => (AL_MAX_GAIN, Shape::Float, true, None),
            SourceParam::MaxDistance => (AL_MAX_DISTANCE, Shape::Float, true, None),
            SourceParam::RolloffFactor => (AL_ROLLOFF_FACTOR, Shape::Float, true, None),
            SourceParam::ReferenceDistance => (AL_REFERENCE_DISTANCE, Shape::Float, true, None),
            SourceParam::ConeOuterGain => (AL_CONE_OUTER_GAIN, Shape::Float, true, None),
            SourceParam::ConeInnerAngle => (AL_CONE_INNER_ANGLE, Shape::Float, true, None),
            SourceParam::ConeOuterAngle => (AL_CONE_OUTER_ANGLE, Shape::Float, true, None),
            SourceParam::PlaybackTimeSecs => (AL_SEC_OFFSET, Shape::Float, true, None),
            SourceParam::PlaybackTimeSamples => (AL_SAMPLE_OFFSET, Shape::Int, true, None),
            SourceParam::PlaybackTimeBytes => (AL_BYTE_OFFSET, Shape::Int, true, None),
            SourceParam::Position => (AL_POSITION, Shape::Float3, true, None),
            SourceParam::Velocity => (AL_VELOCITY, Shape::Float3, true, None),
            SourceParam::Direction => (AL_DIRECTION, Shape::Float3, true, None),
            SourceParam::IsLooping => (AL_LOOPING, Shape::Bool, true, None),
            SourceParam::IsRelative => (AL_SOURCE_RELATIVE, Shape::Bool, true, None),
            SourceParam::State => (AL_SOURCE_STATE, Shape::State, true, None),
            SourceParam::LengthSecs => (
                AL_SEC_LENGTH_SOFT,
                Shape::Float,
                false,
                Some(Capability::SourceLength),
            ),
            SourceParam::LengthSamples => (
                AL_SAMPLE_LENGTH_SOFT,
                Shape::Int,
                false,
                Some(Capability::SourceLength),
            ),
            SourceParam::LengthBytes => (
                AL_BYTE_LENGTH_SOFT,
                Shape::Float,
                false,
                Some(Capability::SourceLength),
            ),
            SourceParam::SourceRadius => (
                AL_SOURCE_RADIUS,
                Shape::Float,
                true,
                Some(Capability::SourceRadius),
            ),
            SourceParam::BuffersQueued => (AL_BUFFERS_QUEUED, Shape::Int, false, None),
            SourceParam::BuffersProcessed => (AL_BUFFERS_PROCESSED, Shape::Int, false, None),
        };
        Descriptor { id, shape, writable, capability }
    }
}

impl ListenerParam {
    /// The parameter table of listeners.
    pub open spec fn descriptor(self) -> Descriptor {
        match self {
            ListenerParam::Gain => plain(AL_GAIN, Shape::Float),
            ListenerParam::Position => plain(AL_POSITION, Shape::Float3),
            ListenerParam::Velocity => plain(AL_VELOCITY, Shape::Float3),
            ListenerParam::Orientation => plain(AL_ORIENTATION, Shape::Orientation),
        }
    }

    /// Looks the parameter up in the table.
    pub fn describe(&self) -> (descriptor: Descriptor)
        ensures
            descriptor == self.descriptor(),
            descriptor.shape.spec_channel() is Some,
    {
        let (id, shape) = match self {
            ListenerParam::Gain => (AL_GAIN, Shape::Float),
            ListenerParam::Position => (AL_POSITION, Shape::Float3),
            ListenerParam::Velocity => (AL_VELOCITY, Shape::Float3),
            ListenerParam::Orientation => (AL_ORIENTATION, Shape::Orientation),
        };
        Descriptor { id, shape, writable: true, capability: None }
    }
}

} // verus!
