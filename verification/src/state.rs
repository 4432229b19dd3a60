//! The playback state of a source and the distance model of a context,
//! each with its integer domain spelled out.

use vstd::prelude::*;

verus! {

pub const AL_INITIAL: i32 = 0x1011;

pub const AL_PLAYING: i32 = 0x1012;

pub const AL_PAUSED: i32 = 0x1013;

pub const AL_STOPPED: i32 = 0x1014;

pub const AL_INVERSE_DISTANCE: i32 = 0xD001;

pub const AL_INVERSE_DISTANCE_CLAMPED: i32 = 0xD002;

pub const AL_LINEAR_DISTANCE: i32 = 0xD003;

pub const AL_LINEAR_DISTANCE_CLAMPED: i32 = 0xD004;

pub const AL_EXPONENT_DISTANCE: i32 = 0xD005;

pub const AL_EXPONENT_DISTANCE_CLAMPED: i32 = 0xD006;

/// Narrows a 64-bit integer to 32 bits with `ToPrimitive::to_i32` of
/// `num_traits`. The contract claims what that method documents and its
/// source shows for an `i64`: the same integer where 32 bits can hold it,
/// and nothing where they cannot.
#[verifier::external_body]
fn narrow(wide: i64) -> (narrowed: Option<i32>)
    ensures
        i32::MIN <= wide <= i32::MAX ==> narrowed == Some(wide as i32),
        !(i32::MIN <= wide <= i32::MAX) ==> narrowed is None,
{
    num_traits::ToPrimitive::to_i32(&wide)
}

/// The state of a source.
#[derive(Debug, Clone, Copy, PartialEq, Eq, Structural)]
pub enum SourceState {
    /// The state of a source that was never played, or was rewound.
    Initial,
    /// The source is playing.
    Playing,
    /// The source was playing and has been paused.
    Paused,
    /// The source has been stopped.
    Stopped,
}

/// The commands that move a source from one state to another.
#[derive(Debug, Clone, Copy, PartialEq, Eq, Structural)]
pub enum SourceCommand {
    Play,
    Pause,
    Stop,
    Rewind,
}

impl SourceState {
    /// The integer that stands for this state at the native boundary.
    pub open spec fn code(self) -> i32 {
        match self {
            SourceState::Initial => AL_INITIAL,
            SourceState::Playing => AL_PLAYING,
            SourceState::Paused => AL_PAUSED,
            SourceState::Stopped => AL_STOPPED,
        }
    }

    /// The state that an integer stands for, if it is in the domain.
    pub open spec fn of_code(code: i32) -> Option<SourceState> {
        if code == AL_INITIAL {
            Some(SourceState::Initial)
        } else if code == AL_PLAYING {
            Some(SourceState::Playing)
        } else if code == AL_PAUSED {
            Some(SourceState::Paused)
        } else if code == AL_STOPPED {
            Some(SourceState::Stopped)
        } else {
            None
        }
    }

    /// The state after a command: playing starts from any state, pausing
    /// only takes effect on a playing source, stopping and rewinding always do.
    pub open spec fn next(self, command: SourceCommand) -> SourceState {
        match command {
            SourceCommand::Play => SourceState::Playing,
            SourceCommand::Pause => if self == SourceState::Playing {
                SourceState::Paused
            } else {
                self
            },
            SourceCommand::Stop => SourceState::Stopped,
            SourceCommand::Rewind => SourceState::Initial,
        }
    }

    /// The state's discriminant, as wide as discriminants come.
    fn discriminant(&self) -> (wide: i64)
        ensures
            wide == self.code(),
    {
        match self {
            SourceState::Initial => 0x1011,
            SourceState::Playing => 0x1012,
            SourceState::Paused => 0x1013,
            SourceState::Stopped => 0x1014,
        }
    }

    pub fn to_i32(&self) -> (code: i32)
        ensures
            code == self.code(),
    {
        narrow(self.discriminant()).unwrap()
    }

    pub fn from_i32(code: i32) -> (state: Option<SourceState>)
        ensures
            state == SourceState::of_code(code),
    {
        match code {
            AL_INITIAL => Some(SourceState::Initial),
            AL_PLAYING => Some(SourceState::Playing),
            AL_PAUSED => Some(SourceState::Paused),
            AL_STOPPED => Some(SourceState::Stopped),
            _ => None,
        }
    }

    /// Applies a command to this state.
    pub fn after(self, command: SourceCommand) -> (state: SourceState)
        ensures
            state == self.next(command),
            command == SourceCommand::Play ==> state == SourceState::Playing,
            command == SourceCommand::Stop ==> state == SourceState::Stopped,
            command == SourceCommand::Rewind ==> state == SourceState::Initial,
            command == SourceCommand::Pause && self != SourceState::Playing ==> state == self,
    {
        match command {
            SourceCommand::Play => SourceState::Playing,
            SourceCommand::Pause => match self {
                SourceState::Playing => SourceState::Paused,
                other => other,
            },
            SourceCommand::Stop => SourceState::Stopped,
            SourceCommand::Rewind => SourceState::Initial,
        }
    }
}

/// How the engine attenuates a source with its distance from the listener.
#[derive(Debug, Clone, Copy, PartialEq, Eq, Structural)]
pub enum DistanceModel {
    Inverse,
    InverseClamped,
    Linear,
    LinearClamped,
    Exponent,
    ExponentClamped,
}

impl DistanceModel {
    /// The integer that stands for this model at the native boundary.
    pub open spec fn code(self) -> i32 {
        match self {
            DistanceModel::Inverse => AL_INVERSE_DISTANCE,
            DistanceModel::InverseClamped => AL_INVERSE_DISTANCE_CLAMPED,
            DistanceModel::Linear => AL_LINEAR_DISTANCE,
            DistanceModel::LinearClamped => AL_LINEAR_DISTANCE_CLAMPED,
            DistanceModel::Exponent => AL_EXPONENT_DISTANCE,
            DistanceModel::ExponentClamped => AL_EXPONENT_DISTANCE_CLAMPED,
        }
    }

    /// The model that an integer stands for, if it is in the domain.
    pub open spec fn of_code(code: i32) -> Option<DistanceModel> {
        if code == AL_INVERSE_DISTANCE {
            Some(DistanceModel::Inverse)
        } else if code == AL_INVERSE_DISTANCE_CLAMPED {
            Some(DistanceModel::InverseClamped)
        } else if code == AL_LINEAR_DISTANCE {
            Some(DistanceModel::Linear)
        } else if code == AL_LINEAR_DISTANCE_CLAMPED {
            Some(DistanceModel::LinearClamped)
        } else if code == AL_EXPONENT_DISTANCE {
            Some(DistanceModel::Exponent)
        } else if code == AL_EXPONENT_DISTANCE_CLAMPED {
            Some(DistanceModel::ExponentClamped)
        } else {
            None
        }
    }

    /// The model's discriminant, as wide as discriminants come.
    fn discriminant(&self) -> (wide: i64)
        ensures
            wide == self.code(),
    {
        match self {
            DistanceModel::Inverse => 0xD001,
            DistanceModel::InverseClamped => 0xD002,
            DistanceModel::Linear => 0xD003,
            DistanceModel::LinearClamped => 0xD004,
            DistanceModel::Exponent => 0xD005,
            DistanceModel::ExponentClamped => 0xD006,
        }
    }

    pub fn to_i32(&self) -> (code: i32)
        ensures
            code == self.code(),
    {
        narrow(self.discriminant()).unwrap()
    }

    pub fn from_i32(code: i32) -> (model: Option<DistanceModel>)
        ensures
            model == DistanceModel::of_code(code),
    {
        match code {
            AL_INVERSE_DISTANCE => Some(DistanceModel::Inverse),
            AL_INVERSE_DISTANCE_CLAMPED => Some(DistanceModel::InverseClamped),
            AL_LINEAR_DISTANCE => Some(DistanceModel::Linear),
            AL_LINEAR_DISTANCE_CLAMPED => Some(DistanceModel::LinearClamped),
            AL_EXPONENT_DISTANCE => Some(DistanceModel::Exponent),
            AL_EXPONENT_DISTANCE_CLAMPED => Some(DistanceModel::ExponentClamped),
            _ => None,
        }
    }
}

impl Default for DistanceModel {
    fn default() -> (model: DistanceModel)
        ensures
            model == DistanceModel::InverseClamped,
    {
        DistanceModel::InverseClamped
    }
}

/// Every state is the state that its own integer stands for.
pub proof fn source_state_code_round_trips(state: SourceState)
    ensures
        SourceState::of_code(state.code()) == Some(state),
{
}

/// An integer stands for at most one state, and that state's integer is it.
pub proof fn source_state_domain_is_exact(code: i32, state: SourceState)
    requires
        SourceState::of_code(code) == Some(state),
    ensures
        state.code() == code,
{
}

/// Every distance model is the model that its own integer stands for.
pub proof fn distance_model_code_round_trips(model: DistanceModel)
    ensures
        DistanceModel::of_code(model.code()) == Some(model),
{
}

} // verus!
