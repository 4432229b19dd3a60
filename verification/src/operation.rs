//! One operation of the layer: a native call together with everything that
//! has to happen around it.

use vstd::prelude::*;
use crate::error::{
    al_error_of, alc_error_of, check_al_error, check_alc_error, AllenError, AllenResult,
};
use crate::extension::Capability;
use crate::native::{NativeCall, Raw};
use crate::value::Shape;

verus! {

/// Which error query follows the call.
#[derive(Debug, Clone, Copy, PartialEq, Eq, Structural)]
pub enum Check {
    /// The call reports no error.
    Unchecked,
    /// The current context's error code is read after the call.
    Al,
    /// The device's error code is read after the call.
    Alc { device: u64 },
    /// The call answers with a pointer, and the device's error code is read
    /// only if that pointer is null.
    AlcIfNull { device: u64 },
}

/// A native call and its surroundings.
#[derive(Debug, Clone, PartialEq, Eq)]
pub struct Operation {
    /// The context that has to be current while the call is made, if the
    /// call depends on one.
    pub context: Option<u64>,
    /// The capability whose presence is checked immediately before the call.
    pub gate: Option<Capability>,
    /// A call that prepares the engine for the operation's own call. It is
    /// performed first, under the same currency; it has no answer and is
    /// followed by the context-level error query, and if it fails the
    /// operation ends there.
    pub setup: Option<NativeCall>,
    /// The operation's own call.
    pub call: NativeCall,
    pub check: Check,
    /// What the call's answer is read as.
    pub shape: Shape,
}

impl Check {
    /// The error that a non-clear code means on this check's channel.
    pub open spec fn error_of(self, code: i32) -> AllenError {
        match self {
            Check::Alc { .. } | Check::AlcIfNull { .. } => alc_error_of(code),
            _ => al_error_of(code),
        }
    }

    /// Whether an answer to the call is final, with no error query to follow.
    pub open spec fn settles(self, answer: Raw) -> bool {
        match self {
            Check::Unchecked => true,
            Check::AlcIfNull { .. } => answer != Raw::Pointer(0),
            _ => false,
        }
    }

    /// The error query that follows the call.
    pub open spec fn query(self) -> NativeCall {
        match self {
            Check::Alc { device } | Check::AlcIfNull { device } => NativeCall::AlcGetError {
                device,
            },
            _ => NativeCall::GetError,
        }
    }

    /// Whether an answer to the call is final, with no error query to follow.
    pub fn is_settled_by(&self, answer: &Raw) -> (settled: bool)
        ensures
            settled == self.settles(*answer),
    {
        match self {
            Check::Unchecked => true,
            Check::AlcIfNull { .. } => match answer {
                Raw::Pointer(address) => *address != 0,
                _ => true,
            },
            _ => false,
        }
    }

    /// The error query that follows the call.
    pub fn error_query(&self) -> (call: NativeCall)
        ensures
            call == self.query(),
    {
        match self {
            Check::Alc { device } => NativeCall::AlcGetError { device: *device },
            Check::AlcIfNull { device } => NativeCall::AlcGetError { device: *device },
            _ => NativeCall::GetError,
        }
    }

    /// Reads the code that this check's error query returned.
    pub fn read_error(&self, code: i32) -> (result: AllenResult<()>)
        ensures
            code == 0 ==> result == Ok::<(), AllenError>(()),
            code != 0 ==> result == Err::<(), AllenError>(self.error_of(code)),
    {
        match self {
            Check::Alc { .. } | Check::AlcIfNull { .. } => check_alc_error(code),
            _ => check_al_error(code),
        }
    }
}

} // verus!
