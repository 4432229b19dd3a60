//! A safety layer over the OpenAL audio API, as a verified protocol core.
//!
//! OpenAL keeps one implicit current context, hands out bare handles with no
//! lifetime of their own, and offers a handful of untyped get/set entry
//! points for dozens of parameters. This crate holds every decision that a
//! safe wrapper has to take over such an engine, and proves what it decides.
//! It never calls the engine: the calls are values, and the embedding
//! program carries them out.
//!
//! The parts, leaves first:
//!
//! - [`error`] reads native error codes into [`AllenError`].
//! - [`native`] lists the engine's entry points as [`NativeCall`] values and
//!   its answers as [`Raw`] values.
//! - [`value`] and [`properties`] give each parameter its shape, and read
//!   and write typed values on the engine's channels.
//! - [`currency`] decides who may make a context current, and when.
//! - [`transaction`] carries one [`Operation`] out, step by step: currency
//!   first, then the capability check if there is one, then the call, then
//!   its error query, then the release.
//! - [`registry`] records devices, contexts, buffers and sources, and tears
//!   down whatever nothing refers to any more, leaf first.
//! - [`device`], [`context`], [`buffer`], [`source`] and [`listener`] are
//!   the handles, and their methods plan the operations.
//!
//! A method such as [`Source::play`] returns an [`Operation`]. The embedding
//! program starts a [`Transaction`] for it and feeds it events until it
//! finishes with a typed outcome; where the outcome changes what the layer
//! knows (a new handle, a longer queue), it is recorded with the matching
//! method, such as [`Buffer::new`] or [`Source::record_queued`].
//!
//! Floating-point numbers pass through as their IEEE-754 bit patterns, and
//! sample payloads as their element type and count: the layer decides what is
//! done with them and never looks inside.

pub mod buffer;
pub mod context;
pub mod currency;
pub mod device;
pub mod error;
pub mod extension;
pub mod listener;
pub mod native;
pub mod operation;
pub mod properties;
pub mod registry;
pub mod source;
pub mod state;
pub mod transaction;
pub mod value;

pub use buffer::{Buffer, BufferData, Channels};
pub use context::Context;
pub use currency::{Acquisition, ContextManager, Grant, Guard, Scope};
pub use device::Device;
pub use error::{check_al_error, check_alc_error, AllenError, AllenResult};
pub use extension::{check_al_extension, is_extension_present, Capability};
pub use listener::Listener;
pub use native::{Channel, NativeCall, Raw};
pub use operation::{Check, Operation};
pub use properties::{Descriptor, ListenerParam, SourceParam};
pub use registry::{teardown_subject, teardown_warning, Registry, Subject, Warning};
pub use source::Source;
pub use state::{DistanceModel, SourceCommand, SourceState};
pub use transaction::{Action, Event, Phase, Transaction};
pub use value::{Orientation, Shape, Value};
