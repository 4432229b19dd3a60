//! The protocol that carries one operation out.
//!
//! A [`Transaction`] is a state machine. The embedding program feeds it
//! events; each event is answered with the one thing to do next. Whatever the
//! operation, the order is the same: the context is made current first, a
//! capability is checked immediately before the call that depends on it,
//! every call is followed by its error query, and the context is given up
//! again before the outcome is handed out.

use vstd::prelude::*;
use crate::currency::Guard;
use crate::error::{al_error_of, check_al_error, AllenError, AllenResult};
use crate::extension::{check_al_extension, Capability};
use crate::native::{NativeCall, Raw};
use crate::operation::{Check, Operation};
use crate::value::{Shape, Value};

verus! {

/// What the embedding program reports to a transaction.
#[derive(Debug, PartialEq, Eq)]
pub enum Event {
    /// The transaction is to begin.
    Start,
    /// The context asked for is now current, and this is the guard for it.
    Acquired(Guard),
    /// The engine's answer to the call that was to be performed.
    Answer(Raw),
    /// The context has been given up.
    Released,
}

/// What a transaction asks the embedding program to do next.
#[derive(Debug, PartialEq, Eq)]
pub enum Action {
    /// Make the context current, then report `Acquired` with the guard.
    Acquire { context: u64 },
    /// Perform the call, then report its `Answer`.
    Perform(NativeCall),
    /// Give the guard back to the manager, then report `Released`.
    Release(Guard),
    /// Nothing: the operation has ended with this outcome.
    Finish(AllenResult<Value>),
}

/// Where a transaction stands.
#[derive(Debug, PartialEq, Eq)]
pub enum Phase {
    /// Nothing has been asked for yet.
    Ready,
    /// The context is being made current.
    Acquiring,
    /// The call that prepares the engine is under way.
    Preparing,
    /// The error query after the preparing call is under way.
    PrepareChecking,
    /// The engine has been asked whether the capability is present.
    Gating,
    /// The error query after the presence query is under way.
    GateChecking { present: bool },
    /// The operation's own call is under way.
    Calling,
    /// The error query after the call is under way.
    Checking { answer: Raw },
    /// The outcome is settled and the context is being given up.
    Releasing { outcome: AllenResult<Value> },
    /// The outcome has been handed out.
    Done,
}

/// What stays the same from the first step of a transaction to the last.
#[derive(Debug, Clone, Copy)]
struct Frame {
    context: Option<u64>,
    gate: Option<Capability>,
    check: Check,
    shape: Shape,
}

/// An operation in progress.
#[derive(Debug)]
pub struct Transaction {
    frame: Frame,
    setup: Option<NativeCall>,
    call: Option<NativeCall>,
    phase: Phase,
    guard: Option<Guard>,
}

impl Transaction {
    pub closed spec fn context(self) -> Option<u64> {
        self.frame.context
    }

    pub closed spec fn gate(self) -> Option<Capability> {
        self.frame.gate
    }

    pub closed spec fn check(self) -> Check {
        self.frame.check
    }

    pub closed spec fn shape(self) -> Shape {
        self.frame.shape
    }

    pub closed spec fn phase(self) -> Phase {
        self.phase
    }

    /// The preparing call, as long as it has not been handed out.
    pub closed spec fn setup(self) -> Option<NativeCall> {
        self.setup
    }

    /// The operation's own call, as long as it has not been handed out.
    pub closed spec fn pending(self) -> Option<NativeCall> {
        self.call
    }

    /// The guard that the transaction holds.
    pub closed spec fn guard(self) -> Option<Guard> {
        self.guard
    }

    /// Whether this is a transaction for the operation.
    pub open spec fn carries(self, op: Operation) -> bool {
        &&& self.context() == op.context
        &&& self.gate() == op.gate
        &&& self.check() == op.check
        &&& self.shape() == op.shape
    }

    /// Whether native calls may be performed in this phase.
    pub open spec fn in_contact(self) -> bool {
        self.phase() is Preparing || self.phase() is PrepareChecking || self.phase() is Gating
            || self.phase() is GateChecking || self.phase() is Calling || self.phase() is Checking
    }

    /// Whether the context that the operation names, if it names one, is
    /// current: the transaction holds a guard for it.
    pub open spec fn under_guard(self) -> bool {
        self.context() matches Some(context) ==> (self.guard() matches Some(guard)
            && guard.spec_context() == context)
    }

    /// The invariant of a transaction: each call is still there until it is
    /// handed out, a gated phase has a gate, the guard is held exactly while
    /// native calls may be performed under a context, and an error query is
    /// under way only after an answer that did not settle the operation.
    #[verifier::type_invariant]
    pub closed spec fn well_formed(self) -> bool {
        &&& (self.phase is Calling || self.phase is Checking || self.phase is Releasing
            || self.phase is Done) <==> self.call is None
        &&& self.setup is Some ==> self.phase is Ready || self.phase is Acquiring
        &&& (self.phase is Gating || self.phase is GateChecking) ==> self.frame.gate is Some
        &&& self.guard is Some <==> self.frame.context is Some && self.in_contact()
        &&& self.in_contact() ==> self.under_guard()
        &&& self.phase matches Phase::Checking { answer } ==> !self.frame.check.settles(answer)
    }

    /// Whether `event` is the event that this transaction waits for.
    ///
    /// An answer has to have the form that the call answers with. Two
    /// answers are left out because they mean that the engine's state is
    /// beyond what this layer can represent: an integer outside the domain
    /// of the enumeration that it is read as, and a clear error code after a
    /// call that returned the null pointer.
    pub open spec fn expects(self, event: Event) -> bool {
        match (self.phase(), event) {
            (Phase::Ready, Event::Start) => true,
            (Phase::Acquiring, Event::Acquired(guard)) => self.context() == Some(
                guard.spec_context(),
            ),
            (Phase::Preparing, Event::Answer(raw)) => raw is Nothing,
            (Phase::PrepareChecking, Event::Answer(raw)) => raw is Int,
            (Phase::Gating, Event::Answer(raw)) => raw is Flag,
            (Phase::GateChecking { .. }, Event::Answer(raw)) => raw is Int,
            (Phase::Calling, Event::Answer(raw)) => {
                &&& self.shape().fits(raw)
                &&& self.check().settles(raw) ==> self.shape().admits(raw)
            },
            (Phase::Checking { answer }, Event::Answer(raw)) => {
                &&& raw is Int
                &&& raw == Raw::Int(0) ==> self.shape().admits(answer)
                &&& raw == Raw::Int(0) ==> !(self.check() is AlcIfNull)
            },
            (Phase::Releasing { .. }, Event::Released) => true,
            _ => false,
        }
    }

    /// The outcome that a transaction has settled on, once it has.
    pub open spec fn outcome_of(post: Transaction, action: Action) -> AllenResult<Value> {
        match action {
            Action::Finish(outcome) => outcome,
            _ => post.phase()->outcome,
        }
    }

    /// The step goes into `phase` and asks for `call`; the operation's own
    /// call and the guard stay where they are.
    pub open spec fn asks(self, post: Transaction, action: Action, phase: Phase, call: NativeCall)
        -> bool {
        &&& post.phase() == phase
        &&& post.pending() == self.pending()
        &&& post.guard() == self.guard()
        &&& action == Action::Perform(call)
    }

    /// The step hands the operation's own call out, under the guard
    /// `held`.
    pub open spec fn calls(self, held: Option<Guard>, post: Transaction, action: Action) -> bool {
        &&& post.phase() == Phase::Calling
        &&& post.pending() is None
        &&& post.guard() == held
        &&& self.pending() matches Some(call) && action == Action::Perform(call)
    }

    /// The step goes on towards the call, under the guard `held`: to the
    /// presence query, if the operation is gated, and to the call itself
    /// otherwise.
    pub open spec fn proceeds(self, held: Option<Guard>, post: Transaction, action: Action)
        -> bool {
        match self.gate() {
            Some(capability) => {
                &&& post.phase() == Phase::Gating
                &&& post.pending() == self.pending()
                &&& post.guard() == held
                &&& action matches Action::Perform(NativeCall::IsExtensionPresent { name })
                    && name@ == capability.spec_name()
            },
            None => self.calls(held, post, action),
        }
    }

    /// The step makes contact with the engine, under the guard `held`: with
    /// the preparing call, if the operation has one, and with what comes
    /// after it otherwise.
    pub open spec fn sets_out(self, held: Option<Guard>, post: Transaction, action: Action)
        -> bool {
        match self.setup() {
            Some(setup) => {
                &&& post.phase() == Phase::Preparing
                &&& post.pending() == self.pending()
                &&& post.guard() == held
                &&& action == Action::Perform(setup)
            },
            None => self.proceeds(held, post, action),
        }
    }

    /// The step settles the outcome: the guard is given back first if one
    /// is held, and the outcome is handed out otherwise.
    pub open spec fn concludes(self, post: Transaction, action: Action) -> bool {
        &&& post.pending() is None
        &&& post.guard() is None
        &&& match self.guard() {
            Some(guard) => post.phase() is Releasing && action == Action::Release(guard),
            None => post.phase() == Phase::Done && action is Finish,
        }
    }

    /// The step settles on exactly this outcome.
    pub open spec fn concludes_with(
        self,
        post: Transaction,
        action: Action,
        outcome: AllenResult<Value>,
    ) -> bool {
        &&& self.concludes(post, action)
        &&& Self::outcome_of(post, action) == outcome
    }

    /// The transition relation: `post` and `action` are what this
    /// transaction turns into and asks for when it is given `event`.
    pub open spec fn follows(self, event: Event, post: Transaction, action: Action) -> bool {
        &&& post.context() == self.context()
        &&& post.gate() == self.gate()
        &&& post.check() == self.check()
        &&& post.shape() == self.shape()
        &&& post.setup() == if post.phase() is Acquiring {
            self.setup()
        } else {
            None
        }
        &&& match (self.phase(), event) {
            (Phase::Ready, Event::Start) => match self.context() {
                Some(context) => {
                    &&& post.phase() == Phase::Acquiring
                    &&& post.pending() == self.pending()
                    &&& post.guard() is None
                    &&& action == (Action::Acquire { context })
                },
                None => self.sets_out(None, post, action),
            },
            (Phase::Acquiring, Event::Acquired(guard)) => self.sets_out(Some(guard), post, action),
            (Phase::Preparing, Event::Answer(Raw::Nothing)) => self.asks(
                post,
                action,
                Phase::PrepareChecking,
                NativeCall::GetError,
            ),
            (Phase::PrepareChecking, Event::Answer(Raw::Int(code))) => {
                if code != 0 {
                    self.concludes_with(post, action, Err(al_error_of(code)))
                } else {
                    self.proceeds(self.guard(), post, action)
                }
            },
            (Phase::Gating, Event::Answer(Raw::Flag(flag))) => self.asks(
                post,
                action,
                Phase::GateChecking { present: flag != 0 },
                NativeCall::GetError,
            ),
            (Phase::GateChecking { present }, Event::Answer(Raw::Int(code))) => {
                if code != 0 {
                    self.concludes_with(post, action, Err(al_error_of(code)))
                } else if !present {
                    &&& self.concludes(post, action)
                    &&& self.gate() matches Some(capability)
                    &&& Self::outcome_of(post, action) matches Err(
                        AllenError::MissingExtension(name),
                    ) && name@ == capability.spec_name()
                } else {
                    self.calls(self.guard(), post, action)
                }
            },
            (Phase::Calling, Event::Answer(answer)) => {
                if self.check().settles(answer) {
                    self.concludes_with(post, action, Ok(self.shape().read(answer)))
                } else {
                    self.asks(post, action, Phase::Checking { answer }, self.check().query())
                }
            },
            (Phase::Checking { answer }, Event::Answer(Raw::Int(code))) => {
                if code != 0 {
                    self.concludes_with(post, action, Err(self.check().error_of(code)))
                } else {
                    self.concludes_with(post, action, Ok(self.shape().read(answer)))
                }
            },
            (Phase::Releasing { outcome }, Event::Released) => {
                &&& post.phase() == Phase::Done
                &&& post.pending() is None
                &&& post.guard() is None
                &&& action == Action::Finish(outcome)
            },
            _ => false,
        }
    }

    /// Starts a transaction for the operation.
    pub fn begin(op: Operation) -> (transaction: Transaction)
        ensures
            transaction.carries(op),
            transaction.phase() == Phase::Ready,
            transaction.setup() == op.setup,
            transaction.pending() == Some(op.call),
            transaction.guard() is None,
    {
        Transaction {
            frame: Frame { context: op.context, gate: op.gate, check: op.check, shape: op.shape },
            setup: op.setup,
            call: Some(op.call),
            phase: Phase::Ready,
            guard: None,
        }
    }

    /// Whether the outcome has been handed out.
    pub fn is_done(&self) -> (done: bool)
        ensures
            done == (self.phase() == Phase::Done),
    {
        match &self.phase {
            Phase::Done => true,
            _ => false,
        }
    }

    /// Whether `event` is the event that this transaction waits for.
    pub fn accepts(&self, event: &Event) -> (ok: bool)
        ensures
            ok == self.expects(*event),
    {
        match (&self.phase, event) {
            (Phase::Ready, Event::Start) => true,
            (Phase::Acquiring, Event::Acquired(guard)) => match self.frame.context {
                Some(context) => context == guard.context(),
                None => false,
            },
            (Phase::Preparing, Event::Answer(Raw::Nothing)) => true,
            (Phase::PrepareChecking, Event::Answer(Raw::Int(_))) => true,
            (Phase::Gating, Event::Answer(Raw::Flag(_))) => true,
            (Phase::GateChecking { .. }, Event::Answer(Raw::Int(_))) => true,
            (Phase::Calling, Event::Answer(raw)) => {
                if !self.frame.shape.accepts(raw) {
                    false
                } else if self.frame.check.is_settled_by(raw) {
                    self.frame.shape.can_decode(raw)
                } else {
                    true
                }
            },
            (Phase::Checking { answer }, Event::Answer(Raw::Int(code))) => {
                if *code != 0 {
                    true
                } else {
                    match self.frame.check {
                        Check::AlcIfNull { .. } => false,
                        _ => self.frame.shape.can_decode(answer),
                    }
                }
            },
            (Phase::Releasing { .. }, Event::Released) => true,
            _ => false,
        }
    }

    /// Takes one step: consumes the event, and says what is to be done next.
    pub fn step(self, event: Event) -> (next: (Transaction, Action))
        requires
            self.expects(event),
        ensures
            self.follows(event, next.0, next.1),
    {
        proof {
            use_type_invariant(&self);
        }
        let Transaction { frame, setup, call, phase, guard } = self;
        match (phase, event) {
            (Phase::Ready, Event::Start) => match frame.context {
                Some(current) => (
                    Transaction { frame, setup, call, phase: Phase::Acquiring, guard: None },
                    Action::Acquire { context: current },
                ),
                None => Self::set_out(frame, setup, call, None),
            },
            (Phase::Acquiring, Event::Acquired(held)) => Self::set_out(
                frame,
                setup,
                call,
                Some(held),
            ),
            (Phase::Preparing, Event::Answer(Raw::Nothing)) => (
                Transaction { frame, setup: None, call, phase: Phase::PrepareChecking, guard },
                Action::Perform(NativeCall::GetError),
            ),
            (Phase::PrepareChecking, Event::Answer(Raw::Int(code))) => {
                match check_al_error(code) {
                    Ok(()) => Self::proceed(frame, call, guard),
                    Err(error) => Self::conclude(frame, guard, Err(error)),
                }
            },
            (Phase::Gating, Event::Answer(Raw::Flag(flag))) => (
                Transaction {
                    frame,
                    setup: None,
                    call,
                    phase: Phase::GateChecking { present: flag != 0 },
                    guard,
                },
                Action::Perform(NativeCall::GetError),
            ),
            (Phase::GateChecking { present }, Event::Answer(Raw::Int(code))) => {
                let capability = frame.gate.unwrap();
                let gate_result = match check_al_error(code) {
                    Ok(()) => check_al_extension(capability.name(), Ok(present)),
                    Err(error) => Err(error),
                };
                match gate_result {
                    Ok(()) => Self::perform(frame, call, guard),
                    Err(error) => Self::conclude(frame, guard, Err(error)),
                }
            },
            (Phase::Calling, Event::Answer(answer)) => {
                if frame.check.is_settled_by(&answer) {
                    let value = frame.shape.decode(answer);
                    Self::conclude(frame, guard, Ok(value))
                } else {
                    (
                        Transaction {
                            frame,
                            setup: None,
                            call: None,
                            phase: Phase::Checking { answer },
                            guard,
                        },
                        Action::Perform(frame.check.error_query()),
                    )
                }
            },
            (Phase::Checking { answer }, Event::Answer(Raw::Int(code))) => {
                match frame.check.read_error(code) {
                    Ok(()) => {
                        let value = frame.shape.decode(answer);
                        Self::conclude(frame, guard, Ok(value))
                    },
                    Err(error) => Self::conclude(frame, guard, Err(error)),
                }
            },
            (Phase::Releasing { outcome }, Event::Released) => (
                Transaction { frame, setup: None, call: None, phase: Phase::Done, guard: None },
                Action::Finish(outcome),
            ),
            _ => {
                proof {
                    assert(false);
                }
                (
                    Transaction { frame, setup: None, call: None, phase: Phase::Done, guard: None },
                    Action::Finish(Ok(Value::Unit)),
                )
            },
        }
    }

    /// Whether the guard is one for the context of the frame, or there is
    /// neither.
    spec fn covers(frame: Frame, guard: Option<Guard>) -> bool {
        match frame.context {
            Some(context) => guard matches Some(held) && held.spec_context() == context,
            None => guard is None,
        }
    }

    fn set_out(
        frame: Frame,
        setup: Option<NativeCall>,
        call: Option<NativeCall>,
        guard: Option<Guard>,
    ) -> (next: (Transaction, Action))
        requires
            call is Some,
            Self::covers(frame, guard),
        ensures
            next.0.frame == frame,
            next.0.setup is None,
            next.0.guard == guard,
            match setup {
                Some(first) => {
                    &&& next.0.phase == Phase::Preparing
                    &&& next.0.call == call
                    &&& next.1 == Action::Perform(first)
                },
                None => Self::proceeded(frame, call, next.0, next.1),
            },
    {
        match setup {
            Some(first) => (
                Transaction { frame, setup: None, call, phase: Phase::Preparing, guard },
                Action::Perform(first),
            ),
            None => Self::proceed(frame, call, guard),
        }
    }

    /// What `proceed` makes of a call.
    spec fn proceeded(frame: Frame, call: Option<NativeCall>, post: Transaction, action: Action)
        -> bool {
        match frame.gate {
            Some(capability) => {
                &&& post.phase == Phase::Gating
                &&& post.call == call
                &&& action matches Action::Perform(NativeCall::IsExtensionPresent { name })
                    && name@ == capability.spec_name()
            },
            None => {
                &&& post.phase == Phase::Calling
                &&& post.call is None
                &&& call matches Some(own) && action == Action::Perform(own)
            },
        }
    }

    fn proceed(frame: Frame, call: Option<NativeCall>, guard: Option<Guard>) -> (next: (
        Transaction,
        Action,
    ))
        requires
            call is Some,
            Self::covers(frame, guard),
        ensures
            next.0.frame == frame,
            next.0.setup is None,
            next.0.guard == guard,
            Self::proceeded(frame, call, next.0, next.1),
    {
        match frame.gate {
            Some(capability) => (
                Transaction { frame, setup: None, call, phase: Phase::Gating, guard },
                Action::Perform(
                    NativeCall::IsExtensionPresent { name: capability.name().to_owned() },
                ),
            ),
            None => Self::perform(frame, call, guard),
        }
    }

    fn perform(frame: Frame, call: Option<NativeCall>, guard: Option<Guard>) -> (next: (
        Transaction,
        Action,
    ))
        requires
            call is Some,
            Self::covers(frame, guard),
        ensures
            next.0.frame == frame,
            next.0.setup is None,
            next.0.guard == guard,
            next.0.phase == Phase::Calling,
            next.0.call is None,
            call matches Some(own) && next.1 == Action::Perform(own),
    {
        (
            Transaction { frame, setup: None, call: None, phase: Phase::Calling, guard },
            Action::Perform(call.unwrap()),
        )
    }

    fn conclude(frame: Frame, guard: Option<Guard>, outcome: AllenResult<Value>) -> (next: (
        Transaction,
        Action,
    ))
        ensures
            next.0.frame == frame,
            next.0.setup is None,
            next.0.call is None,
            next.0.guard is None,
            match guard {
                Some(held) => {
                    &&& next.0.phase == (Phase::Releasing { outcome })
                    &&& next.1 == Action::Release(held)
                },
                None => {
                    &&& next.0.phase == Phase::Done
                    &&& next.1 == Action::Finish(outcome)
                },
            },
    {
        match guard {
            Some(held) => (
                Transaction {
                    frame,
                    setup: None,
                    call: None,
                    phase: Phase::Releasing { outcome },
                    guard: None,
                },
                Action::Release(held),
            ),
            None => (
                Transaction { frame, setup: None, call: None, phase: Phase::Done, guard: None },
                Action::Finish(outcome),
            ),
        }
    }
}

/// A transaction that is gated by a capability never hands its call out
/// when the engine says that the capability is absent: it ends in an error,
/// which is `MissingExtension` with the capability's name unless the presence
/// query itself failed.
pub proof fn absent_capability_ends_before_the_call(
    pre: Transaction,
    event: Event,
    post: Transaction,
    action: Action,
)
    requires
        pre.phase() == (Phase::GateChecking { present: false }),
        pre.expects(event),
        pre.follows(event, post, action),
    ensures
        !(action is Perform),
        !(post.phase() is Calling),
        Transaction::outcome_of(post, action) is Err,
        event == Event::Answer(Raw::Int(0)) ==> ({
            &&& pre.gate() matches Some(capability)
            &&& Transaction::outcome_of(post, action) matches Err(
                AllenError::MissingExtension(name),
            )
            &&& name@ == capability.spec_name()
        }),
{
}

/// A preparing call that the engine refuses ends the operation before its
/// own call, with the error that the code means.
pub proof fn refused_preparation_ends_before_the_call(
    pre: Transaction,
    code: i32,
    post: Transaction,
    action: Action,
)
    requires
        pre.phase() == Phase::PrepareChecking,
        code != 0,
        pre.follows(Event::Answer(Raw::Int(code)), post, action),
    ensures
        !(action is Perform),
        !(post.phase() is Calling),
        Transaction::outcome_of(post, action) == Err::<Value, AllenError>(al_error_of(code)),
{
}

/// A transaction whose operation names a context never asks for a native
/// call unless it holds a guard for that context. It asks for the context
/// first; it gives the guard back once the outcome is settled, and all that
/// follows then is the outcome itself, unchanged.
pub proof fn calls_stay_inside_the_currency(
    pre: Transaction,
    event: Event,
    post: Transaction,
    action: Action,
)
    requires
        pre.well_formed(),
        pre.expects(event),
        pre.follows(event, post, action),
    ensures
        post.well_formed(),
        pre.phase() == Phase::Ready && pre.context() is Some ==> action is Acquire,
        action is Perform ==> post.in_contact() && post.under_guard(),
        action matches Action::Release(guard) ==> pre.context() == Some(guard.spec_context())
            && post.phase() is Releasing && post.guard() is None,
        pre.phase() is Releasing ==> action == Action::Finish(pre.phase()->outcome),
        action is Finish ==> post.phase() == Phase::Done,
{
}

/// The operation's own call is handed out at most once: the step that hands
/// it out leaves none behind, and no later step brings one back.
pub proof fn the_call_is_handed_out_once(
    pre: Transaction,
    event: Event,
    post: Transaction,
    action: Action,
)
    requires
        pre.well_formed(),
        pre.expects(event),
        pre.follows(event, post, action),
    ensures
        pre.pending() is None ==> post.pending() is None,
        post.phase() is Calling ==> pre.pending() is Some && action == Action::Perform(
            pre.pending().unwrap(),
        ) && post.pending() is None,
        post.pending() is Some ==> post.pending() == pre.pending() && !(post.phase() is Calling),
{
}

/// Every call that reports errors is followed at once by its error query,
/// and a code that is not clear ends the operation with the error that the
/// code means on the channel that was queried.
pub proof fn every_checked_call_is_followed_by_its_error_query(
    pre: Transaction,
    answer: Raw,
    middle: Transaction,
    query: Action,
    code: i32,
    post: Transaction,
    action: Action,
)
    requires
        pre.phase() == Phase::Calling,
        !pre.check().settles(answer),
        pre.expects(Event::Answer(answer)),
        pre.follows(Event::Answer(answer), middle, query),
        code != 0,
        middle.follows(Event::Answer(Raw::Int(code)), post, action),
    ensures
        query == Action::Perform(pre.check().query()),
        Transaction::outcome_of(post, action) == Err::<Value, AllenError>(
            pre.check().error_of(code),
        ),
{
}

/// An operation that reads the device's error when the engine answers with
/// the null pointer never ends in the null pointer as a success: its outcome
/// is then the device's error.
pub proof fn null_pointer_is_never_a_success(
    pre: Transaction,
    event: Event,
    post: Transaction,
    action: Action,
)
    requires
        pre.well_formed(),
        pre.check() is AlcIfNull,
        pre.shape() == Shape::Pointer,
        pre.phase() is Calling || pre.phase() is Checking,
        pre.expects(event),
        pre.follows(event, post, action),
        post.phase() is Releasing || post.phase() is Done,
    ensures
        Transaction::outcome_of(post, action) != Ok::<Value, AllenError>(Value::Pointer(0)),
{
}

/// The whole course of an operation that names a context, has no preparing
/// call and no gate, and is followed by the context-level error query: the context is asked for,
/// the call is performed under its guard, the error is queried, the guard is
/// given back, and the outcome is the answer read as the operation's shape if
/// the code is clear, and the error that the code means if it is not.
pub proof fn a_checked_operation_runs_its_course(
    start: Transaction,
    guard: Guard,
    answer: Raw,
    code: i32,
    steps: Seq<Transaction>,
    actions: Seq<Action>,
)
    requires
        start.phase() == Phase::Ready,
        start.pending() is Some,
        start.context() == Some(guard.spec_context()),
        start.setup() is None,
        start.gate() is None,
        start.check() == Check::Al,
        start.shape().fits(answer),
        code == 0 ==> start.shape().admits(answer),
        steps.len() == 5,
        actions.len() == 5,
        start.follows(Event::Start, steps[0], actions[0]),
        steps[0].follows(Event::Acquired(guard), steps[1], actions[1]),
        steps[1].follows(Event::Answer(answer), steps[2], actions[2]),
        steps[2].follows(Event::Answer(Raw::Int(code)), steps[3], actions[3]),
        steps[3].follows(Event::Released, steps[4], actions[4]),
    ensures
        actions[0] == (Action::Acquire { context: guard.spec_context() }),
        actions[1] == Action::Perform(start.pending().unwrap()),
        actions[2] == Action::Perform(NativeCall::GetError),
        actions[3] == Action::Release(guard),
        actions[4] == Action::Finish(
            if code == 0 {
                Ok(start.shape().read(answer))
            } else {
                Err(al_error_of(code))
            },
        ),
        steps[4].phase() == Phase::Done,
{
}

/// The whole course of an operation that names a context, has no preparing
/// call, and is gated by a capability that the engine says is absent: the
/// context is asked for, the presence is queried under its guard, the error
/// is queried, the guard is given back, and the outcome is
/// `MissingExtension` with the name of the capability. No step ever reaches
/// the phase in which the operation's own call is under way.
pub proof fn a_gated_operation_without_its_capability_runs_its_course(
    start: Transaction,
    guard: Guard,
    capability: Capability,
    steps: Seq<Transaction>,
    actions: Seq<Action>,
)
    requires
        start.phase() == Phase::Ready,
        start.pending() is Some,
        start.context() == Some(guard.spec_context()),
        start.setup() is None,
        start.gate() == Some(capability),
        steps.len() == 5,
        actions.len() == 5,
        start.follows(Event::Start, steps[0], actions[0]),
        steps[0].follows(Event::Acquired(guard), steps[1], actions[1]),
        steps[1].follows(Event::Answer(Raw::Flag(0)), steps[2], actions[2]),
        steps[2].follows(Event::Answer(Raw::Int(0)), steps[3], actions[3]),
        steps[3].follows(Event::Released, steps[4], actions[4]),
    ensures
        actions[0] == (Action::Acquire { context: guard.spec_context() }),
        actions[1] matches Action::Perform(NativeCall::IsExtensionPresent { name }) && name@
            == capability.spec_name(),
        actions[2] == Action::Perform(NativeCall::GetError),
        actions[3] == Action::Release(guard),
        actions[4] matches Action::Finish(Err(AllenError::MissingExtension(name))) && name@
            == capability.spec_name(),
        steps[4].phase() == Phase::Done,
        forall|i: int|
            0 <= i < 5 ==> !(steps[i].phase() is Calling || steps[i].phase() is Checking),
{
}

} // verus!
