//! Which context is current, and for whom.
//!
//! The engine has one implicit current context. Where it can keep one per
//! thread, making a context current touches nothing that another thread
//! sees, and nothing has to be serialised. Where it cannot, one context is
//! current for the whole process, and the manager lets only one guard exist
//! at a time: whoever asks while a guard is out has to wait for its release.
//! Which of the two holds is probed once and remembered.

use vstd::prelude::*;
use crate::native::{NativeCall, Raw};

verus! {

/// For whom a context is made current.
#[derive(Debug, Clone, Copy, PartialEq, Eq, Structural)]
pub enum Scope {
    /// For the calling thread only.
    Thread,
    /// For the whole process.
    Process,
}

/// The right to make a context current. It becomes a [`Guard`] once the
/// engine has confirmed the call.
#[derive(Debug, PartialEq, Eq)]
pub struct Grant {
    context: u64,
    scope: Scope,
}

/// Proof that a context is current. While it exists, operations on that
/// context may be carried out.
#[derive(Debug, PartialEq, Eq)]
pub struct Guard {
    context: u64,
    scope: Scope,
}

/// The answer to a request for currency.
#[derive(Debug, PartialEq, Eq)]
pub enum Acquisition {
    /// The engine has not been probed yet: perform
    /// [`NativeCall::ProbeThreadContext`], record the answer, and ask again.
    Unprobed,
    /// Another guard is out and currency is process-wide: wait for its
    /// release, and ask again.
    Busy,
    /// Currency is granted.
    Granted(Grant),
}

/// The state behind "the current context".
#[derive(Debug)]
pub struct ContextManager {
    scope: Option<Scope>,
    holder: Option<u64>,
}

impl Grant {
    /// The context that may be made current.
    pub closed spec fn spec_context(self) -> u64 {
        self.context
    }

    /// For whom it may be made current.
    pub closed spec fn spec_scope(self) -> Scope {
        self.scope
    }

    pub fn context(&self) -> (context: u64)
        ensures
            context == self.spec_context(),
    {
        self.context
    }

    pub fn scope(&self) -> (scope: Scope)
        ensures
            scope == self.spec_scope(),
    {
        self.scope
    }

    /// The call that makes the granted context current.
    pub open spec fn spec_call(self) -> NativeCall {
        match self.spec_scope() {
            Scope::Thread => NativeCall::SetThreadContext { context: self.spec_context() },
            Scope::Process => NativeCall::MakeContextCurrent { context: self.spec_context() },
        }
    }

    /// Whether the engine's answer says that the context is now current.
    pub open spec fn confirmed_by(answer: Raw) -> bool {
        answer matches Raw::Flag(flag) && flag != 0
    }

    pub fn call(&self) -> (call: NativeCall)
        ensures
            call == self.spec_call(),
    {
        match self.scope {
            Scope::Thread => NativeCall::SetThreadContext { context: self.context },
            Scope::Process => NativeCall::MakeContextCurrent { context: self.context },
        }
    }

    /// Whether the engine's answer says that the context is now current.
    pub fn is_confirmed_by(answer: &Raw) -> (ok: bool)
        ensures
            ok == Self::confirmed_by(*answer),
    {
        match answer {
            Raw::Flag(flag) => *flag != 0,
            _ => false,
        }
    }

    /// Turns the grant into a guard, given the engine's answer to
    /// [`Grant::call`]. Making a valid context current always succeeds; an
    /// answer that says otherwise means that the context or its device was
    /// already invalid, and there is no guard to be had.
    pub fn confirm(self, answer: &Raw) -> (guard: Guard)
        requires
            Self::confirmed_by(*answer),
        ensures
            guard.spec_context() == self.spec_context(),
            guard.spec_scope() == self.spec_scope(),
    {
        Guard { context: self.context, scope: self.scope }
    }
}

impl Guard {
    /// The context that is current.
    pub closed spec fn spec_context(self) -> u64 {
        self.context
    }

    /// For whom it is current.
    pub closed spec fn spec_scope(self) -> Scope {
        self.scope
    }

    pub fn context(&self) -> (context: u64)
        ensures
            context == self.spec_context(),
    {
        self.context
    }

    pub fn scope(&self) -> (scope: Scope)
        ensures
            scope == self.spec_scope(),
    {
        self.scope
    }
}

impl ContextManager {
    /// What the probe found, once it has been made.
    pub closed spec fn scope(self) -> Option<Scope> {
        self.scope
    }

    /// The context of the guard that is out, where currency is process-wide.
    pub closed spec fn holder(self) -> Option<u64> {
        self.holder
    }

    /// Whether `guard` is a guard that this manager can take back.
    pub open spec fn holds(self, guard: Guard) -> bool {
        &&& self.scope() == Some(guard.spec_scope())
        &&& guard.spec_scope() == Scope::Process ==> self.holder() == Some(guard.spec_context())
    }

    /// The relation between a manager before and after a request for
    /// currency, and the answer to the request.
    pub open spec fn acquires(self, context: u64, post: ContextManager, answer: Acquisition)
        -> bool {
        match self.scope() {
            None => post == self && answer == Acquisition::Unprobed,
            Some(Scope::Thread) => {
                &&& post == self
                &&& answer matches Acquisition::Granted(grant)
                &&& grant.spec_context() == context
                &&& grant.spec_scope() == Scope::Thread
            },
            Some(Scope::Process) => match self.holder() {
                Some(_) => post == self && answer == Acquisition::Busy,
                None => {
                    &&& post.scope() == self.scope()
                    &&& post.holder() == Some(context)
                    &&& answer matches Acquisition::Granted(grant)
                    &&& grant.spec_context() == context
                    &&& grant.spec_scope() == Scope::Process
                },
            },
        }
    }

    /// The relation between a manager before and after a release.
    pub open spec fn releases(self, guard: Guard, post: ContextManager) -> bool {
        match guard.spec_scope() {
            Scope::Thread => post == self,
            Scope::Process => post.scope() == self.scope() && post.holder() is None,
        }
    }

    /// The query that tells which context is current, where the probe has
    /// been made, and the probe itself where it has not.
    pub open spec fn spec_current_query(self) -> NativeCall {
        match self.scope() {
            None => NativeCall::ProbeThreadContext,
            Some(Scope::Thread) => NativeCall::GetThreadContext,
            Some(Scope::Process) => NativeCall::GetCurrentContext,
        }
    }

    /// A manager that has not probed the engine yet.
    pub fn new() -> (manager: ContextManager)
        ensures
            manager.scope() is None,
            manager.holder() is None,
    {
        ContextManager { scope: None, holder: None }
    }

    /// What the probe found, once it has been made.
    pub fn probed_scope(&self) -> (scope: Option<Scope>)
        ensures
            scope == self.scope(),
    {
        self.scope
    }

    /// Whether the engine still has to be probed.
    pub fn needs_probe(&self) -> (needed: bool)
        ensures
            needed == (self.scope() is None),
    {
        self.scope.is_none()
    }

    /// The scope that the engine's answer to the probe calls for: the
    /// thread if it offers the entry point, and the process otherwise.
    pub open spec fn probed(answer: Raw) -> Scope {
        if answer matches Raw::Flag(flag) && flag != 0 {
            Scope::Thread
        } else {
            Scope::Process
        }
    }

    /// Records the engine's answer to the probe. Only the first answer
    /// counts: it is remembered for the life of the manager.
    pub fn record_probe(&mut self, answer: &Raw)
        ensures
            final(self).holder() == old(self).holder(),
            old(self).scope() is Some ==> final(self).scope() == old(self).scope(),
            old(self).scope() is None ==> final(self).scope() == Some(Self::probed(*answer)),
    {
        if self.scope.is_none() {
            self.scope = Some(
                match answer {
                    Raw::Flag(flag) => if *flag != 0 {
                        Scope::Thread
                    } else {
                        Scope::Process
                    },
                    _ => Scope::Process,
                },
            );
        }
    }

    /// Asks for `context` to be made current.
    ///
    /// With thread-scoped currency the request is always granted and the
    /// manager does not change. With process-wide currency it is granted
    /// only while no guard is out.
    pub fn acquire_current(&mut self, context: u64) -> (answer: Acquisition)
        ensures
            old(self).acquires(context, *final(self), answer),
    {
        match self.scope {
            None => Acquisition::Unprobed,
            Some(Scope::Thread) => Acquisition::Granted(Grant { context, scope: Scope::Thread }),
            Some(Scope::Process) => {
                if self.holder.is_some() {
                    Acquisition::Busy
                } else {
                    self.holder = Some(context);
                    Acquisition::Granted(Grant { context, scope: Scope::Process })
                }
            },
        }
    }

    /// Takes a guard back. With thread-scoped currency there is nothing to
    /// do; with process-wide currency the next request can be granted.
    pub fn release(&mut self, guard: Guard)
        requires
            old(self).holds(guard),
        ensures
            old(self).releases(guard, *final(self)),
    {
        match guard.scope {
            Scope::Thread => {},
            Scope::Process => {
                self.holder = None;
            },
        }
    }

    /// Whether `guard` is a guard that this manager can take back.
    pub fn is_held(&self, guard: &Guard) -> (held: bool)
        ensures
            held == self.holds(*guard),
    {
        match (self.scope, guard.scope) {
            (Some(Scope::Thread), Scope::Thread) => true,
            (Some(Scope::Process), Scope::Process) => match self.holder {
                Some(context) => context == guard.context,
                None => false,
            },
            _ => false,
        }
    }

    /// The call that tells which context is current.
    pub fn current_query(&self) -> (call: NativeCall)
        ensures
            call == self.spec_current_query(),
    {
        match self.scope {
            None => NativeCall::ProbeThreadContext,
            Some(Scope::Thread) => NativeCall::GetThreadContext,
            Some(Scope::Process) => NativeCall::GetCurrentContext,
        }
    }
}

/// With thread-scoped currency, two requests for two contexts are both
/// granted, in either order, and neither leaves a trace in the manager that
/// the other could see.
pub proof fn thread_scoped_requests_do_not_interfere(
    start: ContextManager,
    first: u64,
    second: u64,
    middle: ContextManager,
    end: ContextManager,
    first_answer: Acquisition,
    second_answer: Acquisition,
)
    requires
        start.scope() == Some(Scope::Thread),
        start.acquires(first, middle, first_answer),
        middle.acquires(second, end, second_answer),
    ensures
        first_answer matches Acquisition::Granted(grant) && grant.spec_context() == first,
        second_answer matches Acquisition::Granted(grant) && grant.spec_context() == second,
        middle == start,
        end == start,
{
}

/// With process-wide currency, a request made while a guard is out is
/// refused and changes nothing: the context of the guard stays the one that
/// was made current.
pub proof fn process_wide_requests_exclude_each_other(
    start: ContextManager,
    first: u64,
    second: u64,
    middle: ContextManager,
    end: ContextManager,
    first_answer: Acquisition,
    second_answer: Acquisition,
)
    requires
        start.scope() == Some(Scope::Process),
        start.acquires(first, middle, first_answer),
        first_answer is Granted,
        middle.acquires(second, end, second_answer),
    ensures
        middle.holder() == Some(first),
        second_answer == Acquisition::Busy,
        end == middle,
{
}

/// With process-wide currency, the release of the guard that is out lets the
/// next request through.
pub proof fn release_admits_the_next_request(
    start: ContextManager,
    guard: Guard,
    next: u64,
    middle: ContextManager,
    end: ContextManager,
    answer: Acquisition,
)
    requires
        start.holds(guard),
        guard.spec_scope() == Scope::Process,
        start.releases(guard, middle),
        middle.acquires(next, end, answer),
    ensures
        answer matches Acquisition::Granted(grant) && grant.spec_context() == next,
        end.holder() == Some(next),
{
}

/// With process-wide currency, all guards that a manager can take back are
/// guards for one and the same context: no two contexts are current at once.
pub proof fn held_guards_agree_on_the_context(manager: ContextManager, one: Guard, other: Guard)
    requires
        manager.scope() == Some(Scope::Process),
        manager.holds(one),
        manager.holds(other),
    ensures
        one.spec_context() == other.spec_context(),
        manager.holder() == Some(one.spec_context()),
{
}

} // verus!
