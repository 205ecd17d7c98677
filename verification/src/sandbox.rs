//! One evaluation of a script, from binding the names to the root handle.
//!
//! The sandbox does not run the interpreter. It keeps track of how far an
//! evaluation has come, says what may happen next, and holds the result
//! and the messages that were sent on the way.

use std::sync::mpsc::Sender;
use vstd::prelude::*;
use crate::bindings::bounds;
use crate::bindings::exported;
use crate::bindings::Binding;
use crate::console::Console;
use crate::alias::NativeCall;
use crate::factory::construct_failure;
use crate::factory::constructed;
use crate::factory::mesh_failure;
use crate::factory::Derived;
use crate::shape::well_formed_or_empty;
use crate::factory::mesh_warning;
use crate::lobject::LObject;
use crate::shape::Solid;

verus! {

/// How far an evaluation has come.
#[derive(Clone, Copy, Debug, PartialEq, Eq, Structural)]
pub enum Phase {
    /// Nothing is bound yet.
    Uninitialized,
    /// The names are bound; no script runs.
    Bound,
    /// A script runs.
    Executing,
    /// The script ran to its end and handed back a root.
    Succeeded,
    /// The script was stopped by an error.
    Failed,
}

/// What moves an evaluation on.
#[derive(Clone, Copy, Debug, PartialEq, Eq, Structural)]
pub enum Event {
    Bind,
    Start,
    Succeed,
    Fail,
}

/// A step that was asked for at the wrong time. The sandbox is then left
/// as it was.
#[derive(Clone, Copy, Debug, PartialEq, Eq, Structural)]
pub enum SandboxError {
    /// Names cannot be bound while a script runs.
    BindWhileExecuting,
    /// A script can only start once the names are bound.
    StartUnbound,
    /// Only a running script can end.
    NotExecuting,
}

/// The phase that `event` leads to from `phase`, where it may happen
/// there at all.
pub open spec fn next(phase: Phase, event: Event) -> Option<Phase> {
    match (phase, event) {
        (Phase::Executing, Event::Bind) => None,
        (_, Event::Bind) => Some(Phase::Bound),
        (Phase::Bound, Event::Start) => Some(Phase::Executing),
        (Phase::Executing, Event::Succeed) => Some(Phase::Succeeded),
        (Phase::Executing, Event::Fail) => Some(Phase::Failed),
        _ => None,
    }
}

/// Whether the events of `trace` may happen one after the other, starting
/// in `phase`.
pub open spec fn accepted(phase: Phase, trace: Seq<Event>) -> bool
    decreases trace.len(),
{
    if trace.len() == 0 {
        true
    } else {
        match next(phase, trace[0]) {
            Some(then) => accepted(then, trace.drop_first()),
            None => false,
        }
    }
}

/// The phase after the events of an accepted `trace`.
pub open spec fn after(phase: Phase, trace: Seq<Event>) -> Phase
    decreases trace.len(),
{
    if trace.len() == 0 {
        phase
    } else {
        match next(phase, trace[0]) {
            Some(then) => after(then, trace.drop_first()),
            None => phase,
        }
    }
}

/// An evaluation and what it has produced so far.
pub struct Sandbox {
    phase: Phase,
    env_name: String,
    root: LObject,
    failure: String,
    console: Console,
}

impl Sandbox {
    pub closed spec fn phase(&self) -> Phase {
        self.phase
    }

    /// The name of the table in which the script finds the constructors.
    pub closed spec fn env_name(&self) -> Seq<char> {
        self.env_name@
    }

    /// The tree that the script handed back. Only an evaluation that
    /// succeeded has one.
    pub closed spec fn root(&self) -> Option<Solid> {
        if self.phase == Phase::Succeeded {
            self.root@
        } else {
            None
        }
    }

    /// The error that stopped the script. Only an evaluation that failed
    /// has one.
    pub closed spec fn failure(&self) -> Seq<char> {
        if self.phase == Phase::Failed {
            self.failure@
        } else {
            Seq::empty()
        }
    }

    /// The messages that wait for the host, oldest first.
    pub closed spec fn messages(&self) -> Seq<Seq<char>> {
        self.console@
    }

    /// A sandbox in which nothing is bound and nothing was sent.
    pub fn new() -> (r: Sandbox)
        ensures
            r.phase() == Phase::Uninitialized,
            r.env_name().len() == 0,
            r.root() is None,
            r.failure().len() == 0,
            r.messages().len() == 0,
    {
        Sandbox {
            phase: Phase::Uninitialized,
            env_name: String::new(),
            root: LObject::empty(),
            failure: String::new(),
            console: Console::new(),
        }
    }

    /// The name of the table in which the script finds the constructors.
    pub fn environment(&self) -> (r: &String)
        ensures
            r@ == self.env_name(),
    {
        &self.env_name
    }

    pub fn current_phase(&self) -> (r: Phase)
        ensures
            r == self.phase(),
    {
        self.phase
    }

    /// Gets the sandbox ready for a script that finds the constructors in
    /// the table `env_name`, and hands out the bindings to register.
    ///
    /// This is possible at any time but while a script runs. What an
    /// earlier evaluation left behind is dropped; messages stay until
    /// they are taken.
    pub fn bind(&mut self, env_name: String) -> (r: Result<Vec<Binding>, SandboxError>)
        ensures
            final(self).messages() == old(self).messages(),
            match next(old(self).phase(), Event::Bind) {
                Some(then) => {
                    &&& r matches Ok(bindings) && bounds(bindings@) == exported()
                    &&& final(self).phase() == then
                    &&& final(self).env_name() == env_name@
                    &&& final(self).root() is None
                    &&& final(self).failure().len() == 0
                },
                None => {
                    &&& r == Err::<Vec<Binding>, SandboxError>(SandboxError::BindWhileExecuting)
                    &&& final(self).phase() == old(self).phase()
                    &&& final(self).env_name() == old(self).env_name()
                    &&& final(self).root() == old(self).root()
                    &&& final(self).failure() == old(self).failure()
                },
            },
    {
        match self.phase {
            Phase::Executing => Err(SandboxError::BindWhileExecuting),
            _ => {
                self.phase = Phase::Bound;
                self.env_name = env_name;
                self.root = LObject::empty();
                self.failure = String::new();
                Ok(LObject::export_factories())
            },
        }
    }

    /// Marks the start of the script.
    pub fn start(&mut self) -> (r: Result<(), SandboxError>)
        ensures
            final(self).messages() == old(self).messages(),
            final(self).env_name() == old(self).env_name(),
            final(self).root() == old(self).root(),
            final(self).failure() == old(self).failure(),
            match next(old(self).phase(), Event::Start) {
                Some(then) => r is Ok && final(self).phase() == then,
                None => {
                    &&& r == Err::<(), SandboxError>(SandboxError::StartUnbound)
                    &&& final(self).phase() == old(self).phase()
                },
            },
    {
        match self.phase {
            Phase::Bound => {
                self.phase = Phase::Executing;
                Ok(())
            },
            _ => Err(SandboxError::StartUnbound),
        }
    }

    /// Sends `message` to the host.
    pub fn send(&mut self, message: String)
        ensures
            final(self).messages() == old(self).messages().push(message@),
            final(self).phase() == old(self).phase(),
            final(self).env_name() == old(self).env_name(),
            final(self).root() == old(self).root(),
            final(self).failure() == old(self).failure(),
    {
        self.console.send(message);
    }

    /// The handle for the mesh at `path`, once the caller has tried to read
    /// the file. Exactly one message is sent: a warning for a mesh that
    /// was read, the reason for one that was not.
    pub fn mesh(&mut self, path: String, outcome: Result<(), String>) -> (r: LObject)
        ensures
            final(self).phase() == old(self).phase(),
            final(self).env_name() == old(self).env_name(),
            final(self).root() == old(self).root(),
            final(self).failure() == old(self).failure(),
            outcome is Ok ==> r@ == Some(Solid::Mesh { path: path@ }),
            outcome is Ok ==> final(self).messages() == old(self).messages().push(mesh_warning()),
            outcome matches Err(reason) ==> r@ is None,
            outcome matches Err(reason) ==> final(self).messages() == old(self).messages().push(
                mesh_failure(reason@),
            ),
    {
        crate::factory::mesh(path, outcome, &mut self.console)
    }

    /// Builds what a checked call names, given what arithmetic on its
    /// numbers gave. Where that does not fit the call, the handle is empty
    /// and exactly one message says so; else no message is sent.
    pub fn construct(&mut self, call: NativeCall, derived: Derived) -> (r: LObject)
        ensures
            final(self).phase() == old(self).phase(),
            final(self).env_name() == old(self).env_name(),
            final(self).root() == old(self).root(),
            final(self).failure() == old(self).failure(),
            r@ == constructed(call, derived),
            well_formed_or_empty(r@),
            r@ is Some ==> final(self).messages() == old(self).messages(),
            r@ is None ==> final(self).messages() == old(self).messages().push(
                construct_failure(),
            ),
    {
        crate::factory::construct(call, derived, &mut self.console)
    }

    /// Marks the end of the script: with the handle that it handed back,
    /// or with the error that stopped it. After an error nothing that the
    /// script built is kept.
    pub fn finish(&mut self, outcome: Result<LObject, String>) -> (r: Result<(), SandboxError>)
        ensures
            final(self).messages() == old(self).messages(),
            final(self).env_name() == old(self).env_name(),
            old(self).phase() == Phase::Executing ==> r is Ok,
            old(self).phase() == Phase::Executing ==> match outcome {
                Ok(handle) => {
                    &&& Some(final(self).phase()) == next(Phase::Executing, Event::Succeed)
                    &&& final(self).root() == handle@
                    &&& final(self).failure().len() == 0
                },
                Err(error) => {
                    &&& Some(final(self).phase()) == next(Phase::Executing, Event::Fail)
                    &&& final(self).root() is None
                    &&& final(self).failure() == error@
                },
            },
            old(self).phase() != Phase::Executing ==> {
                &&& r == Err::<(), SandboxError>(SandboxError::NotExecuting)
                &&& final(self).phase() == old(self).phase()
                &&& final(self).root() == old(self).root()
                &&& final(self).failure() == old(self).failure()
            },
    {
        match self.phase {
            Phase::Executing => {
                match outcome {
                    Ok(handle) => {
                        self.phase = Phase::Succeeded;
                        self.root = handle;
                    },
                    Err(error) => {
                        self.phase = Phase::Failed;
                        self.failure = error;
                    },
                }
                Ok(())
            },
            _ => Err(SandboxError::NotExecuting),
        }
    }

    /// A copy of the tree that the script handed back. There is none
    /// unless the evaluation succeeded, and none where the script handed
    /// back an empty handle.
    pub fn as_object(&self) -> (r: LObject)
        ensures
            r@ == self.root(),
    {
        match self.phase {
            Phase::Succeeded => self.root.clone(),
            _ => LObject::empty(),
        }
    }

    /// The error that stopped the script, where one did.
    pub fn error(&self) -> (r: Option<String>)
        ensures
            r.is_some() == (self.phase() == Phase::Failed),
            r matches Some(text) ==> text@ == self.failure(),
    {
        match self.phase {
            Phase::Failed => Some(self.failure.clone()),
            _ => None,
        }
    }

    /// Sends the waiting messages through `sender`, oldest first. The
    /// result holds one outcome for each message, in the same order:
    /// whether the host took it. None waits afterwards.
    pub fn deliver_messages(&mut self, sender: &Sender<String>) -> (outcomes: Vec<bool>)
        ensures
            outcomes@.len() == old(self).messages().len(),
            final(self).messages().len() == 0,
            final(self).phase() == old(self).phase(),
            final(self).env_name() == old(self).env_name(),
            final(self).root() == old(self).root(),
            final(self).failure() == old(self).failure(),
    {
        self.console.deliver(sender)
    }

    /// Hands the waiting messages to the host, oldest first.
    pub fn take_messages(&mut self) -> (r: Vec<String>)
        ensures
            r@.len() == old(self).messages().len(),
            forall|i: int| 0 <= i < r@.len() ==> (#[trigger] r@[i])@ == old(self).messages()[i],
            final(self).messages().len() == 0,
            final(self).phase() == old(self).phase(),
            final(self).env_name() == old(self).env_name(),
            final(self).root() == old(self).root(),
            final(self).failure() == old(self).failure(),
    {
        self.console.take()
    }
}

/// A script only ever ends after it has run: whatever led to a result
/// went through `Executing`, and whatever led there through `Bound`.
pub proof fn lemma_results_come_from_running(phase: Phase, event: Event)
    ensures
        next(phase, event) == Some(Phase::Succeeded) ==> phase == Phase::Executing,
        next(phase, event) == Some(Phase::Failed) ==> phase == Phase::Executing,
        next(phase, event) == Some(Phase::Executing) ==> phase == Phase::Bound,
        next(phase, event) != Some(Phase::Uninitialized),
{
}

/// No accepted run of events from a fresh sandbox ends in a result
/// unless it holds, in this order, a bind, a start and the end of the
/// script as its last three events.
pub proof fn lemma_result_needs_bind_and_start(trace: Seq<Event>)
    requires
        accepted(Phase::Uninitialized, trace),
        after(Phase::Uninitialized, trace) == Phase::Succeeded || after(
            Phase::Uninitialized,
            trace,
        ) == Phase::Failed,
    ensures
        trace.len() >= 3,
        trace[trace.len() - 3] == Event::Bind,
        trace[trace.len() - 2] == Event::Start,
        trace[trace.len() - 1] == Event::Succeed || trace[trace.len() - 1] == Event::Fail,
{
    lemma_tail_of_result(Phase::Uninitialized, trace);
}

proof fn lemma_tail_of_result(phase: Phase, trace: Seq<Event>)
    requires
        accepted(phase, trace),
        after(phase, trace) == Phase::Succeeded || after(phase, trace) == Phase::Failed,
        phase != Phase::Succeeded && phase != Phase::Failed || trace.len() > 0,
    ensures
        phase == Phase::Executing ==> trace.len() >= 1,
        phase == Phase::Bound ==> trace.len() >= 2,
        phase != Phase::Executing && phase != Phase::Bound ==> trace.len() >= 3,
        trace[trace.len() - 1] == Event::Succeed || trace[trace.len() - 1] == Event::Fail,
        trace.len() >= 2 ==> trace[trace.len() - 2] == Event::Start,
        trace.len() >= 3 ==> trace[trace.len() - 3] == Event::Bind,
    decreases trace.len(),
{
    if trace.len() == 0 {
        assert(after(phase, trace) == phase);
    } else {
        let rest = trace.drop_first();
        assert(next(phase, trace[0]) is Some);
        let then = next(phase, trace[0])->Some_0;
        assert(accepted(then, rest));
        assert(after(phase, trace) == after(then, rest));
        if rest.len() == 0 {
            assert(after(then, rest) == then);
        } else {
            lemma_tail_of_result(then, rest);
            assert(next(then, rest[0]) is Some);
            assert(trace[trace.len() - 1] == rest[rest.len() - 1]);
            if rest.len() >= 2 {
                assert(trace[trace.len() - 2] == rest[rest.len() - 2]);
            }
            if rest.len() >= 3 {
                assert(trace[trace.len() - 3] == rest[rest.len() - 3]);
            }
        }
    }
}

} // verus!
