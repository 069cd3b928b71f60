use vstd::prelude::*;

use crate::error::IoErr;
use crate::retry::RetryLog;
use crate::retry::run_script;
use crate::retry::script_halts;
use crate::retry::script_invocations;
use crate::retry::script_result;
use crate::retry::script_suspensions;
use crate::wait::Interest;
use crate::wait::WaitRun;
use crate::wait::run_wait;

verus! {

/// The descriptor adapter: it holds the wrapped resource by value and
/// pairs it with the descriptor the resource reported when it was
/// wrapped. The adapter never touches the resource itself; it only
/// exposes that descriptor identity, and since nothing here can change
/// the field, the descriptor it reports is stable for the adapter's
/// whole lifetime.
pub struct FdAdapter<T> {
    pub io: T,
    pub fd: i32,
}

impl<T> FdAdapter<T> {
    /// Wrap a resource together with the raw descriptor it exposes.
    pub fn new(io: T, fd: i32) -> (a: FdAdapter<T>)
        ensures
            a.io == io,
            a.fd == fd,
    {
        FdAdapter { io, fd }
    }

    /// The descriptor the reactor registers against; always the one given
    /// at construction.
    pub fn raw_fd(&self) -> (r: i32)
        ensures
            r == self.fd,
    {
        self.fd
    }

    /// Give the wrapped resource back, unchanged.
    pub fn into_inner(self) -> (t: T)
        ensures
            t == self.io,
    {
        let FdAdapter { io, fd: _ } = self;
        io
    }
}

/// The reactor handle: the one registration made at construction time,
/// owning the descriptor adapter for as long as it stands. `active`
/// records whether the interest is still registered; it starts true and
/// `release` is the only way to clear it, and only once.
pub struct Registration<T> {
    pub adapter: FdAdapter<T>,
    pub active: bool,
}

impl<T> Registration<T> {
    /// Bind the adapter to the reactor, given the outcome the reactor
    /// reported for the registration call. A failed registration yields
    /// no handle at all, only the reactor's error.
    pub fn new(adapter: FdAdapter<T>, outcome: Result<(), IoErr>) -> (r: Result<
        Registration<T>,
        IoErr,
    >)
        ensures
            outcome is Ok <==> r is Ok,
            r matches Ok(h) ==> h.adapter == adapter && h.active,
            r matches Err(e) ==> outcome == Result::<(), IoErr>::Err(e),
    {
        match outcome {
            Result::Ok(_) => Result::Ok(Registration { adapter, active: true }),
            Result::Err(e) => Result::Err(e),
        }
    }

    /// Drop the registered interest. The precondition makes releasing a
    /// second time impossible, so the interest is deregistered exactly
    /// once over the handle's lifetime.
    pub fn release(&mut self)
        requires
            old(self).active,
        ensures
            !final(self).active,
            final(self).adapter == old(self).adapter,
    {
        self.active = false;
    }
}

/// The awaitable resource: it owns the reactor handle, which owns the
/// descriptor adapter, which owns the wrapped resource - one linear
/// ownership chain. Its operations decide when a caller's non-blocking
/// probe is retried, suspended on, or handed back.
pub struct Async<T> {
    pub handle: Registration<T>,
}

impl<T> Async<T> {
    /// Wrap a resource and perform the one-time reactor registration,
    /// whose outcome the reactor reports as `registration`. On success
    /// the new value holds exactly the given resource behind an active
    /// handle; on failure the reactor's error comes back and no resource
    /// is produced.
    pub fn new(io: T, fd: i32, registration: Result<(), IoErr>) -> (r: Result<Async<T>, IoErr>)
        ensures
            registration is Ok <==> r is Ok,
            r matches Ok(a) ==> a.handle.adapter.io == io && a.handle.adapter.fd == fd
                && a.handle.active,
            r matches Err(e) ==> registration == Result::<(), IoErr>::Err(e),
    {
        let adapter = FdAdapter::new(io, fd);
        match Registration::new(adapter, registration) {
            Result::Ok(handle) => Result::Ok(Async { handle }),
            Result::Err(e) => Result::Err(e),
        }
    }

    /// Borrow the wrapped resource: always the very value that was passed
    /// to `new`, for as long as this resource is alive.
    pub fn get_ref(&self) -> (r: &T)
        ensures
            r == &self.handle.adapter.io,
    {
        &self.handle.adapter.io
    }

    /// The retry loop of a read operation, over the recorded results of
    /// the caller's probe and the reactor's answers to each arming of the
    /// read interest: would-block results are absorbed, one suspension
    /// each, and the first terminal probe result or arming failure is
    /// returned verbatim.
    pub fn read_with<R>(
        &self,
        probes: Vec<Result<R, IoErr>>,
        arms: Vec<Result<(), IoErr>>,
    ) -> (log: RetryLog<R>)
        requires
            script_halts(probes@, arms@),
        ensures
            log.interest is Read,
            log.result == script_result(probes@, arms@),
            log.invocations == script_invocations(probes@, arms@),
            log.suspensions == script_suspensions(probes@, arms@),
    {
        run_script(Interest::Read, probes, arms)
    }

    /// The retry loop of a write operation; identical to `read_with`
    /// except that every readiness wait arms the write interest.
    pub fn write_with<R>(
        &self,
        probes: Vec<Result<R, IoErr>>,
        arms: Vec<Result<(), IoErr>>,
    ) -> (log: RetryLog<R>)
        requires
            script_halts(probes@, arms@),
        ensures
            log.interest is Write,
            log.result == script_result(probes@, arms@),
            log.invocations == script_invocations(probes@, arms@),
            log.suspensions == script_suspensions(probes@, arms@),
    {
        run_script(Interest::Write, probes, arms)
    }

    /// One wait for read readiness, given the reactor's answer to arming
    /// the read interest: it arms its own interest, suspends exactly once
    /// on success, and surfaces an arming failure at once.
    pub fn readable(&self, arming: Result<(), IoErr>) -> (r: WaitRun)
        ensures
            r.result == arming,
            r.interest is Read,
            r.suspensions == (if arming is Ok {
                1usize
            } else {
                0usize
            }),
    {
        run_wait(Interest::Read, arming)
    }

    /// One wait for write readiness: the same contract as `readable`,
    /// but it arms the write interest - its own, not the read one.
    pub fn writable(&self, arming: Result<(), IoErr>) -> (r: WaitRun)
        ensures
            r.result == arming,
            r.interest is Write,
            r.suspensions == (if arming is Ok {
                1usize
            } else {
                0usize
            }),
    {
        run_wait(Interest::Write, arming)
    }

    /// Destruction: release the reactor registration - exactly once,
    /// since this consumes the resource - and hand the wrapped resource
    /// back unchanged.
    pub fn close(self) -> (t: T)
        requires
            self.handle.active,
        ensures
            t == self.handle.adapter.io,
    {
        let mut handle = self.handle;
        handle.release();
        let Registration { adapter, active: _ } = handle;
        adapter.into_inner()
    }
}

} // verus!
