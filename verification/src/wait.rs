use vstd::prelude::*;

use crate::error::IoErr;

verus! {

/// A readiness interest: the class of operation a wait is armed for.
#[derive(Clone, Copy, PartialEq, Eq, Structural, Debug)]
pub enum Interest {
    Read,
    Write,
}

/// The two states of a readiness wait: it starts `Unpolled`, and moves to
/// `Polled` the moment it has armed its interest with the reactor and
/// yielded.
#[derive(Clone, Copy, PartialEq, Eq, Structural, Debug)]
pub enum WaitState {
    Unpolled,
    Polled,
}

/// The outcome of one evaluation of a readiness wait: either the task must
/// yield and be resumed later, or the wait is over with the given result.
#[derive(Clone, Copy, PartialEq, Eq, Debug)]
pub enum WaitPoll {
    Pending,
    Ready(Result<(), IoErr>),
}

/// The readiness wait itself: a tiny state machine whose whole purpose is
/// to arm its own interest with the reactor exactly once, yield exactly
/// once, and then complete.
///
/// The interest is fixed at construction, so the wait can only ever arm
/// the interest it was built for: a read wait rearms the read flag and a
/// write wait rearms the write flag, never the other one.
#[derive(Clone, Copy, PartialEq, Eq, Structural, Debug)]
pub struct WaitFuture {
    pub interest: Interest,
    pub state: WaitState,
}

impl WaitFuture {
    /// A fresh wait for the given interest, not yet armed.
    pub fn new(interest: Interest) -> (w: WaitFuture)
        ensures
            w.interest == interest,
            w.state is Unpolled,
    {
        WaitFuture { interest, state: WaitState::Unpolled }
    }

    /// Which interest must be cleared and rearmed with the reactor before
    /// this evaluation can go on: the wait's own interest while it has not
    /// yet armed, and nothing once it has.
    pub fn arming_interest(&self) -> (r: Option<Interest>)
        ensures
            r == (if self.state is Unpolled {
                Some(self.interest)
            } else {
                None::<Interest>
            }),
    {
        match self.state {
            WaitState::Unpolled => Some(self.interest),
            WaitState::Polled => None,
        }
    }

    /// Absorb the reactor's answer to the arming attempt. A successful
    /// arming moves the wait to `Polled` and makes this evaluation yield;
    /// a failed arming ends the wait at once with that error, without
    /// yielding and without changing state.
    pub fn poll_after_arm(&mut self, outcome: Result<(), IoErr>) -> (p: WaitPoll)
        requires
            old(self).state is Unpolled,
        ensures
            final(self).interest == old(self).interest,
            outcome is Ok ==> final(self).state is Polled && p == WaitPoll::Pending,
            outcome matches Err(e) ==> final(self).state is Unpolled && p == WaitPoll::Ready(
                Result::Err(e),
            ),
    {
        match outcome {
            Result::Ok(_) => {
                self.state = WaitState::Polled;
                WaitPoll::Pending
            },
            Result::Err(e) => WaitPoll::Ready(Result::Err(e)),
        }
    }

    /// The evaluation after the task was resumed: a wait that has armed
    /// and yielded completes immediately with success.
    pub fn poll_resumed(&self) -> (p: WaitPoll)
        requires
            self.state is Polled,
        ensures
            p == WaitPoll::Ready(Result::<(), IoErr>::Ok(())),
    {
        WaitPoll::Ready(Result::Ok(()))
    }
}

/// What one whole readiness wait amounted to: its result, how many times
/// the calling task was suspended, and which interest was armed.
pub struct WaitRun {
    pub result: Result<(), IoErr>,
    pub suspensions: usize,
    pub interest: Interest,
}

/// One whole readiness wait, from construction to completion, given the
/// reactor's answer to the single arming attempt.
///
/// It suspends exactly once and then reports success when arming went
/// through, and completes at once with the arming error otherwise; either
/// way the result equals the arming outcome itself.
pub fn run_wait(interest: Interest, arming: Result<(), IoErr>) -> (r: WaitRun)
    ensures
        r.result == arming,
        r.interest == interest,
        r.suspensions == (if arming is Ok {
            1usize
        } else {
            0usize
        }),
{
    let mut w = WaitFuture::new(interest);
    match w.poll_after_arm(arming) {
        WaitPoll::Pending => {
            // The task yields here and is resumed once the reactor reports
            // the interest ready; the next evaluation completes.
            let _ready = w.poll_resumed();
            // `arming` is the success value here, so handing it back is
            // exactly the Ok(()) that `poll_resumed` reported.
            WaitRun { result: arming, suspensions: 1, interest }
        },
        WaitPoll::Ready(res) => WaitRun { result: res, suspensions: 0, interest },
    }
}

} // verus!
