use vstd::prelude::*;

use crate::error::ErrKind;
use crate::error::IoErr;
use crate::error::is_would_block;
use crate::wait::Interest;
use crate::wait::run_wait;

verus! {

/// What the retry loop does with one probe result: hand it back to the
/// caller as it stands, or absorb it and suspend on a readiness wait.
pub enum Decision<R> {
    Return(Result<R, IoErr>),
    Suspend,
}

/// The single decision at the heart of the retry loop: a would-block
/// probe result is absorbed and the loop suspends; every other result,
/// success or failure, ends the loop and is returned verbatim.
pub fn retry_decision<R>(probe: Result<R, IoErr>) -> (d: Decision<R>)
    ensures
        d is Suspend <==> is_would_block(probe),
        d matches Decision::Return(res) ==> res == probe,
{
    match probe {
        Result::Ok(v) => Decision::Return(Result::Ok(v)),
        Result::Err(e) => match e.kind {
            ErrKind::WouldBlock => Decision::Suspend,
            _ => Decision::Return(Result::Err(e)),
        },
    }
}

/// Whether a recorded script of probe results and arming outcomes drives
/// the retry loop to an end: it does as soon as a probe is terminal or an
/// arming attempt fails, and it does not if every probe would block and
/// every arming succeeds until one of the scripts runs out.
pub open spec fn script_halts<R>(
    probes: Seq<Result<R, IoErr>>,
    arms: Seq<Result<(), IoErr>>,
) -> bool
    decreases probes.len(),
{
    if probes.len() == 0 {
        false
    } else if !is_would_block(probes[0]) {
        true
    } else if arms.len() == 0 {
        false
    } else {
        match arms[0] {
            Result::Err(_) => true,
            Result::Ok(_) => script_halts(probes.skip(1), arms.skip(1)),
        }
    }
}

/// The value the retry loop returns on a halting script: the first
/// terminal probe result, unless an arming attempt fails first, in which
/// case that arming error is surfaced.
pub open spec fn script_result<R>(
    probes: Seq<Result<R, IoErr>>,
    arms: Seq<Result<(), IoErr>>,
) -> Result<R, IoErr>
    decreases probes.len(),
{
    if probes.len() == 0 {
        arbitrary()
    } else if !is_would_block(probes[0]) {
        probes[0]
    } else if arms.len() == 0 {
        arbitrary()
    } else {
        match arms[0] {
            Result::Err(e) => Result::Err(e),
            Result::Ok(_) => script_result(probes.skip(1), arms.skip(1)),
        }
    }
}

/// How many times the retry loop invokes the probe on a halting script.
pub open spec fn script_invocations<R>(
    probes: Seq<Result<R, IoErr>>,
    arms: Seq<Result<(), IoErr>>,
) -> nat
    decreases probes.len(),
{
    if probes.len() == 0 {
        0
    } else if !is_would_block(probes[0]) {
        1
    } else if arms.len() == 0 {
        1
    } else {
        match arms[0] {
            Result::Err(_) => 1,
            Result::Ok(_) => 1 + script_invocations(probes.skip(1), arms.skip(1)),
        }
    }
}

/// How many times the retry loop suspends the calling task on a halting
/// script: once per would-block probe whose readiness wait armed
/// successfully, and never for a failed arming, which completes the wait
/// immediately instead of yielding.
pub open spec fn script_suspensions<R>(
    probes: Seq<Result<R, IoErr>>,
    arms: Seq<Result<(), IoErr>>,
) -> nat
    decreases probes.len(),
{
    if probes.len() == 0 {
        0
    } else if !is_would_block(probes[0]) {
        0
    } else if arms.len() == 0 {
        0
    } else {
        match arms[0] {
            Result::Err(_) => 0,
            Result::Ok(_) => 1 + script_suspensions(probes.skip(1), arms.skip(1)),
        }
    }
}

/// Everything one run of the retry loop amounted to: the value returned
/// to the caller, how many times the probe ran, how many times the task
/// was suspended, and which readiness interest the waits were armed for.
pub struct RetryLog<R> {
    pub result: Result<R, IoErr>,
    pub invocations: usize,
    pub suspensions: usize,
    pub interest: Interest,
}

/// The retry loop over a recorded script: probe results are consumed in
/// order, a would-block result suspends on a readiness wait armed for
/// `interest` with the next recorded arming outcome, and the first
/// terminal probe result or arming failure ends the loop.
#[verifier::loop_isolation(false)]
pub(crate) fn run_script<R>(
    interest: Interest,
    probes: Vec<Result<R, IoErr>>,
    arms: Vec<Result<(), IoErr>>,
) -> (log: RetryLog<R>)
    requires
        script_halts(probes@, arms@),
    ensures
        log.interest == interest,
        log.result == script_result(probes@, arms@),
        log.invocations == script_invocations(probes@, arms@),
        log.suspensions == script_suspensions(probes@, arms@),
{
    let ghost gp = probes@;
    let ghost ga = arms@;
    // The exec lengths bound the ghost ones, so the counters below fit.
    let n0: usize = probes.len();
    let m0: usize = arms.len();
    let mut probes = probes;
    let mut arms = arms;
    let mut invocations: usize = 0;
    let mut suspensions: usize = 0;
    loop
        invariant
            gp.len() == n0,
            ga.len() == m0,
            probes@.len() <= gp.len(),
            arms@.len() <= ga.len(),
            invocations == gp.len() - probes@.len(),
            suspensions == ga.len() - arms@.len(),
            script_halts(probes@, arms@),
            script_result(gp, ga) == script_result(probes@, arms@),
            script_invocations(gp, ga) == invocations + script_invocations(probes@, arms@),
            script_suspensions(gp, ga) == suspensions + script_suspensions(probes@, arms@),
        decreases probes@.len(),
    {
        let ghost pre_p = probes@;
        let ghost pre_a = arms@;
        let p = probes.remove(0);
        proof {
            assert(pre_p.remove(0) =~= pre_p.skip(1));
        }
        invocations = invocations + 1;
        match retry_decision(p) {
            Decision::Return(res) => {
                return RetryLog { result: res, invocations, suspensions, interest };
            },
            Decision::Suspend => {
                let a = arms.remove(0);
                proof {
                    assert(pre_a.remove(0) =~= pre_a.skip(1));
                }
                let wr = run_wait(interest, a);
                match wr.result {
                    Result::Ok(_) => {
                        // The wait armed and the task yielded once; on
                        // resumption the loop probes again.
                        suspensions = suspensions + 1;
                    },
                    Result::Err(e) => {
                        return RetryLog { result: Result::Err(e), invocations, suspensions, interest };
                    },
                }
            },
        }
    }
}

} // verus!
