use vstd::prelude::*;

use crate::error::ErrKind;
use crate::error::IoErr;
use crate::error::is_would_block;
use crate::retry::script_halts;
use crate::retry::script_invocations;
use crate::retry::script_result;
use crate::retry::script_suspensions;

verus! {

/// A probe that succeeds on the first call is invoked exactly once, the
/// task is never suspended, and that success comes back unchanged,
/// whatever the arming script holds.
pub proof fn lemma_first_probe_success<R>(
    probes: Seq<Result<R, IoErr>>,
    arms: Seq<Result<(), IoErr>>,
)
    requires
        probes.len() > 0,
        probes[0] is Ok,
    ensures
        script_halts(probes, arms),
        script_result(probes, arms) == probes[0],
        script_invocations(probes, arms) == 1,
        script_suspensions(probes, arms) == 0,
{
}

/// A probe that fails on the first call with anything but would-block is
/// invoked exactly once, the task is never suspended, and that exact
/// error comes back.
pub proof fn lemma_first_probe_error<R>(
    probes: Seq<Result<R, IoErr>>,
    arms: Seq<Result<(), IoErr>>,
    e: IoErr,
)
    requires
        probes.len() > 0,
        probes[0] == Result::<R, IoErr>::Err(e),
        e.kind != ErrKind::WouldBlock,
    ensures
        script_halts(probes, arms),
        script_result(probes, arms) == Result::<R, IoErr>::Err(e),
        script_invocations(probes, arms) == 1,
        script_suspensions(probes, arms) == 0,
{
}

/// A probe that would block exactly `k` times and then returns a terminal
/// result, with every readiness wait arming successfully, is invoked
/// exactly `k + 1` times, the task is suspended exactly `k` times, and
/// the terminal result comes back unchanged.
pub proof fn lemma_blocks_then_ready<R>(
    probes: Seq<Result<R, IoErr>>,
    arms: Seq<Result<(), IoErr>>,
    k: int,
)
    requires
        0 <= k < probes.len(),
        k <= arms.len(),
        forall|i: int| 0 <= i < k ==> is_would_block(#[trigger] probes[i]),
        forall|j: int| 0 <= j < k ==> (#[trigger] arms[j]) is Ok,
        !is_would_block(probes[k]),
    ensures
        script_halts(probes, arms),
        script_result(probes, arms) == probes[k],
        script_invocations(probes, arms) == k + 1,
        script_suspensions(probes, arms) == k,
    decreases k,
{
    if k > 0 {
        let tail_probes = probes.skip(1);
        let tail_arms = arms.skip(1);
        assert(is_would_block(probes[0]));
        assert(arms[0] is Ok);
        assert forall|i: int| 0 <= i < k - 1 implies is_would_block(
            #[trigger] tail_probes[i],
        ) by {
            assert(tail_probes[i] == probes[i + 1]);
        }
        assert forall|j: int| 0 <= j < k - 1 implies (#[trigger] tail_arms[j]) is Ok by {
            assert(tail_arms[j] == arms[j + 1]);
        }
        assert(tail_probes[k - 1] == probes[k]);
        lemma_blocks_then_ready(tail_probes, tail_arms, k - 1);
    }
}

/// A registration failure surfaced while waiting for readiness aborts the
/// loop: after `m` absorbed would-block results, a failed arming ends the
/// run with that exact error, one last probe invocation and no further
/// suspension.
pub proof fn lemma_arm_failure_aborts<R>(
    probes: Seq<Result<R, IoErr>>,
    arms: Seq<Result<(), IoErr>>,
    m: int,
    e: IoErr,
)
    requires
        0 <= m < probes.len(),
        m < arms.len(),
        forall|i: int| 0 <= i <= m ==> is_would_block(#[trigger] probes[i]),
        forall|j: int| 0 <= j < m ==> (#[trigger] arms[j]) is Ok,
        arms[m] == Result::<(), IoErr>::Err(e),
    ensures
        script_halts(probes, arms),
        script_result(probes, arms) == Result::<R, IoErr>::Err(e),
        script_invocations(probes, arms) == m + 1,
        script_suspensions(probes, arms) == m,
    decreases m,
{
    if m > 0 {
        let tail_probes = probes.skip(1);
        let tail_arms = arms.skip(1);
        assert(is_would_block(probes[0]));
        assert(arms[0] is Ok);
        assert forall|i: int| 0 <= i <= m - 1 implies is_would_block(
            #[trigger] tail_probes[i],
        ) by {
            assert(tail_probes[i] == probes[i + 1]);
        }
        assert forall|j: int| 0 <= j < m - 1 implies (#[trigger] tail_arms[j]) is Ok by {
            assert(tail_arms[j] == arms[j + 1]);
        }
        assert(tail_arms[m - 1] == arms[m]);
        lemma_arm_failure_aborts::<R>(tail_probes, tail_arms, m - 1, e);
    }
}

} // verus!
