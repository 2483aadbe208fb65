//! The state archive: an append-only, step-indexed store of propagated
//! snapshots.
//!
//! Step 0 is the epoch. A written step is never overwritten; steps are
//! only appended, each one the RK4 image of its predecessor under a fixed
//! time increment `dt`, so the wall time of step `n` is `n * dt`.
//! Propagation is budgeted: one call advances at most the given number of
//! steps, and the archive can resume from its last computed step later.

use vstd::prelude::*;

verus! {

use crate::bodies::{BodyState, BodyStateS, BodyInfo};
use crate::nbody::{sv, rk4_s, rk4_step};

/// Why a core query or operation failed.
#[derive(Clone, Copy, PartialEq, Eq, Structural, Debug)]
pub enum CoreError {
    /// A query referenced a step beyond the last computed one.
    StepNotYetComputed,
    /// A query referenced a body id outside the catalog.
    UnknownBody,
    /// The boundary-value (Lambert) solve cannot satisfy the request.
    NoTransferSolution,
    /// The hyperbola-orientation search found no non-degenerate candidate.
    SingularOrientation,
}

/// The snapshot reached from `epoch` after `n` RK4 steps of `dt` seconds.
pub open spec fn nth_state_s(infos: Seq<BodyInfo>, epoch: Seq<BodyStateS>, dt: int, n: nat) -> Seq<
    BodyStateS,
>
    decreases n,
{
    if n == 0 {
        epoch
    } else {
        rk4_s(infos, nth_state_s(infos, epoch, dt, (n - 1) as nat), dt)
    }
}

/// Append-only, time-indexed store of snapshots.
pub struct StateArchive {
    /// Snapshot per step index; entry 0 is the epoch.
    pub snaps: Vec<Vec<BodyState>>,
    /// Fixed time increment per step, in seconds (Q40).
    pub dt: i128,
}

impl StateArchive {
    /// Step 0 exists and every snapshot covers the same bodies.
    pub open spec fn wf(&self) -> bool {
        self.snaps@.len() >= 1 && forall|k: int|
            0 <= k < self.snaps@.len() ==> (#[trigger] self.snaps@[k])@.len()
                == self.snaps@[0]@.len()
    }

    /// How many bodies each snapshot holds.
    pub open spec fn n_bodies(&self) -> nat {
        self.snaps@[0]@.len()
    }

    /// Every stored step is the RK4 image of its predecessor.
    pub open spec fn follows(&self, infos: Seq<BodyInfo>) -> bool {
        forall|k: int|
            1 <= k < self.snaps@.len() ==> sv((#[trigger] self.snaps@[k])@) == rk4_s(
                infos,
                sv(self.snaps@[k - 1]@),
                self.dt as int,
            )
    }

    /// A fresh archive holding only the epoch snapshot.
    pub fn new(epoch: Vec<BodyState>, dt: i128) -> (a: StateArchive)
        ensures
            a.snaps@.len() == 1,
            a.snaps@[0] == epoch,
            a.dt == dt,
            a.wf(),
            forall|infos: Seq<BodyInfo>| a.follows(infos),
    {
        let mut snaps: Vec<Vec<BodyState>> = Vec::new();
        snaps.push(epoch);
        StateArchive { snaps, dt }
    }

    /// The last step index that has been computed.
    pub fn last_computed_step(&self) -> (s: usize)
        requires
            self.wf(),
        ensures
            s == self.snaps@.len() - 1,
    {
        self.snaps.len() - 1
    }

    /// The state of `body` at `step`. Fails fast with `StepNotYetComputed`
    /// on a step that has not been propagated, and with `UnknownBody` on a
    /// body id outside the snapshot.
    pub fn get(&self, step: usize, body: usize) -> (r: Result<BodyState, CoreError>)
        ensures
            step < self.snaps@.len() && body < self.snaps@[step as int]@.len() ==> r == Ok::<
                BodyState,
                CoreError,
            >(self.snaps@[step as int]@[body as int]),
            step >= self.snaps@.len() ==> r == Err::<BodyState, CoreError>(
                CoreError::StepNotYetComputed,
            ),
            step < self.snaps@.len() && body >= self.snaps@[step as int]@.len() ==> r == Err::<
                BodyState,
                CoreError,
            >(CoreError::UnknownBody),
    {
        if step >= self.snaps.len() {
            Err(CoreError::StepNotYetComputed)
        } else if body >= self.snaps[step].len() {
            Err(CoreError::UnknownBody)
        } else {
            Ok(self.snaps[step][body])
        }
    }

    /// Advance the archive by up to `count` steps (the step budget of this
    /// call). Already-written steps are never touched; each appended step
    /// is the RK4 image of its predecessor.
    pub fn propagate_steps(&mut self, infos: &Vec<BodyInfo>, count: usize)
        requires
            old(self).wf(),
            infos@.len() == old(self).n_bodies(),
            old(self).snaps@.len() + count <= usize::MAX,
        ensures
            final(self).wf(),
            final(self).dt == old(self).dt,
            final(self).snaps@.len() == old(self).snaps@.len() + count,
            forall|k: int|
                0 <= k < old(self).snaps@.len() ==> #[trigger] final(self).snaps@[k] == old(
                    self,
                ).snaps@[k],
            forall|k: int|
                old(self).snaps@.len() <= k < final(self).snaps@.len() ==> sv(
                    (#[trigger] final(self).snaps@[k])@,
                ) == rk4_s(infos@, sv(final(self).snaps@[k - 1]@), final(self).dt as int),
    {
        let mut i: usize = 0;
        while i < count
            invariant
                self.wf(),
                infos@.len() == self.n_bodies(),
                self.dt == old(self).dt,
                i <= count,
                old(self).snaps@.len() >= 1,
                old(self).snaps@.len() + count <= usize::MAX,
                self.snaps@.len() == old(self).snaps@.len() + i,
                forall|k: int|
                    0 <= k < old(self).snaps@.len() ==> #[trigger] self.snaps@[k] == old(
                        self,
                    ).snaps@[k],
                forall|k: int|
                    old(self).snaps@.len() <= k < self.snaps@.len() ==> sv(
                        (#[trigger] self.snaps@[k])@,
                    ) == rk4_s(infos@, sv(self.snaps@[k - 1]@), self.dt as int),
            decreases count - i,
        {
            let ghost prev = self.snaps@;
            let last: usize = self.snaps.len() - 1;
            let next: Vec<BodyState> = rk4_step(infos, &self.snaps[last], self.dt);
            proof {
                assert(sv(next@) == rk4_s(infos@, sv(prev[last as int]@), self.dt as int));
            }
            self.snaps.push(next);
            proof {
                assert forall|k: int|
                    old(self).snaps@.len() <= k < self.snaps@.len() implies sv(
                    (#[trigger] self.snaps@[k])@,
                ) == rk4_s(infos@, sv(self.snaps@[k - 1]@), self.dt as int) by {
                    if k < self.snaps@.len() - 1 {
                        assert(sv((prev[k])@) == rk4_s(infos@, sv(prev[k - 1]@), self.dt as int));
                        assert(self.snaps@[k] == prev[k]);
                        assert(self.snaps@[k - 1] == prev[k - 1]);
                    } else {
                        assert(self.snaps@[k] == next);
                        assert(self.snaps@[k - 1] == prev[last as int]);
                    }
                }
            }
            i = i + 1;
        }
    }
}

/// Every snapshot of an archive that follows the propagator from its epoch
/// is `nth_state_s` of that epoch.
pub proof fn lemma_archive_nth_state(a: &StateArchive, infos: Seq<BodyInfo>, k: nat)
    requires
        a.follows(infos),
        k < a.snaps@.len(),
    ensures
        sv(a.snaps@[k as int]@) == nth_state_s(infos, sv(a.snaps@[0]@), a.dt as int, k),
    decreases k,
{
    if k > 0 {
        lemma_archive_nth_state(a, infos, (k - 1) as nat);
    }
}

/// Determinism of propagation: two archives built with the same catalog,
/// the same epoch snapshot and the same time step hold identical snapshots
/// at every common step, whatever budgets the propagation calls used.
pub proof fn lemma_propagation_deterministic(a: &StateArchive, b: &StateArchive, infos: Seq<
    BodyInfo,
>)
    requires
        a.follows(infos),
        b.follows(infos),
        a.snaps@.len() >= 1,
        b.snaps@.len() >= 1,
        sv(a.snaps@[0]@) == sv(b.snaps@[0]@),
        a.dt == b.dt,
    ensures
        forall|k: int|
            0 <= k < a.snaps@.len() && k < b.snaps@.len() ==> sv((#[trigger] a.snaps@[k])@) == sv(
                b.snaps@[k]@,
            ),
{
    assert forall|k: int| 0 <= k < a.snaps@.len() && k < b.snaps@.len() implies sv(
        (#[trigger] a.snaps@[k])@,
    ) == sv(b.snaps@[k]@) by {
        lemma_archive_nth_state(a, infos, k as nat);
        lemma_archive_nth_state(b, infos, k as nat);
    }
}

} // verus!
