//! The actuator registry: sole owner of every servo unit, gate for all unit
//! mutation, and the per-tick driver that visits each unit exactly once.

use vstd::prelude::*;

use crate::actuator::JITTER_AMPLITUDE_NANO_RAD;
use crate::actuator::ServoUnit;
use crate::noise::sample_jitter;
use crate::KernelError;

verus! {

/// Owns the units; identifiers are unique, and attaching is a boot-time-only
/// operation: once the registry is sealed, attach is rejected.
pub struct ActuatorRegistry {
    pub units: Vec<ServoUnit>,
    pub sealed: bool,
}

/// The per-tick relation between a unit sequence before and after one sweep,
/// for a given sequence of jitter samples: each unit has advanced by exactly
/// one step, under its own sample, and every sample lies in the amplitude
/// band.
pub open spec fn stepped_with_jitter(
    pre: Seq<ServoUnit>,
    post: Seq<ServoUnit>,
    dt: int,
    jits: Seq<int>,
) -> bool {
    &&& post.len() == pre.len()
    &&& jits.len() == pre.len()
    &&& forall|i: int|
        0 <= i < pre.len() ==> -JITTER_AMPLITUDE_NANO_RAD <= jits[i]
            <= JITTER_AMPLITUDE_NANO_RAD && (#[trigger] post[i]) == pre[i].stepped(dt, jits[i])
}

/// One sweep of per-tick updates under some in-band jitter samples.
pub open spec fn stepped_with_some_jitter(pre: Seq<ServoUnit>, post: Seq<ServoUnit>, dt: int) -> bool {
    exists|jits: Seq<int>| #[trigger] stepped_with_jitter(pre, post, dt, jits)
}

impl ActuatorRegistry {
    /// Every unit is well-formed and no identifier repeats.
    pub open spec fn wf(self) -> bool {
        &&& (forall|i: int| 0 <= i < self.units@.len() ==> (#[trigger] self.units@[i]).wf())
        &&& (forall|i: int, j: int|
            0 <= i < j < self.units@.len() ==> (#[trigger] self.units@[i].id@) != (
            #[trigger] self.units@[j].id@))
    }

    /// Some attached unit carries this identifier.
    pub open spec fn has_id(self, id: Seq<char>) -> bool {
        exists|i: int| 0 <= i < self.units@.len() && (#[trigger] self.units@[i].id@) == id
    }

    /// An empty, unsealed registry.
    pub fn new() -> (reg: ActuatorRegistry)
        ensures
            reg.wf(),
            reg.units@.len() == 0,
            !reg.sealed,
    {
        ActuatorRegistry { units: Vec::new(), sealed: false }
    }

    /// Marks the end of the boot phase: every later attach is rejected.
    pub fn seal(&mut self)
        ensures
            *final(self) == (ActuatorRegistry { sealed: true, ..*old(self) }),
    {
        self.sealed = true;
    }

    /// The index of the unit carrying `key`, if any.
    fn index_of(&self, key: &String) -> (r: Option<usize>)
        ensures
            match r {
                Some(i) => i < self.units@.len() && self.units@[i as int].id@ == key@,
                None => forall|i: int|
                    0 <= i < self.units@.len() ==> (#[trigger] self.units@[i].id@) != key@,
            },
    {
        let n = self.units.len();
        let mut i: usize = 0;
        while i < n
            invariant
                i <= n,
                n == self.units@.len(),
                forall|j: int| 0 <= j < i ==> (#[trigger] self.units@[j].id@) != key@,
            decreases n - i,
        {
            if self.units[i].id == *key {
                return Some(i);
            }
            i += 1;
        }
        None
    }

    /// Attaches a fresh unit under `id`. Rejected without mutation once the
    /// registry is sealed or when the identifier is already taken.
    pub fn attach(&mut self, id: &str) -> (r: Result<(), KernelError>)
        requires
            old(self).wf(),
        ensures
            final(self).wf(),
            final(self).sealed == old(self).sealed,
            (old(self).sealed || old(self).has_id(id@)) ==> {
                &&& r == Err::<(), KernelError>(KernelError::InvalidInput)
                &&& *final(self) == *old(self)
            },
            !(old(self).sealed || old(self).has_id(id@)) ==> {
                &&& r == Ok::<(), KernelError>(())
                &&& final(self).units@.len() == old(self).units@.len() + 1
                &&& (forall|i: int|
                    0 <= i < old(self).units@.len() ==> final(self).units@[i] == old(
                    self,
                ).units@[i])
                &&& final(self).units@.last().id@ == id@
                &&& final(self).units@.last().position == 0
                &&& final(self).units@.last().velocity == 0
                &&& final(self).units@.last().temperature
                    == crate::actuator::AMBIENT_TEMP_MILLI_C
                &&& final(self).units@.last().status == crate::actuator::UnitStatus::Calibrating
            },
    {
        if self.sealed {
            return Err(KernelError::InvalidInput);
        }
        let key: String = id.to_owned();
        if self.index_of(&key).is_some() {
            return Err(KernelError::InvalidInput);
        }
        self.units.push(ServoUnit::new(id));
        Ok(())
    }

    /// Scoped read access to the unit carrying `id`.
    pub fn get(&self, id: &str) -> (r: Option<&ServoUnit>)
        ensures
            match r {
                Some(u) => self.has_id(id@) && u.id@ == id@ && exists|i: int|
                    0 <= i < self.units@.len() && *u == (#[trigger] self.units@[i]),
                None => !self.has_id(id@),
            },
    {
        let key: String = id.to_owned();
        match self.index_of(&key) {
            Some(i) => Some(&self.units[i]),
            None => None,
        }
    }

    /// Applies the per-tick update to every unit, each exactly once, with a
    /// fresh jitter sample per unit. A non-positive time step is rejected
    /// whole: no unit is touched.
    pub fn for_each_unit(&mut self, dt_ms: i64) -> (r: Result<(), KernelError>)
        requires
            old(self).wf(),
        ensures
            final(self).wf(),
            final(self).sealed == old(self).sealed,
            final(self).units@.len() == old(self).units@.len(),
            dt_ms <= 0 ==> r == Err::<(), KernelError>(KernelError::InvalidInput)
                && *final(self) == *old(self),
            dt_ms > 0 ==> r == Ok::<(), KernelError>(()) && stepped_with_some_jitter(
                old(self).units@,
                final(self).units@,
                dt_ms as int,
            ),
    {
        if dt_ms <= 0 {
            return Err(KernelError::InvalidInput);
        }
        let ghost mut jits: Seq<int> = Seq::empty();
        let n = self.units.len();
        let mut i: usize = 0;
        while i < n
            invariant
                i <= n,
                n == self.units@.len(),
                self.units@.len() == old(self).units@.len(),
                self.sealed == old(self).sealed,
                dt_ms > 0,
                jits.len() == i,
                forall|k: int| 0 <= k < n ==> (#[trigger] self.units@[k]).wf(),
                forall|k: int| i <= k < n ==> (#[trigger] self.units@[k]) == old(self).units@[k],
                forall|k: int|
                    0 <= k < i ==> -JITTER_AMPLITUDE_NANO_RAD <= jits[k]
                        <= JITTER_AMPLITUDE_NANO_RAD && (#[trigger] self.units@[k]) == old(
                    self,
                    ).units@[k].stepped(dt_ms as int, jits[k]),
            decreases n - i,
        {
            let jit = sample_jitter();
            let outcome = self.units[i].update(dt_ms, jit);
            proof {
                assert(outcome == Ok::<(), KernelError>(()));
                jits = jits.push(jit as int);
            }
            i += 1;
        }
        proof {
            assert(stepped_with_jitter(old(self).units@, self.units@, dt_ms as int, jits));
        }
        Ok(())
    }
}

/// Updates of two distinct units are independent: applied in either order,
/// each from that unit's own prior state, they produce the same final
/// sequence of units. This is the sequential heart of running the per-tick
/// update over disjoint unit sets in parallel: neither order loses a write.
pub proof fn lemma_disjoint_updates_commute(
    s: Seq<ServoUnit>,
    i: int,
    j: int,
    dt: int,
    jit_i: int,
    jit_j: int,
)
    requires
        0 <= i < s.len(),
        0 <= j < s.len(),
        i != j,
    ensures
        s.update(i, s[i].stepped(dt, jit_i)).update(j, s[j].stepped(dt, jit_j)) =~= s.update(
            j,
            s[j].stepped(dt, jit_j),
        ).update(i, s[i].stepped(dt, jit_i)),
{
}

} // verus!
