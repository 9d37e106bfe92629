use crate::shot::Target;
use vstd::pervasive::VecAdditionalExecFns;
use vstd::prelude::*;

verus! {

/// Why a registry operation was refused.
#[derive(Clone, Copy, Debug, PartialEq, Eq, Structural)]
pub enum RegistryError {
    /// No target is stored under the given handle.
    NoTarget,
}

/// Whether a slot survives a tick: it is free, or holds a confirmed target.
pub open spec fn kept(slot: Option<Target>) -> bool {
    match slot {
        Some(t) => t.confirmed,
        None => true,
    }
}

/// The aim requests, each under a stable integer handle; the handle of a
/// removed request is handed out again.
#[derive(Debug)]
pub struct TargetStore {
    pub targets: Vec<Option<Target>>,
}

impl TargetStore {
    pub fn new() -> (r: TargetStore)
        ensures
            r.targets@.len() == 0,
    {
        TargetStore { targets: Vec::new() }
    }

    /// Stores `target` in the first free slot, or in a new one at the end,
    /// and returns its handle.
    pub fn new_target(&mut self, target: Target) -> (r: usize)
        ensures
            r <= old(self).targets@.len(),
            forall|j: int| 0 <= j < r ==> (#[trigger] old(self).targets@[j]) is Some,
            r < old(self).targets@.len() ==> old(self).targets@[r as int] is None
                && final(self).targets@ == old(self).targets@.update(r as int, Some(target)),
            r == old(self).targets@.len() ==> final(self).targets@ == old(self).targets@.push(
                Some(target),
            ),
    {
        let mut i: usize = 0;
        while i < self.targets.len()
            invariant
                0 <= i <= self.targets@.len(),
                self.targets@ == old(self).targets@,
                forall|j: int| 0 <= j < i ==> self.targets@[j] is Some,
            decreases self.targets@.len() - i,
        {
            if self.targets[i].is_none() {
                self.targets.set(i, Some(target));
                return i;
            }
            i += 1;
        }
        self.targets.push(Some(target));
        i
    }

    /// Marks the target under `index` as confirmed.
    pub fn confirm_target(&mut self, index: usize) -> (r: Result<(), RegistryError>)
        ensures
            r is Ok <==> index < old(self).targets@.len() && old(self).targets@[index as int] is Some,
            r is Err ==> final(self).targets@ == old(self).targets@,
            r is Ok ==> final(self).targets@ == old(self).targets@.update(
                index as int,
                Some(
                    Target { confirmed: true, ..old(self).targets@[index as int]->0 },
                ),
            ),
    {
        if index >= self.targets.len() {
            return Err(RegistryError::NoTarget);
        }
        let mut slot: Option<Target> = None;
        self.targets.set_and_swap(index, &mut slot);
        match slot {
            Some(mut t) => {
                t.confirm();
                let mut back = Some(t);
                self.targets.set_and_swap(index, &mut back);
                assert(self.targets@ =~= old(self).targets@.update(
                    index as int,
                    Some(Target { confirmed: true, ..old(self).targets@[index as int]->0 }),
                ));
                Ok(())
            },
            None => {
                let mut back: Option<Target> = None;
                self.targets.set_and_swap(index, &mut back);
                assert(self.targets@ =~= old(self).targets@);
                Err(RegistryError::NoTarget)
            },
        }
    }

    /// Frees the slot of the target under `index`.
    pub fn remove_target(&mut self, index: usize) -> (r: Result<(), RegistryError>)
        ensures
            r is Ok <==> index < old(self).targets@.len() && old(self).targets@[index as int] is Some,
            r is Err ==> final(self).targets@ == old(self).targets@,
            r is Ok ==> final(self).targets@ == old(self).targets@.update(index as int, None),
    {
        if index >= self.targets.len() || self.targets[index].is_none() {
            return Err(RegistryError::NoTarget);
        }
        self.targets.set(index, None);
        Ok(())
    }

    /// Frees the slots of the targets that were not confirmed; every other
    /// slot, and so every handle, stays as it was.
    pub fn retain_confirmed(&mut self)
        ensures
            final(self).targets@.len() == old(self).targets@.len(),
            forall|i: int|
                0 <= i < old(self).targets@.len() ==> #[trigger] final(self).targets@[i] == if kept(
                    old(self).targets@[i],
                ) {
                    old(self).targets@[i]
                } else {
                    None
                },
    {
        let mut i: usize = 0;
        while i < self.targets.len()
            invariant
                0 <= i <= self.targets@.len() == old(self).targets@.len(),
                forall|j: int| i <= j < self.targets@.len() ==> #[trigger] self.targets@[j] == old(
                    self,
                ).targets@[j],
                forall|j: int|
                    0 <= j < i ==> #[trigger] self.targets@[j] == if kept(old(self).targets@[j]) {
                        old(self).targets@[j]
                    } else {
                        None
                    },
            decreases self.targets@.len() - i,
        {
            let drop = match &self.targets[i] {
                Some(t) => !t.confirmed,
                None => false,
            };
            if drop {
                self.targets.set(i, None);
            }
            i += 1;
        }
    }
}

/// Index of the prediction slice `ticks_ahead` ticks from now, among
/// `num_slices` slices: the first for anything up to one tick ahead, the
/// last for anything beyond.
pub fn slice_index(ticks_ahead: i64, num_slices: usize) -> (r: usize)
    requires
        num_slices >= 1,
    ensures
        ticks_ahead <= 1 ==> r == 0,
        1 <= ticks_ahead <= num_slices ==> r == ticks_ahead - 1,
        ticks_ahead >= num_slices ==> r == num_slices - 1,
{
    if ticks_ahead <= 1 {
        0
    } else if ticks_ahead as i128 >= num_slices as i128 {
        num_slices - 1
    } else {
        (ticks_ahead - 1) as usize
    }
}

} // verus!
