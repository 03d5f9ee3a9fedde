//! The camera registry: the process-wide mapping from device path to the
//! single live worker for that device. The surrounding server holds one
//! registry behind its lock; every operation here is one step inside that
//! critical section. At most one worker exists per path at any instant,
//! and a request for an unknown path fails without touching the registry.

use vstd::prelude::*;

use crate::errors::{DeviceError, RegistryError};
use crate::mode::CameraMode;

verus! {

/// The registry-side handle of one live worker: the immutable catalog, the
/// cross-thread signals, and the count of enrolled subscribers the worker
/// has not yet adopted.
pub struct WorkerHandle {
    pub path: String,
    pub modes: Vec<CameraMode>,
    pub current_mode: CameraMode,
    pub pending_count: usize,
    pub flush_flag: bool,
    pub shutdown_flag: bool,
    /// The one-slot mode-change channel: a newer request overwrites an
    /// unconsumed older one.
    pub mode_request: Option<CameraMode>,
}

impl WorkerHandle {
    /// Well-formedness: a nonempty catalog that covers the current mode and
    /// any lodged request, and the flush flag raised whenever a subscriber
    /// waits — an enrollment both enqueues and signals.
    pub open spec fn wf(self) -> bool {
        &&& self.modes@.len() > 0
        &&& self.modes@.contains(self.current_mode)
        &&& match self.mode_request {
            Some(m) => self.modes@.contains(m),
            None => true,
        }
        &&& (self.pending_count > 0 ==> self.flush_flag)
    }

    /// A handle for a worker that was just started: no subscriber enrolled,
    /// no signal raised, running at the catalog's last mode.
    pub fn new(path: String, modes: Vec<CameraMode>) -> (r: Result<WorkerHandle, DeviceError>)
        ensures
            match r {
                Ok(h) => {
                    &&& modes@.len() > 0
                    &&& h.wf()
                    &&& h.path@ == path@
                    &&& h.modes@ == modes@
                    &&& h.current_mode == modes@.last()
                    &&& h.pending_count == 0
                    &&& !h.flush_flag
                    &&& !h.shutdown_flag
                    &&& h.mode_request is None
                },
                Err(e) => e == DeviceError::NoModes && modes@.len() == 0,
            },
    {
        if modes.len() == 0 {
            Err(DeviceError::NoModes)
        } else {
            let initial = modes[modes.len() - 1];
            proof {
                assert(modes@[modes@.len() - 1] == modes@.last());
            }
            Ok(
                WorkerHandle {
                    path,
                    modes,
                    current_mode: initial,
                    pending_count: 0,
                    flush_flag: false,
                    shutdown_flag: false,
                    mode_request: None,
                },
            )
        }
    }

    /// Validates a mode index against the catalog and lodges the request in
    /// the one-slot channel, superseding an unconsumed older one. An invalid
    /// index changes nothing.
    pub fn update_camera_mode(&mut self, mode_index: usize) -> (r: Result<(), RegistryError>)
        requires
            old(self).wf(),
        ensures
            final(self).wf(),
            match r {
                Ok(()) => mode_index < old(self).modes@.len() && *final(self) == (WorkerHandle {
                    mode_request: Some(old(self).modes@[mode_index as int]),
                    ..*old(self)
                }),
                Err(RegistryError::InvalidModeIndex) => mode_index >= old(self).modes@.len()
                    && *final(self) == *old(self),
                Err(_) => false,
            },
    {
        if mode_index < self.modes.len() {
            let m = self.modes[mode_index];
            self.mode_request = Some(m);
            Ok(())
        } else {
            Err(RegistryError::InvalidModeIndex)
        }
    }

    /// The device path this worker owns.
    pub fn camera_path(&self) -> (r: &String)
        ensures
            r@ == self.path@,
    {
        &self.path
    }

    /// The mode the worker is (last known to be) capturing at.
    pub fn current_mode(&self) -> (r: &CameraMode)
        ensures
            *r == self.current_mode,
    {
        &self.current_mode
    }

    /// The worker's mode catalog.
    pub fn camera_modes(&self) -> (r: &Vec<CameraMode>)
        ensures
            r@ == self.modes@,
    {
        &self.modes
    }
}

/// The registry itself: the live workers, one entry each.
pub struct CameraRegistry {
    pub entries: Vec<WorkerHandle>,
}

impl CameraRegistry {
    /// Whether some live worker owns the device at `p`.
    pub open spec fn contains_path(self, p: Seq<char>) -> bool {
        exists|i: int| 0 <= i < self.entries@.len() && (#[trigger] self.entries@[i]).path@ == p
    }

    /// Well-formedness: every handle is well-formed and no two entries name
    /// the same device.
    pub open spec fn wf(self) -> bool {
        &&& forall|i: int|
            0 <= i < self.entries@.len() ==> (#[trigger] self.entries@[i]).wf()
        &&& forall|i: int, j: int|
            0 <= i < j < self.entries@.len() ==> (#[trigger] self.entries@[i]).path@ != (
            #[trigger] self.entries@[j]).path@
    }

    /// An empty registry: no camera is open.
    pub fn new() -> (r: CameraRegistry)
        ensures
            r.wf(),
            r.entries@.len() == 0,
    {
        CameraRegistry { entries: Vec::new() }
    }

    /// Finds the entry for a device path, if one is live.
    pub fn lookup(&self, path: &String) -> (r: Option<usize>)
        ensures
            match r {
                Some(i) => i < self.entries@.len() && self.entries@[i as int].path@ == path@,
                None => !self.contains_path(path@),
            },
    {
        let mut i: usize = 0;
        while i < self.entries.len()
            invariant
                i <= self.entries@.len(),
                forall|k: int| 0 <= k < i ==> (#[trigger] self.entries@[k]).path@ != path@,
            decreases self.entries@.len() - i,
        {
            if self.entries[i].path == *path {
                return Some(i);
            }
            i += 1;
        }
        None
    }

    /// Registers a freshly started worker. Fails, leaving the registry
    /// unchanged, when a worker for that path is already live: each device
    /// is opened at most once.
    pub fn insert(&mut self, handle: WorkerHandle) -> (r: Result<(), RegistryError>)
        requires
            old(self).wf(),
            handle.wf(),
        ensures
            final(self).wf(),
            match r {
                Ok(()) => !old(self).contains_path(handle.path@) && final(self).entries@ == old(self).entries@.push(handle),
                Err(RegistryError::PathBusy) => old(self).contains_path(handle.path@) && *final(self) == *old(self),
                Err(_) => false,
            },
    {
        match self.lookup(&handle.path) {
            Some(i) => {
                proof {
                    assert(old(self).entries@[i as int].path@ == handle.path@);
                }
                Err(RegistryError::PathBusy)
            },
            None => {
                self.entries.push(handle);
                Ok(())
            },
        }
    }

    /// Called by a worker as it terminates: drops that worker's entry. Every
    /// other entry survives in order — one worker's death never touches
    /// another camera.
    pub fn remove(&mut self, path: &String)
        requires
            old(self).wf(),
        ensures
            final(self).wf(),
            !final(self).contains_path(path@),
            !old(self).contains_path(path@) ==> *final(self) == *old(self),
            old(self).contains_path(path@) ==> exists|i: int|
                0 <= i < old(self).entries@.len() && (#[trigger] old(self).entries@[i]).path@
                    == path@ && final(self).entries@ == old(self).entries@.remove(i),
    {
        match self.lookup(path) {
            None => {},
            Some(i) => {
                self.entries.remove(i);
                proof {
                    let olde = old(self).entries@;
                    assert forall|k: int|
                        0 <= k < self.entries@.len() implies (#[trigger] self.entries@[k]).path@
                        != path@ by {
                        if k < i {
                            assert(self.entries@[k] == olde[k]);
                        } else {
                            assert(self.entries@[k] == olde[k + 1]);
                        }
                    }
                    if self.contains_path(path@) {
                        let k = choose|k: int|
                            0 <= k < self.entries@.len() && (#[trigger] self.entries@[k]).path@
                                == path@;
                        assert(false);
                    }
                    assert forall|k: int|
                        0 <= k < self.entries@.len() implies (#[trigger] self.entries@[k]).wf() by {
                        if k < i {
                            assert(self.entries@[k] == olde[k]);
                        } else {
                            assert(self.entries@[k] == olde[k + 1]);
                        }
                    }
                    assert forall|a: int, b: int|
                        0 <= a < b < self.entries@.len() implies (#[trigger] self.entries@[a]).path@
                        != (#[trigger] self.entries@[b]).path@ by {
                        let oa: int = if a < i {
                            a
                        } else {
                            a + 1
                        };
                        let ob: int = if b < i {
                            b
                        } else {
                            b + 1
                        };
                        assert(self.entries@[a] == olde[oa]);
                        assert(self.entries@[b] == olde[ob]);
                    }
                }
            },
        }
    }

    /// Enrolls one new subscriber with the live worker for `path`: its
    /// pending count rises and its flush flag is raised, so the worker will
    /// adopt the subscriber at its next iteration. An unknown path yields an
    /// error and mutates nothing.
    pub fn enroll(&mut self, path: &String) -> (r: Result<(), RegistryError>)
        requires
            old(self).wf(),
            forall|i: int|
                0 <= i < old(self).entries@.len() && (#[trigger] old(self).entries@[i]).path@
                    == path@ ==> old(self).entries@[i].pending_count < usize::MAX,
        ensures
            final(self).wf(),
            r is Ok <==> old(self).contains_path(path@),
            match r {
                Ok(()) => exists|i: int|
                    0 <= i < old(self).entries@.len() && (#[trigger] old(self).entries@[i]).path@
                        == path@ && final(self).entries@ == old(self).entries@.update(
                        i,
                        (WorkerHandle {
                            pending_count: (old(self).entries@[i].pending_count + 1) as usize,
                            flush_flag: true,
                            ..old(self).entries@[i]
                        }),
                    ),
                Err(RegistryError::UnknownPath) => !old(self).contains_path(path@) && *final(self)
                    == *old(self),
                Err(_) => false,
            },
    {
        match self.lookup(path) {
            None => Err(RegistryError::UnknownPath),
            Some(i) => {
                let entry = self.entries.remove(i);
                let updated = WorkerHandle {
                    pending_count: entry.pending_count + 1,
                    flush_flag: true,
                    ..entry
                };
                self.entries.insert(i, updated);
                proof {
                    assert(self.entries@ =~= old(self).entries@.update(i as int, updated));
                    lemma_update_wf(*old(self), *self, i as int, updated);
                }
                Ok(())
            },
        }
    }

    /// The worker's side of the pending drain: how many subscribers were
    /// waiting; the count and the flush flag are cleared together. `None`
    /// when no worker owns the path.
    pub fn take_pending(&mut self, path: &String) -> (r: Option<usize>)
        requires
            old(self).wf(),
        ensures
            final(self).wf(),
            r is Some <==> old(self).contains_path(path@),
            match r {
                Some(n) => exists|i: int|
                    0 <= i < old(self).entries@.len() && (#[trigger] old(self).entries@[i]).path@
                        == path@ && n == old(self).entries@[i].pending_count && final(self).entries@ == old(self).entries@.update(
                        i,
                        (WorkerHandle {
                            pending_count: 0,
                            flush_flag: false,
                            ..old(self).entries@[i]
                        }),
                    ),
                None => !old(self).contains_path(path@) && *final(self) == *old(self),
            },
    {
        match self.lookup(path) {
            None => None,
            Some(i) => {
                let entry = self.entries.remove(i);
                let n = entry.pending_count;
                let updated = WorkerHandle { pending_count: 0, flush_flag: false, ..entry };
                self.entries.insert(i, updated);
                proof {
                    assert(self.entries@ =~= old(self).entries@.update(i as int, updated));
                    lemma_update_wf(*old(self), *self, i as int, updated);
                }
                Some(n)
            },
        }
    }

    /// Validates the index against the worker's catalog and lodges the mode
    /// request. Unknown path or invalid index: an error, and nothing changes.
    pub fn set_mode(&mut self, path: &String, mode_index: usize) -> (r: Result<(), RegistryError>)
        requires
            old(self).wf(),
        ensures
            final(self).wf(),
            match r {
                Ok(()) => exists|i: int|
                    0 <= i < old(self).entries@.len() && (#[trigger] old(self).entries@[i]).path@
                        == path@ && mode_index < old(self).entries@[i].modes@.len() && final(self).entries@ == old(self).entries@.update(
                        i,
                        (WorkerHandle {
                            mode_request: Some(old(self).entries@[i].modes@[mode_index as int]),
                            ..old(self).entries@[i]
                        }),
                    ),
                Err(RegistryError::UnknownPath) => !old(self).contains_path(path@) && *final(self)
                    == *old(self),
                Err(RegistryError::InvalidModeIndex) => *final(self) == *old(self) && exists|i: int|
                    0 <= i < old(self).entries@.len() && (#[trigger] old(self).entries@[i]).path@
                        == path@ && mode_index >= old(self).entries@[i].modes@.len(),
                Err(_) => false,
            },
    {
        match self.lookup(path) {
            None => Err(RegistryError::UnknownPath),
            Some(i) => {
                if mode_index >= self.entries[i].modes.len() {
                    proof {
                        assert(old(self).entries@[i as int].path@ == path@);
                    }
                    return Err(RegistryError::InvalidModeIndex);
                }
                let entry = self.entries.remove(i);
                let m = entry.modes[mode_index];
                let updated = WorkerHandle { mode_request: Some(m), ..entry };
                self.entries.insert(i, updated);
                proof {
                    assert(self.entries@ =~= old(self).entries@.update(i as int, updated));
                    lemma_update_wf(*old(self), *self, i as int, updated);
                }
                Ok(())
            },
        }
    }

    /// The worker's poll of its one-slot mode channel: takes the latest
    /// request, leaving the slot empty — and yields one exactly when the
    /// path is live and a request waits, so no lodged request is lost.
    pub fn take_mode_request(&mut self, path: &String) -> (r: Option<CameraMode>)
        requires
            old(self).wf(),
        ensures
            final(self).wf(),
            match r {
                Some(m) => exists|i: int|
                    0 <= i < old(self).entries@.len() && (#[trigger] old(self).entries@[i]).path@
                        == path@ && old(self).entries@[i].mode_request == Some(m) && old(self).entries@[i].modes@.contains(m) && final(self).entries@ == old(self).entries@.update(
                        i,
                        (WorkerHandle { mode_request: None, ..old(self).entries@[i] }),
                    ),
                None => *final(self) == *old(self) && forall|i: int|
                    0 <= i < old(self).entries@.len() && (#[trigger] old(self).entries@[i]).path@
                        == path@ ==> old(self).entries@[i].mode_request is None,
            },
    {
        match self.lookup(path) {
            None => None,
            Some(i) => {
                if self.entries[i].mode_request.is_none() {
                    proof {
                        assert forall|j: int|
                            0 <= j < self.entries@.len() && (#[trigger] self.entries@[j]).path@
                                == path@ implies self.entries@[j].mode_request is None by {
                            lemma_unique_worker_per_path(*self, i as int, j);
                        }
                    }
                    return None;
                }
                let entry = self.entries.remove(i);
                let m = entry.mode_request;
                let updated = WorkerHandle { mode_request: None, ..entry };
                self.entries.insert(i, updated);
                proof {
                    assert(self.entries@ =~= old(self).entries@.update(i as int, updated));
                    lemma_update_wf(*old(self), *self, i as int, updated);
                }
                m
            },
        }
    }

    /// The worker reports the mode it now captures at, after applying a
    /// request: exactly that entry's current mode becomes the reported
    /// mode, so read-only views reflect the worker. Ignored — nothing
    /// changes — for an unknown path or a mode outside the entry's own
    /// catalog.
    pub fn record_current_mode(&mut self, path: &String, m: CameraMode)
        requires
            old(self).wf(),
        ensures
            final(self).wf(),
            !old(self).contains_path(path@) ==> *final(self) == *old(self),
            old(self).contains_path(path@) ==> exists|i: int|
                0 <= i < old(self).entries@.len() && (#[trigger] old(self).entries@[i]).path@
                    == path@ && if old(self).entries@[i].modes@.contains(m) {
                    final(self).entries@ == old(self).entries@.update(
                        i,
                        (WorkerHandle { current_mode: m, ..old(self).entries@[i] }),
                    )
                } else {
                    *final(self) == *old(self)
                },
    {
        match self.lookup(path) {
            None => {},
            Some(i) => {
                let found = modes_contain(&self.entries[i].modes, m);
                proof {
                    assert(old(self).entries@[i as int].path@ == path@);
                }
                if found {
                    let entry = self.entries.remove(i);
                    let updated = WorkerHandle { current_mode: m, ..entry };
                    self.entries.insert(i, updated);
                    proof {
                        assert(self.entries@ =~= old(self).entries@.update(i as int, updated));
                        lemma_update_wf(*old(self), *self, i as int, updated);
                    }
                }
            },
        }
    }

    /// The worker drops its shutdown flag handle: signal the worker to exit
    /// at the top of its next iteration.
    pub fn request_shutdown(&mut self, path: &String)
        requires
            old(self).wf(),
        ensures
            final(self).wf(),
            !old(self).contains_path(path@) ==> *final(self) == *old(self),
            old(self).contains_path(path@) ==> exists|i: int|
                0 <= i < old(self).entries@.len() && (#[trigger] old(self).entries@[i]).path@
                    == path@ && final(self).entries@ == old(self).entries@.update(
                    i,
                    (WorkerHandle { shutdown_flag: true, ..old(self).entries@[i] }),
                ),
    {
        match self.lookup(path) {
            None => {},
            Some(i) => {
                let entry = self.entries.remove(i);
                let updated = WorkerHandle { shutdown_flag: true, ..entry };
                self.entries.insert(i, updated);
                proof {
                    assert(self.entries@ =~= old(self).entries@.update(i as int, updated));
                    lemma_update_wf(*old(self), *self, i as int, updated);
                }
            },
        }
    }

    /// The paths of every live worker, in registration order.
    pub fn list_active(&self) -> (r: Vec<String>)
        ensures
            r@.len() == self.entries@.len(),
            forall|i: int|
                0 <= i < r@.len() ==> (#[trigger] r@[i])@ == self.entries@[i].path@,
    {
        let mut r: Vec<String> = Vec::new();
        let mut i: usize = 0;
        while i < self.entries.len()
            invariant
                i <= self.entries@.len(),
                r@.len() == i,
                forall|k: int| 0 <= k < i ==> (#[trigger] r@[k])@ == self.entries@[k].path@,
            decreases self.entries@.len() - i,
        {
            r.push(self.entries[i].path.clone());
            i += 1;
        }
        r
    }

    /// Read-only view of one worker for the HTTP layer: its current mode and
    /// its catalog. `None` when the path is inactive.
    pub fn inspect(&self, path: &String) -> (r: Option<(CameraMode, Vec<CameraMode>)>)
        ensures
            match r {
                Some(pair) => exists|i: int|
                    0 <= i < self.entries@.len() && (#[trigger] self.entries@[i]).path@ == path@
                        && pair.0 == self.entries@[i].current_mode && pair.1@
                        == self.entries@[i].modes@,
                None => !self.contains_path(path@),
            },
    {
        match self.lookup(path) {
            None => None,
            Some(i) => {
                let modes = copy_modes(&self.entries[i].modes);
                Some((self.entries[i].current_mode, modes))
            },
        }
    }
}

/// Whether the catalog holds this exact mode.
pub fn modes_contain(modes: &Vec<CameraMode>, m: CameraMode) -> (r: bool)
    ensures
        r == modes@.contains(m),
{
    let mut i: usize = 0;
    while i < modes.len()
        invariant
            i <= modes@.len(),
            forall|k: int| 0 <= k < i ==> modes@[k] != m,
        decreases modes@.len() - i,
    {
        if modes[i] == m {
            return true;
        }
        i += 1;
    }
    false
}

/// Copies a mode catalog entry by entry.
pub fn copy_modes(modes: &Vec<CameraMode>) -> (r: Vec<CameraMode>)
    ensures
        r@ == modes@,
{
    let mut r: Vec<CameraMode> = Vec::new();
    let mut i: usize = 0;
    while i < modes.len()
        invariant
            i <= modes@.len(),
            r@ == modes@.take(i as int),
        decreases modes@.len() - i,
    {
        r.push(modes[i]);
        proof {
            assert(r@ =~= modes@.take(i as int + 1));
        }
        i += 1;
    }
    proof {
        assert(modes@.take(modes@.len() as int) =~= modes@);
    }
    r
}

/// Replacing one entry with a well-formed handle for the same path keeps
/// the registry well-formed.
proof fn lemma_update_wf(before: CameraRegistry, after: CameraRegistry, i: int, h: WorkerHandle)
    requires
        before.wf(),
        h.wf(),
        0 <= i < before.entries@.len(),
        h.path@ == before.entries@[i].path@,
        after.entries@ == before.entries@.update(i, h),
    ensures
        after.wf(),
{
    assert forall|k: int| 0 <= k < after.entries@.len() implies (#[trigger] after.entries@[k]).wf()
        by {
        if k != i {
            assert(after.entries@[k] == before.entries@[k]);
        }
    }
    assert forall|a: int, b: int|
        0 <= a < b < after.entries@.len() implies (#[trigger] after.entries@[a]).path@ != (
    #[trigger] after.entries@[b]).path@ by {
        assert(after.entries@[a].path@ == before.entries@[a].path@);
        assert(after.entries@[b].path@ == before.entries@[b].path@);
    }
}

/// Uniqueness law: in a well-formed registry two entries naming the same
/// device path are the same entry — each device is owned by at most one
/// worker at any instant.
pub proof fn lemma_unique_worker_per_path(reg: CameraRegistry, i: int, j: int)
    requires
        reg.wf(),
        0 <= i < reg.entries@.len(),
        0 <= j < reg.entries@.len(),
        reg.entries@[i].path@ == reg.entries@[j].path@,
    ensures
        i == j,
{
    if i < j {
        assert(reg.entries@[i].path@ != reg.entries@[j].path@);
    }
    if j < i {
        assert(reg.entries@[j].path@ != reg.entries@[i].path@);
    }
}

} // verus!
