//! Bookkeeping of outstanding device-context clones.
//!
//! A device context is reference counted: every clone shares one inner
//! record, and the native device is torn down exactly when the last clone
//! goes away. This module models that bookkeeping as an explicit state
//! machine, as a diagnostic build of the engine keeps it: each clone is
//! registered under a fresh creation index, each drop releases its index,
//! and the device is marked destroyed precisely when the last index is
//! released. Once destroyed, every further operation is refused with an
//! error instead of reaching a dead device.

use vstd::prelude::*;
use crate::error::{RafxError, RafxResult};

verus! {

/// The set of outstanding context clones of one device, each identified by
/// the creation index it was registered under, together with the destroyed
/// flag of the shared device.
#[derive(Clone, Debug)]
pub struct DeviceContextTracking {
    /// The creation index the next clone will receive.
    pub next_create_index: u64,
    /// Creation indices of the clones still alive, oldest first.
    pub live_contexts: Vec<u64>,
    /// Set exactly when the last clone has been released; after that the
    /// native device is gone and no operation may be issued.
    pub destroyed: bool,
}

impl DeviceContextTracking {
    /// Well-formedness: live indices are distinct and below the next
    /// index, and a destroyed device has no live clone.
    pub open spec fn wf(self) -> bool {
        &&& forall|i: int, j: int|
            0 <= i < j < self.live_contexts@.len() ==> #[trigger] self.live_contexts@[i]
                != #[trigger] self.live_contexts@[j]
        &&& forall|i: int|
            0 <= i < self.live_contexts@.len() ==> #[trigger] self.live_contexts@[i]
                < self.next_create_index
        &&& self.destroyed ==> self.live_contexts@.len() == 0
    }

    /// Open a device: the creating context itself is the first live clone,
    /// registered under index zero.
    pub fn new() -> (r: DeviceContextTracking)
        ensures
            r.wf(),
            r.live_contexts@ =~= seq![0u64],
            r.next_create_index == 1,
            !r.destroyed,
    {
        let mut live: Vec<u64> = Vec::new();
        live.push(0);
        DeviceContextTracking { next_create_index: 1, live_contexts: live, destroyed: false }
    }

    /// How many clones are currently alive.
    pub fn live_count(&self) -> (r: usize)
        ensures
            r == self.live_contexts@.len(),
    {
        self.live_contexts.len()
    }

    /// Whether the device has been destroyed.
    pub fn is_destroyed(&self) -> (r: bool)
        ensures
            r == self.destroyed,
    {
        self.destroyed
    }

    /// Refuse further work on a destroyed device: an error, not a crash.
    pub fn check_device_alive(&self) -> (r: RafxResult<()>)
        ensures
            r is Ok <==> !self.destroyed,
            r is Err ==> r == RafxResult::<()>::Err(RafxError::DeviceLost),
    {
        if self.destroyed {
            Err(RafxError::DeviceLost)
        } else {
            Ok(())
        }
    }

    /// Register a new clone of the context and hand it its creation
    /// index. Only a live device can be cloned.
    pub fn register_clone(&mut self) -> (r: u64)
        requires
            old(self).wf(),
            !old(self).destroyed,
            old(self).next_create_index < u64::MAX,
        ensures
            final(self).wf(),
            r == old(self).next_create_index,
            final(self).live_contexts@ == old(self).live_contexts@.push(r),
            final(self).next_create_index == old(self).next_create_index + 1,
            !final(self).destroyed,
    {
        let index = self.next_create_index;
        self.live_contexts.push(index);
        self.next_create_index = index + 1;
        index
    }

    /// Release the clone registered under `create_index`. While other
    /// clones remain the device stays alive; releasing the last clone
    /// marks the device destroyed.
    pub fn release(&mut self, create_index: u64)
        requires
            old(self).wf(),
            old(self).live_contexts@.contains(create_index),
        ensures
            final(self).wf(),
            final(self).next_create_index == old(self).next_create_index,
            final(self).live_contexts@.len() == old(self).live_contexts@.len() - 1,
            !final(self).live_contexts@.contains(create_index),
            forall|x: u64|
                x != create_index ==> (final(self).live_contexts@.contains(x) <==> old(
                    self,
                ).live_contexts@.contains(x)),
            final(self).destroyed <==> final(self).live_contexts@.len() == 0,
            old(self).live_contexts@.len() > 1 ==> !final(self).destroyed,
            old(self).live_contexts@.len() == 1 ==> final(self).destroyed,
    {
        let k = find_index(&self.live_contexts, create_index);
        let ghost old_live = self.live_contexts@;
        self.live_contexts.remove(k);
        proof {
            let live = self.live_contexts@;
            assert forall|i: int| 0 <= i < live.len() implies #[trigger] live[i] == (if i < k {
                old_live[i]
            } else {
                old_live[i + 1]
            }) by {}
            assert forall|i: int, j: int| 0 <= i < j < live.len() implies #[trigger] live[i]
                != #[trigger] live[j] by {}
            assert forall|i: int| 0 <= i < live.len() implies #[trigger] live[i]
                != create_index by {
                if i < k {
                    assert(old_live[i] != old_live[k as int]);
                } else {
                    assert(old_live[i + 1] != old_live[k as int]);
                }
            }
            assert(!live.contains(create_index));
            assert forall|x: u64| x != create_index && old_live.contains(x) implies
                live.contains(x) by {
                let i = choose|i: int| 0 <= i < old_live.len() && old_live[i] == x;
                if i < k {
                    assert(live[i] == x);
                } else {
                    assert(old_live[i] != old_live[k as int]);
                    assert(i > k);
                    assert(live[i - 1] == x);
                }
            }
            assert forall|x: u64| live.contains(x) implies old_live.contains(x) by {
                let i = choose|i: int| 0 <= i < live.len() && live[i] == x;
                if i < k {
                    assert(old_live[i] == x);
                } else {
                    assert(old_live[i + 1] == x);
                }
            }
        }
        self.destroyed = self.live_contexts.len() == 0;
    }
}

/// The position of `x` in `v`; the caller guarantees it is there.
fn find_index(v: &Vec<u64>, x: u64) -> (r: usize)
    requires
        v@.contains(x),
    ensures
        r < v@.len(),
        v@[r as int] == x,
        forall|j: int| 0 <= j < r ==> v@[j] != x,
{
    let n: usize = v.len();
    let mut i: usize = 0;
    while i < n
        invariant
            i <= n,
            n == v@.len(),
            v@.contains(x),
            forall|j: int| 0 <= j < i ==> v@[j] != x,
        decreases n - i,
    {
        if v[i] == x {
            return i;
        }
        i = i + 1;
    }
    proof {
        let k = choose|k: int| 0 <= k < v@.len() && v@[k] == x;
        assert(false);
    }
    vstd::pervasive::unreached()
}

/// While any clone of a context is alive, the device is alive: a tracked
/// device is destroyed only when its last clone has been released.
pub proof fn lemma_live_clone_keeps_device_alive(t: DeviceContextTracking)
    requires
        t.wf(),
        t.live_contexts@.len() >= 1,
    ensures
        !t.destroyed,
{
}

} // verus!
