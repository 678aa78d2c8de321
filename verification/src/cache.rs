//! The pipeline variant cache.
//!
//! The cache owns the keyed index of every compiled pipeline variant for
//! the application's lifetime: the key space is closed and small, and no
//! entry is ever evicted or mutated once inserted. A lookup of a key that
//! was already specialized returns the handle it was given the first
//! time; a fresh key is assigned the next free handle and queued for
//! compilation by the embedding. A variant whose compilation the backend
//! rejected is marked failed exactly once, so that the failure can be
//! logged once per distinct key and the pass skipped thereafter.

use vstd::prelude::*;
use crate::key::{EdgeDetectionKey, KEY_SPACE};
use crate::params::EdgeDetection;

verus! {

/// Handle of one cached pipeline variant.
#[derive(Clone, Copy, Debug, PartialEq, Eq, Structural)]
pub struct EdgeDetectionPipelineId(pub u64);

/// The lifecycle of one slot of the key space.
#[derive(Clone, Copy, Debug, PartialEq, Eq, Structural)]
pub enum VariantSlot {
    /// No view has requested this variant yet.
    Vacant,
    /// The variant was handed to the backend for compilation under the
    /// carried handle.
    Queued(u64),
    /// The backend rejected the variant; the handle stays reserved and
    /// the pass is skipped for views requesting it.
    Failed(u64),
}

/// Whether a slot carries a handle.
pub open spec fn slot_filled(s: VariantSlot) -> bool {
    !(s is Vacant)
}

/// The handle a slot carries, if any.
pub open spec fn slot_handle(s: VariantSlot) -> Option<u64> {
    match s {
        VariantSlot::Vacant => None,
        VariantSlot::Queued(h) => Some(h),
        VariantSlot::Failed(h) => Some(h),
    }
}

/// How many slots of a sequence carry a handle.
pub open spec fn count_filled(s: Seq<VariantSlot>) -> int
    decreases s.len(),
{
    if s.len() == 0 {
        0
    } else {
        count_filled(s.drop_last()) + if slot_filled(s.last()) {
            1int
        } else {
            0int
        }
    }
}

/// No sequence holds more filled slots than slots.
pub proof fn lemma_count_filled_bound(s: Seq<VariantSlot>)
    ensures
        0 <= count_filled(s) <= s.len(),
    decreases s.len(),
{
    if s.len() > 0 {
        lemma_count_filled_bound(s.drop_last());
    }
}

/// Updating one slot moves the filled count by the difference of the
/// old and new slot's filledness.
pub proof fn lemma_count_filled_update(s: Seq<VariantSlot>, i: int, v: VariantSlot)
    requires
        0 <= i < s.len(),
    ensures
        count_filled(s.update(i, v)) == count_filled(s) + (if slot_filled(v) {
            1int
        } else {
            0int
        }) - (if slot_filled(s[i]) {
            1int
        } else {
            0int
        }),
    decreases s.len(),
{
    let t = s.update(i, v);
    if i == s.len() - 1 {
        assert(t.drop_last() =~= s.drop_last());
        assert(t.last() == v);
    } else {
        lemma_count_filled_update(s.drop_last(), i, v);
        assert(t.drop_last() =~= s.drop_last().update(i, v));
        assert(t.last() == s.last());
    }
}

/// The pipeline variant cache: one slot per key, plus the next free
/// handle. Insertions happen under the frame-preparation stage's
/// single-writer discipline; the slots are read-only during the pass.
#[derive(Clone, Debug)]
pub struct PipelineVariantCache {
    /// One slot per point of the key space, indexed by
    /// [`EdgeDetectionKey::spec_index`].
    pub slots: Vec<VariantSlot>,
    /// The handle the next fresh variant will receive.
    pub next_id: u64,
}

impl PipelineVariantCache {
    /// The cache invariant: one slot per key, handles allocated below
    /// `next_id`, `next_id` counting the filled slots, and no two slots
    /// sharing a handle.
    pub open spec fn wf(self) -> bool {
        &&& self.slots@.len() == KEY_SPACE
        &&& self.next_id == count_filled(self.slots@)
        &&& forall|i: int|
            0 <= i < self.slots@.len() && slot_filled(#[trigger] self.slots@[i])
                ==> slot_handle(self.slots@[i])->Some_0 < self.next_id
        &&& forall|i: int, j: int|
            0 <= i < self.slots@.len() && 0 <= j < self.slots@.len() && i != j
                && slot_filled(#[trigger] self.slots@[i]) && slot_filled(#[trigger] self.slots@[j])
                ==> slot_handle(self.slots@[i]) != slot_handle(self.slots@[j])
    }

    /// The slot a key occupies.
    pub open spec fn spec_status_of(self, key: EdgeDetectionKey) -> VariantSlot {
        self.slots@[key.spec_index()]
    }

    /// The handle a key resolves to, if the variant was ever requested.
    pub open spec fn spec_handle_of(self, key: EdgeDetectionKey) -> Option<u64> {
        slot_handle(self.spec_status_of(key))
    }

    /// An empty cache: every slot vacant.
    pub fn new() -> (r: Self)
        ensures
            r.wf(),
            forall|k: EdgeDetectionKey| r.spec_handle_of(k) is None,
    {
        let mut slots: Vec<VariantSlot> = Vec::new();
        let mut i: usize = 0;
        while i < KEY_SPACE
            invariant
                i <= KEY_SPACE,
                slots@.len() == i,
                forall|j: int| 0 <= j < i ==> slots@[j] == VariantSlot::Vacant,
            decreases KEY_SPACE - i,
        {
            slots.push(VariantSlot::Vacant);
            i += 1;
        }
        proof {
            assert forall|j: int| 0 <= j < slots@.len() implies !slot_filled(slots@[j]) by {}
            lemma_count_vacant_zero(slots@);
            assert forall|k: EdgeDetectionKey| slot_handle(
                slots@[k.spec_index()],
            ) is None by {
                k.lemma_index_in_space();
            }
        }
        PipelineVariantCache { slots, next_id: 0 }
    }

    /// The current slot of a key's variant.
    pub fn status(&self, key: EdgeDetectionKey) -> (r: VariantSlot)
        requires
            self.wf(),
        ensures
            r == self.spec_status_of(key),
    {
        proof {
            key.lemma_index_in_space();
        }
        self.slots[key.index()]
    }

    /// Return the key's pipeline handle, assigning the next free handle
    /// and queueing the variant when the key is seen for the first time.
    /// The second component says whether the variant still needs to be
    /// handed to the backend for compilation.
    ///
    /// The call is deterministic: a key that already resolved keeps its
    /// handle and leaves the cache untouched, and no other key's slot
    /// ever changes.
    pub fn specialize(&mut self, key: EdgeDetectionKey) -> (r: (EdgeDetectionPipelineId, bool))
        requires
            old(self).wf(),
        ensures
            final(self).wf(),
            final(self).spec_handle_of(key) == Some(r.0.0),
            match old(self).spec_handle_of(key) {
                Some(h) => r.0.0 == h && !r.1 && *final(self) == *old(self),
                None => {
                    &&& r.1
                    &&& r.0.0 == old(self).next_id
                    &&& final(self).spec_status_of(key) == VariantSlot::Queued(r.0.0)
                },
            },
            forall|k2: EdgeDetectionKey|
                k2 != key ==> final(self).spec_status_of(k2) == old(self).spec_status_of(k2),
            forall|k2: EdgeDetectionKey|
                old(self).spec_handle_of(k2) is Some ==> final(self).spec_handle_of(k2) == old(
                    self,
                ).spec_handle_of(k2),
    {
        proof {
            key.lemma_index_in_space();
        }
        let idx = key.index();
        let slot = self.slots[idx];
        match slot {
            VariantSlot::Queued(h) => (EdgeDetectionPipelineId(h), false),
            VariantSlot::Failed(h) => (EdgeDetectionPipelineId(h), false),
            VariantSlot::Vacant => {
                proof {
                    lemma_count_filled_bound(self.slots@);
                }
                let id = self.next_id;
                self.slots[idx] = VariantSlot::Queued(id);
                self.next_id = id + 1;
                proof {
                    lemma_count_filled_update(
                        old(self).slots@,
                        idx as int,
                        VariantSlot::Queued(id),
                    );
                    assert forall|k2: EdgeDetectionKey| k2 != key implies self.spec_status_of(k2)
                        == old(self).spec_status_of(k2) by {
                        k2.lemma_index_in_space();
                        if k2.spec_index() == key.spec_index() {
                            EdgeDetectionKey::lemma_index_injective(k2, key);
                        }
                    }
                }
                (EdgeDetectionPipelineId(id), true)
            },
        }
    }

    /// Record that the backend rejected the key's variant. Returns true
    /// exactly on the first such report for the key, so the caller can
    /// log the failure once per distinct key and never again.
    pub fn mark_failed(&mut self, key: EdgeDetectionKey) -> (first: bool)
        requires
            old(self).wf(),
        ensures
            final(self).wf(),
            match old(self).spec_status_of(key) {
                VariantSlot::Queued(h) => first && final(self).spec_status_of(key)
                    == VariantSlot::Failed(h),
                _ => !first && *final(self) == *old(self),
            },
            final(self).spec_handle_of(key) == old(self).spec_handle_of(key),
            forall|k2: EdgeDetectionKey|
                k2 != key ==> final(self).spec_status_of(k2) == old(self).spec_status_of(k2),
    {
        proof {
            key.lemma_index_in_space();
        }
        let idx = key.index();
        let slot = self.slots[idx];
        match slot {
            VariantSlot::Queued(h) => {
                self.slots[idx] = VariantSlot::Failed(h);
                proof {
                    lemma_count_filled_update(old(self).slots@, idx as int, VariantSlot::Failed(h));
                    assert forall|k2: EdgeDetectionKey| k2 != key implies self.spec_status_of(k2)
                        == old(self).spec_status_of(k2) by {
                        k2.lemma_index_in_space();
                        if k2.spec_index() == key.spec_index() {
                            EdgeDetectionKey::lemma_index_injective(k2, key);
                        }
                    }
                }
                true
            },
            _ => false,
        }
    }
}

/// A sequence of vacant slots has no filled slot.
pub proof fn lemma_count_vacant_zero(s: Seq<VariantSlot>)
    requires
        forall|j: int| 0 <= j < s.len() ==> !slot_filled(#[trigger] s[j]),
    ensures
        count_filled(s) == 0,
    decreases s.len(),
{
    if s.len() > 0 {
        lemma_count_vacant_zero(s.drop_last());
    }
}

/// Cache determinism: equal keys resolve to the identical handle, and
/// the handles of two distinct keys never coincide.
pub proof fn lemma_cache_determinism(
    c: PipelineVariantCache,
    k1: EdgeDetectionKey,
    k2: EdgeDetectionKey,
)
    requires
        c.wf(),
        c.spec_handle_of(k1) is Some,
        c.spec_handle_of(k2) is Some,
    ensures
        k1 == k2 ==> c.spec_handle_of(k1) == c.spec_handle_of(k2),
        k1 != k2 ==> c.spec_handle_of(k1) != c.spec_handle_of(k2),
{
    k1.lemma_index_in_space();
    k2.lemma_index_in_space();
    if k1 != k2 {
        if k1.spec_index() == k2.spec_index() {
            EdgeDetectionKey::lemma_index_injective(k1, k2);
        }
    }
}

/// The per-view state the preparation stage reads: the view's output
/// format, its multisampling state, and its effect configuration.
#[derive(Clone, Copy, Debug, PartialEq, Eq, Structural)]
pub struct ViewInfo {
    /// Whether the view renders to the HDR output format.
    pub hdr: bool,
    /// The view's multisample count; more than one sample means the
    /// prepass textures are multisampled.
    pub msaa_samples: u32,
    /// The view's effect configuration.
    pub edge_detection: EdgeDetection,
}

/// The variant key a view resolves.
pub open spec fn spec_key_of(v: ViewInfo) -> EdgeDetectionKey {
    EdgeDetectionKey {
        enable_depth: v.edge_detection.enable_depth,
        enable_normal: v.edge_detection.enable_normal,
        enable_color: v.edge_detection.enable_color,
        hdr: v.hdr,
        multisampled: v.msaa_samples > 1,
    }
}

/// The preparation stage: resolve every view's variant key and obtain
/// its pipeline handle, specializing fresh variants along the way. The
/// returned handles line up with the views, and every previously
/// resolved key keeps its handle.
pub fn prepare_edge_detection_pipelines(
    cache: &mut PipelineVariantCache,
    views: &Vec<ViewInfo>,
) -> (r: Vec<EdgeDetectionPipelineId>)
    requires
        old(cache).wf(),
    ensures
        final(cache).wf(),
        r@.len() == views@.len(),
        forall|i: int|
            0 <= i < views@.len() ==> final(cache).spec_handle_of(spec_key_of(#[trigger] views@[i]))
                == Some(r@[i].0),
        forall|k: EdgeDetectionKey|
            old(cache).spec_handle_of(k) is Some ==> final(cache).spec_handle_of(k) == old(
                cache,
            ).spec_handle_of(k),
{
    let mut r: Vec<EdgeDetectionPipelineId> = Vec::new();
    let n = views.len();
    let mut i: usize = 0;
    while i < n
        invariant
            cache.wf(),
            n == views@.len(),
            i <= n,
            r@.len() == i,
            forall|j: int|
                0 <= j < i ==> cache.spec_handle_of(spec_key_of(#[trigger] views@[j])) == Some(
                    r@[j].0,
                ),
            forall|k: EdgeDetectionKey|
                old(cache).spec_handle_of(k) is Some ==> cache.spec_handle_of(k) == old(
                    cache,
                ).spec_handle_of(k),
        decreases n - i,
    {
        let view = &views[i];
        let key = EdgeDetectionKey::new(
            &view.edge_detection,
            view.hdr,
            view.msaa_samples > 1,
        );
        let (id, _needs_compile) = cache.specialize(key);
        r.push(id);
        i += 1;
    }
    r
}

} // verus!
