//! The scene registry and the reconciliation step of the model-selection
//! state machine, together with the per-frame spin and shader-time mutators.
//!
//! The registry stands in for the host's entity and material stores:
//! entities and material parameter blocks are keyed by stable integer
//! identifiers that are never reused. Despawning removes entities only;
//! their material blocks stay allocated in the store and keep receiving
//! time updates. No path deallocates a block, so detached blocks persist
//! deliberately — the shader-time mutator is specified to reach them too.

use vstd::prelude::*;
use crate::selection::SelectionState;
use crate::shape::ShapeId;
use crate::shape::implemented;

verus! {

/// A scene entity tagged as the active (spinning) renderable.
#[derive(Clone, Copy, PartialEq, Eq, Structural, Debug)]
pub struct ShapeEntity {
    /// Stable entity identifier, unique within the scene.
    pub id: u64,
    /// The shape this renderable displays.
    pub shape: ShapeId,
    /// Handle of the material parameter block this renderable owns.
    pub material: u64,
    /// Accumulated rotation about the vertical axis, in milliradians.
    /// Wraps at the integer width, as the underlying rotation
    /// representation wraps at a full turn.
    pub angle: u64,
}

/// A material parameter block: the uniform data bound to a renderable's
/// shader.
#[derive(Clone, Copy, PartialEq, Eq, Structural, Debug)]
pub struct MaterialBlock {
    /// Stable handle, unique within the store.
    pub handle: u64,
    /// The shader's time uniform: total elapsed milliseconds since start.
    pub time: u64,
    /// Whether the material renders in blend (transparent) mode.
    pub blend: bool,
}

/// The mathematical view of a `Scene`.
#[verifier::ext_equal]
pub struct SceneModel {
    pub active: Seq<ShapeEntity>,
    pub materials: Seq<MaterialBlock>,
    pub next_entity: u64,
    pub next_handle: u64,
}

/// The scene: every entity tagged as the active renderable, every live
/// material parameter block, and the counters that keep identifiers fresh.
pub struct Scene {
    pub active: Vec<ShapeEntity>,
    pub materials: Vec<MaterialBlock>,
    pub next_entity: u64,
    pub next_handle: u64,
}

impl View for Scene {
    type V = SceneModel;

    open spec fn view(&self) -> SceneModel {
        SceneModel {
            active: self.active@,
            materials: self.materials@,
            next_entity: self.next_entity,
            next_handle: self.next_handle,
        }
    }
}

/// Whether `handle` names a live block of the store.
pub open spec fn has_material(m: SceneModel, handle: u64) -> bool {
    exists|j: int| 0 <= j < m.materials.len() && (#[trigger] m.materials[j]).handle == handle
}

/// Well-formedness of a scene: identifiers are below the counters and
/// unique, only implemented shapes are spawned, and every active
/// renderable owns a live material block.
pub open spec fn wf_scene(m: SceneModel) -> bool {
    &&& (forall|i: int| 0 <= i < m.active.len() ==> (#[trigger] m.active[i]).id < m.next_entity)
    &&& (forall|i: int|
        0 <= i < m.active.len() ==> implemented((#[trigger] m.active[i]).shape))
    &&& (forall|i: int, j: int|
        0 <= i < m.active.len() && 0 <= j < m.active.len() && i != j ==> (#[trigger] m.active[i]).id
            != (#[trigger] m.active[j]).id)
    &&& (forall|i: int|
        0 <= i < m.materials.len() ==> (#[trigger] m.materials[i]).handle < m.next_handle)
    &&& (forall|i: int, j: int|
        0 <= i < m.materials.len() && 0 <= j < m.materials.len() && i != j ==> (
        #[trigger] m.materials[i]).handle != (#[trigger] m.materials[j]).handle)
    &&& (forall|i: int|
        0 <= i < m.active.len() ==> has_material(m, (#[trigger] m.active[i]).material))
}

/// Exactly one active renderable exists and it displays `shape`.
pub open spec fn displays(m: SceneModel, shape: ShapeId) -> bool {
    m.active.len() == 1 && m.active[0].shape == shape
}

/// The scene before anything is spawned.
pub open spec fn empty_scene() -> SceneModel {
    SceneModel { active: Seq::empty(), materials: Seq::empty(), next_entity: 0, next_handle: 0 }
}

/// Allocating one fresh material block: time zero, blend mode on.
pub open spec fn spec_alloc_material(m: SceneModel) -> SceneModel {
    SceneModel {
        materials: m.materials.push(MaterialBlock { handle: m.next_handle, time: 0, blend: true }),
        next_handle: (m.next_handle + 1) as u64,
        ..m
    }
}

/// Spawning one renderable for `shape`, with a freshly allocated material.
pub open spec fn spec_spawn(m: SceneModel, shape: ShapeId) -> SceneModel {
    SceneModel {
        active: m.active.push(
            ShapeEntity { id: m.next_entity, shape, material: m.next_handle, angle: 0 },
        ),
        next_entity: (m.next_entity + 1) as u64,
        ..spec_alloc_material(m)
    }
}

/// Removing every entity tagged as the active renderable. Material blocks
/// stay allocated.
pub open spec fn spec_despawn_active(m: SceneModel) -> SceneModel {
    SceneModel { active: Seq::empty(), ..m }
}

/// What reconciliation does to the scene: nothing while idle or when the
/// pending shape has no generator (the fatal path, on which the host
/// terminates the process), else a full despawn of the old renderable and
/// a spawn of the newly selected one.
pub open spec fn spec_reconcile_scene(m: SceneModel, sel: SelectionState) -> SceneModel {
    if sel.selected == sel.previous {
        m
    } else if !implemented(sel.selected) {
        m
    } else {
        spec_spawn(spec_despawn_active(m), sel.selected)
    }
}

/// What reconciliation does to the selection: a completed swap records
/// `previous = selected`; the idle and fatal paths leave it unchanged.
pub open spec fn spec_reconcile_selection(sel: SelectionState) -> SelectionState {
    if sel.selected != sel.previous && implemented(sel.selected) {
        SelectionState { previous: sel.selected, selected: sel.selected }
    } else {
        sel
    }
}

/// Which of the three reconciliation paths a selection state takes.
pub open spec fn spec_reconcile_outcome(sel: SelectionState) -> ReconcileOutcome {
    if sel.selected == sel.previous {
        ReconcileOutcome::Idle
    } else if !implemented(sel.selected) {
        ReconcileOutcome::FatalUnimplemented
    } else {
        ReconcileOutcome::Swapped
    }
}

/// Setting every live material block's time uniform to `elapsed`
/// milliseconds — including blocks no longer attached to any renderable.
pub open spec fn spec_set_material_times(m: SceneModel, elapsed: u64) -> SceneModel {
    SceneModel {
        materials: m.materials.map_values(
            |b: MaterialBlock| MaterialBlock { time: elapsed, ..b },
        ),
        ..m
    }
}

/// Rotating every active renderable by `dt` milliradians (the angular rate
/// is one radian per second), wrapping at the integer width.
pub open spec fn spec_spin(m: SceneModel, dt: u64) -> SceneModel {
    SceneModel {
        active: m.active.map_values(
            |e: ShapeEntity| ShapeEntity { angle: e.angle.wrapping_add(dt), ..e },
        ),
        ..m
    }
}

/// The result of one reconciliation pass.
#[derive(Clone, Copy, PartialEq, Eq, Structural, Debug)]
pub enum ReconcileOutcome {
    /// `selected == previous`: no despawn and no spawn occurred.
    Idle,
    /// The old renderable was despawned and one for the new selection
    /// spawned.
    Swapped,
    /// The pending selection has no geometry generator. The scene and the
    /// selection are untouched; the caller must treat this as fatal and
    /// terminate, as the demo does for `Pyramid`.
    FatalUnimplemented,
}

impl Scene {
    /// A scene with nothing spawned.
    pub fn new() -> (s: Scene)
        ensures
            s@ == empty_scene(),
            wf_scene(s@),
    {
        let s = Scene { active: Vec::new(), materials: Vec::new(), next_entity: 0, next_handle: 0 };
        proof {
            assert(s@ =~= empty_scene());
        }
        s
    }

    /// The scene as setup leaves it: the default cube already spawned.
    pub fn initial() -> (s: Scene)
        ensures
            s@ == spec_spawn(empty_scene(), ShapeId::Cube),
            wf_scene(s@),
            displays(s@, ShapeId::Cube),
    {
        let mut s = Scene::new();
        s.spawn_shape(ShapeId::Cube);
        s
    }

    /// Allocates a fresh material parameter block — time zero, blend mode
    /// on — and returns its handle.
    pub fn alloc_material(&mut self) -> (h: u64)
        requires
            old(self)@.next_handle < u64::MAX,
        ensures
            final(self)@ == spec_alloc_material(old(self)@),
            h == old(self)@.next_handle,
            wf_scene(old(self)@) ==> wf_scene(final(self)@),
    {
        let h = self.next_handle;
        self.materials.push(MaterialBlock { handle: h, time: 0, blend: true });
        self.next_handle = self.next_handle + 1;
        proof {
            assert(self@ =~= spec_alloc_material(old(self)@));
            if wf_scene(old(self)@) {
                assert forall|i: int|
                    0 <= i < self@.active.len() implies has_material(
                    self@,
                    (#[trigger] self@.active[i]).material,
                ) by {
                    let m0 = old(self)@;
                    assert(has_material(m0, m0.active[i].material));
                    let j = choose|j: int|
                        0 <= j < m0.materials.len() && (#[trigger] m0.materials[j]).handle
                            == m0.active[i].material;
                    assert(self@.materials[j].handle == self@.active[i].material);
                }
            }
        }
        h
    }

    /// Spawns one renderable for `shape`, tagged active, with a freshly
    /// allocated material block.
    pub fn spawn_shape(&mut self, shape: ShapeId)
        requires
            old(self)@.next_entity < u64::MAX,
            old(self)@.next_handle < u64::MAX,
            implemented(shape),
        ensures
            final(self)@ == spec_spawn(old(self)@, shape),
            wf_scene(old(self)@) ==> wf_scene(final(self)@),
    {
        let id = self.next_entity;
        let h = self.alloc_material();
        self.active.push(ShapeEntity { id, shape, material: h, angle: 0 });
        self.next_entity = self.next_entity + 1;
        proof {
            assert(self@ =~= spec_spawn(old(self)@, shape));
            if wf_scene(old(self)@) {
                let m0 = old(self)@;
                let m1 = self@;
                let n = m1.active.len() - 1;
                assert forall|i: int|
                    0 <= i < m1.active.len() implies has_material(
                    m1,
                    (#[trigger] m1.active[i]).material,
                ) by {
                    if i < n {
                        assert(has_material(m0, m0.active[i].material));
                        let j = choose|j: int|
                            0 <= j < m0.materials.len() && (#[trigger] m0.materials[j]).handle
                                == m0.active[i].material;
                        assert(m1.materials[j].handle == m1.active[i].material);
                    } else {
                        assert(m1.materials[m1.materials.len() - 1].handle
                            == m1.active[i].material);
                    }
                }
            }
        }
    }

    /// Removes every entity tagged as the active renderable. Their
    /// material blocks stay in the store.
    pub fn despawn_active(&mut self)
        ensures
            final(self)@ == spec_despawn_active(old(self)@),
            wf_scene(old(self)@) ==> wf_scene(final(self)@),
    {
        self.active.clear();
        proof {
            assert(self@ =~= spec_despawn_active(old(self)@));
        }
    }

    /// One reconciliation pass: brings the displayed shape into agreement
    /// with the last requested selection. While `selected == previous`
    /// nothing happens; a pending implemented selection despawns the old
    /// renderable and spawns exactly one new one; a pending `Pyramid`
    /// changes nothing and reports the fatal outcome for the caller to
    /// act on.
    pub fn reconcile(&mut self, sel: &mut SelectionState) -> (out: ReconcileOutcome)
        requires
            old(self)@.next_entity < u64::MAX,
            old(self)@.next_handle < u64::MAX,
        ensures
            final(self)@ == spec_reconcile_scene(old(self)@, *old(sel)),
            *final(sel) == spec_reconcile_selection(*old(sel)),
            out == spec_reconcile_outcome(*old(sel)),
            wf_scene(old(self)@) ==> wf_scene(final(self)@),
    {
        if sel.selected == sel.previous {
            return ReconcileOutcome::Idle;
        }
        if !sel.selected.is_implemented() {
            return ReconcileOutcome::FatalUnimplemented;
        }
        self.despawn_active();
        self.spawn_shape(sel.selected);
        sel.previous = sel.selected;
        ReconcileOutcome::Swapped
    }

    /// The shader-time mutator: sets every live material block's time
    /// uniform — attached or not — to the total elapsed milliseconds.
    pub fn set_material_times(&mut self, elapsed_ms: u64)
        ensures
            final(self)@ == spec_set_material_times(old(self)@, elapsed_ms),
            wf_scene(old(self)@) ==> wf_scene(final(self)@),
    {
        let n = self.materials.len();
        let mut i: usize = 0;
        while i < n
            invariant
                i <= n,
                n == self.materials.len(),
                self.materials@.len() == old(self)@.materials.len(),
                forall|j: int|
                    0 <= j < i ==> self.materials@[j] == (MaterialBlock {
                        time: elapsed_ms,
                        ..old(self)@.materials[j]
                    }),
                forall|j: int| i <= j < n ==> self.materials@[j] == old(self)@.materials[j],
                self.active == old(self).active,
                self.next_entity == old(self).next_entity,
                self.next_handle == old(self).next_handle,
            decreases n - i,
        {
            self.materials[i].time = elapsed_ms;
            i = i + 1;
        }
        proof {
            assert(self@.materials =~= spec_set_material_times(old(self)@, elapsed_ms).materials);
            assert(self@ =~= spec_set_material_times(old(self)@, elapsed_ms));
            if wf_scene(old(self)@) {
                assert forall|i2: int|
                    0 <= i2 < self@.active.len() implies has_material(
                    self@,
                    (#[trigger] self@.active[i2]).material,
                ) by {
                    let m0 = old(self)@;
                    assert(has_material(m0, m0.active[i2].material));
                    let j = choose|j: int|
                        0 <= j < m0.materials.len() && (#[trigger] m0.materials[j]).handle
                            == m0.active[i2].material;
                    assert(self@.materials[j].handle == self@.active[i2].material);
                }
            }
        }
    }

    /// The rotation mutator: turns every active renderable about the
    /// vertical axis by `dt_ms` milliradians (one radian per second of
    /// frame delta), wrapping as the rotation representation does.
    pub fn spin_step(&mut self, dt_ms: u64)
        ensures
            final(self)@ == spec_spin(old(self)@, dt_ms),
            wf_scene(old(self)@) ==> wf_scene(final(self)@),
    {
        let n = self.active.len();
        let mut i: usize = 0;
        while i < n
            invariant
                i <= n,
                n == self.active.len(),
                self.active@.len() == old(self)@.active.len(),
                forall|j: int|
                    0 <= j < i ==> self.active@[j] == (ShapeEntity {
                        angle: old(self)@.active[j].angle.wrapping_add(dt_ms),
                        ..old(self)@.active[j]
                    }),
                forall|j: int| i <= j < n ==> self.active@[j] == old(self)@.active[j],
                self.materials == old(self).materials,
                self.next_entity == old(self).next_entity,
                self.next_handle == old(self).next_handle,
            decreases n - i,
        {
            let cur = self.active[i].angle;
            self.active[i].angle = cur.wrapping_add(dt_ms);
            i = i + 1;
        }
        proof {
            assert(self@.active =~= spec_spin(old(self)@, dt_ms).active);
            assert(self@ =~= spec_spin(old(self)@, dt_ms));
            if wf_scene(old(self)@) {
                assert forall|i2: int|
                    0 <= i2 < self@.active.len() implies has_material(
                    self@,
                    (#[trigger] self@.active[i2]).material,
                ) by {
                    let m0 = old(self)@;
                    assert(has_material(m0, m0.active[i2].material));
                    let j = choose|j: int|
                        0 <= j < m0.materials.len() && (#[trigger] m0.materials[j]).handle
                            == m0.active[i2].material;
                    assert(self@.materials[j].handle == self@.active[i2].material);
                }
            }
        }
    }
}

} // verus!
