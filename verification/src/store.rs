//! Per-object animation storage.
//!
//! A `PropertyStore<C>` holds, for one property type, every object's ordered
//! queue of pending and active animations.  A queue is created the first
//! time an animation is committed for its object and grown by append only;
//! the store never reorders a queue.  `AnimationWorld` groups the stores of
//! all supported property types.

use vstd::prelude::*;
use bevy_ecs::entity::Entity;
use crate::animation::Animation;
use crate::entity_ref::entity_eq;
use crate::interp::Interpolate;
use crate::properties::{StrokeColor, FillColor, Position, Angle, Size, Opacity, PathCompletion};

verus! {

/// The ordered animation queue of one object for one property type.  New
/// animations are appended, never reordered; retention after completion is
/// the external scheduler's responsibility.
pub struct Animations<C: Interpolate>(pub Vec<Animation<C>>);

/// One object's queue, keyed by the object's identity.
struct StoreEntry<C: Interpolate> {
    entity: Entity,
    animations: Animations<C>,
}

/// Every object's animation queue for one property type.
pub struct PropertyStore<C: Interpolate> {
    entries: Vec<StoreEntry<C>>,
}

impl<C: Interpolate> PropertyStore<C> {
    /// A queue was created for object `e`.
    pub closed spec fn has_entity(self, e: Entity) -> bool {
        exists|i: int| 0 <= i < self.entries@.len() && self.entries@[i].entity == e
    }

    /// The position of object `e`'s queue.
    closed spec fn index_of(self, e: Entity) -> int {
        choose|i: int| 0 <= i < self.entries@.len() && self.entries@[i].entity == e
    }

    /// The queue of animations stored for object `e`, in commit order;
    /// empty while no queue was created for it.
    pub closed spec fn queue_of(self, e: Entity) -> Seq<Animation<C>> {
        if self.has_entity(e) {
            self.entries@[self.index_of(e)].animations.0@
        } else {
            Seq::empty()
        }
    }

    /// Each object owns at most one queue.
    pub closed spec fn wf(self) -> bool {
        forall|i: int, j: int|
            0 <= i < j < self.entries@.len()
                ==> self.entries@[i].entity != self.entries@[j].entity
    }

    /// The queue at position `i` is the one `queue_of` gives for its object.
    proof fn lemma_queue_at(self, i: int)
        requires
            self.wf(),
            0 <= i < self.entries@.len(),
        ensures
            self.has_entity(self.entries@[i].entity),
            self.index_of(self.entries@[i].entity) == i,
            self.queue_of(self.entries@[i].entity) == self.entries@[i].animations.0@,
    {
        let e = self.entries@[i].entity;
        assert(self.has_entity(e));
        let j = self.index_of(e);
        assert(0 <= j < self.entries@.len() && self.entries@[j].entity == e);
    }

    /// An empty store, with an empty queue for every object.
    pub fn new() -> (s: Self)
        ensures
            s.wf(),
            forall|e: Entity| !(#[trigger] s.has_entity(e)),
            forall|e: Entity| #[trigger] s.queue_of(e) == Seq::<Animation<C>>::empty(),
    {
        PropertyStore { entries: Vec::new() }
    }

    /// The position of object `id`'s queue, if one was created.
    fn find(&self, id: &Entity) -> (r: Option<usize>)
        ensures
            match r {
                Some(i) => i < self.entries@.len() && self.entries@[i as int].entity == *id,
                None => forall|k: int|
                    0 <= k < self.entries@.len() ==> self.entries@[k].entity != *id,
            },
    {
        let n = self.entries.len();
        let mut i: usize = 0;
        while i < n
            invariant
                i <= n,
                n == self.entries@.len(),
                forall|k: int| 0 <= k < i ==> self.entries@[k].entity != *id,
            decreases n - i,
        {
            if entity_eq(&self.entries[i].entity, id) {
                return Some(i);
            }
            i = i + 1;
        }
        None
    }

    /// Append `animation` to object `id`'s queue, creating the queue on
    /// first use.  No other object's queue is touched.
    pub fn insert(&mut self, animation: Animation<C>, id: Entity)
        requires
            old(self).wf(),
        ensures
            final(self).wf(),
            final(self).has_entity(id),
            forall|e: Entity|
                e != id ==> #[trigger] final(self).has_entity(e) == old(self).has_entity(e),
            final(self).queue_of(id) == old(self).queue_of(id).push(animation),
            forall|e: Entity|
                e != id ==> #[trigger] final(self).queue_of(e) == old(self).queue_of(e),
    {
        let found = self.find(&id);
        match found {
            Some(i) => {
                let ghost old_entries = self.entries@;
                let mut entry = self.entries.remove(i);
                entry.animations.0.push(animation);
                self.entries.insert(i, entry);
                proof {
                    let n = old_entries.len();
                    assert forall|k: int| 0 <= k < n implies self.entries@[k].entity
                        == old_entries[k].entity && (k != i ==> self.entries@[k]
                        == old_entries[k]) by {
                        assert(self.entries@ == old_entries.remove(i as int).insert(
                            i as int,
                            self.entries@[i as int],
                        ));
                    }
                    assert(self.entries@.len() == n);
                    assert(self.entries@[i as int].animations.0@ == old_entries[i as int]
                        .animations.0@.push(animation));
                    assert(self.wf());
                    old(self).lemma_queue_at(i as int);
                    self.lemma_queue_at(i as int);
                    assert forall|e: Entity| e != id implies #[trigger] self.queue_of(e)
                        == old(self).queue_of(e) by {
                        if old(self).has_entity(e) {
                            let k = old(self).index_of(e);
                            assert(0 <= k < n && old_entries[k].entity == e);
                            old(self).lemma_queue_at(k);
                            self.lemma_queue_at(k);
                            assert(k != i as int);
                        } else {
                            assert(!self.has_entity(e));
                        }
                    }
                }
            }
            None => {
                let mut queue: Vec<Animation<C>> = Vec::new();
                queue.push(animation);
                self.entries.push(StoreEntry { entity: id, animations: Animations(queue) });
                proof {
                    let n = old(self).entries@.len();
                    assert(self.entries@.len() == n + 1);
                    assert(self.entries@[n as int].entity == id);
                    assert forall|k: int| 0 <= k < n implies self.entries@[k]
                        == old(self).entries@[k] by {}
                    assert(self.wf());
                    assert(!old(self).has_entity(id));
                    self.lemma_queue_at(n as int);
                    assert(self.queue_of(id) =~= old(self).queue_of(id).push(animation));
                    assert forall|e: Entity| e != id implies #[trigger] self.queue_of(e)
                        == old(self).queue_of(e) by {
                        if old(self).has_entity(e) {
                            let k = old(self).index_of(e);
                            assert(0 <= k < n && old(self).entries@[k].entity == e);
                            old(self).lemma_queue_at(k);
                            self.lemma_queue_at(k);
                        } else {
                            assert(!self.has_entity(e));
                        }
                    }
                }
            }
        }
    }

    /// How many animations are queued for object `id`.
    pub fn queue_len(&self, id: &Entity) -> (r: usize)
        requires
            self.wf(),
        ensures
            r == self.queue_of(*id).len(),
    {
        let found = self.find(id);
        match found {
            Some(i) => {
                proof {
                    self.lemma_queue_at(i as int);
                }
                self.entries[i].animations.0.len()
            }
            None => {
                proof {
                    assert(!self.has_entity(*id));
                }
                0
            }
        }
    }

    /// Read the animation at position `i` of object `id`'s queue.
    pub fn animation_at(&self, id: &Entity, i: usize) -> (r: Animation<C>)
        requires
            self.wf(),
            i < self.queue_of(*id).len(),
        ensures
            r == self.queue_of(*id)[i as int],
    {
        let found = self.find(id);
        match found {
            Some(k) => {
                proof {
                    self.lemma_queue_at(k as int);
                }
                self.entries[k].animations.0[i]
            }
            None => {
                proof {
                    assert(!self.has_entity(*id));
                    assert(false);
                }
                unreached()
            }
        }
    }
}

/// Append `animation` to object `id`'s queue in `store`, creating the queue
/// on first use.
pub fn insert_animation<C: Interpolate>(
    animation: Animation<C>,
    store: &mut PropertyStore<C>,
    id: Entity,
)
    requires
        old(store).wf(),
    ensures
        final(store).wf(),
        final(store).queue_of(id) == old(store).queue_of(id).push(animation),
        forall|e: Entity|
            e != id ==> #[trigger] final(store).queue_of(e) == old(store).queue_of(e),
{
    store.insert(animation, id)
}

/// The animation stores of all supported property types, one per type.
pub struct AnimationWorld {
    pub stroke_color: PropertyStore<StrokeColor>,
    pub fill_color: PropertyStore<FillColor>,
    pub position: PropertyStore<Position>,
    pub angle: PropertyStore<Angle>,
    pub size: PropertyStore<Size>,
    pub opacity: PropertyStore<Opacity>,
    pub path_completion: PropertyStore<PathCompletion>,
}

impl AnimationWorld {
    /// Every per-type store is well formed.
    pub open spec fn wf(self) -> bool {
        &&& self.stroke_color.wf()
        &&& self.fill_color.wf()
        &&& self.position.wf()
        &&& self.angle.wf()
        &&& self.size.wf()
        &&& self.opacity.wf()
        &&& self.path_completion.wf()
    }

    /// An empty world: no object has any queue yet.
    pub fn new() -> (w: Self)
        ensures
            w.wf(),
            forall|e: Entity| #[trigger] w.stroke_color.queue_of(e)
                == Seq::<Animation<StrokeColor>>::empty(),
            forall|e: Entity| #[trigger] w.fill_color.queue_of(e)
                == Seq::<Animation<FillColor>>::empty(),
            forall|e: Entity| #[trigger] w.position.queue_of(e)
                == Seq::<Animation<Position>>::empty(),
            forall|e: Entity| #[trigger] w.angle.queue_of(e)
                == Seq::<Animation<Angle>>::empty(),
            forall|e: Entity| #[trigger] w.size.queue_of(e)
                == Seq::<Animation<Size>>::empty(),
            forall|e: Entity| #[trigger] w.opacity.queue_of(e)
                == Seq::<Animation<Opacity>>::empty(),
            forall|e: Entity| #[trigger] w.path_completion.queue_of(e)
                == Seq::<Animation<PathCompletion>>::empty(),
    {
        AnimationWorld {
            stroke_color: PropertyStore::new(),
            fill_color: PropertyStore::new(),
            position: PropertyStore::new(),
            angle: PropertyStore::new(),
            size: PropertyStore::new(),
            opacity: PropertyStore::new(),
            path_completion: PropertyStore::new(),
        }
    }
}

} // verus!
