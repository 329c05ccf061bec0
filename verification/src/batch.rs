//! Per-object animation batches and the commit step.
//!
//! A batch groups the animations authored together for one object, possibly
//! of different property types.  It supports one bulk call that fills in
//! still-defaulted timing fields across the whole batch, and a commit step
//! that moves the batch into the object's per-property queues.

use vstd::prelude::*;
use bevy_ecs::entity::Entity;
use crate::animation::Animation;
use crate::ease::EaseType;
use crate::properties::{StrokeColor, FillColor, Position, Angle, Size, Opacity, PathCompletion};
use crate::store::{AnimationWorld, insert_animation};
use crate::variant::AnimationType;

verus! {

/// The stroke-colour animations of `s`, in order.
pub open spec fn stroke_color_animations(s: Seq<AnimationType>) -> Seq<Animation<StrokeColor>>
    decreases s.len(),
{
    if s.len() == 0 {
        Seq::empty()
    } else {
        let rest = stroke_color_animations(s.drop_last());
        match s.last() {
            AnimationType::StrokeColor(a) => rest.push(a),
            _ => rest,
        }
    }
}

/// The fill-colour animations of `s`, in order.
pub open spec fn fill_color_animations(s: Seq<AnimationType>) -> Seq<Animation<FillColor>>
    decreases s.len(),
{
    if s.len() == 0 {
        Seq::empty()
    } else {
        let rest = fill_color_animations(s.drop_last());
        match s.last() {
            AnimationType::FillColor(a) => rest.push(a),
            _ => rest,
        }
    }
}

/// The position animations of `s`, in order.
pub open spec fn position_animations(s: Seq<AnimationType>) -> Seq<Animation<Position>>
    decreases s.len(),
{
    if s.len() == 0 {
        Seq::empty()
    } else {
        let rest = position_animations(s.drop_last());
        match s.last() {
            AnimationType::Position(a) => rest.push(a),
            _ => rest,
        }
    }
}

/// The angle animations of `s`, in order.
pub open spec fn angle_animations(s: Seq<AnimationType>) -> Seq<Animation<Angle>>
    decreases s.len(),
{
    if s.len() == 0 {
        Seq::empty()
    } else {
        let rest = angle_animations(s.drop_last());
        match s.last() {
            AnimationType::Angle(a) => rest.push(a),
            _ => rest,
        }
    }
}

/// The size animations of `s`, in order.
pub open spec fn size_animations(s: Seq<AnimationType>) -> Seq<Animation<Size>>
    decreases s.len(),
{
    if s.len() == 0 {
        Seq::empty()
    } else {
        let rest = size_animations(s.drop_last());
        match s.last() {
            AnimationType::Size(a) => rest.push(a),
            _ => rest,
        }
    }
}

/// The opacity animations of `s`, in order.
pub open spec fn opacity_animations(s: Seq<AnimationType>) -> Seq<Animation<Opacity>>
    decreases s.len(),
{
    if s.len() == 0 {
        Seq::empty()
    } else {
        let rest = opacity_animations(s.drop_last());
        match s.last() {
            AnimationType::Opacity(a) => rest.push(a),
            _ => rest,
        }
    }
}

/// The path-completion animations of `s`, in order.
pub open spec fn path_completion_animations(s: Seq<AnimationType>) -> Seq<Animation<PathCompletion>>
    decreases s.len(),
{
    if s.len() == 0 {
        Seq::empty()
    } else {
        let rest = path_completion_animations(s.drop_last());
        match s.last() {
            AnimationType::PathCompletion(a) => rest.push(a),
            _ => rest,
        }
    }
}

/// Extending a prefix of `s` by one element extends exactly the filtered
/// sequence of that element's property type, by that element's animation.
proof fn lemma_filter_step(s: Seq<AnimationType>, i: int)
    requires
        0 <= i < s.len(),
    ensures
        stroke_color_animations(s.take(i + 1)) == (match s[i] {
            AnimationType::StrokeColor(a) => stroke_color_animations(s.take(i)).push(a),
            _ => stroke_color_animations(s.take(i)),
        }),
        fill_color_animations(s.take(i + 1)) == (match s[i] {
            AnimationType::FillColor(a) => fill_color_animations(s.take(i)).push(a),
            _ => fill_color_animations(s.take(i)),
        }),
        position_animations(s.take(i + 1)) == (match s[i] {
            AnimationType::Position(a) => position_animations(s.take(i)).push(a),
            _ => position_animations(s.take(i)),
        }),
        angle_animations(s.take(i + 1)) == (match s[i] {
            AnimationType::Angle(a) => angle_animations(s.take(i)).push(a),
            _ => angle_animations(s.take(i)),
        }),
        size_animations(s.take(i + 1)) == (match s[i] {
            AnimationType::Size(a) => size_animations(s.take(i)).push(a),
            _ => size_animations(s.take(i)),
        }),
        opacity_animations(s.take(i + 1)) == (match s[i] {
            AnimationType::Opacity(a) => opacity_animations(s.take(i)).push(a),
            _ => opacity_animations(s.take(i)),
        }),
        path_completion_animations(s.take(i + 1)) == (match s[i] {
            AnimationType::PathCompletion(a) => path_completion_animations(s.take(i)).push(a),
            _ => path_completion_animations(s.take(i)),
        }),
{
    assert(s.take(i + 1).drop_last() =~= s.take(i));
    assert(s.take(i + 1).last() == s[i]);
}

/// A batch of animations authored together for one object.  Created with at
/// least one animation and consumed once by the commit step.
#[derive(Clone, Debug)]
pub struct EntityAnimations {
    /// The object the batch animates.
    pub entity: Entity,
    /// The batch's animations, in authoring order; never empty.
    pub animations: Vec<AnimationType>,
}

impl EntityAnimations {
    /// A batch always holds at least one animation.
    pub open spec fn wf(self) -> bool {
        self.animations@.len() > 0
    }

    /// A batch over `entity` holding `animations`.  Non-emptiness is
    /// demanded here, at creation time, so that the start-time accessor is
    /// always answerable.
    pub fn new(entity: Entity, animations: Vec<AnimationType>) -> (b: Self)
        requires
            animations@.len() > 0,
        ensures
            b.entity == entity,
            b.animations == animations,
            b.wf(),
    {
        EntityAnimations { entity, animations }
    }

    /// The start time, in milliseconds, of the batch's first animation —
    /// not the minimum over the batch: callers list the earliest-starting
    /// animation first, and batches are never reordered.
    pub fn start_time(&self) -> (r: i64)
        requires
            self.wf(),
        ensures
            r == self.animations@[0].start_time_setting().value(),
    {
        self.animations[0].start_time_ms()
    }

    /// Bulk timing: overwrite each still-defaulted timing field of every
    /// animation in the batch with the supplied values; explicitly set
    /// fields are left untouched.
    pub fn set_properties(&mut self, start_time: i64, duration: i64, rate_func: EaseType)
        ensures
            final(self).entity == old(self).entity,
            final(self).animations@.len() == old(self).animations@.len(),
            forall|k: int|
                0 <= k < old(self).animations@.len()
                    ==> final(self).animations@[k] == (#[trigger] old(self).animations@[k])
                        .timed_spec(start_time, duration, rate_func),
    {
        let n = self.animations.len();
        let mut i: usize = 0;
        while i < n
            invariant
                n == self.animations@.len(),
                i <= n,
                self.entity == old(self).entity,
                old(self).animations@.len() == n,
                forall|k: int|
                    0 <= k < i ==> self.animations@[k] == (#[trigger] old(self).animations@[k])
                        .timed_spec(start_time, duration, rate_func),
                forall|k: int| i <= k < n ==> self.animations@[k] == old(self).animations@[k],
            decreases n - i,
        {
            let mut a = self.animations[i];
            a.set_timing(start_time, duration, rate_func);
            self.animations.set(i, a);
            i = i + 1;
        }
    }

    /// Commit the batch: append each animation to the owning object's queue
    /// of its property type, creating queues on first use.  Queues of other
    /// objects are left untouched.
    pub fn insert_animation(self, world: &mut AnimationWorld)
        requires
            old(world).wf(),
        ensures
            final(world).wf(),
            final(world).stroke_color.queue_of(self.entity) == old(world).stroke_color.queue_of(
                self.entity,
            ) + stroke_color_animations(self.animations@),
            final(world).fill_color.queue_of(self.entity) == old(world).fill_color.queue_of(
                self.entity,
            ) + fill_color_animations(self.animations@),
            final(world).position.queue_of(self.entity) == old(world).position.queue_of(
                self.entity,
            ) + position_animations(self.animations@),
            final(world).angle.queue_of(self.entity) == old(world).angle.queue_of(self.entity)
                + angle_animations(self.animations@),
            final(world).size.queue_of(self.entity) == old(world).size.queue_of(self.entity)
                + size_animations(self.animations@),
            final(world).opacity.queue_of(self.entity) == old(world).opacity.queue_of(self.entity)
                + opacity_animations(self.animations@),
            final(world).path_completion.queue_of(self.entity) == old(
                world,
            ).path_completion.queue_of(self.entity) + path_completion_animations(self.animations@),
            forall|e: Entity|
                e != self.entity ==> #[trigger] final(world).stroke_color.queue_of(e) == old(
                    world,
                ).stroke_color.queue_of(e),
            forall|e: Entity|
                e != self.entity ==> #[trigger] final(world).fill_color.queue_of(e) == old(
                    world,
                ).fill_color.queue_of(e),
            forall|e: Entity|
                e != self.entity ==> #[trigger] final(world).position.queue_of(e) == old(
                    world,
                ).position.queue_of(e),
            forall|e: Entity|
                e != self.entity ==> #[trigger] final(world).angle.queue_of(e) == old(
                    world,
                ).angle.queue_of(e),
            forall|e: Entity|
                e != self.entity ==> #[trigger] final(world).size.queue_of(e) == old(
                    world,
                ).size.queue_of(e),
            forall|e: Entity|
                e != self.entity ==> #[trigger] final(world).opacity.queue_of(e) == old(
                    world,
                ).opacity.queue_of(e),
            forall|e: Entity|
                e != self.entity ==> #[trigger] final(world).path_completion.queue_of(e) == old(
                    world,
                ).path_completion.queue_of(e),
    {
        let entity = self.entity;
        let n = self.animations.len();
        proof {
            assert(self.animations@.take(0) =~= Seq::<AnimationType>::empty());
            assert(old(world).stroke_color.queue_of(entity) + stroke_color_animations(
                self.animations@.take(0),
            ) =~= old(world).stroke_color.queue_of(entity));
            assert(old(world).fill_color.queue_of(entity) + fill_color_animations(
                self.animations@.take(0),
            ) =~= old(world).fill_color.queue_of(entity));
            assert(old(world).position.queue_of(entity) + position_animations(
                self.animations@.take(0),
            ) =~= old(world).position.queue_of(entity));
            assert(old(world).angle.queue_of(entity) + angle_animations(self.animations@.take(0))
                =~= old(world).angle.queue_of(entity));
            assert(old(world).size.queue_of(entity) + size_animations(self.animations@.take(0))
                =~= old(world).size.queue_of(entity));
            assert(old(world).opacity.queue_of(entity) + opacity_animations(
                self.animations@.take(0),
            ) =~= old(world).opacity.queue_of(entity));
            assert(old(world).path_completion.queue_of(entity) + path_completion_animations(
                self.animations@.take(0),
            ) =~= old(world).path_completion.queue_of(entity));
        }
        let mut i: usize = 0;
        while i < n
            invariant
                world.wf(),
                n == self.animations@.len(),
                i <= n,
                world.stroke_color.queue_of(entity) == old(world).stroke_color.queue_of(entity)
                    + stroke_color_animations(self.animations@.take(i as int)),
                world.fill_color.queue_of(entity) == old(world).fill_color.queue_of(entity)
                    + fill_color_animations(self.animations@.take(i as int)),
                world.position.queue_of(entity) == old(world).position.queue_of(entity)
                    + position_animations(self.animations@.take(i as int)),
                world.angle.queue_of(entity) == old(world).angle.queue_of(entity)
                    + angle_animations(self.animations@.take(i as int)),
                world.size.queue_of(entity) == old(world).size.queue_of(entity)
                    + size_animations(self.animations@.take(i as int)),
                world.opacity.queue_of(entity) == old(world).opacity.queue_of(entity)
                    + opacity_animations(self.animations@.take(i as int)),
                world.path_completion.queue_of(entity) == old(world).path_completion.queue_of(
                    entity,
                ) + path_completion_animations(self.animations@.take(i as int)),
                forall|e: Entity|
                    e != entity ==> #[trigger] world.stroke_color.queue_of(e) == old(
                        world,
                    ).stroke_color.queue_of(e),
                forall|e: Entity|
                    e != entity ==> #[trigger] world.fill_color.queue_of(e) == old(
                        world,
                    ).fill_color.queue_of(e),
                forall|e: Entity|
                    e != entity ==> #[trigger] world.position.queue_of(e) == old(
                        world,
                    ).position.queue_of(e),
                forall|e: Entity|
                    e != entity ==> #[trigger] world.angle.queue_of(e) == old(world).angle.queue_of(
                        e,
                    ),
                forall|e: Entity|
                    e != entity ==> #[trigger] world.size.queue_of(e) == old(world).size.queue_of(
                        e,
                    ),
                forall|e: Entity|
                    e != entity ==> #[trigger] world.opacity.queue_of(e) == old(
                        world,
                    ).opacity.queue_of(e),
                forall|e: Entity|
                    e != entity ==> #[trigger] world.path_completion.queue_of(e) == old(
                        world,
                    ).path_completion.queue_of(e),
            decreases n - i,
        {
            let a = self.animations[i];
            proof {
                lemma_filter_step(self.animations@, i as int);
            }
            match a {
                AnimationType::StrokeColor(animation) => {
                    insert_animation(animation, &mut world.stroke_color, entity);
                    proof {
                        assert(world.stroke_color.queue_of(entity) =~= old(
                            world,
                        ).stroke_color.queue_of(entity) + stroke_color_animations(
                            self.animations@.take(i as int + 1),
                        ));
                    }
                }
                AnimationType::FillColor(animation) => {
                    insert_animation(animation, &mut world.fill_color, entity);
                    proof {
                        assert(world.fill_color.queue_of(entity) =~= old(
                            world,
                        ).fill_color.queue_of(entity) + fill_color_animations(
                            self.animations@.take(i as int + 1),
                        ));
                    }
                }
                AnimationType::Position(animation) => {
                    insert_animation(animation, &mut world.position, entity);
                    proof {
                        assert(world.position.queue_of(entity) =~= old(world).position.queue_of(
                            entity,
                        ) + position_animations(self.animations@.take(i as int + 1)));
                    }
                }
                AnimationType::Angle(animation) => {
                    insert_animation(animation, &mut world.angle, entity);
                    proof {
                        assert(world.angle.queue_of(entity) =~= old(world).angle.queue_of(entity)
                            + angle_animations(self.animations@.take(i as int + 1)));
                    }
                }
                AnimationType::Size(animation) => {
                    insert_animation(animation, &mut world.size, entity);
                    proof {
                        assert(world.size.queue_of(entity) =~= old(world).size.queue_of(entity)
                            + size_animations(self.animations@.take(i as int + 1)));
                    }
                }
                AnimationType::Opacity(animation) => {
                    insert_animation(animation, &mut world.opacity, entity);
                    proof {
                        assert(world.opacity.queue_of(entity) =~= old(world).opacity.queue_of(
                            entity,
                        ) + opacity_animations(self.animations@.take(i as int + 1)));
                    }
                }
                AnimationType::PathCompletion(animation) => {
                    insert_animation(animation, &mut world.path_completion, entity);
                    proof {
                        assert(world.path_completion.queue_of(entity) =~= old(
                            world,
                        ).path_completion.queue_of(entity) + path_completion_animations(
                            self.animations@.take(i as int + 1),
                        ));
                    }
                }
            }
            i = i + 1;
        }
        proof {
            assert(self.animations@.take(n as int) =~= self.animations@);
        }
    }
}

} // verus!
