use bevy_ecs::entity::Entity;
use tween_core::animation::{Animation, Setting};
use tween_core::batch::EntityAnimations;
use tween_core::entity_ref::WithId;
use tween_core::ease::EaseType;
use tween_core::properties::{Opacity, Position, Size, StrokeColor};
use tween_core::store::AnimationWorld;
use tween_core::variant::AnimationType;

fn entity(index: u32) -> Entity {
    Entity::from_raw_u32(index).unwrap()
}

#[test]
fn bulk_timing_fills_every_defaulted_animation_identically() {
    let batch_animations: Vec<AnimationType> = vec![
        Animation::to(Position { x: 1, y: 1 }).into(),
        Animation::to(Opacity { value: 5 }).into(),
        Animation::by_delta(Size { width: 2, height: 2 }).into(),
    ];
    let mut batch = EntityAnimations::new(entity(1), batch_animations);
    batch.set_properties(120, 480, EaseType::Cubic);
    for animation in &batch.animations {
        match animation {
            AnimationType::Position(a) => {
                assert_eq!(a.start_time, Setting::Defaulted(120));
                assert_eq!(a.duration, Setting::Defaulted(480));
                assert_eq!(a.rate_func, Setting::Defaulted(EaseType::Cubic));
            }
            AnimationType::Opacity(a) => {
                assert_eq!(a.start_time, Setting::Defaulted(120));
                assert_eq!(a.duration, Setting::Defaulted(480));
                assert_eq!(a.rate_func, Setting::Defaulted(EaseType::Cubic));
            }
            AnimationType::Size(a) => {
                assert_eq!(a.start_time, Setting::Defaulted(120));
                assert_eq!(a.duration, Setting::Defaulted(480));
                assert_eq!(a.rate_func, Setting::Defaulted(EaseType::Cubic));
            }
            _ => panic!("unexpected variant"),
        }
    }
}

#[test]
fn explicit_fields_survive_bulk_timing() {
    // setter before the bulk call
    let locked: AnimationType =
        Animation::to(Position { x: 1, y: 1 }).with_duration(42).with_rate_func(EaseType::Expo).into();
    // fully defaulted neighbour
    let free: AnimationType = Animation::to(Opacity { value: 5 }).into();
    let mut batch = EntityAnimations::new(entity(2), vec![locked, free]);
    batch.set_properties(700, 900, EaseType::Linear);
    match &batch.animations[0] {
        AnimationType::Position(a) => {
            assert_eq!(a.duration, Setting::Explicit(42));
            assert_eq!(a.rate_func, Setting::Explicit(EaseType::Expo));
            // the field that was never set explicitly is filled in
            assert_eq!(a.start_time, Setting::Defaulted(700));
        }
        _ => panic!("unexpected variant"),
    }
    match &batch.animations[1] {
        AnimationType::Opacity(a) => {
            assert_eq!(a.start_time, Setting::Defaulted(700));
            assert_eq!(a.duration, Setting::Defaulted(900));
            assert_eq!(a.rate_func, Setting::Defaulted(EaseType::Linear));
        }
        _ => panic!("unexpected variant"),
    }
}

#[test]
fn start_time_reads_the_first_animation() {
    let first: AnimationType = Animation::to(Position { x: 1, y: 1 }).with_start_time(250).into();
    let second: AnimationType = Animation::to(Opacity { value: 5 }).with_start_time(975).into();
    let batch = EntityAnimations::new(entity(3), vec![first, second]);
    assert_eq!(batch.start_time(), 250);
}

#[test]
fn commit_creates_queues_and_appends_in_order() {
    let id = entity(4);
    let mut world = AnimationWorld::new();
    let first = Animation::to(Position { x: 1, y: 1 });
    let second = Animation::to(Position { x: 2, y: 2 });
    let stroke = Animation::to(StrokeColor { red: 1, green: 2, blue: 3, alpha: 4 });
    let batch = EntityAnimations::new(id, vec![first.into(), stroke.into(), second.into()]);
    batch.insert_animation(&mut world);

    assert_eq!(world.position.queue_len(&id), 2);
    assert_eq!(world.stroke_color.queue_len(&id), 1);
    assert_eq!(world.opacity.queue_len(&id), 0);
    assert_eq!(world.position.animation_at(&id, 0), first);
    assert_eq!(world.position.animation_at(&id, 1), second);
    assert_eq!(world.stroke_color.animation_at(&id, 0), stroke);
}

#[test]
fn committing_twice_appends_to_the_existing_queue() {
    let id = entity(5);
    let mut world = AnimationWorld::new();
    let first = Animation::to(Opacity { value: 1 });
    let second = Animation::to(Opacity { value: 2 });
    EntityAnimations::new(id, vec![first.into()]).insert_animation(&mut world);
    EntityAnimations::new(id, vec![second.into()]).insert_animation(&mut world);
    assert_eq!(world.opacity.queue_len(&id), 2);
    assert_eq!(world.opacity.animation_at(&id, 0), first);
    assert_eq!(world.opacity.animation_at(&id, 1), second);
}

#[test]
fn commits_for_different_objects_stay_apart() {
    let a = entity(6);
    let b = entity(7);
    let mut world = AnimationWorld::new();
    EntityAnimations::new(a, vec![Animation::to(Opacity { value: 1 }).into()])
        .insert_animation(&mut world);
    EntityAnimations::new(b, vec![
        Animation::to(Opacity { value: 2 }).into(),
        Animation::to(Opacity { value: 3 }).into(),
    ])
    .insert_animation(&mut world);
    assert_eq!(world.opacity.queue_len(&a), 1);
    assert_eq!(world.opacity.queue_len(&b), 2);
    assert_eq!(world.opacity.animation_at(&a, 0), Animation::to(Opacity { value: 1 }));
}

#[test]
fn batch_of_one_commits() {
    let id = entity(8);
    let mut world = AnimationWorld::new();
    let batch = EntityAnimations::new(id, vec![Animation::by_delta(Position { x: 1, y: 0 }).into()]);
    assert_eq!(batch.start_time(), 0);
    batch.insert_animation(&mut world);
    assert_eq!(world.position.queue_len(&id), 1);
}

struct Dot {
    id: Entity,
    position: Position,
}

impl WithId for Dot {
    fn id(&self) -> Entity {
        self.id
    }
}

#[test]
fn with_id_names_the_owning_entity() {
    let dot = Dot { id: entity(21), position: Position { x: 0, y: 0 } };
    let mut world = AnimationWorld::new();
    let batch = EntityAnimations::new(dot.id(), vec![Animation::to(dot.position).into()]);
    batch.insert_animation(&mut world);
    assert_eq!(world.position.queue_len(&dot.id()), 1);
}

#[test]
fn cloning_a_batch_preserves_it() {
    let batch = EntityAnimations::new(entity(22), vec![
        Animation::to(Opacity { value: 9 }).with_duration(70).into(),
    ]);
    let copy = batch.clone();
    assert_eq!(copy.entity, batch.entity);
    assert_eq!(copy.animations, batch.animations);
    assert_eq!(copy.start_time(), 0);
}
