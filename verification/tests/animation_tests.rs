use bevy_ecs::entity::Entity;
use tween_core::animation::{Animation, Setting, Value};
use tween_core::ease::EaseType;
use tween_core::interp::{lerp_i64, Interpolate};
use tween_core::properties::{Angle, FillColor, Opacity, PathCompletion, Position, Size, StrokeColor};
use tween_core::PROGRESS_ONE;

fn entity(index: u32) -> Entity {
    Entity::from_raw_u32(index).unwrap()
}

#[test]
fn lerp_midpoint_and_endpoints() {
    assert_eq!(lerp_i64(0, 1000, 0), 0);
    assert_eq!(lerp_i64(0, 1000, 500), 500);
    assert_eq!(lerp_i64(0, 1000, PROGRESS_ONE), 1000);
}

#[test]
fn lerp_extrapolates_and_truncates_toward_zero() {
    // beyond full progress the law extrapolates linearly
    assert_eq!(lerp_i64(0, 1000, 2000), 2000);
    // rounding is toward zero on both signs of the difference
    assert_eq!(lerp_i64(0, 10, 501), 5);
    assert_eq!(lerp_i64(10, 0, 501), 5);
    // a decreasing coordinate interpolates exactly as an increasing one
    assert_eq!(lerp_i64(1000, 0, 500), 500);
}

#[test]
fn interp_identity_when_begin_equals_end() {
    let v = Position { x: 37, y: -12 };
    for p in [0i64, 1, 499, PROGRESS_ONE, 5000] {
        assert_eq!(v.interp(&v, p), v);
    }
    let c = StrokeColor { red: 9, green: 8, blue: 7, alpha: 6 };
    assert_eq!(c.interp(&c, 500), c);
    let o = Opacity { value: 250 };
    assert_eq!(o.interp(&o, 750), o);
}

#[test]
fn interp_each_property_type_hits_endpoints() {
    let p = PROGRESS_ONE;
    assert_eq!(
        (FillColor { red: 0, green: 0, blue: 0, alpha: 0 }).interp(
            &FillColor { red: 100, green: 200, blue: 300, alpha: 400 },
            p
        ),
        FillColor { red: 100, green: 200, blue: 300, alpha: 400 }
    );
    assert_eq!((Angle { value: -500 }).interp(&Angle { value: 500 }, 500), Angle { value: 0 });
    assert_eq!(
        (Size { width: 10, height: 20 }).interp(&Size { width: 30, height: 40 }, 0),
        Size { width: 10, height: 20 }
    );
    assert_eq!(
        (PathCompletion { value: 0 }).interp(&PathCompletion { value: 1000 }, 250),
        PathCompletion { value: 250 }
    );
}

#[test]
fn to_defaults() {
    let a = Animation::to(Opacity { value: 500 });
    assert_eq!(a.begin, None);
    assert_eq!(a.end, Value::Absolute(Opacity { value: 500 }));
    assert_eq!(a.duration, Setting::Defaulted(3000));
    assert_eq!(a.start_time, Setting::Defaulted(0));
    assert_eq!(a.rate_func, Setting::Defaulted(EaseType::Quint));
}

#[test]
fn to_target_and_by_defaults() {
    let b = entity(7);
    let a = Animation::<Position>::to_target(b);
    assert_eq!(a.end, Value::From(b));
    assert_eq!(a.duration, Setting::Defaulted(1000));
    assert_eq!(a.rate_func, Setting::Defaulted(EaseType::Linear));
    let d = Animation::by_delta(Position { x: 5, y: 5 });
    assert_eq!(d.end, Value::Relative(Position { x: 5, y: 5 }));
    assert_eq!(d.duration, Setting::Defaulted(1000));
    assert_eq!(d.rate_func, Setting::Defaulted(EaseType::Linear));
}

#[test]
fn first_update_arms_without_touching_property() {
    let mut a = Animation::to(Position { x: 100, y: 200 });
    let mut p = Position { x: 3, y: 4 };
    a.update(&mut p, 777);
    assert_eq!(p, Position { x: 3, y: 4 });
    assert_eq!(a.begin, Some(Position { x: 3, y: 4 }));
}

#[test]
fn second_update_at_full_progress_reaches_target_exactly() {
    let mut a = Animation::to(Position { x: 100, y: 200 });
    let mut p = Position { x: 3, y: 4 };
    a.update(&mut p, 0);
    a.update(&mut p, PROGRESS_ONE);
    assert_eq!(p, Position { x: 100, y: 200 });
}

#[test]
fn relative_animation_arms_converts_then_moves() {
    let mut a = Animation::by_delta(Position { x: 10, y: -10 });
    let mut p = Position { x: 100, y: 100 };
    // update #1 arms; the property is untouched
    a.update(&mut p, 300);
    assert_eq!(p, Position { x: 100, y: 100 });
    assert_eq!(a.begin, Some(Position { x: 100, y: 100 }));
    // update #2 converts the delta to an absolute end; still untouched
    a.update(&mut p, 300);
    assert_eq!(p, Position { x: 100, y: 100 });
    assert_eq!(a.end, Value::Absolute(Position { x: 110, y: 90 }));
    // further updates interpolate
    a.update(&mut p, PROGRESS_ONE);
    assert_eq!(p, Position { x: 110, y: 90 });
    let mut q = p;
    a.update(&mut q, 0);
    assert_eq!(q, Position { x: 100, y: 100 });
}

#[test]
fn update_position_behaves_like_update() {
    let mut a = Animation::to(Position { x: 10, y: 0 });
    let mut b = a;
    let mut p = Position { x: 0, y: 0 };
    let mut q = Position { x: 0, y: 0 };
    a.update(&mut p, 0);
    a.update(&mut p, 500);
    b.update_position(&mut q, 0);
    b.update_position(&mut q, 500);
    assert_eq!(p, q);
    assert_eq!(p, Position { x: 5, y: 0 });
}

#[test]
fn fluent_setters_lock_fields() {
    let a = Animation::to(Opacity { value: 1 })
        .with_duration(250)
        .with_start_time(50)
        .with_rate_func(EaseType::Sine);
    assert_eq!(a.duration, Setting::Explicit(250));
    assert_eq!(a.start_time, Setting::Explicit(50));
    assert_eq!(a.rate_func, Setting::Explicit(EaseType::Sine));
}

#[test]
fn last_setter_call_wins() {
    let a = Animation::to(Opacity { value: 1 }).with_duration(250).with_duration(400);
    assert_eq!(a.duration, Setting::Explicit(400));
}

#[test]
fn has_target_only_for_from_object_animations() {
    let b = entity(9);
    assert_eq!(Animation::<Position>::to_target(b).has_target(), Some(b));
    assert_eq!(Animation::to(Position { x: 0, y: 0 }).has_target(), None);
    assert_eq!(Animation::by_delta(Position { x: 1, y: 1 }).has_target(), None);
}

#[test]
fn resolve_target_on_non_from_object_is_a_no_op() {
    let mut a = Animation::to(Position { x: 10, y: 20 }).with_duration(77);
    let before = a;
    a.init_from_target(&Position { x: 999, y: 999 });
    assert_eq!(a, before);

    let mut r = Animation::by_delta(Position { x: 1, y: 2 });
    let before_r = r;
    r.init_from_target(&Position { x: 999, y: 999 });
    assert_eq!(r, before_r);
}

#[test]
fn resolve_target_twice_is_a_no_op_the_second_time() {
    let mut a = Animation::<Position>::to_target(entity(3));
    a.init_from_target(&Position { x: 5, y: 6 });
    let after_first = a;
    a.init_from_target(&Position { x: 70, y: 80 });
    assert_eq!(a, after_first);
    assert_eq!(a.end, Value::Absolute(Position { x: 5, y: 6 }));
}

#[test]
fn unresolved_from_object_update_is_a_silent_no_op() {
    let mut a = Animation::<Position>::to_target(entity(4));
    let mut p = Position { x: 1, y: 2 };
    a.update(&mut p, PROGRESS_ONE);
    assert_eq!(p, Position { x: 1, y: 2 });
    assert_eq!(a.begin, None);
}

#[test]
fn target_resolution_end_to_end() {
    let b = entity(11);
    let mut a = Animation::<Position>::to_target(b);
    assert_eq!(a.has_target(), Some(b));
    // the scheduler reads B's current position and resolves
    let mut position_of_b = Position { x: 42, y: 24 };
    a.init_from_target(&position_of_b);
    // B moves later; the animation must not follow
    position_of_b = Position { x: -1, y: -1 };
    let _ = position_of_b;
    let mut p = Position { x: 0, y: 0 };
    a.update(&mut p, 500);
    a.update(&mut p, PROGRESS_ONE);
    assert_eq!(p, Position { x: 42, y: 24 });
}
