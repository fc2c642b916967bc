use perseus::keys::{Key, KeyboardMoveable};
use perseus::movement::{MoveSpeed, Velocity};
use perseus::scene::{
    BodyKind, DumpLine, EntityPrimaryTag, PhysicsConfig, Shape, World, ARENA_HEIGHT,
    PLAYER_SPACING, RAPIER_SCALE,
};

fn tags(w: &World) -> Vec<EntityPrimaryTag> {
    w.entities.iter().map(|e| e.tag).collect()
}

#[test]
fn startup_scene() {
    let w = World::setup();
    assert_eq!(
        tags(&w),
        vec![
            EntityPrimaryTag::Camera,
            EntityPrimaryTag::Player,
            EntityPrimaryTag::Player,
            EntityPrimaryTag::Ball,
            EntityPrimaryTag::Wall,
            EntityPrimaryTag::Wall,
        ]
    );
    assert_eq!(w.config, Some(PhysicsConfig { gravity_x: 0, gravity_y: 0, scale: RAPIER_SCALE }));
    assert_eq!(RAPIER_SCALE, 20);
    assert!(w.entities[0].body.is_none());
    let left = w.entities[1];
    assert_eq!(left.binding, Some(KeyboardMoveable { up: Key::W, down: Key::S }));
    assert_eq!(left.speed, Some(MoveSpeed(30)));
    let lb = left.body.unwrap();
    assert_eq!((lb.x, lb.y), (-PLAYER_SPACING, 0));
    assert_eq!(lb.kind, BodyKind::KinematicVelocityBased);
    assert_eq!(lb.shape, Shape::Cuboid { size_x: 2, size_y: 20 });
    let right = w.entities[2];
    assert_eq!(right.binding, Some(KeyboardMoveable { up: Key::Up, down: Key::Down }));
    assert_eq!(right.body.unwrap().x, 20);
    let ball = w.entities[3].body.unwrap();
    assert_eq!(ball.linvel, Velocity { x: 20, y: 1 });
    assert!(ball.ccd);
    assert_eq!(ball.restitution_pct, 100);
    assert_eq!(w.entities[3].speed, Some(MoveSpeed(100)));
    assert_eq!(w.entities[4].body.unwrap().y, -ARENA_HEIGHT);
    assert_eq!(w.entities[5].body.unwrap().y, 15);
    assert_eq!(w.entities[5].body.unwrap().kind, BodyKind::Static);
}

#[test]
fn keyboard_movement_drives_only_bound_entities() {
    let mut w = World::setup();
    w.keyboard_movement(&vec![Key::W, Key::Down]);
    assert_eq!(w.entities[1].body.unwrap().linvel, Velocity { x: 0, y: 30 });
    assert_eq!(w.entities[2].body.unwrap().linvel, Velocity { x: 0, y: -30 });
    assert_eq!(w.entities[3].body.unwrap().linvel, Velocity { x: 20, y: 1 });
    assert_eq!(w.entities[4].body.unwrap().linvel, Velocity { x: 0, y: 0 });
    w.keyboard_movement(&vec![Key::Up, Key::Down]);
    assert_eq!(w.entities[1].body.unwrap().linvel, Velocity { x: 0, y: 0 });
    assert_eq!(w.entities[2].body.unwrap().linvel, Velocity { x: 0, y: 0 });
    assert_eq!(w.entities.len(), 6);
}

#[test]
fn ball_trigger_pressed_n_times() {
    let mut w = World::setup();
    for pressed in [true, false, true, true, false] {
        w.spawn_another_ball(pressed);
    }
    assert_eq!(w.entities.len(), 9);
    let balls = tags(&w).iter().filter(|t| **t == EntityPrimaryTag::Ball).count();
    assert_eq!(balls, 4);
    for e in &w.entities[6..] {
        assert_eq!(e.tag, EntityPrimaryTag::Ball);
        assert_eq!(e.body.unwrap().kind, BodyKind::Dynamic);
    }
    assert_eq!(tags(&w)[..6], tags(&World::setup())[..]);
}

#[test]
fn dump_three_frames_two_entities() {
    let mut w = World::new();
    w.spawn_camera();
    w.spawn_ball();
    let held = vec![Key::X];
    let mut dumps = Vec::new();
    for _ in 0..3 {
        if let Some(lines) = w.print_positions(&held) {
            dumps.push(lines);
        }
    }
    assert_eq!(dumps.len(), 3);
    for lines in dumps {
        assert_eq!(
            lines,
            vec![
                DumpLine { index: 0, tag: EntityPrimaryTag::Camera },
                DumpLine { index: 1, tag: EntityPrimaryTag::Ball },
            ]
        );
    }
}

#[test]
fn no_dump_without_trigger() {
    let w = World::setup();
    assert_eq!(w.print_positions(&vec![Key::W, Key::Space]), None);
    assert_eq!(w.print_positions(&vec![Key::X]).unwrap().len(), 6);
}

#[test]
fn empty_world() {
    let w = World::new();
    assert!(w.entities.is_empty());
    assert_eq!(w.config, None);
    assert_eq!(w.print_positions(&vec![Key::X]), Some(Vec::new()));
}
