use vstd::prelude::*;

use crate::keys::{Key, KeyboardMoveable};
use crate::keys::is_held;
use crate::movement::{keyboard_velocity, velocity_spec, MoveSpeed, Velocity};

verus! {

/// Length unit conversion of the physics engine: pixels per world unit.
pub const RAPIER_SCALE: u32 = 20;

/// Distance of each wall from the middle of the arena.
pub const ARENA_HEIGHT: i64 = 15;

/// Distance of each paddle from the middle of the arena.
pub const PLAYER_SPACING: i64 = 20;

/// Speed of a paddle.
pub const PLAYER_SPEED: u32 = 30;

/// Speed of a ball.
pub const BALL_SPEED: u32 = 100;

/// The semantic kind of an entity.
#[derive(Clone, Copy, Debug, PartialEq, Eq, Structural)]
pub enum EntityPrimaryTag {
    Camera,
    Player,
    Ball,
    Wall,
}

/// How the physics engine moves a rigid body.
#[derive(Clone, Copy, Debug, PartialEq, Eq, Structural)]
pub enum BodyKind {
    /// Never moves.
    Static,
    /// Moves with the velocity that it is given, whatever it touches.
    KinematicVelocityBased,
    /// Moved by forces and contacts.
    Dynamic,
}

/// The shape of a collider, sizes in world units.
#[derive(Clone, Copy, Debug, PartialEq, Eq, Structural)]
pub enum Shape {
    Cuboid { size_x: u32, size_y: u32 },
    Ball { diameter: u32 },
}

/// How the friction coefficients of two touching colliders combine.
#[derive(Clone, Copy, Debug, PartialEq, Eq, Structural)]
pub enum CombineRule {
    Average,
    Min,
}

/// A rigid body with its collider and sprite.
#[derive(Clone, Copy, Debug, PartialEq, Eq, Structural)]
pub struct Body {
    pub kind: BodyKind,
    pub x: i64,
    pub y: i64,
    pub linvel: Velocity,
    pub rotation_locked: bool,
    pub dominance: i8,
    pub ccd: bool,
    pub shape: Shape,
    /// Bounce coefficient, in hundredths.
    pub restitution_pct: u32,
    /// Friction coefficient, in hundredths.
    pub friction_pct: u32,
    pub friction_combine: CombineRule,
    /// Grey level of the sprite, in hundredths (0 is black).
    pub shade_pct: u32,
    /// Colour index of the collider's debug outline.
    pub debug_color: u32,
}

/// One entity of the scene: its role tag and the capabilities it carries.
#[derive(Clone, Copy, Debug, PartialEq, Eq, Structural)]
pub struct EntityRecord {
    pub tag: EntityPrimaryTag,
    pub body: Option<Body>,
    pub speed: Option<MoveSpeed>,
    pub binding: Option<KeyboardMoveable>,
}

/// World-wide settings of the physics engine.
#[derive(Clone, Copy, Debug, PartialEq, Eq, Structural)]
pub struct PhysicsConfig {
    pub gravity_x: i64,
    pub gravity_y: i64,
    pub scale: u32,
}

pub open spec fn zero_velocity() -> Velocity {
    Velocity { x: 0, y: 0 }
}

pub open spec fn camera_spec() -> EntityRecord {
    EntityRecord { tag: EntityPrimaryTag::Camera, body: None, speed: None, binding: None }
}

pub open spec fn player_spec(x: i64, motion: KeyboardMoveable) -> EntityRecord {
    EntityRecord {
        tag: EntityPrimaryTag::Player,
        body: Some(
            Body {
                kind: BodyKind::KinematicVelocityBased,
                x,
                y: 0,
                linvel: zero_velocity(),
                rotation_locked: true,
                dominance: 10,
                ccd: false,
                shape: Shape::Cuboid { size_x: 2, size_y: 20 },
                restitution_pct: 100,
                friction_pct: 80,
                friction_combine: CombineRule::Average,
                shade_pct: 0,
                debug_color: 0,
            },
        ),
        speed: Some(MoveSpeed(PLAYER_SPEED)),
        binding: Some(motion),
    }
}

pub open spec fn wall_spec(y: i64) -> EntityRecord {
    EntityRecord {
        tag: EntityPrimaryTag::Wall,
        body: Some(
            Body {
                kind: BodyKind::Static,
                x: 0,
                y,
                linvel: zero_velocity(),
                rotation_locked: false,
                dominance: 0,
                ccd: false,
                shape: Shape::Cuboid { size_x: 80, size_y: 2 },
                restitution_pct: 100,
                friction_pct: 0,
                friction_combine: CombineRule::Average,
                shade_pct: 10,
                debug_color: 0,
            },
        ),
        speed: None,
        binding: None,
    }
}

pub open spec fn ball_spec() -> EntityRecord {
    EntityRecord {
        tag: EntityPrimaryTag::Ball,
        body: Some(
            Body {
                kind: BodyKind::Dynamic,
                x: 0,
                y: 0,
                linvel: Velocity { x: 20, y: 1 },
                rotation_locked: true,
                dominance: 0,
                ccd: true,
                shape: Shape::Ball { diameter: 1 },
                restitution_pct: 100,
                friction_pct: 50,
                friction_combine: CombineRule::Min,
                shade_pct: 100,
                debug_color: 1,
            },
        ),
        speed: Some(MoveSpeed(BALL_SPEED)),
        binding: None,
    }
}

pub open spec fn physics_config_spec() -> PhysicsConfig {
    PhysicsConfig { gravity_x: 0, gravity_y: 0, scale: RAPIER_SCALE }
}

/// An entity after one tick of keyboard movement: an entity that carries a
/// speed, a key binding and a body gets the velocity of its keys; any other
/// entity is left as it is.
pub open spec fn moved_spec(e: EntityRecord, held: Seq<Key>) -> EntityRecord {
    match (e.body, e.speed, e.binding) {
        (Some(b), Some(sp), Some(k)) => {
            let v = velocity_spec(held.contains(k.up), held.contains(k.down), sp.0 as int);
            EntityRecord {
                body: Some(Body { linvel: Velocity { x: v.0 as i64, y: v.1 as i64 }, ..b }),
                ..e
            }
        },
        _ => e,
    }
}

/// One line of a position dump: which entity, and its tag.
#[derive(Clone, Copy, Debug, PartialEq, Eq, Structural)]
pub struct DumpLine {
    pub index: usize,
    pub tag: EntityPrimaryTag,
}

/// The lines of a position dump: one per tagged entity, in creation order.
pub open spec fn dump_spec(entities: Seq<EntityRecord>) -> Seq<DumpLine> {
    Seq::new(entities.len(), |i: int| DumpLine { index: i as usize, tag: entities[i].tag })
}

/// The scene: every entity, in creation order, and the physics settings.
pub struct World {
    pub entities: Vec<EntityRecord>,
    pub config: Option<PhysicsConfig>,
}

fn camera() -> (r: EntityRecord)
    ensures
        r == camera_spec(),
{
    EntityRecord { tag: EntityPrimaryTag::Camera, body: None, speed: None, binding: None }
}

fn player(x: i64, motion: KeyboardMoveable) -> (r: EntityRecord)
    ensures
        r == player_spec(x, motion),
{
    EntityRecord {
        tag: EntityPrimaryTag::Player,
        body: Some(
            Body {
                kind: BodyKind::KinematicVelocityBased,
                x,
                y: 0,
                linvel: Velocity { x: 0, y: 0 },
                rotation_locked: true,
                dominance: 10,
                ccd: false,
                shape: Shape::Cuboid { size_x: 2, size_y: 20 },
                restitution_pct: 100,
                friction_pct: 80,
                friction_combine: CombineRule::Average,
                shade_pct: 0,
                debug_color: 0,
            },
        ),
        speed: Some(MoveSpeed(PLAYER_SPEED)),
        binding: Some(motion),
    }
}

fn wall(y: i64) -> (r: EntityRecord)
    ensures
        r == wall_spec(y),
{
    EntityRecord {
        tag: EntityPrimaryTag::Wall,
        body: Some(
            Body {
                kind: BodyKind::Static,
                x: 0,
                y,
                linvel: Velocity { x: 0, y: 0 },
                rotation_locked: false,
                dominance: 0,
                ccd: false,
                shape: Shape::Cuboid { size_x: 80, size_y: 2 },
                restitution_pct: 100,
                friction_pct: 0,
                friction_combine: CombineRule::Average,
                shade_pct: 10,
                debug_color: 0,
            },
        ),
        speed: None,
        binding: None,
    }
}

fn ball() -> (r: EntityRecord)
    ensures
        r == ball_spec(),
{
    EntityRecord {
        tag: EntityPrimaryTag::Ball,
        body: Some(
            Body {
                kind: BodyKind::Dynamic,
                x: 0,
                y: 0,
                linvel: Velocity { x: 20, y: 1 },
                rotation_locked: true,
                dominance: 0,
                ccd: true,
                shape: Shape::Ball { diameter: 1 },
                restitution_pct: 100,
                friction_pct: 50,
                friction_combine: CombineRule::Min,
                shade_pct: 100,
                debug_color: 1,
            },
        ),
        speed: Some(MoveSpeed(BALL_SPEED)),
        binding: None,
    }
}

/// An entity after one tick of keyboard movement.
fn moved(e: EntityRecord, held: &Vec<Key>) -> (r: EntityRecord)
    ensures
        r == moved_spec(e, held@),
{
    match (e.body, e.speed, e.binding) {
        (Some(b), Some(sp), Some(k)) => {
            let v = keyboard_velocity(k, sp, held);
            EntityRecord { body: Some(Body { linvel: v, ..b }), ..e }
        },
        _ => e,
    }
}

impl World {
    /// An empty scene with the engine's default settings.
    pub fn new() -> (r: World)
        ensures
            r.entities@ == Seq::<EntityRecord>::empty(),
            r.config == None::<PhysicsConfig>,
    {
        World { entities: Vec::new(), config: None }
    }

    /// Turns gravity off, sets the engine's scale, and adds the camera.
    pub fn spawn_camera(&mut self)
        ensures
            final(self).entities@ == old(self).entities@.push(camera_spec()),
            final(self).config == Some(physics_config_spec()),
    {
        self.config = Some(PhysicsConfig { gravity_x: 0, gravity_y: 0, scale: RAPIER_SCALE });
        self.entities.push(camera());
    }

    /// The scene at startup: the camera, the two paddles, the ball and the
    /// two walls, in that order, with gravity off.
    pub fn setup() -> (r: World)
        ensures
            r.entities@ == startup_spec(),
            r.config == Some(physics_config_spec()),
    {
        let mut w = World::new();
        w.spawn_camera();
        w.spawn_players();
        w.spawn_ball();
        w.spawn_walls();
        assert(w.entities@ =~= startup_spec());
        w
    }

    /// Adds a paddle at horizontal offset `x`, driven by `motion`.
    pub fn spawn_player(&mut self, x: i64, motion: KeyboardMoveable)
        ensures
            final(self).entities@ == old(self).entities@.push(player_spec(x, motion)),
            final(self).config == old(self).config,
    {
        self.entities.push(player(x, motion));
    }

    /// Adds the two paddles: W and S on the left, the up and down arrows on the right.
    pub fn spawn_players(&mut self)
        ensures
            final(self).entities@ == old(self).entities@.push(
                player_spec((-PLAYER_SPACING) as i64, KeyboardMoveable { up: Key::W, down: Key::S }),
            ).push(player_spec(PLAYER_SPACING, KeyboardMoveable { up: Key::Up, down: Key::Down })),
            final(self).config == old(self).config,
    {
        self.spawn_player(-PLAYER_SPACING, KeyboardMoveable { up: Key::W, down: Key::S });
        self.spawn_player(PLAYER_SPACING, KeyboardMoveable { up: Key::Up, down: Key::Down });
    }

    /// Adds a static wall at height `y`.
    pub fn spawn_wall(&mut self, y: i64)
        ensures
            final(self).entities@ == old(self).entities@.push(wall_spec(y)),
            final(self).config == old(self).config,
    {
        self.entities.push(wall(y));
    }

    /// Adds the walls below and above the arena.
    pub fn spawn_walls(&mut self)
        ensures
            final(self).entities@ == old(self).entities@.push(wall_spec((-ARENA_HEIGHT) as i64)).push(
                wall_spec(ARENA_HEIGHT),
            ),
            final(self).config == old(self).config,
    {
        self.spawn_wall(-ARENA_HEIGHT);
        self.spawn_wall(ARENA_HEIGHT);
    }

    /// Adds a ball in the middle of the arena.
    pub fn spawn_ball(&mut self)
        ensures
            final(self).entities@ == old(self).entities@.push(ball_spec()),
            final(self).config == old(self).config,
    {
        self.entities.push(ball());
    }

    /// Adds one more ball on the frame in which its trigger key went down.
    pub fn spawn_another_ball(&mut self, just_pressed: bool)
        ensures
            final(self).entities@ == spawn_trigger_spec(old(self).entities@, just_pressed),
            final(self).config == old(self).config,
    {
        if just_pressed {
            self.spawn_ball();
        }
    }

    /// Sets the velocity of every entity that carries a speed, a key binding
    /// and a body from the keys held; leaves every other entity as it is.
    pub fn keyboard_movement(&mut self, held: &Vec<Key>)
        ensures
            final(self).entities@.len() == old(self).entities@.len(),
            forall|i: int|
                0 <= i < old(self).entities@.len() ==> #[trigger] final(self).entities@[i]
                    == moved_spec(old(self).entities@[i], held@),
            final(self).config == old(self).config,
    {
        let n = self.entities.len();
        let mut i: usize = 0;
        while i < n
            invariant
                n == old(self).entities@.len(),
                self.entities@.len() == n,
                i <= n,
                self.config == old(self).config,
                forall|j: int|
                    0 <= j < i ==> #[trigger] self.entities@[j] == moved_spec(
                        old(self).entities@[j],
                        held@,
                    ),
                forall|j: int| i <= j < n ==> #[trigger] self.entities@[j] == old(self).entities@[j],
            decreases n - i,
        {
            let e = moved(self.entities[i], held);
            self.entities.set(i, e);
            i = i + 1;
        }
    }

    /// The position dump: one line per entity, in creation order, on a frame
    /// in which X is held; nothing otherwise.
    pub fn print_positions(&self, held: &Vec<Key>) -> (r: Option<Vec<DumpLine>>)
        ensures
            held@.contains(Key::X) ==> (r matches Some(lines) && lines@ == dump_spec(self.entities@)),
            !held@.contains(Key::X) ==> r == None::<Vec<DumpLine>>,
    {
        if !is_held(held, Key::X) {
            return None;
        }
        let mut lines: Vec<DumpLine> = Vec::new();
        let mut i: usize = 0;
        while i < self.entities.len()
            invariant
                i <= self.entities@.len(),
                lines@ == dump_spec(self.entities@).take(i as int),
            decreases self.entities@.len() - i,
        {
            lines.push(DumpLine { index: i, tag: self.entities[i].tag });
            assert(lines@ =~= dump_spec(self.entities@).take(i + 1));
            i = i + 1;
        }
        assert(lines@ =~= dump_spec(self.entities@));
        Some(lines)
    }
}

/// The entities after a frame of the ball trigger: one more ball when it was pressed.
pub open spec fn spawn_trigger_spec(entities: Seq<EntityRecord>, pressed: bool) -> Seq<
    EntityRecord,
> {
    if pressed {
        entities.push(ball_spec())
    } else {
        entities
    }
}

/// The entities of the scene at startup, in creation order.
pub open spec fn startup_spec() -> Seq<EntityRecord> {
    seq![
        camera_spec(),
        player_spec((-PLAYER_SPACING) as i64, KeyboardMoveable { up: Key::W, down: Key::S }),
        player_spec(PLAYER_SPACING, KeyboardMoveable { up: Key::Up, down: Key::Down }),
        ball_spec(),
        wall_spec((-ARENA_HEIGHT) as i64),
        wall_spec(ARENA_HEIGHT),
    ]
}

/// How many frames of `presses` had the ball trigger pressed.
pub open spec fn count_pressed(presses: Seq<bool>) -> nat
    decreases presses.len(),
{
    if presses.len() == 0 {
        0
    } else {
        count_pressed(presses.drop_last()) + if presses.last() {
            1nat
        } else {
            0nat
        }
    }
}

/// The entities after one frame of the ball trigger per element of `presses`.
pub open spec fn after_triggers(entities: Seq<EntityRecord>, presses: Seq<bool>) -> Seq<
    EntityRecord,
>
    decreases presses.len(),
{
    if presses.len() == 0 {
        entities
    } else {
        spawn_trigger_spec(after_triggers(entities, presses.drop_last()), presses.last())
    }
}

/// Over any run of frames, each press of the ball trigger adds exactly one
/// ball after the entities already there, and no entity is removed or changed.
pub proof fn lemma_each_press_adds_one_ball(entities: Seq<EntityRecord>, presses: Seq<bool>)
    ensures
        after_triggers(entities, presses).len() == entities.len() + count_pressed(presses),
        after_triggers(entities, presses).subrange(0, entities.len() as int) == entities,
        forall|i: int|
            entities.len() <= i < after_triggers(entities, presses).len() ==> #[trigger] after_triggers(
                entities,
                presses,
            )[i] == ball_spec(),
    decreases presses.len(),
{
    if presses.len() > 0 {
        lemma_each_press_adds_one_ball(entities, presses.drop_last());
        let prev = after_triggers(entities, presses.drop_last());
        let r = after_triggers(entities, presses);
        assert(r.subrange(0, entities.len() as int) =~= prev.subrange(0, entities.len() as int));
    } else {
        assert(entities.subrange(0, entities.len() as int) =~= entities);
    }
}

} // verus!
