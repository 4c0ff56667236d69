//! Where the sandbox puts things: the initial scene and the explosion ring.
//!
//! All these positions and sizes are whole numbers of pixels.

use vstd::prelude::*;

verus! {

/// Number of balls dropped when the sandbox starts.
pub const INITIAL_BALLS: usize = 5;

/// Spacing in pixels between the initial balls.
pub const INITIAL_BALL_SPACING: i64 = 60;

/// Height at which the initial balls start.
pub const INITIAL_BALL_HEIGHT: i64 = 200;

/// Radius of the initial balls.
pub const INITIAL_BALL_RADIUS: i64 = 15;

/// Mass of the initial balls.
pub const INITIAL_BALL_MASS: i64 = 1;

/// Radius of a ball spawned by a click.
pub const CLICK_BALL_RADIUS: i64 = 15;

/// Mass of a ball spawned by a click.
pub const CLICK_BALL_MASS: i64 = 1;

/// Number of balls in one explosion.
pub const EXPLOSION_BALLS: u32 = 20;

/// Distance from the explosion centre of the first ball of the ring.
pub const EXPLOSION_BASE_DISTANCE: u32 = 50;

/// Each further ball of the ring lies this much farther out.
pub const EXPLOSION_DISTANCE_STEP: u32 = 3;

/// Vertical position of the explosion centre (its horizontal position is 0).
pub const EXPLOSION_CENTER_Y: i64 = 100;

/// Radius of the explosion balls.
pub const EXPLOSION_BALL_RADIUS: i64 = 8;

/// An axis-aligned static box, given by its centre and full size.
#[derive(Clone, Copy, Debug, PartialEq, Eq, Structural)]
pub struct BoxLayout {
    pub center_x: i64,
    pub center_y: i64,
    pub width: i64,
    pub height: i64,
}

/// An axis-aligned box collider, given by its half extents.
#[derive(Clone, Copy, Debug, PartialEq, Eq, Structural)]
pub struct BoxCollider {
    pub half_width: i64,
    pub half_height: i64,
}

/// A ball to spawn, given by its centre, radius and mass.
#[derive(Clone, Copy, Debug, PartialEq, Eq, Structural)]
pub struct BallLayout {
    pub x: i64,
    pub y: i64,
    pub radius: i64,
    pub mass: i64,
}

/// The static scenery and the balls of the sandbox at start-up. The ground
/// and each wall carry a box collider (so `C` clears them along with the
/// balls).
pub struct SceneLayout {
    pub ground: BoxLayout,
    pub ground_collider: BoxCollider,
    pub walls: Vec<BoxLayout>,
    pub wall_colliders: Vec<BoxCollider>,
    pub balls: Vec<BallLayout>,
}

/// One ball of the explosion ring: it lies at angle
/// `turn_numerator / turn_denominator` of a full turn and at `distance`
/// pixels from the explosion centre.
#[derive(Clone, Copy, Debug, PartialEq, Eq, Structural)]
pub struct RingSlot {
    pub turn_numerator: u32,
    pub turn_denominator: u32,
    pub distance: u32,
}

/// The ground: 1600 x 40, centred at (0, -300).
pub open spec fn spec_ground() -> BoxLayout {
    BoxLayout { center_x: 0, center_y: -300i64, width: 1600, height: 40 }
}

/// The left and right walls: 20 x 600, centred at (-750, 0) and (750, 0).
pub open spec fn spec_walls() -> Seq<BoxLayout> {
    seq![
        BoxLayout { center_x: -750i64, center_y: 0, width: 20, height: 600 },
        BoxLayout { center_x: 750, center_y: 0, width: 20, height: 600 },
    ]
}

/// The collider of the ground: half extents 800 x 20.
pub open spec fn spec_ground_collider() -> BoxCollider {
    BoxCollider { half_width: 800, half_height: 20 }
}

/// The colliders of the two walls: half extents 10 x 300 each.
pub open spec fn spec_wall_colliders() -> Seq<BoxCollider> {
    seq![
        BoxCollider { half_width: 10, half_height: 300 },
        BoxCollider { half_width: 10, half_height: 300 },
    ]
}

/// `collider` covers exactly `layout`: its half extents are half the box's size.
pub open spec fn collider_fits(layout: BoxLayout, collider: BoxCollider) -> bool {
    2 * collider.half_width == layout.width && 2 * collider.half_height == layout.height
}

/// Initial ball `i` (for `0 <= i < 5`): at ((i - 2) * 60, 200), radius 15, mass 1.
pub open spec fn spec_initial_ball(i: int) -> BallLayout {
    BallLayout {
        x: ((i - 2) * INITIAL_BALL_SPACING) as i64,
        y: INITIAL_BALL_HEIGHT,
        radius: INITIAL_BALL_RADIUS,
        mass: INITIAL_BALL_MASS,
    }
}

/// Ring slot `i` (for `0 <= i < 20`): angle `i / 20` of a turn, at distance
/// `50 + 3 * i`.
pub open spec fn spec_ring_slot(i: int) -> RingSlot {
    RingSlot {
        turn_numerator: i as u32,
        turn_denominator: EXPLOSION_BALLS,
        distance: (EXPLOSION_BASE_DISTANCE + EXPLOSION_DISTANCE_STEP * i) as u32,
    }
}

/// The layout of the sandbox at start-up: the ground and the two walls with
/// their box colliders, and a row of five balls centred on x = 0.
pub fn sandbox_scene() -> (scene: SceneLayout)
    ensures
        scene.ground == spec_ground(),
        scene.ground_collider == spec_ground_collider(),
        scene.walls@ == spec_walls(),
        scene.wall_colliders@ == spec_wall_colliders(),
        scene.balls.len() == INITIAL_BALLS,
        forall|i: int| 0 <= i < INITIAL_BALLS ==> #[trigger] scene.balls[i] == spec_initial_ball(i),
{
    let ground = BoxLayout { center_x: 0, center_y: -300i64, width: 1600, height: 40 };
    let walls = vec![
        BoxLayout { center_x: -750i64, center_y: 0, width: 20, height: 600 },
        BoxLayout { center_x: 750, center_y: 0, width: 20, height: 600 },
    ];
    assert(walls@ =~= spec_walls());
    let ground_collider = BoxCollider { half_width: 800, half_height: 20 };
    let wall_colliders = vec![
        BoxCollider { half_width: 10, half_height: 300 },
        BoxCollider { half_width: 10, half_height: 300 },
    ];
    assert(wall_colliders@ =~= spec_wall_colliders());
    let mut balls: Vec<BallLayout> = Vec::new();
    let mut i: usize = 0;
    while i < INITIAL_BALLS
        invariant
            i <= INITIAL_BALLS,
            balls.len() == i,
            forall|k: int| 0 <= k < i ==> #[trigger] balls[k] == spec_initial_ball(k),
        decreases INITIAL_BALLS - i,
    {
        let offset: i64 = i as i64 - 2;
        balls.push(BallLayout {
            x: offset * INITIAL_BALL_SPACING,
            y: INITIAL_BALL_HEIGHT,
            radius: INITIAL_BALL_RADIUS,
            mass: INITIAL_BALL_MASS,
        });
        i = i + 1;
    }
    SceneLayout { ground, ground_collider, walls, wall_colliders, balls }
}

/// The explosion ring: 20 balls spread evenly over a full turn, each
/// 3 pixels farther from the centre than the one before, starting at 50.
pub fn explosion_ring() -> (ring: Vec<RingSlot>)
    ensures
        ring.len() == EXPLOSION_BALLS,
        forall|i: int| 0 <= i < EXPLOSION_BALLS ==> #[trigger] ring[i] == spec_ring_slot(i),
{
    let mut ring: Vec<RingSlot> = Vec::new();
    let mut i: u32 = 0;
    while i < EXPLOSION_BALLS
        invariant
            i <= EXPLOSION_BALLS,
            ring.len() == i,
            forall|k: int| 0 <= k < i ==> #[trigger] ring[k] == spec_ring_slot(k),
        decreases EXPLOSION_BALLS - i,
    {
        ring.push(RingSlot {
            turn_numerator: i,
            turn_denominator: EXPLOSION_BALLS,
            distance: EXPLOSION_BASE_DISTANCE + EXPLOSION_DISTANCE_STEP * i,
        });
        i = i + 1;
    }
    ring
}

/// Law: the initial balls are spaced evenly and symmetric about x = 0, all
/// at the same height, and none starts inside the ground or a wall.
pub proof fn law_initial_balls_symmetric(i: int)
    requires
        0 <= i < INITIAL_BALLS,
    ensures
        spec_initial_ball(i).x == -spec_initial_ball(4 - i).x,
        i > 0 ==> spec_initial_ball(i).x - spec_initial_ball(i - 1).x == INITIAL_BALL_SPACING,
        spec_initial_ball(i).y - spec_initial_ball(i).radius > spec_ground().center_y
            + spec_ground().height / 2,
        spec_walls()[0].center_x + spec_walls()[0].width / 2 < spec_initial_ball(i).x
            - spec_initial_ball(i).radius,
        spec_initial_ball(i).x + spec_initial_ball(i).radius < spec_walls()[1].center_x
            - spec_walls()[1].width / 2,
{
}

/// Law: the explosion ring's distances strictly increase from slot to slot.
pub proof fn law_explosion_ring_spreads_out(i: int, j: int)
    requires
        0 <= i < j < EXPLOSION_BALLS,
    ensures
        spec_ring_slot(i).distance < spec_ring_slot(j).distance,
{
}

/// Law: every ball of the explosion ring, slot 0 included, starts between
/// the walls and above the ground.
pub proof fn law_explosion_ring_inside_arena(k: int)
    requires
        0 <= k < EXPLOSION_BALLS,
    ensures
        spec_ring_slot(k).distance + EXPLOSION_BALL_RADIUS < spec_walls()[1].center_x
            - spec_walls()[1].width / 2,
        -(spec_ring_slot(k).distance + EXPLOSION_BALL_RADIUS) > spec_walls()[0].center_x
            + spec_walls()[0].width / 2,
        EXPLOSION_CENTER_Y - spec_ring_slot(k).distance - EXPLOSION_BALL_RADIUS > spec_ground().center_y
            + spec_ground().height / 2,
{
}

/// Law: the ground's and each wall's collider covers exactly its box.
pub proof fn law_static_colliders_cover_boxes(k: int)
    requires
        0 <= k < 2,
    ensures
        collider_fits(spec_ground(), spec_ground_collider()),
        collider_fits(spec_walls()[k], spec_wall_colliders()[k]),
{
}

/// Law: the arena is a 1600 x 40 ground centred at (0, -300) between two
/// 20 x 600 walls centred at (-750, 0) and (750, 0), and every initial ball
/// starts at height 200 with radius 15 and mass 1.
pub proof fn law_arena_and_initial_balls(i: int)
    requires
        0 <= i < INITIAL_BALLS,
    ensures
        spec_ground() == (BoxLayout { center_x: 0, center_y: -300i64, width: 1600, height: 40 }),
        spec_walls().len() == 2,
        spec_walls()[0] == (BoxLayout { center_x: -750i64, center_y: 0, width: 20, height: 600 }),
        spec_walls()[1] == (BoxLayout { center_x: 750, center_y: 0, width: 20, height: 600 }),
        spec_wall_colliders().len() == 2,
        spec_initial_ball(i).x == 60 * i - 120,
        spec_initial_ball(i).y == 200,
        spec_initial_ball(i).radius == 15,
        spec_initial_ball(i).mass == 1,
{
}

/// Law: ring slot `k` lies `k` twentieths of a turn round and `50 + 3 k`
/// pixels out, so the twenty slots cover the full turn evenly.
pub proof fn law_ring_slot_position(k: int)
    requires
        0 <= k < 20,
    ensures
        EXPLOSION_BALLS == 20,
        spec_ring_slot(k).turn_numerator == k,
        spec_ring_slot(k).turn_denominator == 20,
        spec_ring_slot(k).distance == 50 + 3 * k,
{
}

} // verus!
