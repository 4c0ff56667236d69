use physics_sandbox::scene::{explosion_ring, sandbox_scene, BallLayout, BoxCollider, BoxLayout, RingSlot};

#[test]
fn ground_and_walls() {
    let s = sandbox_scene();
    assert_eq!(s.ground, BoxLayout { center_x: 0, center_y: -300, width: 1600, height: 40 });
    assert_eq!(
        s.walls,
        vec![
            BoxLayout { center_x: -750, center_y: 0, width: 20, height: 600 },
            BoxLayout { center_x: 750, center_y: 0, width: 20, height: 600 },
        ]
    );
}

#[test]
fn five_balls_in_a_row() {
    let s = sandbox_scene();
    let xs: Vec<i64> = s.balls.iter().map(|b| b.x).collect();
    assert_eq!(xs, vec![-120, -60, 0, 60, 120]);
    assert!(s.balls.iter().all(|b| *b == BallLayout { x: b.x, y: 200, radius: 15, mass: 1 }));
}

#[test]
fn explosion_ring_has_twenty_slots() {
    let ring = explosion_ring();
    assert_eq!(ring.len(), 20);
    assert_eq!(ring[0], RingSlot { turn_numerator: 0, turn_denominator: 20, distance: 50 });
    assert_eq!(ring[1], RingSlot { turn_numerator: 1, turn_denominator: 20, distance: 53 });
    assert_eq!(ring[19], RingSlot { turn_numerator: 19, turn_denominator: 20, distance: 107 });
    for w in ring.windows(2) {
        assert!(w[0].distance < w[1].distance);
    }
}

#[test]
fn ground_and_walls_carry_box_colliders() {
    let s = sandbox_scene();
    assert_eq!(s.ground_collider, BoxCollider { half_width: 800, half_height: 20 });
    assert_eq!(
        s.wall_colliders,
        vec![
            BoxCollider { half_width: 10, half_height: 300 },
            BoxCollider { half_width: 10, half_height: 300 },
        ]
    );
}
