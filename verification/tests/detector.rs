use collision_logic::detector::{detect_collisions, is_colliding};
use collision_logic::objects::{CollidableType, CollisionEvent, GameObject, GameState, Point};

fn obj(id: u32, x: i32, y: i32, radius: i32) -> GameObject {
    GameObject {
        id,
        position: Point { x, y },
        radius,
    }
}

fn state(
    player: GameObject,
    enemies: Vec<GameObject>,
    projectiles: Vec<GameObject>,
    orbs: Vec<GameObject>,
    chests: Vec<GameObject>,
) -> GameState {
    GameState {
        player,
        enemies,
        projectiles,
        orbs,
        chests,
    }
}

fn event(
    type_a: CollidableType,
    id_a: u32,
    type_b: CollidableType,
    id_b: u32,
) -> CollisionEvent {
    CollisionEvent {
        type_a,
        id_a,
        type_b,
        id_b,
    }
}

#[test]
fn overlap_matches_squared_distance_formula() {
    // dist_sq = 3^2 + 4^2 = 25; radii sum = 6, squared 36: overlap.
    assert!(is_colliding(&obj(1, 0, 0, 2), &obj(2, 3, 4, 4)));
    // radii sum = 4, squared 16 < 25: no overlap.
    assert!(!is_colliding(&obj(1, 0, 0, 2), &obj(2, 3, 4, 2)));
}

#[test]
fn overlap_is_symmetric() {
    let a = obj(1, -3, 7, 5);
    let b = obj(2, 1, 4, 1);
    assert_eq!(is_colliding(&a, &b), is_colliding(&b, &a));
    let c = obj(3, 100, 100, 1);
    assert_eq!(is_colliding(&a, &c), is_colliding(&c, &a));
}

#[test]
fn touching_circles_do_not_collide() {
    // Centers 5 apart, radii 2 + 3 = 5: exactly touching, strict inequality.
    assert!(!is_colliding(&obj(1, 0, 0, 2), &obj(2, 5, 0, 3)));
    // One unit of extra radius and they overlap.
    assert!(is_colliding(&obj(1, 0, 0, 2), &obj(2, 5, 0, 4)));
}

#[test]
fn coincident_zero_radius_points_do_not_collide() {
    // dist_sq = 0, radii sum squared = 0: 0 < 0 is false.
    assert!(!is_colliding(&obj(1, 4, 4, 0), &obj(2, 4, 4, 0)));
}

#[test]
fn negative_radius_is_accepted_without_validation() {
    // Radii -5 and 1 sum to -4, squared 16: a coincident pair still "overlaps".
    assert!(is_colliding(&obj(1, 0, 0, -5), &obj(2, 0, 0, 1)));
    // But a pair 5 apart (dist_sq 25 >= 16) does not.
    assert!(!is_colliding(&obj(1, 0, 0, -5), &obj(2, 5, 0, 1)));
}

#[test]
fn no_projectiles_means_no_projectile_events() {
    let s = state(
        obj(0, 1000, 1000, 1),
        vec![obj(1, 0, 0, 5), obj(2, 3, 0, 5)],
        vec![],
        vec![],
        vec![],
    );
    assert_eq!(detect_collisions(&s), vec![]);
}

#[test]
fn no_enemies_means_no_projectile_events() {
    let s = state(
        obj(0, 1000, 1000, 1),
        vec![],
        vec![obj(1, 0, 0, 5), obj(2, 3, 0, 5)],
        vec![],
        vec![],
    );
    assert_eq!(detect_collisions(&s), vec![]);
}

#[test]
fn empty_orbs_and_chests_produce_no_player_events() {
    let s = state(obj(0, 0, 0, 100), vec![], vec![], vec![], vec![]);
    assert_eq!(detect_collisions(&s), vec![]);
}

#[test]
fn one_projectile_hits_all_enemies_in_input_order() {
    let enemies = vec![obj(11, 0, 0, 1), obj(12, 1, 0, 1), obj(13, -1, 0, 1)];
    let s = state(
        obj(0, 1000, 1000, 1),
        enemies,
        vec![obj(7, 0, 0, 1)],
        vec![],
        vec![],
    );
    let events = detect_collisions(&s);
    assert_eq!(
        events,
        vec![
            event(CollidableType::Projectile, 7, CollidableType::Enemy, 11),
            event(CollidableType::Projectile, 7, CollidableType::Enemy, 12),
            event(CollidableType::Projectile, 7, CollidableType::Enemy, 13),
        ]
    );
}

#[test]
fn projectile_enemy_pairs_are_a_full_cross_product() {
    // Two projectiles each overlapping both enemies: four events, outer loop
    // over projectiles, inner over enemies.
    let s = state(
        obj(0, 1000, 1000, 1),
        vec![obj(21, 0, 0, 2), obj(22, 1, 0, 2)],
        vec![obj(31, 0, 0, 2), obj(32, 1, 1, 2)],
        vec![],
        vec![],
    );
    let events = detect_collisions(&s);
    assert_eq!(
        events,
        vec![
            event(CollidableType::Projectile, 31, CollidableType::Enemy, 21),
            event(CollidableType::Projectile, 31, CollidableType::Enemy, 22),
            event(CollidableType::Projectile, 32, CollidableType::Enemy, 21),
            event(CollidableType::Projectile, 32, CollidableType::Enemy, 22),
        ]
    );
}

#[test]
fn detector_is_idempotent_on_the_same_snapshot() {
    let s = state(
        obj(0, 0, 0, 10),
        vec![obj(1, 1, 1, 1), obj(2, 50, 50, 1)],
        vec![obj(3, 1, 1, 1)],
        vec![obj(4, 2, 0, 1)],
        vec![obj(5, 0, 2, 1)],
    );
    let first = detect_collisions(&s);
    let second = detect_collisions(&s);
    assert_eq!(first, second);
}

#[test]
fn coincident_enemies_produce_no_enemy_vs_enemy_event() {
    // Two enemies at the same point, far from the player: no events at all.
    let s = state(
        obj(0, 1000, 1000, 1),
        vec![obj(1, 0, 0, 5), obj(2, 0, 0, 5)],
        vec![],
        vec![],
        vec![],
    );
    assert_eq!(detect_collisions(&s), vec![]);
}

#[test]
fn only_the_four_fixed_category_pairs_are_tested() {
    // Everything piled on one spot: exactly one event per fixed pair, in the
    // fixed pass order; no orb-vs-enemy, projectile-vs-orb, and so on.
    let s = state(
        obj(0, 0, 0, 5),
        vec![obj(1, 0, 0, 5)],
        vec![obj(2, 0, 0, 5)],
        vec![obj(3, 0, 0, 5)],
        vec![obj(4, 0, 0, 5)],
    );
    let events = detect_collisions(&s);
    assert_eq!(
        events,
        vec![
            event(CollidableType::Projectile, 2, CollidableType::Enemy, 1),
            event(CollidableType::Player, 0, CollidableType::Enemy, 1),
            event(CollidableType::Player, 0, CollidableType::ExperienceOrb, 3),
            event(CollidableType::Player, 0, CollidableType::TreasureChest, 4),
        ]
    );
}

#[test]
fn scenario_player_enemy_orb_projectile() {
    // In tenths of a world unit: player at (0,0) radius 1.0; enemy at (1.0,0)
    // radius 0.5; orb at (5.0,5.0) radius 1.0; projectile at (1.0,0) radius
    // 0.1. The orb is too far; exactly two events, projectile hit first.
    let s = state(
        obj(100, 0, 0, 10),
        vec![obj(200, 10, 0, 5)],
        vec![obj(300, 10, 0, 1)],
        vec![obj(400, 50, 50, 10)],
        vec![],
    );
    let events = detect_collisions(&s);
    assert_eq!(
        events,
        vec![
            event(CollidableType::Projectile, 300, CollidableType::Enemy, 200),
            event(CollidableType::Player, 100, CollidableType::Enemy, 200),
        ]
    );
}

#[test]
fn all_empty_sequences_give_empty_output() {
    let s = state(obj(42, -17, 23, 9), vec![], vec![], vec![], vec![]);
    assert_eq!(detect_collisions(&s).len(), 0);
}
