use battle_check::battle::{MovePoints, PushStrength, Weight};
use battle_check::map::{distance_hex, Distance, HexMap, PosHex};
use battle_check::movement::{Path, Step};

fn tile(q: i32, r: i32) -> PosHex {
    PosHex { q, r }
}

fn step_to(q: i32, r: i32, cost: i32) -> Step {
    Step { to: tile(q, r), cost: MovePoints(cost) }
}

#[test]
fn distance_from_a_tile_to_itself_is_zero() {
    assert_eq!(distance_hex(tile(0, 0), tile(0, 0)), Distance(0));
    assert_eq!(distance_hex(tile(-7, 4), tile(-7, 4)), Distance(0));
}

#[test]
fn distance_to_each_of_the_six_neighbours_is_one() {
    let centre = tile(3, -2);
    let around = [(1, 0), (-1, 0), (0, 1), (0, -1), (1, -1), (-1, 1)];
    for (dq, dr) in around {
        assert_eq!(distance_hex(centre, tile(3 + dq, -2 + dr)), Distance(1));
    }
}

#[test]
fn distance_along_the_diagonal_that_is_no_axis_counts_both_coordinates() {
    assert_eq!(distance_hex(tile(0, 0), tile(1, 1)), Distance(2));
    assert_eq!(distance_hex(tile(0, 0), tile(-1, -1)), Distance(2));
    assert_eq!(distance_hex(tile(0, 0), tile(3, 3)), Distance(6));
}

#[test]
fn distance_exact_values() {
    assert_eq!(distance_hex(tile(0, 0), tile(2, -1)), Distance(2));
    assert_eq!(distance_hex(tile(0, 0), tile(-3, 1)), Distance(3));
    assert_eq!(distance_hex(tile(2, -1), tile(-1, 2)), Distance(3));
    assert_eq!(distance_hex(tile(0, 0), tile(0, 5)), Distance(5));
    assert_eq!(distance_hex(tile(4, 0), tile(0, 0)), Distance(4));
    assert_eq!(distance_hex(tile(1, 2), tile(4, -3)), Distance(5));
}

#[test]
fn distance_is_the_same_in_both_directions() {
    let a = tile(5, -3);
    let b = tile(-2, 7);
    assert_eq!(distance_hex(a, b), distance_hex(b, a));
    assert_eq!(distance_hex(a, b), Distance(10));
}

#[test]
fn distance_between_the_farthest_coordinates_does_not_overflow() {
    let low = tile(i32::MIN, i32::MIN);
    let high = tile(i32::MAX, i32::MAX);
    assert_eq!(distance_hex(low, high), Distance(8_589_934_590));
    assert_eq!(distance_hex(tile(i32::MIN, 0), tile(i32::MAX, 0)), Distance(4_294_967_295));
    assert_eq!(
        distance_hex(tile(i32::MIN, i32::MAX), tile(i32::MAX, i32::MIN)),
        Distance(4_294_967_295)
    );
}

#[test]
fn board_holds_the_tiles_within_its_radius() {
    let map = HexMap::new(Distance(2));
    assert_eq!(map.radius(), Distance(2));
    assert!(map.is_inboard(tile(0, 0)));
    assert!(map.is_inboard(tile(2, 0)));
    assert!(map.is_inboard(tile(0, -2)));
    assert!(map.is_inboard(tile(2, -2)));
    assert!(map.is_inboard(tile(-1, -1)));
    assert!(!map.is_inboard(tile(3, 0)));
    assert!(!map.is_inboard(tile(2, 1)));
    assert!(!map.is_inboard(tile(-2, -1)));
}

#[test]
fn board_of_radius_zero_is_the_origin_alone() {
    let map = HexMap::new(Distance(0));
    assert!(map.is_inboard(tile(0, 0)));
    assert!(!map.is_inboard(tile(1, 0)));
    assert!(!map.is_inboard(tile(0, -1)));
}

#[test]
fn board_of_negative_radius_has_no_tile() {
    let map = HexMap::new(Distance(-1));
    assert!(!map.is_inboard(tile(0, 0)));
}

#[test]
fn weights_rank_from_normal_to_immovable() {
    assert_eq!(Weight::Normal.rank(), 0);
    assert_eq!(Weight::Heavy.rank(), 1);
    assert_eq!(Weight::Immovable.rank(), 2);
}

#[test]
fn push_displaces_weights_up_to_its_own() {
    assert!(PushStrength(Weight::Normal).can_push(Weight::Normal));
    assert!(!PushStrength(Weight::Normal).can_push(Weight::Heavy));
    assert!(PushStrength(Weight::Heavy).can_push(Weight::Normal));
    assert!(PushStrength(Weight::Heavy).can_push(Weight::Heavy));
}

#[test]
fn nothing_displaces_what_is_immovable() {
    assert!(!PushStrength(Weight::Normal).can_push(Weight::Immovable));
    assert!(!PushStrength(Weight::Heavy).can_push(Weight::Immovable));
    assert!(!PushStrength(Weight::Immovable).can_push(Weight::Immovable));
    assert!(PushStrength(Weight::Immovable).can_push(Weight::Heavy));
}

#[test]
fn empty_path_costs_nothing() {
    assert_eq!(Path::new(vec![]).cost(), 0);
}

#[test]
fn path_cost_is_the_sum_of_its_steps() {
    let path = Path::new(vec![step_to(1, 0, 1), step_to(2, 0, 2), step_to(3, 0, 3)]);
    assert_eq!(path.cost(), 6);
    assert_eq!(path.steps.len(), 3);
}

#[test]
fn path_cost_counts_negative_steps() {
    let path = Path::new(vec![step_to(1, 0, 5), step_to(2, 0, -2)]);
    assert_eq!(path.cost(), 3);
}

#[test]
fn path_cost_beyond_the_range_of_one_step_is_exact() {
    let path = Path::new(vec![
        step_to(1, 0, i32::MAX),
        step_to(2, 0, i32::MAX),
        step_to(3, 0, i32::MAX),
    ]);
    assert_eq!(path.cost(), 6_442_450_941);
    let path = Path::new(vec![step_to(1, 0, i32::MIN), step_to(2, 0, i32::MIN)]);
    assert_eq!(path.cost(), -4_294_967_296);
}
