use bunner_rs::footing::{
    classify_collision, obstacle_movement, player_movement, player_scrolling, CollisionType,
    Obstacle, PlayerDirection, PlayerMovementBlockedDirection, PlayerPosition,
};
use bunner_rs::history::BackgroundRows;
use bunner_rs::lane::{Lane, RowType};
use bunner_rs::obstacles::MovementDirection;

fn lane_at(kind: RowType, index: i8, y: i32) -> Lane {
    let mut lane = Lane::new(kind, index);
    lane.set_row_y(y);
    lane
}

fn water_scene() -> (BackgroundRows, Lane) {
    let mut rows = BackgroundRows::new();
    rows.add_row(lane_at(RowType::GRASS, 15, -40));
    let water = lane_at(RowType::WATER, 0, 0);
    rows.add_row(water);
    rows.add_row(lane_at(RowType::WATER, 1, 40));
    (rows, water)
}

#[test]
fn water_without_log_drowns() {
    let (rows, _) = water_scene();
    let mut p = PlayerPosition::new();
    p.update_footing(&rows, &Vec::new(), 10, 0);
    assert_eq!(p.row_index, 1);
    assert_eq!(p.row_type, RowType::WATER);
    assert_eq!(p.collision_type, CollisionType::WaterOnly);
    assert!(p.is_fatal());
}

#[test]
fn water_with_log_under_player_rides_it() {
    let (rows, water) = water_scene();
    let log = Obstacle { lane_id: water.get_row_uuid(), x: 0, width: 84, direction: MovementDirection::RIGHT };
    let mut p = PlayerPosition::new();
    p.update_footing(&rows, &vec![log], 10, 0);
    assert_eq!(p.collision_type, CollisionType::WaterLog(MovementDirection::RIGHT));
    assert!(!p.is_fatal());
    // the log's extent is shifted by half the player's width
    p.update_footing(&rows, &vec![log], 64, 0);
    assert_eq!(p.collision_type, CollisionType::WaterOnly);
    p.update_footing(&rows, &vec![log], -20, 0);
    assert_eq!(p.collision_type, CollisionType::WaterLog(MovementDirection::RIGHT));
    // a log of another lane does not count
    let other = Obstacle { lane_id: water.get_row_uuid() ^ 1, ..log };
    p.update_footing(&rows, &vec![other], 10, 0);
    assert_eq!(p.collision_type, CollisionType::WaterOnly);
}

#[test]
fn first_log_under_player_gives_direction() {
    let (rows, water) = water_scene();
    let a = Obstacle { lane_id: water.get_row_uuid(), x: 0, width: 138, direction: MovementDirection::LEFT };
    let b = Obstacle { direction: MovementDirection::RIGHT, ..a };
    assert_eq!(
        classify_collision(&rows.get_row(1).unwrap(), &vec![a, b], 5),
        CollisionType::WaterLog(MovementDirection::LEFT)
    );
}

#[test]
fn road_and_rail_classes() {
    let road = lane_at(RowType::ROAD, 2, 0);
    let rail = lane_at(RowType::RAIL, 1, 0);
    let car = Obstacle { lane_id: road.get_row_uuid(), x: 100, width: 90, direction: MovementDirection::LEFT };
    let train = Obstacle { lane_id: rail.get_row_uuid(), x: -500, width: 860, direction: MovementDirection::RIGHT };
    assert_eq!(classify_collision(&road, &vec![car], 100), CollisionType::RoadCar);
    assert_eq!(classify_collision(&road, &vec![car], 0), CollisionType::RoadOnly);
    assert_eq!(classify_collision(&rail, &vec![train], 0), CollisionType::RailsTrain);
    assert_eq!(classify_collision(&rail, &vec![], 0), CollisionType::RailsOnly);
    let grass = lane_at(RowType::GRASS, 3, 0);
    assert_eq!(classify_collision(&grass, &vec![car], 100), CollisionType::Other);
    let dirt = lane_at(RowType::DIRT, 3, 0);
    assert_eq!(classify_collision(&dirt, &vec![], 0), CollisionType::Other);
}

#[test]
fn off_grid_is_fatal() {
    let (rows, _) = water_scene();
    let mut p = PlayerPosition::new();
    p.update_footing(&rows, &Vec::new(), 10, 500);
    assert_eq!(p.row_index, -1);
    assert!(p.is_fatal());
    p.update_footing(&rows, &Vec::new(), 400, -40);
    assert_eq!(p.col_index, -1);
    assert!(p.is_fatal());
}

fn hedge_scene() -> BackgroundRows {
    let mut rows = BackgroundRows::new();
    rows.add_row(lane_at(RowType::GRASS, 8, 0));
    rows.add_row(lane_at(RowType::GRASS, 9, 40));
    let mut hedge = lane_at(RowType::GRASS, 10, 80);
    let mut mask = [true; 12];
    mask[6] = false;
    mask[4] = false;
    hedge.set_row_mask(mask);
    rows.add_row(hedge);
    rows
}

#[test]
fn hedge_above_blocks_moving_up() {
    let rows = hedge_scene();
    let mut p = PlayerPosition::new();
    p.classify(&rows, &Vec::new(), 0, 45, PlayerDirection::Up);
    assert_eq!(p.row_index, 1);
    assert_eq!(p.col_index, 6);
    assert_eq!(p.movement_blocked_dir, PlayerMovementBlockedDirection::Up);
    let (x, y) = player_movement(0, 45, Some(PlayerDirection::Up), p.movement_blocked_dir, 5);
    assert_eq!((x, y), (0, 45));
    // sideways the current row has no hedge
    p.classify(&rows, &Vec::new(), 0, 45, PlayerDirection::Left);
    assert_eq!(p.movement_blocked_dir, PlayerMovementBlockedDirection::NotBlocked);
    // a gap above lets the player through
    p.classify(&rows, &Vec::new(), 61, 45, PlayerDirection::Up);
    assert_eq!(p.col_index, 8);
    assert_eq!(p.movement_blocked_dir, PlayerMovementBlockedDirection::NotBlocked);
}

#[test]
fn hedge_in_own_row_blocks_sideways() {
    let mut rows = hedge_scene();
    rows.add_row(lane_at(RowType::GRASS, 11, 120));
    let mut p = PlayerPosition::new();
    // player in the hedge row, column 5, moving left into column 4
    p.classify(&rows, &Vec::new(), -50, 85, PlayerDirection::Left);
    assert_eq!(p.row_index, 2);
    assert_eq!(p.col_index, 5);
    assert_eq!(p.movement_blocked_dir, PlayerMovementBlockedDirection::Left);
    p.classify(&rows, &Vec::new(), -35, 85, PlayerDirection::Right);
    assert_eq!(p.col_index, 5);
    assert_eq!(p.movement_blocked_dir, PlayerMovementBlockedDirection::Right);
    // not yet past the cell boundary the other way
    p.classify(&rows, &Vec::new(), -35, 85, PlayerDirection::Left);
    assert_eq!(p.movement_blocked_dir, PlayerMovementBlockedDirection::NotBlocked);
}

#[test]
fn classification_is_repeatable() {
    let rows = hedge_scene();
    let mut p = PlayerPosition::new();
    p.classify(&rows, &Vec::new(), 0, 45, PlayerDirection::Up);
    let once = p;
    p.classify(&rows, &Vec::new(), 0, 45, PlayerDirection::Up);
    assert_eq!(p, once);
    let (wrows, water) = water_scene();
    let log = Obstacle { lane_id: water.get_row_uuid(), x: 0, width: 84, direction: MovementDirection::LEFT };
    let mut q = PlayerPosition::new();
    q.classify(&wrows, &vec![log], 10, 0, PlayerDirection::Right);
    let first = q;
    q.classify(&wrows, &vec![log], 10, 0, PlayerDirection::Right);
    assert_eq!(q, first);
}

#[test]
fn movement_clamps_to_screen() {
    let free = PlayerMovementBlockedDirection::NotBlocked;
    assert_eq!(player_movement(0, 350, Some(PlayerDirection::Up), free, 30), (0, 360));
    assert_eq!(player_movement(0, -390, Some(PlayerDirection::Down), free, 30), (0, -400));
    assert_eq!(player_movement(-230, 0, Some(PlayerDirection::Left), free, 30), (-240, 0));
    assert_eq!(player_movement(190, 0, Some(PlayerDirection::Right), free, 30), (200, 0));
    assert_eq!(player_movement(10, 20, Some(PlayerDirection::Right), free, 3), (13, 20));
    assert_eq!(player_movement(10, 20, None, free, 3), (10, 20));
    assert_eq!(
        player_movement(10, 20, Some(PlayerDirection::Down), PlayerMovementBlockedDirection::Down, 3),
        (10, 20)
    );
}

#[test]
fn set_methods_write_category_and_class() {
    let mut p = PlayerPosition::new();
    assert_eq!(p.row_type, RowType::GRASS);
    assert_eq!(p.row_index, 7);
    assert_eq!(p.col_index, 5);
    p.set_water_ok(MovementDirection::LEFT);
    assert_eq!(p.collision_type, CollisionType::WaterLog(MovementDirection::LEFT));
    p.set_water_ko();
    assert_eq!(p.collision_type, CollisionType::WaterOnly);
    p.set_road_ok();
    assert_eq!((p.row_type, p.collision_type), (RowType::ROAD, CollisionType::RoadOnly));
    p.set_road_ko();
    assert_eq!(p.collision_type, CollisionType::RoadCar);
    p.set_rail_ok();
    assert_eq!((p.row_type, p.collision_type), (RowType::RAIL, CollisionType::RailsOnly));
    p.set_rail_ko();
    assert_eq!(p.collision_type, CollisionType::RailsTrain);
    p.set_dirt();
    assert_eq!((p.row_type, p.collision_type), (RowType::DIRT, CollisionType::Other));
    p.set_grass();
    assert_eq!(p.row_type, RowType::GRASS);
    p.set_pavement();
    assert_eq!(p.row_type, RowType::PAVEMENT);
    assert_eq!(p.row_index, 7);
}

#[test]
fn drift_with_scrolling_and_logs() {
    assert_eq!(obstacle_movement(10, MovementDirection::LEFT, 4), 6);
    assert_eq!(obstacle_movement(10, MovementDirection::RIGHT, 4), 14);
    assert_eq!(player_scrolling(0, 100, CollisionType::WaterLog(MovementDirection::RIGHT), 2, 3), (3, 98));
    assert_eq!(player_scrolling(0, 100, CollisionType::WaterLog(MovementDirection::LEFT), 2, 3), (-3, 98));
    assert_eq!(player_scrolling(0, 100, CollisionType::RoadOnly, 2, 3), (0, 98));
}
