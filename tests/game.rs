use bunner_rs::footing::{CollisionType, PlayerPosition};
use bunner_rs::game::{
    decorate_lane, game_setup, is_scrolled_off, needs_new_top_row, player_die, AppState,
    BackgroundScrollingEnabled, ROW_COUNT,
};
use bunner_rs::history::BackgroundRows;
use bunner_rs::lane::{Lane, RowType};

#[test]
fn a_run_starts_on_grass_from_the_bottom() {
    let (rows, lanes) = game_setup(ROW_COUNT);
    assert_eq!(lanes.len(), 20);
    assert_eq!(lanes[0].get_row_type(), RowType::GRASS);
    assert_eq!(lanes[0].get_index(), 0);
    assert_eq!(lanes[1].get_index(), 8);
    for k in 0..20 {
        assert_eq!(lanes[k].get_row_y(), -400 + 40 * k as i32);
        assert_eq!(lanes[k].get_row_mask(), None);
        assert_eq!(rows.get_row(k).unwrap().get_row_uuid(), lanes[k].get_row_uuid());
    }
    assert_eq!(rows.len(), 20);
    let (_, none) = game_setup(0);
    assert!(none.is_empty());
}

#[test]
fn next_row_goes_on_top_and_into_history() {
    let (mut rows, lanes) = game_setup(ROW_COUNT);
    let top = lanes[19];
    let (lane, decoration) = rows.spawn_next_row(&top);
    assert_eq!(lane.get_row_y(), top.get_row_y() + 40);
    assert_eq!(rows.len(), 21);
    assert_eq!(rows.last_row().unwrap().get_row_uuid(), lane.get_row_uuid());
    assert_eq!(decoration.cars.is_empty(), lane.get_row_type() != RowType::ROAD);
    assert_eq!(decoration.logs.is_empty(), lane.get_row_type() != RowType::WATER);
    let (next, _) = rows.spawn_next_row(&lane);
    assert_eq!(rows.len(), 21);
    assert_eq!(rows.get_row(0).unwrap().get_row_uuid(), lanes[1].get_row_uuid());
    assert_eq!(next.get_row_y(), top.get_row_y() + 80);
}

#[test]
fn decoration_matches_lane_kind() {
    let d = decorate_lane(&Lane::new(RowType::RAIL, 1));
    assert!(d.trains.len() >= 2 && d.cars.is_empty() && d.logs.is_empty());
    let d = decorate_lane(&Lane::new(RowType::RAIL, 2));
    assert!(d.trains.is_empty());
    let d = decorate_lane(&Lane::new(RowType::WATER, 3));
    assert_eq!(d.logs.len(), 10);
    let d = decorate_lane(&Lane::new(RowType::ROAD, 0));
    assert!(d.cars.len() >= 4);
    let d = decorate_lane(&Lane::new(RowType::PAVEMENT, 0));
    assert!(d.cars.is_empty() && d.trains.is_empty() && d.logs.is_empty() && d.bushes.is_empty());
}

#[test]
fn scroll_thresholds() {
    assert!(needs_new_top_row(359));
    assert!(!needs_new_top_row(360));
    assert!(is_scrolled_off(-441));
    assert!(!is_scrolled_off(-440));
}

#[test]
fn only_a_car_kills_while_playing() {
    let mut p = PlayerPosition::new();
    assert_eq!(player_die(&p, AppState::InGame), AppState::InGame);
    p.set_road_ko();
    assert_eq!(p.collision_type, CollisionType::RoadCar);
    assert_eq!(player_die(&p, AppState::InGame), AppState::JustDied);
    assert_eq!(player_die(&p, AppState::Menu), AppState::Menu);
}

#[test]
fn scrolling_toggle_is_debounced() {
    let mut s = BackgroundScrollingEnabled::new();
    assert!(s.enabled);
    s.toggle(1);
    assert!(s.enabled);
    s.toggle(10);
    assert!(!s.enabled);
    assert_eq!(s.changed, 10);
    s.toggle(11);
    assert!(!s.enabled);
    s.toggle(12);
    assert!(s.enabled);
}

#[test]
fn empty_history_spawn() {
    let mut rows = BackgroundRows::new();
    let top = Lane::new(RowType::PAVEMENT, 2);
    let (lane, _) = rows.spawn_next_row(&top);
    assert_eq!(lane.get_row_type(), RowType::ROAD);
    assert_eq!(lane.get_index(), 0);
    assert_eq!(rows.len(), 1);
}
