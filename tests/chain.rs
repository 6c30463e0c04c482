use bunner_rs::lane::{next_row_kind, Lane, RowType};
use bunner_rs::random::get_random_i8;
use bunner_rs::rows::{DirtRow, GrassRow, PavementRow, RailRow, RoadRow, Row, WaterRow};

const KINDS: [(RowType, i8); 6] = [
    (RowType::DIRT, 15),
    (RowType::GRASS, 15),
    (RowType::PAVEMENT, 2),
    (RowType::RAIL, 3),
    (RowType::ROAD, 5),
    (RowType::WATER, 7),
];

fn max_index(kind: RowType) -> i8 {
    KINDS.iter().find(|(k, _)| *k == kind).unwrap().1
}

#[test]
fn every_transition_is_legal() {
    for (kind, max) in KINDS {
        for index in 0..=max {
            for roll in 0..100 {
                for grass_pick in 0..=6 {
                    for dirt_pick in 4..=6 {
                        let (k, i) = next_row_kind(kind, index, roll, grass_pick, dirt_pick);
                        assert!(i >= 0 && i <= max_index(k), "{:?} {} -> {:?} {}", kind, index, k, i);
                    }
                }
            }
        }
    }
}

#[test]
fn random_chain_stays_legal() {
    let mut lane = Lane::new(RowType::GRASS, 0);
    for _ in 0..5000 {
        lane = lane.next();
        assert!(lane.get_index() >= 0 && lane.get_index() <= max_index(lane.get_row_type()));
        assert_eq!(lane.get_row_mask(), None);
    }
}

#[test]
fn rail_runs_four_lanes_then_road_or_water() {
    assert_eq!(next_row_kind(RowType::RAIL, 0, 0, 0, 4), (RowType::RAIL, 1));
    assert_eq!(next_row_kind(RowType::RAIL, 2, 99, 0, 4), (RowType::RAIL, 3));
    assert_eq!(next_row_kind(RowType::RAIL, 3, 10, 0, 4), (RowType::WATER, 0));
    assert_eq!(next_row_kind(RowType::RAIL, 3, 60, 0, 4), (RowType::ROAD, 0));
}

#[test]
fn water_runs_until_dirt() {
    assert_eq!(next_row_kind(RowType::WATER, 0, 0, 0, 5), (RowType::WATER, 1));
    assert_eq!(next_row_kind(RowType::WATER, 3, 49, 0, 5), (RowType::DIRT, 5));
    assert_eq!(next_row_kind(RowType::WATER, 3, 50, 0, 5), (RowType::WATER, 4));
    assert_eq!(next_row_kind(RowType::WATER, 7, 99, 0, 6), (RowType::DIRT, 6));
}

#[test]
fn pavement_leads_to_road() {
    assert_eq!(next_row_kind(RowType::PAVEMENT, 0, 0, 0, 4), (RowType::PAVEMENT, 1));
    assert_eq!(next_row_kind(RowType::PAVEMENT, 2, 0, 0, 4), (RowType::ROAD, 0));
}

#[test]
fn road_off_ramps() {
    assert_eq!(next_row_kind(RowType::ROAD, 0, 99, 3, 4), (RowType::ROAD, 1));
    assert_eq!(next_row_kind(RowType::ROAD, 2, 79, 3, 4), (RowType::ROAD, 3));
    assert_eq!(next_row_kind(RowType::ROAD, 2, 80, 3, 4), (RowType::GRASS, 3));
    assert_eq!(next_row_kind(RowType::ROAD, 4, 88, 3, 4), (RowType::RAIL, 0));
    assert_eq!(next_row_kind(RowType::ROAD, 4, 94, 3, 4), (RowType::PAVEMENT, 0));
    assert_eq!(next_row_kind(RowType::ROAD, 5, 59, 6, 4), (RowType::GRASS, 6));
    assert_eq!(next_row_kind(RowType::ROAD, 5, 60, 6, 4), (RowType::RAIL, 0));
    assert_eq!(next_row_kind(RowType::ROAD, 5, 90, 6, 4), (RowType::PAVEMENT, 0));
}

#[test]
fn grass_and_dirt_bands() {
    for kind in [RowType::GRASS, RowType::DIRT] {
        assert_eq!(next_row_kind(kind, 0, 0, 0, 4), (kind, 8));
        assert_eq!(next_row_kind(kind, 5, 0, 0, 4), (kind, 13));
        assert_eq!(next_row_kind(kind, 6, 0, 0, 4), (kind, 7));
        assert_eq!(next_row_kind(kind, 7, 0, 0, 4), (kind, 15));
        assert_eq!(next_row_kind(kind, 8, 0, 0, 4), (kind, 9));
        assert_eq!(next_row_kind(kind, 14, 0, 0, 4), (kind, 15));
        assert_eq!(next_row_kind(kind, 15, 0, 0, 4), (RowType::WATER, 0));
        assert_eq!(next_row_kind(kind, 15, 50, 0, 4), (RowType::ROAD, 0));
    }
}

#[test]
fn seeds_carry_category_and_index() {
    assert_eq!(RailRow::new_rail_row(2).get_row_type(), RowType::RAIL);
    assert_eq!(RailRow::new_rail_row(2).get_index(), 2);
    assert_eq!(WaterRow::new_water_row(7).to_lane().get_row_type(), RowType::WATER);
    assert_eq!(RoadRow::new_road_row(5).to_lane().get_index(), 5);
    assert_eq!(DirtRow::new_dirt_row(4).get_row_type(), RowType::DIRT);
    assert_eq!(PavementRow::new_pavement_row(1).get_row_type(), RowType::PAVEMENT);
    assert_eq!(GrassRow::new_grass_row(14).next().get_row_type(), RowType::GRASS);
    assert_eq!(GrassRow::new_grass_row(14).next().get_index(), 15);
    assert_eq!(RailRow::new_rail_row(0).next().get_index(), 1);
}

#[test]
fn lanes_get_distinct_identities() {
    let a = Lane::new(RowType::GRASS, 0);
    let b = Lane::new(RowType::GRASS, 0);
    assert_ne!(a.get_row_uuid(), b.get_row_uuid());
    assert_eq!(a.clone_row().get_row_uuid(), a.get_row_uuid());
}

#[test]
fn random_draws_stay_in_range_and_vary() {
    let mut seen = std::collections::BTreeSet::new();
    for _ in 0..1000 {
        let v = get_random_i8(0, 6);
        assert!(v >= 0 && v <= 6);
        seen.insert(v);
    }
    assert!(seen.len() > 1);
}
