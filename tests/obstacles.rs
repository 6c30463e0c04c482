use bunner_rs::grid::{CAR_SPEED_FROM, CAR_SPEED_TO, LOG_BIG_WIDTH, LOG_SMALL_WIDTH};
use bunner_rs::obstacles::{
    get_random_car_speed, get_random_car_speeds, put_cars_on_road, put_logs_on_water,
    put_trains_on_rails, LogSize, MovementDirection,
};

#[test]
fn test_get_random_car_speed() {
    let mut speed;

    let max_speed = 90;

    for _ in 0..1000 {
        speed = get_random_car_speed(max_speed, CAR_SPEED_FROM, CAR_SPEED_TO);
        println!("generated speed {}", speed);
        assert_eq!(speed <= max_speed, true);
    }
}

#[test]
fn car_speed_draws_vary() {
    let mut seen = std::collections::BTreeSet::new();
    for _ in 0..1000 {
        seen.insert(get_random_car_speed(CAR_SPEED_TO, CAR_SPEED_FROM, CAR_SPEED_TO));
    }
    assert!(seen.len() > 1);
    assert!(seen.iter().all(|s| *s >= CAR_SPEED_FROM && *s <= CAR_SPEED_TO));
}

#[test]
fn twenty_cars_never_speed_up() {
    for _ in 0..100 {
        let speeds = get_random_car_speeds(20, 90);
        assert_eq!(speeds.len(), 20);
        for k in 0..20 {
            assert!(speeds[k] > 0 && speeds[k] <= 90);
            if k > 0 {
                assert!(speeds[k] <= speeds[k - 1]);
            }
        }
    }
}

#[test]
fn road_lane_cars() {
    for _ in 0..100 {
        let cars = put_cars_on_road();
        assert!(cars.len() >= 4 && cars.len() <= 20);
        let x = if cars[0].direction == MovementDirection::RIGHT { -190 } else { 580 };
        for k in 0..cars.len() {
            assert_eq!(cars[k].direction, cars[0].direction);
            assert_eq!(cars[k].x, x);
            assert!(cars[k].speed > 0 && cars[k].speed <= CAR_SPEED_TO);
            let gap = if k == 0 { cars[0].delay } else { cars[k].delay - cars[k - 1].delay };
            assert!(gap >= 3 && gap <= 7);
            if k > 0 {
                assert!(cars[k].speed <= cars[k - 1].speed);
            }
        }
    }
}

#[test]
fn rail_lane_trains() {
    for _ in 0..100 {
        let trains = put_trains_on_rails();
        assert!(trains.len() >= 2 && trains.len() <= 4);
        for k in 0..trains.len() {
            let x = if trains[k].direction == MovementDirection::RIGHT { -960 } else { 580 };
            assert_eq!(trains[k].x, x);
            let gap = if k == 0 { trains[0].delay } else { trains[k].delay - trains[k - 1].delay };
            assert!(gap >= 4 && gap <= 7);
        }
    }
}

#[test]
fn water_lane_logs_counter_flow() {
    for index in 0..8 {
        let logs = put_logs_on_water(index);
        assert_eq!(logs.len(), 10);
        let even = index % 2 == 0;
        assert_eq!(logs[0].x, if even { 0 } else { 156 });
        for k in 0..10 {
            let dir = if even { MovementDirection::RIGHT } else { MovementDirection::LEFT };
            assert_eq!(logs[k].direction, dir);
            if k > 0 {
                let step = if even { logs[k - 1].x - logs[k].x } else { logs[k].x - logs[k - 1].x };
                let w = if logs[k].size == LogSize::BIG { LOG_BIG_WIDTH } else { LOG_SMALL_WIDTH };
                assert!(step >= w + 20 && step <= w + 250);
            }
        }
    }
}

#[test]
fn log_widths() {
    assert_eq!(LogSize::SMALL.width(), 84);
    assert_eq!(LogSize::BIG.width(), 138);
}
