use crate::grid::{
    is_even_number, CAR_SPEED_FROM, CAR_SPEED_TO, CAR_WIDTH, LOG_BIG_WIDTH, LOG_SMALL_WIDTH,
    SCREEN_WIDTH, TRAIN_WIDTH,
};
use crate::random::{coin_flip, get_random_i32, get_random_i8};
use vstd::prelude::*;

verus! {

/// Which way an obstacle travels.
#[derive(Debug, Clone, Copy, PartialEq, Eq, Structural)]
pub enum MovementDirection {
    LEFT,
    RIGHT,
}

/// The two log lengths.
#[derive(Debug, Clone, Copy, PartialEq, Eq, Structural)]
pub enum LogSize {
    SMALL,
    BIG,
}

pub open spec fn log_width(size: LogSize) -> int {
    match size {
        LogSize::SMALL => LOG_SMALL_WIDTH as int,
        LogSize::BIG => LOG_BIG_WIDTH as int,
    }
}

impl LogSize {
    /// The log's length in world units.
    pub fn width(&self) -> (r: i32)
        ensures
            r == log_width(*self),
    {
        match self {
            LogSize::SMALL => LOG_SMALL_WIDTH,
            LogSize::BIG => LOG_BIG_WIDTH,
        }
    }
}

/// A car to be placed on a road lane: it enters after `delay` seconds.
#[derive(Debug, Clone, Copy, PartialEq, Eq)]
pub struct CarSpawn {
    pub direction: MovementDirection,
    pub x: i32,
    pub speed: i32,
    pub delay: i32,
}

/// A train to be placed on a rail lane: it enters after `delay` seconds.
#[derive(Debug, Clone, Copy, PartialEq, Eq)]
pub struct TrainSpawn {
    pub direction: MovementDirection,
    pub x: i32,
    pub delay: i32,
}

/// A log to be placed on a water lane, at offset `x` from the lane's left edge.
#[derive(Debug, Clone, Copy, PartialEq, Eq)]
pub struct LogSpawn {
    pub direction: MovementDirection,
    pub size: LogSize,
    pub x: i32,
}

/// Where an obstacle travelling in `direction` starts: just off screen on the
/// side it comes from.
pub open spec fn entry_x(direction: MovementDirection, width: int) -> int {
    match direction {
        MovementDirection::RIGHT => -width - 100,
        MovementDirection::LEFT => SCREEN_WIDTH + 100,
    }
}

/// A speed drawn from `from..=to` that is positive and at most `max`.
pub fn get_random_car_speed(max: i32, from: i32, to: i32) -> (r: i32)
    requires
        (if from > 1 { from } else { 1 }) <= (if to < max { to } else { max }),
    ensures
        0 < r <= max,
        from <= r <= to,
{
    let lo = if from > 1 { from } else { 1 };
    let hi = if to < max { to } else { max };
    get_random_i32(lo, hi)
}

/// `speeds` never rise from one car to the next, and lie in `from..=max`.
pub open spec fn speeds_safe(speeds: Seq<i32>, from: int, max: int) -> bool {
    &&& forall|k: int| 0 <= k < speeds.len() ==> 0 < from <= #[trigger] speeds[k] <= max
    &&& forall|k: int| 0 < k < speeds.len() ==> #[trigger] speeds[k] <= speeds[k - 1]
}

/// Speeds for `count` cars of one lane in spawn order, the first at most `max`
/// and each at most the one before, so that no car catches up with another.
pub fn get_random_car_speeds(count: usize, max: i32) -> (r: Vec<i32>)
    requires
        CAR_SPEED_FROM <= max,
    ensures
        r@.len() == count,
        speeds_safe(r@, CAR_SPEED_FROM as int, max as int),
        forall|k: int| 0 <= k < r@.len() ==> #[trigger] r@[k] <= CAR_SPEED_TO,
{
    let mut speeds: Vec<i32> = Vec::new();
    let mut previous = max;
    let mut i: usize = 0;
    while i < count
        invariant
            i <= count,
            speeds@.len() == i,
            CAR_SPEED_FROM <= previous <= max,
            i > 0 ==> previous == speeds@[i - 1],
            speeds_safe(speeds@, CAR_SPEED_FROM as int, max as int),
            forall|k: int| 0 <= k < speeds@.len() ==> #[trigger] speeds@[k] <= CAR_SPEED_TO,
        decreases count - i,
    {
        let speed = get_random_car_speed(previous, CAR_SPEED_FROM, CAR_SPEED_TO);
        speeds.push(speed);
        previous = speed;
        i = i + 1;
    }
    speeds
}

/// Spawn delays grow from one obstacle to the next by `lo..=hi` seconds, the
/// first being `lo..=hi` as well.
pub open spec fn delays_stepped(delays: Seq<i32>, lo: int, hi: int) -> bool {
    &&& delays.len() > 0 ==> lo <= delays[0] <= hi
    &&& forall|k: int| 0 < k < delays.len() ==> lo <= #[trigger] delays[k] - delays[k - 1] <= hi
}

pub open spec fn car_delays(cars: Seq<CarSpawn>) -> Seq<i32> {
    cars.map_values(|c: CarSpawn| c.delay)
}

pub open spec fn car_speeds(cars: Seq<CarSpawn>) -> Seq<i32> {
    cars.map_values(|c: CarSpawn| c.speed)
}

/// The cars of a road lane: 4 to 20, all one way, entering one after another
/// 3 to 7 seconds apart, none faster than the one before.
pub open spec fn cars_placed(cars: Seq<CarSpawn>) -> bool {
    &&& 4 <= cars.len() <= 20
    &&& forall|k: int|
        0 <= k < cars.len() ==> (#[trigger] cars[k]).direction == cars[0].direction && cars[k].x
            == entry_x(cars[0].direction, CAR_WIDTH as int)
    &&& speeds_safe(car_speeds(cars), CAR_SPEED_FROM as int, CAR_SPEED_TO as int)
    &&& delays_stepped(car_delays(cars), 3, 7)
}

/// Draws the cars of a new road lane.
pub fn put_cars_on_road() -> (r: Vec<CarSpawn>)
    ensures
        cars_placed(r@),
{
    let direction = if coin_flip() {
        MovementDirection::RIGHT
    } else {
        MovementDirection::LEFT
    };
    let x = if direction == MovementDirection::RIGHT {
        -CAR_WIDTH - 100
    } else {
        SCREEN_WIDTH + 100
    };
    let count = get_random_i8(4, 20) as usize;
    let speeds = get_random_car_speeds(count, CAR_SPEED_TO);
    let mut cars: Vec<CarSpawn> = Vec::new();
    let mut delay: i32 = 0;
    let mut i: usize = 0;
    while i < count
        invariant
            i <= count,
            4 <= count <= 20,
            speeds@.len() == count,
            speeds_safe(speeds@, CAR_SPEED_FROM as int, CAR_SPEED_TO as int),
            cars@.len() == i,
            x == entry_x(direction, CAR_WIDTH as int),
            0 <= delay <= 7 * i,
            i > 0 ==> delay == cars@[i - 1].delay,
            forall|k: int|
                0 <= k < i ==> (#[trigger] cars@[k]).direction == direction && cars@[k].x == x
                    && cars@[k].speed == speeds@[k],
            delays_stepped(car_delays(cars@), 3, 7),
        decreases count - i,
    {
        let ghost before = cars@;
        delay = delay + get_random_i32(3, 7);
        cars.push(CarSpawn { direction, x, speed: speeds[i], delay });
        i = i + 1;
        proof {
            assert(car_delays(cars@) =~= car_delays(before).push(delay));
        }
    }
    assert(car_speeds(cars@) =~= speeds@);
    cars
}

pub open spec fn train_delays(trains: Seq<TrainSpawn>) -> Seq<i32> {
    trains.map_values(|t: TrainSpawn| t.delay)
}

/// The trains of a rail lane: 2 to 4, each coming from a side of its own,
/// entering one after another 4 to 7 seconds apart.
pub open spec fn trains_placed(trains: Seq<TrainSpawn>) -> bool {
    &&& 2 <= trains.len() <= 4
    &&& forall|k: int|
        0 <= k < trains.len() ==> (#[trigger] trains[k]).x == entry_x(trains[k].direction, TRAIN_WIDTH as int)
    &&& delays_stepped(train_delays(trains), 4, 7)
}

/// Draws the trains of a new rail lane.
pub fn put_trains_on_rails() -> (r: Vec<TrainSpawn>)
    ensures
        trains_placed(r@),
{
    let count = get_random_i8(2, 4) as usize;
    let mut trains: Vec<TrainSpawn> = Vec::new();
    let mut delay: i32 = 0;
    let mut i: usize = 0;
    while i < count
        invariant
            i <= count,
            2 <= count <= 4,
            trains@.len() == i,
            0 <= delay <= 7 * i,
            i > 0 ==> delay == trains@[i - 1].delay,
            forall|k: int|
                0 <= k < i ==> (#[trigger] trains@[k]).x == entry_x(trains@[k].direction, TRAIN_WIDTH as int),
            delays_stepped(train_delays(trains@), 4, 7),
        decreases count - i,
    {
        let ghost before = trains@;
        delay = delay + get_random_i32(4, 7);
        let train = if coin_flip() {
            TrainSpawn { direction: MovementDirection::RIGHT, x: -TRAIN_WIDTH - 100, delay }
        } else {
            TrainSpawn { direction: MovementDirection::LEFT, x: SCREEN_WIDTH + 100, delay }
        };
        trains.push(train);
        i = i + 1;
        proof {
            assert(train_delays(trains@) =~= train_delays(before).push(delay));
        }
    }
    trains
}

/// Logs per water lane.
pub const LOGS_PER_ROW: usize = 10;

/// Least free space between two logs.
pub const LOGS_GAP_FROM: i32 = 20;

/// Most free space between two logs.
pub const LOGS_GAP_TO: i32 = 250;

/// Logs on an even lane drift right and are laid out leftwards from the lane's
/// left edge; on an odd lane they drift left and are laid out rightwards from
/// the middle, so that neighbouring water lanes flow against each other.
pub open spec fn logs_laid_out(logs: Seq<LogSpawn>, even: bool) -> bool {
    &&& logs.len() > 0 ==> logs[0].x == if even {
        0
    } else {
        SCREEN_WIDTH / 2 - LOG_SMALL_WIDTH
    }
    &&& forall|k: int|
        0 <= k < logs.len() ==> (#[trigger] logs[k]).direction == if even {
            MovementDirection::RIGHT
        } else {
            MovementDirection::LEFT
        }
    &&& forall|k: int| 0 < k < logs.len() ==> log_follows(logs[k - 1], #[trigger] logs[k], even)
}

/// `cur` lies behind `prev`, with free space of 20 to 250 units between them.
pub open spec fn log_follows(prev: LogSpawn, cur: LogSpawn, even: bool) -> bool {
    let step = if even {
        prev.x - cur.x
    } else {
        cur.x - prev.x
    };
    log_width(cur.size) + LOGS_GAP_FROM <= step <= log_width(cur.size) + LOGS_GAP_TO
}

pub fn get_random_log_size() -> (r: LogSize) {
    if get_random_i32(1, 2) == 1 {
        LogSize::SMALL
    } else {
        LogSize::BIG
    }
}

/// The logs of a water lane of sub-index `index`: ten, laid out by parity.
pub open spec fn logs_placed(logs: Seq<LogSpawn>, index: int) -> bool {
    logs.len() == LOGS_PER_ROW && logs_laid_out(logs, index % 2 == 0)
}

/// Draws the logs of a new water lane of sub-index `index`.
pub fn put_logs_on_water(index: i8) -> (r: Vec<LogSpawn>)
    ensures
        logs_placed(r@, index as int),
{
    let even = is_even_number(index as i32);
    let direction = if even {
        MovementDirection::RIGHT
    } else {
        MovementDirection::LEFT
    };
    let mut x: i32 = if even {
        0
    } else {
        SCREEN_WIDTH / 2 - LOG_SMALL_WIDTH
    };
    let mut logs: Vec<LogSpawn> = Vec::new();
    let mut i: usize = 0;
    while i < LOGS_PER_ROW
        invariant
            i <= LOGS_PER_ROW,
            logs@.len() == i,
            even == (index as int % 2 == 0),
            direction == if even {
                MovementDirection::RIGHT
            } else {
                MovementDirection::LEFT
            },
            i == 0 ==> x == if even {
                0
            } else {
                SCREEN_WIDTH / 2 - LOG_SMALL_WIDTH
            },
            i > 0 ==> x == logs@[i - 1].x,
            -400 * i <= x <= 156 + 400 * i,
            logs_laid_out(logs@, even),
        decreases LOGS_PER_ROW - i,
    {
        let ghost before = logs@;
        let ghost prev_x = x;
        let size = get_random_log_size();
        if i > 0 {
            let width = size.width();
            let step = get_random_i32(width + LOGS_GAP_FROM, width + LOGS_GAP_TO);
            x = if even {
                x - step
            } else {
                x + step
            };
        }
        let log = LogSpawn { direction, size, x };
        logs.push(log);
        proof {
            assert(logs@ == before.push(log));
            if i > 0 {
                assert(log_follows(before[i - 1], log, even));
            }
            assert forall|k: int| 0 < k < logs@.len() implies log_follows(
                logs@[k - 1],
                #[trigger] logs@[k],
                even,
            ) by {
                if k < i {
                    assert(logs@[k] == before[k]);
                    assert(logs@[k - 1] == before[k - 1]);
                }
            }
        }
        i = i + 1;
    }
    logs
}

} // verus!
