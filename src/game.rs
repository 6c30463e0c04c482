use crate::footing::{CollisionType, PlayerPosition};
use crate::grid::{SCREEN_HEIGHT, SEGMENT_HEIGHT, SEGMENT_WIDTH};
use crate::hedge::{gaps_reachable, generate_hedge, hedge_matches, hedged};
use crate::history::{after_pushes, pushed, BackgroundRows};
use crate::lane::{can_follow, HedgeHalf, Lane, RowType};
use crate::obstacles::{
    cars_placed, logs_placed, put_cars_on_road, put_logs_on_water, put_trains_on_rails,
    trains_placed, CarSpawn, LogSpawn, TrainSpawn,
};
use vstd::prelude::*;

verus! {

/// Game states.
#[derive(Debug, Clone, Copy, PartialEq, Eq, Structural)]
pub enum AppState {
    /// The first menu, to start a game or leave.
    Menu,
    /// The player is playing.
    InGame,
    /// The player was just run over: the scene stands still a while.
    JustDied,
    /// The player just drowned: a splash shows before the end.
    JustDiedInWater,
    /// The game-over caption is shown.
    GameOver,
}

/// Whether the hedge sprite is the lower or the upper part of its pair.
#[derive(Debug, Clone, Copy, PartialEq, Eq, Structural)]
pub enum BushVerticalType {
    BOTTOM,
    TOP,
}

/// The shape of one hedge cell, from its neighbours.
#[derive(Debug, Clone, Copy, PartialEq, Eq, Structural)]
pub enum BushHorizontalType {
    SINGLE,
    LEFTMOST,
    RIGHTMOST,
    MIDDLE1,
    MIDDLE2,
    MIDDLE3,
}

/// One hedge cell to draw, at offset `x` from the lane's left edge.
#[derive(Debug, Clone, Copy, PartialEq, Eq, Structural)]
pub struct BushSpawn {
    pub x: i32,
    pub vertical: BushVerticalType,
    pub horizontal: BushHorizontalType,
}

/// The shape of the hedge cell at column `i`, from the gaps beside it.
pub open spec fn bush_shape(mask: Seq<bool>, i: int) -> BushHorizontalType {
    if i == 0 {
        if mask[1] {
            BushHorizontalType::SINGLE
        } else {
            BushHorizontalType::LEFTMOST
        }
    } else if i < 11 {
        if mask[i - 1] && mask[i + 1] {
            BushHorizontalType::SINGLE
        } else if mask[i - 1] {
            BushHorizontalType::LEFTMOST
        } else if mask[i + 1] {
            BushHorizontalType::RIGHTMOST
        } else {
            BushHorizontalType::MIDDLE1
        }
    } else {
        if mask[i - 1] {
            BushHorizontalType::LEFTMOST
        } else {
            BushHorizontalType::MIDDLE1
        }
    }
}

/// The hedge cells of `mask`, left to right: one for each column that is no gap.
pub open spec fn bush_cells(mask: Seq<bool>, vertical: BushVerticalType, upto: int) -> Seq<BushSpawn>
    decreases upto,
{
    if upto <= 0 {
        Seq::empty()
    } else {
        let before = bush_cells(mask, vertical, upto - 1);
        let i = upto - 1;
        if mask[i] {
            before
        } else {
            before.push(
                BushSpawn { x: (i * SEGMENT_WIDTH) as i32, vertical, horizontal: bush_shape(mask, i) },
            )
        }
    }
}

/// The hedge cells to draw on a lane; none for a lane without a mask.
pub fn put_bushes_on_grass(lane: &Lane) -> (r: Vec<BushSpawn>)
    ensures
        r@ == bushes_of(*lane),
{
    let mut bushes: Vec<BushSpawn> = Vec::new();
    match lane.get_row_mask() {
        None => bushes,
        Some(mask) => {
            let vertical = if lane.get_row_data() == Some(HedgeHalf::Top) {
                BushVerticalType::TOP
            } else {
                BushVerticalType::BOTTOM
            };
            let mut i: usize = 0;
            while i < 12
                invariant
                    i <= 12,
                    bushes@ == bush_cells(mask@, vertical, i as int),
                decreases 12 - i,
            {
                if !mask[i] {
                    let horizontal = if i == 0 {
                        if mask[1] {
                            BushHorizontalType::SINGLE
                        } else {
                            BushHorizontalType::LEFTMOST
                        }
                    } else if i < 11 {
                        if mask[i - 1] && mask[i + 1] {
                            BushHorizontalType::SINGLE
                        } else if mask[i - 1] {
                            BushHorizontalType::LEFTMOST
                        } else if mask[i + 1] {
                            BushHorizontalType::RIGHTMOST
                        } else {
                            BushHorizontalType::MIDDLE1
                        }
                    } else {
                        if mask[i - 1] {
                            BushHorizontalType::LEFTMOST
                        } else {
                            BushHorizontalType::MIDDLE1
                        }
                    };
                    bushes.push(BushSpawn { x: i as i32 * SEGMENT_WIDTH, vertical, horizontal });
                }
                i = i + 1;
            }
            bushes
        },
    }
}

/// What a new lane brings with it: obstacles for roads, the train track and
/// water, hedge cells for grass with a mask.
pub struct Decoration {
    pub cars: Vec<CarSpawn>,
    pub trains: Vec<TrainSpawn>,
    pub logs: Vec<LogSpawn>,
    pub bushes: Vec<BushSpawn>,
}

/// Trains run on one lane of each four-lane track only: the second one.
pub open spec fn hosts_trains(lane: Lane) -> bool {
    lane.kind() == RowType::RAIL && lane.sub_index() == 1
}

/// The hedge cells of a lane; none without a mask.
pub open spec fn bushes_of(lane: Lane) -> Seq<BushSpawn> {
    if lane.mask() is None {
        Seq::empty()
    } else {
        bush_cells(
            lane.mask().unwrap()@,
            if lane.half() == Some(HedgeHalf::Top) {
                BushVerticalType::TOP
            } else {
                BushVerticalType::BOTTOM
            },
            12,
        )
    }
}

/// Each kind of content goes where it belongs, and only there: cars on roads,
/// trains on the second lane of a track, logs on water, hedge cells as the mask
/// says.
pub open spec fn decoration_fits(lane: Lane, d: Decoration) -> bool {
    &&& if lane.kind() == RowType::ROAD {
        cars_placed(d.cars@)
    } else {
        d.cars@.len() == 0
    }
    &&& if hosts_trains(lane) {
        trains_placed(d.trains@)
    } else {
        d.trains@.len() == 0
    }
    &&& if lane.kind() == RowType::WATER {
        logs_placed(d.logs@, lane.sub_index())
    } else {
        d.logs@.len() == 0
    }
    &&& d.bushes@ == bushes_of(lane)
}

/// Draws the obstacles and hedge cells of a lane.
pub fn decorate_lane(lane: &Lane) -> (r: Decoration)
    ensures
        decoration_fits(*lane, r),
{
    let kind = lane.get_row_type();
    let cars = if kind == RowType::ROAD {
        put_cars_on_road()
    } else {
        Vec::new()
    };
    let trains = if kind == RowType::RAIL && lane.get_index() == 1 {
        put_trains_on_rails()
    } else {
        Vec::new()
    };
    let logs = if kind == RowType::WATER {
        put_logs_on_water(lane.get_index())
    } else {
        Vec::new()
    };
    let bushes = put_bushes_on_grass(lane);
    Decoration { cars, trains, logs, bushes }
}

/// The top lane has scrolled far enough that a new one must appear above it.
pub fn needs_new_top_row(top_y: i32) -> (r: bool)
    ensures
        r == (top_y < SCREEN_HEIGHT / 2 - SEGMENT_HEIGHT),
{
    top_y < SCREEN_HEIGHT / 2 - SEGMENT_HEIGHT
}

/// The lane has scrolled fully below the screen and can be retired.
pub fn is_scrolled_off(y: i32) -> (r: bool)
    ensures
        r == (y < -SCREEN_HEIGHT / 2 - SEGMENT_HEIGHT),
{
    y < -SCREEN_HEIGHT / 2 - SEGMENT_HEIGHT
}

impl BackgroundRows {
    /// Generates the lane above `top`, gives it its hedge, places it right
    /// above `top`, records it, and draws what it brings with it.
    pub fn spawn_next_row(&mut self, top: &Lane) -> (r: (Lane, Decoration))
        requires
            top.pos() + SEGMENT_HEIGHT <= i32::MAX,
        ensures
            can_follow(top.kind(), top.sub_index(), r.0.kind(), r.0.sub_index()),
            r.0.pos() == top.pos() + SEGMENT_HEIGHT,
            r.0.wf(),
            exists|start: bool, m: [bool; 12]|
                gaps_reachable(m@) && #[trigger] hedge_matches(r.0, old(self).last_row_spec(), start, m),
            final(self)@ == pushed(old(self)@, r.0),
            decoration_fits(r.0, r.1),
    {
        let mut lane = top.next();
        let ghost fresh = lane;
        generate_hedge(&mut lane, &*self);
        let ghost hedged_lane = lane;
        let y = top.get_row_y() + SEGMENT_HEIGHT;
        lane.set_row_y(y);
        proof {
            let witness = choose|start: bool, m: [bool; 12]|
                gaps_reachable(m@) && #[trigger] hedged(fresh, hedged_lane, self.last_row_spec(), start, m);
            assert(hedge_matches(lane, self.last_row_spec(), witness.0, witness.1));
        }
        self.add_row(lane);
        let decoration = decorate_lane(&lane);
        (lane, decoration)
    }
}

/// Number of lanes on screen.
pub const ROW_COUNT: usize = 20;

/// Where the `k`-th lane of a run starts: lanes are stacked from the bottom edge
/// of the screen up.
pub open spec fn start_y(k: int) -> int {
    -SCREEN_HEIGHT / 2 + SEGMENT_HEIGHT * k
}

/// The lanes a run starts with, bottom first: a grass lane of sub-index 0, then
/// each lane the chain produces from the one below, without hedges. The history
/// holds them in that order.
pub fn game_setup(row_count: usize) -> (r: (BackgroundRows, Vec<Lane>))
    requires
        row_count <= 50_000_000,
    ensures
        r.1@.len() == row_count,
        row_count > 0 ==> r.1@[0].kind() == RowType::GRASS && r.1@[0].sub_index() == 0,
        forall|k: int|
            0 < k < row_count ==> can_follow(
                r.1@[k - 1].kind(),
                r.1@[k - 1].sub_index(),
                (#[trigger] r.1@[k]).kind(),
                r.1@[k].sub_index(),
            ),
        forall|k: int|
            0 <= k < row_count ==> (#[trigger] r.1@[k]).pos() == start_y(k) && r.1@[k].mask() is None
                && r.1@[k].wf(),
        r.0@ == after_pushes(Seq::empty(), r.1@),
{
    let mut rows = BackgroundRows::new();
    let mut lanes: Vec<Lane> = Vec::new();
    let mut i: usize = 0;
    while i < row_count
        invariant
            i <= row_count <= 50_000_000,
            lanes@.len() == i,
            i > 0 ==> lanes@[0].kind() == RowType::GRASS && lanes@[0].sub_index() == 0,
            forall|k: int|
                0 < k < i ==> can_follow(
                    lanes@[k - 1].kind(),
                    lanes@[k - 1].sub_index(),
                    (#[trigger] lanes@[k]).kind(),
                    lanes@[k].sub_index(),
                ),
            forall|k: int|
                0 <= k < i ==> (#[trigger] lanes@[k]).pos() == start_y(k) && lanes@[k].mask() is None
                    && lanes@[k].wf(),
            rows@ == after_pushes(Seq::empty(), lanes@),
        decreases row_count - i,
    {
        let mut lane = if i == 0 {
            Lane::new(RowType::GRASS, 0)
        } else {
            lanes[i - 1].next()
        };
        let y = -SCREEN_HEIGHT / 2 + SEGMENT_HEIGHT * i as i32;
        lane.set_row_y(y);
        rows.add_row(lane);
        let ghost before = lanes@;
        lanes.push(lane);
        proof {
            assert(lanes@.drop_last() =~= before);
        }
        i = i + 1;
    }
    (rows, lanes)
}

/// The state after a tick in `state`: a player run over by a car while playing
/// has just died; anything else leaves the state as it is.
pub fn player_die(player_position: &PlayerPosition, state: AppState) -> (r: AppState)
    ensures
        r == if state == AppState::InGame && player_position.collision_type == CollisionType::RoadCar {
            AppState::JustDied
        } else {
            state
        },
{
    if state == AppState::InGame && player_position.collision_type == CollisionType::RoadCar {
        AppState::JustDied
    } else {
        state
    }
}

/// Whether the background scrolls, and when (in whole seconds) that last
/// changed.
#[derive(Debug, Clone, Copy, PartialEq, Eq, Structural)]
pub struct BackgroundScrollingEnabled {
    pub enabled: bool,
    pub changed: u64,
}

impl BackgroundScrollingEnabled {
    pub fn new() -> (r: Self)
        ensures
            r == (BackgroundScrollingEnabled { enabled: true, changed: 0 }),
    {
        BackgroundScrollingEnabled { enabled: true, changed: 0 }
    }

    /// Switches scrolling on or off at time `now`, unless it changed less than
    /// two seconds ago (a held key would otherwise flip it every tick).
    pub fn toggle(&mut self, now: u64)
        ensures
            *final(self) == if now > old(self).changed && now - old(self).changed > 1 {
                BackgroundScrollingEnabled { enabled: !old(self).enabled, changed: now }
            } else {
                *old(self)
            },
    {
        if now > self.changed && now - self.changed > 1 {
            self.enabled = !self.enabled;
            self.changed = now;
        }
    }
}

} // verus!
