use crate::grid::{
    col_bounds, col_of, player_col_to_coords, player_x_to_player_col, HALF_PLAYER, SCREEN_HEIGHT,
    SCREEN_WIDTH, SEGMENT_HEIGHT, SEGMENT_WIDTH,
};
use crate::history::{band_contains, first_band, BackgroundRows};
use crate::lane::{Lane, RowType};
use crate::obstacles::MovementDirection;
use vstd::prelude::*;

verus! {

/// What the player's spot means, beyond the lane category.
#[derive(Debug, Clone, Copy, PartialEq, Eq, Structural)]
pub enum CollisionType {
    /// On a water lane and on no log: drowning.
    WaterOnly,
    /// On a water lane, riding a log that drifts the given way.
    WaterLog(MovementDirection),
    RailsOnly,
    RailsTrain,
    RoadOnly,
    RoadCar,
    /// Grass, dirt or pavement: nothing can hit the player there.
    Other,
}

/// The one direction, if any, in which a hedge stops the player this tick.
#[derive(Debug, Clone, Copy, PartialEq, Eq, Structural)]
pub enum PlayerMovementBlockedDirection {
    Up,
    Down,
    Left,
    Right,
    NotBlocked,
}

/// The direction the player faces or moves.
#[derive(Debug, Clone, Copy, PartialEq, Eq, Structural)]
pub enum PlayerDirection {
    Up,
    Down,
    Left,
    Right,
}

/// An obstacle as it stands now: the lane it belongs to, its left edge in
/// world units, its width, and the way it travels.
#[derive(Debug, Clone, Copy, PartialEq, Eq, Structural)]
pub struct Obstacle {
    pub lane_id: u128,
    pub x: i32,
    pub width: i32,
    pub direction: MovementDirection,
}

/// The obstacle, on the lane `lane_id`, lies under a player anchored at `x`:
/// its extent is shifted by half the player's width, as anchors differ.
pub open spec fn covers(o: Obstacle, lane_id: u128, x: int) -> bool {
    o.lane_id == lane_id && o.x - HALF_PLAYER <= x < o.x + o.width - HALF_PLAYER
}

/// `k` is the first obstacle under the player.
pub open spec fn first_cover(obs: Seq<Obstacle>, lane_id: u128, x: int, k: int) -> bool {
    &&& 0 <= k < obs.len()
    &&& covers(obs[k], lane_id, x)
    &&& forall|j: int| 0 <= j < k ==> !covers(#[trigger] obs[j], lane_id, x)
}

pub open spec fn any_cover(obs: Seq<Obstacle>, lane_id: u128, x: int) -> bool {
    exists|k: int| 0 <= k < obs.len() && covers(#[trigger] obs[k], lane_id, x)
}

/// The collision class of a player anchored at `x` on a lane of category `kind`
/// and identity `lane_id`, among `obs`.
pub open spec fn collision_of(kind: RowType, lane_id: u128, obs: Seq<Obstacle>, x: int) -> CollisionType {
    match kind {
        RowType::WATER => if any_cover(obs, lane_id, x) {
            CollisionType::WaterLog(obs[choose|k: int| first_cover(obs, lane_id, x, k)].direction)
        } else {
            CollisionType::WaterOnly
        },
        RowType::ROAD => if any_cover(obs, lane_id, x) {
            CollisionType::RoadCar
        } else {
            CollisionType::RoadOnly
        },
        RowType::RAIL => if any_cover(obs, lane_id, x) {
            CollisionType::RailsTrain
        } else {
            CollisionType::RailsOnly
        },
        _ => CollisionType::Other,
    }
}

proof fn lemma_first_cover_unique(obs: Seq<Obstacle>, lane_id: u128, x: int, k: int)
    requires
        first_cover(obs, lane_id, x, k),
    ensures
        (choose|j: int| first_cover(obs, lane_id, x, j)) == k,
{
    let c = choose|j: int| first_cover(obs, lane_id, x, j);
    assert(first_cover(obs, lane_id, x, c));
    if c < k {
        assert(!covers(obs[c], lane_id, x));
    } else if c > k {
        assert(!covers(obs[k], lane_id, x));
    }
}

/// Classifies a player anchored at `player_x` on the lane `lane`, given where
/// the obstacles are now.
pub fn classify_collision(lane: &Lane, obstacles: &Vec<Obstacle>, player_x: i32) -> (r: CollisionType)
    ensures
        r == collision_of(lane.kind(), lane.id(), obstacles@, player_x as int),
{
    let kind = lane.get_row_type();
    if kind != RowType::WATER && kind != RowType::ROAD && kind != RowType::RAIL {
        return CollisionType::Other;
    }
    let id = lane.get_row_uuid();
    let px = player_x as i64;
    let n = obstacles.len();
    let mut i: usize = 0;
    while i < n
        invariant
            n == obstacles@.len(),
            i <= n,
            px == player_x as int,
            kind == lane.kind(),
            id == lane.id(),
            kind == RowType::WATER || kind == RowType::ROAD || kind == RowType::RAIL,
            forall|j: int| 0 <= j < i ==> !covers(#[trigger] obstacles@[j], id, player_x as int),
        decreases n - i,
    {
        let o = obstacles[i];
        if o.lane_id == id && o.x as i64 - HALF_PLAYER as i64 <= px && px < o.x as i64 + o.width as i64
            - HALF_PLAYER as i64 {
            proof {
                assert(o == obstacles@[i as int]);
                assert(covers(obstacles@[i as int], id, player_x as int));
                assert(any_cover(obstacles@, id, player_x as int));
                assert(first_cover(obstacles@, id, player_x as int, i as int));
                lemma_first_cover_unique(obstacles@, id, player_x as int, i as int);
            }
            let r = match kind {
                RowType::WATER => CollisionType::WaterLog(o.direction),
                RowType::ROAD => CollisionType::RoadCar,
                _ => CollisionType::RailsTrain,
            };
            return r;
        }
        i = i + 1;
    }
    match kind {
        RowType::WATER => CollisionType::WaterOnly,
        RowType::ROAD => CollisionType::RoadOnly,
        _ => CollisionType::RailsOnly,
    }
}

/// Where the player stands and what that means; updated every tick.
#[derive(Debug, Clone, Copy, PartialEq, Eq, Structural)]
pub struct PlayerPosition {
    /// Category of the lane under the player.
    pub row_type: RowType,
    /// Index of that lane in the history, oldest first; -1 off the grid.
    pub row_index: i8,
    /// Column under the player, 0 to 11 from the left; -1 off the grid.
    pub col_index: i8,
    pub collision_type: CollisionType,
    pub player_x: i32,
    pub player_y: i32,
    pub movement_blocked_dir: PlayerMovementBlockedDirection,
}

/// The record after classifying a player anchored at `(x, y)`: the first lane
/// whose band holds the player decides row, category and collision class. Where
/// no lane does, the row is -1 and category and class stay as they were.
pub open spec fn footing_after(p: PlayerPosition, rows: Seq<Lane>, obs: Seq<Obstacle>, x: i32, y: i32) -> PlayerPosition {
    let found = exists|n: int| first_band(rows, y as int, n);
    let n = choose|n: int| first_band(rows, y as int, n);
    PlayerPosition {
        row_type: if found {
            rows[n].kind()
        } else {
            p.row_type
        },
        row_index: if found {
            n as i8
        } else {
            -1i8
        },
        col_index: col_of(x as int) as i8,
        collision_type: if found {
            collision_of(rows[n].kind(), rows[n].id(), obs, x as int)
        } else {
            p.collision_type
        },
        player_x: x,
        player_y: y,
        movement_blocked_dir: p.movement_blocked_dir,
    }
}

/// The hedge block for a player at `p` facing `d`. Up and down look at the
/// mask of the row above or below, left and right at the player's own row; a
/// hedge cell blocks until the player has crossed the cell boundary. Where the
/// rows needed are not known, the block stays as it was.
pub open spec fn block_of(rows: Seq<Lane>, p: PlayerPosition, d: PlayerDirection) -> PlayerMovementBlockedDirection {
    let row = p.row_index as int;
    let col = p.col_index as int;
    let target = match d {
        PlayerDirection::Up => row + 1,
        PlayerDirection::Down => row - 1,
        _ => row,
    };
    if row <= 0 || row >= rows.len() || col < 0 || col > 11 || target >= rows.len() {
        p.movement_blocked_dir
    } else if rows[target].mask() is None {
        PlayerMovementBlockedDirection::NotBlocked
    } else {
        let m = rows[target].mask().unwrap();
        match d {
            PlayerDirection::Up => if !m[col] && p.player_y > rows[row].pos() {
                PlayerMovementBlockedDirection::Up
            } else {
                PlayerMovementBlockedDirection::NotBlocked
            },
            PlayerDirection::Down => if !m[col] && p.player_y < rows[row].pos() + SEGMENT_HEIGHT {
                PlayerMovementBlockedDirection::Down
            } else {
                PlayerMovementBlockedDirection::NotBlocked
            },
            PlayerDirection::Left => if col > 0 && !m[col - 1] && p.player_x < col_bounds(col).0 {
                PlayerMovementBlockedDirection::Left
            } else {
                PlayerMovementBlockedDirection::NotBlocked
            },
            PlayerDirection::Right => if col < 11 && !m[col + 1] && p.player_x > col_bounds(col).0 {
                PlayerMovementBlockedDirection::Right
            } else {
                PlayerMovementBlockedDirection::NotBlocked
            },
        }
    }
}

/// The record after a whole classification step: footing, then hedge block.
pub open spec fn classified(
    p: PlayerPosition,
    rows: Seq<Lane>,
    obs: Seq<Obstacle>,
    x: i32,
    y: i32,
    d: PlayerDirection,
) -> PlayerPosition {
    let q = footing_after(p, rows, obs, x, y);
    PlayerPosition { movement_blocked_dir: block_of(rows, q, d), ..q }
}

/// Classifying twice with unchanged inputs gives what classifying once gives:
/// the verdict is a function of the current state and accumulates nothing.
pub proof fn lemma_classification_idempotent(
    p: PlayerPosition,
    rows: Seq<Lane>,
    obs: Seq<Obstacle>,
    x: i32,
    y: i32,
    d: PlayerDirection,
)
    ensures
        classified(classified(p, rows, obs, x, y, d), rows, obs, x, y, d) == classified(
            p,
            rows,
            obs,
            x,
            y,
            d,
        ),
{
}

proof fn lemma_first_band_unique(rows: Seq<Lane>, y: int, n: int)
    requires
        first_band(rows, y, n),
    ensures
        (choose|j: int| first_band(rows, y, j)) == n,
{
    let c = choose|j: int| first_band(rows, y, j);
    assert(first_band(rows, y, c));
    if c < n {
        assert(!band_contains(rows[c], y));
    } else if c > n {
        assert(!band_contains(rows[n], y));
    }
}

impl PlayerPosition {
    /// The start of a run: on grass, row 7, column 5, nothing in the way.
    pub fn new() -> (r: Self)
        ensures
            r == (PlayerPosition {
                row_type: RowType::GRASS,
                row_index: 7,
                col_index: 5,
                collision_type: CollisionType::Other,
                player_x: 0,
                player_y: 0,
                movement_blocked_dir: PlayerMovementBlockedDirection::NotBlocked,
            }),
    {
        PlayerPosition {
            row_type: RowType::GRASS,
            row_index: 7,
            col_index: 5,
            collision_type: CollisionType::Other,
            player_x: 0,
            player_y: 0,
            movement_blocked_dir: PlayerMovementBlockedDirection::NotBlocked,
        }
    }

    pub fn set_water_ok(&mut self, direction: MovementDirection)
        ensures
            *final(self) == (PlayerPosition {
                row_type: RowType::WATER,
                collision_type: CollisionType::WaterLog(direction),
                ..*old(self)
            }),
    {
        self.row_type = RowType::WATER;
        self.collision_type = CollisionType::WaterLog(direction);
    }

    pub fn set_water_ko(&mut self)
        ensures
            *final(self) == (PlayerPosition {
                row_type: RowType::WATER,
                collision_type: CollisionType::WaterOnly,
                ..*old(self)
            }),
    {
        self.row_type = RowType::WATER;
        self.collision_type = CollisionType::WaterOnly;
    }

    pub fn set_road_ok(&mut self)
        ensures
            *final(self) == (PlayerPosition {
                row_type: RowType::ROAD,
                collision_type: CollisionType::RoadOnly,
                ..*old(self)
            }),
    {
        self.row_type = RowType::ROAD;
        self.collision_type = CollisionType::RoadOnly;
    }

    pub fn set_road_ko(&mut self)
        ensures
            *final(self) == (PlayerPosition {
                row_type: RowType::ROAD,
                collision_type: CollisionType::RoadCar,
                ..*old(self)
            }),
    {
        self.row_type = RowType::ROAD;
        self.collision_type = CollisionType::RoadCar;
    }

    pub fn set_rail_ok(&mut self)
        ensures
            *final(self) == (PlayerPosition {
                row_type: RowType::RAIL,
                collision_type: CollisionType::RailsOnly,
                ..*old(self)
            }),
    {
        self.row_type = RowType::RAIL;
        self.collision_type = CollisionType::RailsOnly;
    }

    pub fn set_rail_ko(&mut self)
        ensures
            *final(self) == (PlayerPosition {
                row_type: RowType::RAIL,
                collision_type: CollisionType::RailsTrain,
                ..*old(self)
            }),
    {
        self.row_type = RowType::RAIL;
        self.collision_type = CollisionType::RailsTrain;
    }

    pub fn set_dirt(&mut self)
        ensures
            *final(self) == (PlayerPosition {
                row_type: RowType::DIRT,
                collision_type: CollisionType::Other,
                ..*old(self)
            }),
    {
        self.row_type = RowType::DIRT;
        self.collision_type = CollisionType::Other;
    }

    pub fn set_grass(&mut self)
        ensures
            *final(self) == (PlayerPosition {
                row_type: RowType::GRASS,
                collision_type: CollisionType::Other,
                ..*old(self)
            }),
    {
        self.row_type = RowType::GRASS;
        self.collision_type = CollisionType::Other;
    }

    pub fn set_pavement(&mut self)
        ensures
            *final(self) == (PlayerPosition {
                row_type: RowType::PAVEMENT,
                collision_type: CollisionType::Other,
                ..*old(self)
            }),
    {
        self.row_type = RowType::PAVEMENT;
        self.collision_type = CollisionType::Other;
    }

    /// Locates a player anchored at `(player_x, player_y)` in `rows` and
    /// classifies the spot against where the obstacles are now.
    pub fn update_footing(
        &mut self,
        rows: &BackgroundRows,
        obstacles: &Vec<Obstacle>,
        player_x: i32,
        player_y: i32,
    )
        ensures
            *final(self) == footing_after(*old(self), rows@, obstacles@, player_x, player_y),
    {
        self.player_x = player_x;
        self.player_y = player_y;
        self.col_index = player_x_to_player_col(player_x);
        match rows.get_player_row(player_y) {
            Some(n) => {
                proof {
                    lemma_first_band_unique(rows@, player_y as int, n as int);
                }
                let lane = rows.get_row(n as usize).unwrap();
                self.row_index = n;
                self.row_type = lane.get_row_type();
                self.collision_type = classify_collision(&lane, obstacles, player_x);
            },
            None => {
                self.row_index = -1;
            },
        }
    }

    /// Decides whether a hedge stops a player facing `direction`.
    pub fn detect_bushes(&mut self, rows: &BackgroundRows, direction: PlayerDirection)
        ensures
            *final(self) == (PlayerPosition {
                movement_blocked_dir: block_of(rows@, *old(self), direction),
                ..*old(self)
            }),
    {
        let row = self.row_index;
        let col = self.col_index;
        let len = rows.len();
        if row <= 0 || row as usize >= len || col < 0 || col > 11 {
            return;
        }
        let target: usize = match direction {
            PlayerDirection::Up => row as usize + 1,
            PlayerDirection::Down => row as usize - 1,
            _ => row as usize,
        };
        if target >= len {
            return;
        }
        let lane = rows.get_row(target).unwrap();
        let c = col as usize;
        let blocked = match lane.get_row_mask() {
            None => PlayerMovementBlockedDirection::NotBlocked,
            Some(m) => match direction {
                PlayerDirection::Up => if !m[c] && self.player_y as i64 > rows.get_player_row_to_coords(row).0 {
                    PlayerMovementBlockedDirection::Up
                } else {
                    PlayerMovementBlockedDirection::NotBlocked
                },
                PlayerDirection::Down => if !m[c] && (self.player_y as i64) < rows.get_player_row_to_coords(
                    row,
                ).1 {
                    PlayerMovementBlockedDirection::Down
                } else {
                    PlayerMovementBlockedDirection::NotBlocked
                },
                PlayerDirection::Left => if c > 0 && !m[c - 1] && self.player_x < player_col_to_coords(c).0 {
                    PlayerMovementBlockedDirection::Left
                } else {
                    PlayerMovementBlockedDirection::NotBlocked
                },
                PlayerDirection::Right => if c < 11 && !m[c + 1] && self.player_x > player_col_to_coords(c).0 {
                    PlayerMovementBlockedDirection::Right
                } else {
                    PlayerMovementBlockedDirection::NotBlocked
                },
            },
        };
        self.movement_blocked_dir = blocked;
    }

    /// One classification step: footing, then hedge block.
    pub fn classify(
        &mut self,
        rows: &BackgroundRows,
        obstacles: &Vec<Obstacle>,
        player_x: i32,
        player_y: i32,
        direction: PlayerDirection,
    )
        ensures
            *final(self) == classified(*old(self), rows@, obstacles@, player_x, player_y, direction),
    {
        self.update_footing(rows, obstacles, player_x, player_y);
        self.detect_bushes(rows, direction);
    }

    /// The spot ends the run: drowning, struck, or scrolled off the grid.
    pub fn is_fatal(&self) -> (r: bool)
        ensures
            r == (self.row_index < 0 || self.col_index < 0 || self.collision_type
                == CollisionType::WaterOnly || self.collision_type == CollisionType::RoadCar
                || self.collision_type == CollisionType::RailsTrain),
    {
        self.row_index < 0 || self.col_index < 0 || self.collision_type == CollisionType::WaterOnly
            || self.collision_type == CollisionType::RoadCar || self.collision_type
            == CollisionType::RailsTrain
    }
}

/// Where a player at `(x, y)` ends up after one step of `step` units towards
/// `intent`: a blocked direction leaves the player in place, and the player
/// never leaves the screen.
pub open spec fn step_to(
    x: int,
    y: int,
    intent: Option<PlayerDirection>,
    blocked: PlayerMovementBlockedDirection,
    step: int,
) -> (int, int) {
    let top = SCREEN_HEIGHT / 2 - SEGMENT_HEIGHT;
    let bottom = -SCREEN_HEIGHT / 2;
    let left = -SCREEN_WIDTH / 2;
    let right = SCREEN_WIDTH / 2 - SEGMENT_WIDTH;
    match intent {
        Some(PlayerDirection::Up) => if blocked == PlayerMovementBlockedDirection::Up {
            (x, y)
        } else {
            (x, if y + step > top { top } else { y + step })
        },
        Some(PlayerDirection::Down) => if blocked == PlayerMovementBlockedDirection::Down {
            (x, y)
        } else {
            (x, if y - step < bottom { bottom } else { y - step })
        },
        Some(PlayerDirection::Left) => if blocked == PlayerMovementBlockedDirection::Left {
            (x, y)
        } else {
            (if x - step < left { left } else { x - step }, y)
        },
        Some(PlayerDirection::Right) => if blocked == PlayerMovementBlockedDirection::Right {
            (x, y)
        } else {
            (if x + step > right { right } else { x + step }, y)
        },
        None => (x, y),
    }
}

/// Moves the player one tick; `step` is the distance covered this tick.
pub fn player_movement(
    x: i32,
    y: i32,
    intent: Option<PlayerDirection>,
    blocked: PlayerMovementBlockedDirection,
    step: i32,
) -> (r: (i32, i32))
    requires
        step >= 0,
    ensures
        (r.0 as int, r.1 as int) == step_to(x as int, y as int, intent, blocked, step as int),
{
    let top: i64 = (SCREEN_HEIGHT / 2 - SEGMENT_HEIGHT) as i64;
    let bottom: i64 = (-SCREEN_HEIGHT / 2) as i64;
    let left: i64 = (-SCREEN_WIDTH / 2) as i64;
    let right: i64 = (SCREEN_WIDTH / 2 - SEGMENT_WIDTH) as i64;
    let (x64, y64, s) = (x as i64, y as i64, step as i64);
    match intent {
        Some(PlayerDirection::Up) => if blocked == PlayerMovementBlockedDirection::Up {
            (x, y)
        } else {
            (x, if y64 + s > top { top as i32 } else { (y64 + s) as i32 })
        },
        Some(PlayerDirection::Down) => if blocked == PlayerMovementBlockedDirection::Down {
            (x, y)
        } else {
            (x, if y64 - s < bottom { bottom as i32 } else { (y64 - s) as i32 })
        },
        Some(PlayerDirection::Left) => if blocked == PlayerMovementBlockedDirection::Left {
            (x, y)
        } else {
            (if x64 - s < left { left as i32 } else { (x64 - s) as i32 }, y)
        },
        Some(PlayerDirection::Right) => if blocked == PlayerMovementBlockedDirection::Right {
            (x, y)
        } else {
            (if x64 + s > right { right as i32 } else { (x64 + s) as i32 }, y)
        },
        None => (x, y),
    }
}

/// Where an obstacle travelling in `direction` is after moving `step` units.
pub fn obstacle_movement(x: i32, direction: MovementDirection, step: i32) -> (r: i32)
    requires
        step >= 0,
        i32::MIN <= x - step,
        x + step <= i32::MAX,
    ensures
        r == match direction {
            MovementDirection::LEFT => x - step,
            MovementDirection::RIGHT => x + step,
        },
{
    match direction {
        MovementDirection::LEFT => x - step,
        MovementDirection::RIGHT => x + step,
    }
}

/// Where the player is after the background scrolled down by `background_step`
/// units: the player goes down with it, and one riding a log also drifts
/// `log_step` units with the log.
pub fn player_scrolling(
    x: i32,
    y: i32,
    collision_type: CollisionType,
    background_step: i32,
    log_step: i32,
) -> (r: (i32, i32))
    requires
        background_step >= 0,
        log_step >= 0,
        i32::MIN <= y - background_step,
        i32::MIN <= x - log_step,
        x + log_step <= i32::MAX,
    ensures
        r.1 == y - background_step,
        r.0 == match collision_type {
            CollisionType::WaterLog(MovementDirection::RIGHT) => x + log_step,
            CollisionType::WaterLog(MovementDirection::LEFT) => x - log_step,
            _ => x as int,
        },
{
    let new_x = match collision_type {
        CollisionType::WaterLog(direction) => obstacle_movement(x, direction, log_step),
        _ => x,
    };
    (new_x, y - background_step)
}

} // verus!
