use vstd::prelude::*;

verus! {

/// Screen height in world units.
pub const SCREEN_HEIGHT: i32 = 800;

/// Screen width in world units.
pub const SCREEN_WIDTH: i32 = 480;

/// Height of one lane.
pub const SEGMENT_HEIGHT: i32 = 40;

/// Width of one column.
pub const SEGMENT_WIDTH: i32 = 40;

/// Half the player's sprite: sprites are anchored at a corner, so this is the
/// distance from the anchor to the sprite's middle.
pub const HALF_PLAYER: i32 = 20;

/// Slowest car speed, in world units per second.
pub const CAR_SPEED_FROM: i32 = 80;

/// Fastest car speed, in world units per second.
pub const CAR_SPEED_TO: i32 = 160;

pub const CAR_WIDTH: i32 = 90;

pub const CAR_HEIGHT: i32 = 59;

pub const TRAIN_WIDTH: i32 = 860;

pub const TRAIN_HEIGHT: i32 = 134;

pub const LOG_BIG_WIDTH: i32 = 138;

pub const LOG_SMALL_WIDTH: i32 = 84;

/// Background scrolling speed, in world units per second.
pub const SCROLLING_SPEED_BACKGROUND: i32 = 45;

/// Log drifting speed, in world units per second.
pub const SCROLLING_SPEED_LOGS: i32 = 60;

/// Train speed, in world units per second.
pub const SCROLLING_SPEED_TRAINS: i32 = 800;

/// Player walking speed, in world units per second.
pub const SCROLLING_SPEED_PLAYER: i32 = 150;

pub fn is_even_number(num: i32) -> (r: bool)
    ensures
        r == (num % 2 == 0),
{
    num % 2 == 0
}

pub fn is_odd_number(num: i32) -> (r: bool)
    ensures
        r == (num % 2 != 0),
{
    !is_even_number(num)
}

/// The column (0 to 11, left to right) whose 40-unit cell holds the middle of a
/// player anchored at `x`; -1 off the grid.
pub open spec fn col_of(x: int) -> int {
    let v = x + HALF_PLAYER;
    if 0 <= v <= 240 {
        if v == 0 {
            6
        } else {
            6 + (v - 1) / 40
        }
    } else if -240 <= v <= -1 {
        5 - (-v - 1) / 40
    } else {
        -1
    }
}

pub fn player_x_to_player_col(player_x: i32) -> (r: i8)
    ensures
        r as int == col_of(player_x as int),
{
    let v: i64 = player_x as i64 + HALF_PLAYER as i64;
    if 0 <= v && v <= 240 {
        if v == 0 {
            6
        } else {
            (6 + (v - 1) / 40) as i8
        }
    } else if -240 <= v && v <= -1 {
        (5 - (-v - 1) / 40) as i8
    } else {
        -1
    }
}

/// The lower and upper x bound of a column's cell; `(-1, -1)` for no column.
pub open spec fn col_bounds(col: int) -> (int, int) {
    if 6 <= col <= 11 {
        ((col - 6) * 40 + if col == 6 {
            0int
        } else {
            1int
        }, (col - 5) * 40)
    } else if 0 <= col <= 5 {
        ((col - 6) * 40, (col - 5) * 40 - 1)
    } else {
        (-1, -1)
    }
}

pub fn player_col_to_coords(col: usize) -> (r: (i32, i32))
    ensures
        (r.0 as int, r.1 as int) == col_bounds(col as int),
{
    if 6 <= col && col <= 11 {
        let c = col as i32;
        ((c - 6) * 40 + if col == 6 {
            0
        } else {
            1
        }, (c - 5) * 40)
    } else if col <= 5 {
        let c = col as i32;
        ((c - 6) * 40, (c - 5) * 40 - 1)
    } else {
        (-1, -1)
    }
}

} // verus!
