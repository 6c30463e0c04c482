use crate::lane::{can_follow, legal_index, Lane, RowType};
use vstd::prelude::*;

verus! {

/// A lane category together with a sub-index: what a lane is before it is
/// placed on screen.
pub trait Row {
    spec fn spec_row_type(&self) -> RowType;

    spec fn spec_index(&self) -> int;

    fn get_row_type(&self) -> (r: RowType)
        ensures
            r == self.spec_row_type(),
    ;

    fn get_index(&self) -> (r: i8)
        ensures
            r as int == self.spec_index(),
    ;

    /// A fresh lane of this category and sub-index.
    fn to_lane(&self) -> (r: Lane)
        requires
            legal_index(self.spec_row_type(), self.spec_index()),
        ensures
            r.kind() == self.spec_row_type(),
            r.sub_index() == self.spec_index(),
            r.mask() is None,
            r.half() is None,
            r.pos() == 0,
    {
        Lane::new(self.get_row_type(), self.get_index())
    }

    /// The lane that follows this one in the chain.
    fn next(&self) -> (r: Lane)
        requires
            legal_index(self.spec_row_type(), self.spec_index()),
        ensures
            can_follow(self.spec_row_type(), self.spec_index(), r.kind(), r.sub_index()),
            r.wf(),
            r.mask() is None,
            r.pos() == 0,
    {
        self.to_lane().next()
    }
}

/// A dirt lane seed; legal sub-indices are `0..=15`.
#[derive(Debug, Clone, Copy, PartialEq, Eq, Structural)]
pub struct DirtRow {
    index: i8,
}

impl DirtRow {
    pub fn new_dirt_row(index: i8) -> (r: Self)
        requires
            0 <= index <= 15,
        ensures
            r.spec_row_type() == RowType::DIRT,
            r.spec_index() == index as int,
    {
        DirtRow { index }
    }
}

impl Row for DirtRow {
    closed spec fn spec_row_type(&self) -> RowType {
        RowType::DIRT
    }

    closed spec fn spec_index(&self) -> int {
        self.index as int
    }

    fn get_row_type(&self) -> (r: RowType) {
        RowType::DIRT
    }

    fn get_index(&self) -> (r: i8) {
        self.index
    }
}

/// A grass lane seed; legal sub-indices are `0..=15`.
#[derive(Debug, Clone, Copy, PartialEq, Eq, Structural)]
pub struct GrassRow {
    index: i8,
}

impl GrassRow {
    pub fn new_grass_row(index: i8) -> (r: Self)
        requires
            0 <= index <= 15,
        ensures
            r.spec_row_type() == RowType::GRASS,
            r.spec_index() == index as int,
    {
        GrassRow { index }
    }
}

impl Row for GrassRow {
    closed spec fn spec_row_type(&self) -> RowType {
        RowType::GRASS
    }

    closed spec fn spec_index(&self) -> int {
        self.index as int
    }

    fn get_row_type(&self) -> (r: RowType) {
        RowType::GRASS
    }

    fn get_index(&self) -> (r: i8) {
        self.index
    }
}

/// A pavement lane seed; legal sub-indices are `0..=2`.
#[derive(Debug, Clone, Copy, PartialEq, Eq, Structural)]
pub struct PavementRow {
    index: i8,
}

impl PavementRow {
    pub fn new_pavement_row(index: i8) -> (r: Self)
        requires
            0 <= index <= 2,
        ensures
            r.spec_row_type() == RowType::PAVEMENT,
            r.spec_index() == index as int,
    {
        PavementRow { index }
    }
}

impl Row for PavementRow {
    closed spec fn spec_row_type(&self) -> RowType {
        RowType::PAVEMENT
    }

    closed spec fn spec_index(&self) -> int {
        self.index as int
    }

    fn get_row_type(&self) -> (r: RowType) {
        RowType::PAVEMENT
    }

    fn get_index(&self) -> (r: i8) {
        self.index
    }
}

/// A rail lane seed; legal sub-indices are `0..=3`.
#[derive(Debug, Clone, Copy, PartialEq, Eq, Structural)]
pub struct RailRow {
    index: i8,
}

impl RailRow {
    pub fn new_rail_row(index: i8) -> (r: Self)
        requires
            0 <= index <= 3,
        ensures
            r.spec_row_type() == RowType::RAIL,
            r.spec_index() == index as int,
    {
        RailRow { index }
    }
}

impl Row for RailRow {
    closed spec fn spec_row_type(&self) -> RowType {
        RowType::RAIL
    }

    closed spec fn spec_index(&self) -> int {
        self.index as int
    }

    fn get_row_type(&self) -> (r: RowType) {
        RowType::RAIL
    }

    fn get_index(&self) -> (r: i8) {
        self.index
    }
}

/// A road lane seed; legal sub-indices are `0..=5`.
#[derive(Debug, Clone, Copy, PartialEq, Eq, Structural)]
pub struct RoadRow {
    index: i8,
}

impl RoadRow {
    pub fn new_road_row(index: i8) -> (r: Self)
        requires
            0 <= index <= 5,
        ensures
            r.spec_row_type() == RowType::ROAD,
            r.spec_index() == index as int,
    {
        RoadRow { index }
    }
}

impl Row for RoadRow {
    closed spec fn spec_row_type(&self) -> RowType {
        RowType::ROAD
    }

    closed spec fn spec_index(&self) -> int {
        self.index as int
    }

    fn get_row_type(&self) -> (r: RowType) {
        RowType::ROAD
    }

    fn get_index(&self) -> (r: i8) {
        self.index
    }
}

/// A water lane seed; legal sub-indices are `0..=7`.
#[derive(Debug, Clone, Copy, PartialEq, Eq, Structural)]
pub struct WaterRow {
    index: i8,
}

impl WaterRow {
    pub fn new_water_row(index: i8) -> (r: Self)
        requires
            0 <= index <= 7,
        ensures
            r.spec_row_type() == RowType::WATER,
            r.spec_index() == index as int,
    {
        WaterRow { index }
    }
}

impl Row for WaterRow {
    closed spec fn spec_row_type(&self) -> RowType {
        RowType::WATER
    }

    closed spec fn spec_index(&self) -> int {
        self.index as int
    }

    fn get_row_type(&self) -> (r: RowType) {
        RowType::WATER
    }

    fn get_index(&self) -> (r: i8) {
        self.index
    }
}

} // verus!
