use crate::random::{get_random_i32, get_random_i8, get_uuid};
use vstd::prelude::*;

verus! {

/// The six terrain categories of a lane.
#[derive(Debug, Clone, Copy, PartialEq, Eq, Structural)]
pub enum RowType {
    DIRT,
    GRASS,
    PAVEMENT,
    RAIL,
    ROAD,
    WATER,
}

/// Which half of a two-lane hedge a grass lane carries.
#[derive(Debug, Clone, Copy, PartialEq, Eq, Structural)]
pub enum HedgeHalf {
    Bottom,
    Top,
}

/// The largest sub-index a lane of the given category may carry.
pub open spec fn max_index(kind: RowType) -> int {
    match kind {
        RowType::RAIL => 3,
        RowType::WATER => 7,
        RowType::PAVEMENT => 2,
        RowType::ROAD => 5,
        RowType::GRASS => 15,
        RowType::DIRT => 15,
    }
}

/// A sub-index is legal for its category.
pub open spec fn legal_index(kind: RowType, index: int) -> bool {
    0 <= index <= max_index(kind)
}

/// The random draws one transition consumes: a percentage roll, the sub-index a
/// grass lane starts at, and the sub-index a dirt lane starts at.
pub open spec fn valid_draws(roll: int, grass_pick: int, dirt_pick: int) -> bool {
    0 <= roll < 100 && 0 <= grass_pick <= 6 && 4 <= dirt_pick <= 6
}

/// The even coin used where a run ends in road or water.
pub open spec fn road_or_water(roll: int) -> (RowType, int) {
    if roll < 50 {
        (RowType::WATER, 0)
    } else {
        (RowType::ROAD, 0)
    }
}

/// Shared advance rule of grass and dirt: two bands of eight textures.
pub open spec fn banded_next(kind: RowType, index: int, roll: int) -> (RowType, int) {
    if 0 <= index <= 5 {
        (kind, index + 8)
    } else if index == 6 {
        (kind, 7)
    } else if index == 7 {
        (kind, 15)
    } else if 8 <= index <= 14 {
        (kind, index + 1)
    } else {
        road_or_water(roll)
    }
}

/// The lane that follows `(kind, index)` for the given draws.
pub open spec fn next_spec(kind: RowType, index: int, roll: int, grass_pick: int, dirt_pick: int) -> (
    RowType,
    int,
) {
    match kind {
        RowType::RAIL => if index < 3 {
            (RowType::RAIL, index + 1)
        } else {
            road_or_water(roll)
        },
        RowType::WATER => if index >= 7 || (index >= 1 && roll < 50) {
            (RowType::DIRT, dirt_pick)
        } else {
            (RowType::WATER, index + 1)
        },
        RowType::PAVEMENT => if index < 2 {
            (RowType::PAVEMENT, index + 1)
        } else {
            (RowType::ROAD, 0)
        },
        RowType::ROAD => if index == 0 {
            (RowType::ROAD, 1)
        } else if index < 5 {
            if roll < 80 {
                (RowType::ROAD, index + 1)
            } else if roll < 88 {
                (RowType::GRASS, grass_pick)
            } else if roll < 94 {
                (RowType::RAIL, 0)
            } else {
                (RowType::PAVEMENT, 0)
            }
        } else {
            if roll < 60 {
                (RowType::GRASS, grass_pick)
            } else if roll < 90 {
                (RowType::RAIL, 0)
            } else {
                (RowType::PAVEMENT, 0)
            }
        },
        RowType::GRASS => banded_next(RowType::GRASS, index, roll),
        RowType::DIRT => banded_next(RowType::DIRT, index, roll),
    }
}

/// `(next_kind, next_index)` can follow `(kind, index)` for some valid draws.
pub open spec fn can_follow(kind: RowType, index: int, next_kind: RowType, next_index: int) -> bool {
    exists|roll: int, grass_pick: int, dirt_pick: int|
        valid_draws(roll, grass_pick, dirt_pick) && #[trigger] next_spec(
            kind,
            index,
            roll,
            grass_pick,
            dirt_pick,
        ) == (next_kind, next_index)
}

/// Every lane the chain produces from a legal lane carries a legal sub-index.
pub proof fn lemma_chain_legality(
    kind: RowType,
    index: int,
    roll: int,
    grass_pick: int,
    dirt_pick: int,
)
    requires
        legal_index(kind, index),
        valid_draws(roll, grass_pick, dirt_pick),
    ensures
        legal_index(
            next_spec(kind, index, roll, grass_pick, dirt_pick).0,
            next_spec(kind, index, roll, grass_pick, dirt_pick).1,
        ),
{
}

/// The transition table on concrete draws.
pub fn next_row_kind(kind: RowType, index: i8, roll: i32, grass_pick: i8, dirt_pick: i8) -> (r: (
    RowType,
    i8,
))
    requires
        legal_index(kind, index as int),
        valid_draws(roll as int, grass_pick as int, dirt_pick as int),
    ensures
        (r.0, r.1 as int) == next_spec(kind, index as int, roll as int, grass_pick as int, dirt_pick as int),
        legal_index(r.0, r.1 as int),
{
    proof {
        lemma_chain_legality(kind, index as int, roll as int, grass_pick as int, dirt_pick as int);
    }
    match kind {
        RowType::RAIL => if index < 3 {
            (RowType::RAIL, index + 1)
        } else {
            road_or_water_row(roll)
        },
        RowType::WATER => if index >= 7 || (index >= 1 && roll < 50) {
            (RowType::DIRT, dirt_pick)
        } else {
            (RowType::WATER, index + 1)
        },
        RowType::PAVEMENT => if index < 2 {
            (RowType::PAVEMENT, index + 1)
        } else {
            (RowType::ROAD, 0)
        },
        RowType::ROAD => if index == 0 {
            (RowType::ROAD, 1)
        } else if index < 5 {
            if roll < 80 {
                (RowType::ROAD, index + 1)
            } else if roll < 88 {
                (RowType::GRASS, grass_pick)
            } else if roll < 94 {
                (RowType::RAIL, 0)
            } else {
                (RowType::PAVEMENT, 0)
            }
        } else {
            if roll < 60 {
                (RowType::GRASS, grass_pick)
            } else if roll < 90 {
                (RowType::RAIL, 0)
            } else {
                (RowType::PAVEMENT, 0)
            }
        },
        RowType::GRASS => banded_next_row(RowType::GRASS, index, roll),
        RowType::DIRT => banded_next_row(RowType::DIRT, index, roll),
    }
}

fn road_or_water_row(roll: i32) -> (r: (RowType, i8))
    ensures
        (r.0, r.1 as int) == road_or_water(roll as int),
{
    if roll < 50 {
        (RowType::WATER, 0)
    } else {
        (RowType::ROAD, 0)
    }
}

fn banded_next_row(kind: RowType, index: i8, roll: i32) -> (r: (RowType, i8))
    requires
        0 <= index <= 15,
    ensures
        (r.0, r.1 as int) == banded_next(kind, index as int, roll as int),
{
    if index <= 5 {
        (kind, index + 8)
    } else if index == 6 {
        (kind, 7)
    } else if index == 7 {
        (kind, 15)
    } else if index <= 14 {
        (kind, index + 1)
    } else {
        road_or_water_row(roll)
    }
}

/// Draws the random inputs of one transition and applies the table.
pub fn next_lane_kind(kind: RowType, index: i8) -> (r: (RowType, i8))
    requires
        legal_index(kind, index as int),
    ensures
        can_follow(kind, index as int, r.0, r.1 as int),
        legal_index(r.0, r.1 as int),
{
    let roll = get_random_i32(0, 99);
    let grass_pick = get_random_i8(0, 6);
    let dirt_pick = get_random_i8(4, 6);
    let r = next_row_kind(kind, index, roll, grass_pick, dirt_pick);
    r
}

/// One horizontal strip of terrain, as the generator produced it and the
/// history keeps it.
#[derive(Debug, Clone, Copy)]
pub struct Lane {
    row_type: RowType,
    index: i8,
    uuid: u128,
    mask: Option<[bool; 12]>,
    half: Option<HedgeHalf>,
    y: i32,
}

impl Lane {
    /// The lane's category.
    pub closed spec fn kind(&self) -> RowType {
        self.row_type
    }

    /// The lane's sub-index within its category.
    pub closed spec fn sub_index(&self) -> int {
        self.index as int
    }

    /// The lane's stable identity.
    pub closed spec fn id(&self) -> u128 {
        self.uuid
    }

    /// The hedge mask, `true` for a gap.
    pub closed spec fn mask(&self) -> Option<[bool; 12]> {
        self.mask
    }

    /// Which half of a hedge pair the lane holds, where it holds a mask.
    pub closed spec fn half(&self) -> Option<HedgeHalf> {
        self.half
    }

    /// The lane's vertical position.
    pub closed spec fn pos(&self) -> int {
        self.y as int
    }

    #[verifier::type_invariant]
    closed spec fn inv(&self) -> bool {
        &&& legal_index(self.row_type, self.index as int)
        &&& self.mask is None ==> self.half is None
        &&& self.mask is Some ==> self.row_type == RowType::GRASS && self.half is Some
    }

    /// What every lane satisfies.
    pub open spec fn wf(&self) -> bool {
        &&& legal_index(self.kind(), self.sub_index())
        &&& self.mask() is None ==> self.half() is None
        &&& self.mask() is Some ==> self.kind() == RowType::GRASS && self.half() is Some
    }

    /// A fresh lane with a new identity, no hedge, at vertical position 0.
    pub fn new(kind: RowType, index: i8) -> (r: Lane)
        requires
            legal_index(kind, index as int),
        ensures
            r.kind() == kind,
            r.sub_index() == index as int,
            r.wf(),
            r.mask() is None,
            r.half() is None,
            r.pos() == 0,
    {
        Lane { row_type: kind, index, uuid: get_uuid(), mask: None, half: None, y: 0 }
    }

    /// The lane that scrolls in directly above this one, fresh and undecorated.
    pub fn next(&self) -> (r: Lane)
        ensures
            can_follow(self.kind(), self.sub_index(), r.kind(), r.sub_index()),
            r.wf(),
            r.mask() is None,
            r.half() is None,
            r.pos() == 0,
    {
        proof {
            use_type_invariant(self);
        }
        let (kind, index) = next_lane_kind(self.row_type, self.index);
        Lane::new(kind, index)
    }

    /// A snapshot of the lane; it keeps every attribute, identity included.
    pub fn clone_row(&self) -> (r: Lane)
        ensures
            r == *self,
    {
        *self
    }

    pub fn get_row_type(&self) -> (r: RowType)
        ensures
            r == self.kind(),
            self.wf(),
    {
        proof {
            use_type_invariant(self);
        }
        self.row_type
    }

    pub fn get_index(&self) -> (r: i8)
        ensures
            r as int == self.sub_index(),
            self.wf(),
    {
        proof {
            use_type_invariant(self);
        }
        self.index
    }

    pub fn get_row_uuid(&self) -> (r: u128)
        ensures
            r == self.id(),
    {
        self.uuid
    }

    pub fn get_row_mask(&self) -> (r: Option<[bool; 12]>)
        ensures
            r == self.mask(),
            self.wf(),
    {
        proof {
            use_type_invariant(self);
        }
        self.mask
    }

    /// Which half of a hedge pair the lane holds; `None` without a mask.
    pub fn get_row_data(&self) -> (r: Option<HedgeHalf>)
        ensures
            r == self.half(),
            self.wf(),
    {
        proof {
            use_type_invariant(self);
        }
        self.half
    }

    pub fn get_row_y(&self) -> (r: i32)
        ensures
            r as int == self.pos(),
    {
        self.y
    }

    /// Moves the lane; nothing else changes.
    pub fn set_row_y(&mut self, y: i32)
        ensures
            final(self).pos() == y as int,
            final(self).kind() == old(self).kind(),
            final(self).sub_index() == old(self).sub_index(),
            final(self).id() == old(self).id(),
            final(self).mask() == old(self).mask(),
            final(self).half() == old(self).half(),
    {
        proof {
            use_type_invariant(&*self);
        }
        self.y = y;
    }

    /// Gives a grass lane a hedge mask; a lane that had none becomes the bottom
    /// half of a hedge pair. Lanes of other categories carry no mask and stay as
    /// they are.
    pub fn set_row_mask(&mut self, mask: [bool; 12])
        ensures
            old(self).kind() == RowType::GRASS ==> final(self).mask() == Some(mask),
            old(self).kind() == RowType::GRASS ==> final(self).half() == if old(self).half() is None {
                Some(HedgeHalf::Bottom)
            } else {
                old(self).half()
            },
            old(self).kind() != RowType::GRASS ==> final(self).mask() == old(self).mask()
                && final(self).half() == old(self).half(),
            final(self).kind() == old(self).kind(),
            final(self).sub_index() == old(self).sub_index(),
            final(self).id() == old(self).id(),
            final(self).pos() == old(self).pos(),
    {
        proof {
            use_type_invariant(&*self);
        }
        if self.row_type == RowType::GRASS {
            let half = match self.half {
                Some(h) => h,
                None => HedgeHalf::Bottom,
            };
            *self = Lane { mask: Some(mask), half: Some(half), ..*self };
        }
    }

    /// Marks a lane that holds a mask as the top half of its hedge pair; with
    /// `top == false`, or without a mask, nothing changes.
    pub fn set_row_data(&mut self, top: bool)
        ensures
            top && old(self).mask() is Some ==> final(self).half() == Some(HedgeHalf::Top),
            !(top && old(self).mask() is Some) ==> final(self).half() == old(self).half(),
            final(self).mask() == old(self).mask(),
            final(self).kind() == old(self).kind(),
            final(self).sub_index() == old(self).sub_index(),
            final(self).id() == old(self).id(),
            final(self).pos() == old(self).pos(),
    {
        proof {
            use_type_invariant(&*self);
        }
        if top && self.mask.is_some() {
            self.half = Some(HedgeHalf::Top);
        }
    }
}

} // verus!
