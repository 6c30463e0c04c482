use crate::grid::{HALF_PLAYER, SEGMENT_HEIGHT};
use crate::lane::Lane;
use vstd::prelude::*;

verus! {

/// One more lane than fits on screen, so that the lane just scrolled off is
/// still known.
pub const SLIDING_WINDOW_SIZE: usize = 21;

/// The history after pushing `row`: once full, the oldest lane leaves first.
pub open spec fn pushed(s: Seq<Lane>, row: Lane) -> Seq<Lane> {
    if s.len() >= SLIDING_WINDOW_SIZE {
        s.drop_first().push(row)
    } else {
        s.push(row)
    }
}

/// The history after pushing each of `lanes` in turn.
pub open spec fn after_pushes(s: Seq<Lane>, lanes: Seq<Lane>) -> Seq<Lane>
    decreases lanes.len(),
{
    if lanes.len() == 0 {
        s
    } else {
        pushed(after_pushes(s, lanes.drop_last()), lanes.last())
    }
}

/// The lane's vertical band holds the middle of a player anchored at `player_y`.
pub open spec fn band_contains(lane: Lane, player_y: int) -> bool {
    lane.pos() <= player_y + HALF_PLAYER < lane.pos() + SEGMENT_HEIGHT
}

/// `n` is the first lane of `s` whose band holds the player.
pub open spec fn first_band(s: Seq<Lane>, player_y: int, n: int) -> bool {
    &&& 0 <= n < s.len()
    &&& band_contains(s[n], player_y)
    &&& forall|j: int| 0 <= j < n ==> !band_contains(#[trigger] s[j], player_y)
}

/// The history after moving the first lane with identity `id` to `y`.
pub open spec fn moved(s: Seq<Lane>, id: u128, y: int, out: Seq<Lane>) -> bool {
    &&& out.len() == s.len()
    &&& forall|k: int|
        0 <= k < s.len() ==> (#[trigger] out[k]).kind() == s[k].kind() && out[k].sub_index()
            == s[k].sub_index() && out[k].id() == s[k].id() && out[k].mask() == s[k].mask()
            && out[k].half() == s[k].half()
    &&& forall|k: int|
        0 <= k < s.len() ==> (#[trigger] out[k]).pos() == if s[k].id() == id && (forall|j: int|
            0 <= j < k ==> s[j].id() != id) {
            y
        } else {
            s[k].pos()
        }
}

/// The rolling window of the most recently generated lanes, oldest first.
pub struct BackgroundRows {
    data: Vec<Lane>,
}

impl View for BackgroundRows {
    type V = Seq<Lane>;

    closed spec fn view(&self) -> Seq<Lane> {
        self.data@
    }
}

impl BackgroundRows {
    #[verifier::type_invariant]
    closed spec fn inv(&self) -> bool {
        self.data@.len() <= SLIDING_WINDOW_SIZE
    }

    pub fn new() -> (r: Self)
        ensures
            r@ == Seq::<Lane>::empty(),
    {
        BackgroundRows { data: Vec::with_capacity(SLIDING_WINDOW_SIZE) }
    }

    pub fn len(&self) -> (r: usize)
        ensures
            r == self@.len(),
            r <= SLIDING_WINDOW_SIZE,
    {
        proof {
            use_type_invariant(self);
        }
        self.data.len()
    }

    /// Appends a lane, evicting the oldest once the window is full.
    pub fn add_row(&mut self, row: Lane)
        ensures
            final(self)@ == pushed(old(self)@, row),
            final(self)@.len() <= SLIDING_WINDOW_SIZE,
    {
        proof {
            use_type_invariant(&*self);
        }
        let mut data: Vec<Lane> = Vec::new();
        std::mem::swap(&mut self.data, &mut data);
        if data.len() >= SLIDING_WINDOW_SIZE {
            data.remove(0);
        }
        data.push(row);
        assert(data@ =~= pushed(old(self)@, row));
        self.data = data;
    }

    /// The most recently added lane, if any.
    pub open spec fn last_row_spec(&self) -> Option<Lane> {
        if self@.len() == 0 {
            None
        } else {
            Some(self@.last())
        }
    }

    /// A snapshot of the most recently added lane.
    pub fn last_row(&self) -> (r: Option<Lane>)
        ensures
            r == self.last_row_spec(),
    {
        if self.data.len() == 0 {
            None
        } else {
            Some(self.data[self.data.len() - 1].clone_row())
        }
    }

    /// A snapshot of the lane at `row_index`, counting from the oldest.
    pub fn get_row(&self, row_index: usize) -> (r: Option<Lane>)
        ensures
            r == if row_index < self@.len() {
                Some(self@[row_index as int])
            } else {
                None
            },
    {
        if row_index < self.data.len() {
            Some(self.data[row_index].clone_row())
        } else {
            None
        }
    }

    /// Moves the stored snapshot of the lane with identity `row_uuid` (the first
    /// one, should two share it) to `y`; without such a lane nothing changes.
    pub fn set_row_y_by_row_uuid(&mut self, row_uuid: u128, y: i32)
        ensures
            moved(old(self)@, row_uuid, y as int, final(self)@),
    {
        proof {
            use_type_invariant(&*self);
        }
        let mut data: Vec<Lane> = Vec::new();
        std::mem::swap(&mut self.data, &mut data);
        let ghost s = data@;
        let n = data.len();
        let mut i: usize = 0;
        while i < n
            invariant
                n == s.len(),
                data@ == s,
                s == old(self)@,
                s.len() <= SLIDING_WINDOW_SIZE,
                i <= n,
                forall|j: int| 0 <= j < i ==> s[j].id() != row_uuid,
            decreases n - i,
        {
            if data[i].get_row_uuid() == row_uuid {
                let mut lane = data[i];
                lane.set_row_y(y);
                data.set(i, lane);
                assert(data@ == s.update(i as int, lane));
                assert(moved(s, row_uuid, y as int, data@)) by {
                    assert forall|k: int| 0 <= k < s.len() implies (#[trigger] data@[k]).pos() == if s[k].id()
                        == row_uuid && (forall|j: int| 0 <= j < k ==> s[j].id() != row_uuid) {
                        y as int
                    } else {
                        s[k].pos()
                    } by {
                        if k > i {
                            assert(s[i as int].id() == row_uuid);
                        } else if k < i {
                            assert(s[k].id() != row_uuid);
                        }
                    }
                }
                self.data = data;
                return;
            }
            i = i + 1;
        }
        assert(moved(s, row_uuid, y as int, data@));
        self.data = data;
    }

    /// The index of the first lane whose band holds the middle of a player
    /// anchored at `player_y`; `None` where no lane does.
    pub fn get_player_row(&self, player_y: i32) -> (r: Option<i8>)
        ensures
            r matches Some(n) ==> first_band(self@, player_y as int, n as int),
            r is None ==> forall|j: int|
                0 <= j < self@.len() ==> !band_contains(#[trigger] self@[j], player_y as int),
    {
        proof {
            use_type_invariant(self);
        }
        let n = self.data.len();
        let mid: i64 = player_y as i64 + HALF_PLAYER as i64;
        let mut i: usize = 0;
        while i < n
            invariant
                n == self@.len(),
                n <= SLIDING_WINDOW_SIZE,
                i <= n,
                mid == player_y as int + HALF_PLAYER,
                forall|j: int| 0 <= j < i ==> !band_contains(#[trigger] self@[j], player_y as int),
            decreases n - i,
        {
            let y = self.data[i].get_row_y() as i64;
            if y <= mid && mid < y + SEGMENT_HEIGHT as i64 {
                return Some(i as i8);
            }
            i = i + 1;
        }
        None
    }

    /// The lower and upper vertical bound of the lane at `player_row`.
    pub fn get_player_row_to_coords(&self, player_row: i8) -> (r: (i64, i64))
        requires
            0 <= player_row < self@.len(),
        ensures
            r.0 == self@[player_row as int].pos(),
            r.1 == self@[player_row as int].pos() + SEGMENT_HEIGHT,
    {
        let y = self.data[player_row as usize].get_row_y() as i64;
        (y, y + SEGMENT_HEIGHT as i64)
    }
}

/// Pushing lanes one after another keeps exactly the last 21 of them, oldest
/// first: the history never holds more than 21 lanes, and after more than 21
/// pushes its oldest lane is the one pushed 21 pushes ago.
pub proof fn lemma_history_window(lanes: Seq<Lane>)
    ensures
        after_pushes(Seq::empty(), lanes) == lanes.subrange(
            if lanes.len() > SLIDING_WINDOW_SIZE {
                lanes.len() - SLIDING_WINDOW_SIZE
            } else {
                0
            },
            lanes.len() as int,
        ),
        after_pushes(Seq::empty(), lanes).len() <= SLIDING_WINDOW_SIZE,
        lanes.len() > SLIDING_WINDOW_SIZE ==> after_pushes(Seq::empty(), lanes)[0] == lanes[lanes.len()
            - SLIDING_WINDOW_SIZE],
    decreases lanes.len(),
{
    let n = lanes.len() as int;
    let w = SLIDING_WINDOW_SIZE as int;
    if n > 0 {
        let prev = lanes.drop_last();
        lemma_history_window(prev);
        let before = after_pushes(Seq::empty(), prev);
        if n - 1 >= w {
            assert(before.drop_first().push(lanes.last()) =~= lanes.subrange(n - w, n));
        } else {
            assert(before.push(lanes.last()) =~= lanes.subrange(0, n));
        }
    } else {
        assert(lanes.subrange(0, 0) =~= Seq::<Lane>::empty());
    }
}

} // verus!
