//! The board: a fixed array of map cells with per-cell occupancy, buffs,
//! and the pairing state of the tile-matching game.

use vstd::prelude::*;

use crate::battle_buff::Buff;
use crate::battle_enum::spec_is_trap;
use crate::battle_enum::MapCellType;
use crate::battle_enum::is_trap;

verus! {

/// Buff family id that locks a cell against being chosen.
pub const LOCK_CELL: u32 = 128;

/// One board cell.  `cter_id == 0` means no occupant; `open_cter == 0`
/// means not currently flipped open; `pair_index` is set exactly once,
/// when the cell is matched with its twin.
#[derive(Clone, Debug)]
pub struct MapCell {
    /// Tile template id; two cells pair when their ids are equal.
    pub id: u32,
    /// Position of the cell in the board array.
    pub index: usize,
    /// Planar coordinates used by area templates.
    pub x: i64,
    pub y: i64,
    /// What kind of cell this is.
    pub cell_type: MapCellType,
    /// Element tag of the tile.
    pub element: u8,
    /// Occupant character id, zero when empty.
    pub cter_id: u32,
    /// Character that flipped the cell open this turn, zero when closed.
    pub open_cter: u32,
    /// Index of the matched twin, set exactly once on pairing.
    pub pair_index: Option<usize>,
    /// Buffs attached to the cell itself (traps and locks).
    pub buffs: Vec<Buff>,
    /// Buff ids the cell carries passively; they are not announced.
    pub passive_buffs: Vec<u32>,
}

impl MapCell {
    /// True for the fixed world cells of a board.
    pub fn is_world(&self) -> (r: bool)
        ensures
            r == (self.cell_type == MapCellType::WorldCell),
    {
        self.cell_type == MapCellType::WorldCell
    }

    /// True while some buff of the cell locks it against being chosen.
    pub fn check_is_locked(&self) -> (r: bool)
        ensures
            r == (exists|i: int|
                0 <= i < self.buffs@.len() && (#[trigger] self.buffs@[i]).function_id
                    == LOCK_CELL),
    {
        let mut i: usize = 0;
        while i < self.buffs.len()
            invariant
                0 <= i <= self.buffs@.len(),
                forall|j: int|
                    0 <= j < i ==> (#[trigger] self.buffs@[j]).function_id != LOCK_CELL,
            decreases self.buffs@.len() - i,
        {
            if self.buffs[i].function_id == LOCK_CELL {
                return true;
            }
            i = i + 1;
        }
        false
    }

    /// Positions in the cell's buff list that hold traps.
    pub fn get_traps(&self) -> (r: Vec<usize>)
        ensures
            forall|k: int|
                0 <= k < r@.len() ==> #[trigger] r@[k] < self.buffs@.len() && spec_is_trap(
                    self.buffs@[r@[k] as int].function_id,
                ),
            forall|i: int|
                0 <= i < self.buffs@.len() && spec_is_trap(
                    (#[trigger] self.buffs@[i]).function_id,
                ) ==> r@.contains(i as usize),
    {
        let mut r: Vec<usize> = Vec::new();
        let mut i: usize = 0;
        while i < self.buffs.len()
            invariant
                0 <= i <= self.buffs@.len(),
                forall|k: int|
                    0 <= k < r@.len() ==> #[trigger] r@[k] < self.buffs@.len() && spec_is_trap(
                        self.buffs@[r@[k] as int].function_id,
                    ),
                forall|j: int|
                    0 <= j < i && spec_is_trap((#[trigger] self.buffs@[j]).function_id)
                        ==> r@.contains(j as usize),
            decreases self.buffs@.len() - i,
        {
            let ghost pre = r@;
            if is_trap(self.buffs[i].function_id) {
                r.push(i);
                proof {
                    assert(r@[r@.len() - 1] == i);
                    assert(forall|w: usize| pre.contains(w) ==> r@.contains(w)) by {
                        assert(forall|k: int|
                            0 <= k < pre.len() ==> r@[k] == #[trigger] pre[k]);
                    }
                }
            }
            i = i + 1;
        }
        r
    }

    /// Position of the first buff with this id in the cell's buff list.
    pub fn find_buff(&self, buff_id: u32) -> (r: Option<usize>)
        ensures
            match r {
                Some(i) => i < self.buffs@.len() && self.buffs@[i as int].id == buff_id && (
                forall|j: int| 0 <= j < i ==> (#[trigger] self.buffs@[j]).id != buff_id),
                None => forall|i: int|
                    0 <= i < self.buffs@.len() ==> (#[trigger] self.buffs@[i]).id != buff_id,
            },
    {
        let mut i: usize = 0;
        while i < self.buffs.len()
            invariant
                0 <= i <= self.buffs@.len(),
                forall|j: int| 0 <= j < i ==> (#[trigger] self.buffs@[j]).id != buff_id,
            decreases self.buffs@.len() - i,
        {
            if self.buffs[i].id == buff_id {
                return Some(i);
            }
            i = i + 1;
        }
        None
    }

    /// Drops the first buff with this id from the cell, if one is there.
    pub fn remove_buff(&mut self, buff_id: u32)
        ensures
            final(self).buffs@.len() <= old(self).buffs@.len(),
            (exists|i: int|
                0 <= i < old(self).buffs@.len() && (#[trigger] old(self).buffs@[i]).id
                    == buff_id) ==> final(self).buffs@.len() == old(self).buffs@.len() - 1 && (
            exists|p: int|
                0 <= p < old(self).buffs@.len() && (#[trigger] old(self).buffs@[p]).id == buff_id
                    && (forall|j: int| 0 <= j < p ==> old(self).buffs@[j].id != buff_id) && final(self).buffs@ == old(self).buffs@.remove(p)),
            (forall|i: int|
                0 <= i < old(self).buffs@.len() ==> (#[trigger] old(self).buffs@[i]).id
                    != buff_id) ==> final(self).buffs@ == old(self).buffs@,
            spec_same_cell_but_buffs(*old(self), *final(self)),
    {
        let pos = self.find_buff(buff_id);
        if let Some(pos) = pos {
            let _ = self.buffs.remove(pos);
        }
    }
}

/// All fields of `b` equal those of `a`, except who flipped it open.
pub open spec fn spec_same_cell_but_open_cter(a: MapCell, b: MapCell) -> bool {
    &&& b.id == a.id
    &&& b.index == a.index
    &&& b.x == a.x
    &&& b.y == a.y
    &&& b.cell_type == a.cell_type
    &&& b.element == a.element
    &&& b.cter_id == a.cter_id
    &&& b.pair_index == a.pair_index
    &&& b.buffs == a.buffs
    &&& b.passive_buffs == a.passive_buffs
}

/// All fields of `b` equal those of `a`, except who stands on it.
pub open spec fn spec_same_cell_but_cter(a: MapCell, b: MapCell) -> bool {
    &&& b.id == a.id
    &&& b.index == a.index
    &&& b.x == a.x
    &&& b.y == a.y
    &&& b.cell_type == a.cell_type
    &&& b.element == a.element
    &&& b.open_cter == a.open_cter
    &&& b.pair_index == a.pair_index
    &&& b.buffs == a.buffs
    &&& b.passive_buffs == a.passive_buffs
}

/// All fields of `b` equal those of `a`, except its pairing state.
pub open spec fn spec_same_cell_but_pair(a: MapCell, b: MapCell) -> bool {
    &&& b.id == a.id
    &&& b.index == a.index
    &&& b.x == a.x
    &&& b.y == a.y
    &&& b.cell_type == a.cell_type
    &&& b.element == a.element
    &&& b.cter_id == a.cter_id
    &&& b.open_cter == a.open_cter
    &&& b.buffs == a.buffs
    &&& b.passive_buffs == a.passive_buffs
}

/// All fields of `b` equal those of `a`, except the cell's buff list.
pub open spec fn spec_same_cell_but_buffs(a: MapCell, b: MapCell) -> bool {
    &&& b.id == a.id
    &&& b.index == a.index
    &&& b.x == a.x
    &&& b.y == a.y
    &&& b.cell_type == a.cell_type
    &&& b.element == a.element
    &&& b.cter_id == a.cter_id
    &&& b.open_cter == a.open_cter
    &&& b.pair_index == a.pair_index
    &&& b.passive_buffs == a.passive_buffs
}

/// Pairing two distinct unpaired cells, dropping their unpaired flags,
/// keeps the board invariant.
#[verifier::rlimit(100)]
#[verifier::spinoff_prover]
pub proof fn lemma_tile_wf_after_pairing(t1: TileMap, t2: TileMap, index: int, m: int)
    requires
        tile_map_wf(t1),
        0 <= index < t1.map_cells@.len(),
        0 <= m < t1.map_cells@.len(),
        m != index,
        t1.map_cells@[index].pair_index is None,
        t1.map_cells@[m].pair_index is None,
        t2.map_cells@ == t1.map_cells@.update(index, t2.map_cells@[index]).update(
            m,
            t2.map_cells@[m],
        ),
        spec_same_cell_but_pair(t1.map_cells@[index], t2.map_cells@[index]),
        spec_same_cell_but_pair(t1.map_cells@[m], t2.map_cells@[m]),
        t2.map_cells@[index].pair_index == Some(m as usize),
        t2.map_cells@[m].pair_index == Some(index as usize),
        t2.un_pair_map@.len() == t1.un_pair_map@.len(),
        forall|i: int|
            0 <= i < t2.un_pair_map@.len() && #[trigger] t2.un_pair_map@[i]
                ==> t1.un_pair_map@[i] && i != index && i != m,
    ensures
        tile_map_wf(t2),
{
    let cells1 = t1.map_cells@;
    let cells2 = t2.map_cells@;
    assert(cells2.len() == cells1.len());
    assert(forall|i: int|
        0 <= i < cells2.len() && i != index && i != m ==> #[trigger] cells2[i] == cells1[i]);
    assert(forall|i: int| 0 <= i < cells2.len() ==> (#[trigger] cells2[i]).index == i) by {
        reveal(tile_map_wf);
    }
    assert forall|i: int|
        0 <= i < cells2.len() implies (match (#[trigger] cells2[i]).pair_index {
        Some(j) => 0 <= j < cells2.len() && j != i && cells2[j as int].pair_index == Some(
            i as usize,
        ),
        None => true,
    }) by {
        reveal(tile_map_wf);
        if i == index {
            assert(cells2[i].pair_index == Some(m as usize));
        } else if i == m {
            assert(cells2[i].pair_index == Some(index as usize));
        } else {
            assert(cells2[i] == cells1[i]);
            match cells1[i].pair_index {
                Some(j) => {
                    assert(cells1[j as int].pair_index == Some(i as usize));
                    if j == index || j == m {
                        assert(cells1[j as int].pair_index is None);
                    }
                    assert(cells2[j as int] == cells1[j as int]);
                },
                None => {},
            }
        }
    }
    assert(forall|i: int|
        0 <= i < t2.un_pair_map@.len() && #[trigger] t2.un_pair_map@[i] ==> cells2[
            i
        ].pair_index is None) by {
        reveal(tile_map_wf);
    }
    assert(tile_map_wf(t2)) by {
        reveal(tile_map_wf);
    }
}

/// The board: its cells and the membership flags of the unpaired set./// The board: its cells and the membership flags of the unpaired set.
#[derive(Clone, Debug)]
pub struct TileMap {
    /// Board layout id.
    pub id: u32,
    /// The cells, in board order.
    pub map_cells: Vec<MapCell>,
    /// One flag per cell; true while the cell belongs to the unpaired set.
    pub un_pair_map: Vec<bool>,
}

/// How many cells are still flagged unpaired.
pub open spec fn spec_un_pair_count(flags: Seq<bool>) -> int
    decreases flags.len(),
{
    if flags.len() == 0 {
        0
    } else {
        spec_un_pair_count(flags.drop_last()) + if flags.last() {
            1int
        } else {
            0int
        }
    }
}

/// Pairing is symmetric and exclusive, every cell knows its position, and
/// the unpaired set holds only cells that are not paired.
#[verifier::opaque]
pub open spec fn tile_map_wf(t: TileMap) -> bool {
    &&& t.un_pair_map@.len() == t.map_cells@.len()
    &&& forall|i: int|
        0 <= i < t.map_cells@.len() ==> (#[trigger] t.map_cells@[i]).index == i
    &&& forall|i: int|
        0 <= i < t.map_cells@.len() ==> match (#[trigger] t.map_cells@[i]).pair_index {
            Some(j) => 0 <= j < t.map_cells@.len() && j != i && t.map_cells@[
                j as int
            ].pair_index == Some(i as usize),
            None => true,
        }
    &&& forall|i: int|
        0 <= i < t.un_pair_map@.len() && #[trigger] t.un_pair_map@[i] ==> t.map_cells@[
            i
        ].pair_index is None
}

impl TileMap {
    /// An empty board.
    pub fn new_empty(id: u32) -> (r: TileMap)
        ensures
            r.id == id,
            r.map_cells@.len() == 0,
            r.un_pair_map@.len() == 0,
            tile_map_wf(r),
    {
        proof {
            reveal(tile_map_wf);
        }
        TileMap { id, map_cells: Vec::new(), un_pair_map: Vec::new() }
    }

    /// Position of the cell the character stands on, if any.
    pub fn get_map_cell_index_by_cter_id(&self, cter_id: u32) -> (r: Option<usize>)
        requires
            cter_id != 0,
        ensures
            match r {
                Some(i) => i < self.map_cells@.len() && self.map_cells@[i as int].cter_id
                    == cter_id,
                None => forall|i: int|
                    0 <= i < self.map_cells@.len() ==> (#[trigger] self.map_cells@[i]).cter_id
                        != cter_id,
            },
    {
        let mut i: usize = 0;
        while i < self.map_cells.len()
            invariant
                0 <= i <= self.map_cells@.len(),
                forall|j: int|
                    0 <= j < i ==> (#[trigger] self.map_cells@[j]).cter_id != cter_id,
            decreases self.map_cells@.len() - i,
        {
            if self.map_cells[i].cter_id == cter_id {
                return Some(i);
            }
            i = i + 1;
        }
        None
    }

    /// Position of the cell with these planar coordinates, if any.
    pub fn get_index_by_coord(&self, x: i64, y: i64) -> (r: Option<usize>)
        ensures
            match r {
                Some(i) => i < self.map_cells@.len() && self.map_cells@[i as int].x == x
                    && self.map_cells@[i as int].y == y,
                None => forall|i: int|
                    0 <= i < self.map_cells@.len() ==> !((#[trigger] self.map_cells@[i]).x == x
                        && self.map_cells@[i].y == y),
            },
    {
        let mut i: usize = 0;
        while i < self.map_cells.len()
            invariant
                0 <= i <= self.map_cells@.len(),
                forall|j: int|
                    0 <= j < i ==> !((#[trigger] self.map_cells@[j]).x == x
                        && self.map_cells@[j].y == y),
            decreases self.map_cells@.len() - i,
        {
            if self.map_cells[i].x == x && self.map_cells[i].y == y {
                return Some(i);
            }
            i = i + 1;
        }
        None
    }

    /// Drops `index` from the unpaired set, if it is there.
    pub fn remove_un_pair(&mut self, index: usize)
        ensures
            final(self).map_cells@ == old(self).map_cells@,
            final(self).id == old(self).id,
            final(self).un_pair_map@.len() == old(self).un_pair_map@.len(),
            index < old(self).un_pair_map@.len() ==> final(self).un_pair_map@ == old(
                self,
            ).un_pair_map@.update(index as int, false),
            index >= old(self).un_pair_map@.len() ==> final(self).un_pair_map@ == old(
                self,
            ).un_pair_map@,
    {
        if index < self.un_pair_map.len() {
            let flag = &mut self.un_pair_map[index];
            *flag = false;
        }
    }

    /// How many cells are still in the unpaired set.
    pub fn un_pair_count(&self) -> (r: usize)
        ensures
            r == spec_un_pair_count(self.un_pair_map@),
    {
        let mut count: usize = 0;
        let mut i: usize = 0;
        while i < self.un_pair_map.len()
            invariant
                0 <= i <= self.un_pair_map@.len(),
                count == spec_un_pair_count(self.un_pair_map@.subrange(0, i as int)),
                count <= i,
            decreases self.un_pair_map@.len() - i,
        {
            proof {
                let next = self.un_pair_map@.subrange(0, i as int + 1);
                assert(next.drop_last() =~= self.un_pair_map@.subrange(0, i as int));
            }
            if self.un_pair_map[i] {
                count = count + 1;
            }
            i = i + 1;
        }
        proof {
            assert(self.un_pair_map@.subrange(0, i as int) =~= self.un_pair_map@);
        }
        count
    }
}

} // verus!
