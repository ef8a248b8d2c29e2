//! The grid: which cell, if any, occupies a tile, and whether the player may
//! step onto it.

use std::collections::HashMap;
use vstd::prelude::*;
use vstd::std_specs::iter::IteratorSpec;

verus! {

/// What occupies a tile. A tile with no entry in the grid is open floor.
#[derive(Clone, Copy, Debug, PartialEq, Eq, Structural)]
pub enum Cell {
    /// Blocks entry.
    Wall,
    /// Can be entered; entering it during play ends the level.
    Goal,
}

/// The extent of the play surface, in tiles.
#[derive(Clone, Copy, Debug, PartialEq, Eq, Structural)]
pub struct Size {
    pub width: i32,
    pub height: i32,
}

/// Whether both components of `pos` are values of `i32`.
pub open spec fn is_coord(pos: (int, int)) -> bool {
    i32::MIN <= pos.0 <= i32::MAX && i32::MIN <= pos.1 <= i32::MAX
}

/// The mathematical coordinate of an executable one.
pub open spec fn coord(pos: (i32, i32)) -> (int, int) {
    (pos.0 as int, pos.1 as int)
}

/// Whether `pos` lies on the play surface `[0, width) x [0, height)`.
pub open spec fn in_bounds(size: Size, pos: (int, int)) -> bool {
    0 <= pos.0 < size.width && 0 <= pos.1 < size.height
}

/// Whether the player may occupy `pos`: it lies on the play surface and the
/// grid holds no wall there.
pub open spec fn is_passable(cells: Map<(int, int), Cell>, size: Size, pos: (int, int)) -> bool {
    in_bounds(size, pos) && !(cells.contains_key(pos) && cells[pos] == Cell::Wall)
}

/// The number under which the tile at `pos` is stored: the two components,
/// each shifted into `[0, 2^32)`, side by side.
spec fn key_of(pos: (int, int)) -> int {
    (pos.0 + 0x8000_0000) * 0x1_0000_0000 + (pos.1 + 0x8000_0000)
}

proof fn lemma_key_of_injective(p: (int, int), q: (int, int))
    requires
        is_coord(p),
        is_coord(q),
        key_of(p) == key_of(q),
    ensures
        p == q,
{
    let a = p.0 + 0x8000_0000;
    let b = q.0 + 0x8000_0000;
    if a < b {
        assert(a * 0x1_0000_0000 + 0x1_0000_0000 <= b * 0x1_0000_0000);
    } else if b < a {
        assert(b * 0x1_0000_0000 + 0x1_0000_0000 <= a * 0x1_0000_0000);
    }
}

fn key(pos: (i32, i32)) -> (k: u64)
    ensures
        k == key_of(coord(pos)),
{
    let hi: u64 = (pos.0 as i64 + 0x8000_0000) as u64;
    let lo: u64 = (pos.1 as i64 + 0x8000_0000) as u64;
    hi * 0x1_0000_0000 + lo
}

fn position(k: u64) -> (pos: (i32, i32))
    ensures
        key_of(coord(pos)) == k,
{
    let hi: u64 = k / 0x1_0000_0000;
    let lo: u64 = k % 0x1_0000_0000;
    ((hi as i64 - 0x8000_0000) as i32, (lo as i64 - 0x8000_0000) as i32)
}

/// A sparse grid: a finite mapping from coordinates to cells.
pub struct Cells {
    tiles: HashMap<u64, Cell>,
}

impl View for Cells {
    type V = Map<(int, int), Cell>;

    closed spec fn view(&self) -> Map<(int, int), Cell> {
        Map::new(
            |pos: (int, int)| is_coord(pos) && self.tiles@.contains_key(key_of(pos) as u64),
            |pos: (int, int)| self.tiles@[key_of(pos) as u64],
        )
    }
}

impl Cells {
    /// The grid with no entry: open floor everywhere.
    pub fn new() -> (cells: Cells)
        ensures
            cells@ == Map::<(int, int), Cell>::empty(),
    {
        let cells = Cells { tiles: HashMap::new() };
        assert(cells@ =~= Map::<(int, int), Cell>::empty());
        cells
    }

    /// Puts `cell` at `pos`, in place of what was there.
    pub fn insert(&mut self, pos: (i32, i32), cell: Cell)
        ensures
            final(self)@ == old(self)@.insert(coord(pos), cell),
    {
        broadcast use vstd::std_specs::hash::group_hash_axioms;

        let k = key(pos);
        self.tiles.insert(k, cell);
        proof {
            assert forall|q: (int, int)| is_coord(q) && key_of(q) as u64 == k implies q == coord(
                pos,
            ) by {
                lemma_key_of_injective(q, coord(pos));
            }
            assert(self@ =~= old(self)@.insert(coord(pos), cell));
        }
    }

    /// The cell at `pos`, if the grid has an entry there.
    pub fn get(&self, pos: (i32, i32)) -> (found: Option<Cell>)
        ensures
            found == (if self@.contains_key(coord(pos)) {
                Some(self@[coord(pos)])
            } else {
                None
            }),
    {
        broadcast use vstd::std_specs::hash::group_hash_axioms;

        let k = key(pos);
        match self.tiles.get(&k) {
            Some(cell) => Some(*cell),
            None => None,
        }
    }

    /// The entries of the grid, each once, in no particular order.
    pub fn entries(&self) -> (list: Vec<((i32, i32), Cell)>)
        ensures
            forall|i: int|
                0 <= i < list@.len() ==> self@.contains_key(coord(#[trigger] list@[i].0))
                    && self@[coord(list@[i].0)] == list@[i].1,
            forall|pos: (int, int)|
                self@.contains_key(pos) ==> exists|i: int|
                    0 <= i < list@.len() && coord(#[trigger] list@[i].0) == pos,
            forall|i: int, j: int|
                0 <= i < j < list@.len() ==> #[trigger] list@[i].0 != #[trigger] list@[j].0,
    {
        broadcast use vstd::std_specs::hash::group_hash_axioms;

        let mut list: Vec<((i32, i32), Cell)> = Vec::new();
        let ghost walked = self.tiles.iter().remaining();
        for entry in it: self.tiles.iter()
            invariant
                it.seq() == walked,
                list@.len() == it.index(),
                forall|i: int|
                    #![trigger list@[i]]
                    0 <= i < list@.len() ==> key_of(coord(list@[i].0)) == *walked[i].0
                        && list@[i].1 == *walked[i].1,
        {
            list.push((position(*entry.0), *entry.1));
        }
        proof {
            assert(list@.len() == walked.len());
            assert forall|pos: (int, int)| self@.contains_key(pos) implies exists|i: int|
                0 <= i < list@.len() && coord(#[trigger] list@[i].0) == pos by {
                let k = key_of(pos) as u64;
                assert(walked.contains((&k, &self.tiles@[k])));
                let i = choose|i: int| 0 <= i < walked.len() && walked[i] == (&k, &self.tiles@[k]);
                lemma_key_of_injective(coord(list@[i].0), pos);
            }
            assert forall|i: int, j: int| 0 <= i < j < list@.len() implies #[trigger] list@[i].0
                != #[trigger] list@[j].0 by {
                if list@[i].0 == list@[j].0 {
                    assert(self.tiles@[*walked[i].0] == *walked[i].1);
                    assert(self.tiles@[*walked[j].0] == *walked[j].1);
                    assert(walked[i] == walked[j]);
                }
            }
        }
        list
    }
}

/// Whether the player may step onto `pos` on a play surface of extent `size`.
///
/// A position off the surface is never passable, whatever the grid holds; on
/// the surface only a wall blocks.
pub fn can_go(size: Size, cells: &Cells, pos: (i32, i32)) -> (passable: bool)
    ensures
        passable == is_passable(cells@, size, coord(pos)),
        !in_bounds(size, coord(pos)) ==> !passable,
        in_bounds(size, coord(pos)) && !cells@.contains_key(coord(pos)) ==> passable,
{
    let (x, y) = pos;
    if x >= 0 && y >= 0 && x < size.width && y < size.height {
        match cells.get((x, y)) {
            None => true,
            Some(Cell::Goal) => true,
            Some(Cell::Wall) => false,
        }
    } else {
        false
    }
}

} // verus!
