//! The render occupancy model of the play field.
//!
//! The field is drawn from a grid of tiles; a moving character is a
//! renderable that leaves its old grid cell and takes its new one, so
//! moving is clearing the occupancy at the old cell and inserting it at
//! the new cell.  The invariant is that each occupied cell holds at most
//! one renderable per layer.

use vstd::prelude::*;

use crate::messages::Position;

verus! {

/// One renderable placed on the grid: a cell, the sprite drawn there, and
/// the layer it is drawn on (characters above the floor).
#[derive(Clone, Copy, PartialEq, Eq, Structural, Debug)]
pub struct Tile {
    pub x: i32,
    pub y: i32,
    pub sprite_index: usize,
    pub sprite_order: usize,
}

/// Whether tile `t` sits at cell `(x, y)` on layer `layer`.
pub open spec fn at_cell(t: Tile, x: i32, y: i32, layer: usize) -> bool {
    t.x == x && t.y == y && t.sprite_order == layer
}

/// Whether some renderable occupies cell `(x, y)` on layer `layer`.
pub open spec fn occupied(tiles: Seq<Tile>, x: i32, y: i32, layer: usize) -> bool {
    exists|i: int| 0 <= i < tiles.len() && at_cell(tiles[i], x, y, layer)
}

/// The slot of the renderable at cell `(x, y)` on layer `layer`
/// (meaningful only when [`occupied`] holds; unique under
/// [`one_per_cell`]).
pub open spec fn cell_index(tiles: Seq<Tile>, x: i32, y: i32, layer: usize) -> int {
    choose|i: int| 0 <= i < tiles.len() && at_cell(tiles[i], x, y, layer)
}

/// The sprite drawn at cell `(x, y)` on layer `layer`, when one is.
pub open spec fn sprite_at(tiles: Seq<Tile>, x: i32, y: i32, layer: usize) -> Option<usize> {
    if occupied(tiles, x, y, layer) {
        Some(tiles[cell_index(tiles, x, y, layer)].sprite_index)
    } else {
        None
    }
}

/// At most one renderable per occupied cell per layer.
pub open spec fn one_per_cell(tiles: Seq<Tile>) -> bool {
    forall|i: int, j: int|
        0 <= i < j < tiles.len() ==> !(tiles[i].x == tiles[j].x && tiles[i].y == tiles[j].y
            && tiles[i].sprite_order == tiles[j].sprite_order)
}

/// The render occupancy of the play field.
pub struct TileGrid {
    pub tiles: Vec<Tile>,
}

impl TileGrid {
    /// Well-formedness: at most one renderable per occupied cell per
    /// layer.
    pub open spec fn wf(self) -> bool {
        one_per_cell(self.tiles@)
    }

    /// An empty grid.
    pub fn new() -> (r: TileGrid)
        ensures
            r.wf(),
            r.tiles@ == Seq::<Tile>::empty(),
    {
        TileGrid { tiles: Vec::new() }
    }

    /// Whether cell `(x, y)` on layer `layer` holds a renderable, and
    /// which sprite it draws.
    pub fn sprite_of(&self, x: i32, y: i32, layer: usize) -> (r: Option<usize>)
        requires
            self.wf(),
        ensures
            r == sprite_at(self.tiles@, x, y, layer),
    {
        let mut i: usize = 0;
        while i < self.tiles.len()
            invariant
                self.wf(),
                i <= self.tiles.len(),
                forall|j: int| 0 <= j < i ==> !at_cell(self.tiles@[j], x, y, layer),
            decreases self.tiles.len() - i,
        {
            let t = self.tiles[i];
            if t.x == x && t.y == y && t.sprite_order == layer {
                proof {
                    lemma_cell_unique(self.tiles@, x, y, layer, i as int);
                }
                return Some(t.sprite_index);
            }
            i += 1;
        }
        proof {
            assert(!occupied(self.tiles@, x, y, layer));
        }
        None
    }

    /// Places a renderable: accepted exactly when its cell is free on its
    /// layer, so that the one-per-cell invariant is kept; a rejected
    /// placement changes nothing.
    pub fn insert_tile(&mut self, t: Tile) -> (accepted: bool)
        requires
            old(self).wf(),
        ensures
            final(self).wf(),
            accepted == !occupied(old(self).tiles@, t.x, t.y, t.sprite_order),
            accepted ==> final(self).tiles@ == old(self).tiles@.push(t),
            !accepted ==> *final(self) == *old(self),
    {
        let mut i: usize = 0;
        while i < self.tiles.len()
            invariant
                *self == *old(self),
                old(self).wf(),
                i <= self.tiles.len(),
                forall|j: int|
                    0 <= j < i ==> !at_cell(self.tiles@[j], t.x, t.y, t.sprite_order),
            decreases self.tiles.len() - i,
        {
            let u = self.tiles[i];
            if u.x == t.x && u.y == t.y && u.sprite_order == t.sprite_order {
                return false;
            }
            i += 1;
        }
        proof {
            assert(!occupied(self.tiles@, t.x, t.y, t.sprite_order));
        }
        self.tiles.push(t);
        true
    }

    /// Removes the renderable at cell `(x, y)` on layer `layer`, when one
    /// is there; clearing a free cell changes nothing.
    pub fn clear_tile(&mut self, x: i32, y: i32, layer: usize) -> (cleared: bool)
        requires
            old(self).wf(),
        ensures
            final(self).wf(),
            cleared == occupied(old(self).tiles@, x, y, layer),
            cleared ==> final(self).tiles@ == old(self).tiles@.remove(
                cell_index(old(self).tiles@, x, y, layer),
            ),
            !cleared ==> *final(self) == *old(self),
    {
        let mut i: usize = 0;
        while i < self.tiles.len()
            invariant
                *self == *old(self),
                old(self).wf(),
                i <= self.tiles.len(),
                forall|j: int| 0 <= j < i ==> !at_cell(self.tiles@[j], x, y, layer),
            decreases self.tiles.len() - i,
        {
            let t = self.tiles[i];
            if t.x == x && t.y == y && t.sprite_order == layer {
                proof {
                    lemma_cell_unique(self.tiles@, x, y, layer, i as int);
                }
                self.tiles.remove(i);
                proof {
                    lemma_remove_keeps_one_per_cell(old(self).tiles@, i as int);
                }
                return true;
            }
            i += 1;
        }
        proof {
            assert(!occupied(self.tiles@, x, y, layer));
        }
        false
    }

    /// Moves a renderable one cell: the occupancy at the old cell is
    /// removed and reinserted at the new cell, on the same layer with the
    /// same sprite.  The new cell must be free (or be the old cell
    /// itself, which the removal frees).
    pub fn move_renderable(&mut self, from: Position, to: Position, layer: usize)
        requires
            old(self).wf(),
            occupied(old(self).tiles@, from.x, from.y, layer),
            (from.x == to.x && from.y == to.y) || !occupied(old(self).tiles@, to.x, to.y, layer),
        ensures
            final(self).wf(),
            final(self).tiles@ == old(self).tiles@.remove(
                cell_index(old(self).tiles@, from.x, from.y, layer),
            ).push(
                Tile {
                    x: to.x,
                    y: to.y,
                    sprite_index: old(self).tiles@[cell_index(
                        old(self).tiles@,
                        from.x,
                        from.y,
                        layer,
                    )].sprite_index,
                    sprite_order: layer,
                },
            ),
    {
        let sprite_index = match self.sprite_of(from.x, from.y, layer) {
            Some(s) => s,
            None => {
                proof {
                    assert(false);
                }
                0
            },
        };
        let cleared = self.clear_tile(from.x, from.y, layer);
        proof {
            let pre = old(self).tiles@;
            let i = cell_index(pre, from.x, from.y, layer);
            assert(0 <= i < pre.len() && at_cell(pre[i], from.x, from.y, layer));
            if occupied(self.tiles@, to.x, to.y, layer) {
                let w = cell_index(self.tiles@, to.x, to.y, layer);
                assert(0 <= w < self.tiles@.len() && at_cell(self.tiles@[w], to.x, to.y, layer));
                if w < i {
                    assert(self.tiles@[w] == pre[w]);
                } else {
                    assert(self.tiles@[w] == pre[w + 1]);
                }
                assert(false);
            }
        }
        let accepted = self.insert_tile(
            Tile { x: to.x, y: to.y, sprite_index, sprite_order: layer },
        );
        proof {
            assert(accepted);
        }
    }
}

/// Under a prefix free of the cell, a renderable found at `i` sits in the
/// slot [`cell_index`] names.
proof fn lemma_cell_unique(tiles: Seq<Tile>, x: i32, y: i32, layer: usize, i: int)
    requires
        0 <= i < tiles.len(),
        at_cell(tiles[i], x, y, layer),
        forall|j: int| 0 <= j < i ==> !at_cell(tiles[j], x, y, layer),
        one_per_cell(tiles),
    ensures
        occupied(tiles, x, y, layer),
        cell_index(tiles, x, y, layer) == i,
{
    assert(occupied(tiles, x, y, layer));
    let w = cell_index(tiles, x, y, layer);
    assert(0 <= w < tiles.len() && at_cell(tiles[w], x, y, layer));
    if i < w {
        assert(!(tiles[i].x == tiles[w].x && tiles[i].y == tiles[w].y && tiles[i].sprite_order
            == tiles[w].sprite_order));
    }
}

/// Removing a renderable keeps at most one per cell per layer.
proof fn lemma_remove_keeps_one_per_cell(tiles: Seq<Tile>, i: int)
    requires
        0 <= i < tiles.len(),
        one_per_cell(tiles),
    ensures
        one_per_cell(tiles.remove(i)),
{
    let r = tiles.remove(i);
    assert forall|a: int, b: int| 0 <= a < b < r.len() implies !(r[a].x == r[b].x && r[a].y
        == r[b].y && r[a].sprite_order == r[b].sprite_order) by {
        let a0 = if a < i {
            a
        } else {
            a + 1
        };
        let b0 = if b < i {
            b
        } else {
            b + 1
        };
        assert(r[a] == tiles[a0]);
        assert(r[b] == tiles[b0]);
    }
}

} // verus!
