//! Tests of the render occupancy model: at most one renderable per
//! occupied cell per layer, and moving as remove-then-reinsert.

use mortalkin::messages::Position;
use mortalkin::tilegrid::{Tile, TileGrid};

#[test]
fn insert_rejected_on_occupied_cell() {
    let mut grid = TileGrid::new();
    assert!(grid.insert_tile(Tile { x: 0, y: 0, sprite_index: 4, sprite_order: 1 }));
    // Same cell, same layer: rejected, occupancy unchanged.
    assert!(!grid.insert_tile(Tile { x: 0, y: 0, sprite_index: 9, sprite_order: 1 }));
    assert_eq!(grid.sprite_of(0, 0, 1), Some(4));
    // Same cell, other layer: a different renderable slot.
    assert!(grid.insert_tile(Tile { x: 0, y: 0, sprite_index: 7, sprite_order: 0 }));
    assert_eq!(grid.sprite_of(0, 0, 0), Some(7));
    assert_eq!(grid.tiles.len(), 2);
}

#[test]
fn clear_frees_the_cell() {
    let mut grid = TileGrid::new();
    assert!(grid.insert_tile(Tile { x: 3, y: -2, sprite_index: 5, sprite_order: 1 }));
    assert!(grid.clear_tile(3, -2, 1));
    assert_eq!(grid.sprite_of(3, -2, 1), None);
    // Clearing a free cell reports so and changes nothing.
    assert!(!grid.clear_tile(3, -2, 1));
    assert!(grid.tiles.is_empty());
}

#[test]
fn move_clears_old_cell_and_takes_new() {
    let mut grid = TileGrid::new();
    assert!(grid.insert_tile(Tile { x: 2, y: 2, sprite_index: 8, sprite_order: 1 }));
    grid.move_renderable(Position { x: 2, y: 2 }, Position { x: 3, y: 2 }, 1);
    assert_eq!(grid.sprite_of(2, 2, 1), None);
    assert_eq!(grid.sprite_of(3, 2, 1), Some(8));
    assert_eq!(grid.tiles.len(), 1);
}

#[test]
fn move_in_place_keeps_the_cell() {
    let mut grid = TileGrid::new();
    assert!(grid.insert_tile(Tile { x: 2, y: 2, sprite_index: 8, sprite_order: 1 }));
    grid.move_renderable(Position { x: 2, y: 2 }, Position { x: 2, y: 2 }, 1);
    assert_eq!(grid.sprite_of(2, 2, 1), Some(8));
    assert_eq!(grid.tiles.len(), 1);
}

#[test]
fn layers_move_independently() {
    let mut grid = TileGrid::new();
    assert!(grid.insert_tile(Tile { x: 0, y: 0, sprite_index: 1, sprite_order: 0 }));
    assert!(grid.insert_tile(Tile { x: 0, y: 0, sprite_index: 2, sprite_order: 1 }));
    grid.move_renderable(Position { x: 0, y: 0 }, Position { x: 1, y: 0 }, 1);
    // The floor layer at the old cell is untouched.
    assert_eq!(grid.sprite_of(0, 0, 0), Some(1));
    assert_eq!(grid.sprite_of(0, 0, 1), None);
    assert_eq!(grid.sprite_of(1, 0, 1), Some(2));
}
