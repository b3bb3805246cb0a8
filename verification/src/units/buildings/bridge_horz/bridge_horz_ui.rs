//! Tiles and footprint of the horizontal bridge.

use vstd::prelude::*;

use crate::units::buildings::building_ui::{BridgeVisualState, BridgeVisualTileSpec};

verus! {

pub const LEFT_INDEX: usize = 8;
pub const SECOND_INDEX: usize = 9;
pub const PENULTIMATE_INDEX: usize = 10;
pub const RIGHT_INDEX: usize = 11;
pub const FILL_LIVE_INDEX: usize = 12;
pub const FILL_DAMAGED_0_INDEX: usize = 13;
pub const FILL_DAMAGED_1_INDEX: usize = 14;
pub const FILL_DESTROYED_INDEX: usize = 15;
/// Width of one tile frame, in pixels.
pub const TILE_FRAME_WIDTH: u32 = 16;
/// Height of one tile frame, in pixels.
pub const TILE_FRAME_HEIGHT: u32 = 64;

/// Footprint in tiles, width then height: five plus one per extra link wide
/// (saturating at `u16::MAX`), four tiles tall.
pub open spec fn spec_pathing_dimensions(extra_links: u16) -> (u16, u16) {
    (if 5 + extra_links > u16::MAX { u16::MAX } else { (5 + extra_links) as u16 }, 4)
}

/// Footprint of the bridge in tiles, width then height.
pub fn pathing_dimensions(extra_links: u16) -> (r: (u16, u16))
    ensures
        r == spec_pathing_dimensions(extra_links),
{
    (5u16.saturating_add(extra_links), 4)
}

/// Tiles of the two side walls, column by column: top wall, then bottom wall.
pub open spec fn spec_edge_block_offsets(extra_links: u16) -> Seq<(u16, u16)> {
    let width = spec_pathing_dimensions(extra_links).0;
    Seq::new((2 * width) as nat, |k: int| ((k / 2) as u16, if k % 2 == 0 { 0u16 } else { 3u16 }))
}

/// Tiles of the side walls, which block movement across the bridge.
pub fn edge_block_offsets(extra_links: u16) -> (r: Vec<(u16, u16)>)
    ensures
        r@ == spec_edge_block_offsets(extra_links),
{
    let (width, _) = pathing_dimensions(extra_links);
    let mut offsets: Vec<(u16, u16)> = Vec::new();
    let mut tx: u16 = 0;
    while tx < width
        invariant
            tx <= width,
            width == spec_pathing_dimensions(extra_links).0,
            offsets@ == spec_edge_block_offsets(extra_links).take(2 * tx),
        decreases width - tx,
    {
        offsets.push((tx, 0));
        offsets.push((tx, 3));
        proof {
            assert(offsets@ =~= spec_edge_block_offsets(extra_links).take(2 * tx + 2));
        }
        tx = tx + 1;
    }
    proof {
        assert(offsets@ =~= spec_edge_block_offsets(extra_links));
    }
    offsets
}

/// Tiles of the roadway, column by column: upper lane, then lower lane.
pub open spec fn spec_center_offsets(extra_links: u16) -> Seq<(u16, u16)> {
    let width = spec_pathing_dimensions(extra_links).0;
    Seq::new((2 * width) as nat, |k: int| ((k / 2) as u16, if k % 2 == 0 { 1u16 } else { 2u16 }))
}

/// Tiles of the roadway, which units may cross.
pub fn center_offsets(extra_links: u16) -> (r: Vec<(u16, u16)>)
    ensures
        r@ == spec_center_offsets(extra_links),
{
    let (width, _) = pathing_dimensions(extra_links);
    let mut offsets: Vec<(u16, u16)> = Vec::new();
    let mut tx: u16 = 0;
    while tx < width
        invariant
            tx <= width,
            width == spec_pathing_dimensions(extra_links).0,
            offsets@ == spec_center_offsets(extra_links).take(2 * tx),
        decreases width - tx,
    {
        offsets.push((tx, 1));
        offsets.push((tx, 2));
        proof {
            assert(offsets@ =~= spec_center_offsets(extra_links).take(2 * tx + 2));
        }
        tx = tx + 1;
    }
    proof {
        assert(offsets@ =~= spec_center_offsets(extra_links));
    }
    offsets
}

/// Frame of a middle column: live, alternating damaged frames, or destroyed.
pub open spec fn spec_fill_index(state: BridgeVisualState, col: int) -> usize {
    match state {
        BridgeVisualState::Live => FILL_LIVE_INDEX,
        BridgeVisualState::Damaged => if col % 2 == 0 { FILL_DAMAGED_0_INDEX } else { FILL_DAMAGED_1_INDEX },
        BridgeVisualState::Destroyed => FILL_DESTROYED_INDEX,
    }
}

/// Frame of a middle column of the bridge.
pub fn fill_index(state: BridgeVisualState, col: usize) -> (r: usize)
    ensures
        r == spec_fill_index(state, col as int),
{
    match state {
        BridgeVisualState::Live => FILL_LIVE_INDEX,
        BridgeVisualState::Damaged => if col % 2 == 0 { FILL_DAMAGED_0_INDEX } else { FILL_DAMAGED_1_INDEX },
        BridgeVisualState::Destroyed => FILL_DESTROYED_INDEX,
    }
}

/// Frame of column `col` of a bridge with `total_cols` columns: the two left
/// and two right columns have frames of their own, the middle is filled.
pub open spec fn spec_col_index(state: BridgeVisualState, col: int, total_cols: int) -> usize {
    if col == 0 {
        LEFT_INDEX
    } else if col == 1 {
        SECOND_INDEX
    } else if col == total_cols - 2 {
        PENULTIMATE_INDEX
    } else if col == total_cols - 1 {
        RIGHT_INDEX
    } else {
        spec_fill_index(state, col)
    }
}

/// Tiles of the bridge from left to right, one per column, each 16 pixels
/// right of the one before.
pub open spec fn spec_visual_tile_specs(extra_links: u16, state: BridgeVisualState) -> Seq<BridgeVisualTileSpec> {
    let total_cols = 5 + extra_links;
    Seq::new(
        total_cols as nat,
        |col: int| BridgeVisualTileSpec {
            index: spec_col_index(state, col, total_cols),
            offset_x: (col * 16) as u32,
            offset_y: 0,
            frame_width: TILE_FRAME_WIDTH,
            frame_height: TILE_FRAME_HEIGHT,
        },
    )
}

/// Tiles of the drawn bridge.
pub fn visual_tile_specs(extra_links: u16, state: BridgeVisualState) -> (r: Vec<BridgeVisualTileSpec>)
    ensures
        r@ == spec_visual_tile_specs(extra_links, state),
{
    let total_cols: usize = 5 + extra_links as usize;
    let mut specs: Vec<BridgeVisualTileSpec> = Vec::new();
    let mut col: usize = 0;
    while col < total_cols
        invariant
            col <= total_cols,
            total_cols == 5 + extra_links,
            specs@ == spec_visual_tile_specs(extra_links, state).take(col as int),
        decreases total_cols - col,
    {
        let index = if col == 0 {
            LEFT_INDEX
        } else if col == 1 {
            SECOND_INDEX
        } else if col == total_cols - 2 {
            PENULTIMATE_INDEX
        } else if col == total_cols - 1 {
            RIGHT_INDEX
        } else {
            fill_index(state, col)
        };
        let offset_x = (col as u32) * 16;
        specs.push(BridgeVisualTileSpec {
            index,
            offset_x,
            offset_y: 0,
            frame_width: TILE_FRAME_WIDTH,
            frame_height: TILE_FRAME_HEIGHT,
        });
        proof {
            assert(specs@ =~= spec_visual_tile_specs(extra_links, state).take(col + 1));
        }
        col = col + 1;
    }
    proof {
        assert(specs@ =~= spec_visual_tile_specs(extra_links, state));
    }
    specs
}

} // verus!
