//! Tiles, footprint and debris effects of the vertical bridge.

use vstd::prelude::*;

use crate::original::types::PlanetType;
use crate::text::{concat3, numbered_names, spec_numbered_name};
use crate::units::buildings::building_ui::{planet_asset_name, spec_planet_asset_name, BridgeVisualState, BridgeVisualTileSpec};

verus! {

pub const TOP_INDEX: usize = 0;
pub const SECOND_INDEX: usize = 1;
pub const PENULTIMATE_INDEX: usize = 2;
pub const BOTTOM_INDEX: usize = 3;
pub const FILL_LIVE_INDEX: usize = 4;
pub const FILL_DAMAGED_0_INDEX: usize = 5;
pub const FILL_DAMAGED_1_INDEX: usize = 6;
pub const FILL_DESTROYED_INDEX: usize = 7;
/// Width of one tile frame, in pixels.
pub const TILE_FRAME_WIDTH: u32 = 64;
/// Height of one tile frame, in pixels.
pub const TILE_FRAME_HEIGHT: u32 = 16;
/// Frames of the large debris thrown when a bridge collapses.
pub const TURRENT_FRAME_COUNT: usize = 12;
/// Frames of the small rock debris.
pub const ROCK_PARTICLE_FRAME_COUNT: usize = 16;

/// Footprint in tiles, width then height: four tiles wide, five plus one
/// per extra link tall (saturating at `u16::MAX`).
pub open spec fn spec_pathing_dimensions(extra_links: u16) -> (u16, u16) {
    (4, if 5 + extra_links > u16::MAX { u16::MAX } else { (5 + extra_links) as u16 })
}

/// Footprint of the bridge in tiles, width then height.
pub fn pathing_dimensions(extra_links: u16) -> (r: (u16, u16))
    ensures
        r == spec_pathing_dimensions(extra_links),
{
    (4, 5u16.saturating_add(extra_links))
}

/// Tiles of the two side walls, row by row: left wall, then right wall.
pub open spec fn spec_edge_block_offsets(extra_links: u16) -> Seq<(u16, u16)> {
    let height = spec_pathing_dimensions(extra_links).1;
    Seq::new((2 * height) as nat, |k: int| (if k % 2 == 0 { 0u16 } else { 3u16 }, (k / 2) as u16))
}

/// Tiles of the side walls, which block movement across the bridge.
pub fn edge_block_offsets(extra_links: u16) -> (r: Vec<(u16, u16)>)
    ensures
        r@ == spec_edge_block_offsets(extra_links),
{
    let (_, height) = pathing_dimensions(extra_links);
    let mut offsets: Vec<(u16, u16)> = Vec::new();
    let mut ty: u16 = 0;
    while ty < height
        invariant
            ty <= height,
            height == spec_pathing_dimensions(extra_links).1,
            offsets@ == spec_edge_block_offsets(extra_links).take(2 * ty),
        decreases height - ty,
    {
        offsets.push((0, ty));
        offsets.push((3, ty));
        proof {
            assert(offsets@ =~= spec_edge_block_offsets(extra_links).take(2 * ty + 2));
        }
        ty = ty + 1;
    }
    proof {
        assert(offsets@ =~= spec_edge_block_offsets(extra_links));
    }
    offsets
}

/// Tiles of the roadway, row by row: left lane, then right lane.
pub open spec fn spec_center_offsets(extra_links: u16) -> Seq<(u16, u16)> {
    let height = spec_pathing_dimensions(extra_links).1;
    Seq::new((2 * height) as nat, |k: int| (if k % 2 == 0 { 1u16 } else { 2u16 }, (k / 2) as u16))
}

/// Tiles of the roadway, which units may cross.
pub fn center_offsets(extra_links: u16) -> (r: Vec<(u16, u16)>)
    ensures
        r@ == spec_center_offsets(extra_links),
{
    let (_, height) = pathing_dimensions(extra_links);
    let mut offsets: Vec<(u16, u16)> = Vec::new();
    let mut ty: u16 = 0;
    while ty < height
        invariant
            ty <= height,
            height == spec_pathing_dimensions(extra_links).1,
            offsets@ == spec_center_offsets(extra_links).take(2 * ty),
        decreases height - ty,
    {
        offsets.push((1, ty));
        offsets.push((2, ty));
        proof {
            assert(offsets@ =~= spec_center_offsets(extra_links).take(2 * ty + 2));
        }
        ty = ty + 1;
    }
    proof {
        assert(offsets@ =~= spec_center_offsets(extra_links));
    }
    offsets
}

/// Frame of a middle row: live, alternating damaged frames, or destroyed.
pub open spec fn spec_fill_index(state: BridgeVisualState, row: int) -> usize {
    match state {
        BridgeVisualState::Live => FILL_LIVE_INDEX,
        BridgeVisualState::Damaged => if row % 2 == 0 { FILL_DAMAGED_0_INDEX } else { FILL_DAMAGED_1_INDEX },
        BridgeVisualState::Destroyed => FILL_DESTROYED_INDEX,
    }
}

/// Frame of a middle row of the bridge.
pub fn fill_index(state: BridgeVisualState, row: usize) -> (r: usize)
    ensures
        r == spec_fill_index(state, row as int),
{
    match state {
        BridgeVisualState::Live => FILL_LIVE_INDEX,
        BridgeVisualState::Damaged => if row % 2 == 0 { FILL_DAMAGED_0_INDEX } else { FILL_DAMAGED_1_INDEX },
        BridgeVisualState::Destroyed => FILL_DESTROYED_INDEX,
    }
}

/// Frame of row `row` of a bridge with `total_rows` rows: the two top rows
/// and two bottom rows have frames of their own, the middle is filled.
pub open spec fn spec_row_index(state: BridgeVisualState, row: int, total_rows: int) -> usize {
    if row == 0 {
        TOP_INDEX
    } else if row == 1 {
        SECOND_INDEX
    } else if row == total_rows - 2 {
        PENULTIMATE_INDEX
    } else if row == total_rows - 1 {
        BOTTOM_INDEX
    } else {
        spec_fill_index(state, row)
    }
}

/// Tiles of the bridge from top to bottom, one per row, each 16 pixels below
/// the one before.
pub open spec fn spec_visual_tile_specs(extra_links: u16, state: BridgeVisualState) -> Seq<BridgeVisualTileSpec> {
    let total_rows = 5 + extra_links;
    Seq::new(
        total_rows as nat,
        |row: int| BridgeVisualTileSpec {
            index: spec_row_index(state, row, total_rows),
            offset_x: 0,
            offset_y: (row * 16) as u32,
            frame_width: TILE_FRAME_WIDTH,
            frame_height: TILE_FRAME_HEIGHT,
        },
    )
}

/// Tiles of the drawn bridge.
pub fn visual_tile_specs(extra_links: u16, state: BridgeVisualState) -> (r: Vec<BridgeVisualTileSpec>)
    ensures
        r@ == spec_visual_tile_specs(extra_links, state),
{
    let total_rows: usize = 5 + extra_links as usize;
    let mut specs: Vec<BridgeVisualTileSpec> = Vec::new();
    let mut row: usize = 0;
    while row < total_rows
        invariant
            row <= total_rows,
            total_rows == 5 + extra_links,
            specs@ == spec_visual_tile_specs(extra_links, state).take(row as int),
        decreases total_rows - row,
    {
        let index = if row == 0 {
            TOP_INDEX
        } else if row == 1 {
            SECOND_INDEX
        } else if row == total_rows - 2 {
            PENULTIMATE_INDEX
        } else if row == total_rows - 1 {
            BOTTOM_INDEX
        } else {
            fill_index(state, row)
        };
        let offset_y = (row as u32) * 16;
        specs.push(BridgeVisualTileSpec {
            index,
            offset_x: 0,
            offset_y,
            frame_width: TILE_FRAME_WIDTH,
            frame_height: TILE_FRAME_HEIGHT,
        });
        proof {
            assert(specs@ =~= spec_visual_tile_specs(extra_links, state).take(row + 1));
        }
        row = row + 1;
    }
    proof {
        assert(specs@ =~= spec_visual_tile_specs(extra_links, state));
    }
    specs
}

/// Asset path of frame `frame` of the large debris on `planet`.
pub open spec fn spec_turrent_frame_path(planet: PlanetType, frame: nat) -> Seq<char> {
    spec_numbered_name("planets/bridge_effects/debri_large_"@ + spec_planet_asset_name(planet) + "_n"@, frame, 2, ".png"@)
}

/// Asset paths of the large debris frames of `planet`, in frame order.
pub fn turrent_frame_paths(planet: PlanetType) -> (r: Vec<String>)
    ensures
        r@.len() == TURRENT_FRAME_COUNT,
        forall|i: int| 0 <= i < TURRENT_FRAME_COUNT ==> #[trigger] r@[i]@ == spec_turrent_frame_path(planet, i as nat),
{
    let prefix = concat3("planets/bridge_effects/debri_large_", planet_asset_name(planet), "_n");
    numbered_names(prefix.as_str(), TURRENT_FRAME_COUNT, 2, ".png")
}

/// Asset path of frame `frame` of the small rock debris on `planet`.
pub open spec fn spec_rock_particle_frame_path(planet: PlanetType, frame: nat) -> Seq<char> {
    spec_numbered_name("planets/rock_effects/debri_small_"@ + spec_planet_asset_name(planet) + "_n"@, frame, 2, ".png"@)
}

/// Asset paths of the small rock debris frames of `planet`, in frame order.
pub fn rock_particle_frame_paths(planet: PlanetType) -> (r: Vec<String>)
    ensures
        r@.len() == ROCK_PARTICLE_FRAME_COUNT,
        forall|i: int| 0 <= i < ROCK_PARTICLE_FRAME_COUNT ==> #[trigger] r@[i]@ == spec_rock_particle_frame_path(planet, i as nat),
{
    let prefix = concat3("planets/rock_effects/debri_small_", planet_asset_name(planet), "_n");
    numbered_names(prefix.as_str(), ROCK_PARTICLE_FRAME_COUNT, 2, ".png")
}

/// Number of debris particles at the end of a collapsing bridge: twelve plus
/// `roll`, a random draw below six.
pub fn end_particle_count(roll: usize) -> (r: usize)
    requires
        roll < 6,
    ensures
        r == 12 + roll,
{
    12 + roll
}

} // verus!
