//! Frames of the missile cannon.

use vstd::prelude::*;

use crate::original::types::{spec_atlas_team, spec_team_asset_name, TeamType};
use crate::text::{concat2, concat3, numbered_name, spec_numbered_name};
use crate::units::cannons::cannon_ui::{frame_profile, spec_profile_is, CannonFrameProfile, CannonFrameRole, PLACE_FRAME_COUNT};

verus! {

/// The missile cannon's name on the HUD.
pub fn hud_name() -> (r: &'static str)
    ensures
        r@ == "missile_cannon"@,
{
    "missile_cannon"
}

/// Asset paths of the missile the cannon fires.
pub fn damage_missile_frame_paths() -> (r: Vec<String>)
    ensures
        r@.len() == 1,
        r@[0]@ == "units/cannons/missile_cannon/bullet.png"@,
{
    let mut r: Vec<String> = Vec::new();
    r.push(concat2("units/cannons/missile_cannon/bullet.png", ""));
    proof {
        reveal_strlit("");
        assert(r@[0]@ =~= "units/cannons/missile_cannon/bullet.png"@);
    }
    r
}

/// Asset of the cannon with no crew: one shared frame for unowned cannons,
/// one per team colour and rotation otherwise.
pub open spec fn spec_empty_frame_path(team: TeamType, rotation: u16) -> Seq<char> {
    if team == TeamType::Null {
        "units/cannons/missile_cannon/empty_null.png"@
    } else {
        spec_numbered_name(
            "units/cannons/missile_cannon/empty_"@ + spec_team_asset_name(spec_atlas_team(team)) + "_r"@,
            rotation as nat,
            3,
            ".png"@,
        )
    }
}

/// The empty cannon's frame: unowned cannons use the red atlas.
pub fn empty_frame_profile(team: TeamType, rotation: u16) -> (r: CannonFrameProfile)
    ensures
        spec_profile_is(
            r,
            CannonFrameRole::Empty,
            if team == TeamType::Null { TeamType::Red } else { spec_atlas_team(team) },
            spec_empty_frame_path(team, rotation),
        ),
{
    if team == TeamType::Null {
        let path = concat2("units/cannons/missile_cannon/empty_null.png", "");
        proof {
            reveal_strlit("");
            assert(path@ =~= "units/cannons/missile_cannon/empty_null.png"@);
        }
        return frame_profile(CannonFrameRole::Empty, TeamType::Red, path);
    }
    let atlas = team.atlas_team();
    let prefix = concat3("units/cannons/missile_cannon/empty_", atlas.asset_name(), "_r");
    let path = numbered_name(prefix.as_str(), rotation as usize, 3, ".png");
    frame_profile(CannonFrameRole::Empty, atlas, path)
}

/// Asset of the crewed cannon of a team at a rotation.
pub open spec fn spec_equipped_frame_path(team: TeamType, rotation: u16) -> Seq<char> {
    spec_numbered_name(
        "units/cannons/missile_cannon/equiped_"@ + spec_team_asset_name(spec_atlas_team(team)) + "_r"@,
        rotation as nat,
        3,
        ".png"@,
    )
}

/// The crewed cannon's frame; unowned cannons have no crew.
pub fn equipped_frame_profile(team: TeamType, rotation: u16) -> (r: Option<CannonFrameProfile>)
    ensures
        team == TeamType::Null ==> r is None,
        team != TeamType::Null ==> r is Some && spec_profile_is(
            r->0,
            CannonFrameRole::Equipped,
            spec_atlas_team(team),
            spec_equipped_frame_path(team, rotation),
        ),
{
    if team == TeamType::Null {
        return None;
    }
    let atlas = team.atlas_team();
    let prefix = concat3("units/cannons/missile_cannon/equiped_", atlas.asset_name(), "_r");
    let path = numbered_name(prefix.as_str(), rotation as usize, 3, ".png");
    Some(frame_profile(CannonFrameRole::Equipped, atlas, path))
}

/// The cannon at rest: the crewed frame when owned, the empty one otherwise.
pub fn passive_frame_profile(team: TeamType, rotation: u16) -> (r: CannonFrameProfile)
    ensures
        team != TeamType::Null ==> spec_profile_is(
            r,
            CannonFrameRole::Passive,
            spec_atlas_team(team),
            spec_equipped_frame_path(team, rotation),
        ),
        team == TeamType::Null ==> spec_profile_is(r, CannonFrameRole::Empty, TeamType::Red, spec_empty_frame_path(team, rotation)),
{
    match equipped_frame_profile(team, rotation) {
        Some(profile) => CannonFrameProfile { role: CannonFrameRole::Passive, ..profile },
        None => empty_frame_profile(team, rotation),
    }
}

/// The cannon firing: the crewed frame when owned, the empty one otherwise.
pub fn fire_frame_profile(team: TeamType, rotation: u16) -> (r: CannonFrameProfile)
    ensures
        team != TeamType::Null ==> spec_profile_is(
            r,
            CannonFrameRole::Fire,
            spec_atlas_team(team),
            spec_equipped_frame_path(team, rotation),
        ),
        team == TeamType::Null ==> spec_profile_is(r, CannonFrameRole::Empty, TeamType::Red, spec_empty_frame_path(team, rotation)),
{
    match equipped_frame_profile(team, rotation) {
        Some(profile) => CannonFrameProfile { role: CannonFrameRole::Fire, ..profile },
        None => empty_frame_profile(team, rotation),
    }
}

/// Asset of frame `frame` of the cannon's own placement animation; frames
/// past the last show the last.
pub open spec fn spec_place_frame_path(team: TeamType, frame: nat) -> Seq<char> {
    let shown = if frame < PLACE_FRAME_COUNT { frame } else { (PLACE_FRAME_COUNT - 1) as nat };
    spec_numbered_name(
        "units/cannons/missile_cannon/place_"@ + spec_team_asset_name(spec_atlas_team(team)) + "_n"@,
        shown,
        2,
        ".png"@,
    )
}

/// A frame of the cannon's own placement animation.
pub fn place_frame_profile(team: TeamType, frame: usize) -> (r: CannonFrameProfile)
    ensures
        spec_profile_is(r, CannonFrameRole::Place, spec_atlas_team(team), spec_place_frame_path(team, frame as nat)),
{
    let atlas = team.atlas_team();
    let shown = if frame < PLACE_FRAME_COUNT { frame } else { PLACE_FRAME_COUNT - 1 };
    let prefix = concat3("units/cannons/missile_cannon/place_", atlas.asset_name(), "_n");
    let path = numbered_name(prefix.as_str(), shown, 2, ".png");
    frame_profile(CannonFrameRole::Place, atlas, path)
}

/// Asset of the wreck thrown when the cannon dies.
pub fn death_wreck_asset_path() -> (r: String)
    ensures
        r@ == "units/cannons/missile_cannon/wasted.png"@,
{
    let r = concat2("units/cannons/missile_cannon/wasted.png", "");
    proof {
        reveal_strlit("");
        assert(r@ =~= "units/cannons/missile_cannon/wasted.png"@);
    }
    r
}

/// The wreck's frame, drawn from the red atlas.
pub fn death_wreck_frame_profile() -> (r: CannonFrameProfile)
    ensures
        spec_profile_is(r, CannonFrameRole::DeathWreck, TeamType::Red, "units/cannons/missile_cannon/wasted.png"@),
{
    frame_profile(CannonFrameRole::DeathWreck, TeamType::Red, death_wreck_asset_path())
}

/// Asset of the destroyed cannon, in its team's atlas colour.
pub open spec fn spec_destroyed_asset_path(team: TeamType) -> Seq<char> {
    "units/cannons/missile_cannon/wasted_"@ + spec_team_asset_name(spec_atlas_team(team)) + ".png"@
}

/// Asset of the destroyed cannon.
pub fn destroyed_asset_path(team: TeamType) -> (r: String)
    ensures
        r@ == spec_destroyed_asset_path(team),
{
    concat3("units/cannons/missile_cannon/wasted_", team.atlas_team().asset_name(), ".png")
}

/// The destroyed cannon's frame, drawn from its team's atlas.
pub fn destroyed_frame_profile(team: TeamType) -> (r: CannonFrameProfile)
    ensures
        spec_profile_is(r, CannonFrameRole::Destroyed, spec_atlas_team(team), spec_destroyed_asset_path(team)),
{
    frame_profile(CannonFrameRole::Destroyed, team.atlas_team(), destroyed_asset_path(team))
}

} // verus!
