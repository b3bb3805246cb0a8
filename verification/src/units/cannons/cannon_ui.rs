//! Frame profiles of cannons: which atlas frame and asset each cannon state
//! shows, and the placement animation every cannon shares.

use vstd::prelude::*;

use crate::original::types::TeamType;
use crate::text::{numbered_name, spec_numbered_name};

verus! {

/// Frames of the placement animation shared by every cannon.
pub const INIT_PLACE_FRAME_COUNT: usize = 3;
/// Frames of each cannon's own placement animation, after the shared ones.
pub const PLACE_FRAME_COUNT: usize = 4;

/// What a cannon frame shows.
#[derive(Clone, Copy, Debug, PartialEq, Eq, Structural)]
pub enum CannonFrameRole {
    Empty,
    Passive,
    Fire,
    Equipped,
    Place,
    DeathWreck,
    Destroyed,
}

/// A cannon frame: its role, the team atlas it is drawn from, its name in
/// that atlas, and the asset it is loaded from.
#[derive(Clone, Debug, PartialEq, Eq)]
pub struct CannonFrameProfile {
    pub role: CannonFrameRole,
    pub atlas_team: TeamType,
    pub atlas_frame_name: String,
    pub asset_path: String,
}

/// `s` without `suffix` at its end, if it ends with it.
pub open spec fn spec_strip_suffix(s: Seq<char>, suffix: Seq<char>) -> Option<Seq<char>> {
    if suffix.len() <= s.len() && s.subrange(s.len() - suffix.len(), s.len() as int) == suffix {
        Some(s.subrange(0, s.len() - suffix.len()))
    } else {
        None
    }
}

/// `s` without `prefix` at its start, if it starts with it.
pub open spec fn spec_strip_prefix(s: Seq<char>, prefix: Seq<char>) -> Option<Seq<char>> {
    if prefix.len() <= s.len() && s.subrange(0, prefix.len() as int) == prefix {
        Some(s.subrange(prefix.len() as int, s.len() as int))
    } else {
        None
    }
}

/// Path separators and dashes become underscores in atlas frame names.
pub open spec fn spec_atlas_char(c: char) -> char {
    if c == '/' || c == '-' { '_' } else { c }
}

/// The atlas frame name of a cannon asset: the path with its `.png`
/// extension and its `units/cannons/` folder taken off (a path outside that
/// folder is kept whole, extension included), separators and dashes turned
/// into underscores, after `cannon_`.
pub open spec fn spec_atlas_frame_name(asset_path: Seq<char>) -> Seq<char> {
    let without_suffix = match spec_strip_suffix(asset_path, ".png"@) {
        Some(s) => s,
        None => asset_path,
    };
    let stem = match spec_strip_prefix(without_suffix, "units/cannons/"@) {
        Some(s) => s,
        None => asset_path,
    };
    "cannon_"@ + stem.map_values(|c: char| spec_atlas_char(c))
}

/// Whether `s` holds `pat` starting at character `start`.
fn matches_at(s: &str, start: usize, pat: &str) -> (r: bool)
    requires
        start + pat@.len() <= s@.len(),
    ensures
        r == (s@.subrange(start as int, start + pat@.len()) == pat@),
{
    let n = pat.unicode_len();
    let total = s.unicode_len();
    let mut i: usize = 0;
    while i < n
        invariant
            n == pat@.len(),
            total == s@.len(),
            i <= n,
            start + n <= s@.len(),
            forall|j: int| 0 <= j < i ==> s@[start + j] == pat@[j],
        decreases n - i,
    {
        if s.get_char(start + i) != pat.get_char(i) {
            assert(s@.subrange(start as int, start + pat@.len())[i as int] != pat@[i as int]);
            return false;
        }
        i = i + 1;
    }
    assert(s@.subrange(start as int, start + pat@.len()) =~= pat@);
    true
}

/// The profile of a cannon frame loaded from `asset_path`, with its atlas
/// frame name derived from the path.
pub fn frame_profile(role: CannonFrameRole, atlas_team: TeamType, asset_path: String) -> (r: CannonFrameProfile)
    ensures
        r.role == role,
        r.atlas_team == atlas_team,
        r.asset_path@ == asset_path@,
        r.atlas_frame_name@ == spec_atlas_frame_name(asset_path@),
{
    proof {
        reveal_strlit(".png");
        reveal_strlit("units/cannons/");
        reveal_strlit("cannon_");
        reveal_strlit("_");
    }
    let s = asset_path.as_str();
    let n = s.unicode_len();
    let end: usize = if 4 <= n && matches_at(s, n - 4, ".png") { n - 4 } else { n };
    let (start, stop): (usize, usize) = if 14 <= end && matches_at(s, 0, "units/cannons/") { (14, end) } else { (0, n) };
    let ghost path = s@;
    let ghost without_suffix = match spec_strip_suffix(path, ".png"@) {
        Some(t) => t,
        None => path,
    };
    let ghost stem = match spec_strip_prefix(without_suffix, "units/cannons/"@) {
        Some(t) => t,
        None => path,
    };
    proof {
        assert(without_suffix =~= path.subrange(0, end as int));
        if 14 <= end && path.subrange(0, 14) == "units/cannons/"@ {
            assert(without_suffix.subrange(0, 14) =~= path.subrange(0, 14));
        }
        if 14 <= end && without_suffix.subrange(0, 14) == "units/cannons/"@ {
            assert(without_suffix.subrange(0, 14) =~= path.subrange(0, 14));
        }
        assert(stem =~= path.subrange(start as int, stop as int));
    }
    let mut name = String::new();
    name.append("cannon_");
    let mut i: usize = start;
    while i < stop
        invariant
            start <= i <= stop <= n,
            n == path.len(),
            s@ == path,
            stem == path.subrange(start as int, stop as int),
            name@ == "cannon_"@ + stem.subrange(0, i - start).map_values(|c: char| spec_atlas_char(c)),
        decreases stop - i,
    {
        let c = s.get_char(i);
        let ghost before = name@;
        if c == '/' || c == '-' {
            name.append("_");
            proof {
                reveal_strlit("_");
                assert("_"@ =~= seq!['_']);
            }
        } else {
            let one = s.substring_char(i, i + 1);
            name.append(one);
            proof {
                assert(one@ =~= seq![c]);
            }
        }
        proof {
            assert(stem.subrange(0, i + 1 - start).map_values(|c: char| spec_atlas_char(c)) =~= stem.subrange(0, i - start).map_values(|c: char| spec_atlas_char(c)).push(spec_atlas_char(c)));
            assert(name@ =~= before.push(spec_atlas_char(c)));
        }
        i = i + 1;
    }
    proof {
        assert(stem.subrange(0, stop - start) =~= stem);
    }
    CannonFrameProfile { role, atlas_team, atlas_frame_name: name, asset_path }
}

/// Asset path of frame `frame` of the shared placement animation; frames
/// past the last show the last.
pub open spec fn spec_init_place_frame_path(frame: nat) -> Seq<char> {
    let shown = if frame < INIT_PLACE_FRAME_COUNT { frame } else { (INIT_PLACE_FRAME_COUNT - 1) as nat };
    spec_numbered_name("units/cannons/init-place_n"@, shown, 2, ".png"@)
}

/// Asset path of a frame of the shared placement animation.
pub fn init_place_frame_path(frame: usize) -> (r: String)
    ensures
        r@ == spec_init_place_frame_path(frame as nat),
{
    let shown = if frame < INIT_PLACE_FRAME_COUNT { frame } else { INIT_PLACE_FRAME_COUNT - 1 };
    numbered_name("units/cannons/init-place_n", shown, 2, ".png")
}

/// Profile of a frame of the shared placement animation, drawn from the red atlas.
pub fn init_place_frame_profile(frame: usize) -> (r: CannonFrameProfile)
    ensures
        r.role == CannonFrameRole::Place,
        r.atlas_team == TeamType::Red,
        r.asset_path@ == spec_init_place_frame_path(frame as nat),
        r.atlas_frame_name@ == spec_atlas_frame_name(spec_init_place_frame_path(frame as nat)),
{
    frame_profile(CannonFrameRole::Place, TeamType::Red, init_place_frame_path(frame))
}

/// Whether `p` is the frame of `role` drawn from `atlas_team`'s atlas and
/// loaded from `asset_path`, named in the atlas after its path.
pub open spec fn spec_profile_is(p: CannonFrameProfile, role: CannonFrameRole, atlas_team: TeamType, asset_path: Seq<char>) -> bool {
    &&& p.role == role
    &&& p.atlas_team == atlas_team
    &&& p.asset_path@ == asset_path
    &&& p.atlas_frame_name@ == spec_atlas_frame_name(asset_path)
}

} // verus!
