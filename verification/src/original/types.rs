use vstd::prelude::*;

verus! {

/// Teams of the game. `Null` is the neutral owner of unclaimed objects.
#[derive(Clone, Copy, Debug, PartialEq, Eq, Structural)]
pub enum TeamType {
    Null,
    Red,
    Blue,
    Green,
    Yellow,
    Purple,
    Black,
    White,
}

/// Planet themes of a map.
#[derive(Clone, Copy, Debug, PartialEq, Eq, Structural)]
pub enum PlanetType {
    Desert,
    Volcanic,
    Arctic,
    Jungle,
    City,
}

/// Team whose atlas colours a team: the four painted teams keep their own
/// colour, every other team is drawn with the red atlas.
pub open spec fn spec_atlas_team(team: TeamType) -> TeamType {
    match team {
        TeamType::Blue => TeamType::Blue,
        TeamType::Green => TeamType::Green,
        TeamType::Yellow => TeamType::Yellow,
        _ => TeamType::Red,
    }
}

/// Lower-case name of a team as it appears in asset names.
pub open spec fn spec_team_asset_name(team: TeamType) -> Seq<char> {
    match team {
        TeamType::Null => "null"@,
        TeamType::Red => "red"@,
        TeamType::Blue => "blue"@,
        TeamType::Green => "green"@,
        TeamType::Yellow => "yellow"@,
        TeamType::Purple => "purple"@,
        TeamType::Black => "black"@,
        TeamType::White => "white"@,
    }
}

impl TeamType {
    /// The team whose atlas draws this team's sprites.
    pub fn atlas_team(self) -> (r: TeamType)
        ensures
            r == spec_atlas_team(self),
    {
        match self {
            TeamType::Blue => TeamType::Blue,
            TeamType::Green => TeamType::Green,
            TeamType::Yellow => TeamType::Yellow,
            _ => TeamType::Red,
        }
    }

    /// The team's name in asset paths.
    pub fn asset_name(self) -> (r: &'static str)
        ensures
            r@ == spec_team_asset_name(self),
    {
        match self {
            TeamType::Null => "null",
            TeamType::Red => "red",
            TeamType::Blue => "blue",
            TeamType::Green => "green",
            TeamType::Yellow => "yellow",
            TeamType::Purple => "purple",
            TeamType::Black => "black",
            TeamType::White => "white",
        }
    }
}

} // verus!
