//! Entities shared by the player and team profile parsers, and the
//! region filter used when listing events.

use vstd::prelude::*;
use vstd::string::*;

verus! {

/// Region filter for event queries.
#[derive(Debug, Clone, Copy, PartialEq, Eq, Structural)]
pub enum Region {
    All,
    NorthAmerica,
    Europe,
    Brazil,
    AsiaPacific,
    Korea,
    Japan,
    LatinAmerica,
    Oceania,
    MiddleEastNorthAfrica,
    GameChangers,
    Collegiate,
}

/// The URL path segment of each region; the unfiltered region is the
/// empty segment.
pub open spec fn region_segment(r: Region) -> Seq<char> {
    match r {
        Region::All => ""@,
        Region::NorthAmerica => "north-america"@,
        Region::Europe => "europe"@,
        Region::Brazil => "brazil"@,
        Region::AsiaPacific => "asia-pacific"@,
        Region::Korea => "korea"@,
        Region::Japan => "japan"@,
        Region::LatinAmerica => "latin-america"@,
        Region::Oceania => "oceania"@,
        Region::MiddleEastNorthAfrica => "mena"@,
        Region::GameChangers => "game-changers"@,
        Region::Collegiate => "collegiate"@,
    }
}

impl Region {
    /// The path segment this region selects in an events URL.
    pub fn url_segment(&self) -> (r: String)
        ensures
            r@ == region_segment(*self),
    {
        match self {
            Region::All => String::from_str(""),
            Region::NorthAmerica => String::from_str("north-america"),
            Region::Europe => String::from_str("europe"),
            Region::Brazil => String::from_str("brazil"),
            Region::AsiaPacific => String::from_str("asia-pacific"),
            Region::Korea => String::from_str("korea"),
            Region::Japan => String::from_str("japan"),
            Region::LatinAmerica => String::from_str("latin-america"),
            Region::Oceania => String::from_str("oceania"),
            Region::MiddleEastNorthAfrica => String::from_str("mena"),
            Region::GameChangers => String::from_str("game-changers"),
            Region::Collegiate => String::from_str("collegiate"),
        }
    }
}

/// A social media link from a profile.
#[derive(Debug, Clone)]
pub struct Social {
    pub platform: String,
    pub url: String,
    pub display_text: String,
}

/// A placement history at a single event.
#[derive(Debug, Clone)]
pub struct EventPlacement {
    pub event_id: u32,
    pub event_slug: String,
    pub event_href: String,
    pub event_name: String,
    pub placements: Vec<PlacementEntry>,
    pub year: String,
}

/// A single placement entry within an event (stage plus result).
#[derive(Debug, Clone)]
pub struct PlacementEntry {
    pub stage: String,
    pub placement: String,
    pub prize: Option<String>,
    pub team_name: Option<String>,
}

} // verus!
