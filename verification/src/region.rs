//! The region mapper: exact, case-sensitive mapping from a display name to
//! one of the seventeen grid regions, with a documented fallback.

use vstd::prelude::*;

verus! {

/// The closed set of grid regions: fourteen named sub-regions and the
/// England, Scotland and Wales aggregates.
#[derive(Clone, Copy, PartialEq, Eq, Structural, Debug)]
pub enum Region {
    NorthScotland,
    SouthScotland,
    NorthWestEngland,
    NorthEastEngland,
    SouthYorkshire,
    NorthWalesMerseysideAndCheshire,
    SouthWales,
    WestMidlands,
    EastMidlands,
    EastEngland,
    SouthWestEngland,
    SouthEngland,
    London,
    SouthEastEngland,
    England,
    Wales,
    Scotland,
}

/// The region a display name maps to, or `None` for an unrecognized name.
pub open spec fn region_for_name(s: Seq<char>) -> Option<Region> {
    if s == "North Scotland"@ {
        Some(Region::NorthScotland)
    } else if s == "South Scotland"@ {
        Some(Region::SouthScotland)
    } else if s == "North West England"@ {
        Some(Region::NorthWestEngland)
    } else if s == "North East England"@ {
        Some(Region::NorthEastEngland)
    } else if s == "South Yorkshire"@ {
        Some(Region::SouthYorkshire)
    } else if s == "North Wales, Merseyside and Cheshire"@ {
        Some(Region::NorthWalesMerseysideAndCheshire)
    } else if s == "South Wales"@ {
        Some(Region::SouthWales)
    } else if s == "West Midlands"@ {
        Some(Region::WestMidlands)
    } else if s == "East Midlands"@ {
        Some(Region::EastMidlands)
    } else if s == "East England"@ {
        Some(Region::EastEngland)
    } else if s == "South West England"@ {
        Some(Region::SouthWestEngland)
    } else if s == "South England"@ {
        Some(Region::SouthEngland)
    } else if s == "London"@ {
        Some(Region::London)
    } else if s == "South East England"@ {
        Some(Region::SouthEastEngland)
    } else if s == "England"@ {
        Some(Region::England)
    } else if s == "Wales"@ {
        Some(Region::Wales)
    } else if s == "Scotland"@ {
        Some(Region::Scotland)
    } else {
        None
    }
}

/// The fallback rule: an unrecognized name resolves to `England`.
pub open spec fn resolved_region(s: Seq<char>) -> Region {
    match region_for_name(s) {
        Some(r) => r,
        None => Region::England,
    }
}

/// Maps a display name to its region, `None` if the name is unknown.
pub fn parse_region(name: &str) -> (r: Option<Region>)
    ensures
        r == region_for_name(name@),
{
    let n: String = name.to_owned();
    if n == "North Scotland".to_owned() {
        Some(Region::NorthScotland)
    } else if n == "South Scotland".to_owned() {
        Some(Region::SouthScotland)
    } else if n == "North West England".to_owned() {
        Some(Region::NorthWestEngland)
    } else if n == "North East England".to_owned() {
        Some(Region::NorthEastEngland)
    } else if n == "South Yorkshire".to_owned() {
        Some(Region::SouthYorkshire)
    } else if n == "North Wales, Merseyside and Cheshire".to_owned() {
        Some(Region::NorthWalesMerseysideAndCheshire)
    } else if n == "South Wales".to_owned() {
        Some(Region::SouthWales)
    } else if n == "West Midlands".to_owned() {
        Some(Region::WestMidlands)
    } else if n == "East Midlands".to_owned() {
        Some(Region::EastMidlands)
    } else if n == "East England".to_owned() {
        Some(Region::EastEngland)
    } else if n == "South West England".to_owned() {
        Some(Region::SouthWestEngland)
    } else if n == "South England".to_owned() {
        Some(Region::SouthEngland)
    } else if n == "London".to_owned() {
        Some(Region::London)
    } else if n == "South East England".to_owned() {
        Some(Region::SouthEastEngland)
    } else if n == "England".to_owned() {
        Some(Region::England)
    } else if n == "Wales".to_owned() {
        Some(Region::Wales)
    } else if n == "Scotland".to_owned() {
        Some(Region::Scotland)
    } else {
        None
    }
}

/// Maps a display name to a region, falling back to `England` for an
/// unknown name; the second component tells whether the name was known,
/// so that the caller can log a warning instead of crashing.
pub fn resolve_region(name: &str) -> (r: (Region, bool))
    ensures
        r.0 == resolved_region(name@),
        r.1 == region_for_name(name@) is Some,
{
    match parse_region(name) {
        Some(region) => (region, true),
        None => (Region::England, false),
    }
}

/// Sample points of the mapping, and the fallback rule in general: known
/// names map to their own region, and every unknown name resolves to
/// `England` rather than failing.
pub proof fn lemma_region_mapping()
    ensures
        region_for_name("England"@) == Some(Region::England),
        region_for_name("South Wales"@) == Some(Region::SouthWales),
        forall|s: Seq<char>|
            region_for_name(s) is None ==> #[trigger] resolved_region(s) == Region::England,
{
    reveal_strlit("North Scotland");
    reveal_strlit("South Scotland");
    reveal_strlit("North West England");
    reveal_strlit("North East England");
    reveal_strlit("South Yorkshire");
    reveal_strlit("North Wales, Merseyside and Cheshire");
    reveal_strlit("South Wales");
    reveal_strlit("West Midlands");
    reveal_strlit("East Midlands");
    reveal_strlit("East England");
    reveal_strlit("South West England");
    reveal_strlit("South England");
    reveal_strlit("London");
    reveal_strlit("South East England");
    reveal_strlit("England");
    reveal_strlit("Wales");
    reveal_strlit("Scotland");
    assert("North Scotland"@.len() == 14);
    assert("South Scotland"@.len() == 14);
    assert("North West England"@.len() == 18);
    assert("North East England"@.len() == 18);
    assert("South Yorkshire"@.len() == 15);
    assert("North Wales, Merseyside and Cheshire"@.len() == 36);
    assert("South Wales"@.len() == 11);
    assert("West Midlands"@.len() == 13);
    assert("East Midlands"@.len() == 13);
    assert("East England"@.len() == 12);
    assert("South West England"@.len() == 18);
    assert("South England"@.len() == 13);
    assert("London"@.len() == 6);
    assert("South East England"@.len() == 18);
    assert("England"@.len() == 7);
    assert("Wales"@.len() == 5);
    assert("Scotland"@.len() == 8);
}

} // verus!
