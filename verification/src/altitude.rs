//! Where the height above ground comes from.
//!
//! Three sources are tried in order of trust, then an assumption. A
//! rangefinder sees whatever is below the aircraft and is honoured even before
//! the vehicle knows where it is; the terrain database and the flat-earth
//! assumption (height above home) both need a position, and without one the
//! height is zero. The heights themselves are real numbers handled by the
//! caller.

use vstd::prelude::*;

verus! {

/// Which source gives the height above ground.
#[derive(Debug, Clone, Copy, PartialEq, Eq, Structural)]
pub enum AltAboveGroundSource {
    /// The rangefinder reading.
    Rangefinder,
    /// No position yet: zero.
    Zero,
    /// The terrain database.
    Terrain,
    /// The altitude above home, assuming flat ground.
    HomeAltitude,
}

/// The source of the height above ground.
pub fn alt_above_ground_source(
    rangefinder_available: bool,
    loc_initialised: bool,
    terrain_available: bool,
) -> (r: AltAboveGroundSource)
    ensures
        rangefinder_available ==> r == AltAboveGroundSource::Rangefinder,
        !rangefinder_available && !loc_initialised ==> r == AltAboveGroundSource::Zero,
        !rangefinder_available && loc_initialised && terrain_available ==> r
            == AltAboveGroundSource::Terrain,
        !rangefinder_available && loc_initialised && !terrain_available ==> r
            == AltAboveGroundSource::HomeAltitude,
{
    if rangefinder_available {
        return AltAboveGroundSource::Rangefinder;
    }
    if !loc_initialised {
        return AltAboveGroundSource::Zero;
    }
    if terrain_available {
        return AltAboveGroundSource::Terrain;
    }
    AltAboveGroundSource::HomeAltitude
}

} // verus!
