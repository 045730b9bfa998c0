use crate::ids::Identifier;
use vstd::prelude::*;

verus! {

/// IEEE-754 bit pattern of the WGS84 semi-major axis, 6378.1370 km.
/// The Earth-barycenter-named geoid's semi-major radius is fixed to this
/// constant regardless of the stored equatorial-radius parameter (a
/// documented domain override, not a general rule).
pub const WGS84_SEMI_MAJOR_RADIUS_KM_BITS: u64 = 0x40B8_EA23_126E_978D;

/// IEEE-754 bit pattern of the gravitational parameter assigned to the
/// solar-system barycenter when no ephemeris-linked GM parameter exists:
/// 1.32712440018e20 (km^3/s^2).
pub const SSB_GM_BITS: u64 = 0x441C_C705_3439_10E7;

/// The designated numeric code of the solar-system barycenter.
pub const SSB_NUMBER: i32 = 0;

/// A body a frame can be centered on: something with an identity and a
/// gravitational parameter.  The parameter is carried as the bit pattern
/// of an IEEE-754 64-bit value in km^3/s^2; a free-floating body's is the
/// bit pattern of zero.
pub trait Body {
    /// The identifier of this body, as a spec-level value.
    spec fn id_spec(&self) -> Identifier;

    /// The gravitational parameter of this body, as a spec-level value.
    spec fn gm_spec(&self) -> u64;

    /// The identifier of this body.
    fn id(&self) -> (r: &Identifier)
        ensures
            *r == self.id_spec(),
    ;

    /// The gravitational parameter of this body (IEEE-754 bit pattern,
    /// km^3/s^2).
    fn gm(&self) -> (r: u64)
        ensures
            r == self.gm_spec(),
    ;
}

/// An ellipsoidal model of a rotating body: gravitational parameter,
/// flattening, radii and spin rate, used for geodetic coordinate
/// conversion.  Every numeric field is the bit pattern of an IEEE-754
/// 64-bit value (km^3/s^2, dimensionless, km, km, rad/s).
#[derive(Debug, Clone)]
pub struct Geoid {
    pub id: Identifier,
    pub gm: u64,
    pub flattening: u64,
    pub equatorial_radius: u64,
    pub semi_major_radius: u64,
    pub rotation_rate: u64,
}

impl Geoid {
    /// A geoid with no oblateness and no extent: flattening, radii and
    /// rotation rate are all the bit pattern of zero.
    pub fn perfect_sphere(id: Identifier, gm: u64) -> (g: Geoid)
        ensures
            g.id == id,
            g.gm == gm,
            g.flattening == 0,
            g.equatorial_radius == 0,
            g.semi_major_radius == 0,
            g.rotation_rate == 0,
    {
        Geoid {
            id,
            gm,
            flattening: 0,
            equatorial_radius: 0,
            semi_major_radius: 0,
            rotation_rate: 0,
        }
    }
}

impl Body for Geoid {
    open spec fn id_spec(&self) -> Identifier {
        self.id
    }

    open spec fn gm_spec(&self) -> u64 {
        self.gm
    }

    fn id(&self) -> (r: &Identifier) {
        &self.id
    }

    fn gm(&self) -> (r: u64) {
        self.gm
    }
}

/// A free-floating body-relative frame center: it has an identity but no
/// gravitational parameter of its own.
#[derive(Debug, Clone)]
pub struct Spacecraft {
    pub id: Identifier,
}

impl Body for Spacecraft {
    open spec fn id_spec(&self) -> Identifier {
        self.id
    }

    open spec fn gm_spec(&self) -> u64 {
        0
    }

    fn id(&self) -> (r: &Identifier) {
        &self.id
    }

    fn gm(&self) -> (r: u64) {
        0
    }
}

/// A reference frame centered on a body.  The frame's gravitational
/// parameter is the center's.
#[derive(Debug, Clone)]
pub struct Frame<B: Body> {
    pub center: B,
    pub xb_id: Identifier,
}

impl<B: Body> Body for Frame<B> {
    open spec fn id_spec(&self) -> Identifier {
        self.xb_id
    }

    open spec fn gm_spec(&self) -> u64 {
        self.center.gm_spec()
    }

    fn id(&self) -> (r: &Identifier) {
        &self.xb_id
    }

    fn gm(&self) -> (r: u64) {
        self.center.gm()
    }
}

} // verus!
