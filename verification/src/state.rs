use crate::frames::{Body, Geoid, Spacecraft};
use vstd::prelude::*;

verus! {

/// The mathematical content of a [`State`]: every component and the
/// captured gravitational parameter, as plain values.
pub struct StateModel<B> {
    pub gm: u64,
    pub x: u64,
    pub y: u64,
    pub z: u64,
    pub vx: u64,
    pub vy: u64,
    pub vz: u64,
    pub ax: u64,
    pub ay: u64,
    pub az: u64,
    pub frame: B,
}

/// A typed position/velocity/acceleration tuple expressed in a frame.
/// Every numeric component is the bit pattern of an IEEE-754 64-bit
/// value (km, km/s, km/s^2); the bit pattern zero is +0.0.
///
/// `gm` is the gravitational parameter of the frame, captured at
/// construction.  It is a cached field, not an independently settable
/// one: it is private, and every constructor sets it to the frame's own
/// parameter, so it always equals `frame.gm()`.
#[derive(Debug, Clone)]
pub struct State<B: Body> {
    gm: u64,
    pub x: u64,
    pub y: u64,
    pub z: u64,
    pub vx: u64,
    pub vy: u64,
    pub vz: u64,
    pub ax: u64,
    pub ay: u64,
    pub az: u64,
    /// The frame the components are expressed in.
    pub frame: B,
}

impl<B: Body> View for State<B> {
    type V = StateModel<B>;

    closed spec fn view(&self) -> StateModel<B> {
        StateModel {
            gm: self.gm,
            x: self.x,
            y: self.y,
            z: self.z,
            vx: self.vx,
            vy: self.vy,
            vz: self.vz,
            ax: self.ax,
            ay: self.ay,
            az: self.az,
            frame: self.frame,
        }
    }
}

impl<B: Body> State<B> {
    /// A state at the given position and velocity, with zero
    /// acceleration, in `frame`; the frame's gravitational parameter is
    /// captured.
    pub fn from_position_velocity(
        x: u64,
        y: u64,
        z: u64,
        vx: u64,
        vy: u64,
        vz: u64,
        frame: B,
    ) -> (s: State<B>)
        ensures
            s@.x == x && s@.y == y && s@.z == z,
            s@.vx == vx && s@.vy == vy && s@.vz == vz,
            s@.ax == 0 && s@.ay == 0 && s@.az == 0,
            s@.gm == frame.gm_spec(),
            s@.frame == frame,
    {
        let gm = frame.gm();
        State { gm, x, y, z, vx, vy, vz, ax: 0, ay: 0, az: 0, frame }
    }

    /// The gravitational parameter of the frame this state is expressed
    /// in (IEEE-754 bit pattern, km^3/s^2).
    pub fn gm(&self) -> (r: u64)
        ensures
            r == self@.gm,
    {
        self.gm
    }
}

impl State<Spacecraft> {
    /// A state at rest at the given position in `frame`.
    pub fn from_position<G: Body>(x: u64, y: u64, z: u64, frame: G) -> (s: State<G>)
        ensures
            s@.x == x && s@.y == y && s@.z == z,
            s@.vx == 0 && s@.vy == 0 && s@.vz == 0,
            s@.ax == 0 && s@.ay == 0 && s@.az == 0,
            s@.gm == frame.gm_spec(),
            s@.frame == frame,
    {
        State::<G>::from_position_velocity(x, y, z, 0, 0, 0, frame)
    }
}

impl State<Geoid> {
    /// A body-fixed state at rest at the given position in `frame`.
    pub fn from_position(i: u64, j: u64, k: u64, frame: Geoid) -> (s: State<Geoid>)
        ensures
            s@.x == i && s@.y == j && s@.z == k,
            s@.vx == 0 && s@.vy == 0 && s@.vz == 0,
            s@.ax == 0 && s@.ay == 0 && s@.az == 0,
            s@.gm == frame.gm_spec(),
            s@.frame == frame,
    {
        State::<Geoid>::from_position_velocity(i, j, k, 0, 0, 0, frame)
    }

    /// The I component of this body-fixed state.
    pub fn ri(&self) -> (r: u64)
        ensures
            r == self@.x,
    {
        self.x
    }

    /// The J component of this body-fixed state.
    pub fn rj(&self) -> (r: u64)
        ensures
            r == self@.y,
    {
        self.y
    }

    /// The K component of this body-fixed state.
    pub fn rk(&self) -> (r: u64)
        ensures
            r == self@.z,
    {
        self.z
    }
}

} // verus!
