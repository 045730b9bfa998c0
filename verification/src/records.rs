use crate::ids::Identifier;
use crate::maps::ParamMap;
use vstd::prelude::*;

verus! {

/// A unit quaternion, stored componentwise as the bit patterns of
/// IEEE-754 64-bit numbers (scalar part `w`, vector part `x`, `y`, `z`).
#[derive(Debug, Clone, Copy, PartialEq, Eq, Structural)]
pub struct Quaternion {
    pub w: u64,
    pub x: u64,
    pub y: u64,
    pub z: u64,
}

/// How a frame is rotated into its parent.  The model is a closed set of
/// strategies selected per frame at construction, evaluated through the
/// single entry point [`Rotation::at_epoch`]; today the only strategy is
/// a constant rotation, and time-varying strategies extend this enum.
#[derive(Debug, Clone, Copy)]
pub enum Rotation {
    Constant(Quaternion),
}

impl Rotation {
    /// The rotation quaternion in effect at `epoch` (days, given as an
    /// IEEE-754 bit pattern).  A constant rotation ignores the epoch.
    pub fn at_epoch(&self, epoch: u64) -> (r: Quaternion)
        ensures
            *self matches Rotation::Constant(q) && r == q,
    {
        match self {
            Rotation::Constant(q) => *q,
        }
    }
}

/// One window's Chebyshev coefficients, one array per axis, each of
/// length `degree` in a well-formed interpolator.  Entries are the bit
/// patterns of IEEE-754 64-bit coefficients in kilometers.
#[derive(Debug, Clone)]
pub struct WindowCoeffs {
    pub x: Vec<u64>,
    pub y: Vec<u64>,
    pub z: Vec<u64>,
}

/// The fixed-window coefficient store: all windows share one duration
/// (days, IEEE-754 bit pattern) and butt against each other starting at
/// the interpolator's start epoch.
#[derive(Debug, Clone)]
pub struct FixedWindowSet {
    pub window_duration: u64,
    pub windows: Vec<WindowCoeffs>,
}

/// The per-record coefficient layout.  Windows of differing duration are
/// not implemented: a record that uses them must be refused loudly, never
/// approximated.
#[derive(Debug, Clone)]
pub enum StateData {
    FixedWindow(FixedWindowSet),
    VariableWindow,
}

/// The stored polynomial approximation of one body's trajectory:
/// the epoch of window zero (days, IEEE-754 bit pattern), the number of
/// Chebyshev coefficients per window and axis, and the coefficients
/// themselves.
#[derive(Debug, Clone)]
pub struct Interpolator {
    pub start_epoch: u64,
    pub degree: usize,
    pub state_data: StateData,
}

/// A decoded ephemeris record: who it describes, its named numeric
/// parameters, the optional interpolator, and the identifier of the
/// frame its coefficients are expressed in.
#[derive(Debug)]
pub struct EphemerisRecord {
    pub id: Identifier,
    pub parameters: ParamMap,
    pub interpolator: Option<Interpolator>,
    pub ref_frame: Option<Identifier>,
}

/// A decoded reference-frame record: its identity, its optional parent
/// in the frame forest, the rotation into the parent, and the optional
/// link to the ephemeris record it originates from.
#[derive(Debug)]
pub struct FrameRecord {
    pub id: Identifier,
    pub parent: Option<Identifier>,
    pub rotation: Rotation,
    pub exb_id: Option<Identifier>,
}

} // verus!
