use crate::frames::{Geoid, SSB_GM_BITS, SSB_NUMBER, WGS84_SEMI_MAJOR_RADIUS_KM_BITS};
use crate::ids::Identifier;
use crate::maps::IdMap;
use crate::records::{EphemerisRecord, FixedWindowSet, FrameRecord, StateData, WindowCoeffs};
use vstd::prelude::*;
use vstd::string::StringExecFns;

verus! {

/// Why a registry build was refused outright.
#[derive(Debug, Clone, Copy, PartialEq, Eq, Structural)]
pub enum LoadErrorKind {
    EmptyEphemerides,
    EmptyFrames,
}

/// The error taxonomy of the registry.  Every failure is surfaced to the
/// caller as a typed value, never downgraded to a default state.
#[derive(Debug, Clone, PartialEq)]
pub enum CosmError {
    /// An input record sequence was empty.
    LoadError(LoadErrorKind),
    /// The queried identifier is absent from the ephemeris collection.
    ObjectNotFound(Identifier),
    /// The ephemeris record carries no interpolator.
    NoInterpolationData(Identifier),
    /// The record uses the unimplemented variable-window layout.
    UnsupportedInterpolation(Identifier),
    /// The computed window index falls outside the stored windows.
    WindowOutOfRange(i64),
    /// The interpolation degree is too small to form the recurrence.
    InvalidDegree(usize),
}

/// The parameter name carrying a gravitational parameter.
pub open spec fn gm_name() -> Seq<char> {
    "GM"@
}

/// The parameter name carrying an ellipsoid flattening.
pub open spec fn flattening_name() -> Seq<char> {
    "Flattening"@
}

/// The parameter name carrying an equatorial radius.
pub open spec fn equatorial_radius_name() -> Seq<char> {
    "Equatorial radius"@
}

/// The parameter name carrying a body rotation rate.
pub open spec fn rotation_rate_name() -> Seq<char> {
    "Rotation rate"@
}

/// The name whose geoid takes the WGS84 semi-major radius regardless of
/// its stored equatorial-radius parameter.
pub open spec fn earth_barycenter_name() -> Seq<char> {
    "EARTH BARYCENTER"@
}

/// The ephemeris collection read from a record sequence: each record is
/// keyed by its identifier, and a later record wins over an earlier one
/// with the same key.
pub open spec fn ephemeris_map_spec(s: Seq<EphemerisRecord>) -> Map<
    (int, Seq<char>),
    EphemerisRecord,
>
    decreases s.len(),
{
    if s.len() == 0 {
        Map::empty()
    } else {
        ephemeris_map_spec(s.drop_last()).insert(s.last().id.key(), s.last())
    }
}

/// The frame collection read from a record sequence, keyed like the
/// ephemeris collection.
pub open spec fn frame_map_spec(s: Seq<FrameRecord>) -> Map<(int, Seq<char>), FrameRecord>
    decreases s.len(),
{
    if s.len() == 0 {
        Map::empty()
    } else {
        frame_map_spec(s.drop_last()).insert(s.last().id.key(), s.last())
    }
}

/// Whether frame record `f` links to an ephemeris record present in `em`
/// that carries a "GM" parameter — the rule by which a frame record is
/// promoted to a geoid.
pub open spec fn links_gm(em: Map<(int, Seq<char>), EphemerisRecord>, f: FrameRecord) -> bool {
    &&& f.exb_id is Some
    &&& em.contains_key(f.exb_id->0.key())
    &&& em[f.exb_id->0.key()].parameters@.contains_key(gm_name())
}

/// Whether the linked ephemeris record also carries the "Flattening" and
/// "Equatorial radius" parameters the derivation needs.
pub open spec fn derivation_complete(
    em: Map<(int, Seq<char>), EphemerisRecord>,
    f: FrameRecord,
) -> bool
    recommends
        links_gm(em, f),
{
    let p = em[f.exb_id->0.key()].parameters@;
    p.contains_key(flattening_name()) && p.contains_key(equatorial_radius_name())
}

/// Whether frame record `f` falls back to the solar-system-barycenter
/// geoid: it links to an ephemeris that is absent, and the linked
/// identifier carries the designated barycenter code.
pub open spec fn ssb_fallback(em: Map<(int, Seq<char>), EphemerisRecord>, f: FrameRecord) -> bool {
    &&& f.exb_id is Some
    &&& !em.contains_key(f.exb_id->0.key())
    &&& f.exb_id->0.number == SSB_NUMBER
}

/// The geoid derived from the parameters of ephemeris record `e` for the
/// link identifier `link`.  The Earth-barycenter-named record's
/// semi-major radius is fixed to the WGS84 constant; every other record's
/// repeats its equatorial radius.  A missing rotation rate reads as zero.
pub open spec fn derived_geoid_spec(link: Identifier, e: EphemerisRecord) -> Geoid {
    Geoid {
        id: link,
        gm: e.parameters@[gm_name()],
        flattening: e.parameters@[flattening_name()],
        equatorial_radius: e.parameters@[equatorial_radius_name()],
        semi_major_radius: if link.name@ == earth_barycenter_name() {
            WGS84_SEMI_MAJOR_RADIUS_KM_BITS
        } else {
            e.parameters@[equatorial_radius_name()]
        },
        rotation_rate: if e.parameters@.contains_key(rotation_rate_name()) {
            e.parameters@[rotation_rate_name()]
        } else {
            0
        },
    }
}

/// The perfect-sphere geoid assigned to the solar-system barycenter when
/// no ephemeris-linked GM parameter exists.
pub open spec fn ssb_geoid_spec(link: Identifier) -> Geoid {
    Geoid {
        id: link,
        gm: SSB_GM_BITS,
        flattening: 0,
        equatorial_radius: 0,
        semi_major_radius: 0,
        rotation_rate: 0,
    }
}

/// The geoid collection derived from the frame records in order, against
/// the fully built ephemeris collection `em`.
pub open spec fn geoid_map_spec(
    em: Map<(int, Seq<char>), EphemerisRecord>,
    fs: Seq<FrameRecord>,
) -> Map<(int, Seq<char>), Geoid>
    decreases fs.len(),
{
    if fs.len() == 0 {
        Map::empty()
    } else {
        let prev = geoid_map_spec(em, fs.drop_last());
        let f = fs.last();
        if links_gm(em, f) {
            if derivation_complete(em, f) {
                prev.insert(
                    f.exb_id->0.key(),
                    derived_geoid_spec(f.exb_id->0, em[f.exb_id->0.key()]),
                )
            } else {
                prev
            }
        } else if ssb_fallback(em, f) {
            prev.insert(f.exb_id->0.key(), ssb_geoid_spec(f.exb_id->0))
        } else {
            prev
        }
    }
}

/// The per-record diagnostics of a build: the link identifiers of the
/// frame records whose geoid derivation was abandoned for a missing
/// "Flattening" or "Equatorial radius" parameter, in record order.
/// Such a record fails its own derivation, never the whole load.
pub open spec fn diagnostics_spec(
    em: Map<(int, Seq<char>), EphemerisRecord>,
    fs: Seq<FrameRecord>,
) -> Seq<Identifier>
    decreases fs.len(),
{
    if fs.len() == 0 {
        Seq::empty()
    } else {
        let prev = diagnostics_spec(em, fs.drop_last());
        let f = fs.last();
        if links_gm(em, f) && !derivation_complete(em, f) {
            prev.push(f.exb_id->0)
        } else {
            prev
        }
    }
}

/// Duplicate keys in an input record sequence are a caller error but not
/// fatal: the record collection keeps the last record written under each
/// key.
pub proof fn lemma_last_write_wins(s: Seq<EphemerisRecord>, i: int)
    requires
        0 <= i < s.len(),
        forall|j: int| i < j < s.len() ==> (#[trigger] s[j]).id.key() != s[i].id.key(),
    ensures
        ephemeris_map_spec(s).contains_key(s[i].id.key()),
        ephemeris_map_spec(s)[s[i].id.key()] == s[i],
    decreases s.len(),
{
    if i < s.len() - 1 {
        lemma_last_write_wins(s.drop_last(), i);
    }
}

/// The Earth-barycenter-named geoid's semi-major radius is the WGS84
/// constant, whatever "Equatorial radius" value its linked record
/// stores: a documented domain override, not a general rule.
pub proof fn lemma_earth_barycenter_wgs84(link: Identifier, e: EphemerisRecord)
    requires
        link.name@ == earth_barycenter_name(),
    ensures
        derived_geoid_spec(link, e).semi_major_radius == WGS84_SEMI_MAJOR_RADIUS_KM_BITS,
{
}

/// The solar-system-barycenter geoid assigned when no ephemeris-linked
/// GM parameter exists is a perfect sphere: the designated gravitational
/// parameter, zero flattening, and zero radii.
pub proof fn lemma_ssb_perfect_sphere(link: Identifier)
    ensures
        ssb_geoid_spec(link).gm == SSB_GM_BITS,
        ssb_geoid_spec(link).flattening == 0,
        ssb_geoid_spec(link).equatorial_radius == 0,
        ssb_geoid_spec(link).semi_major_radius == 0,
{
}

/// The celestial registry: the ephemeris, frame and geoid collections
/// built once from two decoded record sequences.  It is read-only after
/// construction; queries never mutate it.
#[derive(Debug)]
pub struct Cosm {
    ephemerides: IdMap<EphemerisRecord>,
    frames: IdMap<FrameRecord>,
    geoids: IdMap<Geoid>,
    diagnostics: Vec<Identifier>,
}

impl Cosm {
    /// The ephemeris collection, as a mathematical map.
    pub closed spec fn ephemerides_map(self) -> Map<(int, Seq<char>), EphemerisRecord> {
        self.ephemerides@
    }

    /// The frame collection, as a mathematical map.
    pub closed spec fn frames_map(self) -> Map<(int, Seq<char>), FrameRecord> {
        self.frames@
    }

    /// The geoid collection, as a mathematical map.
    pub closed spec fn geoids_map(self) -> Map<(int, Seq<char>), Geoid> {
        self.geoids@
    }

    /// The per-record diagnostics recorded while deriving geoids.
    pub closed spec fn diagnostics_seq(self) -> Seq<Identifier> {
        self.diagnostics@
    }

    /// Builds the registry from two already-decoded record sequences.
    /// Either sequence being empty refuses the whole load; every record
    /// is then indexed by its identifier with last-write-wins on
    /// duplicates, and geoids are derived from the frame records against
    /// the complete ephemeris collection.
    pub fn build(ephemerides: Vec<EphemerisRecord>, frames: Vec<FrameRecord>) -> (r: Result<
        Cosm,
        CosmError,
    >)
        ensures
            ephemerides@.len() == 0 ==> r == Err::<Cosm, CosmError>(
                CosmError::LoadError(LoadErrorKind::EmptyEphemerides),
            ),
            ephemerides@.len() > 0 && frames@.len() == 0 ==> r == Err::<Cosm, CosmError>(
                CosmError::LoadError(LoadErrorKind::EmptyFrames),
            ),
            ephemerides@.len() > 0 && frames@.len() > 0 ==> r is Ok && {
                let c = r->Ok_0;
                &&& c.ephemerides_map() == ephemeris_map_spec(ephemerides@)
                &&& c.frames_map() == frame_map_spec(frames@)
                &&& c.geoids_map() == geoid_map_spec(ephemeris_map_spec(ephemerides@), frames@)
                &&& c.diagnostics_seq() == diagnostics_spec(
                    ephemeris_map_spec(ephemerides@),
                    frames@,
                )
            },
    {
        if ephemerides.len() == 0 {
            return Err(CosmError::LoadError(LoadErrorKind::EmptyEphemerides));
        }
        if frames.len() == 0 {
            return Err(CosmError::LoadError(LoadErrorKind::EmptyFrames));
        }
        let ghost eorig = ephemerides@;
        let ghost forig = frames@;

        let mut eph_in = ephemerides;
        let mut em: IdMap<EphemerisRecord> = IdMap::new();
        while eph_in.len() > 0
            invariant
                eph_in@.len() <= eorig.len(),
                eph_in@ == eorig.skip(eorig.len() - eph_in@.len()),
                em@ == ephemeris_map_spec(eorig.take(eorig.len() - eph_in@.len())),
            decreases eph_in@.len(),
        {
            let ghost k: int = eorig.len() - eph_in@.len();
            let rec = eph_in.remove(0);
            proof {
                assert(rec == eorig[k]);
                assert(eph_in@ =~= eorig.skip(k + 1));
            }
            let id = rec.id.dup();
            em.insert(id, rec);
            proof {
                assert(eorig.take(k + 1).drop_last() =~= eorig.take(k));
                assert(eorig.take(k + 1).last() == eorig[k]);
            }
        }
        proof {
            assert(eorig.take(eorig.len() as int) =~= eorig);
        }

        let gm_key = String::from_str("GM");
        let flattening_key = String::from_str("Flattening");
        let radius_key = String::from_str("Equatorial radius");
        let rate_key = String::from_str("Rotation rate");
        let earth_name = String::from_str("EARTH BARYCENTER");

        let mut frm_in = frames;
        let mut fm: IdMap<FrameRecord> = IdMap::new();
        let mut gmap: IdMap<Geoid> = IdMap::new();
        let mut diagnostics: Vec<Identifier> = Vec::new();
        while frm_in.len() > 0
            invariant
                frm_in@.len() <= forig.len(),
                frm_in@ == forig.skip(forig.len() - frm_in@.len()),
                em@ == ephemeris_map_spec(eorig),
                fm@ == frame_map_spec(forig.take(forig.len() - frm_in@.len())),
                gmap@ == geoid_map_spec(em@, forig.take(forig.len() - frm_in@.len())),
                diagnostics@ == diagnostics_spec(em@, forig.take(forig.len() - frm_in@.len())),
                gm_key@ == gm_name(),
                flattening_key@ == flattening_name(),
                radius_key@ == equatorial_radius_name(),
                rate_key@ == rotation_rate_name(),
                earth_name@ == earth_barycenter_name(),
            decreases frm_in@.len(),
        {
            let ghost k: int = forig.len() - frm_in@.len();
            let rec = frm_in.remove(0);
            proof {
                assert(rec == forig[k]);
                assert(frm_in@ =~= forig.skip(k + 1));
            }
            match &rec.exb_id {
                Some(x) => match em.get(x) {
                    Some(e) => match e.parameters.get(&gm_key) {
                        Some(gm_value) => {
                            let flattening = e.parameters.get(&flattening_key);
                            let eq_radius = e.parameters.get(&radius_key);
                            match (flattening, eq_radius) {
                                (Some(flattening), Some(eq_radius)) => {
                                    let rotation_rate = match e.parameters.get(&rate_key) {
                                        Some(v) => v,
                                        None => 0,
                                    };
                                    let semi_major_radius = if x.name == earth_name {
                                        WGS84_SEMI_MAJOR_RADIUS_KM_BITS
                                    } else {
                                        eq_radius
                                    };
                                    let geoid = Geoid {
                                        id: x.dup(),
                                        gm: gm_value,
                                        flattening,
                                        equatorial_radius: eq_radius,
                                        semi_major_radius,
                                        rotation_rate,
                                    };
                                    gmap.insert(x.dup(), geoid);
                                },
                                _ => {
                                    diagnostics.push(x.dup());
                                },
                            }
                        },
                        None => {},
                    },
                    None => {
                        if x.number == SSB_NUMBER {
                            gmap.insert(x.dup(), Geoid::perfect_sphere(x.dup(), SSB_GM_BITS));
                        }
                    },
                },
                None => {},
            }
            fm.insert(rec.id.dup(), rec);
            proof {
                assert(forig.take(k + 1).drop_last() =~= forig.take(k));
                assert(forig.take(k + 1).last() == forig[k]);
            }
        }
        proof {
            assert(forig.take(forig.len() as int) =~= forig);
        }

        Ok(Cosm { ephemerides: em, frames: fm, geoids: gmap, diagnostics })
    }

    /// The ephemeris record stored under `id`, if any.
    pub fn ephemeris(&self, id: &Identifier) -> (r: Option<&EphemerisRecord>)
        ensures
            match r {
                Some(e) => self.ephemerides_map().contains_key(id.key()) && *e
                    == self.ephemerides_map()[id.key()],
                None => !self.ephemerides_map().contains_key(id.key()),
            },
    {
        self.ephemerides.get(id)
    }

    /// The frame record stored under `id`, if any.
    pub fn frame(&self, id: &Identifier) -> (r: Option<&FrameRecord>)
        ensures
            match r {
                Some(f) => self.frames_map().contains_key(id.key()) && *f
                    == self.frames_map()[id.key()],
                None => !self.frames_map().contains_key(id.key()),
            },
    {
        self.frames.get(id)
    }

    /// The geoid stored under `id`, if any.
    pub fn geoid(&self, id: &Identifier) -> (r: Option<&Geoid>)
        ensures
            match r {
                Some(g) => self.geoids_map().contains_key(id.key()) && *g
                    == self.geoids_map()[id.key()],
                None => !self.geoids_map().contains_key(id.key()),
            },
    {
        self.geoids.get(id)
    }

    /// The diagnostics recorded while deriving geoids.
    pub fn diagnostics(&self) -> (r: &Vec<Identifier>)
        ensures
            r@ == self.diagnostics_seq(),
    {
        &self.diagnostics
    }

    /// Validates a state query against the stored records and hands the
    /// interpolation engine everything it needs: the start epoch (an
    /// IEEE-754 bit pattern in days), the degree, and the fixed-window
    /// coefficient set.  Each error names exactly the first rule the
    /// query breaks: unknown identifier, no interpolator, the
    /// unimplemented variable-window layout, or a degree too small for
    /// the recurrence.
    pub fn state_plan<'a>(&'a self, exb: &Identifier) -> (r: Result<
        (u64, usize, &'a FixedWindowSet),
        CosmError,
    >)
        ensures
            !self.ephemerides_map().contains_key(exb.key()) ==> (r matches Err(e) && e
                == CosmError::ObjectNotFound(*exb)),
            self.ephemerides_map().contains_key(exb.key()) ==> {
                let rec = self.ephemerides_map()[exb.key()];
                match rec.interpolator {
                    None => r matches Err(e) && e == CosmError::NoInterpolationData(*exb),
                    Some(interp) => match interp.state_data {
                        StateData::VariableWindow => r matches Err(e) && e
                            == CosmError::UnsupportedInterpolation(*exb),
                        StateData::FixedWindow(set) => if interp.degree < 2 {
                            r matches Err(e) && e == CosmError::InvalidDegree(interp.degree)
                        } else {
                            r matches Ok(p) && p.0 == interp.start_epoch && p.1 == interp.degree
                                && *p.2 == set
                        },
                    },
                }
            },
    {
        let rec = match self.ephemerides.get(exb) {
            Some(rec) => rec,
            None => {
                return Err(CosmError::ObjectNotFound(exb.dup()));
            },
        };
        let interp = match &rec.interpolator {
            Some(interp) => interp,
            None => {
                return Err(CosmError::NoInterpolationData(exb.dup()));
            },
        };
        let set = match &interp.state_data {
            StateData::FixedWindow(set) => set,
            StateData::VariableWindow => {
                return Err(CosmError::UnsupportedInterpolation(exb.dup()));
            },
        };
        if interp.degree < 2 {
            return Err(CosmError::InvalidDegree(interp.degree));
        }
        Ok((interp.start_epoch, interp.degree, set))
    }
}

impl FixedWindowSet {
    /// The coefficients of window `index`, or `WindowOutOfRange` exactly
    /// when the index is negative or at least the number of stored
    /// windows.
    pub fn window_at(&self, index: i64) -> (r: Result<&WindowCoeffs, CosmError>)
        ensures
            0 <= index && (index as int) < self.windows@.len() ==> (r matches Ok(w) && *w
                == self.windows@[index as int]),
            !(0 <= index && (index as int) < self.windows@.len()) ==> (r matches Err(e) && e
                == CosmError::WindowOutOfRange(index)),
    {
        if index < 0 || (index as u64) >= (self.windows.len() as u64) {
            return Err(CosmError::WindowOutOfRange(index));
        }
        Ok(&self.windows[index as usize])
    }
}

} // verus!
