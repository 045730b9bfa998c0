use cosm::cosm::{Cosm, CosmError, LoadErrorKind};
use cosm::frames::Geoid;
use cosm::ids::Identifier;
use cosm::maps::ParamMap;
use cosm::records::{
    EphemerisRecord, FixedWindowSet, FrameRecord, Interpolator, Quaternion, Rotation, StateData,
    WindowCoeffs,
};

fn ident(number: i32, name: &str) -> Identifier {
    Identifier { number, name: String::from(name) }
}

fn identity_rotation() -> Rotation {
    Rotation::Constant(Quaternion { w: 1.0f64.to_bits(), x: 0, y: 0, z: 0 })
}

fn params(pairs: &[(&str, f64)]) -> ParamMap {
    let mut m = ParamMap::new();
    for (name, value) in pairs {
        m.insert(String::from(*name), value.to_bits());
    }
    m
}

fn plain_ephemeris(number: i32, name: &str, pairs: &[(&str, f64)]) -> EphemerisRecord {
    EphemerisRecord {
        id: ident(number, name),
        parameters: params(pairs),
        interpolator: None,
        ref_frame: None,
    }
}

fn frame_linking(number: i32, name: &str, link: Identifier) -> FrameRecord {
    FrameRecord {
        id: ident(number, name),
        parent: None,
        rotation: identity_rotation(),
        exb_id: Some(link),
    }
}

fn one_window_interpolator(start_epoch: f64, degree: usize, duration: f64) -> Interpolator {
    let n = degree;
    Interpolator {
        start_epoch: start_epoch.to_bits(),
        degree,
        state_data: StateData::FixedWindow(FixedWindowSet {
            window_duration: duration.to_bits(),
            windows: vec![WindowCoeffs {
                x: vec![1.0f64.to_bits(); n],
                y: vec![2.0f64.to_bits(); n],
                z: vec![3.0f64.to_bits(); n],
            }],
        }),
    }
}

#[test]
fn build_fails_on_empty_ephemerides() {
    let frames = vec![frame_linking(0, "SSB J2000", ident(0, "Solar System Barycenter"))];
    let r = Cosm::build(Vec::new(), frames);
    assert!(matches!(r, Err(CosmError::LoadError(LoadErrorKind::EmptyEphemerides))));
}

#[test]
fn build_fails_on_empty_frames() {
    let ephemerides = vec![plain_ephemeris(10, "Sun", &[("GM", 1.327e11)])];
    let r = Cosm::build(ephemerides, Vec::new());
    assert!(matches!(r, Err(CosmError::LoadError(LoadErrorKind::EmptyFrames))));
}

#[test]
fn build_indexes_records_by_identifier() {
    let ephemerides = vec![
        plain_ephemeris(10, "Sun", &[("GM", 1.32712440041e11)]),
        plain_ephemeris(399, "Earth", &[("GM", 398600.4418)]),
    ];
    let frames = vec![frame_linking(10, "Sun J2000", ident(10, "Sun"))];
    let cosm = Cosm::build(ephemerides, frames).unwrap();
    assert!(cosm.ephemeris(&ident(10, "Sun")).is_some());
    assert!(cosm.ephemeris(&ident(399, "Earth")).is_some());
    assert!(cosm.ephemeris(&ident(10, "SUN")).is_none());
    assert!(cosm.ephemeris(&ident(11, "Sun")).is_none());
    assert!(cosm.frame(&ident(10, "Sun J2000")).is_some());
    assert!(cosm.frame(&ident(10, "Sun")).is_none());
}

#[test]
fn build_keeps_the_later_duplicate() {
    let ephemerides = vec![
        plain_ephemeris(399, "Earth", &[("GM", 1.0)]),
        plain_ephemeris(399, "Earth", &[("GM", 2.0)]),
    ];
    let frames = vec![frame_linking(399, "Earth J2000", ident(399, "Earth"))];
    let cosm = Cosm::build(ephemerides, frames).unwrap();
    let e = cosm.ephemeris(&ident(399, "Earth")).unwrap();
    let gm = e.parameters.get(&String::from("GM")).unwrap();
    assert_eq!(f64::from_bits(gm), 2.0);
}

#[test]
fn geoid_derived_from_linked_gm_record() {
    let ephemerides = vec![plain_ephemeris(
        399,
        "Earth",
        &[
            ("GM", 398600.4418),
            ("Flattening", 0.0033528106647474805),
            ("Equatorial radius", 6378.1366),
            ("Rotation rate", 7.292115e-5),
        ],
    )];
    let frames = vec![frame_linking(399, "Earth body fixed", ident(399, "Earth"))];
    let cosm = Cosm::build(ephemerides, frames).unwrap();
    let g = cosm.geoid(&ident(399, "Earth")).unwrap();
    assert_eq!(f64::from_bits(g.gm), 398600.4418);
    assert_eq!(f64::from_bits(g.flattening), 0.0033528106647474805);
    assert_eq!(f64::from_bits(g.equatorial_radius), 6378.1366);
    assert_eq!(f64::from_bits(g.semi_major_radius), 6378.1366);
    assert_eq!(f64::from_bits(g.rotation_rate), 7.292115e-5);
    assert!(cosm.diagnostics().is_empty());
}

#[test]
fn geoid_derivation_without_gm_is_silent() {
    let ephemerides = vec![plain_ephemeris(301, "Moon", &[("Flattening", 0.0012)])];
    let frames = vec![frame_linking(301, "Moon body fixed", ident(301, "Moon"))];
    let cosm = Cosm::build(ephemerides, frames).unwrap();
    assert!(cosm.geoid(&ident(301, "Moon")).is_none());
    assert!(cosm.diagnostics().is_empty());
}

#[test]
fn missing_flattening_is_a_per_record_diagnostic() {
    let ephemerides = vec![
        plain_ephemeris(301, "Moon", &[("GM", 4902.8), ("Equatorial radius", 1738.1)]),
        plain_ephemeris(
            399,
            "Earth",
            &[("GM", 398600.4418), ("Flattening", 0.00335), ("Equatorial radius", 6378.1366)],
        ),
    ];
    let frames = vec![
        frame_linking(301, "Moon body fixed", ident(301, "Moon")),
        frame_linking(399, "Earth body fixed", ident(399, "Earth")),
    ];
    let cosm = Cosm::build(ephemerides, frames).unwrap();
    // the malformed record fails its own derivation, not the whole load
    assert!(cosm.geoid(&ident(301, "Moon")).is_none());
    assert!(cosm.geoid(&ident(399, "Earth")).is_some());
    assert_eq!(cosm.diagnostics().len(), 1);
    assert_eq!(cosm.diagnostics()[0], ident(301, "Moon"));
}

#[test]
fn ssb_perfect_sphere_geoid() {
    let ephemerides = vec![plain_ephemeris(10, "Sun", &[("GM", 1.32712440041e11)])];
    let ssb = ident(0, "Solar System Barycenter");
    let frames = vec![frame_linking(0, "SSB J2000", ssb.clone())];
    let cosm = Cosm::build(ephemerides, frames).unwrap();
    let g = cosm.geoid(&ssb).unwrap();
    assert_eq!(f64::from_bits(g.gm), 1.32712440018e20);
    assert_eq!(f64::from_bits(g.flattening), 0.0);
    assert_eq!(f64::from_bits(g.equatorial_radius), 0.0);
    assert_eq!(f64::from_bits(g.semi_major_radius), 0.0);
}

#[test]
fn unlinked_nonzero_code_gets_no_geoid() {
    let ephemerides = vec![plain_ephemeris(10, "Sun", &[("GM", 1.32712440041e11)])];
    let orphan = ident(5, "Jupiter Barycenter");
    let frames = vec![frame_linking(5, "Jupiter J2000", orphan.clone())];
    let cosm = Cosm::build(ephemerides, frames).unwrap();
    assert!(cosm.geoid(&orphan).is_none());
}

#[test]
fn earth_barycenter_semi_major_override() {
    let eb = ident(3, "EARTH BARYCENTER");
    let ephemerides = vec![plain_ephemeris(
        3,
        "EARTH BARYCENTER",
        &[("GM", 403503.2355), ("Flattening", 0.00335), ("Equatorial radius", 9999.0)],
    )];
    let frames = vec![frame_linking(3, "Earth barycenter frame", eb.clone())];
    let cosm = Cosm::build(ephemerides, frames).unwrap();
    let g = cosm.geoid(&eb).unwrap();
    // the stored equatorial radius is kept, the semi-major radius is the
    // WGS84 constant regardless of it
    assert_eq!(f64::from_bits(g.equatorial_radius), 9999.0);
    assert_eq!(f64::from_bits(g.semi_major_radius), 6378.1370);
}

#[test]
fn state_plan_object_not_found() {
    let ephemerides = vec![plain_ephemeris(10, "Sun", &[("GM", 1.3e11)])];
    let frames = vec![frame_linking(10, "Sun J2000", ident(10, "Sun"))];
    let cosm = Cosm::build(ephemerides, frames).unwrap();
    let missing = ident(999, "Nowhere");
    let r = cosm.state_plan(&missing);
    assert!(matches!(r, Err(CosmError::ObjectNotFound(ref id)) if *id == missing));
}

#[test]
fn state_plan_no_interpolation_data() {
    let sun = ident(10, "Sun");
    let ephemerides = vec![plain_ephemeris(10, "Sun", &[("GM", 1.3e11)])];
    let frames = vec![frame_linking(10, "Sun J2000", sun.clone())];
    let cosm = Cosm::build(ephemerides, frames).unwrap();
    let r = cosm.state_plan(&sun);
    assert!(matches!(r, Err(CosmError::NoInterpolationData(ref id)) if *id == sun));
}

#[test]
fn state_plan_unsupported_interpolation() {
    let venus = ident(2, "Venus");
    let mut rec = plain_ephemeris(2, "Venus", &[("GM", 324858.6)]);
    rec.interpolator = Some(Interpolator {
        start_epoch: 2451545.0f64.to_bits(),
        degree: 8,
        state_data: StateData::VariableWindow,
    });
    let frames = vec![frame_linking(2, "Venus J2000", venus.clone())];
    let cosm = Cosm::build(vec![rec], frames).unwrap();
    let r = cosm.state_plan(&venus);
    assert!(matches!(r, Err(CosmError::UnsupportedInterpolation(ref id)) if *id == venus));
}

#[test]
fn state_plan_invalid_degree() {
    let venus = ident(2, "Venus");
    let mut rec = plain_ephemeris(2, "Venus", &[("GM", 324858.6)]);
    rec.interpolator = Some(one_window_interpolator(2451545.0, 1, 8.0));
    let frames = vec![frame_linking(2, "Venus J2000", venus.clone())];
    let cosm = Cosm::build(vec![rec], frames).unwrap();
    let r = cosm.state_plan(&venus);
    assert!(matches!(r, Err(CosmError::InvalidDegree(1))));
}

#[test]
fn state_plan_hands_out_the_stored_windows() {
    let earth = ident(399, "Earth");
    let mut rec = plain_ephemeris(399, "Earth", &[("GM", 398600.4418)]);
    rec.interpolator = Some(one_window_interpolator(2451545.0, 8, 8.0));
    let frames = vec![frame_linking(399, "Earth J2000", earth.clone())];
    let cosm = Cosm::build(vec![rec], frames).unwrap();
    let (start_epoch, degree, set) = cosm.state_plan(&earth).unwrap();
    assert_eq!(f64::from_bits(start_epoch), 2451545.0);
    assert_eq!(degree, 8);
    assert_eq!(f64::from_bits(set.window_duration), 8.0);
    assert_eq!(set.windows.len(), 1);
    assert_eq!(set.windows[0].x.len(), 8);
}

#[test]
fn earth_midpoint_window_selection() {
    // querying four days past the start of an eight-day window must land
    // in window zero at its midpoint, where the basis is 1, 0, -1, 0, ...
    let earth = ident(399, "Earth");
    let mut rec = plain_ephemeris(399, "Earth", &[("GM", 398600.4418)]);
    rec.interpolator = Some(one_window_interpolator(2451545.0, 8, 8.0));
    let frames = vec![frame_linking(399, "Earth J2000", earth.clone())];
    let cosm = Cosm::build(vec![rec], frames).unwrap();
    let (start_epoch, degree, set) = cosm.state_plan(&earth).unwrap();

    let jde = 2451545.0 + 4.0;
    let delta = jde - f64::from_bits(start_epoch);
    let duration = f64::from_bits(set.window_duration);
    let index_f = (delta / duration).round_ties_even();
    assert_eq!(index_f, 0.0);
    let index = index_f as i64;
    let offset = delta - index_f * duration;
    assert_eq!(offset, 4.0);
    let t = 2.0 * offset / duration - 1.0;
    assert_eq!(t, 0.0);

    let window = set.window_at(index).unwrap();
    assert_eq!(window.x.len(), degree);
    let basis = cosm::chebyshev::chebyshev_edge_values(degree, 0);
    assert_eq!(basis, vec![1, 0, -1, 0, 1, 0, -1, 0]);
}

#[test]
fn window_out_of_range() {
    let set = FixedWindowSet {
        window_duration: 8.0f64.to_bits(),
        windows: vec![WindowCoeffs {
            x: vec![0; 2],
            y: vec![0; 2],
            z: vec![0; 2],
        }],
    };
    assert!(matches!(set.window_at(-1), Err(CosmError::WindowOutOfRange(-1))));
    assert!(matches!(set.window_at(1), Err(CosmError::WindowOutOfRange(1))));
    assert!(set.window_at(0).is_ok());
}

#[test]
fn frame_without_link_gets_no_geoid() {
    let ephemerides = vec![plain_ephemeris(10, "Sun", &[("GM", 1.32712440041e11)])];
    let frames = vec![FrameRecord {
        id: ident(1, "J2000"),
        parent: None,
        rotation: identity_rotation(),
        exb_id: None,
    }];
    let cosm = Cosm::build(ephemerides, frames).unwrap();
    assert!(cosm.geoid(&ident(1, "J2000")).is_none());
    assert!(cosm.diagnostics().is_empty());
    assert!(cosm.frame(&ident(1, "J2000")).is_some());
}

#[test]
fn window_at_picks_the_right_window() {
    let coeffs = |v: f64, n: usize| WindowCoeffs {
        x: vec![v.to_bits(); n],
        y: vec![v.to_bits(); n],
        z: vec![v.to_bits(); n],
    };
    let set = FixedWindowSet {
        window_duration: 8.0f64.to_bits(),
        windows: vec![coeffs(1.0, 2), coeffs(2.0, 2), coeffs(3.0, 2)],
    };
    let w = set.window_at(1).unwrap();
    assert_eq!(f64::from_bits(w.x[0]), 2.0);
    let w = set.window_at(2).unwrap();
    assert_eq!(f64::from_bits(w.z[1]), 3.0);
    assert!(matches!(set.window_at(3), Err(CosmError::WindowOutOfRange(3))));
}

#[test]
fn state_plan_accepts_the_smallest_degree() {
    let earth = ident(399, "Earth");
    let mut rec = plain_ephemeris(399, "Earth", &[("GM", 398600.4418)]);
    rec.interpolator = Some(one_window_interpolator(2451545.0, 2, 8.0));
    let frames = vec![frame_linking(399, "Earth J2000", earth.clone())];
    let cosm = Cosm::build(vec![rec], frames).unwrap();
    let (_, degree, _) = cosm.state_plan(&earth).unwrap();
    assert_eq!(degree, 2);
}

#[test]
fn perfect_sphere_fields() {
    let g = Geoid::perfect_sphere(ident(0, "Solar System Barycenter"), 1.32712440018e20f64.to_bits());
    assert_eq!(f64::from_bits(g.gm), 1.32712440018e20);
    assert_eq!(f64::from_bits(g.flattening), 0.0);
    assert_eq!(f64::from_bits(g.equatorial_radius), 0.0);
    assert_eq!(f64::from_bits(g.semi_major_radius), 0.0);
    assert_eq!(f64::from_bits(g.rotation_rate), 0.0);
}

#[test]
fn identifier_matching_is_exact() {
    assert_eq!(ident(399, "Earth"), ident(399, "Earth"));
    assert_ne!(ident(399, "Earth"), ident(399, "EARTH"));
    assert_ne!(ident(399, "Earth"), ident(398, "Earth"));
}

#[test]
fn rotation_at_epoch_is_constant() {
    let q = Quaternion { w: 1.0f64.to_bits(), x: 0, y: 0, z: 0 };
    let r = Rotation::Constant(q);
    assert_eq!(r.at_epoch(2451545.0f64.to_bits()), q);
    assert_eq!(r.at_epoch(0), q);
}

#[test]
fn parameter_lookup_is_by_exact_name() {
    let p = params(&[("GM", 1.0), ("Equatorial radius", 2.0)]);
    assert_eq!(p.get(&String::from("GM")).map(f64::from_bits), Some(1.0));
    assert_eq!(p.get(&String::from("Equatorial radius")).map(f64::from_bits), Some(2.0));
    assert_eq!(p.get(&String::from("gm")), None);
    assert_eq!(p.get(&String::from("Flattening")), None);
}
