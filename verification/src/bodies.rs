//! The body catalog: per-body physical constants and relational flags,
//! and the instantaneous state vector of a body.
//!
//! Quantities are Q40 fixed point in kilometre-based units: positions in
//! km, velocities in km/s, gravitational parameters in km^3/s^2. The
//! initial catalog holds the sun, the planets and a few moons at a single
//! reference epoch in one inertial frame.

use vstd::prelude::*;

verus! {

use crate::vec3::{V3, V3s};

/// Position and velocity of one body, in one fixed inertial frame.
#[derive(Clone, Copy, PartialEq, Eq, Structural, Debug)]
pub struct BodyState {
    /// Position in km.
    pub r: V3,
    /// Velocity in km/s.
    pub v: V3,
}

/// The mathematical value of a `BodyState`.
pub struct BodyStateS {
    pub r: V3s,
    pub v: V3s,
}

impl View for BodyState {
    type V = BodyStateS;

    open spec fn view(&self) -> BodyStateS {
        BodyStateS { r: self.r@, v: self.v@ }
    }
}

/// Physical constants and relational flags of one body; immutable after
/// initialization.
pub struct BodyInfo {
    pub name: String,
    /// Gravitational parameter in km^3/s^2; positive.
    pub mu: i128,
    /// Mean radius in km.
    pub radius: i128,
    /// Oblateness coefficient; zero or positive. The oblateness correction
    /// is disabled in this propagator, but the constant is part of the
    /// catalog.
    pub j2: i128,
    /// Rotational rate in rad/s (display only).
    pub rotational_rate: i128,
    /// Pole direction (unit vector).
    pub tilt: V3,
    /// Does external gravity move this body?
    pub affected: bool,
    /// Does this body's gravity act on others?
    pub affects: bool,
    /// Body whose frame is used when expressing this body's orbit.
    pub kepler_parent: u32,
    /// Display classification, consumed by the presentation layer only.
    pub display_as_keplerian: bool,
}


/// Componentwise sum of two body states.
pub open spec fn add_body_state_s(a: BodyStateS, b: BodyStateS) -> BodyStateS {
    BodyStateS { r: crate::vec3::v3_add_s(a.r, b.r), v: crate::vec3::v3_add_s(a.v, b.v) }
}

/// Componentwise difference of two body states.
pub open spec fn sub_body_state_s(a: BodyStateS, b: BodyStateS) -> BodyStateS {
    BodyStateS { r: crate::vec3::v3_sub_s(a.r, b.r), v: crate::vec3::v3_sub_s(a.v, b.v) }
}

/// Componentwise sum of two body states.
pub fn add_body_state(a: &BodyState, b: &BodyState) -> (r: BodyState)
    ensures
        r@ == add_body_state_s(a@, b@),
{
    BodyState { r: crate::vec3::v3_add(&a.r, &b.r), v: crate::vec3::v3_add(&a.v, &b.v) }
}

/// Componentwise difference of two body states.
pub fn sub_body_state(a: &BodyState, b: &BodyState) -> (r: BodyState)
    ensures
        r@ == sub_body_state_s(a@, b@),
{
    BodyState { r: crate::vec3::v3_sub(&a.r, &b.r), v: crate::vec3::v3_sub(&a.v, &b.v) }
}

/// A catalog is well formed when every gravitational parameter is positive
/// and every parent reference stays inside the catalog.
pub open spec fn catalog_wf(infos: Seq<BodyInfo>) -> bool {
    forall|i: int|
        0 <= i < infos.len() ==> (#[trigger] infos[i]).mu > 0 && infos[i].kepler_parent < infos.len()
}

/// The initialization catalog: every body of the simulation with its
/// constants and its state vector at the reference epoch.
pub fn planets_info() -> (r: Vec<(BodyState, BodyInfo)>)
    ensures
        r@.len() == 12,
        catalog_wf(r@.map_values(|p: (BodyState, BodyInfo)| p.1)),
        r@[0].1.affects,
        !r@[0].1.affected,
{
    let mut bodies: Vec<(BodyState, BodyInfo)> = Vec::new();
    bodies.push(
        (
            BodyState {
                r: V3 { x: 0, y: 0, z: 0 },
                v: V3 { x: 0, y: 0, z: 0 },
            },
            BodyInfo {
                name: "Sun".to_string(),
                mu: 145918870951305496494080,
                radius: 764930239443763200,
                j2: 0,
                rotational_rate: 0,
                tilt: V3 { x: 0, y: -438429237848, z: 1008318215156 },
                affected: false,
                affects: true,
                kepler_parent: 0,
                display_as_keplerian: false,
            },
        ),
    );
    bodies.push(
        (
            BodyState {
                r: V3 { x: -60831851664837599232, y: -34549343710426202112, z: -12151563016347846656 },
                v: V3 { x: 16561909144038, y: -37951790756179, z: -21990452199160 },
            },
            BodyInfo {
                name: "Mercury".to_string(),
                mu: 24224295652357360,
                radius: 2683391112936162,
                j2: 55305435,
                rotational_rate: 1363405,
                tilt: V3 { x: 97856534872, y: -506874860405, z: 962072674304 },
                affected: true,
                affects: true,
                kepler_parent: 0,
                display_as_keplerian: true,
            },
        ),
    );
    bodies.push(
        (
            BodyState {
                r: V3 { x: -112958995580179202048, y: -35231047942875369472, z: -8706476533929783296 },
                v: V3 { x: 11373048445396, y: -33376110843537, z: -15737779034872 },
            },
            BodyInfo {
                name: "Venus".to_string(),
                mu: 357185799286939456,
                radius: 6654126723556180,
                j2: 4901623,
                rotational_rate: -329018,
                tilt: V3 { x: -20890720928, y: -426610511577, z: 1012650209182 },
                affected: true,
                affects: true,
                kepler_parent: 0,
                display_as_keplerian: true,
            },
        ),
    );
    bodies.push(
        (
            BodyState {
                r: V3 { x: -160987453983035850752, y: -30484317782030012416, z: -13213833752903256064 },
                v: V3 { x: 6099167407216, y: -29551052284221, z: -12810750185814 },
            },
            BodyInfo {
                name: "Earth".to_string(),
                mu: 438265813598458752,
                radius: 7012835795048333,
                j2: 1190364274,
                rotational_rate: 80177652,
                tilt: V3 { x: 0, y: 0, z: 1099511627776 },
                affected: true,
                affects: true,
                kepler_parent: 0,
                display_as_keplerian: true,
            },
        ),
    );
    bodies.push(
        (
            BodyState {
                r: V3 { x: -235659710861385924608, y: 124268317163191599104, z: 63355486447118893056 },
                v: V3 { x: -12550415419844, y: -18907368837384, z: -8333848140070 },
            },
            BodyInfo {
                name: "Mars".to_string(),
                mu: 47090296546546432,
                radius: 3734150395136574,
                j2: 2155537571,
                rotational_rate: 77935803,
                tilt: V3 { x: 489282674360, y: -446401720877, z: 877410278965 },
                affected: true,
                affects: true,
                kepler_parent: 0,
                display_as_keplerian: true,
            },
        ),
    );
    bodies.push(
        (
            BodyState {
                r: V3 { x: 61161176322866724864, y: 771504093876252049408, z: 329198860362744135680 },
                v: V3 { x: -14509841046954, y: 1453481629910, z: 976166496178 },
            },
            BodyInfo {
                name: "Jupiter".to_string(),
                mu: 139293314906665156608,
                radius: 73506750363336704,
                j2: 16202403347,
                rotational_rate: 193349120,
                tilt: V3 { x: 16492674417, y: -477188046455, z: 990659976626 },
                affected: true,
                affects: true,
                kepler_parent: 0,
                display_as_keplerian: true,
            },
        ),
    );
    bodies.push(
        (
            BodyState {
                r: V3 { x: 1564631708957936975872, y: -167862359743358697472, z: -136704911309407191040 },
                v: V3 { x: 804052987529, y: 9728111551237, z: 3983286882058 },
            },
            BodyInfo {
                name: "Saturn".to_string(),
                mu: 41705802309852495872,
                radius: 59773850132414464,
                j2: 17919840509,
                rotational_rate: 180083512,
                tilt: V3 { x: 93458488361, y: 80264348828, z: 1092914558009 },
                affected: true,
                affects: true,
                kepler_parent: 0,
                display_as_keplerian: true,
            },
        ),
    );
    bodies.push(
        (
            BodyState {
                r: V3 { x: 1777347736940006342656, y: 2461699445194009083904, z: 1052996904981707620352 },
                v: V3 { x: -6307519919567, y: 3445269599967, z: 1597902894273 },
            },
            BodyInfo {
                name: "Uranus".to_string(),
                mu: 6370516066784701440,
                radius: 28102417694326784,
                j2: 3676140162,
                rotational_rate: -111311259,
                tilt: V3 { x: -235295488344, y: -1033540930109, z: -288072046477 },
                affected: true,
                affects: true,
                kepler_parent: 0,
                display_as_keplerian: true,
            },
        ),
    );
    bodies.push(
        (
            BodyState {
                r: V3 { x: 4915147589362929106944, y: -7957425026147193856, z: -125617107841143980032 },
                v: V3 { x: 16715033348, y: 5568921330856, z: 2279741480539 },
            },
            BodyInfo {
                name: "Neptune".to_string(),
                mu: 7515271894026388480,
                radius: 27230504973500416,
                j2: 3750434162,
                rotational_rate: 119118891,
                tilt: V3 { x: 405719790649, y: -683896232477, z: 757563511538 },
                affected: true,
                affects: true,
                kepler_parent: 0,
                display_as_keplerian: true,
            },
        ),
    );
    bodies.push(
        (
            BodyState {
                r: V3 { x: -160756420207936667648, y: -30199750350795776000, z: -13056772029668892672 },
                v: V3 { x: 5157165997247, y: -28910003794773, z: -12464928558486 },
            },
            BodyInfo {
                name: "Luna".to_string(),
                mu: 5390685681227940,
                radius: 1910951209074688,
                j2: 222871007,
                rotational_rate: 2926570,
                tilt: V3 { x: 0, y: -434307092972, z: 1009351674298 },
                affected: true,
                affects: true,
                kepler_parent: 3,
                display_as_keplerian: true,
            },
        ),
    );
    bodies.push(
        (
            BodyState {
                r: V3 { x: -235650796414383685632, y: 124267678762220404736, z: 63350126279043538944 },
                v: V3 { x: -11990658564518, y: -16770031224119, z: -7610374029593 },
            },
            BodyInfo {
                name: "Phobos".to_string(),
                mu: 781752767,
                radius: 14403602323866,
                j2: 0,
                rotational_rate: 0,
                tilt: V3 { x: 489282674360, y: -446401720877, z: 877410278965 },
                affected: true,
                affects: true,
                kepler_parent: 4,
                display_as_keplerian: true,
            },
        ),
    );
    bodies.push(
        (
            BodyState {
                r: V3 { x: -235662655683114729472, y: 124245013264897425408, z: 63344815037989117952 },
                v: V3 { x: -11203022462409, y: -18796180829859, z: -8948883847781 },
            },
            BodyInfo {
                name: "Deimos".to_string(),
                mu: 93788342,
                radius: 14403602323866,
                j2: 0,
                rotational_rate: 0,
                tilt: V3 { x: 489282674360, y: -446401720877, z: 877410278965 },
                affected: true,
                affects: true,
                kepler_parent: 4,
                display_as_keplerian: true,
            },
        ),
    );    proof {
        assert(catalog_wf(bodies@.map_values(|p: (BodyState, BodyInfo)| p.1)));
    }
    bodies
}

} // verus!
