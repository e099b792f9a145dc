//! Behavioural checks of the simulation on concrete systems: force-pair
//! antisymmetry, preservation of rest and of mirror symmetry, bounded energy
//! drift on a circular orbit, and the coincident-pair guard.
use n_body::particle::Particle;
use n_body::point::Point;
use n_body::system::System;

const G: f64 = 6.67408e-11;

fn point(x: f64, y: f64, z: f64) -> Point {
    Point::new(x.to_bits(), y.to_bits(), z.to_bits())
}

fn particle(name: &str, mass: f64, pos: (f64, f64, f64), vel: (f64, f64, f64)) -> Particle {
    Particle::new(
        name,
        mass.to_bits(),
        point(pos.0, pos.1, pos.2),
        vel.0.to_bits(),
        vel.1.to_bits(),
        vel.2.to_bits(),
    )
}

fn force_of(p: &Particle) -> (f64, f64, f64) {
    let (fx, fy, fz) = p.force();
    (f64::from_bits(fx), f64::from_bits(fy), f64::from_bits(fz))
}

fn position_of(p: &Particle) -> (f64, f64, f64) {
    let pos = p.position();
    (
        f64::from_bits(pos.x),
        f64::from_bits(pos.y),
        f64::from_bits(pos.z),
    )
}

fn velocity_of(p: &Particle) -> (f64, f64, f64) {
    let (vx, vy, vz) = p.velocity();
    (f64::from_bits(vx), f64::from_bits(vy), f64::from_bits(vz))
}

fn assert_opposite(a: f64, b: f64) {
    let scale = a.abs().max(b.abs());
    assert!(
        (a + b).abs() <= scale * 1e-12,
        "not opposite: {} vs {}",
        a,
        b
    );
}

/// The force one body accumulates from another is equal in magnitude and
/// opposite in direction to the force accumulated the other way around.
#[test]
fn force_pairs_antisymmetric() {
    let mut a = particle(
        "a",
        1.0e24,
        (0.0, 0.0, 0.0),
        (0.0, 0.0, 0.0),
    );
    let mut b = particle(
        "b",
        5.0e22,
        (1.0e8, -2.0e7, 3.0e7),
        (0.0, 0.0, 0.0),
    );
    let a0 = a.clone();
    let b0 = b.clone();
    a.add_particle_force(&b0);
    b.add_particle_force(&a0);
    let (afx, afy, afz) = force_of(&a);
    let (bfx, bfy, bfz) = force_of(&b);
    assert!(afx != 0.0 && afy != 0.0 && afz != 0.0);
    assert_opposite(afx, bfx);
    assert_opposite(afy, bfy);
    assert_opposite(afz, bfz);
}

/// The accumulated force follows `G * m1 * m2 / d^3` applied to the
/// coordinate differences, bit for bit.
#[test]
fn force_matches_reference_formula() {
    let m1 = 3.5e21_f64;
    let m2 = 7.25e19_f64;
    let (ax, ay, az) = (1.0e7_f64, -3.0e6_f64, 2.5e6_f64);
    let (bx, by, bz) = (-4.0e6_f64, 8.0e6_f64, -1.0e7_f64);
    let mut a = particle("a", m1, (ax, ay, az), (0.0, 0.0, 0.0));
    let b = particle("b", m2, (bx, by, bz), (0.0, 0.0, 0.0));
    a.add_particle_force(&b);

    let d = ((ax - bx).powi(2) + (ay - by).powi(2) + (az - bz).powi(2)).sqrt();
    let force = (G * m1 * m2) / d.powi(3);
    let expected = (
        force * (bx - ax),
        force * (by - ay),
        force * (bz - az),
    );
    let (fx, fy, fz) = a.force();
    assert_eq!(expected.0.to_bits(), fx);
    assert_eq!(expected.1.to_bits(), fy);
    assert_eq!(expected.2.to_bits(), fz);
}

/// One step of a two-body system follows the semi-implicit Euler rule applied
/// to the accumulated forces, bit for bit.
#[test]
fn update_matches_reference_formula() {
    let dt = 60.0_f64;
    let m1 = 1.0e26_f64;
    let m2 = 2.0e25_f64;
    let pa = (0.0_f64, 0.0_f64, 0.0_f64);
    let pb = (5.0e8_f64, -1.0e8_f64, 3.0e8_f64);
    let va = (1.0_f64, 2.0_f64, 3.0_f64);
    let vb = (-40.0_f64, 50.0_f64, -60.0_f64);

    let mut sys = System::new();
    sys.add_particle(particle("a", m1, pa, va));
    sys.add_particle(particle("b", m2, pb, vb));
    sys.update(dt.to_bits());

    // The same computation with ordinary arithmetic.
    let mut reference = Vec::new();
    let bodies = [(m1, pa, va), (m2, pb, vb)];
    for (m, p, v) in bodies.iter() {
        let (mut fx, mut fy, mut fz) = (0.0_f64, 0.0_f64, 0.0_f64);
        for (om, op, _) in bodies.iter() {
            let d = ((p.0 - op.0).powi(2) + (p.1 - op.1).powi(2) + (p.2 - op.2).powi(2)).sqrt();
            if d != 0.0 {
                let force = (G * m * om) / d.powi(3);
                fx += force * (op.0 - p.0);
                fy += force * (op.1 - p.1);
                fz += force * (op.2 - p.2);
            }
        }
        let vx = v.0 + dt * fx / m;
        let vy = v.1 + dt * fy / m;
        let vz = v.2 + dt * fz / m;
        let px = p.0 + dt * vx;
        let py = p.1 + dt * vy;
        let pz = p.2 + dt * vz;
        reference.push(((px, py, pz), (vx, vy, vz)));
    }

    let after = sys.particles();
    for (i, part) in after.iter().enumerate() {
        let (expected_pos, expected_vel) = reference[i];
        let pos = part.position();
        assert_eq!(expected_pos.0.to_bits(), pos.x);
        assert_eq!(expected_pos.1.to_bits(), pos.y);
        assert_eq!(expected_pos.2.to_bits(), pos.z);
        let (vx, vy, vz) = part.velocity();
        assert_eq!(expected_vel.0.to_bits(), vx);
        assert_eq!(expected_vel.1.to_bits(), vy);
        assert_eq!(expected_vel.2.to_bits(), vz);
    }
}

/// A step accumulates the pair forces in insertion order; with three bodies
/// the result still matches the reference computation bit for bit.
#[test]
fn three_body_step_matches_reference_formula() {
    let dt = 30.0_f64;
    let bodies = [
        (1.0e26_f64, (0.0_f64, 0.0_f64, 0.0_f64), (1.0_f64, 2.0_f64, 3.0_f64)),
        (2.0e25_f64, (5.0e8, -1.0e8, 3.0e8), (-40.0, 50.0, -60.0)),
        (7.5e24_f64, (-2.0e8, 4.0e8, -6.0e8), (10.0, -20.0, 30.0)),
    ];
    let mut sys = System::new();
    for (i, (m, p, v)) in bodies.iter().enumerate() {
        sys.add_particle(particle(&format!("body{}", i), *m, *p, *v));
    }
    sys.update(dt.to_bits());

    for (i, (m, p, v)) in bodies.iter().enumerate() {
        let (mut fx, mut fy, mut fz) = (0.0_f64, 0.0_f64, 0.0_f64);
        for (om, op, _) in bodies.iter() {
            let d = ((p.0 - op.0).powi(2) + (p.1 - op.1).powi(2) + (p.2 - op.2).powi(2)).sqrt();
            if d != 0.0 {
                let force = (G * m * om) / d.powi(3);
                fx += force * (op.0 - p.0);
                fy += force * (op.1 - p.1);
                fz += force * (op.2 - p.2);
            }
        }
        let vx = v.0 + dt * fx / m;
        let vy = v.1 + dt * fy / m;
        let vz = v.2 + dt * fz / m;
        let (px, py, pz) = (p.0 + dt * vx, p.1 + dt * vy, p.2 + dt * vz);

        let part = &sys.particles()[i];
        let pos = part.position();
        assert_eq!((px.to_bits(), py.to_bits(), pz.to_bits()), (pos.x, pos.y, pos.z));
        assert_eq!((vx.to_bits(), vy.to_bits(), vz.to_bits()), part.velocity());
        assert_eq!((0_u64, 0_u64, 0_u64), part.force());
    }
}

/// A single particle with zero initial velocity keeps its position and
/// velocity, bit for bit, over any number of steps.
#[test]
fn single_particle_stays_put() {
    let mut sys = System::new();
    let pos = (1.0e10, -2.0e10, 0.5);
    sys.add_particle(particle("solo", 5.0e30, pos, (0.0, 0.0, 0.0)));
    for _ in 0..100 {
        sys.update(1.0_f64.to_bits());
    }
    let after = sys.particles();
    assert_eq!(1, after.len());
    assert_eq!((pos.0, pos.1, pos.2), position_of(&after[0]));
    assert_eq!((0.0, 0.0, 0.0), velocity_of(&after[0]));
    assert_eq!(
        (0_u64, 0_u64, 0_u64),
        after[0].velocity(),
        "velocity must still be positive zero bits"
    );
}

/// Two equal masses placed symmetrically about the origin with zero initial
/// velocity stay mirror images of each other through the origin.
#[test]
fn symmetric_pair_stays_symmetric() {
    let m = 1.0e30;
    let d = 1.0e9;
    let mut sys = System::new();
    sys.add_particle(particle("left", m, (-d, 0.0, 0.0), (0.0, 0.0, 0.0)));
    sys.add_particle(particle("right", m, (d, 0.0, 0.0), (0.0, 0.0, 0.0)));
    for _ in 0..50 {
        sys.update(10.0_f64.to_bits());
    }
    let after = sys.particles();
    let (lx, ly, lz) = position_of(&after[0]);
    let (rx, ry, rz) = position_of(&after[1]);
    assert!(lx < 0.0 && rx > 0.0, "bodies fell through each other");
    assert!((lx + rx).abs() <= d * 1e-12);
    assert!(ly.abs() <= d * 1e-12 && ry.abs() <= d * 1e-12);
    assert!(lz.abs() <= d * 1e-12 && rz.abs() <= d * 1e-12);
}

fn total_energy(parts: &[Particle]) -> f64 {
    let mut energy = 0.0_f64;
    for (i, p) in parts.iter().enumerate() {
        let m = f64::from_bits(p.mass());
        let (vx, vy, vz) = velocity_of(p);
        energy += 0.5 * m * (vx * vx + vy * vy + vz * vz);
        for q in parts.iter().skip(i + 1) {
            let (px, py, pz) = position_of(p);
            let (qx, qy, qz) = position_of(q);
            let r = ((px - qx).powi(2) + (py - qy).powi(2) + (pz - qz).powi(2)).sqrt();
            energy -= G * m * f64::from_bits(q.mass()) / r;
        }
    }
    energy
}

/// On a two-body circular orbit the total mechanical energy stays within a
/// bounded tolerance of its initial value: the first-order integrator drifts
/// but must not diverge.
#[test]
fn circular_orbit_energy_drift_is_bounded() {
    let sun_mass = 1.989e30;
    let planet_mass = 5.972e24;
    let r = 1.4960e11;
    let v = (G * sun_mass / r).sqrt();
    let mut sys = System::new();
    sys.add_particle(particle("sun", sun_mass, (0.0, 0.0, 0.0), (0.0, 0.0, 0.0)));
    sys.add_particle(particle("planet", planet_mass, (r, 0.0, 0.0), (0.0, v, 0.0)));
    let initial = total_energy(sys.particles());
    for _ in 0..2000 {
        sys.update(600.0_f64.to_bits());
    }
    let after = total_energy(sys.particles());
    assert!(
        ((after - initial) / initial).abs() < 1.0e-3,
        "energy drifted from {} to {}",
        initial,
        after
    );
}

/// A sun-and-planet configuration run for a simulated year comes back near
/// the planet's starting position (first-order integration error allowed).
#[test]
fn two_body_orbit_returns_near_start() {
    let sun_mass = 1.989e30;
    let planet_mass = 5.972e24;
    let r = 1.4960e11;
    let mut sys = System::new();
    sys.add_particle(particle("sun", sun_mass, (0.0, 0.0, 0.0), (0.0, 0.0, 0.0)));
    sys.add_particle(particle(
        "planet",
        planet_mass,
        (r, 0.0, 0.0),
        (0.0, 2.98e4, 0.0),
    ));
    let dt = 3600.0_f64;
    let steps = 8766; // one year of hour-long steps
    for _ in 0..steps {
        sys.update(dt.to_bits());
    }
    let after = sys.particles();
    let (px, _, _) = position_of(&after[1]);
    assert!(
        (px - r).abs() <= 0.05 * r,
        "planet x after a year: {} (started at {})",
        px,
        r
    );
}

/// Two bodies at identical positions: the pair contributes exactly zero
/// force, and a step produces no NaN or infinity anywhere.
#[test]
fn coincident_pair_contributes_zero_force() {
    let pos = (1.0e10, 2.0e10, -3.0e10);
    let mut a = particle("a", 1.0e30, pos, (0.0, 0.0, 0.0));
    let b = particle("b", 2.0e30, pos, (5.0, -7.0, 11.0));
    a.add_particle_force(&b);
    assert_eq!((0_u64, 0_u64, 0_u64), a.force());

    let mut sys = System::new();
    sys.add_particle(particle("a", 1.0e30, pos, (0.0, 0.0, 0.0)));
    sys.add_particle(particle("b", 2.0e30, pos, (5.0, -7.0, 11.0)));
    sys.update(1.0_f64.to_bits());
    for part in sys.particles().iter() {
        let (px, py, pz) = position_of(part);
        let (vx, vy, vz) = velocity_of(part);
        for value in [px, py, pz, vx, vy, vz] {
            assert!(value.is_finite(), "step produced a non-finite value");
        }
    }
}

/// Reading the particle sequence twice between steps yields identical
/// sequences, and reading it mutates nothing.
#[test]
fn particles_view_is_stable() {
    let mut sys = System::new();
    sys.add_particle(particle("a", 1.0e30, (0.0, 0.0, 0.0), (0.0, 0.0, 0.0)));
    sys.add_particle(particle(
        "b",
        5.0e24,
        (1.0e11, 0.0, 0.0),
        (0.0, 3.0e4, 0.0),
    ));
    sys.update(1.0_f64.to_bits());
    let snapshot: Vec<_> = sys
        .particles()
        .iter()
        .map(|p| (p.name().clone(), p.mass(), p.position(), p.velocity()))
        .collect();
    let again: Vec<_> = sys
        .particles()
        .iter()
        .map(|p| (p.name().clone(), p.mass(), p.position(), p.velocity()))
        .collect();
    assert_eq!(snapshot, again);
}
