//! A point mass carrying position, velocity and an accumulated-force buffer.
//!
//! The particle owns the per-pair force law ([`Particle::add_particle_force`])
//! and the per-step semi-implicit Euler integration rule
//! ([`Particle::update`]). All scalars are IEEE-754 binary64 bit patterns and
//! every contract pins the exact sequence of binary64 operations performed.
use vstd::prelude::*;

use crate::point::{finite_point, spec_distance, Point};
use crate::scalar::{bits_add, bits_div, bits_mul, bits_sub};
use crate::scalar::{diff_bits, prod_bits, quot_bits, sum_bits};
use crate::scalar::{is_finite_bits, is_nan_bits, is_zero_bits, G_BITS, NEG_ZERO, POS_ZERO};

verus! {

/// A point mass. `name` is an opaque label used only for display; `mass` is
/// in kilograms; `position` in meters; `vx, vy, vz` in meters per second;
/// `fx, fy, fz` is the transient force accumulator in newtons, reset to zero
/// at the end of every step.
#[derive(Debug)]
pub struct Particle {
    name: String,
    mass: u64,
    position: Point,
    vx: u64,
    vy: u64,
    vz: u64,
    fx: u64,
    fy: u64,
    fz: u64,
}

/// The mathematical model of a [`Particle`]: its fields as plain values.
pub ghost struct ParticleView {
    pub name: Seq<char>,
    pub mass: u64,
    pub position: Point,
    pub vx: u64,
    pub vy: u64,
    pub vz: u64,
    pub fx: u64,
    pub fy: u64,
    pub fz: u64,
}

impl View for Particle {
    type V = ParticleView;

    closed spec fn view(&self) -> ParticleView {
        ParticleView {
            name: self.name@,
            mass: self.mass,
            position: self.position,
            vx: self.vx,
            vy: self.vy,
            vz: self.vz,
            fx: self.fx,
            fy: self.fy,
            fz: self.fz,
        }
    }
}

/// The magnitude factor of the gravitational force between masses `m1` and
/// `m2` at distance `d`: `G * m1 * m2 / d^3`, each operation a binary64
/// operation, the cube written as repeated products. The `d^3` denominator
/// absorbs the normalization of the direction vector.
pub open spec fn force_magnitude(m1: u64, m2: u64, d: u64) -> u64 {
    quot_bits(prod_bits(prod_bits(G_BITS, m1), m2), prod_bits(prod_bits(d, d), d))
}

/// What one call of [`Particle::add_particle_force`] does to `p`, with `o`
/// the other body: if the two positions are at distance zero (including a
/// body's interaction with itself) nothing changes; otherwise the force
/// `magnitude * (o.position - p.position)` is accumulated component-wise.
pub open spec fn spec_add_force(p: ParticleView, o: ParticleView) -> ParticleView {
    let d = spec_distance(p.position, o.position);
    if is_zero_bits(d) {
        p
    } else {
        let f = force_magnitude(p.mass, o.mass, d);
        ParticleView {
            fx: sum_bits(p.fx, prod_bits(f, diff_bits(o.position.x, p.position.x))),
            fy: sum_bits(p.fy, prod_bits(f, diff_bits(o.position.y, p.position.y))),
            fz: sum_bits(p.fz, prod_bits(f, diff_bits(o.position.z, p.position.z))),
            ..p
        }
    }
}

/// What one call of [`Particle::update`] does to `p` for a time step `t`:
/// semi-implicit Euler. Velocity first absorbs `t * force / mass`; position
/// then advances by `t` times the already-updated velocity; the force
/// accumulator is reset to positive zero.
pub open spec fn spec_integrate(p: ParticleView, t: u64) -> ParticleView {
    let vx = sum_bits(p.vx, quot_bits(prod_bits(t, p.fx), p.mass));
    let vy = sum_bits(p.vy, quot_bits(prod_bits(t, p.fy), p.mass));
    let vz = sum_bits(p.vz, quot_bits(prod_bits(t, p.fz), p.mass));
    ParticleView {
        position: Point {
            x: sum_bits(p.position.x, prod_bits(t, vx)),
            y: sum_bits(p.position.y, prod_bits(t, vy)),
            z: sum_bits(p.position.z, prod_bits(t, vz)),
        },
        vx,
        vy,
        vz,
        fx: POS_ZERO,
        fy: POS_ZERO,
        fz: POS_ZERO,
        ..p
    }
}

/// A coordinate that integration with no net force maps to itself: finite
/// and not negative zero (adding a zero to negative zero yields positive
/// zero, so negative zero would not be preserved bit for bit).
pub open spec fn rest_coord(c: u64) -> bool {
    is_finite_bits(c) && c != NEG_ZERO
}

/// A body that a step of size `t` must leave exactly in place: zero velocity
/// and zero accumulated force (positive zero bits), coordinates finite and
/// not negative zero, a mass that is neither a zero nor a NaN, and a finite
/// time step.
pub open spec fn at_rest(p: ParticleView, t: u64) -> bool {
    p.vx == POS_ZERO && p.vy == POS_ZERO && p.vz == POS_ZERO && p.fx == POS_ZERO && p.fy
        == POS_ZERO && p.fz == POS_ZERO && rest_coord(p.position.x) && rest_coord(p.position.y)
        && rest_coord(p.position.z) && !is_zero_bits(p.mass) && !is_nan_bits(p.mass)
        && is_finite_bits(t)
}

impl Clone for Particle {
    /// An independent copy, equal to the original field for field: mutating
    /// the copy never shows through the original.
    fn clone(&self) -> (r: Particle)
        ensures
            r == *self,
    {
        Particle {
            name: self.name.clone(),
            mass: self.mass,
            position: self.position,
            vx: self.vx,
            vy: self.vy,
            vz: self.vz,
            fx: self.fx,
            fy: self.fy,
            fz: self.fz,
        }
    }
}

impl Particle {
    /// Builds a particle with the given state and an empty force accumulator.
    pub fn new(name: &str, mass: u64, point: Point, vx: u64, vy: u64, vz: u64) -> (p: Particle)
        ensures
            p@ == (ParticleView {
                name: name@,
                mass,
                position: point,
                vx,
                vy,
                vz,
                fx: POS_ZERO,
                fy: POS_ZERO,
                fz: POS_ZERO,
            }),
    {
        Particle {
            name: name.to_owned(),
            mass,
            position: point,
            vx,
            vy,
            vz,
            fx: POS_ZERO,
            fy: POS_ZERO,
            fz: POS_ZERO,
        }
    }

    /// The display label.
    pub fn name(&self) -> (r: &String)
        ensures
            r@ == self@.name,
    {
        &self.name
    }

    /// The mass bit pattern, in kilograms.
    pub fn mass(&self) -> (r: u64)
        ensures
            r == self@.mass,
    {
        self.mass
    }

    /// The current position, in meters.
    pub fn position(&self) -> (r: Point)
        ensures
            r == self@.position,
    {
        self.position
    }

    /// The current velocity bit patterns, in meters per second.
    pub fn velocity(&self) -> (r: (u64, u64, u64))
        ensures
            r == (self@.vx, self@.vy, self@.vz),
    {
        (self.vx, self.vy, self.vz)
    }

    /// The accumulated force bit patterns, in newtons.
    pub fn force(&self) -> (r: (u64, u64, u64))
        ensures
            r == (self@.fx, self@.fy, self@.fz),
    {
        (self.fx, self.fy, self.fz)
    }

    /// Accumulates into `self`'s force buffer the gravitational force that
    /// `other` exerts on `self`. A pair at distance zero — including `self`
    /// paired with its own snapshot — contributes nothing; this avoids the
    /// division-by-zero singularity of the force law.
    pub fn add_particle_force(&mut self, other: &Particle)
        ensures
            final(self)@ == spec_add_force(old(self)@, other@),
            old(self)@.position == other@.position && finite_point(old(self)@.position)
                ==> final(self)@ == old(self)@,
    {
        let distance = self.position.distance(&other.position);
        if !crate::scalar::bits_are_zero(distance) {
            let force = bits_div(
                bits_mul(bits_mul(G_BITS, self.mass), other.mass),
                bits_mul(bits_mul(distance, distance), distance),
            );
            self.fx = bits_add(self.fx, bits_mul(force, bits_sub(other.position.x, self.position.x)));
            self.fy = bits_add(self.fy, bits_mul(force, bits_sub(other.position.y, self.position.y)));
            self.fz = bits_add(self.fz, bits_mul(force, bits_sub(other.position.z, self.position.z)));
        }
    }

    /// One semi-implicit Euler step of size `time` (seconds): velocity is
    /// updated from the accumulated force first, position from the updated
    /// velocity, and the force accumulator is reset to zero.
    ///
    /// A body at rest with no accumulated force keeps its position and
    /// velocity bit for bit.
    pub fn update(&mut self, time: u64)
        ensures
            final(self)@ == spec_integrate(old(self)@, time),
            at_rest(old(self)@, time) ==> final(self)@ == old(self)@,
    {
        self.vx = bits_add(self.vx, bits_div(bits_mul(time, self.fx), self.mass));
        self.vy = bits_add(self.vy, bits_div(bits_mul(time, self.fy), self.mass));
        self.vz = bits_add(self.vz, bits_div(bits_mul(time, self.fz), self.mass));

        self.position.x = bits_add(self.position.x, bits_mul(time, self.vx));
        self.position.y = bits_add(self.position.y, bits_mul(time, self.vy));
        self.position.z = bits_add(self.position.z, bits_mul(time, self.vz));

        self.fx = POS_ZERO;
        self.fy = POS_ZERO;
        self.fz = POS_ZERO;
    }

    /// Overwrites `self`'s position and velocity — not its mass, name or
    /// force accumulator — from `other`. Used solely to resynchronize the
    /// two buffers of a `System` at the end of a step.
    pub fn set_equal(&mut self, other: &Particle)
        ensures
            final(self)@ == (ParticleView {
                position: other@.position,
                vx: other@.vx,
                vy: other@.vy,
                vz: other@.vz,
                ..old(self)@
            }),
    {
        self.position.x = other.position.x;
        self.position.y = other.position.y;
        self.position.z = other.position.z;

        self.vx = other.vx;
        self.vy = other.vy;
        self.vz = other.vz;
    }
}

} // verus!
