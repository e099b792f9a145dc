//! The system: the full particle collection in two synchronized buffers.
//!
//! `particles0` is the working buffer, `particles1` the read-only snapshot.
//! One step runs two phases with a barrier between them: a force pass that
//! reads the snapshot and writes only the working buffer's accumulators, and
//! an integration pass that advances the working buffer and republishes it
//! into the snapshot. Keeping two buffers makes every index of the force pass
//! independent of every other, so the pass may be run in any order — the
//! contracts below pin one result for all of them.
use vstd::prelude::*;

use crate::particle::{at_rest, spec_add_force, spec_integrate, Particle, ParticleView};

verus! {

/// The views of a sequence of particles.
pub open spec fn views(s: Seq<Particle>) -> Seq<ParticleView> {
    s.map_values(|p: Particle| p@)
}

/// The two views describe the same physical body: equal mass, position and
/// velocity. The display name and the transient force accumulator — which
/// the snapshot buffer never publishes — are not compared.
pub open spec fn same_body(a: ParticleView, b: ParticleView) -> bool {
    a.mass == b.mass && a.position == b.position && a.vx == b.vx && a.vy == b.vy && a.vz == b.vz
}

/// The force pass over one particle: what the working copy `p` becomes after
/// accumulating, in order, the force from every body of the snapshot `snap`.
pub open spec fn force_pass(p: ParticleView, snap: Seq<ParticleView>) -> ParticleView
    decreases snap.len(),
{
    if snap.len() == 0 {
        p
    } else {
        force_pass(spec_add_force(p, snap[0]), snap.drop_first())
    }
}

/// One full step of size `t` over the particle views `s`: every particle
/// accumulates the force from every body (itself included — that pair is at
/// distance zero and contributes nothing), then integrates.
pub open spec fn spec_step(s: Seq<ParticleView>, t: u64) -> Seq<ParticleView> {
    Seq::new(s.len(), |i: int| spec_integrate(force_pass(s[i], s), t))
}

/// Accumulating one more snapshot body at the end of the pass.
proof fn lemma_force_pass_push(p: ParticleView, s: Seq<ParticleView>, x: ParticleView)
    ensures
        force_pass(p, s.push(x)) == spec_add_force(force_pass(p, s), x),
    decreases s.len(),
{
    if s.len() == 0 {
        assert(s.push(x)[0] == x);
        assert(s.push(x).drop_first() =~= Seq::<ParticleView>::empty());
        assert(force_pass(p, s.push(x)) == force_pass(spec_add_force(p, x), Seq::empty()));
    } else {
        assert(s.push(x)[0] == s[0]);
        assert(s.push(x).drop_first() =~= s.drop_first().push(x));
        lemma_force_pass_push(spec_add_force(p, s[0]), s.drop_first(), x);
        assert(force_pass(p, s.push(x)) == force_pass(
            spec_add_force(p, s[0]),
            s.drop_first().push(x),
        ));
    }
}

/// The force pass writes only the force accumulator: name, mass, position
/// and velocity come through unchanged.
proof fn lemma_force_pass_kinematics(p: ParticleView, s: Seq<ParticleView>)
    ensures
        force_pass(p, s).name == p.name,
        force_pass(p, s).mass == p.mass,
        force_pass(p, s).position == p.position,
        force_pass(p, s).vx == p.vx,
        force_pass(p, s).vy == p.vy,
        force_pass(p, s).vz == p.vz,
    decreases s.len(),
{
    if s.len() != 0 {
        lemma_force_pass_kinematics(spec_add_force(p, s[0]), s.drop_first());
    }
}

/// The force pass reads only mass and position of the snapshot bodies, so two
/// snapshots that agree body by body drive `p` to the same state.
proof fn lemma_force_pass_same(p: ParticleView, s1: Seq<ParticleView>, s2: Seq<ParticleView>)
    requires
        s1.len() == s2.len(),
        forall|i: int| 0 <= i < s1.len() ==> same_body(#[trigger] s1[i], #[trigger] s2[i]),
    ensures
        force_pass(p, s1) == force_pass(p, s2),
    decreases s1.len(),
{
    if s1.len() != 0 {
        assert(same_body(s1[0], s2[0]));
        assert(spec_add_force(p, s1[0]) == spec_add_force(p, s2[0]));
        assert(forall|i: int|
            0 <= i < s1.drop_first().len() ==> same_body(
                #[trigger] s1.drop_first()[i],
                #[trigger] s2.drop_first()[i],
            ));
        lemma_force_pass_same(spec_add_force(p, s1[0]), s1.drop_first(), s2.drop_first());
    }
}

/// An ordered collection of particles held twice: a working buffer and a
/// snapshot buffer, index-aligned, holding the same bodies between steps.
#[derive(Debug)]
pub struct System {
    particles0: Vec<Particle>,
    particles1: Vec<Particle>,
}

impl View for System {
    type V = Seq<ParticleView>;

    closed spec fn view(&self) -> Seq<ParticleView> {
        views(self.particles0@)
    }
}

impl Default for System {
    /// The empty system.
    fn default() -> (s: System)
        ensures
            s.wf(),
            s@ == Seq::<ParticleView>::empty(),
    {
        System::new()
    }
}

impl System {
    /// The two buffers are index-aligned and hold the same bodies.
    pub closed spec fn wf(&self) -> bool {
        views(self.particles1@).len() == views(self.particles0@).len() && (forall|i: int|
            0 <= i < views(self.particles0@).len() ==> same_body(
                #[trigger] views(self.particles1@)[i],
                #[trigger] views(self.particles0@)[i],
            ))
    }

    /// An empty system.
    pub fn new() -> (s: System)
        ensures
            s.wf(),
            s@ == Seq::<ParticleView>::empty(),
    {
        let s = System { particles0: Vec::new(), particles1: Vec::new() };
        proof {
            assert(s@ =~= Seq::<ParticleView>::empty());
        }
        s
    }

    /// Appends a particle to both buffers, as two independent copies.
    pub fn add_particle(&mut self, particle: Particle)
        requires
            old(self).wf(),
        ensures
            final(self).wf(),
            final(self)@ == old(self)@.push(particle@),
    {
        self.particles0.push(particle.clone());
        self.particles1.push(particle);
        proof {
            assert(self@ =~= old(self)@.push(particle@));
            assert(views(self.particles1@) =~= views(old(self).particles1@).push(particle@));
        }
    }

    /// The read-only, insertion-ordered sequence of particles, for reporting.
    /// A pure read: any number of calls between steps sees the same sequence.
    pub fn particles(&self) -> (r: &Vec<Particle>)
        ensures
            views(r@) == self@,
    {
        &self.particles0
    }

    /// One discrete time step of size `time` (seconds): a force pass over all
    /// ordered pairs, a barrier, then integration and resynchronization of
    /// the snapshot buffer.
    ///
    /// A system holding a single body at rest (see [`at_rest`]) is left
    /// unchanged, bit for bit.
    pub fn update(&mut self, time: u64)
        requires
            old(self).wf(),
        ensures
            final(self).wf(),
            final(self)@ == spec_step(old(self)@, time),
            old(self)@.len() == 1 && at_rest(old(self)@[0], time) ==> final(self)@ == old(
                self,
            )@,
    {
        let ghost old_views: Seq<ParticleView> = self@;
        let ghost snap_views: Seq<ParticleView> = views(self.particles1@);
        let ghost resting: bool = old_views.len() == 1 && at_rest(old_views[0], time);
        let n = self.particles0.len();
        proof {
            assert(old_views.len() == n);
            assert(snap_views.len() == n);
        }

        // Phase 1: force accumulation. Reads only the snapshot buffer,
        // writes only the working buffer's accumulators.
        let mut i: usize = 0;
        while i < n
            invariant
                old(self).wf(),
                i <= n,
                n == self.particles0.len(),
                n == old_views.len(),
                n == snap_views.len(),
                self.particles1@ == old(self).particles1@,
                old_views == views(old(self).particles0@),
                snap_views == views(old(self).particles1@),
                resting == (old_views.len() == 1 && at_rest(old_views[0], time)),
                forall|k: int|
                    i <= k < n ==> #[trigger] self.particles0@[k]@ == old_views[k],
                forall|k: int|
                    0 <= k < i ==> #[trigger] self.particles0@[k]@ == force_pass(
                        old_views[k],
                        snap_views,
                    ),
                resting ==> forall|k: int|
                    0 <= k < i ==> #[trigger] self.particles0@[k]@ == old_views[k],
            decreases n - i,
        {
            let mut j: usize = 0;
            while j < n
                invariant
                    old(self).wf(),
                    i < n,
                    j <= n,
                    n == self.particles0.len(),
                    n == old_views.len(),
                    n == snap_views.len(),
                    self.particles1@ == old(self).particles1@,
                    old_views == views(old(self).particles0@),
                    snap_views == views(old(self).particles1@),
                    resting == (old_views.len() == 1 && at_rest(old_views[0], time)),
                    forall|k: int|
                        i < k < n ==> #[trigger] self.particles0@[k]@ == old_views[k],
                    forall|k: int|
                        0 <= k < i ==> #[trigger] self.particles0@[k]@ == force_pass(
                            old_views[k],
                            snap_views,
                        ),
                    resting ==> forall|k: int|
                        0 <= k < i ==> #[trigger] self.particles0@[k]@ == old_views[k],
                    self.particles0@[i as int]@ == force_pass(
                        old_views[i as int],
                        snap_views.take(j as int),
                    ),
                    resting ==> self.particles0@[i as int]@ == old_views[i as int],
                decreases n - j,
            {
                proof {
                    assert(snap_views[j as int] == views(self.particles1@)[j as int]);
                    assert(snap_views[j as int] == self.particles1@[j as int]@);
                    assert(same_body(snap_views[j as int], old_views[j as int]));
                    assert(snap_views.take(j as int).push(snap_views[j as int]) =~= snap_views.take(
                        j as int + 1,
                    ));
                    lemma_force_pass_push(
                        old_views[i as int],
                        snap_views.take(j as int),
                        snap_views[j as int],
                    );
                }
                self.particles0[i].add_particle_force(&self.particles1[j]);
                j += 1;
            }
            proof {
                assert(snap_views.take(n as int) =~= snap_views);
                if resting {
                    assert(self.particles0@[i as int]@ == old_views[i as int]);
                }
            }
            i += 1;
        }

        // Phase 2: integration, then resynchronization of the snapshot.
        let mut i: usize = 0;
        while i < n
            invariant
                old(self).wf(),
                i <= n,
                n == self.particles0.len(),
                n == self.particles1.len(),
                n == old_views.len(),
                n == snap_views.len(),
                old_views == views(old(self).particles0@),
                snap_views == views(old(self).particles1@),
                resting == (old_views.len() == 1 && at_rest(old_views[0], time)),
                forall|k: int|
                    i <= k < n ==> #[trigger] self.particles0@[k]@ == force_pass(
                        old_views[k],
                        snap_views,
                    ),
                forall|k: int|
                    i <= k < n ==> #[trigger] self.particles1@[k]@ == snap_views[k],
                forall|k: int|
                    0 <= k < i ==> #[trigger] self.particles0@[k]@ == spec_integrate(
                        force_pass(old_views[k], snap_views),
                        time,
                    ),
                forall|k: int|
                    0 <= k < i ==> same_body(
                        #[trigger] self.particles1@[k]@,
                        self.particles0@[k]@,
                    ),
                resting ==> forall|k: int|
                    0 <= k < n ==> #[trigger] self.particles0@[k]@ == old_views[k],
                resting ==> forall|k: int|
                    0 <= k < i ==> #[trigger] self.particles1@[k]@ == snap_views[k],
            decreases n - i,
        {
            proof {
                assert(self.particles0@[i as int]@ == force_pass(
                    old_views[i as int],
                    snap_views,
                ));
                lemma_force_pass_kinematics(old_views[i as int], snap_views);
                assert(same_body(snap_views[i as int], old_views[i as int]));
                if resting {
                    assert(self.particles0@[i as int]@ == old_views[i as int]);
                    assert(at_rest(old_views[0], time));
                }
            }
            self.particles0[i].update(time);
            self.particles1[i].set_equal(&self.particles0[i]);
            i += 1;
        }

        proof {
            assert forall|k: int| 0 <= k < n implies #[trigger] spec_step(old_views, time)[k]
                == self.particles0@[k]@ by {
                lemma_force_pass_same(old_views[k], snap_views, old_views);
            }
            assert(self@ =~= spec_step(old_views, time));
            if resting {
                assert(self@ =~= old_views);
            }
        }
    }
}

} // verus!
