use vstd::prelude::*;

use crate::geometry::Point;
use crate::resample::{lemma_prefix_sum_mono, prefix_sum, resample, select_index, total_weight};
use crate::rng;

verus! {

/// Rectangular world bound, in the same fixed-point units as `Point`.
#[derive(Clone, Copy, Debug, PartialEq, Eq, Structural)]
pub struct WorldMap {
    pub width: i64,
    pub height: i64,
}

impl WorldMap {
    /// A world bound is well formed when its extent is non-negative.
    pub open spec fn wf(self) -> bool {
        0 <= self.width && 0 <= self.height
    }
}

/// A particle's believed location. Orientation is deliberately unmodeled.
#[derive(Clone, Copy, Debug, PartialEq, Eq, Structural)]
pub struct Pose {
    pub location: Point,
}

/// A reported per-tick velocity, with one noise standard deviation applied
/// identically to both axes (all in fixed-point units).
#[derive(Clone, Copy, Debug, PartialEq, Eq, Structural)]
pub struct OdometryMeasurement {
    pub vx: i64,
    pub vy: i64,
    pub sigma: i64,
}

/// Returned by `update` when every particle scored a zero likelihood: the
/// measurement is rejected and the filter keeps its previous state.
#[derive(Clone, Copy, Debug, PartialEq, Eq, Structural)]
pub struct DegenerateMeasurement;

/// Every motion step applied to `pre` stays within the machine range of a
/// coordinate, including the intermediate sum before the noise residual.
pub open spec fn motion_in_range(
    pre: Seq<Pose>,
    odom: OdometryMeasurement,
    noise: Seq<(i64, i64)>,
) -> bool {
    forall|k: int|
        0 <= k < pre.len() ==> {
            let p = (#[trigger] pre[k]).location;
            &&& i64::MIN <= p.x + odom.vx <= i64::MAX
            &&& i64::MIN <= p.x + odom.vx + noise[k].0 <= i64::MAX
            &&& i64::MIN <= p.y + odom.vy <= i64::MAX
            &&& i64::MIN <= p.y + odom.vy + noise[k].1 <= i64::MAX
        }
}

/// `post` is `pre` with every particle translated by the commanded velocity
/// plus its own noise residual.
pub open spec fn motion_applied(
    pre: Seq<Pose>,
    post: Seq<Pose>,
    odom: OdometryMeasurement,
    noise: Seq<(i64, i64)>,
) -> bool {
    &&& post.len() == pre.len()
    &&& forall|k: int|
        0 <= k < pre.len() ==> {
            &&& (#[trigger] post[k]).location.x == pre[k].location.x + odom.vx + noise[k].0
            &&& post[k].location.y == pre[k].location.y + odom.vy + noise[k].1
        }
}

/// The first index of the maximum value among the first `k` entries of `s`.
pub open spec fn argmax_upto(s: Seq<u64>, k: int) -> int
    decreases k,
{
    if k <= 1 {
        0
    } else if s[k - 1] > s[argmax_upto(s, k - 1)] {
        k - 1
    } else {
        argmax_upto(s, k - 1)
    }
}

/// The index of the first occurrence of the maximum value of `s`.
pub open spec fn argmax_first(s: Seq<u64>) -> int {
    argmax_upto(s, s.len() as int)
}

/// `argmax_upto` is a valid index, no entry before `k` exceeds its value,
/// and every strictly earlier entry is strictly below it (first occurrence).
pub proof fn lemma_argmax_upto_props(s: Seq<u64>, k: int)
    requires
        1 <= k <= s.len(),
    ensures
        0 <= argmax_upto(s, k) < k,
        forall|m: int| 0 <= m < k ==> #[trigger] s[m] <= s[argmax_upto(s, k)],
        forall|m: int| 0 <= m < argmax_upto(s, k) ==> #[trigger] s[m] < s[argmax_upto(s, k)],
    decreases k,
{
    if k > 1 {
        lemma_argmax_upto_props(s, k - 1);
    }
}

/// A sequential Monte Carlo estimator of a 2D position: a fixed-size
/// population of candidate poses, advanced by noisy motion and re-weighted
/// by measurement likelihood.
pub struct LocalizationParticleFilter {
    particles: Vec<Pose>,
    map: WorldMap,
    pose_estimate: Option<Pose>,
}

impl LocalizationParticleFilter {
    /// The current particle population, in order; its length is fixed at
    /// construction and kept by every later step.
    pub closed spec fn spec_particles(self) -> Seq<Pose> {
        self.particles@
    }

    /// Read-only access to the current particle population, for rendering.
    pub fn particles(&self) -> (population: &Vec<Pose>)
        ensures
            population@ == self.spec_particles(),
    {
        &self.particles
    }

    /// The filter's own copy of the world bound, fixed at construction.
    pub closed spec fn spec_map(self) -> WorldMap {
        self.map
    }

    /// The current pose estimate: absent until the first `update`.
    pub closed spec fn spec_pose_estimate(self) -> Option<Pose> {
        self.pose_estimate
    }

    /// Draws `num_particles` initial particles, each coordinate uniform over
    /// the world bound; the pose estimate starts absent, and the filter keeps
    /// its own copy of the bound.
    pub fn new(num_particles: usize, map: &WorldMap) -> (filter: Self)
        requires
            map.wf(),
        ensures
            filter.spec_particles().len() == num_particles,
            forall|k: int|
                0 <= k < num_particles ==> {
                    let p = (#[trigger] filter.spec_particles()[k]).location;
                    0 <= p.x <= map.width && 0 <= p.y <= map.height
                },
            filter.spec_pose_estimate() is None,
            filter.spec_map() == *map,
    {
        let mut generator = rng::new_generator();
        let mut particles: Vec<Pose> = Vec::new();
        let mut k: usize = 0;
        while k < num_particles
            invariant
                map.wf(),
                k <= num_particles,
                particles@.len() == k,
                forall|m: int|
                    0 <= m < k ==> {
                        let p = (#[trigger] particles@[m]).location;
                        0 <= p.x <= map.width && 0 <= p.y <= map.height
                    },
            decreases num_particles - k,
        {
            let x: i64 = rng::uniform_coordinate(&mut generator, map.width);
            let y: i64 = rng::uniform_coordinate(&mut generator, map.height);
            particles.push(Pose { location: Point { x, y } });
            k = k + 1;
        }
        LocalizationParticleFilter { particles, map: *map, pose_estimate: None }
    }

    /// Motion update: translates every particle by the commanded velocity
    /// plus that particle's own zero-mean noise residual, drawn by the caller
    /// from a Gaussian of standard deviation `odom.sigma` (fresh per particle
    /// and per axis). The pose estimate, the bound and the population size
    /// are untouched.
    pub fn predict(&mut self, odom: &OdometryMeasurement, noise: &Vec<(i64, i64)>)
        requires
            odom.sigma >= 0,
            noise@.len() == old(self).spec_particles().len(),
            motion_in_range(old(self).spec_particles(), *odom, noise@),
        ensures
            motion_applied(old(self).spec_particles(), final(self).spec_particles(), *odom, noise@),
            final(self).spec_pose_estimate() == old(self).spec_pose_estimate(),
            final(self).spec_map() == old(self).spec_map(),
    {
        let n: usize = self.particles.len();
        let mut moved: Vec<Pose> = Vec::new();
        let mut k: usize = 0;
        while k < n
            invariant
                n == self.particles@.len(),
                n == noise@.len(),
                *self == *old(self),
                k <= n,
                moved@.len() == k,
                motion_in_range(self.particles@, *odom, noise@),
                forall|j: int|
                    0 <= j < k ==> {
                        &&& (#[trigger] moved@[j]).location.x == self.particles@[j].location.x
                            + odom.vx + noise@[j].0
                        &&& moved@[j].location.y == self.particles@[j].location.y + odom.vy
                            + noise@[j].1
                    },
            decreases n - k,
        {
            let p: Pose = self.particles[k];
            let stepped: Point = p.location.translate(odom.vx, odom.vy);
            let jittered: Point = stepped.translate(noise[k].0, noise[k].1);
            moved.push(Pose { location: jittered });
            k = k + 1;
        }
        self.particles = moved;
    }

    /// Measurement update. The caller scores every particle against the
    /// measurement (`likelihoods`, in fixed-point mass units, one per
    /// particle, in order) and supplies the sorted sample positions for
    /// resampling, each below the total mass. On success the pose estimate
    /// becomes the first highest-likelihood particle of the population as it
    /// stood at the start of the call, and the population is replaced by the
    /// resampled one; when every likelihood is zero the measurement is
    /// rejected and the filter is left unchanged.
    pub fn update(&mut self, likelihoods: &Vec<u64>, positions: &Vec<u64>) -> (outcome: Result<
        (),
        DegenerateMeasurement,
    >)
        requires
            likelihoods@.len() == old(self).spec_particles().len(),
            positions@.len() == old(self).spec_particles().len(),
            total_weight(likelihoods@) <= u64::MAX,
            forall|a: int, b: int|
                0 <= a <= b < positions@.len() ==> positions@[a] <= positions@[b],
            total_weight(likelihoods@) > 0 ==> forall|a: int|
                0 <= a < positions@.len() ==> (positions@[a] as int) < total_weight(likelihoods@),
        ensures
            outcome is Err <==> total_weight(likelihoods@) == 0,
            outcome is Err ==> final(self).spec_particles() == old(self).spec_particles(),
            outcome is Err ==> final(self).spec_pose_estimate() == old(self).spec_pose_estimate(),
            final(self).spec_map() == old(self).spec_map(),
            outcome is Ok ==> final(self).spec_particles().len() == old(self).spec_particles().len(),
            outcome is Ok ==> final(self).spec_pose_estimate() == Some(
                old(self).spec_particles()[argmax_first(likelihoods@)],
            ),
            outcome is Ok ==> forall|k: int|
                0 <= k < positions@.len() ==> #[trigger] final(self).spec_particles()[k]
                    == old(self).spec_particles()[select_index(likelihoods@, positions@[k] as int)],
            outcome is Ok ==> exists|m: int|
                0 <= m < old(self).spec_particles().len() && final(self).spec_pose_estimate() == Some(
                    #[trigger] old(self).spec_particles()[m],
                ),
    {
        let n: usize = self.particles.len();
        let mut total: u64 = 0;
        let mut k: usize = 0;
        while k < n
            invariant
                n == likelihoods@.len(),
                total_weight(likelihoods@) <= u64::MAX,
                k <= n,
                total == prefix_sum(likelihoods@, k as int),
            decreases n - k,
        {
            proof {
                lemma_prefix_sum_mono(likelihoods@, k as int + 1, n as int);
            }
            total = total + likelihoods[k];
            k = k + 1;
        }
        if total == 0 {
            return Err(DegenerateMeasurement);
        }
        let mut best: usize = 0;
        let mut m: usize = 1;
        while m < n
            invariant
                n == likelihoods@.len(),
                1 <= m <= n,
                best < m,
                best == argmax_upto(likelihoods@, m as int),
            decreases n - m,
        {
            if likelihoods[m] > likelihoods[best] {
                best = m;
            }
            m = m + 1;
        }
        proof {
            lemma_argmax_upto_props(likelihoods@, likelihoods@.len() as int);
        }
        self.pose_estimate = Some(self.particles[best]);
        let resampled: Vec<Pose> = resample(&self.particles, likelihoods, positions);
        self.particles = resampled;
        Ok(())
    }

    /// The most recently computed pose estimate, or `None` when `update` has
    /// never been called.
    pub fn get_pose_estimate(&self) -> (estimate: Option<Pose>)
        ensures
            estimate == self.spec_pose_estimate(),
    {
        self.pose_estimate
    }
}

/// Deterministic-translation law: when every noise residual is zero (the
/// `sigma == 0` motion case, where a Gaussian sample equals its mean), the
/// motion update recorded by `predict`'s contract moves every particle by
/// exactly the commanded `(vx, vy)`, and the displacement has zero spread
/// across particles.
pub proof fn lemma_predict_deterministic(
    pre: Seq<Pose>,
    post: Seq<Pose>,
    odom: OdometryMeasurement,
    noise: Seq<(i64, i64)>,
)
    requires
        noise.len() == pre.len(),
        forall|k: int| 0 <= k < noise.len() ==> (#[trigger] noise[k]).0 == 0 && noise[k].1 == 0,
        motion_applied(pre, post, odom, noise),
    ensures
        forall|k: int|
            0 <= k < pre.len() ==> {
                &&& (#[trigger] post[k]).location.x == pre[k].location.x + odom.vx
                &&& post[k].location.y == pre[k].location.y + odom.vy
            },
        forall|k: int, j: int|
            0 <= k < pre.len() && 0 <= j < pre.len() ==> {
                &&& (#[trigger] post[k]).location.x - pre[k].location.x == (#[trigger] post[j]).location.x
                    - pre[j].location.x
                &&& post[k].location.y - pre[k].location.y == post[j].location.y - pre[j].location.y
            },
{
}

} // verus!
