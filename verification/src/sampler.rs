use vstd::prelude::*;
use rand::rngs::StdRng;
use crate::integrand::{Integrand, defined_on};
use crate::region::{EstimateError, Fraction, Point, Region, estimate_of};
use crate::source::draw;

verus! {

/// What a run hands back: the sampled points that lie on or under the curve, the
/// ones that lie above it, each in the order in which they were drawn, and the
/// estimate of the area under the curve in real units.
#[derive(Clone, Debug, PartialEq, Eq)]
pub struct Estimate {
    pub accepted: Vec<Point>,
    pub rejected: Vec<Point>,
    pub estimate: Fraction,
}

/// The points of `draws` that lie on or under the curve, in their order.
pub open spec fn accepted_of<F: Integrand>(curve: F, scale: int, draws: Seq<Point>) -> Seq<Point> {
    draws.filter(|p: Point| curve.under(scale, p.x as int, p.y as int))
}

/// The points of `draws` that lie above the curve, in their order.
pub open spec fn rejected_of<F: Integrand>(curve: F, scale: int, draws: Seq<Point>) -> Seq<Point> {
    draws.filter(|p: Point| !curve.under(scale, p.x as int, p.y as int))
}

/// The curve has a value at the abscissa of every point of `draws`.
pub open spec fn all_defined<F: Integrand>(curve: F, scale: int, draws: Seq<Point>) -> bool {
    forall|i: int| 0 <= i < draws.len() ==> curve.defined_at(scale, #[trigger] draws[i].x as int)
}

/// Every point of `draws` lies in the region.
pub open spec fn sampled_from(region: Region, draws: Seq<Point>) -> bool {
    forall|i: int| 0 <= i < draws.len() ==> region.contains(#[trigger] draws[i])
}

impl Estimate {
    /// This is the result of classifying exactly the points `draws`, in that
    /// order, against `curve` in `region`.
    pub open spec fn tallies<F: Integrand>(&self, curve: F, region: Region, draws: Seq<Point>) -> bool {
        &&& self.accepted@ == accepted_of(curve, region.scale as int, draws)
        &&& self.rejected@ == rejected_of(curve, region.scale as int, draws)
        &&& (self.estimate.num as int, self.estimate.den as int) == estimate_of(
            self.accepted@.len() as int,
            draws.len() as int,
            region,
        )
    }
}

/// Classifying one more point appends it to exactly one of the two sequences.
pub proof fn lemma_classify_push<F: Integrand>(curve: F, scale: int, draws: Seq<Point>, p: Point)
    ensures
        curve.under(scale, p.x as int, p.y as int) ==> {
            &&& accepted_of(curve, scale, draws.push(p)) == accepted_of(curve, scale, draws).push(p)
            &&& rejected_of(curve, scale, draws.push(p)) == rejected_of(curve, scale, draws)
        },
        !curve.under(scale, p.x as int, p.y as int) ==> {
            &&& accepted_of(curve, scale, draws.push(p)) == accepted_of(curve, scale, draws)
            &&& rejected_of(curve, scale, draws.push(p)) == rejected_of(curve, scale, draws).push(p)
        },
{
    reveal(Seq::filter);
    assert(draws.push(p).drop_last() =~= draws);
}

/// The two sequences partition the draws: together they hold as many points as
/// were drawn.
pub proof fn lemma_partition_counts<F: Integrand>(curve: F, scale: int, draws: Seq<Point>)
    ensures
        accepted_of(curve, scale, draws).len() + rejected_of(curve, scale, draws).len()
            == draws.len(),
    decreases draws.len(),
{
    reveal(Seq::filter);
    if draws.len() > 0 {
        lemma_partition_counts(curve, scale, draws.drop_last());
        lemma_classify_push(curve, scale, draws.drop_last(), draws.last());
        assert(draws.drop_last().push(draws.last()) =~= draws);
    }
}

/// The same draws give the same result: two results that classify one sequence
/// of points against one curve in one region agree in both point sequences and
/// in the estimate.
pub proof fn lemma_same_draws_same_result<F: Integrand>(
    first: Estimate,
    second: Estimate,
    curve: F,
    region: Region,
    draws: Seq<Point>,
)
    requires
        first.tallies(curve, region, draws),
        second.tallies(curve, region, draws),
    ensures
        first.accepted@ == second.accepted@,
        first.rejected@ == second.rejected@,
        first.estimate == second.estimate,
{
}

/// With no draws both sequences are empty and the estimate is exactly zero.
pub proof fn lemma_no_draws<F: Integrand>(result: Estimate, curve: F, region: Region)
    requires
        result.tallies(curve, region, Seq::<Point>::empty()),
    ensures
        result.accepted@.len() == 0,
        result.rejected@.len() == 0,
        result.estimate == (Fraction { num: 0, den: 1 }),
{
    lemma_partition_counts(curve, region.scale as int, Seq::<Point>::empty());
}

/// Classifies one point and appends it to the sequence it belongs to. Where the
/// curve has no value at the point's abscissa, nothing is appended.
fn record<F: Integrand>(
    curve: &F,
    region: &Region,
    p: Point,
    accepted: &mut Vec<Point>,
    rejected: &mut Vec<Point>,
) -> (r: Result<(), EstimateError>)
    ensures
        !curve.defined_at(region.scale as int, p.x as int) ==> {
            &&& r == Err::<(), EstimateError>(EstimateError::NumericDomain)
            &&& final(accepted)@ == old(accepted)@
            &&& final(rejected)@ == old(rejected)@
        },
        curve.defined_at(region.scale as int, p.x as int) ==> r == Ok::<(), EstimateError>(()),
        curve.defined_at(region.scale as int, p.x as int) && curve.under(
            region.scale as int,
            p.x as int,
            p.y as int,
        ) ==> final(accepted)@ == old(accepted)@.push(p) && final(rejected)@ == old(rejected)@,
        curve.defined_at(region.scale as int, p.x as int) && !curve.under(
            region.scale as int,
            p.x as int,
            p.y as int,
        ) ==> final(accepted)@ == old(accepted)@ && final(rejected)@ == old(rejected)@.push(p),
{
    match curve.accepts(region.scale, p.x, p.y) {
        Err(e) => Err(e),
        Ok(true) => {
            accepted.push(p);
            Ok(())
        },
        Ok(false) => {
            rejected.push(p);
            Ok(())
        },
    }
}

/// Classifies the given points, in order, against `curve` in `region`, and
/// computes the estimate from the acceptance ratio.
///
/// The region is checked first. Then the first point at whose abscissa the curve
/// has no value ends the run with a numeric-domain error.
pub fn classify_points<F: Integrand>(curve: &F, region: &Region, draws: &Vec<Point>) -> (r: Result<
    Estimate,
    EstimateError,
>)
    ensures
        !region.valid() <==> r == Err::<Estimate, EstimateError>(EstimateError::InvalidRegion),
        region.valid() && !all_defined(*curve, region.scale as int, draws@) <==> r == Err::<
            Estimate,
            EstimateError,
        >(EstimateError::NumericDomain),
        region.valid() && all_defined(*curve, region.scale as int, draws@) <==> r is Ok,
        r is Ok ==> r->Ok_0.tallies(*curve, *region, draws@) && r->Ok_0.estimate.den > 0,
{
    if !region.is_valid() {
        return Err(EstimateError::InvalidRegion);
    }
    let ghost scale = region.scale as int;
    let mut accepted: Vec<Point> = Vec::new();
    let mut rejected: Vec<Point> = Vec::new();
    let mut i: usize = 0;
    proof {
        reveal(Seq::filter);
        assert(draws@.take(0) =~= Seq::<Point>::empty());
    }
    while i < draws.len()
        invariant
            0 <= i <= draws.len(),
            region.valid(),
            scale == region.scale as int,
            accepted@ == accepted_of(*curve, scale, draws@.take(i as int)),
            rejected@ == rejected_of(*curve, scale, draws@.take(i as int)),
            all_defined(*curve, scale, draws@.take(i as int)),
        decreases draws.len() - i,
    {
        let p = draws[i];
        proof {
            lemma_classify_push(*curve, scale, draws@.take(i as int), p);
            assert(draws@.take(i as int).push(p) =~= draws@.take(i + 1));
        }
        match record(curve, region, p, &mut accepted, &mut rejected) {
            Err(e) => {
                assert(!curve.defined_at(scale, draws@[i as int].x as int));
                return Err(e);
            },
            Ok(()) => {},
        }
        i = i + 1;
    }
    proof {
        assert(draws@.take(i as int) =~= draws@);
    }
    let estimate = Fraction::estimate(accepted.len(), draws.len(), region);
    Ok(Estimate { accepted, rejected, estimate })
}

/// Draws one point of the region: first its abscissa from `[a, b)`, then its
/// ordinate from `[0, h)`, each by a draw of its own.
pub fn draw_point(rng: &mut StdRng, region: &Region) -> (p: Point)
    requires
        region.valid(),
    ensures
        region.contains(p),
{
    let x: i32 = draw(rng, region.a, region.b);
    let y: i32 = draw(rng, 0, region.h);
    Point { x, y }
}

/// Estimates the area under `curve` over `region` from `n` points drawn from
/// `rng`.
///
/// Each point is drawn and classified in turn: it is accepted where it lies on or
/// under the curve and rejected where it lies above. The estimate is the share of
/// accepted points times the area of the region; with `n == 0` it is zero. An
/// unusable region is refused before anything is drawn. A draw at whose abscissa
/// the curve has no value ends the run with a numeric-domain error, which cannot
/// happen where the curve is defined on the whole region. Where nothing is drawn
/// the generator is left as it was.
pub fn estimate_integral<F: Integrand>(curve: &F, region: &Region, n: usize, rng: &mut StdRng) -> (r: Result<
    Estimate,
    EstimateError,
>)
    ensures
        !region.valid() <==> r == Err::<Estimate, EstimateError>(EstimateError::InvalidRegion),
        region.valid() && (n == 0 || defined_on(*curve, *region)) ==> r is Ok,
        r == Err::<Estimate, EstimateError>(EstimateError::NumericDomain) ==> region.valid() && n
            > 0 && !defined_on(*curve, *region),
        !region.valid() || n == 0 ==> *final(rng) == *old(rng),
        r is Ok ==> {
            let e = r->Ok_0;
            &&& e.accepted@.len() + e.rejected@.len() == n
            &&& forall|i: int|
                0 <= i < e.accepted@.len() ==> {
                    &&& region.contains(#[trigger] e.accepted@[i])
                    &&& curve.under(
                        region.scale as int,
                        e.accepted@[i].x as int,
                        e.accepted@[i].y as int,
                    )
                }
            &&& forall|i: int|
                0 <= i < e.rejected@.len() ==> {
                    &&& region.contains(#[trigger] e.rejected@[i])
                    &&& !curve.under(
                        region.scale as int,
                        e.rejected@[i].x as int,
                        e.rejected@[i].y as int,
                    )
                }
            &&& (e.estimate.num as int, e.estimate.den as int) == estimate_of(
                e.accepted@.len() as int,
                n as int,
                *region,
            )
            &&& e.estimate.den > 0
            &&& exists|draws: Seq<Point>|
                {
                    &&& draws.len() == n
                    &&& sampled_from(*region, draws)
                    &&& all_defined(*curve, region.scale as int, draws)
                    &&& #[trigger] e.tallies(*curve, *region, draws)
                }
        },
{
    if !region.is_valid() {
        return Err(EstimateError::InvalidRegion);
    }
    let ghost scale = region.scale as int;
    let ghost mut draws: Seq<Point> = Seq::empty();
    let mut accepted: Vec<Point> = Vec::new();
    let mut rejected: Vec<Point> = Vec::new();
    let mut i: usize = 0;
    proof {
        reveal(Seq::filter);
    }
    while i < n
        invariant
            0 <= i <= n,
            region.valid(),
            scale == region.scale as int,
            draws.len() == i,
            i == 0 ==> *rng == *old(rng),
            sampled_from(*region, draws),
            all_defined(*curve, scale, draws),
            accepted@ == accepted_of(*curve, scale, draws),
            rejected@ == rejected_of(*curve, scale, draws),
            accepted@.len() + rejected@.len() == i,
            forall|k: int|
                0 <= k < accepted@.len() ==> {
                    &&& region.contains(#[trigger] accepted@[k])
                    &&& curve.under(scale, accepted@[k].x as int, accepted@[k].y as int)
                },
            forall|k: int|
                0 <= k < rejected@.len() ==> {
                    &&& region.contains(#[trigger] rejected@[k])
                    &&& !curve.under(scale, rejected@[k].x as int, rejected@[k].y as int)
                },
        decreases n - i,
    {
        let p = draw_point(rng, region);
        proof {
            lemma_classify_push(*curve, scale, draws, p);
        }
        match record(curve, region, p, &mut accepted, &mut rejected) {
            Err(e) => {
                return Err(e);
            },
            Ok(()) => {},
        }
        proof {
            draws = draws.push(p);
        }
        i = i + 1;
    }
    let estimate = Fraction::estimate(accepted.len(), n, region);
    let result = Estimate { accepted, rejected, estimate };
    assert(result.tallies(*curve, *region, draws));
    Ok(result)
}

} // verus!
