use vstd::prelude::*;

verus! {

/// Why an estimate could not be produced.
#[derive(Clone, Copy, Debug, PartialEq, Eq, Structural)]
pub enum EstimateError {
    /// The sampling rectangle is empty or has no positive resolution.
    InvalidRegion,
    /// The curve has no value at a sampled abscissa.
    NumericDomain,
}

/// A sampled point, in grid coordinates.
#[derive(Clone, Copy, Debug, PartialEq, Eq, Structural)]
pub struct Point {
    pub x: i32,
    pub y: i32,
}

/// The sampling rectangle `[a, b) x [0, h)` in grid coordinates, where one unit
/// of the real line is divided into `scale` grid steps.
#[derive(Clone, Copy, Debug, PartialEq, Eq, Structural)]
pub struct Region {
    pub a: i32,
    pub b: i32,
    pub h: i32,
    pub scale: i32,
}

/// An exact non-negative rational number `num / den`.
#[derive(Clone, Copy, Debug, PartialEq, Eq, Structural)]
pub struct Fraction {
    pub num: u128,
    pub den: u128,
}

impl Region {
    /// A region can be sampled when it is non-empty in both directions and its
    /// resolution is positive.
    pub open spec fn valid(&self) -> bool {
        self.a < self.b && self.h > 0 && self.scale > 0
    }

    /// The point lies in `[a, b) x [0, h)`.
    pub open spec fn contains(&self, p: Point) -> bool {
        self.a <= p.x < self.b && 0 <= p.y < self.h
    }

    /// Area of the rectangle, in squared grid steps.
    pub open spec fn area(&self) -> int {
        (self.b - self.a) * self.h
    }

    /// Builds a region, refusing one that cannot be sampled.
    pub fn new(a: i32, b: i32, h: i32, scale: i32) -> (r: Result<Region, EstimateError>)
        ensures
            a < b && h > 0 && scale > 0 ==> r == Ok::<Region, EstimateError>(
                (Region { a, b, h, scale }),
            ),
            !(a < b && h > 0 && scale > 0) ==> r == Err::<Region, EstimateError>(
                EstimateError::InvalidRegion,
            ),
    {
        if a < b && h > 0 && scale > 0 {
            Ok(Region { a, b, h, scale })
        } else {
            Err(EstimateError::InvalidRegion)
        }
    }

    /// Tells whether the region can be sampled.
    pub fn is_valid(&self) -> (r: bool)
        ensures
            r == self.valid(),
    {
        self.a < self.b && self.h > 0 && self.scale > 0
    }
}

/// The estimate that `hits` accepted points out of `trials` give for `region`:
/// the acceptance ratio times the real area of the rectangle, as the pair
/// (numerator, denominator). With no trials the estimate is zero.
pub open spec fn estimate_of(hits: int, trials: int, region: Region) -> (int, int) {
    if trials == 0 {
        (0, 1)
    } else {
        (hits * region.area(), trials * (region.scale * region.scale))
    }
}

/// An estimate is a well-formed fraction that is never negative and never more
/// than the real area of the rectangle, `area / scale^2`.
pub proof fn lemma_estimate_within_rectangle(hits: int, trials: int, region: Region)
    requires
        region.valid(),
        0 <= hits <= trials,
    ensures
        0 <= estimate_of(hits, trials, region).0,
        0 < estimate_of(hits, trials, region).1,
        estimate_of(hits, trials, region).0 * (region.scale * region.scale) <= region.area()
            * estimate_of(hits, trials, region).1,
{
    let area = region.area();
    let unit = region.scale * region.scale;
    assert(0 < area) by (nonlinear_arith)
        requires
            area == (region.b - region.a) * region.h,
            region.a < region.b,
            region.h > 0,
    ;
    assert(0 < unit) by (nonlinear_arith)
        requires
            unit == region.scale * region.scale,
            region.scale > 0,
    ;
    if trials != 0 {
        assert(0 <= hits * area && 0 < trials * unit && (hits * area) * unit <= area * (trials
            * unit)) by (nonlinear_arith)
            requires
                0 <= hits <= trials,
                trials != 0,
                0 < area,
                0 < unit,
        ;
    }
}

/// Products of grid coordinates stay far inside 128-bit arithmetic.
pub proof fn lemma_product_bound(u: int, v: int)
    requires
        -0x8000_0000 <= u <= 0x1_0000_0000,
        -0x8000_0000 <= v <= 0x1_0000_0000,
    ensures
        -0x8000_0000_0000_0000 <= u * v <= 0x1_0000_0000_0000_0000,
{
    assert(-0x8000_0000_0000_0000 <= u * v <= 0x1_0000_0000_0000_0000) by (nonlinear_arith)
        requires
            -0x8000_0000 <= u <= 0x1_0000_0000,
            -0x8000_0000 <= v <= 0x1_0000_0000,
    ;
}

impl Fraction {
    /// Computes the estimate for `hits` accepted points out of `trials`.
    pub fn estimate(hits: usize, trials: usize, region: &Region) -> (r: Fraction)
        requires
            region.valid(),
        ensures
            (r.num as int, r.den as int) == estimate_of(hits as int, trials as int, *region),
            r.den > 0,
    {
        if trials == 0 {
            return Fraction { num: 0, den: 1 };
        }
        let width: u128 = (region.b as i64 - region.a as i64) as u128;
        let height: u128 = region.h as u128;
        let scale: u128 = region.scale as u128;
        proof {
            lemma_product_bound(width as int, height as int);
            lemma_product_bound(scale as int, scale as int);
            assert(0 < scale * scale) by (nonlinear_arith)
                requires
                    0 < scale,
            ;
            assert(0 <= width * height) by (nonlinear_arith)
                requires
                    0 < width,
                    0 < height,
            ;
            assert(hits * (width * height) <= 0xffff_ffff_ffff_ffff * 0x1_0000_0000_0000_0000)
                by (nonlinear_arith)
                requires
                    0 <= hits <= 0xffff_ffff_ffff_ffff,
                    0 <= width * height <= 0x1_0000_0000_0000_0000,
            ;
            assert(0 < trials * (scale * scale) <= 0xffff_ffff_ffff_ffff
                * 0x1_0000_0000_0000_0000) by (nonlinear_arith)
                requires
                    0 < trials <= 0xffff_ffff_ffff_ffff,
                    0 < scale * scale <= 0x1_0000_0000_0000_0000,
            ;
        }
        let area: u128 = width * height;
        let unit: u128 = scale * scale;
        Fraction { num: (hits as u128) * area, den: (trials as u128) * unit }
    }
}

} // verus!
