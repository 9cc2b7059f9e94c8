use vstd::prelude::*;
use crate::integrand::{Integrand, defined_on};
use crate::region::{EstimateError, Region, lemma_product_bound};

verus! {

/// The curves that can be integrated.
#[derive(Clone, Copy, Debug, PartialEq, Eq, Structural)]
pub enum Curve {
    /// `f(t) = t^2`
    Square,
    /// `f(t) = sqrt(1 - t^2)`, which has a value only for `-1 <= t <= 1`
    QuarterCircle,
    /// `f(t) = t^2 + 1`
    SquarePlusOne,
}

impl Integrand for Curve {
    /// The curve has a value at the real abscissa `x / scale`.
    open spec fn defined_at(&self, scale: int, x: int) -> bool {
        match *self {
            Curve::QuarterCircle => x * x <= scale * scale,
            _ => true,
        }
    }

    /// The real point `(x / scale, y / scale)` lies on or under the curve:
    /// `y / scale <= f(x / scale)`, cleared of its denominators (and, for the
    /// quarter circle, of its square root). Meaningful where `scale > 0` and the
    /// curve is defined at `x`.
    open spec fn under(&self, scale: int, x: int, y: int) -> bool {
        match *self {
            Curve::Square => y * scale <= x * x,
            Curve::QuarterCircle => y < 0 || y * y + x * x <= scale * scale,
            Curve::SquarePlusOne => y * scale <= x * x + scale * scale,
        }
    }

    /// Decides whether a grid point lies on or under the curve. A point exactly
    /// on the curve is under it.
    fn accepts(&self, scale: i32, x: i32, y: i32) -> (r: Result<bool, EstimateError>) {
        proof {
            lemma_product_bound(x as int, x as int);
            lemma_product_bound(y as int, y as int);
            lemma_product_bound(scale as int, scale as int);
            lemma_product_bound(y as int, scale as int);
        }
        let xx: i128 = (x as i128) * (x as i128);
        let ss: i128 = (scale as i128) * (scale as i128);
        match *self {
            Curve::Square => Ok((y as i128) * (scale as i128) <= xx),
            Curve::QuarterCircle => {
                if xx > ss {
                    Err(EstimateError::NumericDomain)
                } else {
                    Ok(y < 0 || (y as i128) * (y as i128) + xx <= ss)
                }
            },
            Curve::SquarePlusOne => Ok((y as i128) * (scale as i128) <= xx + ss),
        }
    }
}

impl Curve {
    /// The curve that a menu number stands for, if it stands for one.
    pub fn from_choice(choice: i32) -> (r: Option<Curve>)
        ensures
            choice == 1 ==> r == Some(Curve::Square),
            choice == 2 ==> r == Some(Curve::QuarterCircle),
            choice == 3 ==> r == Some(Curve::SquarePlusOne),
            !(1 <= choice <= 3) ==> r.is_none(),
    {
        match choice {
            1 => Some(Curve::Square),
            2 => Some(Curve::QuarterCircle),
            3 => Some(Curve::SquarePlusOne),
            _ => None,
        }
    }

    /// The formula of the curve, as it is shown to a reader.
    pub fn label(self) -> (r: &'static str)
        ensures
            self == Curve::Square ==> r@ == "x^2"@,
            self == Curve::QuarterCircle ==> r@ == "sqrt(1 - x^2)"@,
            self == Curve::SquarePlusOne ==> r@ == "x^2 + 1"@,
    {
        match self {
            Curve::Square => "x^2",
            Curve::QuarterCircle => "sqrt(1 - x^2)",
            Curve::SquarePlusOne => "x^2 + 1",
        }
    }

    /// Width and height, in real units, of the rectangle that goes with the curve.
    pub open spec fn extent(self) -> (int, int) {
        match self {
            Curve::Square => (2, 4),
            Curve::QuarterCircle => (1, 1),
            Curve::SquarePlusOne => (1, 2),
        }
    }

    /// The rectangle that goes with the curve at a given resolution.
    pub open spec fn paired_region(self, scale: int) -> Region {
        Region {
            a: 0,
            b: (self.extent().0 * scale) as i32,
            h: (self.extent().1 * scale) as i32,
            scale: scale as i32,
        }
    }

    /// The sampling rectangle that goes with the curve, `[0, w) x [0, h)` in real
    /// units, at the given resolution. It is refused where the resolution is not
    /// positive or the rectangle's corner has no 32-bit grid coordinate.
    pub fn region(self, scale: i32) -> (r: Result<Region, EstimateError>)
        ensures
            0 < scale && self.extent().1 * scale <= i32::MAX ==> r == Ok::<Region, EstimateError>(
                self.paired_region(scale as int),
            ),
            !(0 < scale && self.extent().1 * scale <= i32::MAX) ==> r == Err::<
                Region,
                EstimateError,
            >(EstimateError::InvalidRegion),
    {
        let (w, h): (i32, i32) = match self {
            Curve::Square => (2, 4),
            Curve::QuarterCircle => (1, 1),
            Curve::SquarePlusOne => (1, 2),
        };
        if scale <= 0 || scale > i32::MAX / h {
            return Err(EstimateError::InvalidRegion);
        }
        Ok(Region { a: 0, b: w * scale, h: h * scale, scale })
    }
}

/// With its own rectangle a curve is defined at every abscissa that can be
/// sampled, and no point above the rectangle's top edge lies under it: the
/// rectangle bounds the graph.
pub proof fn lemma_paired_region_bounds_curve(curve: Curve, scale: int)
    requires
        0 < scale,
        curve.extent().1 * scale <= i32::MAX,
    ensures
        curve.paired_region(scale).valid(),
        defined_on(curve, curve.paired_region(scale)),
        forall|x: int, y: int|
            {
                &&& curve.paired_region(scale).a <= x < curve.paired_region(scale).b
                &&& y > curve.paired_region(scale).h
            } ==> !#[trigger] curve.under(scale, x, y),
{
    let region = curve.paired_region(scale);
    let w = curve.extent().0;
    let h = curve.extent().1;
    assert(0 < scale <= w * scale <= h * scale) by (nonlinear_arith)
        requires
            0 < scale,
            1 <= w <= h,
    ;
    assert(region.b == w * scale && region.h == h * scale && region.scale == scale);
    assert forall|x: int| 0 <= x < w * scale implies #[trigger] curve.defined_at(scale, x) by {
        assert(x * x <= (w * scale) * (w * scale)) by (nonlinear_arith)
            requires
                0 <= x < w * scale,
        ;
        assert(w == 1 ==> (w * scale) * (w * scale) == scale * scale) by (nonlinear_arith);
    }
    assert forall|x: int, y: int| 0 <= x < w * scale && y > h * scale implies !#[trigger] curve.under(
        scale,
        x,
        y,
    ) by {
        assert(x * x < (w * scale) * (w * scale)) by (nonlinear_arith)
            requires
                0 <= x < w * scale,
                0 < scale,
                w >= 1,
        ;
        assert(y * scale > (h * scale) * scale) by (nonlinear_arith)
            requires
                y > h * scale,
                0 < scale,
        ;
        assert(y * y > scale * scale) by (nonlinear_arith)
            requires
                y > h * scale,
                h >= 1,
                0 < scale,
        ;
        assert(w == 2 ==> (w * scale) * (w * scale) == 4 * (scale * scale)) by (nonlinear_arith);
        assert(w == 1 ==> (w * scale) * (w * scale) == scale * scale) by (nonlinear_arith);
        assert(h == 4 ==> (h * scale) * scale == 4 * (scale * scale)) by (nonlinear_arith);
        assert(h == 2 ==> (h * scale) * scale == 2 * (scale * scale)) by (nonlinear_arith);
        assert(h == 1 ==> (h * scale) * scale == scale * scale) by (nonlinear_arith);
        assert(0 <= x * x) by (nonlinear_arith);
    }
}

} // verus!
