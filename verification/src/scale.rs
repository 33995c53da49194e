//! The integer factor by which an image is shrunk to fit the screen, and the
//! window size that follows from it.

use vstd::prelude::*;
use vstd::arithmetic::div_mod::{lemma_fundamental_div_mod, lemma_mod_bound};
use crate::error::ViewError;

verus! {

/// The least width and height, in pixels, that the window is given.
pub const MIN_SIZE: u32 = 300;

/// The fraction of the screen that the window may take on each axis, as
/// `numerator / denominator`.
#[derive(Debug, Clone, Copy, PartialEq, Eq, Structural)]
pub struct Occupancy {
    numerator: u32,
    denominator: u32,
}

impl Occupancy {
    pub closed spec fn numerator(&self) -> nat {
        self.numerator as nat
    }

    pub closed spec fn denominator(&self) -> nat {
        self.denominator as nat
    }

    /// A fraction above zero and at most one.
    pub open spec fn wf(&self) -> bool {
        0 < self.numerator() <= self.denominator()
    }

    /// The fraction `numerator / denominator`, if it lies in `(0, 1]`.
    pub fn new(numerator: u32, denominator: u32) -> (occupancy: Option<Occupancy>)
        ensures
            occupancy.is_some() <==> 0 < numerator <= denominator,
            occupancy matches Some(o) ==> o.wf() && o.numerator() == numerator
                && o.denominator() == denominator,
    {
        if 0 < numerator && numerator <= denominator {
            Some(Occupancy { numerator, denominator })
        } else {
            None
        }
    }
}

/// `ceil(a / b)` for `b > 0`.
pub open spec fn ceil_div(a: nat, b: nat) -> nat
    recommends
        b > 0,
{
    if a % b == 0 {
        a / b
    } else {
        a / b + 1
    }
}

/// The shrink factor that one axis asks for. The target is the fraction
/// `occupancy` of the screen's extent: the factor is 1 where the target
/// exceeds the image's extent, else the image's extent over the target,
/// rounded up.
pub open spec fn axis_scale(image: nat, screen: nat, occupancy: Occupancy) -> nat
    recommends
        occupancy.wf(),
        screen > 0,
{
    if screen * occupancy.numerator() > image * occupancy.denominator() {
        1
    } else {
        ceil_div(image * occupancy.denominator(), screen * occupancy.numerator())
    }
}

/// The shrink factor of the whole image: the larger of the two axes' factors.
pub open spec fn scale_of(
    image_width: nat,
    image_height: nat,
    screen_width: nat,
    screen_height: nat,
    occupancy: Occupancy,
) -> nat {
    let horizontal = axis_scale(image_width, screen_width, occupancy);
    let vertical = axis_scale(image_height, screen_height, occupancy);
    if horizontal >= vertical {
        horizontal
    } else {
        vertical
    }
}

/// Whether an extent of the image, shrunk by `scale`, is within the target
/// extent on that axis.
pub open spec fn fits(image: nat, screen: nat, occupancy: Occupancy, scale: nat) -> bool {
    image * occupancy.denominator() <= scale * (screen * occupancy.numerator())
}

/// One window extent: the image's extent shrunk by `scale`, but at least
/// `MIN_SIZE`.
pub open spec fn window_extent(image: nat, scale: nat) -> nat
    recommends
        scale > 0,
{
    if image / scale >= MIN_SIZE as nat {
        image / scale
    } else {
        MIN_SIZE as nat
    }
}

/// The product of two 32-bit numbers, which 64 bits always hold.
fn widening_product(a: u32, b: u32) -> (product: u64)
    ensures
        product == a * b,
{
    assert(a * b <= 0xffff_ffff * 0xffff_ffff) by (nonlinear_arith)
        requires
            a <= 0xffff_ffff,
            b <= 0xffff_ffff,
    ;
    (a as u64) * (b as u64)
}

/// The shrink factor that one axis asks for.
fn axis_scale_exec(image: u32, screen: u32, occupancy: Occupancy) -> (scale: u64)
    requires
        occupancy.wf(),
        screen > 0,
    ensures
        scale == axis_scale(image as nat, screen as nat, occupancy),
        scale >= 1,
{
    let target: u64 = widening_product(screen, occupancy.numerator);
    let extent: u64 = widening_product(image, occupancy.denominator);
    assert(target > 0) by (nonlinear_arith)
        requires
            target == screen * occupancy.numerator,
            screen > 0,
            occupancy.numerator > 0,
    ;
    if target > extent {
        1
    } else {
        let quotient: u64 = extent / target;
        proof {
            lemma_ceil_div_covers(extent as nat, target as nat);
        }
        if extent % target == 0 {
            quotient
        } else {
            assert(quotient < extent) by (nonlinear_arith)
                requires
                    quotient * target < extent,
                    target >= 1,
                    quotient >= 0,
            ;
            quotient + 1
        }
    }
}

/// The factor by which the image is shrunk to fit the target box on the
/// screen. A screen whose geometry is unknown, or that has no extent on
/// an axis, gives `NoPrimaryDisplay`.
pub fn compute_scale(
    image_width: u32,
    image_height: u32,
    screen: Option<(u32, u32)>,
    occupancy: Occupancy,
) -> (result: Result<u64, ViewError>)
    requires
        occupancy.wf(),
    ensures
        match screen {
            Some((w, h)) if w > 0 && h > 0 => result matches Ok(scale) && scale == scale_of(
                image_width as nat,
                image_height as nat,
                w as nat,
                h as nat,
                occupancy,
            ),
            _ => result == Err::<u64, ViewError>(ViewError::NoPrimaryDisplay),
        },
        result matches Ok(scale) ==> scale >= 1,
{
    match screen {
        Some((w, h)) => {
            if w > 0 && h > 0 {
                let horizontal: u64 = axis_scale_exec(image_width, w, occupancy);
                let vertical: u64 = axis_scale_exec(image_height, h, occupancy);
                if horizontal >= vertical {
                    Ok(horizontal)
                } else {
                    Ok(vertical)
                }
            } else {
                Err(ViewError::NoPrimaryDisplay)
            }
        },
        None => Err(ViewError::NoPrimaryDisplay),
    }
}

/// The window's initial size: each extent of the image shrunk by `scale`,
/// and raised to `MIN_SIZE` where it would fall below.
pub fn window_size(image_width: u32, image_height: u32, scale: u64) -> (size: (u32, u32))
    requires
        scale >= 1,
    ensures
        size.0 == window_extent(image_width as nat, scale as nat),
        size.1 == window_extent(image_height as nat, scale as nat),
        size.0 >= MIN_SIZE,
        size.1 >= MIN_SIZE,
{
    (extent_exec(image_width, scale), extent_exec(image_height, scale))
}

/// One extent of the window.
fn extent_exec(image: u32, scale: u64) -> (extent: u32)
    requires
        scale >= 1,
    ensures
        extent == window_extent(image as nat, scale as nat),
        extent >= MIN_SIZE,
{
    let shrunk: u64 = (image as u64) / scale;
    assert(shrunk <= image) by (nonlinear_arith)
        requires
            shrunk == (image as u64) / scale,
            scale >= 1,
    ;
    if shrunk >= MIN_SIZE as u64 {
        shrunk as u32
    } else {
        MIN_SIZE
    }
}

/// `ceil_div(a, b)` is the least number of `b`s that cover `a`.
pub proof fn lemma_ceil_div_covers(a: nat, b: nat)
    requires
        b > 0,
    ensures
        a <= ceil_div(a, b) * b,
        a > 0 ==> ceil_div(a, b) >= 1 && (ceil_div(a, b) - 1) * b < a,
{
    lemma_fundamental_div_mod(a as int, b as int);
    lemma_mod_bound(a as int, b as int);
    let q = a / b;
    let r = a % b;
    assert(a == b * q + r);
    assert(q >= 0) by (nonlinear_arith)
        requires
            a == b * q + r,
            0 <= r < b,
            b > 0,
    ;
    if r == 0 {
        assert(q * b == b * q) by (nonlinear_arith);
        assert((q - 1) * b == b * q - b) by (nonlinear_arith);
        if a > 0 {
            assert(q >= 1) by (nonlinear_arith)
                requires
                    a == b * q,
                    a > 0,
                    b > 0,
            ;
        }
    } else {
        assert((q + 1) * b == b * q + b) by (nonlinear_arith);
        assert((q + 1 - 1) * b == b * q) by (nonlinear_arith);
    }
}

/// The factor of one axis is at least 1, makes the shrunk extent fit the
/// target, and is the least factor that does.
pub proof fn lemma_axis_scale_least(image: nat, screen: nat, occupancy: Occupancy)
    requires
        occupancy.wf(),
        screen > 0,
    ensures
        axis_scale(image, screen, occupancy) >= 1,
        fits(image, screen, occupancy, axis_scale(image, screen, occupancy)),
        forall|t: nat|
            1 <= t < axis_scale(image, screen, occupancy) ==> !#[trigger] fits(
                image,
                screen,
                occupancy,
                t,
            ),
{
    let a = image * occupancy.denominator();
    let b = screen * occupancy.numerator();
    assert(b > 0) by (nonlinear_arith)
        requires
            b == screen * occupancy.numerator(),
            screen > 0,
            occupancy.numerator() > 0,
    ;
    if b > a {
        assert(1 * b == b);
    } else {
        lemma_ceil_div_covers(a, b);
        let s = ceil_div(a, b);
        assert forall|t: nat| 1 <= t < s implies !#[trigger] fits(
            image,
            screen,
            occupancy,
            t,
        ) by {
            assert(t * b <= (s - 1) * b) by (nonlinear_arith)
                requires
                    t <= s - 1,
                    b > 0,
            ;
        }
    }
}

/// A larger factor still fits what a smaller one fits.
pub proof fn lemma_fits_upward(image: nat, screen: nat, occupancy: Occupancy, s: nat, t: nat)
    requires
        fits(image, screen, occupancy, s),
        s <= t,
    ensures
        fits(image, screen, occupancy, t),
{
    let b = screen * occupancy.numerator();
    assert(s * b <= t * b) by (nonlinear_arith)
        requires
            s <= t,
            b >= 0,
    ;
}

/// The scale is the least factor, from 1 upward, by which the image shrunk
/// lies within the target box on both axes.
pub proof fn lemma_scale_is_least_fit(
    image_width: nat,
    image_height: nat,
    screen_width: nat,
    screen_height: nat,
    occupancy: Occupancy,
)
    requires
        occupancy.wf(),
        screen_width > 0,
        screen_height > 0,
    ensures
        ({
            let s = scale_of(image_width, image_height, screen_width, screen_height, occupancy);
            &&& s >= 1
            &&& fits(image_width, screen_width, occupancy, s)
            &&& fits(image_height, screen_height, occupancy, s)
            &&& forall|t: nat|
                1 <= t < s ==> !(#[trigger] fits(image_width, screen_width, occupancy, t) && fits(
                    image_height,
                    screen_height,
                    occupancy,
                    t,
                ))
        }),
{
    let h = axis_scale(image_width, screen_width, occupancy);
    let v = axis_scale(image_height, screen_height, occupancy);
    let s = scale_of(image_width, image_height, screen_width, screen_height, occupancy);
    lemma_axis_scale_least(image_width, screen_width, occupancy);
    lemma_axis_scale_least(image_height, screen_height, occupancy);
    lemma_fits_upward(image_width, screen_width, occupancy, h, s);
    lemma_fits_upward(image_height, screen_height, occupancy, v, s);
    assert forall|t: nat| 1 <= t < s implies !(#[trigger] fits(
        image_width,
        screen_width,
        occupancy,
        t,
    ) && fits(image_height, screen_height, occupancy, t)) by {
        if h >= v {
            assert(!fits(image_width, screen_width, occupancy, t));
        } else {
            assert(!fits(image_height, screen_height, occupancy, t));
        }
    }
}

/// One axis' factor does not fall when the image's extent grows.
pub proof fn lemma_axis_scale_monotonic(
    smaller: nat,
    larger: nat,
    screen: nat,
    occupancy: Occupancy,
)
    requires
        occupancy.wf(),
        screen > 0,
        smaller <= larger,
    ensures
        axis_scale(smaller, screen, occupancy) <= axis_scale(larger, screen, occupancy),
{
    let s1 = axis_scale(smaller, screen, occupancy);
    let s2 = axis_scale(larger, screen, occupancy);
    lemma_axis_scale_least(smaller, screen, occupancy);
    lemma_axis_scale_least(larger, screen, occupancy);
    assert(smaller * occupancy.denominator() <= larger * occupancy.denominator())
        by (nonlinear_arith)
        requires
            smaller <= larger,
    ;
    assert(fits(smaller, screen, occupancy, s2));
}

/// On a fixed screen the scale does not fall when the image grows: an image
/// at least as wide and as high gets a scale at least as large.
pub proof fn lemma_scale_monotonic(
    width: nat,
    height: nat,
    wider: nat,
    higher: nat,
    screen_width: nat,
    screen_height: nat,
    occupancy: Occupancy,
)
    requires
        occupancy.wf(),
        screen_width > 0,
        screen_height > 0,
        width <= wider,
        height <= higher,
    ensures
        scale_of(width, height, screen_width, screen_height, occupancy) <= scale_of(
            wider,
            higher,
            screen_width,
            screen_height,
            occupancy,
        ),
{
    lemma_axis_scale_monotonic(width, wider, screen_width, occupancy);
    lemma_axis_scale_monotonic(height, higher, screen_height, occupancy);
}

/// No window extent falls below `MIN_SIZE`, whatever the scale: the shrunk
/// extent is used as it is where it reaches `MIN_SIZE`, and `MIN_SIZE` takes
/// its place only where the shrunk extent is smaller. An image that lies
/// within the target box is shown at its own size wherever that reaches
/// `MIN_SIZE`.
pub proof fn lemma_window_at_least_minimum(
    image_width: nat,
    image_height: nat,
    screen_width: nat,
    screen_height: nat,
    occupancy: Occupancy,
)
    requires
        occupancy.wf(),
        screen_width > 0,
        screen_height > 0,
    ensures
        ({
            let s = scale_of(image_width, image_height, screen_width, screen_height, occupancy);
            &&& s >= 1
            &&& window_extent(image_width, s) >= MIN_SIZE
            &&& window_extent(image_height, s) >= MIN_SIZE
            &&& image_width / s >= MIN_SIZE ==> window_extent(image_width, s) == image_width / s
            &&& image_height / s >= MIN_SIZE ==> window_extent(image_height, s) == image_height
                / s
            &&& window_extent(image_width, s) != image_width / s ==> window_extent(image_width, s)
                == MIN_SIZE
            &&& window_extent(image_height, s) != image_height / s ==> window_extent(
                image_height,
                s,
            ) == MIN_SIZE
            &&& s == 1 && image_width >= MIN_SIZE ==> window_extent(image_width, s) == image_width
            &&& s == 1 && image_height >= MIN_SIZE ==> window_extent(image_height, s)
                == image_height
        }),
{
    lemma_scale_is_least_fit(image_width, image_height, screen_width, screen_height, occupancy);
}

} // verus!
