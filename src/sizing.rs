//! Window sizing policy: the size a window is given when a caller asks for an
//! explicit size, and when a caller zooms it by a factor.
//!
//! Every size is exact: its sides are fractions of logical (scale-independent)
//! units over one shared denominator, and a zoom factor is a fraction too.
//! Nothing is rounded; the caller divides once, when it applies the size.
use vstd::prelude::*;

verus! {

/// Smallest width or height, in logical units, that a zoom may produce.
pub const MIN_ZOOM_SIDE: u32 = 50;

/// The exact value of a size: `width / den` by `height / den` logical units.
pub struct SizeValue {
    pub width: int,
    pub height: int,
    pub den: int,
}

/// A size given to the policy: `width / den` by `height / den` logical units.
#[derive(Clone, Copy, Debug, PartialEq, Eq, Structural)]
pub struct Dimensions {
    pub width: u32,
    pub height: u32,
    pub den: u32,
}

impl View for Dimensions {
    type V = SizeValue;

    open spec fn view(&self) -> SizeValue {
        SizeValue { width: self.width as int, height: self.height as int, den: self.den as int }
    }
}

impl Dimensions {
    /// A size is usable when its denominator is not zero.
    pub open spec fn wf(self) -> bool {
        self.den > 0
    }

    /// The size `width / den` by `height / den`, or `None` when `den` is zero.
    pub fn new(width: u32, height: u32, den: u32) -> (r: Option<Dimensions>)
        ensures
            den == 0 ==> r is None,
            den > 0 ==> r == Some(Dimensions { width, height, den }),
    {
        if den == 0 {
            None
        } else {
            Some(Dimensions { width, height, den })
        }
    }

    /// The size `width` by `height` in whole logical units.
    pub fn whole(width: u32, height: u32) -> (r: Dimensions)
        ensures
            r == (Dimensions { width, height, den: 1 }),
    {
        Dimensions { width, height, den: 1 }
    }
}

/// A size the policy hands back: `width / den` by `height / den` logical
/// units, with room for the products that exact scaling needs.
#[derive(Clone, Copy, Debug, PartialEq, Eq, Structural)]
pub struct Extent {
    pub width: u128,
    pub height: u128,
    pub den: u128,
}

impl View for Extent {
    type V = SizeValue;

    open spec fn view(&self) -> SizeValue {
        SizeValue { width: self.width as int, height: self.height as int, den: self.den as int }
    }
}

impl Extent {
    /// The same size as `d`.
    pub fn from_dimensions(d: Dimensions) -> (r: Extent)
        ensures
            r@ == d@,
    {
        Extent { width: d.width as u128, height: d.height as u128, den: d.den as u128 }
    }
}

/// A zoom factor as the exact fraction `num / den`.
#[derive(Clone, Copy, Debug, PartialEq, Eq, Structural)]
pub struct ZoomFactor {
    pub num: u32,
    pub den: u32,
}

impl ZoomFactor {
    /// A factor is usable when its denominator is not zero.
    pub open spec fn wf(self) -> bool {
        self.den > 0
    }

    /// The factor `num / den`, or `None` when `den` is zero.
    pub fn new(num: u32, den: u32) -> (r: Option<ZoomFactor>)
        ensures
            den == 0 ==> r is None,
            den > 0 ==> r == Some(ZoomFactor { num, den }),
    {
        if den == 0 {
            None
        } else {
            Some(ZoomFactor { num, den })
        }
    }

    /// Whether the factor enlarges, that is `num / den > 1`.
    pub open spec fn grows(self) -> bool {
        self.num > self.den
    }
}

/// Whether two sizes have the same width-to-height ratio.
pub open spec fn same_ratio(a: SizeValue, b: SizeValue) -> bool {
    a.width * b.height == a.height * b.width
}

// ---------------------------------------------------------------------------
// Resize with fit
// ---------------------------------------------------------------------------

/// Whether `size` takes at most 80% (four fifths) of `screen` in each
/// direction: `size.width / size.den <= 4/5 * screen.width / screen.den`, and
/// the same for the height, written without division.
pub open spec fn within_cap(size: SizeValue, screen: SizeValue) -> bool {
    5 * size.width * screen.den <= 4 * screen.width * size.den && 5 * size.height * screen.den
        <= 4 * screen.height * size.den
}

/// Whether `size` meets the cap exactly in at least one direction.
pub open spec fn meets_cap(size: SizeValue, screen: SizeValue) -> bool {
    5 * size.width * screen.den == 4 * screen.width * size.den || 5 * size.height * screen.den
        == 4 * screen.height * size.den
}

/// For a request over the cap: whether the width is the side that limits the
/// uniform scale, i.e. `cap_w / w <= cap_h / h`, written without division.
pub open spec fn width_limits(req: SizeValue, screen: SizeValue) -> bool {
    5 * req.width * screen.den > 4 * screen.width * req.den && screen.width * req.height
        <= screen.height * req.width
}

/// The size given to a window for which `req` was asked on a screen of size
/// `screen`: the request itself when it is within the cap, else the request
/// scaled uniformly by `s = min(cap_w / w, cap_h / h)`. With the width
/// limiting, `s = (4 * sw / (5 * ds)) / (w / dq)`, and the scaled sides
/// `w * s` and `h * s` are `4 * sw * w` and `4 * sw * h` over `5 * ds * w`.
pub open spec fn fit_spec(req: SizeValue, screen: SizeValue) -> SizeValue {
    if within_cap(req, screen) {
        req
    } else if width_limits(req, screen) {
        SizeValue {
            width: 4 * screen.width * req.width,
            height: 4 * screen.width * req.height,
            den: 5 * screen.den * req.width,
        }
    } else {
        SizeValue {
            width: 4 * screen.height * req.width,
            height: 4 * screen.height * req.height,
            den: 5 * screen.den * req.height,
        }
    }
}

/// Over the cap with the width not limiting, the height limits: it is
/// positive, and `sh * w <= sw * h`.
proof fn lemma_height_limits(req: Dimensions, screen: Dimensions)
    requires
        req.wf(),
        !within_cap(req@, screen@),
        !width_limits(req@, screen@),
    ensures
        req.height > 0,
        screen.height * req.width <= screen.width * req.height,
{
    let w = req.width as int;
    let h = req.height as int;
    let dq = req.den as int;
    let sw = screen.width as int;
    let sh = screen.height as int;
    let ds = screen.den as int;
    if 5 * w * ds > 4 * sw * dq {
        assert(h > 0) by (nonlinear_arith)
            requires
                sw * h > sh * w,
                sh >= 0,
                w >= 0,
                h >= 0,
        ;
    } else {
        assert(5 * h * ds > 4 * sh * dq);
        assert(h > 0) by (nonlinear_arith)
            requires
                5 * h * ds > 4 * sh * dq,
                sh >= 0,
                dq >= 0,
                ds >= 0,
                h >= 0,
        ;
        assert(sh * (5 * w * ds) <= sh * (4 * sw * dq)) by (nonlinear_arith)
            requires
                5 * w * ds <= 4 * sw * dq,
                sh >= 0,
        ;
        assert(sw * (4 * sh * dq) <= sw * (5 * h * ds)) by (nonlinear_arith)
            requires
                4 * sh * dq < 5 * h * ds,
                sw >= 0,
        ;
        assert(ds > 0) by (nonlinear_arith)
            requires
                4 * sh * dq < 5 * h * ds,
                sh >= 0,
                dq >= 0,
                ds >= 0,
        ;
        assert(5 * ds * (sh * w) <= 5 * ds * (sw * h)) by (nonlinear_arith)
            requires
                sh * (5 * w * ds) <= sh * (4 * sw * dq),
                sw * (4 * sh * dq) <= sw * (5 * h * ds),
        ;
        assert(sh * w <= sw * h) by (nonlinear_arith)
            requires
                5 * ds * (sh * w) <= 5 * ds * (sw * h),
                ds > 0,
        ;
    }
}

/// The size for a request of `requested` on a screen of size `screen`: passed
/// through when within 80% of the screen in both directions, else scaled down
/// uniformly, exactly, until the limiting side meets its cap.
pub fn fit_to_screen(requested: Dimensions, screen: Dimensions) -> (r: Extent)
    ensures
        r@ == fit_spec(requested@, screen@),
{
    let w = requested.width as u128;
    let h = requested.height as u128;
    let dq = requested.den as u128;
    let sw = screen.width as u128;
    let sh = screen.height as u128;
    let ds = screen.den as u128;
    assert(5 * w * ds <= 0x5_0000_0000_0000_0000 && 4 * sw * dq <= 0x5_0000_0000_0000_0000 && 5 * h
        * ds <= 0x5_0000_0000_0000_0000 && 4 * sh * dq <= 0x5_0000_0000_0000_0000 && sw * h
        <= 0x1_0000_0000_0000_0000 && sh * w <= 0x1_0000_0000_0000_0000 && 4 * sw * w
        <= 0x5_0000_0000_0000_0000 && 4 * sw * h <= 0x5_0000_0000_0000_0000 && 4 * sh * w
        <= 0x5_0000_0000_0000_0000 && 4 * sh * h <= 0x5_0000_0000_0000_0000 && 5 * ds * w
        <= 0x5_0000_0000_0000_0000 && 5 * ds * h <= 0x5_0000_0000_0000_0000) by (nonlinear_arith)
        requires
            0 <= w <= 0xffff_ffff,
            0 <= h <= 0xffff_ffff,
            0 <= dq <= 0xffff_ffff,
            0 <= sw <= 0xffff_ffff,
            0 <= sh <= 0xffff_ffff,
            0 <= ds <= 0xffff_ffff,
    ;
    if 5 * w * ds <= 4 * sw * dq && 5 * h * ds <= 4 * sh * dq {
        Extent::from_dimensions(requested)
    } else if 5 * w * ds > 4 * sw * dq && sw * h <= sh * w {
        Extent { width: 4 * sw * w, height: 4 * sw * h, den: 5 * ds * w }
    } else {
        Extent { width: 4 * sh * w, height: 4 * sh * h, den: 5 * ds * h }
    }
}

/// A request within the cap is returned unchanged.
pub proof fn lemma_fit_keeps_request_within_cap(req: Dimensions, screen: Dimensions)
    requires
        within_cap(req@, screen@),
    ensures
        fit_spec(req@, screen@) == req@,
{
}

/// A request over the cap comes out scaled down uniformly: with exactly the
/// request's width-to-height ratio, within the cap in both directions, and
/// meeting the cap in the direction that limits.
pub proof fn lemma_fit_scales_down_proportionally(req: Dimensions, screen: Dimensions)
    requires
        req.wf(),
        screen.wf(),
        !within_cap(req@, screen@),
    ensures
        fit_spec(req@, screen@).den > 0,
        same_ratio(fit_spec(req@, screen@), req@),
        within_cap(fit_spec(req@, screen@), screen@),
        meets_cap(fit_spec(req@, screen@), screen@),
{
    let r = fit_spec(req@, screen@);
    let w = req.width as int;
    let h = req.height as int;
    let sw = screen.width as int;
    let sh = screen.height as int;
    let ds = screen.den as int;
    if width_limits(req@, screen@) {
        assert(w > 0 && r.den > 0) by (nonlinear_arith)
            requires
                5 * w * ds > 4 * sw * (req.den as int),
                sw >= 0,
                req.den >= 0,
                w >= 0,
                ds > 0,
                r.den == 5 * ds * w,
        ;
        assert(r.width * h == r.height * w) by (nonlinear_arith)
            requires
                r.width == 4 * sw * w,
                r.height == 4 * sw * h,
        ;
        assert(5 * r.width * ds == 4 * sw * r.den) by (nonlinear_arith)
            requires
                r.width == 4 * sw * w,
                r.den == 5 * ds * w,
        ;
        assert(5 * r.height * ds <= 4 * sh * r.den) by (nonlinear_arith)
            requires
                r.height == 4 * sw * h,
                r.den == 5 * ds * w,
                sw * h <= sh * w,
                ds > 0,
        ;
    } else {
        lemma_height_limits(req, screen);
        assert(r.den > 0) by (nonlinear_arith)
            requires
                h > 0,
                ds > 0,
                r.den == 5 * ds * h,
        ;
        assert(r.width * h == r.height * w) by (nonlinear_arith)
            requires
                r.width == 4 * sh * w,
                r.height == 4 * sh * h,
        ;
        assert(5 * r.height * ds == 4 * sh * r.den) by (nonlinear_arith)
            requires
                r.height == 4 * sh * h,
                r.den == 5 * ds * h,
        ;
        assert(5 * r.width * ds <= 4 * sw * r.den) by (nonlinear_arith)
            requires
                r.width == 4 * sh * w,
                r.den == 5 * ds * h,
                sh * w <= sw * h,
                ds > 0,
        ;
    }
}

/// Fitting is idempotent: the fitted size is within the cap, so fitting it
/// again changes nothing.
pub proof fn lemma_fit_idempotent(req: Dimensions, screen: Dimensions)
    requires
        req.wf(),
        screen.wf(),
    ensures
        fit_spec(fit_spec(req@, screen@), screen@) == fit_spec(req@, screen@),
{
    if !within_cap(req@, screen@) {
        lemma_fit_scales_down_proportionally(req, screen);
    }
}

// ---------------------------------------------------------------------------
// Zoom by factor
// ---------------------------------------------------------------------------

/// Whether `current * factor` falls under the floor on either side.
pub open spec fn below_floor(current: SizeValue, factor: ZoomFactor) -> bool {
    current.width * factor.num < MIN_ZOOM_SIDE * current.den * factor.den || current.height
        * factor.num < MIN_ZOOM_SIDE * current.den * factor.den
}

/// Whether `current * factor` exceeds `screen` on either side.
pub open spec fn exceeds_screen(current: SizeValue, factor: ZoomFactor, screen: SizeValue) -> bool {
    current.width * factor.num * screen.den > screen.width * current.den * factor.den
        || current.height * factor.num * screen.den > screen.height * current.den * factor.den
}

/// Whether a zoom is refused: it would go under the floor, or it enlarges and
/// would exceed the screen. A refused zoom leaves the size as it is; it is
/// never clamped.
pub open spec fn zoom_refused(current: SizeValue, factor: ZoomFactor, screen: SizeValue) -> bool {
    below_floor(current, factor) || (factor.grows() && exceeds_screen(current, factor, screen))
}

/// `current * factor`, exactly.
pub open spec fn scaled(current: SizeValue, factor: ZoomFactor) -> SizeValue {
    SizeValue {
        width: current.width * factor.num,
        height: current.height * factor.num,
        den: current.den * factor.den,
    }
}

/// The size after zooming `current` by `factor` on a screen of size `screen`.
pub open spec fn zoom_spec(current: SizeValue, factor: ZoomFactor, screen: SizeValue) -> SizeValue {
    if zoom_refused(current, factor, screen) {
        current
    } else {
        scaled(current, factor)
    }
}

/// Whether zooming `current` by `factor` would go under the floor of
/// `MIN_ZOOM_SIDE` units on either side; decided without the screen.
pub fn zoom_below_floor(current: Dimensions, factor: ZoomFactor) -> (r: bool)
    ensures
        r == below_floor(current@, factor),
{
    let w = current.width as u128;
    let h = current.height as u128;
    let dc = current.den as u128;
    let num = factor.num as u128;
    let den = factor.den as u128;
    let floor = MIN_ZOOM_SIDE as u128;
    assert(w * num <= 0x1_0000_0000_0000_0000 && h * num <= 0x1_0000_0000_0000_0000 && floor * dc
        * den <= 0x100_0000_0000_0000_0000) by (nonlinear_arith)
        requires
            0 <= w <= 0xffff_ffff,
            0 <= h <= 0xffff_ffff,
            0 <= dc <= 0xffff_ffff,
            0 <= num <= 0xffff_ffff,
            0 <= den <= 0xffff_ffff,
            floor == 50,
    ;
    w * num < floor * dc * den || h * num < floor * dc * den
}

/// The size that zooming `current` by `factor` gives, exactly
/// `current * factor`; `None` when the zoom is refused.
pub fn zoomed_size(current: Dimensions, factor: ZoomFactor, screen: Dimensions) -> (r: Option<
    Extent,
>)
    ensures
        zoom_refused(current@, factor, screen@) ==> r is None,
        !zoom_refused(current@, factor, screen@) ==> r is Some && r.unwrap()@ == scaled(
            current@,
            factor,
        ),
{
    if zoom_below_floor(current, factor) {
        return None;
    }
    let w = current.width as u128;
    let h = current.height as u128;
    let dc = current.den as u128;
    let num = factor.num as u128;
    let den = factor.den as u128;
    let sw = screen.width as u128;
    let sh = screen.height as u128;
    let ds = screen.den as u128;
    assert(w * num <= 0x1_0000_0000_0000_0000 && h * num <= 0x1_0000_0000_0000_0000 && dc * den
        <= 0x1_0000_0000_0000_0000) by (nonlinear_arith)
        requires
            0 <= w <= 0xffff_ffff,
            0 <= h <= 0xffff_ffff,
            0 <= dc <= 0xffff_ffff,
            0 <= num <= 0xffff_ffff,
            0 <= den <= 0xffff_ffff,
    ;
    assert(sw * dc <= 0x1_0000_0000_0000_0000 && sh * dc <= 0x1_0000_0000_0000_0000) by (
    nonlinear_arith)
        requires
            0 <= dc <= 0xffff_ffff,
            0 <= sw <= 0xffff_ffff,
            0 <= sh <= 0xffff_ffff,
    ;
    assert(w * num * ds <= 0x1_0000_0000_0000_0000_0000_0000 && h * num * ds
        <= 0x1_0000_0000_0000_0000_0000_0000 && sw * dc * den <= 0x1_0000_0000_0000_0000_0000_0000
        && sh * dc * den <= 0x1_0000_0000_0000_0000_0000_0000) by (nonlinear_arith)
        requires
            0 <= w <= 0xffff_ffff,
            0 <= h <= 0xffff_ffff,
            0 <= dc <= 0xffff_ffff,
            0 <= num <= 0xffff_ffff,
            0 <= den <= 0xffff_ffff,
            0 <= sw <= 0xffff_ffff,
            0 <= sh <= 0xffff_ffff,
            0 <= ds <= 0xffff_ffff,
    ;
    if num > den {
        if w * num * ds > sw * dc * den || h * num * ds > sh * dc * den {
            return None;
        }
    }
    Some(Extent { width: w * num, height: h * num, den: dc * den })
}

/// The size after zooming `current` by `factor`: exactly `current * factor`,
/// unless the zoom is refused (under the floor, or enlarging past the screen),
/// in which case `current` is returned.
pub fn zoom_by_factor(current: Dimensions, factor: ZoomFactor, screen: Dimensions) -> (r: Extent)
    ensures
        r@ == zoom_spec(current@, factor, screen@),
{
    match zoomed_size(current, factor, screen) {
        Some(e) => e,
        None => Extent::from_dimensions(current),
    }
}

/// Every zoom keeps the window's width-to-height ratio exactly.
pub proof fn lemma_zoom_keeps_ratio(current: Dimensions, factor: ZoomFactor, screen: Dimensions)
    ensures
        same_ratio(zoom_spec(current@, factor, screen@), current@),
{
    let w = current.width as int;
    let h = current.height as int;
    let num = factor.num as int;
    assert(w * h == h * w) by (nonlinear_arith);
    if !zoom_refused(current@, factor, screen@) {
        let r = scaled(current@, factor);
        assert(r.width * h == r.height * w) by (nonlinear_arith)
            requires
                r.width == w * num,
                r.height == h * num,
        ;
    }
}

} // verus!
