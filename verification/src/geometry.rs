//! The geometry kernel: resolving a widget's declared size and position
//! bucket against its parent's box, exactly.
//!
//! Boxes live in the normalized [0,2]x[0,2] space and are handed around as a
//! (bottom-left, top-right) pair of vertices. Every computation is a pure
//! function over exact rationals; an operation whose raw fraction would
//! leave the machine bounds reports `Error::NumericRange` instead of
//! returning an approximate answer.

use vstd::prelude::*;

use crate::color::Color;
use crate::enums::Anchor;
use crate::enums::Position;
use crate::enums::Size;
use crate::enums::spec_x_anchor;
use crate::enums::spec_y_anchor;
use crate::error::Error;
use crate::frac::Frac;
use crate::frac::Rat;
use crate::frac::rat_add;
use crate::frac::rat_div;
use crate::frac::rat_eq;
use crate::frac::rat_le;
use crate::frac::rat_wf;
use crate::frac::rat_half;
use crate::frac::rat_in_bounds;
use crate::frac::rat_mul;
use crate::frac::rat_reduce;
use crate::frac::rat_of_int;
use crate::frac::rat_sub;

verus! {

/// An x and y coordinate in the normalized [0,2] space.
#[derive(Clone, Copy, Debug, PartialEq)]
pub struct Vertex {
    /// The x coordinate.
    pub x: Frac,
    /// The y coordinate.
    pub y: Frac,
}

impl Vertex {
    /// A vertex from its two coordinates.
    pub fn new(x: Frac, y: Frac) -> (r: Vertex)
        ensures
            r == (Vertex { x, y }),
    {
        Vertex { x, y }
    }

    /// The x coordinate in the [0,2] space.
    pub fn x(self) -> (r: Frac)
        ensures
            r == self.x,
    {
        self.x
    }

    /// The y coordinate in the [0,2] space.
    pub fn y(self) -> (r: Frac)
        ensures
            r == self.y,
    {
        self.y
    }

    /// Both coordinates re-biased from [0,2] to the [-1,1] device space by
    /// subtracting 1 from each axis.
    pub fn as_device_pair(self) -> (r: Result<(Frac, Frac), Error>)
        ensures
            (rat_in_bounds(rat_sub(self.x@, rat_of_int(1))) && rat_in_bounds(
                rat_sub(self.y@, rat_of_int(1)),
            )) ==> (r matches Ok(p) && p.0@ == rat_sub(self.x@, rat_of_int(1)) && p.1@ == rat_sub(
                self.y@,
                rat_of_int(1),
            )),
            !(rat_in_bounds(rat_sub(self.x@, rat_of_int(1))) && rat_in_bounds(
                rat_sub(self.y@, rat_of_int(1)),
            )) ==> r == Err::<(Frac, Frac), Error>(Error::NumericRange),
    {
        let one = Frac::from_int(1);
        let dx = match self.x.sub(one) {
            Some(v) => v,
            None => {
                return Err(Error::NumericRange);
            },
        };
        let dy = match self.y.sub(one) {
            Some(v) => v,
            None => {
                return Err(Error::NumericRange);
            },
        };
        Ok((dx, dy))
    }
}

/// The position and color of one vertex to be drawn, the position already
/// in the [-1,1] device space.
#[derive(Clone, Copy, Debug, PartialEq)]
pub struct DrawVertex {
    /// The device-space position.
    pub position: (Frac, Frac),
    /// The color of the widget this vertex belongs to.
    pub color: Color,
}

impl DrawVertex {
    /// A draw vertex from a device-space position and a color.
    pub fn new(position: (Frac, Frac), color: Color) -> (r: DrawVertex)
        ensures
            r == (DrawVertex { position, color }),
    {
        DrawVertex { position, color }
    }

    /// The device-space position of the vertex.
    pub fn position(&self) -> (r: (Frac, Frac))
        ensures
            r == self.position,
    {
        self.position
    }

    /// The color of the vertex.
    pub fn color(&self) -> (r: Color)
        ensures
            r == self.color,
    {
        self.color
    }
}

/// A percentage as a plain fraction: `w` percent is `w / 100`.
pub open spec fn rat_pct(w: Rat) -> Rat {
    rat_div(w, rat_of_int(100))
}

/// The scaled span of an interval: its length times the fraction `f`.
pub open spec fn interval_scaled(lo: Rat, hi: Rat, f: Rat) -> Rat {
    rat_mul(rat_sub(hi, lo), f)
}

/// The low end of a child interval spanning the fraction `f` of the
/// parent interval `[lo, hi]`, anchored per `a`.
pub open spec fn interval_lo(lo: Rat, hi: Rat, f: Rat, a: Anchor) -> Rat {
    let clen = interval_scaled(lo, hi, f);
    match a {
        Anchor::Low => lo,
        Anchor::Mid => rat_add(lo, rat_half(rat_sub(rat_sub(hi, lo), clen))),
        Anchor::High => rat_sub(hi, clen),
    }
}

/// The high end of a child interval spanning the fraction `f` of the
/// parent interval `[lo, hi]`, anchored per `a`.
pub open spec fn interval_hi(lo: Rat, hi: Rat, f: Rat, a: Anchor) -> Rat {
    let clen = interval_scaled(lo, hi, f);
    match a {
        Anchor::Low => rat_add(lo, clen),
        Anchor::Mid => rat_add(lo, rat_half(rat_add(rat_sub(hi, lo), clen))),
        Anchor::High => hi,
    }
}

/// Whether every raw fraction arising while resolving a child interval
/// stays inside the machine bounds.
pub open spec fn interval_fits(lo: Rat, hi: Rat, f: Rat, a: Anchor) -> bool {
    let len = rat_sub(hi, lo);
    let clen = rat_mul(len, f);
    &&& rat_in_bounds(len)
    &&& rat_in_bounds(clen)
    &&& match a {
        Anchor::Low => rat_in_bounds(rat_add(lo, clen)),
        Anchor::Mid => {
            &&& rat_in_bounds(rat_sub(len, clen))
            &&& rat_in_bounds(rat_half(rat_sub(len, clen)))
            &&& rat_in_bounds(rat_add(lo, rat_half(rat_sub(len, clen))))
            &&& rat_in_bounds(rat_add(len, clen))
            &&& rat_in_bounds(rat_half(rat_add(len, clen)))
            &&& rat_in_bounds(rat_add(lo, rat_half(rat_add(len, clen))))
        },
        Anchor::High => rat_in_bounds(rat_sub(hi, clen)),
    }
}

/// Resolves one axis: the child interval spanning the fraction `f` of the
/// parent interval `[lo, hi]`, anchored per `a`.
fn anchor_interval(lo: Frac, hi: Frac, f: Frac, a: Anchor) -> (r: Result<(Frac, Frac), Error>)
    ensures
        interval_fits(lo@, hi@, f@, a) ==> (r matches Ok(p) && p.0@ == interval_lo(
            lo@,
            hi@,
            f@,
            a,
        ) && p.1@ == interval_hi(lo@, hi@, f@, a)),
        !interval_fits(lo@, hi@, f@, a) ==> r == Err::<(Frac, Frac), Error>(Error::NumericRange),
{
    let len = match hi.sub(lo) {
        Some(v) => v,
        None => {
            return Err(Error::NumericRange);
        },
    };
    let clen = match len.mul(f) {
        Some(v) => v,
        None => {
            return Err(Error::NumericRange);
        },
    };
    match a {
        Anchor::Low => {
            let nhi = match lo.add(clen) {
                Some(v) => v,
                None => {
                    return Err(Error::NumericRange);
                },
            };
            Ok((lo, nhi))
        },
        Anchor::Mid => {
            let below = match len.sub(clen) {
                Some(v) => v,
                None => {
                    return Err(Error::NumericRange);
                },
            };
            let half_below = match below.half() {
                Some(v) => v,
                None => {
                    return Err(Error::NumericRange);
                },
            };
            let nlo = match lo.add(half_below) {
                Some(v) => v,
                None => {
                    return Err(Error::NumericRange);
                },
            };
            let above = match len.add(clen) {
                Some(v) => v,
                None => {
                    return Err(Error::NumericRange);
                },
            };
            let half_above = match above.half() {
                Some(v) => v,
                None => {
                    return Err(Error::NumericRange);
                },
            };
            let nhi = match lo.add(half_above) {
                Some(v) => v,
                None => {
                    return Err(Error::NumericRange);
                },
            };
            Ok((nlo, nhi))
        },
        Anchor::High => {
            let nlo = match hi.sub(clen) {
                Some(v) => v,
                None => {
                    return Err(Error::NumericRange);
                },
            };
            Ok((nlo, hi))
        },
    }
}

/// Whether resolving a whole child box against `[bl, tr]` with the
/// percentages `w`, `h` stays inside the machine bounds.
pub open spec fn calc_fits(bl: Vertex, tr: Vertex, w: Rat, h: Rat, pos: Position) -> bool {
    &&& rat_in_bounds(rat_pct(w))
    &&& rat_in_bounds(rat_pct(h))
    &&& interval_fits(bl.x@, tr.x@, rat_pct(w), spec_x_anchor(pos))
    &&& interval_fits(bl.y@, tr.y@, rat_pct(h), spec_y_anchor(pos))
}

/// The bottom-left corner of the resolved child box, in lowest terms.
pub open spec fn calc_bl(bl: Vertex, tr: Vertex, w: Rat, h: Rat, pos: Position) -> (Rat, Rat) {
    (
        rat_reduce(interval_lo(bl.x@, tr.x@, rat_pct(w), spec_x_anchor(pos))),
        rat_reduce(interval_lo(bl.y@, tr.y@, rat_pct(h), spec_y_anchor(pos))),
    )
}

/// The top-right corner of the resolved child box, in lowest terms.
pub open spec fn calc_tr(bl: Vertex, tr: Vertex, w: Rat, h: Rat, pos: Position) -> (Rat, Rat) {
    (
        rat_reduce(interval_hi(bl.x@, tr.x@, rat_pct(w), spec_x_anchor(pos))),
        rat_reduce(interval_hi(bl.y@, tr.y@, rat_pct(h), spec_y_anchor(pos))),
    )
}

/// Resolves a child box against the parent box `[bl, tr]`: the child spans
/// `w` percent of the parent's width and `h` percent of its height, and is
/// anchored to the parent per its position bucket; the corners come back
/// in lowest terms. A `Full` size must have been replaced by concrete
/// percentages before this point.
pub fn calc_vertices(bl: Vertex, tr: Vertex, size: Size, position: Position) -> (r: Result<
    (Vertex, Vertex),
    Error,
>)
    ensures
        size is Full ==> r == Err::<(Vertex, Vertex), Error>(Error::UnresolvedSize),
        size matches Size::Size(w, h) ==> {
            &&& calc_fits(bl, tr, w@, h@, position) ==> (r matches Ok(p) && (p.0.x@, p.0.y@)
                == calc_bl(bl, tr, w@, h@, position) && (p.1.x@, p.1.y@) == calc_tr(
                bl,
                tr,
                w@,
                h@,
                position,
            ))
            &&& !calc_fits(bl, tr, w@, h@, position) ==> r == Err::<(Vertex, Vertex), Error>(
                Error::NumericRange,
            )
        },
{
    match size {
        Size::Full => Err(Error::UnresolvedSize),
        Size::Size(w, h) => {
            let hundred = Frac::from_int(100);
            let fx = match w.div(hundred) {
                Some(v) => v,
                None => {
                    return Err(Error::NumericRange);
                },
            };
            let fy = match h.div(hundred) {
                Some(v) => v,
                None => {
                    return Err(Error::NumericRange);
                },
            };
            let xi = match anchor_interval(bl.x, tr.x, fx, crate::enums::x_anchor(position)) {
                Ok(v) => v,
                Err(e) => {
                    return Err(e);
                },
            };
            let yi = match anchor_interval(bl.y, tr.y, fy, crate::enums::y_anchor(position)) {
                Ok(v) => v,
                Err(e) => {
                    return Err(e);
                },
            };
            Ok(
                (
                    Vertex { x: xi.0.reduce(), y: yi.0.reduce() },
                    Vertex { x: xi.1.reduce(), y: yi.1.reduce() },
                ),
            )
        },
    }
}


/// An axis-aligned box in the normalized space, as exact rationals:
/// bottom-left corner `(bx, by)`, top-right corner `(tx, ty)`.
pub ghost struct RatBox {
    /// The bottom-left x coordinate.
    pub bx: Rat,
    /// The bottom-left y coordinate.
    pub by: Rat,
    /// The top-right x coordinate.
    pub tx: Rat,
    /// The top-right y coordinate.
    pub ty: Rat,
}

/// The root box spanning the whole [0,2] canvas.
pub open spec fn root_box() -> RatBox {
    RatBox { bx: rat_of_int(0), by: rat_of_int(0), tx: rat_of_int(2), ty: rat_of_int(2) }
}

/// Whether resolving a child box against `b` with the percentages `w`,
/// `h` stays inside the machine bounds.
pub open spec fn box_fits(b: RatBox, w: Rat, h: Rat, pos: Position) -> bool {
    &&& rat_in_bounds(rat_pct(w))
    &&& rat_in_bounds(rat_pct(h))
    &&& interval_fits(b.bx, b.tx, rat_pct(w), spec_x_anchor(pos))
    &&& interval_fits(b.by, b.ty, rat_pct(h), spec_y_anchor(pos))
}

/// Each corner coordinate of a box in lowest terms.
pub open spec fn box_reduce(b: RatBox) -> RatBox {
    RatBox {
        bx: rat_reduce(b.bx),
        by: rat_reduce(b.by),
        tx: rat_reduce(b.tx),
        ty: rat_reduce(b.ty),
    }
}

/// The child box resolved against `b`: `w` percent of the width, `h`
/// percent of the height, anchored per the position bucket.
pub open spec fn box_resolve(b: RatBox, w: Rat, h: Rat, pos: Position) -> RatBox {
    RatBox {
        bx: interval_lo(b.bx, b.tx, rat_pct(w), spec_x_anchor(pos)),
        by: interval_lo(b.by, b.ty, rat_pct(h), spec_y_anchor(pos)),
        tx: interval_hi(b.bx, b.tx, rat_pct(w), spec_x_anchor(pos)),
        ty: interval_hi(b.by, b.ty, rat_pct(h), spec_y_anchor(pos)),
    }
}

/// Whether all four corners of `b` can be re-biased to device space
/// inside the machine bounds.
pub open spec fn device_fits(b: RatBox) -> bool {
    &&& rat_in_bounds(rat_sub(b.bx, rat_of_int(1)))
    &&& rat_in_bounds(rat_sub(b.by, rat_of_int(1)))
    &&& rat_in_bounds(rat_sub(b.tx, rat_of_int(1)))
    &&& rat_in_bounds(rat_sub(b.ty, rat_of_int(1)))
}


/// Resolving with a 100% size reproduces the parent interval, whatever
/// the anchor.
proof fn lemma_interval_identity(lo: Rat, hi: Rat, a: Anchor)
    requires
        rat_wf(lo),
        rat_wf(hi),
    ensures
        rat_eq(interval_lo(lo, hi, rat_pct(rat_of_int(100)), a), lo),
        rat_eq(interval_hi(lo, hi, rat_pct(rat_of_int(100)), a), hi),
{
    let f = rat_pct(rat_of_int(100));
    assert(f.num == 100 && f.den == 100);
    let ln = lo.num;
    let ld = lo.den;
    let hn = hi.num;
    let hd = hi.den;
    match a {
        Anchor::Low => {
            let h = interval_hi(lo, hi, f, a);
            assert(h.num == ln * ((hd * ld) * 100) + ((hn * ld - ln * hd) * 100) * ld);
            assert(h.den == ld * ((hd * ld) * 100));
            assert(h.num * hd == hn * h.den) by (nonlinear_arith)
                requires
                    h.num == ln * ((hd * ld) * 100) + ((hn * ld - ln * hd) * 100) * ld,
                    h.den == ld * ((hd * ld) * 100),
            ;
        },
        Anchor::High => {
            let l = interval_lo(lo, hi, f, a);
            assert(l.num == hn * ((hd * ld) * 100) - ((hn * ld - ln * hd) * 100) * hd);
            assert(l.den == hd * ((hd * ld) * 100));
            assert(l.num * ld == ln * l.den) by (nonlinear_arith)
                requires
                    l.num == hn * ((hd * ld) * 100) - ((hn * ld - ln * hd) * 100) * hd,
                    l.den == hd * ((hd * ld) * 100),
            ;
        },
        Anchor::Mid => {
            let l = interval_lo(lo, hi, f, a);
            let h = interval_hi(lo, hi, f, a);
            let bn = (hn * ld - ln * hd) * ((hd * ld) * 100) - ((hn * ld - ln * hd) * 100) * (hd
                * ld);
            let bd = (hd * ld) * ((hd * ld) * 100);
            assert(l.num == ln * (bd * 2) + bn * ld);
            assert(l.den == ld * (bd * 2));
            assert(l.num * ld == ln * l.den) by (nonlinear_arith)
                requires
                    l.num == ln * (bd * 2) + bn * ld,
                    l.den == ld * (bd * 2),
                    bn == (hn * ld - ln * hd) * ((hd * ld) * 100) - ((hn * ld - ln * hd) * 100) * (
                    hd * ld),
            ;
            let an = (hn * ld - ln * hd) * ((hd * ld) * 100) + ((hn * ld - ln * hd) * 100) * (hd
                * ld);
            let ad = (hd * ld) * ((hd * ld) * 100);
            assert(h.num == ln * (ad * 2) + an * ld);
            assert(h.den == ld * (ad * 2));
            assert(h.num * hd == hn * h.den) by (nonlinear_arith)
                requires
                    h.num == ln * (ad * 2) + an * ld,
                    h.den == ld * (ad * 2),
                    an == (hn * ld - ln * hd) * ((hd * ld) * 100) + ((hn * ld - ln * hd) * 100) * (
                    hd * ld),
                    ad == (hd * ld) * ((hd * ld) * 100),
            ;
        },
    }
}

/// Identity law: with a size of 100% in both axes, the resolved child
/// box equals the parent's box exactly, for every position bucket.
pub proof fn lemma_resolve_identity(b: RatBox, pos: Position)
    requires
        rat_wf(b.bx),
        rat_wf(b.by),
        rat_wf(b.tx),
        rat_wf(b.ty),
    ensures
        rat_eq(box_resolve(b, rat_of_int(100), rat_of_int(100), pos).bx, b.bx),
        rat_eq(box_resolve(b, rat_of_int(100), rat_of_int(100), pos).by, b.by),
        rat_eq(box_resolve(b, rat_of_int(100), rat_of_int(100), pos).tx, b.tx),
        rat_eq(box_resolve(b, rat_of_int(100), rat_of_int(100), pos).ty, b.ty),
{
    lemma_interval_identity(b.bx, b.tx, spec_x_anchor(pos));
    lemma_interval_identity(b.by, b.ty, spec_y_anchor(pos));
}

/// A child interval resolved with a fraction between 0 and 1 lies within
/// the parent interval, whatever the anchor.
proof fn lemma_interval_contained(lo: Rat, hi: Rat, f: Rat, a: Anchor)
    requires
        rat_wf(lo),
        rat_wf(hi),
        rat_wf(f),
        rat_le(lo, hi),
        rat_le(rat_of_int(0), f),
        rat_le(f, rat_of_int(1)),
    ensures
        rat_le(lo, interval_lo(lo, hi, f, a)),
        rat_le(interval_lo(lo, hi, f, a), interval_hi(lo, hi, f, a)),
        rat_le(interval_hi(lo, hi, f, a), hi),
{
    let ln = lo.num;
    let ld = lo.den;
    let hn = hi.num;
    let hd = hi.den;
    let fn_ = f.num;
    let fd = f.den;
    let l = interval_lo(lo, hi, f, a);
    let h = interval_hi(lo, hi, f, a);
    match a {
        Anchor::Low => {
            assert(h.num == ln * ((hd * ld) * fd) + ((hn * ld - ln * hd) * fn_) * ld);
            assert(h.den == ld * ((hd * ld) * fd));
            assert(ln * h.den <= h.num * ld && h.num * hd <= hn * h.den) by (nonlinear_arith)
                requires
                    h.num == ln * ((hd * ld) * fd) + ((hn * ld - ln * hd) * fn_) * ld,
                    h.den == ld * ((hd * ld) * fd),
                    ld > 0,
                    hd > 0,
                    fd > 0,
                    ln * hd <= hn * ld,
                    0 <= fn_,
                    fn_ <= fd,
            ;
        },
        Anchor::High => {
            assert(l.num == hn * ((hd * ld) * fd) - ((hn * ld - ln * hd) * fn_) * hd);
            assert(l.den == hd * ((hd * ld) * fd));
            assert(ln * l.den <= l.num * ld && l.num * hd <= hn * l.den) by (nonlinear_arith)
                requires
                    l.num == hn * ((hd * ld) * fd) - ((hn * ld - ln * hd) * fn_) * hd,
                    l.den == hd * ((hd * ld) * fd),
                    ld > 0,
                    hd > 0,
                    fd > 0,
                    ln * hd <= hn * ld,
                    0 <= fn_,
                    fn_ <= fd,
            ;
        },
        Anchor::Mid => {
            let wn = hn * ld - ln * hd;
            let wd = hd * ld;
            let bn = wn * (wd * fd) - (wn * fn_) * wd;
            let bd = wd * (wd * fd);
            let an = wn * (wd * fd) + (wn * fn_) * wd;
            assert(l.num == ln * (bd * 2) + bn * ld);
            assert(l.den == ld * (bd * 2));
            assert(h.num == ln * (bd * 2) + an * ld);
            assert(h.den == ld * (bd * 2));
            assert(wn >= 0);
            assert(wd > 0) by (nonlinear_arith)
                requires
                    wd == hd * ld,
                    hd > 0,
                    ld > 0,
            ;
            assert(ln * l.den <= l.num * ld) by (nonlinear_arith)
                requires
                    l.num == ln * (bd * 2) + bn * ld,
                    l.den == ld * (bd * 2),
                    bn == wn * (wd * fd) - (wn * fn_) * wd,
                    wn >= 0,
                    wd > 0,
                    ld > 0,
                    fn_ <= fd,
            ;
            assert(l.num * h.den <= h.num * l.den) by (nonlinear_arith)
                requires
                    l.num == ln * (bd * 2) + bn * ld,
                    l.den == ld * (bd * 2),
                    h.num == ln * (bd * 2) + an * ld,
                    h.den == ld * (bd * 2),
                    bn == wn * (wd * fd) - (wn * fn_) * wd,
                    an == wn * (wd * fd) + (wn * fn_) * wd,
                    bd == wd * (wd * fd),
                    wn >= 0,
                    wd > 0,
                    fd > 0,
                    ld > 0,
                    0 <= fn_,
            ;
            assert(an * wd <= 2 * (bd * wn)) by (nonlinear_arith)
                requires
                    an == wn * (wd * fd) + (wn * fn_) * wd,
                    bd == wd * (wd * fd),
                    wn >= 0,
                    wd > 0,
                    fn_ <= fd,
            ;
            assert(bd > 0) by (nonlinear_arith)
                requires
                    bd == wd * (wd * fd),
                    wd > 0,
                    fd > 0,
            ;
            assert(h.num * hd <= hn * h.den) by (nonlinear_arith)
                requires
                    h.num == ln * (bd * 2) + an * ld,
                    h.den == ld * (bd * 2),
                    an * (hd * ld) <= 2 * (bd * wn),
                    wd == hd * ld,
                    an * wd <= 2 * (bd * wn),
                    wn == hn * ld - ln * hd,
                    bd > 0,
                    hd > 0,
                    ld > 0,
            ;
        },
    }
}

/// Containment law: a child box resolved with percentages between 0 and
/// 100 always lies within its parent's box, for every position bucket.
pub proof fn lemma_resolve_contained(b: RatBox, w: Rat, h: Rat, pos: Position)
    requires
        rat_wf(b.bx),
        rat_wf(b.by),
        rat_wf(b.tx),
        rat_wf(b.ty),
        rat_wf(w),
        rat_wf(h),
        rat_le(b.bx, b.tx),
        rat_le(b.by, b.ty),
        rat_le(rat_of_int(0), w),
        rat_le(w, rat_of_int(100)),
        rat_le(rat_of_int(0), h),
        rat_le(h, rat_of_int(100)),
    ensures
        rat_le(b.bx, box_resolve(b, w, h, pos).bx),
        rat_le(box_resolve(b, w, h, pos).bx, box_resolve(b, w, h, pos).tx),
        rat_le(box_resolve(b, w, h, pos).tx, b.tx),
        rat_le(b.by, box_resolve(b, w, h, pos).by),
        rat_le(box_resolve(b, w, h, pos).by, box_resolve(b, w, h, pos).ty),
        rat_le(box_resolve(b, w, h, pos).ty, b.ty),
{
    assert(rat_wf(rat_pct(w)) && rat_le(rat_of_int(0), rat_pct(w)) && rat_le(
        rat_pct(w),
        rat_of_int(1),
    ));
    assert(rat_wf(rat_pct(h)) && rat_le(rat_of_int(0), rat_pct(h)) && rat_le(
        rat_pct(h),
        rat_of_int(1),
    ));
    lemma_interval_contained(b.bx, b.tx, rat_pct(w), spec_x_anchor(pos));
    lemma_interval_contained(b.by, b.ty, rat_pct(h), spec_y_anchor(pos));
}

} // verus!
