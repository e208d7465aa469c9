//! Pan and zoom of the displayed image.
//!
//! Offsets, scales and zoom magnitudes are fixed-point numbers: an `i64` that
//! counts 65536ths. The compositor reports positions as signed 24.8 numbers,
//! which [`from_wl_fixed`] widens without loss.

use vstd::prelude::*;

verus! {

/// The number one in the fixed-point format of this crate.
pub const ONE: i64 = 65536;

/// Widens a signed 24.8 protocol number to the fixed-point format of this crate.
pub fn from_wl_fixed(raw: i32) -> (r: i64)
    ensures
        r == raw * 256,
{
    raw as i64 * 256
}

/// Quotient of `n` by `d` rounded toward zero, for `d != 0`.
pub open spec fn trunc_div(n: int, d: int) -> int {
    if n >= 0 && d > 0 {
        n / d
    } else if n < 0 && d > 0 {
        -((-n) / d)
    } else if n >= 0 && d < 0 {
        -(n / (-d))
    } else {
        (-n) / (-d)
    }
}

/// Whether `v` is in the range of `i64`.
pub open spec fn fits_i64(v: int) -> bool {
    i64::MIN <= v <= i64::MAX
}

/// Change of scale that a zoom of magnitude `val` causes at scale `scale`:
/// minus one percent of the scale for each unit of magnitude.
pub open spec fn zoom_delta(scale: int, val: int) -> int {
    trunc_div(-(val * scale), 100 * ONE)
}

/// New offset along one axis after the scale changed by `ds` around `anchor`.
pub open spec fn zoom_offset(pos: int, anchor: int, ds: int, scale: int) -> int {
    pos + trunc_div((pos - anchor) * ds, scale)
}

/// Distance of one keyboard pan step: a twentieth of a window extent.
pub open spec fn move_step(extent: u32) -> int {
    (extent * ONE) / 20
}

/// Whether the point `(ax, ay)` of the surface shows the same point of the
/// image under `after` as under `before`, up to rounding: the image-local
/// coordinates `(anchor - offset) / scale` of the two, cross-multiplied,
/// differ by less than the scale of `before`.
pub open spec fn anchored(before: ImageTransform, after: ImageTransform, ax: int, ay: int) -> bool {
    &&& -before.scale < (ax - after.x) * before.scale - (ax - before.x) * after.scale < before.scale
    &&& -before.scale < (ay - after.y) * before.scale - (ay - before.y) * after.scale < before.scale
}

/// Something the user asked for, whatever the input device.
#[derive(Clone, Copy, Debug, PartialEq, Eq, Structural)]
pub enum Action {
    MoveLeft,
    MoveRight,
    MoveUp,
    MoveDown,
    /// Zoom that keeps the point `(x, y)` of the surface in place. A positive
    /// `val` shrinks the image, by `val` percent of the current scale.
    Zoom { x: i64, y: i64, val: i64 },
    ToggleFullscreen,
}

/// Where the image is drawn: the offset of its origin in surface-local
/// coordinates and its magnification.
#[derive(Clone, Copy, Debug, PartialEq, Eq, Structural)]
pub struct ImageTransform {
    /// X-offset in surface local coordinates
    pub x: i64,
    /// Y-offset in surface local coordinates
    pub y: i64,
    /// Scale
    pub scale: i64,
}

impl ImageTransform {
    /// A transform is well formed when its scale is positive.
    pub open spec fn wf(self) -> bool {
        self.scale > 0
    }

    /// The image at the origin of the surface, at its natural size.
    pub fn identity() -> (t: ImageTransform)
        ensures
            t == (ImageTransform { x: 0, y: 0, scale: ONE }),
            t.wf(),
    {
        ImageTransform { x: 0, y: 0, scale: ONE }
    }

    /// The transform moved by `(dx, dy)`, unless an offset would leave `i64`.
    pub open spec fn spec_pan(self, dx: int, dy: int) -> Option<ImageTransform> {
        if fits_i64(self.x + dx) && fits_i64(self.y + dy) {
            Some(ImageTransform { x: (self.x + dx) as i64, y: (self.y + dy) as i64, scale: self.scale })
        } else {
            None
        }
    }

    /// The transform zoomed by `val` around the anchor `(ax, ay)`. There is
    /// none when the scale is not positive before or after the zoom, or when a
    /// resulting number would leave `i64`.
    pub open spec fn spec_zoom(self, ax: int, ay: int, val: int) -> Option<ImageTransform> {
        let ds = zoom_delta(self.scale as int, val);
        let x = zoom_offset(self.x as int, ax, ds, self.scale as int);
        let y = zoom_offset(self.y as int, ay, ds, self.scale as int);
        let scale = self.scale + ds;
        if self.scale > 0 && 0 < scale <= i64::MAX && fits_i64(x) && fits_i64(y) {
            Some(ImageTransform { x: x as i64, y: y as i64, scale: scale as i64 })
        } else {
            None
        }
    }

    /// The transform after `action` in a window of the given logical size. An
    /// action whose result cannot be represented leaves the transform as it is.
    pub open spec fn spec_apply(self, action: Action, width: u32, height: u32) -> ImageTransform {
        let moved = match action {
            Action::MoveLeft => self.spec_pan(move_step(width), 0),
            Action::MoveRight => self.spec_pan(-move_step(width), 0),
            Action::MoveUp => self.spec_pan(0, move_step(height)),
            Action::MoveDown => self.spec_pan(0, -move_step(height)),
            Action::Zoom { x, y, val } => self.spec_zoom(x as int, y as int, val as int),
            Action::ToggleFullscreen => None,
        };
        match moved {
            Some(t) => t,
            None => self,
        }
    }

    /// The transform moved by `(dx, dy)`; none if an offset would leave `i64`.
    pub fn pan(&self, dx: i64, dy: i64) -> (r: Option<ImageTransform>)
        ensures
            r == self.spec_pan(dx as int, dy as int),
    {
        match (self.x.checked_add(dx), self.y.checked_add(dy)) {
            (Some(x), Some(y)) => Some(ImageTransform { x, y, scale: self.scale }),
            _ => None,
        }
    }

    /// The transform zoomed by `val` around the anchor `(ax, ay)`; none if the
    /// scale is or would become non-positive, or a number would leave `i64`.
    pub fn zoom(&self, ax: i64, ay: i64, val: i64) -> (r: Option<ImageTransform>)
        ensures
            r == self.spec_zoom(ax as int, ay as int, val as int),
            r matches Some(z) ==> z.wf() && anchored(*self, z, ax as int, ay as int),
    {
        if self.scale <= 0 {
            return None;
        }
        proof {
            if self.spec_zoom(ax as int, ay as int, val as int) is Some {
                lemma_zoom_keeps_anchor(*self, ax as int, ay as int, val as int);
            }
        }
        let s: i128 = self.scale as i128;
        assert(-0x4000_0000_0000_0000_0000_0000_0000_0000 <= val * self.scale
            <= 0x4000_0000_0000_0000_0000_0000_0000_0000) by (nonlinear_arith)
            requires
                -0x8000_0000_0000_0000 <= val <= 0x8000_0000_0000_0000,
                0 <= self.scale <= 0x8000_0000_0000_0000,
        ;
        let ds: i128 = -(val as i128 * s) / 6553600;
        let scale: i128 = s + ds;
        if scale <= 0 || scale > i64::MAX as i128 {
            return None;
        }
        let x = Self::zoom_axis(self.x, ax, ds, s);
        let y = Self::zoom_axis(self.y, ay, ds, s);
        match (x, y) {
            (Some(x), Some(y)) => Some(ImageTransform { x, y, scale: scale as i64 }),
            _ => None,
        }
    }

    fn zoom_axis(pos: i64, anchor: i64, ds: i128, scale: i128) -> (r: Option<i64>)
        requires
            0 < scale <= i64::MAX,
            0 < scale + ds <= i64::MAX,
        ensures
            r == (if fits_i64(zoom_offset(pos as int, anchor as int, ds as int, scale as int)) {
                Some(zoom_offset(pos as int, anchor as int, ds as int, scale as int) as i64)
            } else {
                None
            }),
    {
        let d: i128 = pos as i128 - anchor as i128;
        assert(-0x8000_0000_0000_0000_0000_0000_0000_0000 < d * ds
            < 0x8000_0000_0000_0000_0000_0000_0000_0000) by (nonlinear_arith)
            requires
                -0x1_0000_0000_0000_0000 < d < 0x1_0000_0000_0000_0000,
                -0x8000_0000_0000_0000 < ds < 0x8000_0000_0000_0000,
        ;
        let q: i128 = (d * ds) / scale;
        assert(-0x8000_0000_0000_0000_0000_0000_0000_0000 < q
            < 0x8000_0000_0000_0000_0000_0000_0000_0000) by {
            lemma_trunc_div_remainder(d * ds, scale as int);
            assert(-0x8000_0000_0000_0000_0000_0000_0000_0000 < q
                < 0x8000_0000_0000_0000_0000_0000_0000_0000) by (nonlinear_arith)
                requires
                    scale >= 1,
                    -scale < d * ds - q * scale < scale,
                    -0x8000_0000_0000_0000_0000_0000_0000_0000 < d * ds
                        < 0x8000_0000_0000_0000_0000_0000_0000_0000,
                    (d * ds >= 0) ==> q >= 0,
                    (d * ds <= 0) ==> q <= 0,
            ;
        };
        if q > 0x1_0000_0000_0000_0000 || q < -0x1_0000_0000_0000_0000 {
            return None;
        }
        let v: i128 = pos as i128 + q;
        if v < i64::MIN as i128 || v > i64::MAX as i128 {
            None
        } else {
            Some(v as i64)
        }
    }

    /// Applies `action` in a window of the given logical size.
    pub fn apply(&self, action: Action, width: u32, height: u32) -> (r: ImageTransform)
        ensures
            r == self.spec_apply(action, width, height),
            self.wf() ==> r.wf(),
    {
        let moved = match action {
            Action::MoveLeft => self.pan(Self::step(width), 0),
            Action::MoveRight => self.pan(-Self::step(width), 0),
            Action::MoveUp => self.pan(0, Self::step(height)),
            Action::MoveDown => self.pan(0, -Self::step(height)),
            Action::Zoom { x, y, val } => self.zoom(x, y, val),
            Action::ToggleFullscreen => None,
        };
        match moved {
            Some(t) => t,
            None => *self,
        }
    }

    fn step(extent: u32) -> (r: i64)
        ensures
            r == move_step(extent),
            0 <= r <= 0x3333_3333_3333,
    {
        (extent as i64 * ONE) / 20
    }
}

/// Rounding toward zero leaves a remainder smaller than the divisor, with the
/// sign of the dividend.
pub proof fn lemma_trunc_div_remainder(n: int, d: int)
    requires
        d > 0,
    ensures
        -d < n - trunc_div(n, d) * d < d,
        n >= 0 ==> trunc_div(n, d) >= 0 && n - trunc_div(n, d) * d >= 0,
        n <= 0 ==> trunc_div(n, d) <= 0 && n - trunc_div(n, d) * d <= 0,
{
    if n >= 0 {
        vstd::arithmetic::div_mod::lemma_fundamental_div_mod(n, d);
        vstd::arithmetic::div_mod::lemma_mod_bound(n, d);
        vstd::arithmetic::div_mod::lemma_div_pos_is_pos(n, d);
        assert(n - (n / d) * d == n % d) by (nonlinear_arith)
            requires
                n == d * (n / d) + n % d,
        ;
    } else {
        let m = -n;
        vstd::arithmetic::div_mod::lemma_fundamental_div_mod(m, d);
        vstd::arithmetic::div_mod::lemma_mod_bound(m, d);
        vstd::arithmetic::div_mod::lemma_div_pos_is_pos(m, d);
        assert(n - (-(m / d)) * d == -(m % d)) by (nonlinear_arith)
            requires
                m == d * (m / d) + m % d,
                n == -m,
        ;
    }
}

/// Zooming keeps the anchor in place: for any well-formed transform, anchor
/// and magnitude for which there is a zoomed transform, the image-local
/// coordinate under the anchor, `(anchor - offset) / scale`, is the same
/// before and after, up to the rounding of one division. The two quotients
/// differ by less than 1 divided by the new scale as it is stored, which at
/// scale 1 is one 65536th of an image pixel.
pub proof fn lemma_zoom_keeps_anchor(t: ImageTransform, ax: int, ay: int, val: int)
    requires
        t.wf(),
        t.spec_zoom(ax, ay, val) is Some,
    ensures
        t.spec_zoom(ax, ay, val)->Some_0.wf(),
        anchored(t, t.spec_zoom(ax, ay, val)->Some_0, ax, ay),
{
    let s = t.scale as int;
    let ds = zoom_delta(s, val);
    lemma_axis_keeps_anchor(t.x as int, ax, ds, s);
    lemma_axis_keeps_anchor(t.y as int, ay, ds, s);
}

proof fn lemma_axis_keeps_anchor(pos: int, anchor: int, ds: int, s: int)
    requires
        s > 0,
    ensures
        -s < (anchor - zoom_offset(pos, anchor, ds, s)) * s - (anchor - pos) * (s + ds) < s,
{
    let n = (pos - anchor) * ds;
    let q = trunc_div(n, s);
    lemma_trunc_div_remainder(n, s);
    assert((anchor - (pos + q)) * s - (anchor - pos) * (s + ds) == n - q * s) by (nonlinear_arith)
        requires
            n == (pos - anchor) * ds,
    ;
}

} // verus!
