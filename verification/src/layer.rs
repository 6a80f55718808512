use vstd::prelude::*;

verus! {

/// Denominator of a fractional scale: a scale of `s` means `s / 120`.
pub const FRACTIONAL_SCALE_UNIT: u32 = 120;

/// What the daemon knows of a background layer's size: the logical size
/// from the compositor's configure event and the fractional scale of the
/// surface, each absent until it has been received.
#[derive(Debug, Clone, Copy)]
pub struct LayerGeometry {
    /// Logical width and height.
    pub size: Option<(u32, u32)>,
    /// Fractional scale, in units of `1 / FRACTIONAL_SCALE_UNIT`.
    pub fractional_scale: Option<u32>,
}

/// A logical length scaled to physical pixels, rounded down.
pub open spec fn scaled_len(len: u32, scale: u32) -> int {
    (len * scale) / FRACTIONAL_SCALE_UNIT as int
}

impl LayerGeometry {
    /// The physical size of the layer's buffer, once both the logical size
    /// and the scale are known.
    pub open spec fn physical_size(self) -> Option<(u32, u32)> {
        match (self.size, self.fractional_scale) {
            (Some((w, h)), Some(s)) => Some((scaled_len(w, s) as u32, scaled_len(h, s) as u32)),
            _ => None,
        }
    }

    /// Whether scaling the logical size stays within `u32`.
    pub open spec fn scale_fits(self) -> bool {
        match (self.size, self.fractional_scale) {
            (Some((w, h)), Some(s)) => w * s <= u32::MAX && h * s <= u32::MAX,
            _ => true,
        }
    }

    /// A layer whose size and scale are not known yet.
    pub fn unconfigured(fractional_scale: Option<u32>) -> (geometry: Self)
        ensures
            geometry.size is None,
            geometry.fractional_scale == fractional_scale,
    {
        LayerGeometry { size: None, fractional_scale }
    }

    /// Physical pixel dimensions for the shared-memory buffer and the GPU
    /// target.
    pub fn buffer_size(&self) -> (size: Option<(u32, u32)>)
        requires
            self.scale_fits(),
        ensures
            size == self.physical_size(),
            size is Some <==> self.size is Some && self.fractional_scale is Some,
            size matches Some((bw, bh)) ==> scale_rounds_down(self.size.unwrap().0, self.fractional_scale.unwrap(), bw)
                && scale_rounds_down(self.size.unwrap().1, self.fractional_scale.unwrap(), bh),
    {
        proof {
            lemma_physical_size_rounds_down(*self);
        }
        let (w, h) = match self.size {
            Some(s) => s,
            None => return None,
        };
        let scale = match self.fractional_scale {
            Some(s) => s,
            None => return None,
        };
        Some((w * scale / FRACTIONAL_SCALE_UNIT, h * scale / FRACTIONAL_SCALE_UNIT))
    }

    /// The size a frame is rendered at: the buffer size, when it is known and
    /// neither side is zero.
    pub fn render_size(&self) -> (size: Option<(u32, u32)>)
        requires
            self.scale_fits(),
        ensures
            size == (match self.physical_size() {
                Some((w, h)) => if w != 0 && h != 0 {
                    Some((w, h))
                } else {
                    None
                },
                None => None,
            }),
    {
        match self.buffer_size() {
            Some((w, h)) => if w != 0 && h != 0 {
                Some((w, h))
            } else {
                None
            },
            None => None,
        }
    }

    /// The dimensions that the buffer pool must hold: the buffer size, or
    /// the logical size while the scale is unknown.
    pub fn pool_dimensions(&self) -> (size: Option<(u32, u32)>)
        requires
            self.scale_fits(),
        ensures
            size == (match self.physical_size() {
                Some(p) => Some(p),
                None => self.size,
            }),
    {
        match self.buffer_size() {
            Some(p) => Some(p),
            None => self.size,
        }
    }

    /// Records the size from a configure event. A zero width or height means
    /// that the compositor leaves the size to the client, which then takes
    /// the output's logical size; without one the event is ignored. Returns
    /// whether a size was recorded, in which case the layer needs a redraw.
    pub fn configure(&mut self, new_size: (u32, u32), output_logical_size: Option<(i32, i32)>) -> (configured: bool)
        ensures
            configured == (new_size.0 != 0 && new_size.1 != 0 || output_logical_size is Some),
            final(self).fractional_scale == old(self).fractional_scale,
            final(self).size == (if new_size.0 != 0 && new_size.1 != 0 {
                Some(new_size)
            } else {
                match output_logical_size {
                    Some((lw, lh)) => Some((lw as u32, lh as u32)),
                    None => old(self).size,
                }
            }),
    {
        let (mut w, mut h) = new_size;
        if w == 0 || h == 0 {
            match output_logical_size {
                Some((lw, lh)) => {
                    w = lw as u32;
                    h = lh as u32;
                },
                None => return false,
            }
        }
        self.size = Some((w, h));
        true
    }
}

/// At the unit scale the buffer has the logical size.
pub proof fn lemma_unit_scale_keeps_logical_size(g: LayerGeometry)
    requires
        g.fractional_scale == Some(FRACTIONAL_SCALE_UNIT),
        g.size is Some,
    ensures
        g.physical_size() == g.size,
{
    let (w, h) = g.size.unwrap();
    assert(w * 120 / 120 == w) by (nonlinear_arith);
    assert(h * 120 / 120 == h) by (nonlinear_arith);
}

/// A larger scale never gives a smaller buffer.
pub proof fn lemma_scaled_len_grows_with_scale(len: u32, s1: u32, s2: u32)
    requires
        s1 <= s2,
    ensures
        scaled_len(len, s1) <= scaled_len(len, s2),
{
    assert(len * s1 / 120 <= len * s2 / 120) by (nonlinear_arith)
        requires s1 <= s2, len >= 0;
}

/// Number of bytes of an XRGB8888 buffer of `width` by `height` pixels,
/// unless it overflows `usize`.
pub fn pool_byte_len(width: u32, height: u32) -> (bytes: Option<usize>)
    ensures
        bytes == (if width * height * 4 <= usize::MAX {
            Some((width * height * 4) as usize)
        } else {
            None
        }),
{
    match (width as usize).checked_mul(height as usize) {
        Some(pixels) => match pixels.checked_mul(4) {
            Some(bytes) => Some(bytes),
            None => None,
        },
        None => {
            proof {
                assert(width * height * 4 >= width * height) by (nonlinear_arith);
            }
            None
        },
    }
}

/// The fractional scale equivalent to an output's integer scale factor; a
/// factor below one counts as one.
pub fn fractional_scale_for(scale_factor: i32) -> (scale: u32)
    requires
        scale_factor <= u32::MAX / FRACTIONAL_SCALE_UNIT,
    ensures
        scale == (if scale_factor < 1 { 1 } else { scale_factor }) * FRACTIONAL_SCALE_UNIT,
{
    let factor = if scale_factor < 1 { 1 } else { scale_factor };
    factor as u32 * FRACTIONAL_SCALE_UNIT
}

/// `physical` is `len` logical pixels at `scale / 120`, rounded down:
/// the largest whole number of pixels not above the exact scaled length.
pub open spec fn scale_rounds_down(len: u32, scale: u32, physical: u32) -> bool {
    physical * FRACTIONAL_SCALE_UNIT <= len * scale < (physical + 1) * FRACTIONAL_SCALE_UNIT
}

/// A known buffer size is each logical side times the scale over 120,
/// rounded down; it is known exactly when both the logical size and the
/// scale are.
pub proof fn lemma_physical_size_rounds_down(g: LayerGeometry)
    requires
        g.scale_fits(),
    ensures
        g.physical_size() is Some <==> g.size is Some && g.fractional_scale is Some,
        g.physical_size() matches Some((bw, bh)) ==> scale_rounds_down(g.size.unwrap().0, g.fractional_scale.unwrap(), bw)
            && scale_rounds_down(g.size.unwrap().1, g.fractional_scale.unwrap(), bh),
{
    if g.size is Some && g.fractional_scale is Some {
        let (w, h) = g.size.unwrap();
        let s = g.fractional_scale.unwrap();
        let bw = (w * s) / 120;
        let bh = (h * s) / 120;
        assert(bw * 120 <= w * s < (bw + 1) * 120) by (nonlinear_arith)
            requires bw == (w * s) / 120, w * s >= 0;
        assert(bh * 120 <= h * s < (bh + 1) * 120) by (nonlinear_arith)
            requires bh == (h * s) / 120, h * s >= 0;
        assert(0 <= bw <= w * s && 0 <= bh <= h * s) by (nonlinear_arith)
            requires bw == (w * s) / 120, bh == (h * s) / 120, w * s >= 0, h * s >= 0;
    }
}

} // verus!
