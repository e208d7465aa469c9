//! Monitors, the integer scale that follows from them, and buffer sizes.

use vstd::prelude::*;

verus! {

/// A monitor that the compositor announced.
#[derive(Clone, Copy, Debug, PartialEq, Eq, Structural)]
pub struct Output {
    /// Name under which the registry announced the monitor.
    pub reg_name: u32,
    /// Identity of the bound protocol object.
    pub id: u32,
    /// Version of the bound protocol object.
    pub version: u32,
    /// Integer scale factor that the monitor last reported.
    pub scale: u32,
}

/// Greatest scale among the outputs whose identity is in `members`, if there
/// is such an output.
pub open spec fn member_scale(outputs: Seq<Output>, members: Set<u32>) -> Option<u32>
    decreases outputs.len(),
{
    if outputs.len() == 0 {
        None
    } else {
        let rest = member_scale(outputs.drop_last(), members);
        let o = outputs.last();
        if !members.contains(o.id) {
            rest
        } else if rest is Some && rest->Some_0 >= o.scale {
            rest
        } else {
            Some(o.scale)
        }
    }
}

/// The scale used where only whole factors are possible: a fractional scale,
/// given in 120ths, is rounded up; without one the greatest scale of the
/// overlapped outputs counts, and 1 if there is none.
pub open spec fn spec_int_scale(scale120: Option<u32>, outputs: Seq<Output>, members: Set<u32>) -> int {
    match scale120 {
        Some(s) => (s + 119) / 120,
        None => match member_scale(outputs, members) {
            Some(m) => m as int,
            None => 1,
        },
    }
}

/// The scale in 120ths at which buffers are drawn: the fractional scale where
/// the compositor reported one, else the integer scale.
pub open spec fn spec_scale120(scale120: Option<u32>, outputs: Seq<Output>, members: Set<u32>) -> int {
    match scale120 {
        Some(s) => s as int,
        None => spec_int_scale(scale120, outputs, members) * 120,
    }
}

/// `member_scale` is the maximum it is named after: no overlapped output has a
/// greater scale, one of them has exactly this scale, and there is none only
/// if no output is overlapped.
pub proof fn lemma_member_scale_is_max(outputs: Seq<Output>, members: Set<u32>)
    ensures
        match member_scale(outputs, members) {
            Some(m) => {
                &&& exists|i: int| 0 <= i < outputs.len() && members.contains(#[trigger] outputs[i].id)
                        && outputs[i].scale == m
                &&& forall|i: int| 0 <= i < outputs.len() && members.contains(#[trigger] outputs[i].id)
                        ==> outputs[i].scale <= m
            },
            None => forall|i: int| 0 <= i < outputs.len() ==> !members.contains(#[trigger] outputs[i].id),
        },
    decreases outputs.len(),
{
    if outputs.len() > 0 {
        let front = outputs.drop_last();
        let o = outputs.last();
        lemma_member_scale_is_max(front, members);
        assert forall|i: int| 0 <= i < front.len() implies front[i] == outputs[i] by {}
        match member_scale(front, members) {
            Some(m) => {
                let w = choose|i: int| 0 <= i < front.len() && members.contains(#[trigger] front[i].id)
                    && front[i].scale == m;
                assert(outputs[w] == front[w]);
                if members.contains(o.id) && m < o.scale {
                    assert(outputs[outputs.len() - 1] == o);
                    assert forall|i: int| 0 <= i < outputs.len() && members.contains(#[trigger] outputs[i].id)
                        implies outputs[i].scale <= o.scale by {
                        if i < front.len() {
                            assert(front[i] == outputs[i]);
                        }
                    }
                } else {
                    assert forall|i: int| 0 <= i < outputs.len() && members.contains(#[trigger] outputs[i].id)
                        implies outputs[i].scale <= m by {
                        if i < front.len() {
                            assert(front[i] == outputs[i]);
                        }
                    }
                }
            },
            None => {
                if members.contains(o.id) {
                    assert(outputs[outputs.len() - 1] == o);
                    assert forall|i: int| 0 <= i < outputs.len() && members.contains(#[trigger] outputs[i].id)
                        implies outputs[i].scale <= o.scale by {
                        if i < front.len() {
                            assert(front[i] == outputs[i]);
                        }
                    }
                } else {
                    assert forall|i: int| 0 <= i < outputs.len() implies !members.contains(#[trigger] outputs[i].id) by {
                        if i < front.len() {
                            assert(front[i] == outputs[i]);
                        }
                    }
                }
            },
        }
    }
}

/// Number of device pixels that `logical` pixels cover at a scale given in
/// 120ths, rounded to the nearest whole with halves rounded up.
pub open spec fn spec_pixel_size(logical: u32, scale120: u64) -> int {
    (logical * scale120 + 60) / 120
}

/// Number of device pixels that `logical` pixels cover at `scale120`.
pub fn pixel_size(logical: u32, scale120: u64) -> (r: u128)
    ensures
        r == spec_pixel_size(logical, scale120),
{
    assert(logical * scale120 <= 0xffff_ffff * 0xffff_ffff_ffff_ffff) by (nonlinear_arith)
        requires
            0 <= logical <= 0xffff_ffff,
            0 <= scale120 <= 0xffff_ffff_ffff_ffff,
    ;
    (logical as u128 * scale120 as u128 + 60) / 120
}

/// Geometry of a shared-memory buffer with four bytes to the pixel.
#[derive(Clone, Copy, Debug, PartialEq, Eq, Structural)]
pub struct BufferSpec {
    pub width: u32,
    pub height: u32,
    pub stride: u32,
}

impl BufferSpec {
    /// The buffer of the given size in pixels, where its stride, four times
    /// its width, fits in 32 bits.
    pub open spec fn spec_for_size(width: int, height: int) -> Option<BufferSpec> {
        if 0 <= width && width * 4 <= u32::MAX && 0 <= height <= u32::MAX {
            Some(BufferSpec { width: width as u32, height: height as u32, stride: (width * 4) as u32 })
        } else {
            None
        }
    }

    /// The buffer of the given size in pixels, if its stride fits.
    pub fn for_size(width: u32, height: u32) -> (r: Option<BufferSpec>)
        ensures
            r == Self::spec_for_size(width as int, height as int),
    {
        if width <= 0x3fff_ffff {
            Some(BufferSpec { width, height, stride: width * 4 })
        } else {
            None
        }
    }
}

/// The buffer that covers a window of the given logical size at the given
/// scale in 120ths, where its width, height and stride each fit in 32 bits.
pub open spec fn spec_buffer_spec(width: u32, height: u32, scale120: u64) -> Option<BufferSpec> {
    BufferSpec::spec_for_size(spec_pixel_size(width, scale120), spec_pixel_size(height, scale120))
}

/// The buffer that covers a window of the given logical size at `scale120`.
pub fn buffer_spec(width: u32, height: u32, scale120: u64) -> (r: Option<BufferSpec>)
    ensures
        r == spec_buffer_spec(width, height, scale120),
{
    let w: u128 = pixel_size(width, scale120);
    let h: u128 = pixel_size(height, scale120);
    if w <= 0x3fff_ffff && h <= 0xffff_ffff {
        BufferSpec::for_size(w as u32, h as u32)
    } else {
        None
    }
}

} // verus!
