//! Pixel arithmetic for site icons.
use vstd::prelude::*;

verus! {

/// A colour channel scaled by an alpha value, rounded to nearest.
pub open spec fn scaled(channel: u8, alpha: u8) -> u8 {
    ((channel as int * alpha as int + 127) / 255) as u8
}

/// Byte `i` of an RGBA buffer after its colour channels are multiplied by
/// their pixel's alpha: opaque pixels, alpha bytes and a trailing partial
/// pixel stay as they are.
pub open spec fn premultiplied_byte(buf: Seq<u8>, i: int) -> u8 {
    let start = i - i % 4;
    let alpha = buf[start + 3];
    if start + 4 > buf.len() || i % 4 == 3 || alpha == 255 {
        buf[i]
    } else {
        scaled(buf[i], alpha)
    }
}

fn scale(channel: u8, alpha: u8) -> (r: u8)
    ensures
        r == scaled(channel, alpha),
{
    let c = channel as u16;
    let a = alpha as u16;
    assert(c * a <= 255 * 255) by (nonlinear_arith)
        requires
            c <= 255,
            a <= 255,
    ;
    let v = (c * a + 127) / 255;
    assert(v <= 255) by (nonlinear_arith)
        requires
            c * a <= 255 * 255,
            v == (c * a + 127) / 255,
    ;
    v as u8
}

/// Multiply the colour channels of every whole RGBA pixel by its alpha.
pub fn premultiply_rgba(buffer: &mut Vec<u8>)
    ensures
        final(buffer)@.len() == old(buffer)@.len(),
        forall|i: int|
            0 <= i < old(buffer)@.len() ==> #[trigger] final(buffer)@[i] == premultiplied_byte(
                old(buffer)@,
                i,
            ),
{
    let ghost before = buffer@;
    let n = buffer.len();
    let mut p: usize = 0;
    while n >= 4 && p <= n - 4
        invariant
            n == buffer@.len(),
            n == before.len(),
            p % 4 == 0,
            p <= n,
            forall|i: int| 0 <= i < p ==> #[trigger] buffer@[i] == premultiplied_byte(before, i),
            forall|i: int| p <= i < n ==> #[trigger] buffer@[i] == before[i],
        decreases n - p,
    {
        let alpha = buffer[p + 3];
        if alpha != 255 {
            let r = scale(buffer[p], alpha);
            let g = scale(buffer[p + 1], alpha);
            let b = scale(buffer[p + 2], alpha);
            buffer.set(p, r);
            buffer.set(p + 1, g);
            buffer.set(p + 2, b);
        }
        assert forall|i: int| p <= i < p + 4 implies #[trigger] buffer@[i] == premultiplied_byte(
            before,
            i,
        ) by {
            assert(i - i % 4 == p as int);
        }
        p = p + 4;
    }
    assert forall|i: int| p <= i < n implies #[trigger] buffer@[i] == premultiplied_byte(
        before,
        i,
    ) by {
        assert(i - i % 4 + 4 > n);
    }
}

} // verus!
