//! Layout of the buffer through which a rendered frame is read back.
//!
//! The graphics backend hands a frame back line by line, each line padded to a
//! whole number of blocks of pixels. What the embedder gets has no padding.

use vstd::prelude::*;

verus! {

/// Number of pixels to a whole number of which a line is padded.
pub const LINE_ALIGN_PIXELS: u32 = 64;

/// Bytes in a pixel.
pub const BYTES_PER_PIXEL: u32 = 4;

/// The smallest multiple of `alignment` that is not below `x`.
pub open spec fn aligned(x: int, alignment: int) -> int {
    if x % alignment == 0 {
        x
    } else {
        x + alignment - x % alignment
    }
}

/// Rounds `x` up to a multiple of `alignment`.
pub fn align_value(x: u32, alignment: u32) -> (r: u32)
    requires
        alignment > 0,
        aligned(x as int, alignment as int) <= u32::MAX,
    ensures
        r == aligned(x as int, alignment as int),
        r % alignment == 0,
        x <= r < x + alignment,
{
    let rem: u32 = x % alignment;
    proof {
        align_is_multiple(x as int, alignment as int);
    }
    if rem == 0 {
        x
    } else {
        x + (alignment - rem)
    }
}

/// `aligned` is a multiple of the alignment, not below `x` and less than one
/// alignment above it.
pub proof fn align_is_multiple(x: int, alignment: int)
    requires
        0 <= x,
        0 < alignment,
    ensures
        aligned(x, alignment) % alignment == 0,
        x <= aligned(x, alignment) < x + alignment,
{
    if x % alignment != 0 {
        vstd::arithmetic::div_mod::lemma_fundamental_div_mod(x, alignment);
        vstd::arithmetic::div_mod::lemma_mod_bound(x, alignment);
        let q: int = x / alignment;
        assert(x + alignment - x % alignment == (q + 1) * alignment + 0) by (nonlinear_arith)
            requires
                x == alignment * q + x % alignment,
        ;
        vstd::arithmetic::div_mod::lemma_fundamental_div_mod_converse(
            x + alignment - x % alignment,
            alignment,
            q + 1,
            0,
        );
    }
}

/// The frame of `height` lines of `line` bytes that lies in `padded`, where
/// every line starts `pitch` bytes after the one before.
pub open spec fn unpadded(padded: Seq<u8>, line: int, pitch: int, height: int) -> Seq<u8> {
    Seq::new((line * height) as nat, |i: int| padded[(i / line) * pitch + i % line])
}

/// Copies `height` lines of `line` bytes from `padded`, where every line
/// starts `pitch` bytes after the one before, to the start of `output`, where
/// the lines follow each other with nothing between them. What `output` holds
/// behind the frame stays.
pub fn unpad_rows(padded: &[u8], output: &mut [u8], line: usize, pitch: usize, height: usize)
    requires
        line <= pitch,
        pitch * height <= padded@.len(),
        line * height <= old(output)@.len(),
    ensures
        final(output)@.len() == old(output)@.len(),
        final(output)@.subrange(0, line * height) == unpadded(
            padded@,
            line as int,
            pitch as int,
            height as int,
        ),
        final(output)@.subrange(line * height, old(output)@.len() as int) == old(output)@.subrange(
            line * height,
            old(output)@.len() as int,
        ),
{
    let padded_len: usize = padded.len();
    let output_len: usize = output.len();
    let ghost frame_len: int = line * height;
    let mut y: usize = 0;
    while y < height
        invariant
            line <= pitch,
            y <= height,
            padded_len == padded@.len(),
            output_len == output@.len(),
            output_len == old(output)@.len(),
            pitch * height <= padded_len,
            frame_len == line * height,
            frame_len <= output_len,
            forall|i: int|
                0 <= i < line * y ==> output@[i] == padded@[(i / (line as int)) * pitch + i % (
                line as int)],
            forall|i: int| frame_len <= i < output_len ==> output@[i] == old(output)@[i],
        decreases height - y,
    {
        assert(pitch * y + pitch <= pitch * height && line * y + line <= line * height && 0
            <= pitch * y && 0 <= line * y) by (nonlinear_arith)
            requires
                0 <= y < height,
                0 <= line <= pitch,
        ;
        let src_begin: usize = pitch * y;
        let dst_begin: usize = line * y;
        let mut x: usize = 0;
        while x < line
            invariant
                line <= pitch,
                x <= line,
                y < height,
                src_begin == pitch * y,
                dst_begin == line * y,
                padded_len == padded@.len(),
                output_len == output@.len(),
                output_len == old(output)@.len(),
                src_begin + pitch <= padded_len,
                dst_begin + line <= frame_len,
                frame_len <= output_len,
                forall|i: int|
                    0 <= i < dst_begin + x ==> output@[i] == padded@[(i / (line as int)) * pitch + i
                        % (line as int)],
                forall|i: int| frame_len <= i < output_len ==> output@[i] == old(output)@[i],
            decreases line - x,
        {
            proof {
                assert(dst_begin + x == (y as int) * (line as int) + x) by (nonlinear_arith)
                    requires
                        dst_begin == line * y,
                ;
                vstd::arithmetic::div_mod::lemma_fundamental_div_mod_converse(
                    dst_begin + x,
                    line as int,
                    y as int,
                    x as int,
                );
                assert(y * pitch == pitch * y) by (nonlinear_arith);
            }
            output[dst_begin + x] = padded[src_begin + x];
            x = x + 1;
        }
        assert(line * (y + 1) == dst_begin + line) by (nonlinear_arith)
            requires
                dst_begin == line * y,
        ;
        y = y + 1;
    }
    assert(output@.subrange(0, frame_len) =~= unpadded(
        padded@,
        line as int,
        pitch as int,
        height as int,
    ));
    assert(output@.subrange(frame_len, output_len as int) =~= old(output)@.subrange(
        frame_len,
        output_len as int,
    ));
}

} // verus!
