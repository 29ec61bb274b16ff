use vstd::prelude::*;

use crate::config::PixelFormat;

verus! {

/// What buffer `dst` holds after pixel data `src` was read
/// into it from the start: the first bytes of `src`, as many as fit, and the
/// buffer's own bytes after them.
pub open spec fn read_into(dst: Seq<u8>, src: Seq<u8>) -> Seq<u8> {
    let n = copied_len(dst.len(), src.len());
    src.subrange(0, n) + dst.subrange(n, dst.len() as int)
}

/// Number of bytes that one read of `src_len` bytes into a buffer of
/// `dst_len` bytes moves.
pub open spec fn copied_len(dst_len: nat, src_len: nat) -> int {
    if dst_len <= src_len {
        dst_len as int
    } else {
        src_len as int
    }
}

/// Format description attached to a filled buffer: a single plane starting
/// at `offset`, rows `stride` bytes apart.
#[derive(Clone, Copy, Debug, PartialEq, Eq, Structural)]
pub struct FrameMeta {
    pub format: PixelFormat,
    pub width: u32,
    pub height: u32,
    pub offset: usize,
    pub stride: i32,
}

/// Outcome of filling one buffer from one frame.
#[derive(Clone, Copy, Debug, PartialEq, Eq, Structural)]
pub struct Filled {
    /// Bytes of the buffer that now hold pixel data; the buffer is cut to it.
    pub size: usize,
    pub meta: FrameMeta,
}

/// Copies pixel data into the front of `dst`, as many bytes as both hold,
/// and returns how many were copied.
pub fn read_pixels(dst: &mut [u8], src: &[u8]) -> (n: usize)
    ensures
        n == copied_len(old(dst)@.len(), src@.len()),
        final(dst)@ == read_into(old(dst)@, src@),
{
    let n: usize = if dst.len() <= src.len() {
        dst.len()
    } else {
        src.len()
    };
    let mut i: usize = 0;
    while i < n
        invariant
            n == copied_len(old(dst)@.len(), src@.len()),
            i <= n,
            dst@.len() == old(dst)@.len(),
            forall|k: int| 0 <= k < i ==> dst@[k] == src@[k],
            forall|k: int| i <= k < dst@.len() ==> dst@[k] == old(dst)@[k],
        decreases n - i,
    {
        dst[i] = src[i];
        i = i + 1;
    }
    assert(dst@ =~= read_into(old(dst)@, src@));
    n
}

/// Format description of a frame of the given size whose rows are
/// `bytes_per_row` bytes apart; the stride is that count read as a signed
/// 32-bit integer.
pub fn frame_meta(width: u32, height: u32, bytes_per_row: u32) -> (m: FrameMeta)
    ensures
        m == (FrameMeta {
            format: PixelFormat::Bgra,
            width,
            height,
            offset: 0,
            stride: bytes_per_row as i32,
        }),
{
    FrameMeta { format: PixelFormat::Bgra, width, height, offset: 0, stride: bytes_per_row as i32 }
}

/// Fills a writable buffer from one captured frame: its pixel data is read
/// into the buffer, the buffer's size becomes the count read, and the
/// frame's format description goes with it.
pub fn fill_from_frame(
    dst: &mut [u8],
    pixels: &[u8],
    width: u32,
    height: u32,
    bytes_per_row: u32,
) -> (r: Filled)
    ensures
        r.size == copied_len(old(dst)@.len(), pixels@.len()),
        final(dst)@ == read_into(old(dst)@, pixels@),
        r.meta == (FrameMeta {
            format: PixelFormat::Bgra,
            width,
            height,
            offset: 0,
            stride: bytes_per_row as i32,
        }),
{
    let size = read_pixels(dst, pixels);
    Filled { size, meta: frame_meta(width, height, bytes_per_row) }
}

} // verus!
