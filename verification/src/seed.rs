use vstd::prelude::*;

verus! {

/// Column of the seed pattern's top-left corner.
pub const SEED_OFFSET_X: u32 = 400;

/// Row of the seed pattern's top-left corner.
pub const SEED_OFFSET_Y: u32 = 300;

/// Bytes per pixel of the board (red, green, blue, alpha).
pub const BYTES_PER_PIXEL: u32 = 4;

/// Value of every channel of a live pixel; a dead pixel has every channel 0.
pub const LIVE: u8 = 255;

/// The seed pattern's live cells, as (column, row) relative to its top-left corner.
pub open spec fn seed_pattern() -> Seq<(int, int)> {
    seq![(1, 0), (3, 1), (0, 2), (1, 2), (4, 2), (5, 2), (6, 2)]
}

/// The index, in a row-major board `width` pixels wide, of the pixel at column `x`, row `y`.
pub open spec fn pixel_index(width: int, x: int, y: int) -> int {
    width * y + x
}

/// Whether pixel `p` of a board `width` pixels wide is set by the seed: the seed cell at
/// column `c`, row `r` of the pattern lands on `pixel_index(width, SEED_OFFSET_X + c,
/// SEED_OFFSET_Y + r)`.
pub open spec fn is_seed_pixel(width: int, p: int) -> bool {
    exists|k: int|
        0 <= k < seed_pattern().len() && p == pixel_index(
            width,
            SEED_OFFSET_X + seed_pattern()[k].0,
            SEED_OFFSET_Y + seed_pattern()[k].1,
        )
}

/// The initial value of byte `i` of the board's RGBA data.
pub open spec fn seed_byte(width: int, i: int) -> u8 {
    if is_seed_pixel(width, i / (BYTES_PER_PIXEL as int)) {
        LIVE
    } else {
        0
    }
}

/// The sizes for which the board can be built: its byte length fits a `u32`, and the
/// last byte written by the seed lies inside the board.
pub open spec fn seed_fits(width: int, height: int) -> bool {
    &&& width * height * BYTES_PER_PIXEL <= u32::MAX
    &&& pixel_index(width, SEED_OFFSET_X + 6, SEED_OFFSET_Y + 2) < width * height
}

/// Whether `initial_board(width, height)` can be built.
pub fn board_fits(width: u32, height: u32) -> (ok: bool)
    ensures
        ok == seed_fits(width as int, height as int),
{
    assert(width as u64 * height as u64 <= 0xffff_ffff_u64 * 0xffff_ffff_u64) by (nonlinear_arith)
        requires
            width <= 0xffff_ffff_u32,
            height <= 0xffff_ffff_u32,
    ;
    let area: u64 = width as u64 * height as u64;
    assert(area == width * height) by (nonlinear_arith)
        requires
            area == width as u64 * height as u64,
    ;
    assert(width as u64 * (SEED_OFFSET_Y as u64 + 2) <= 0xffff_ffff_u64 * 302) by (nonlinear_arith)
        requires
            width <= 0xffff_ffff_u32,
    ;
    let last: u64 = width as u64 * (SEED_OFFSET_Y as u64 + 2) + (SEED_OFFSET_X as u64 + 6);
    area <= (u32::MAX / BYTES_PER_PIXEL) as u64 && last < area
}

/// Sets the four channels of pixel `p` to `LIVE`.
fn light_pixel(data: &mut Vec<u8>, p: usize)
    requires
        BYTES_PER_PIXEL * p + BYTES_PER_PIXEL <= old(data)@.len(),
    ensures
        final(data)@.len() == old(data)@.len(),
        forall|i: int|
            #![trigger final(data)@[i]]
            0 <= i < old(data)@.len() ==> final(data)@[i] == if i / (BYTES_PER_PIXEL as int) == p {
                LIVE
            } else {
                old(data)@[i]
            },
{
    assert(data@.len() == data.len());
    let base: usize = 4 * p;
    data.set(base, LIVE);
    data.set(base + 1, LIVE);
    data.set(base + 2, LIVE);
    data.set(base + 3, LIVE);
}

/// The index of the seed cell at column `c`, row `r` of the pattern.
fn seed_pixel(width: u32, height: u32, c: u32, r: u32) -> (p: usize)
    requires
        seed_fits(width as int, height as int),
        c <= 6,
        r <= 2,
    ensures
        p == pixel_index(width as int, SEED_OFFSET_X + c, SEED_OFFSET_Y + r),
        p < width * height,
{
    let w: usize = width as usize;
    assert(w * (SEED_OFFSET_Y as usize + r as usize) + (SEED_OFFSET_X as usize + c as usize)
        <= width * (SEED_OFFSET_Y + 2) + (SEED_OFFSET_X + 6)) by (nonlinear_arith)
        requires
            w == width,
            c <= 6,
            r <= 2,
    ;
    w * (SEED_OFFSET_Y as usize + r as usize) + (SEED_OFFSET_X as usize + c as usize)
}

/// The board's initial RGBA data, `width` by `height` pixels in row-major order: every
/// channel of each seed pixel is `LIVE`, every other byte is 0.
pub fn initial_board(width: u32, height: u32) -> (data: Vec<u8>)
    requires
        seed_fits(width as int, height as int),
    ensures
        data@.len() == width * height * BYTES_PER_PIXEL,
        forall|i: int| 0 <= i < data@.len() ==> #[trigger] data@[i] == seed_byte(width as int, i),
{
    let len: usize = (width * height * BYTES_PER_PIXEL) as usize;
    let mut data: Vec<u8> = vec![0u8; len];
    let ghost blank = data@;
    let p0: usize = seed_pixel(width, height, 1, 0);
    let p1: usize = seed_pixel(width, height, 3, 1);
    let p2: usize = seed_pixel(width, height, 0, 2);
    let p3: usize = seed_pixel(width, height, 1, 2);
    let p4: usize = seed_pixel(width, height, 4, 2);
    let p5: usize = seed_pixel(width, height, 5, 2);
    let p6: usize = seed_pixel(width, height, 6, 2);
    light_pixel(&mut data, p0);
    light_pixel(&mut data, p1);
    light_pixel(&mut data, p2);
    light_pixel(&mut data, p3);
    light_pixel(&mut data, p4);
    light_pixel(&mut data, p5);
    light_pixel(&mut data, p6);
    assert forall|i: int| 0 <= i < data@.len() implies #[trigger] data@[i] == seed_byte(
        width as int,
        i,
    ) by {
        let q: int = i / (BYTES_PER_PIXEL as int);
        let lit: bool = q == p0 || q == p1 || q == p2 || q == p3 || q == p4 || q == p5 || q == p6;
        assert(blank[i] == 0);
        assert(data@[i] == if lit { LIVE } else { 0u8 });
        if lit {
            if q == p0 { assert(seed_pattern()[0] == (1int, 0int)); }
            if q == p1 { assert(seed_pattern()[1] == (3int, 1int)); }
            if q == p2 { assert(seed_pattern()[2] == (0int, 2int)); }
            if q == p3 { assert(seed_pattern()[3] == (1int, 2int)); }
            if q == p4 { assert(seed_pattern()[4] == (4int, 2int)); }
            if q == p5 { assert(seed_pattern()[5] == (5int, 2int)); }
            if q == p6 { assert(seed_pattern()[6] == (6int, 2int)); }
        } else {
            assert(!is_seed_pixel(width as int, q)) by {
                if is_seed_pixel(width as int, q) {
                    let k: int = choose|k: int|
                        0 <= k < seed_pattern().len() && q == pixel_index(
                            width as int,
                            SEED_OFFSET_X + seed_pattern()[k].0,
                            SEED_OFFSET_Y + seed_pattern()[k].1,
                        );
                    assert(0 <= k < 7);
                }
            }
        }
    }
    data
}

}
