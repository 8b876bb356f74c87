//! Raster preparation for the high-fidelity path: actual-size layout
//! of the rendered bitmap on the printer page, and conversion of the
//! bitmap into the device-independent row format the OS drawing call
//! expects, blue first and each row padded to a four-byte boundary.

use vstd::prelude::*;

verus! {

/// Resolution the document is rasterised at.
pub const RENDER_DPI: u32 = 600;

/// Bytes per padded row: three bytes per pixel, rounded up to a
/// four-byte boundary.
pub open spec fn row_size_spec(width: nat) -> nat {
    ((3 * width + 3) / 4) * 4
}

/// Halving that truncates toward zero, as the layout arithmetic does.
pub open spec fn half_toward_zero(v: int) -> int {
    if v >= 0 {
        v / 2
    } else {
        -((-v) / 2)
    }
}

/// Where and how large the bitmap prints: actual size derived from
/// the render and device resolutions, centred on the page.
pub struct PageLayout {
    /// Width on the page, in device pixels.
    pub print_width: i32,
    /// Height on the page, in device pixels.
    pub print_height: i32,
    /// Left edge of the centred image.
    pub dest_x: i32,
    /// Top edge of the centred image.
    pub dest_y: i32,
}

/// Computes the actual-size, centred placement of a bitmap rendered
/// at the fixed render resolution onto a page of the given device
/// resolution.
pub fn page_layout(
    width: u32,
    height: u32,
    page_width: i32,
    page_height: i32,
    dpi_x: i32,
    dpi_y: i32,
) -> (r: PageLayout)
    requires
        width <= 65536,
        height <= 65536,
        0 <= dpi_x <= 10000,
        0 <= dpi_y <= 10000,
        -1000000000 <= page_width <= 1000000000,
        -1000000000 <= page_height <= 1000000000,
    ensures
        r.print_width == width * dpi_x / (RENDER_DPI as int),
        r.print_height == height * dpi_y / (RENDER_DPI as int),
        r.dest_x == half_toward_zero(page_width - r.print_width),
        r.dest_y == half_toward_zero(page_height - r.print_height),
{
    proof {
        assert(width * dpi_x <= 65536 * 10000) by (nonlinear_arith)
            requires
                width <= 65536,
                0 <= dpi_x <= 10000,
        ;
        assert(height * dpi_y <= 65536 * 10000) by (nonlinear_arith)
            requires
                height <= 65536,
                0 <= dpi_y <= 10000,
        ;
    }
    let print_width = (width as i32) * dpi_x / 600;
    let print_height = (height as i32) * dpi_y / 600;
    let dx = page_width - print_width;
    let dy = page_height - print_height;
    let dest_x = if dx >= 0 {
        dx / 2
    } else {
        -((-dx) / 2)
    };
    let dest_y = if dy >= 0 {
        dy / 2
    } else {
        -((-dy) / 2)
    };
    PageLayout { print_width, print_height, dest_x, dest_y }
}

/// One converted pixel: the source red, green, blue triple reordered
/// blue first.
pub open spec fn bgr_pixel(rgb: Seq<u8>, width: nat, y: int, x: int) -> Seq<u8> {
    seq![rgb[3 * (y * width + x) + 2], rgb[3 * (y * width + x) + 1], rgb[3 * (y * width + x)]]
}

/// The first `x` converted pixels of row `y`.
pub open spec fn row_pixels(rgb: Seq<u8>, width: nat, y: int, x: int) -> Seq<u8>
    decreases x,
{
    if x <= 0 {
        Seq::empty()
    } else {
        row_pixels(rgb, width, y, x - 1) + bgr_pixel(rgb, width, y, x - 1)
    }
}

/// The zero padding that rounds a row up to the padded size.
pub open spec fn row_padding(width: nat) -> Seq<u8> {
    Seq::new((row_size_spec(width) - 3 * width) as nat, |i: int| 0u8)
}

/// One full converted and padded row.
pub open spec fn padded_row(rgb: Seq<u8>, width: nat, y: int) -> Seq<u8> {
    row_pixels(rgb, width, y, width as int) + row_padding(width)
}

/// The first `y` converted rows.
pub open spec fn padded_rows(rgb: Seq<u8>, width: nat, y: int) -> Seq<u8>
    decreases y,
{
    if y <= 0 {
        Seq::empty()
    } else {
        padded_rows(rgb, width, y - 1) + padded_row(rgb, width, y - 1)
    }
}

/// A padded row is never shorter than its pixels and at most three
/// bytes longer.
pub proof fn lemma_row_size_bounds(w: nat)
    ensures
        3 * w <= row_size_spec(w) <= 3 * w + 3,
{
    let x = (3 * w + 3) as int;
    assert(x == 4 * (x / 4) + x % 4);
    assert(0 <= x % 4 < 4);
}

/// Row pixels are three bytes per pixel.
pub proof fn lemma_row_pixels_len(rgb: Seq<u8>, width: nat, y: int, x: int)
    requires
        x >= 0,
    ensures
        row_pixels(rgb, width, y, x).len() == 3 * x,
    decreases x,
{
    if x > 0 {
        lemma_row_pixels_len(rgb, width, y, x - 1);
    }
}

/// Converted output is one padded row per source row.
pub proof fn lemma_padded_rows_len(rgb: Seq<u8>, width: nat, y: int)
    requires
        y >= 0,
    ensures
        padded_rows(rgb, width, y).len() == y * row_size_spec(width),
    decreases y,
{
    if y > 0 {
        lemma_padded_rows_len(rgb, width, y - 1);
        lemma_row_pixels_len(rgb, width, y - 1, width as int);
        lemma_row_size_bounds(width);
        assert(padded_rows(rgb, width, y) == padded_rows(rgb, width, y - 1) + padded_row(
            rgb,
            width,
            y - 1,
        ));
        assert(padded_row(rgb, width, y - 1).len() == row_size_spec(width));
        assert((y - 1) * row_size_spec(width) + row_size_spec(width) == y * row_size_spec(width))
            by (nonlinear_arith);
        assert(padded_rows(rgb, width, y).len() == y * row_size_spec(width));
    } else {
        assert(padded_rows(rgb, width, y).len() == 0);
        assert(y * row_size_spec(width) == 0) by (nonlinear_arith)
            requires
                y == 0,
        ;
    }
}

/// Converts a packed red-green-blue bitmap into the device row format
/// the drawing call is handed with a top-down header: rows kept in
/// source order, blue first within each pixel, and each row padded
/// with zeroes to a four-byte boundary.
pub fn rgb_to_bgr_padded(rgb: &Vec<u8>, width: u32, height: u32) -> (out: Vec<u8>)
    requires
        rgb@.len() == 3 * width * height,
        width <= 20000,
        height <= 20000,
    ensures
        out@ == padded_rows(rgb@, width as nat, height as int),
        out@.len() == height * row_size_spec(width as nat),
{
    proof {
        lemma_padded_rows_len(rgb@, width as nat, height as int);
    }
    let row_size: usize = (((3 * width + 3) / 4) * 4) as usize;
    proof {
        assert(row_size == row_size_spec(width as nat));
    }
    let mut out: Vec<u8> = Vec::new();
    let mut y: u32 = 0;
    proof {
        assert(out@ =~= padded_rows(rgb@, width as nat, 0));
    }
    while y < height
        invariant
            rgb@.len() == 3 * width * height,
            width <= 20000,
            height <= 20000,
            row_size == row_size_spec(width as nat),
            y <= height,
            out@ == padded_rows(rgb@, width as nat, y as int),
        decreases height - y,
    {
        let mut x: u32 = 0;
        let ghost row_base = out@;
        proof {
            assert(out@ =~= row_base + row_pixels(rgb@, width as nat, y as int, 0));
        }
        while x < width
            invariant
                rgb@.len() == 3 * width * height,
                width <= 20000,
                height <= 20000,
                y < height,
                x <= width,
                out@ == row_base + row_pixels(rgb@, width as nat, y as int, x as int),
            decreases width - x,
        {
            proof {
                assert(y * width + x < height * width && height * width <= 400000000) by (nonlinear_arith)
                    requires
                        y < height,
                        x < width,
                        0 <= y,
                        0 <= x,
                        width <= 20000,
                        height <= 20000,
                ;
                assert(3 * (y * width + x) + 2 < 3 * width * height) by (nonlinear_arith)
                    requires
                        y * width + x < height * width,
                ;
            }
            let base: usize = 3 * ((y as usize) * (width as usize) + (x as usize));
            let b = rgb[base + 2];
            let g = rgb[base + 1];
            let r = rgb[base];
            let ghost pre = out@;
            out.push(b);
            out.push(g);
            out.push(r);
            proof {
                assert(out@ =~= pre + bgr_pixel(rgb@, width as nat, y as int, x as int));
                assert(row_base + row_pixels(rgb@, width as nat, y as int, x as int) + bgr_pixel(
                    rgb@,
                    width as nat,
                    y as int,
                    x as int,
                ) =~= row_base + row_pixels(rgb@, width as nat, y as int, x + 1));
            }
            x += 1;
        }
        let pixels_len: usize = 3 * (width as usize);
        let mut p: usize = pixels_len;
        proof {
            lemma_row_size_bounds(width as nat);
            assert(row_padding(width as nat).take(0) =~= Seq::<u8>::empty());
            assert(out@ =~= row_base + row_pixels(rgb@, width as nat, y as int, width as int)
                + row_padding(width as nat).take(0));
        }
        while p < row_size
            invariant
                width <= 20000,
                pixels_len == 3 * width,
                row_size == row_size_spec(width as nat),
                row_size <= 3 * width + 3,
                pixels_len <= p <= row_size,
                out@ == row_base + row_pixels(rgb@, width as nat, y as int, width as int)
                    + row_padding(width as nat).take(p - pixels_len),
            decreases row_size - p,
        {
            let ghost pre = out@;
            out.push(0);
            proof {
                assert(row_padding(width as nat).take(p + 1 - pixels_len) =~= row_padding(
                    width as nat,
                ).take(p - pixels_len).push(0u8));
                assert(out@ =~= row_base + row_pixels(rgb@, width as nat, y as int, width as int)
                    + row_padding(width as nat).take(p + 1 - pixels_len));
            }
            p += 1;
        }
        proof {
            assert(row_padding(width as nat).take(row_size - pixels_len) =~= row_padding(
                width as nat,
            ));
            assert(out@ =~= row_base + padded_row(rgb@, width as nat, y as int));
            assert(out@ =~= padded_rows(rgb@, width as nat, y + 1));
        }
        y += 1;
    }
    out
}

} // verus!
