//! Pictures of a window, read back from the GPU.
use vstd::prelude::*;

verus! {

/// Rows of a texture are read back in multiples of this many bytes.
pub const ROW_ALIGNMENT: u32 = 256;

/// The bytes of one row in a buffer for reading back.
pub open spec fn spec_row_stride(width: u32) -> int {
    (width * 4 + 255) / 256 * 256
}

/// The bytes of one row in a buffer for reading back.
pub fn row_stride(width: u32) -> (stride: u32)
    requires
        width * 4 + 255 <= u32::MAX,
    ensures
        stride == spec_row_stride(width),
        stride >= width * 4,
        stride % ROW_ALIGNMENT == 0,
        stride < width * 4 + ROW_ALIGNMENT,
{
    (width * 4 + 255) / 256 * 256
}

/// One pixel as red, green, blue and alpha.
pub open spec fn pixel_at(mapped: Seq<u8>, at: int, bgra: bool) -> Seq<u8> {
    if bgra {
        seq![mapped[at + 2], mapped[at + 1], mapped[at], mapped[at + 3]]
    } else {
        seq![mapped[at], mapped[at + 1], mapped[at + 2], mapped[at + 3]]
    }
}

/// The first `count` pixels from a place on.
pub open spec fn pixels_from(mapped: Seq<u8>, at: int, count: int, bgra: bool) -> Seq<u8>
    decreases count,
{
    if count <= 0 {
        Seq::empty()
    } else {
        pixels_from(mapped, at, count - 1, bgra) + pixel_at(mapped, at + (count - 1) * 4, bgra)
    }
}

/// The pixels of the first `rows` rows, without what fills them up.
pub open spec fn picture(mapped: Seq<u8>, stride: int, width: int, rows: int, bgra: bool) -> Seq<u8>
    decreases rows,
{
    if rows <= 0 {
        Seq::empty()
    } else {
        picture(mapped, stride, width, rows - 1, bgra) + pixels_from(
            mapped,
            (rows - 1) * stride,
            width,
            bgra,
        )
    }
}

/// Takes the pixels out of a buffer that was read back, whole rows of it; `bgra` tells whether
/// the texture holds blue first.
pub fn read_pixels(mapped: &[u8], stride: u32, width: u32, bgra: bool) -> (pixels: Vec<u8>)
    requires
        stride > 0,
        width * 4 <= stride,
    ensures
        pixels@ == picture(
            mapped@,
            stride as int,
            width as int,
            mapped@.len() as int / stride as int,
            bgra,
        ),
        pixels@.len() == mapped@.len() as int / stride as int * width * 4,
{
    let length: usize = mapped.len();
    let rows: usize = length / stride as usize;
    let mut pixels: Vec<u8> = Vec::new();
    let mut row: usize = 0;
    while row < rows
        invariant
            stride > 0,
            width * 4 <= stride,
            row <= rows,
            rows == length as int / stride as int,
            length == mapped@.len(),
            pixels@ == picture(mapped@, stride as int, width as int, row as int, bgra),
        decreases rows - row,
    {
        assert((row + 1) * stride <= length && row * stride + stride == (row + 1) * stride)
            by (nonlinear_arith)
            requires
                row + 1 <= rows,
                rows == length as int / stride as int,
                stride > 0,
        ;
        let at: usize = row * stride as usize;
        let ghost before = pixels@;
        let mut col: u32 = 0;
        assert(before + Seq::<u8>::empty() =~= before);
        while col < width
            invariant
                col <= width,
                width * 4 <= stride,
                at + stride <= length,
                length == mapped@.len(),
                pixels@ == before + pixels_from(mapped@, at as int, col as int, bgra),
            decreases width - col,
        {
            let first: usize = at + col as usize * 4;
            let ghost done = pixels@;
            if bgra {
                pixels.push(mapped[first + 2]);
                pixels.push(mapped[first + 1]);
                pixels.push(mapped[first]);
            } else {
                pixels.push(mapped[first]);
                pixels.push(mapped[first + 1]);
                pixels.push(mapped[first + 2]);
            }
            pixels.push(mapped[first + 3]);
            proof {
                let next = col + 1;
                assert(pixels_from(mapped@, at as int, next, bgra) == pixels_from(
                    mapped@,
                    at as int,
                    col as int,
                    bgra,
                ) + pixel_at(mapped@, first as int, bgra));
                assert(pixels@ =~= done + pixel_at(mapped@, first as int, bgra));
                assert(pixels@ =~= before + pixels_from(mapped@, at as int, next, bgra));
            }
            col += 1;
        }
        row += 1;
    }
    proof {
        lemma_picture_length(mapped@, stride as int, width as int, rows as int, bgra);
    }
    pixels
}

proof fn lemma_pixels_length(mapped: Seq<u8>, at: int, count: int, bgra: bool)
    requires
        count >= 0,
    ensures
        pixels_from(mapped, at, count, bgra).len() == count * 4,
    decreases count,
{
    if count > 0 {
        lemma_pixels_length(mapped, at, count - 1, bgra);
    }
}

proof fn lemma_picture_length(mapped: Seq<u8>, stride: int, width: int, rows: int, bgra: bool)
    requires
        rows >= 0,
        width >= 0,
    ensures
        picture(mapped, stride, width, rows, bgra).len() == rows * width * 4,
    decreases rows,
{
    if rows > 0 {
        lemma_picture_length(mapped, stride, width, rows - 1, bgra);
        lemma_pixels_length(mapped, (rows - 1) * stride, width, bgra);
        assert((rows - 1) * width * 4 + width * 4 == rows * width * 4) by (nonlinear_arith);
    } else {
        assert(0 * width * 4 == 0) by (nonlinear_arith);
    }
}

/// The PNG file of a picture, straight RGBA with eight bits per channel, if it can be written.
pub uninterp spec fn png_file(width: u32, height: u32, pixels: Seq<u8>) -> Option<Seq<u8>>;

/// `png::Encoder` with the colour type RGBA and a depth of eight bits writes the same file for the
/// same picture.
#[verifier::external_body]
fn encode_png(width: u32, height: u32, pixels: &[u8]) -> (file: Option<Vec<u8>>)
    requires
        width > 0,
        height > 0,
        pixels@.len() == width * height * 4,
    ensures
        match file {
            Some(file) => png_file(width, height, pixels@) == Some(file@),
            None => png_file(width, height, pixels@) is None,
        },
{
    let mut file = Vec::new();
    let mut encoder = png::Encoder::new(&mut file, width, height);
    encoder.set_color(png::ColorType::Rgba);
    encoder.set_depth(png::BitDepth::Eight);
    let mut writer = encoder.write_header().ok()?;
    writer.write_image_data(pixels).ok()?;
    writer.finish().ok()?;
    Some(file)
}

/// Why a picture could not be written.
#[derive(Clone, Copy, Debug, PartialEq, Eq, Structural)]
pub enum CaptureError {
    /// The picture is empty, or its pixels are not those of its size.
    Size,
    Encoding,
}

/// Writes a picture as a PNG file.
pub fn encode_capture(width: u32, height: u32, pixels: &[u8]) -> (file: Result<Vec<u8>, CaptureError>)
    ensures
        match file {
            Ok(file) => width > 0 && height > 0 && pixels@.len() == width * height * 4
                && png_file(width, height, pixels@) == Some(file@),
            Err(CaptureError::Size) => width == 0 || height == 0 || pixels@.len() != width * height
                * 4,
            Err(CaptureError::Encoding) => width > 0 && height > 0 && pixels@.len() == width
                * height * 4 && png_file(width, height, pixels@) is None,
        },
{
    if width == 0 || height == 0 {
        return Err(CaptureError::Size);
    }
    assert(width as u128 * height as u128 * 4 <= 0xffff_ffffu128 * 0xffff_ffffu128 * 4)
        by (nonlinear_arith)
        requires
            width <= 0xffff_ffffu32,
            height <= 0xffff_ffffu32,
    ;
    let expected: u128 = width as u128 * height as u128 * 4;
    if pixels.len() as u128 != expected {
        return Err(CaptureError::Size);
    }
    match encode_png(width, height, pixels) {
        Some(file) => Ok(file),
        None => Err(CaptureError::Encoding),
    }
}

/// Reading back keeps every pixel: a row of the picture begins where its row of the buffer does.
pub proof fn law_rows_are_read_whole(
    mapped: Seq<u8>,
    stride: int,
    width: int,
    rows: int,
    row: int,
    bgra: bool,
)
    requires
        0 <= row < rows,
        width >= 0,
    ensures
        picture(mapped, stride, width, rows, bgra).len() == rows * width * 4,
        row * width * 4 <= (row + 1) * width * 4 <= rows * width * 4,
        picture(mapped, stride, width, rows, bgra).subrange(
            row * width * 4,
            (row + 1) * width * 4,
        ) == pixels_from(mapped, row * stride, width, bgra),
    decreases rows,
{
    lemma_picture_length(mapped, stride, width, rows, bgra);
    lemma_picture_length(mapped, stride, width, rows - 1, bgra);
    lemma_pixels_length(mapped, (rows - 1) * stride, width, bgra);
    assert(row * width * 4 <= (row + 1) * width * 4 <= rows * width * 4 && (rows - 1) * width * 4
        + width * 4 == rows * width * 4 && 0 <= row * width * 4) by (nonlinear_arith)
        requires
            0 <= row < rows,
            width >= 0,
    ;
    let before = picture(mapped, stride, width, rows - 1, bgra);
    let last = pixels_from(mapped, (rows - 1) * stride, width, bgra);
    let whole = picture(mapped, stride, width, rows, bgra);
    if row == rows - 1 {
        assert(whole.subrange(row * width * 4, (row + 1) * width * 4) =~= last);
    } else {
        law_rows_are_read_whole(mapped, stride, width, rows - 1, row, bgra);
        assert(whole.subrange(row * width * 4, (row + 1) * width * 4) =~= before.subrange(
            row * width * 4,
            (row + 1) * width * 4,
        ));
    }
}

} // verus!
