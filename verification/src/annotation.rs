//! Annotated captures: pin and rectangle markers drawn into a capture's
//! pixels, and the result encoded again as PNG.

use vstd::prelude::*;
use crate::capture::CaptureFlowError;
use crate::capture::CaptureFlowErrorView;
use crate::capture::ProcessedCapture;
use crate::raster::MAX_LABEL_CHARS;
use crate::raster::pin_pixels;
use crate::raster::rectangle_pixels;
use crate::raster::draw_pin;
use crate::raster::draw_rectangle;

verus! {

/// Where a marker sits, in pixels of the image it annotates.
#[derive(Debug, Clone, Copy, PartialEq, Eq, Structural)]
pub enum MarkShape {
    /// A pin pointing at (`x`, `y`).
    Pin { x: i32, y: i32 },
    /// A rectangle with its top left corner at (`x`, `y`).
    Rectangle { x: i32, y: i32, width: i32, height: i32 },
}

/// A marker to draw: its label and where it sits.
#[derive(Debug, Clone)]
pub struct AnnotationMark {
    pub id: String,
    pub shape: MarkShape,
}

/// A rendered annotation: the PNG bytes and the RGBA pixels they encode.
#[derive(Debug, Clone)]
pub struct AnnotatedImage {
    pub encoded_png: Vec<u8>,
    pub rgba: Vec<u8>,
    pub width: u32,
    pub height: u32,
}

/// A rectangle's side as drawn: never under 8 pixels.
pub open spec fn drawn_extent(v: int) -> int {
    if v > 8 {
        v
    } else {
        8
    }
}

/// The buffer after drawing one marker.
pub open spec fn mark_pixels(buf: Seq<u8>, w: int, h: int, m: AnnotationMark) -> Seq<u8> {
    match m.shape {
        MarkShape::Pin { x, y } => pin_pixels(buf, w, h, x as int, y as int, m.id@),
        MarkShape::Rectangle { x, y, width, height } => rectangle_pixels(
            buf,
            w,
            h,
            x as int,
            y as int,
            drawn_extent(width as int),
            drawn_extent(height as int),
            m.id@,
        ),
    }
}

/// The buffer after drawing the markers in order, each over the ones
/// before it.
pub open spec fn marks_pixels(buf: Seq<u8>, w: int, h: int, marks: Seq<AnnotationMark>) -> Seq<u8>
    decreases marks.len(),
{
    if marks.len() == 0 {
        buf
    } else {
        mark_pixels(marks_pixels(buf, w, h, marks.drop_last()), w, h, marks.last())
    }
}

/// A rectangle marker is drawn as a three-pixel outline in the rectangle
/// colour whose horizontal extent comes from the marker's width and whose
/// vertical extent comes from its height, each raised to at least 8 pixels:
/// the outline runs from column `x` to `x + max(width, 8)` and from row `y`
/// to `y + max(height, 8)`; the label chip then sits 8 pixels inside the
/// top left corner.
pub proof fn lemma_rectangle_mark_extent(
    buf: Seq<u8>,
    w: int,
    h: int,
    m: AnnotationMark,
    x: i32,
    y: i32,
    width: i32,
    height: i32,
)
    requires
        m.shape == (MarkShape::Rectangle { x, y, width, height }),
    ensures
        ({
            let across: int = if width > 8 { width as int } else { 8 };
            let down: int = if height > 8 { height as int } else { 8 };
            mark_pixels(buf, w, h, m) == crate::raster::chip_pixels(
                crate::raster::paint_shape(
                    buf,
                    w,
                    h,
                    |a: int, b: int| crate::raster::on_outline(x as int, y as int, across, down, 3, a, b),
                    crate::raster::rect_color(),
                ),
                w,
                h,
                x + 8,
                y + 8,
                m.id@,
                crate::raster::rect_color(),
                crate::raster::label_foreground(),
            )
        }),
{
    let across: int = if width > 8 { width as int } else { 8 };
    let down: int = if height > 8 { height as int } else { 8 };
    assert(drawn_extent(width as int) == across);
    assert(drawn_extent(height as int) == down);
    let drawn = |a: int, b: int|
        crate::raster::on_outline(x as int, y as int, drawn_extent(width as int), drawn_extent(height as int), 3, a, b);
    let stated = |a: int, b: int| crate::raster::on_outline(x as int, y as int, across, down, 3, a, b);
    assert(drawn =~= stated);
}

/// A pin marker is drawn at its own point: a three-pixel stem in column `x`
/// from 6 to 30 rows below `y`, a filled disc of radius 12 centred on
/// (`x`, `y`), a two-pixel white rim of radius 13 around it, and the label
/// chip 14 pixels to the right of and 10 above the point.
pub proof fn lemma_pin_mark_position(buf: Seq<u8>, w: int, h: int, m: AnnotationMark, x: i32, y: i32)
    requires
        m.shape == (MarkShape::Pin { x, y }),
    ensures
        mark_pixels(buf, w, h, m) == crate::raster::chip_pixels(
            crate::raster::paint_shape(
                crate::raster::paint_shape(
                    crate::raster::paint_shape(
                        buf,
                        w,
                        h,
                        |a: int, b: int| crate::raster::on_thick_line(x as int, y + 6, x as int, y + 30, 3, a, b),
                        crate::raster::pin_color(),
                    ),
                    w,
                    h,
                    |a: int, b: int| crate::raster::in_disc(x as int, y as int, 12, a, b),
                    crate::raster::pin_color(),
                ),
                w,
                h,
                |a: int, b: int| crate::raster::in_circle_outline(x as int, y as int, 13, 2, a, b),
                crate::raster::label_foreground(),
            ),
            w,
            h,
            x + 14,
            y - 10,
            m.id@,
            crate::raster::pin_color(),
            crate::raster::label_foreground(),
        ),
{
}

/// Every marker's label fits a label chip.
pub open spec fn labels_fit(marks: Seq<AnnotationMark>) -> bool {
    forall|k: int| 0 <= k < marks.len() ==> #[trigger] marks[k].id@.len() <= MAX_LABEL_CHARS
}

/// Drawing markers never changes the length of the pixel buffer.
pub proof fn lemma_marks_keep_length(buf: Seq<u8>, w: int, h: int, marks: Seq<AnnotationMark>)
    ensures
        marks_pixels(buf, w, h, marks).len() == buf.len(),
    decreases marks.len(),
{
    if marks.len() > 0 {
        lemma_marks_keep_length(buf, w, h, marks.drop_last());
    }
}

/// Draws the markers into an RGBA buffer of a `width` x `height` image, in
/// order, as [`marks_pixels`] states.
pub fn draw_annotation_marks(buf: &mut Vec<u8>, width: u32, height: u32, marks: &[AnnotationMark])
    requires
        labels_fit(marks@),
    ensures
        final(buf)@ == marks_pixels(old(buf)@, width as int, height as int, marks@),
{
    let ghost start = buf@;
    let w = width as i64;
    let h = height as i64;
    let mut k: usize = 0;
    while k < marks.len()
        invariant
            labels_fit(marks@),
            w == width,
            h == height,
            k <= marks@.len(),
            buf@ == marks_pixels(start, width as int, height as int, marks@.take(k as int)),
        decreases marks@.len() - k,
    {
        let m = &marks[k];
        assert(m.id@.len() <= MAX_LABEL_CHARS);
        match m.shape {
            MarkShape::Pin { x, y } => {
                draw_pin(buf, w, h, x as i64, y as i64, m.id.as_str());
            },
            MarkShape::Rectangle { x, y, width: rect_w, height: rect_h } => {
                let dw: i64 = if rect_w > 8 { rect_w as i64 } else { 8 };
                let dh: i64 = if rect_h > 8 { rect_h as i64 } else { 8 };
                draw_rectangle(buf, w, h, x as i64, y as i64, dw, dh, m.id.as_str());
            },
        }
        assert(marks@.take(k + 1).drop_last() =~= marks@.take(k as int));
        k = k + 1;
    }
    assert(marks@.take(k as int) =~= marks@);
}

/// The PNG bytes and pixels of an annotated image, or the error: the
/// markers are drawn over the pixels, which must hold the whole image, and
/// the result is encoded as PNG.
pub open spec fn spec_render(rgba: Seq<u8>, width: u32, height: u32, marks: Seq<AnnotationMark>) -> Result<
    (Seq<u8>, Seq<u8>),
    CaptureFlowErrorView,
> {
    let pixels = marks_pixels(rgba, width as int, height as int, marks);
    if !crate::imaging::rgba_fits(width, height, rgba.len()) {
        Err(CaptureFlowErrorView::InvalidRgbaDimensions(width, height))
    } else {
        match crate::imaging::png_encoding(width, height, pixels) {
            Ok(e) => Ok((e, pixels)),
            Err(m) => Err(CaptureFlowErrorView::EncodeImage(m)),
        }
    }
}

/// The view of a rendering result: PNG bytes and pixels, or the error.
pub open spec fn render_outcome(r: Result<AnnotatedImage, CaptureFlowError>) -> Result<
    (Seq<u8>, Seq<u8>),
    CaptureFlowErrorView,
> {
    match r {
        Ok(img) => Ok((img.encoded_png@, img.rgba@)),
        Err(e) => Err(e@),
    }
}

/// Draws the markers over a copy of the RGBA pixels of a `width` x `height`
/// image and encodes the result as PNG. The PNG encoder requires exactly
/// the image's bytes, so the buffer may not be longer than the image.
pub fn render_annotations_to_png(
    rgba_data: &[u8],
    width: u32,
    height: u32,
    marks: &[AnnotationMark],
) -> (r: Result<AnnotatedImage, CaptureFlowError>)
    requires
        labels_fit(marks@),
        rgba_data@.len() <= 4 * ((width as nat) * (height as nat)),
    ensures
        render_outcome(r) == spec_render(rgba_data@, width, height, marks@),
        r matches Ok(img) ==> img.width == width && img.height == height,
        width >= 1 && height >= 1 && crate::imaging::rgba_fits(width, height, rgba_data@.len())
            ==> r is Ok,
{
    let mut rgba = vstd::slice::slice_to_vec(rgba_data);
    draw_annotation_marks(&mut rgba, width, height, marks);
    proof {
        lemma_marks_keep_length(rgba_data@, width as int, height as int, marks@);
    }
    if !crate::imaging::rgba_buffer_fits(width, height, rgba.len()) {
        return Err(CaptureFlowError::InvalidRgbaDimensions { width, height });
    }
    match crate::imaging::encode_png_bytes(rgba.as_slice(), width, height) {
        Ok(encoded_png) => Ok(AnnotatedImage { encoded_png, rgba, width, height }),
        Err(m) => Err(CaptureFlowError::EncodeImage(m)),
    }
}

/// Replaces a processed capture's image by its annotated form: without
/// markers the capture is returned as it is; otherwise the markers are
/// drawn over its pixels at its optimized size, the result encoded as PNG,
/// and the encoded size and Base64 text updated to match.
pub fn apply_annotations_to_processed_capture(
    processed: ProcessedCapture,
    marks: &[AnnotationMark],
) -> (r: Result<ProcessedCapture, CaptureFlowError>)
    requires
        labels_fit(marks@),
        marks@.len() > 0 ==> processed.rgba@.len() <= 4 * (
        (processed.metadata.optimized_width as nat) * (processed.metadata.optimized_height as nat)),
    ensures
        marks@.len() == 0 ==> r == Ok::<ProcessedCapture, CaptureFlowError>(processed),
        processed.metadata.optimized_width >= 1 && processed.metadata.optimized_height >= 1
            && crate::imaging::rgba_fits(
            processed.metadata.optimized_width,
            processed.metadata.optimized_height,
            processed.rgba@.len(),
        ) ==> r is Ok,
        marks@.len() > 0 ==> match spec_render(
            processed.rgba@,
            processed.metadata.optimized_width,
            processed.metadata.optimized_height,
            marks@,
        ) {
            Ok((encoded, pixels)) => r matches Ok(p) && {
                &&& p.encoded@ == encoded
                &&& p.rgba@ == pixels
                &&& p.metadata.file_size == encoded.len()
                &&& p.metadata.image_base64@ == crate::encoding::base64_encode(encoded)
                &&& p.metadata.original_width == processed.metadata.original_width
                &&& p.metadata.original_height == processed.metadata.original_height
                &&& p.metadata.optimized_width == processed.metadata.optimized_width
                &&& p.metadata.optimized_height == processed.metadata.optimized_height
                &&& p.metadata.token_estimate == processed.metadata.token_estimate
                &&& p.metadata.provider == processed.metadata.provider
                &&& p.metadata.timestamp == processed.metadata.timestamp
            },
            Err(e) => r matches Err(er) && er@ == e,
        },
{
    if marks.len() == 0 {
        return Ok(processed);
    }
    let mut processed = processed;
    let annotated = match render_annotations_to_png(
        processed.rgba.as_slice(),
        processed.metadata.optimized_width,
        processed.metadata.optimized_height,
        marks,
    ) {
        Ok(a) => a,
        Err(e) => return Err(e),
    };
    processed.metadata.file_size = annotated.encoded_png.len();
    processed.metadata.image_base64 = crate::encoding::base64_standard(
        annotated.encoded_png.as_slice(),
    );
    processed.encoded = annotated.encoded_png;
    processed.rgba = annotated.rgba;
    Ok(processed)
}

} // verus!
