//! Annotation model and the pixel work of exporting an annotated capture.
//!
//! Annotations are kept in image-pixel coordinates so that the on-screen
//! preview and the exported PNG come from one source of truth. The model is
//! generic over the point type `P` and the stroke-width type `W`: nothing
//! here reads a coordinate, so every statement holds whatever they are.

use vstd::prelude::*;

verus! {

/// The annotation tools offered by the editor toolbar.
#[derive(Clone, Copy, PartialEq, Eq, Structural, Debug)]
pub enum Tool {
    Pen,
    Line,
    Arrow,
    Rect,
}

/// A drawn shape: a free-hand stroke through its points, or a figure given
/// by two corner or end points.
#[derive(Clone, Debug)]
pub enum Shape<P> {
    Pen(Vec<P>),
    Line(P, P),
    Arrow(P, P),
    Rect(P, P),
}

/// What a [`Shape`] holds, with the stroke's points as a sequence.
pub enum ShapeView<P> {
    Pen(Seq<P>),
    Line(P, P),
    Arrow(P, P),
    Rect(P, P),
}

impl<P> View for Shape<P> {
    type V = ShapeView<P>;

    open spec fn view(&self) -> ShapeView<P> {
        match self {
            Shape::Pen(pts) => ShapeView::Pen(pts@),
            Shape::Line(a, b) => ShapeView::Line(*a, *b),
            Shape::Arrow(a, b) => ShapeView::Arrow(*a, *b),
            Shape::Rect(a, b) => ShapeView::Rect(*a, *b),
        }
    }
}

impl<P> ShapeView<P> {
    /// The tool that draws this shape.
    pub open spec fn tool_of(self) -> Tool {
        match self {
            ShapeView::Pen(_) => Tool::Pen,
            ShapeView::Line(_, _) => Tool::Line,
            ShapeView::Arrow(_, _) => Tool::Arrow,
            ShapeView::Rect(_, _) => Tool::Rect,
        }
    }

    /// The shape a drag with `tool` starts at `at`: a stroke of that one
    /// point, or a figure whose two points are both `at`.
    pub open spec fn started(tool: Tool, at: P) -> ShapeView<P> {
        match tool {
            Tool::Pen => ShapeView::Pen(seq![at]),
            Tool::Line => ShapeView::Line(at, at),
            Tool::Arrow => ShapeView::Arrow(at, at),
            Tool::Rect => ShapeView::Rect(at, at),
        }
    }

    /// The shape after the drag moves on to `to`: a stroke gains the point,
    /// a figure's second point moves there.
    pub open spec fn extended(self, to: P) -> ShapeView<P> {
        match self {
            ShapeView::Pen(pts) => ShapeView::Pen(pts.push(to)),
            ShapeView::Line(a, _) => ShapeView::Line(a, to),
            ShapeView::Arrow(a, _) => ShapeView::Arrow(a, to),
            ShapeView::Rect(a, _) => ShapeView::Rect(a, to),
        }
    }

    /// Whether the shape is drawn: a stroke needs at least two points.
    pub open spec fn drawable(self) -> bool {
        match self {
            ShapeView::Pen(pts) => pts.len() >= 2,
            _ => true,
        }
    }
}

impl<P: Copy> Shape<P> {
    /// The shape a drag with `tool` starts at `at`.
    pub fn start(tool: Tool, at: P) -> (s: Shape<P>)
        ensures
            s@ == ShapeView::started(tool, at),
    {
        match tool {
            Tool::Pen => {
                let mut pts: Vec<P> = Vec::new();
                pts.push(at);
                assert(pts@ =~= seq![at]);
                Shape::Pen(pts)
            },
            Tool::Line => Shape::Line(at, at),
            Tool::Arrow => Shape::Arrow(at, at),
            Tool::Rect => Shape::Rect(at, at),
        }
    }

    /// Moves the drag that draws this shape on to `to`.
    pub fn extend(&mut self, to: P)
        ensures
            final(self)@ == old(self)@.extended(to),
    {
        match self {
            Shape::Pen(pts) => pts.push(to),
            Shape::Line(_, q) => *q = to,
            Shape::Arrow(_, q) => *q = to,
            Shape::Rect(_, q) => *q = to,
        }
    }

    /// The tool that draws this shape.
    pub fn tool(&self) -> (t: Tool)
        ensures
            t == self@.tool_of(),
    {
        match self {
            Shape::Pen(_) => Tool::Pen,
            Shape::Line(_, _) => Tool::Line,
            Shape::Arrow(_, _) => Tool::Arrow,
            Shape::Rect(_, _) => Tool::Rect,
        }
    }

    /// Whether the shape is drawn: a stroke needs at least two points.
    pub fn is_drawable(&self) -> (r: bool)
        ensures
            r == self@.drawable(),
    {
        match self {
            Shape::Pen(pts) => pts.len() >= 2,
            _ => true,
        }
    }
}

/// An annotation: a shape with its stroke colour (RGBA) and width.
#[derive(Clone, Debug)]
pub struct Annot<P, W> {
    pub shape: Shape<P>,
    pub color: [u8; 4],
    pub width: W,
}

/// What an [`Annot`] holds.
pub struct AnnotView<P, W> {
    pub shape: ShapeView<P>,
    pub color: [u8; 4],
    pub width: W,
}

impl<P, W> View for Annot<P, W> {
    type V = AnnotView<P, W>;

    open spec fn view(&self) -> AnnotView<P, W> {
        AnnotView { shape: self.shape@, color: self.color, width: self.width }
    }
}

/// Dragging draws from the drag's start to the pointer: a stroke gains each
/// point the pointer moves to, in order, and keeps the ones before; a line,
/// arrow or rectangle keeps its first point and puts its second one where
/// the pointer is.
pub proof fn law_drag_follows_pointer<P>(a: P, b: P, to: P, pts: Seq<P>)
    ensures
        ShapeView::Line(a, b).extended(to) == ShapeView::Line(a, to),
        ShapeView::Arrow(a, b).extended(to) == ShapeView::Arrow(a, to),
        ShapeView::Rect(a, b).extended(to) == ShapeView::Rect(a, to),
        ({
            let e = ShapeView::Pen(pts).extended(to);
            &&& e matches ShapeView::Pen(q)
            &&& e->Pen_0.len() == pts.len() + 1
            &&& e->Pen_0.last() == to
            &&& e->Pen_0.drop_last() == pts
        }),
{
    assert(pts.push(to).drop_last() =~= pts);
}

/// A drag with a figure tool from `at` to `to` gives that figure from `at`
/// to `to`; a stroke from `at` through `to` has those two points.
pub proof fn law_drag_from_start_to_pointer<P>(at: P, to: P)
    ensures
        ShapeView::started(Tool::Line, at).extended(to) == ShapeView::Line(at, to),
        ShapeView::started(Tool::Arrow, at).extended(to) == ShapeView::Arrow(at, to),
        ShapeView::started(Tool::Rect, at).extended(to) == ShapeView::Rect(at, to),
        ShapeView::started(Tool::Pen, at).extended(to) == ShapeView::Pen(seq![at, to]),
{
    assert(seq![at].push(to) =~= seq![at, to]);
}

/// Starting a shape with a tool gives a shape of that tool, and moving the
/// drag on keeps it.
pub proof fn law_drag_keeps_tool<P>(tool: Tool, at: P)
    ensures
        ShapeView::started(tool, at).tool_of() == tool,
        forall|s: ShapeView<P>, to: P| #[trigger] s.extended(to).tool_of() == s.tool_of(),
{
}

/// A stroke is drawn once the drag has moved at least once; a figure is
/// drawn from the start.
pub proof fn law_stroke_drawn_after_move<P>(tool: Tool, at: P, to: P)
    ensures
        ShapeView::started(tool, at).extended(to).drawable(),
        tool != Tool::Pen ==> ShapeView::started(tool, at).drawable(),
        !ShapeView::started(Tool::Pen, at).drawable(),
{
}

// ---------------------------------------------------------------------------
// Pixels
// ---------------------------------------------------------------------------

/// A colour channel `c` of a premultiplied pixel with alpha `a`, brought back
/// to straight alpha with rounding and clamped to 255; zero when `a` is zero.
pub open spec fn unpremultiplied_channel(c: u8, a: u8) -> u8 {
    if a == 0 {
        0
    } else {
        let v: int = (c as int * 255 + a as int / 2) / (a as int);
        if v > 255 {
            255
        } else {
            v as u8
        }
    }
}

/// Premultiplied RGBA bytes brought back to straight RGBA, pixel by pixel;
/// alpha is kept.
pub open spec fn unpremultiplied(p: Seq<u8>) -> Seq<u8> {
    Seq::new(
        p.len(),
        |i: int|
            if i % 4 == 3 {
                p[i]
            } else {
                unpremultiplied_channel(p[i], p[i - i % 4 + 3])
            },
    )
}

/// A colour channel brought back to straight alpha.
pub fn unpremultiply_channel(c: u8, a: u8) -> (r: u8)
    ensures
        r == unpremultiplied_channel(c, a),
{
    if a == 0 {
        0
    } else {
        let c32: u32 = c as u32;
        let a32: u32 = a as u32;
        assert(c32 * 255 <= 65025) by (nonlinear_arith)
            requires
                c32 <= 255,
        ;
        let v: u32 = (c32 * 255 + a32 / 2) / a32;
        if v > 255 {
            255
        } else {
            v as u8
        }
    }
}

/// Premultiplied RGBA bytes brought back to straight RGBA.
pub fn unpremultiply(p: &[u8]) -> (r: Vec<u8>)
    requires
        p@.len() % 4 == 0,
    ensures
        r@ == unpremultiplied(p@),
{
    let n: usize = p.len();
    let mut r: Vec<u8> = Vec::new();
    let mut i: usize = 0;
    while i < n
        invariant
            n == p@.len(),
            n % 4 == 0,
            i % 4 == 0,
            i <= n,
            r@.len() == i,
            forall|k: int| 0 <= k < i ==> #[trigger] r@[k] == unpremultiplied(p@)[k],
        decreases n - i,
    {
        let a: u8 = p[i + 3];
        r.push(unpremultiply_channel(p[i], a));
        r.push(unpremultiply_channel(p[i + 1], a));
        r.push(unpremultiply_channel(p[i + 2], a));
        r.push(a);
        assert forall|k: int| 0 <= k < i + 4 implies #[trigger] r@[k] == unpremultiplied(p@)[k] by {
            if k >= i {
                assert(k - k % 4 == i);
            }
        }
        i = i + 4;
    }
    assert(r@ =~= unpremultiplied(p@));
    r
}

/// Un-premultiplying rounds to the nearest: for a premultiplied channel
/// (`c <= a`) the result `r` is the whole number nearest to `c * 255 / a`,
/// so `r * a` is within half of `a` of `c * 255`; a fully transparent pixel
/// gives zero.
pub proof fn law_unpremultiply_rounds(c: u8, a: u8)
    ensures
        a == 0 ==> unpremultiplied_channel(c, a) == 0,
        0 < a && c <= a ==> ({
            let r = unpremultiplied_channel(c, a) as int;
            &&& r * a <= c * 255 + a / 2
            &&& c * 255 + a / 2 < (r + 1) * a
        }),
{
    if 0 < a && c <= a {
        let x: int = c as int * 255 + a as int / 2;
        let v: int = x / (a as int);
        assert(v * a <= x < (v + 1) * a) by (nonlinear_arith)
            requires
                v == x / (a as int),
                a > 0,
        ;
        assert(v <= 255) by (nonlinear_arith)
            requires
                v * a <= x,
                x == c as int * 255 + a as int / 2,
                c <= a,
                a > 0,
        ;
    }
}

/// An opaque pixel is its own straight-alpha form: straight RGBA and
/// premultiplied RGBA agree where alpha is 255.
pub proof fn law_opaque_unchanged(c: u8)
    ensures
        unpremultiplied_channel(c, 255) == c,
{
    let v: int = (c as int * 255 + 127) / 255;
    assert(v == c) by (nonlinear_arith)
        requires
            v == (c as int * 255 + 127) / 255,
            0 <= c <= 255,
    ;
}

// ---------------------------------------------------------------------------
// Rasters
// ---------------------------------------------------------------------------

/// An RGBA image: `width` by `height` pixels, row by row, four bytes each.
pub struct Raster {
    pub width: u32,
    pub height: u32,
    pub pixels: Vec<u8>,
}

impl Raster {
    /// The pixel data has exactly four bytes per pixel.
    pub open spec fn wf(&self) -> bool {
        self.pixels@.len() == self.width as int * self.height as int * 4
    }
}

/// Channel `c` of the pixel at (`x`, `y`) of RGBA data `width` pixels wide.
pub open spec fn pixel(data: Seq<u8>, width: int, x: int, y: int, c: int) -> u8 {
    data[(y * width + x) * 4 + c]
}

pub open spec fn min_u32(a: u32, b: u32) -> u32 {
    if a < b {
        a
    } else {
        b
    }
}

/// `out` is the part of `img` that starts at (`x`, `y`) and spans `w` by `h`
/// pixels, cut down to what lies inside `img`, as the image crate's
/// `imageops::crop_imm` cuts it: the start is moved back onto the image's
/// edge when it lies beyond it, and the extent ends at the image's edge.
pub open spec fn is_crop(img: Raster, x: u32, y: u32, w: u32, h: u32, out: Raster) -> bool {
    let x0: u32 = min_u32(x, img.width);
    let y0: u32 = min_u32(y, img.height);
    &&& out.width == min_u32(w, (img.width - x0) as u32)
    &&& out.height == min_u32(h, (img.height - y0) as u32)
    &&& forall|px: int, py: int, c: int|
        0 <= px < out.width && 0 <= py < out.height && 0 <= c < 4 ==> #[trigger] pixel(
            out.pixels@,
            out.width as int,
            px,
            py,
            c,
        ) == pixel(img.pixels@, img.width as int, x0 + px, y0 + py, c)
}

/// The image crate's `imageops::crop_imm` followed by `SubImage::to_image`,
/// on an RGBA buffer. The contract states the cut as the crate's source
/// computes it (`crop_dimms` and `to_image`).
#[verifier::external_body]
fn crop_rgba(img: Raster, x: u32, y: u32, w: u32, h: u32) -> (out: Raster)
    requires
        img.wf(),
    ensures
        out.wf(),
        is_crop(img, x, y, w, h, out),
{
    let buf = image::RgbaImage::from_raw(img.width, img.height, img.pixels).unwrap();
    let sub = image::imageops::crop_imm(&buf, x, y, w, h).to_image();
    Raster { width: sub.width(), height: sub.height(), pixels: sub.into_raw() }
}

/// The extent of the exported crop along one axis: the selection's extent,
/// cut down to what is left of the image after the start, and never below one.
pub open spec fn crop_span(start: u32, extent: u32, limit: u32) -> u32 {
    let room: u32 = if start < limit {
        (limit - start) as u32
    } else {
        0u32
    };
    let e: u32 = min_u32(extent, room);
    if e < 1 {
        1
    } else {
        e
    }
}

fn span(start: u32, extent: u32, limit: u32) -> (r: u32)
    ensures
        r == crop_span(start, extent, limit),
{
    let room: u32 = limit.saturating_sub(start);
    let e: u32 = if extent < room {
        extent
    } else {
        room
    };
    if e < 1 {
        1
    } else {
        e
    }
}

/// The selected part of a capture, from (`x0`, `y0`) spanning `w` by `h`
/// pixels, each extent cut down to the image and kept at least one.
pub fn crop_selection(img: Raster, x0: u32, y0: u32, w: u32, h: u32) -> (out: Raster)
    requires
        img.wf(),
    ensures
        out.wf(),
        is_crop(
            img,
            x0,
            y0,
            crop_span(x0, w, img.width),
            crop_span(y0, h, img.height),
            out,
        ),
{
    let cw: u32 = span(x0, w, img.width);
    let ch: u32 = span(y0, h, img.height);
    crop_rgba(img, x0, y0, cw, ch)
}

/// A selection that starts inside the image gives a crop that is not empty
/// and lies inside the image.
pub proof fn law_crop_inside(img: Raster, x0: u32, y0: u32, w: u32, h: u32, out: Raster)
    requires
        x0 < img.width,
        y0 < img.height,
        is_crop(img, x0, y0, crop_span(x0, w, img.width), crop_span(y0, h, img.height), out),
    ensures
        1 <= out.width,
        x0 + out.width <= img.width,
        1 <= out.height,
        y0 + out.height <= img.height,
        w >= 1 && x0 + w <= img.width ==> out.width == w,
        h >= 1 && y0 + h <= img.height ==> out.height == h,
{
}

// ---------------------------------------------------------------------------
// PNG
// ---------------------------------------------------------------------------

/// The PNG file the image crate writes for a `width` by `height` straight
/// RGBA buffer, or none when it reports an error.
pub uninterp spec fn png_encoding(width: u32, height: u32, rgba: Seq<u8>) -> Option<Seq<u8>>;

/// The image crate's error type, carried through as it is.
#[verifier::external_type_specification]
#[verifier::external_body]
pub struct ExImageError(image::ImageError);

/// The image crate's `ImageBuffer::write_to` with `ImageFormat::Png`, on an
/// RGBA buffer. The PNG it writes is named, not described: `png_encoding`.
/// The contract also says when it succeeds: the png encoder refuses a zero
/// width or height (`ZeroWidth`, `ZeroHeight`) and, writing into memory, has
/// no other failure.
#[verifier::external_body]
fn encode_png(width: u32, height: u32, rgba: Vec<u8>) -> (r: Result<Vec<u8>, image::ImageError>)
    requires
        rgba@.len() == width as int * height as int * 4,
    ensures
        r is Ok <==> png_encoding(width, height, rgba@) is Some,
        r is Ok <==> (width > 0 && height > 0),
        r matches Ok(bytes) ==> bytes@ == png_encoding(width, height, rgba@)->0,
{
    let img = image::RgbaImage::from_raw(width, height, rgba).unwrap();
    let mut buf = std::io::Cursor::new(Vec::new());
    img.write_to(&mut buf, image::ImageFormat::Png).map(move |_| buf.into_inner())
}

/// Why an annotated capture could not be exported.
pub enum RenderError {
    /// There is no captured image.
    NoImage,
    /// No region is selected.
    NoSelection,
    /// The crop is empty or too large to draw on.
    BadSize,
    /// The PNG encoder failed; its message.
    Encode(String),
}

impl RenderError {
    /// The message that describes this failure.
    pub fn message(&self) -> (r: String)
        ensures
            self is NoImage ==> r@ == "no image"@,
            self is NoSelection ==> r@ == "no selection"@,
            self is BadSize ==> r@ == "bad image size"@,
            self matches RenderError::Encode(m) ==> r@ == m@,
    {
        match self {
            RenderError::NoImage => crate::text::owned("no image"),
            RenderError::NoSelection => crate::text::owned("no selection"),
            RenderError::BadSize => crate::text::owned("bad image size"),
            RenderError::Encode(m) => m.clone(),
        }
    }
}

/// What an export starts from: the captured image and the selected region.
/// Without an image the export fails with `NoImage`; with one but without a
/// selection, with `NoSelection`.
pub fn export_source<'a, I, R: Copy>(image: Option<&'a I>, selection: Option<R>) -> (r: Result<
    (&'a I, R),
    RenderError,
>)
    ensures
        image is None ==> r matches Err(RenderError::NoImage),
        image is Some && selection is None ==> r matches Err(RenderError::NoSelection),
        image is Some && selection is Some ==> (r matches Ok((i, s)) && i == image->0 && s
            == selection->0),
{
    match image {
        None => Err(RenderError::NoImage),
        Some(i) => match selection {
            None => Err(RenderError::NoSelection),
            Some(s) => Ok((i, s)),
        },
    }
}

/// Encodes a rendered `width` by `height` premultiplied RGBA buffer as PNG,
/// bringing it back to straight alpha first.
pub fn finish_png(width: u32, height: u32, premultiplied: &[u8]) -> (r: Result<Vec<u8>, RenderError>)
    requires
        premultiplied@.len() == width as int * height as int * 4,
    ensures
        r is Ok <==> png_encoding(width, height, unpremultiplied(premultiplied@)) is Some,
        r is Ok <==> (width > 0 && height > 0),
        r matches Ok(bytes) ==> bytes@ == png_encoding(
            width,
            height,
            unpremultiplied(premultiplied@),
        )->0,
        r matches Err(e) ==> e is Encode,
{
    assert(premultiplied@.len() % 4 == 0);
    let straight = unpremultiply(premultiplied);
    match encode_png(width, height, straight) {
        Ok(bytes) => Ok(bytes),
        Err(e) => Err(RenderError::Encode(e.to_string())),
    }
}

} // verus!
