//! Pixel work for the badge: an RGBA raster held as plain bytes, drawn on
//! through imageproc's filled shapes and encoded as PNG through the image
//! crate, both behind trusted wrappers. The badge shape's composition out
//! of rectangles and circles is verified.
use vstd::prelude::*;

verus! {

/// An RGBA raster: row-major bytes, four per pixel.
pub struct Raster {
    pub width: u32,
    pub height: u32,
    pub data: Vec<u8>,
}

impl Raster {
    /// The byte buffer matches the dimensions.
    pub open spec fn wf(&self) -> bool {
        self.data@.len() == 4 * (self.width as int) * (self.height as int)
    }

    /// A fully transparent raster of the given size.
    pub fn new(width: u32, height: u32) -> (r: Raster)
        requires
            1 <= width <= 4096,
            1 <= height <= 4096,
        ensures
            r.wf(),
            r.width == width,
            r.height == height,
            r.data@ == Seq::new(4 * (width as nat) * (height as nat), |i: int| 0u8),
    {
        proof {
            assert(4 * (width as int) * (height as int) <= 4 * 4096 * 4096) by (nonlinear_arith)
                requires
                    1 <= width <= 4096,
                    1 <= height <= 4096,
            ;
        }
        let n: usize = 4 * (width as usize) * (height as usize);
        let mut data: Vec<u8> = Vec::new();
        let mut i: usize = 0;
        while i < n
            invariant
                i <= n,
                data@.len() == i,
                forall|j: int| 0 <= j < i ==> data@[j] == 0u8,
            decreases n - i,
        {
            data.push(0);
            i = i + 1;
        }
        let r = Raster { width, height, data };
        proof {
            assert(r.data@ =~= Seq::new(4 * (width as nat) * (height as nat), |i: int| 0u8));
        }
        r
    }
}

/// What imageproc's filled-rectangle drawing leaves in a raster of the
/// given dimensions: the rectangle's intersection with the raster painted
/// in the color, everything else untouched.
pub uninterp spec fn rect_filled(
    pixels: Seq<u8>,
    iw: nat,
    ih: nat,
    x: int,
    y: int,
    w: nat,
    h: nat,
    cr: u8,
    cg: u8,
    cb: u8,
    ca: u8,
) -> Seq<u8>;

/// What imageproc's filled-circle drawing leaves in a raster of the given
/// dimensions.
pub uninterp spec fn circle_filled(
    pixels: Seq<u8>,
    iw: nat,
    ih: nat,
    cx: int,
    cy: int,
    radius: int,
    cr: u8,
    cg: u8,
    cb: u8,
    ca: u8,
) -> Seq<u8>;

/// What image's `overlay` leaves in the bottom raster after compositing the
/// top raster at the given offset, clipped to the bottom's bounds.
pub uninterp spec fn overlaid(
    bottom: Seq<u8>,
    bw: nat,
    bh: nat,
    top: Seq<u8>,
    tw: nat,
    th: nat,
    x: int,
    y: int,
) -> Seq<u8>;

/// The PNG encoding of an RGBA raster: a function of the dimensions and
/// pixel bytes alone.
pub uninterp spec fn png_bytes(w: nat, h: nat, pixels: Seq<u8>) -> Seq<u8>;

/// Relies on imageproc::drawing::draw_filled_rect_mut (via
/// image::ImageBuffer::from_raw and into_raw to move the bytes in and
/// out): paints the rectangle's intersection with the raster, leaving the
/// dimensions as they are. The rectangle must be nonempty.
#[verifier::external_body]
pub(crate) fn fill_rect(img: &mut Raster, x: u32, y: u32, w: u32, h: u32, cr: u8, cg: u8, cb: u8, ca: u8)
    requires
        old(img).wf(),
        1 <= w <= 100000,
        1 <= h <= 100000,
        x <= 100000,
        y <= 100000,
    ensures
        final(img).wf(),
        final(img).width == old(img).width,
        final(img).height == old(img).height,
        final(img).data@ == rect_filled(
            old(img).data@,
            old(img).width as nat,
            old(img).height as nat,
            x as int,
            y as int,
            w as nat,
            h as nat,
            cr,
            cg,
            cb,
            ca,
        ),
{
    let data = std::mem::replace(&mut img.data, Vec::new());
    let mut buf = image::RgbaImage::from_raw(img.width, img.height, data).unwrap();
    imageproc::drawing::draw_filled_rect_mut(
        &mut buf,
        imageproc::rect::Rect::at(x as i32, y as i32).of_size(w, h),
        image::Rgba([cr, cg, cb, ca]),
    );
    img.data = buf.into_raw();
}

/// Relies on imageproc::drawing::draw_filled_circle_mut (via
/// image::ImageBuffer::from_raw and into_raw): paints the disc's
/// intersection with the raster, leaving the dimensions as they are.
#[verifier::external_body]
pub(crate) fn fill_circle(img: &mut Raster, cx: u32, cy: u32, radius: u32, cr: u8, cg: u8, cb: u8, ca: u8)
    requires
        old(img).wf(),
        cx <= 100000,
        cy <= 100000,
        radius <= 100000,
    ensures
        final(img).wf(),
        final(img).width == old(img).width,
        final(img).height == old(img).height,
        final(img).data@ == circle_filled(
            old(img).data@,
            old(img).width as nat,
            old(img).height as nat,
            cx as int,
            cy as int,
            radius as int,
            cr,
            cg,
            cb,
            ca,
        ),
{
    let data = std::mem::replace(&mut img.data, Vec::new());
    let mut buf = image::RgbaImage::from_raw(img.width, img.height, data).unwrap();
    imageproc::drawing::draw_filled_circle_mut(
        &mut buf,
        (cx as i32, cy as i32),
        radius as i32,
        image::Rgba([cr, cg, cb, ca]),
    );
    img.data = buf.into_raw();
}

/// Relies on image::imageops::overlay (via image::ImageBuffer::from_raw
/// and into_raw): composites `top` onto `bottom` at the offset, clipped to
/// `bottom`'s bounds; dimensions stay.
#[verifier::external_body]
pub(crate) fn overlay_onto(bottom: &mut Raster, top: &Raster, x: u32, y: u32)
    requires
        old(bottom).wf(),
        top.wf(),
    ensures
        final(bottom).wf(),
        final(bottom).width == old(bottom).width,
        final(bottom).height == old(bottom).height,
        final(bottom).data@ == overlaid(
            old(bottom).data@,
            old(bottom).width as nat,
            old(bottom).height as nat,
            top.data@,
            top.width as nat,
            top.height as nat,
            x as int,
            y as int,
        ),
{
    let data = std::mem::replace(&mut bottom.data, Vec::new());
    let mut buf = image::RgbaImage::from_raw(bottom.width, bottom.height, data).unwrap();
    let top_buf = image::RgbaImage::from_raw(top.width, top.height, top.data.clone()).unwrap();
    image::imageops::overlay(&mut buf, &top_buf, x as i64, y as i64);
    bottom.data = buf.into_raw();
}

/// Relies on image::ImageBuffer::write_to with the PNG format (via
/// image::ImageBuffer::from_raw): the buffer holds the PNG encoding of the
/// raster, a function of its dimensions and pixels alone. The encoder
/// refuses only a zero dimension; the RGBA8 layout is a valid PNG color
/// combination, the buffer length matches the dimensions by `wf`, and
/// writing into an in-memory `Vec` cursor cannot fail, so encoding a
/// raster with both dimensions nonzero succeeds.
#[verifier::external_body]
fn encode_png_raw(img: &Raster) -> (r: Option<Vec<u8>>)
    requires
        img.wf(),
    ensures
        img.width >= 1 && img.height >= 1 ==> r is Some,
        r matches Some(b) ==> b@ == png_bytes(img.width as nat, img.height as nat, img.data@),
{
    let buf = image::RgbaImage::from_raw(img.width, img.height, img.data.clone()).unwrap();
    let mut out = Vec::new();
    match buf.write_to(&mut std::io::Cursor::new(&mut out), image::ImageFormat::Png) {
        Ok(()) => Some(out),
        Err(_) => None,
    }
}

/// Encode a raster as PNG bytes: encoding a nonempty raster always
/// succeeds, and the bytes are a function of the dimensions and pixels
/// alone.
pub fn encode_png(img: &Raster) -> (r: Option<Vec<u8>>)
    requires
        img.wf(),
        1 <= img.width <= 4096,
        1 <= img.height <= 4096,
    ensures
        r matches Some(b) && b@ == png_bytes(img.width as nat, img.height as nat, img.data@),
{
    encode_png_raw(img)
}

} // verus!
