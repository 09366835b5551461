use vstd::prelude::*;
use vstd::arithmetic::div_mod::lemma_fundamental_div_mod_converse;
use crate::geometry::unit_quad_spec;

verus! {

#[verifier::external_type_specification]
#[verifier::external_body]
pub struct ExImageError(image::ImageError);

/// A decoded image: RGBA8, four bytes per pixel, rows from the top down.
pub struct SourceImage {
    pub width: u32,
    pub height: u32,
    pub pixels: Vec<u8>,
}

/// An image laid out for upload as a texture: RGBA8, rows from the bottom up,
/// so the first row sits at `v = 0`.
pub struct TextureImage {
    pub width: u32,
    pub height: u32,
    pub texels: Vec<u8>,
}

/// Why no texture could be made from an asset.
#[derive(Clone, Copy, Debug, PartialEq, Eq, Structural)]
pub enum TextureError {
    /// The bytes are not a JPEG image that could be decoded.
    Decode,
    /// The image has no pixels.
    Empty,
}

impl SourceImage {
    pub open spec fn wf(&self) -> bool {
        self.pixels@.len() == 4 * self.width * self.height
    }
}

impl TextureImage {
    pub open spec fn wf(&self) -> bool {
        self.texels@.len() == 4 * self.width * self.height
    }
}

/// `data` cut into rows of `row_len` bytes, with the rows in reverse order.
pub open spec fn rows_reversed(data: Seq<u8>, row_len: nat) -> Seq<u8> {
    let n = (data.len() / row_len) as int;
    let l = row_len as int;
    Seq::new(data.len(), |k: int| data[(n - 1 - k / l) * l + k % l])
}

/// The four bytes of the pixel at column `col`, row `row` of packed RGBA8 data
/// that is `w` pixels wide.
pub open spec fn pixel_of(data: Seq<u8>, w: nat, col: nat, row: nat) -> Seq<u8> {
    data.subrange(4 * (row * w + col) as int, 4 * (row * w + col) as int + 4)
}

/// What the texture shows at the corner `(u, v)`, with `u` and `v` each 0 or 1
/// and `v = 0` the first uploaded row.
pub open spec fn texel_at_corner(t: TextureImage, u: nat, v: nat) -> Seq<u8> {
    pixel_of(t.texels@, t.width as nat, u * (t.width - 1) as nat, v * (t.height - 1) as nat)
}

/// The pixel of the source image at the corner `(cx, cy)`, with `cx` and `cy`
/// each 0 or 1 and `cy = 0` the top row.
pub open spec fn source_corner(img: SourceImage, cx: nat, cy: nat) -> Seq<u8> {
    pixel_of(img.pixels@, img.width as nat, cx * (img.width - 1) as nat, cy * (img.height - 1) as nat)
}

/// Whether the JPEG decoder accepts `bytes`, and if so the width and height it
/// reports. Both follow from parsing the headers and the entropy-coded data
/// alone; the pixel values are left unnamed, since the decoder picks a SIMD or a
/// scalar inverse DCT at run time and the two may round differently.
pub uninterp spec fn jpeg_dimensions_of(bytes: Seq<u8>) -> Option<(u32, u32)>;

/// Relies on image::load_from_memory_with_format with the JPEG format, then
/// DynamicImage::to_rgba8, ImageBuffer::dimensions and ImageBuffer::into_raw:
/// decoding succeeds or fails by the bytes alone, and on success the buffer
/// holds four bytes for each pixel of the reported dimensions.
#[verifier::external_body]
fn decode_jpeg(bytes: &[u8]) -> (r: Result<SourceImage, image::ImageError>)
    ensures
        r is Ok <==> jpeg_dimensions_of(bytes@) is Some,
        r matches Ok(img) ==> img.wf() && jpeg_dimensions_of(bytes@) == Some((img.width, img.height)),
{
    let rgba = image::load_from_memory_with_format(bytes, image::ImageFormat::Jpeg)?.to_rgba8();
    let (width, height) = rgba.dimensions();
    Ok(SourceImage { width, height, pixels: rgba.into_raw() })
}

/// Relies on glium's RawImage2d::from_raw_rgba_reversed: it cuts the data into
/// rows of `width` RGBA pixels and lays the rows out in reverse order.
#[verifier::external_body]
fn flip_rows(pixels: &[u8], width: u32, height: u32) -> (r: Vec<u8>)
    requires
        width > 0,
        pixels@.len() == 4 * width * height,
    ensures
        r@ == rows_reversed(pixels@, 4 * width as nat),
{
    glium::texture::RawImage2d::from_raw_rgba_reversed(pixels, (width, height)).data.into_owned()
}

/// Lays a decoded image out for upload: the rows are reversed, so that the
/// top of the image ends up at `v = 1` of the texture. An image without pixels
/// is refused.
pub fn prepare_texture(image: &SourceImage) -> (r: Result<TextureImage, TextureError>)
    requires
        image.wf(),
    ensures
        match r {
            Ok(t) => image.width > 0 && image.height > 0 && t.width == image.width
                && t.height == image.height && t.texels@ == rows_reversed(
                image.pixels@,
                4 * image.width as nat,
            ) && t.wf(),
            Err(e) => (image.width == 0 || image.height == 0) && e == TextureError::Empty,
        },
{
    if image.width == 0 || image.height == 0 {
        return Err(TextureError::Empty);
    }
    let texels = flip_rows(image.pixels.as_slice(), image.width, image.height);
    Ok(TextureImage { width: image.width, height: image.height, texels })
}

/// Decodes a JPEG asset and lays it out for upload. Bytes the decoder refuses
/// give `Decode`; an image without pixels gives `Empty`; otherwise the texture
/// has the decoded size and holds the rows of an RGBA image of that size in
/// reverse order.
pub fn load_texture(bytes: &[u8]) -> (r: Result<TextureImage, TextureError>)
    ensures
        match jpeg_dimensions_of(bytes@) {
            None => r == Err::<TextureImage, TextureError>(TextureError::Decode),
            Some(d) => if d.0 == 0 || d.1 == 0 {
                r == Err::<TextureImage, TextureError>(TextureError::Empty)
            } else {
                r matches Ok(t) && t.width == d.0 && t.height == d.1 && t.wf() && exists|p: Seq<u8>|
                    p.len() == 4 * d.0 * d.1 && t.texels@ == #[trigger] rows_reversed(p, 4 * d.0 as nat)
            },
        },
{
    match decode_jpeg(bytes) {
        Ok(image) => {
            let r = prepare_texture(&image);
            proof {
                assert(r is Ok ==> image.pixels@.len() == 4 * image.width * image.height
                    && r->Ok_0.texels@ == rows_reversed(image.pixels@, 4 * image.width as nat));
            }
            r
        },
        Err(_) => Err(TextureError::Decode),
    }
}

/// Corners of the reversed layout: the texture at `(u, v)` shows the source
/// image at `(u, 1 - v)`.
pub proof fn lemma_corner_orientation(img: SourceImage, tex: TextureImage, u: nat, v: nat)
    requires
        img.wf(),
        img.width > 0,
        img.height > 0,
        tex.width == img.width,
        tex.height == img.height,
        tex.texels@ == rows_reversed(img.pixels@, 4 * img.width as nat),
        u <= 1,
        v <= 1,
    ensures
        texel_at_corner(tex, u, v) == source_corner(img, u, (1 - v) as nat),
{
    let w = img.width as int;
    let h = img.height as int;
    let c = u * (w - 1);
    let r = v * (h - 1);
    let sr = (1 - v) * (h - 1);
    assert(0 <= c < w && 0 <= r < h && sr == h - 1 - r) by (nonlinear_arith)
        requires
            w > 0,
            h > 0,
            u <= 1,
            v <= 1,
            c == u * (w - 1),
            r == v * (h - 1),
            sr == (1 - v) * (h - 1),
    ;
    let l = 4 * w;
    assert((4 * w * h) / l == h) by {
        lemma_fundamental_div_mod_converse(4 * w * h, l, h, 0);
    }
    assert(4 * (r * w + c) + 4 <= 4 * w * h && 4 * (sr * w + c) + 4 <= 4 * w * h) by (nonlinear_arith)
        requires
            0 <= c < w,
            0 <= r < h,
            0 <= sr < h,
    ;
    let got = texel_at_corner(tex, u, v);
    let want = source_corner(img, u, (1 - v) as nat);
    assert forall|b: int| 0 <= b < 4 implies got[b] == want[b] by {
        let k = 4 * (r * w + c) + b;
        assert(k == r * l + (4 * c + b)) by (nonlinear_arith)
            requires
                k == 4 * (r * w + c) + b,
                l == 4 * w,
        ;
        lemma_fundamental_div_mod_converse(k, l, r, 4 * c + b);
        assert((h - 1 - r) * l + (4 * c + b) == 4 * (sr * w + c) + b) by (nonlinear_arith)
            requires
                sr == h - 1 - r,
                l == 4 * w,
        ;
    }
    assert(got =~= want);
}

/// Each corner of a tile shows the matching corner of the source image: the
/// top-left vertex samples the top-left pixel, the bottom-right vertex the
/// bottom-right one, and likewise for the other two.
pub proof fn lemma_tile_corners_show_image_corners(img: SourceImage, tex: TextureImage, s: u32, k: int)
    requires
        img.wf(),
        img.width > 0,
        img.height > 0,
        tex.width == img.width,
        tex.height == img.height,
        tex.texels@ == rows_reversed(img.pixels@, 4 * img.width as nat),
        s > 0,
        0 <= k < 4,
    ensures
        ({
            let q = unit_quad_spec(s)[k];
            texel_at_corner(tex, q.u as nat, q.v as nat) == source_corner(
                img,
                (q.x / s) as nat,
                (q.y / s) as nat,
            )
        }),
{
    let q = unit_quad_spec(s)[k];
    assert(s as int / s as int == 1) by (nonlinear_arith)
        requires
            s > 0,
    ;
    assert(q.u <= 1 && q.v <= 1);
    assert((q.x / s) as nat == q.u as nat && (q.y / s) as nat == (1 - q.v) as nat);
    lemma_corner_orientation(img, tex, q.u as nat, q.v as nat);
}

} // verus!
