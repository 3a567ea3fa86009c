use vstd::prelude::*;

use crate::sprite::Sprite;

verus! {

/// A raw RGBA image: `width × height` pixels, four bytes per pixel in the
/// order red, green, blue, alpha, rows stored one after another. This is the
/// form in which images reach the atlas builder; decoding an image file into
/// such a buffer is the asset loader's job, outside the core.
pub struct Image {
    width: u32,
    height: u32,
    pixels: Vec<u8>,
}

/// The four bytes of the pixel at column `x`, row `y` of a raw RGBA buffer
/// whose rows are `width` pixels wide.
pub open spec fn pixel_at(bytes: Seq<u8>, width: u32, x: int, y: int) -> Seq<u8> {
    bytes.subrange(4 * (y * width + x), 4 * (y * width + x) + 4)
}

impl Image {
    pub closed spec fn width_spec(self) -> u32 {
        self.width
    }

    pub closed spec fn height_spec(self) -> u32 {
        self.height
    }

    pub closed spec fn bytes(self) -> Seq<u8> {
        self.pixels@
    }

    /// The buffer holds exactly four bytes for each of the
    /// `width × height` pixels.
    pub open spec fn wf(self) -> bool {
        self.bytes().len() == 4 * self.width_spec() * self.height_spec()
    }

    /// The four bytes of the pixel at column `x`, row `y`.
    pub open spec fn pixel(self, x: int, y: int) -> Seq<u8> {
        pixel_at(self.bytes(), self.width_spec(), x, y)
    }

    /// Wraps a raw RGBA buffer; succeeds exactly when the buffer length
    /// matches the dimensions.
    pub fn new(width: u32, height: u32, pixels: Vec<u8>) -> (r: Option<Image>)
        ensures
            match r {
                Some(img) => {
                    &&& img.wf()
                    &&& img.width_spec() == width
                    &&& img.height_spec() == height
                    &&& img.bytes() == pixels@
                    &&& pixels@.len() == 4 * width * height
                },
                None => pixels@.len() != 4 * width * height,
            },
    {
        proof {
            assert(4 * (width as int) * (height as int) <= u128::MAX) by (nonlinear_arith)
                requires
                    width <= u32::MAX,
                    height <= u32::MAX,
            ;
        }
        if pixels.len() as u128 == 4u128 * (width as u128) * (height as u128) {
            Some(Image { width, height, pixels })
        } else {
            None
        }
    }

    pub fn width(&self) -> (r: u32)
        ensures
            r == self.width_spec(),
    {
        self.width
    }

    pub fn height(&self) -> (r: u32)
        ensures
            r == self.height_spec(),
    {
        self.height
    }

    /// The raw RGBA bytes, for handing to the texture upload.
    pub fn raw(&self) -> (r: &Vec<u8>)
        ensures
            r@ == self.bytes(),
    {
        &self.pixels
    }
}

/// What a registered image contributes to the atlas cell at position
/// `(x, y)`: its own pixel inside its extent, fully transparent black
/// outside it.
pub open spec fn padded_pixel(img: Image, x: int, y: int) -> Seq<u8> {
    if x < img.width_spec() && y < img.height_spec() {
        img.pixel(x, y)
    } else {
        seq![0u8, 0u8, 0u8, 0u8]
    }
}

/// `layer` is `img` padded to a `cell_width × cell_height` cell: the image
/// sits in the top-left corner and every pixel outside it is fully
/// transparent black.
pub open spec fn is_padded_layer(layer: Image, img: Image, cell_width: u32, cell_height: u32) -> bool {
    &&& layer.wf()
    &&& layer.width_spec() == cell_width
    &&& layer.height_spec() == cell_height
    &&& forall|x: int, y: int|
        0 <= x < cell_width && 0 <= y < cell_height ==> #[trigger] layer.pixel(x, y)
            == padded_pixel(img, x, y)
}

/// Greatest width among the images, 0 when there are none.
pub open spec fn max_width_of(s: Seq<Image>) -> int
    decreases s.len(),
{
    if s.len() == 0 {
        0
    } else {
        let rest = max_width_of(s.drop_last());
        let last = s.last().width_spec() as int;
        if last >= rest {
            last
        } else {
            rest
        }
    }
}

/// Greatest height among the images, 0 when there are none.
pub open spec fn max_height_of(s: Seq<Image>) -> int
    decreases s.len(),
{
    if s.len() == 0 {
        0
    } else {
        let rest = max_height_of(s.drop_last());
        let last = s.last().height_spec() as int;
        if last >= rest {
            last
        } else {
            rest
        }
    }
}

/// The maxima lie within `u32` and bound every image's dimensions.
pub proof fn lemma_max_dimension_bounds(s: Seq<Image>)
    ensures
        0 <= max_width_of(s) <= u32::MAX,
        0 <= max_height_of(s) <= u32::MAX,
        forall|i: int|
            0 <= i < s.len() ==> (#[trigger] s[i]).width_spec() <= max_width_of(s)
                && s[i].height_spec() <= max_height_of(s),
    decreases s.len(),
{
    if s.len() > 0 {
        lemma_max_dimension_bounds(s.drop_last());
        assert forall|i: int| 0 <= i < s.len() implies (#[trigger] s[i]).width_spec()
            <= max_width_of(s) && s[i].height_spec() <= max_height_of(s) by {
            if i < s.len() - 1 {
                assert(s.drop_last()[i] == s[i]);
            } else {
                assert(s[i] == s.last());
            }
        }
    }
}

/// The atlas data the builder produces: every registered image padded to the
/// common cell size, in registration order, ready to be uploaded as the
/// layers of one texture array.
pub struct Atlas {
    pub cell_width: u32,
    pub cell_height: u32,
    pub layers: Vec<Image>,
}

/// Collects registered images and, once all are in, produces the atlas:
/// each image padded to the maximum width and height over all of them.
/// Building consumes the builder, so no image can be registered afterwards.
pub struct SpriteLoader {
    images: Vec<Image>,
}

impl SpriteLoader {
    pub closed spec fn images_spec(self) -> Seq<Image> {
        self.images@
    }

    pub open spec fn wf(self) -> bool {
        forall|i: int| 0 <= i < self.images_spec().len() ==> (#[trigger] self.images_spec()[i]).wf()
    }

    pub fn new() -> (r: SpriteLoader)
        ensures
            r.wf(),
            r.images_spec().len() == 0,
    {
        SpriteLoader { images: Vec::new() }
    }

    /// How many images have been registered so far.
    pub fn len(&self) -> (n: usize)
        ensures
            n == self.images_spec().len(),
    {
        self.images.len()
    }

    /// Registers an image and returns its sprite: the layer index is the
    /// registration order, and the recorded dimensions are the image's
    /// dimensions as registered — padding never changes them.
    pub fn load_sprite(&mut self, image: Image) -> (s: Sprite)
        requires
            old(self).wf(),
            image.wf(),
            old(self).images_spec().len() < u32::MAX,
        ensures
            final(self).wf(),
            final(self).images_spec() == old(self).images_spec().push(image),
            s.index_spec() == old(self).images_spec().len(),
            s.dimensions_spec() == (image.width_spec(), image.height_spec()),
    {
        let index = self.images.len() as u32;
        let dimensions = (image.width(), image.height());
        self.images.push(image);
        Sprite::from_parts(index, dimensions)
    }

    /// Pads every registered image to the common cell size — the maximum
    /// width and maximum height over all of them — and hands the layers
    /// back in registration order. The builder is consumed.
    pub fn build_atlas(self) -> (r: Atlas)
        requires
            self.wf(),
            4 * max_width_of(self.images_spec()) * max_height_of(self.images_spec()) <= usize::MAX,
        ensures
            r.cell_width == max_width_of(self.images_spec()),
            r.cell_height == max_height_of(self.images_spec()),
            r.layers@.len() == self.images_spec().len(),
            forall|i: int|
                0 <= i < r.layers@.len() ==> is_padded_layer(
                    #[trigger] r.layers@[i],
                    self.images_spec()[i],
                    r.cell_width,
                    r.cell_height,
                ),
    {
        proof {
            lemma_max_dimension_bounds(self.images_spec());
        }
        let ghost all = self.images@;
        let n = self.images.len();
        let mut max_w: u32 = 0;
        let mut max_h: u32 = 0;
        let mut i: usize = 0;
        while i < n
            invariant
                n == all.len(),
                self.images@ == all,
                0 <= i <= n,
                max_w == max_width_of(all.take(i as int)),
                max_h == max_height_of(all.take(i as int)),
            decreases n - i,
        {
            proof {
                assert(all.take(i as int + 1).drop_last() =~= all.take(i as int));
                assert(all.take(i as int + 1).last() == all[i as int]);
            }
            let w = self.images[i].width();
            let h = self.images[i].height();
            if w > max_w {
                max_w = w;
            }
            if h > max_h {
                max_h = h;
            }
            i += 1;
        }
        proof {
            assert(all.take(n as int) =~= all);
        }

        let mut layers: Vec<Image> = Vec::new();
        let mut j: usize = 0;
        while j < n
            invariant
                n == all.len(),
                self.images@ == all,
                0 <= j <= n,
                max_w == max_width_of(all),
                max_h == max_height_of(all),
                4 * max_w * max_h <= usize::MAX,
                forall|k: int| 0 <= k < all.len() ==> (#[trigger] all[k]).wf(),
                forall|k: int|
                    0 <= k < all.len() ==> (#[trigger] all[k]).width_spec() <= max_w
                        && all[k].height_spec() <= max_h,
                layers@.len() == j,
                forall|k: int|
                    0 <= k < j ==> is_padded_layer(#[trigger] layers@[k], all[k], max_w, max_h),
            decreases n - j,
        {
            let layer = pad_image(&self.images[j], max_w, max_h);
            layers.push(layer);
            j += 1;
        }
        Atlas { cell_width: max_w, cell_height: max_h, layers }
    }
}

/// Copies `img` into the top-left corner of a fresh `cell_width ×
/// cell_height` image and fills everything outside it with fully
/// transparent black.
#[verifier::loop_isolation(false)]
fn pad_image(img: &Image, cell_width: u32, cell_height: u32) -> (r: Image)
    requires
        img.wf(),
        img.width_spec() <= cell_width,
        img.height_spec() <= cell_height,
        4 * cell_width * cell_height <= usize::MAX,
    ensures
        is_padded_layer(r, *img, cell_width, cell_height),
{
    let width = img.width();
    let height = img.height();
    // A `usize` holds the source buffer's length, so every pixel offset
    // into it fits `usize` as well.
    let _source_len = img.pixels.len();
    let mut out: Vec<u8> = Vec::new();
    let mut y: u32 = 0;
    while y < cell_height
        invariant
            0 <= y <= cell_height,
            out@.len() == 4 * ((y as int) * (cell_width as int)),
            forall|xx: int, yy: int|
                0 <= xx < cell_width && 0 <= yy < y ==> #[trigger] pixel_at(out@, cell_width, xx, yy)
                    == padded_pixel(*img, xx, yy),
        decreases cell_height - y,
    {
        let mut x: u32 = 0;
        while x < cell_width
            invariant
                0 <= y < cell_height,
                0 <= x <= cell_width,
                out@.len() == 4 * ((y as int) * (cell_width as int) + x),
                forall|xx: int, yy: int|
                    0 <= xx < cell_width && 0 <= yy < y ==> #[trigger] pixel_at(
                        out@,
                        cell_width,
                        xx,
                        yy,
                    ) == padded_pixel(*img, xx, yy),
                forall|xx: int|
                    0 <= xx < x ==> #[trigger] pixel_at(out@, cell_width, xx, y as int)
                        == padded_pixel(*img, xx, y as int),
            decreases cell_width - x,
        {
            let ghost out0 = out@;
            if x < width && y < height {
                proof {
                    assert((y as int) * (width as int) + (x as int) < (width as int) * (height
                        as int)) by (nonlinear_arith)
                        requires
                            0 <= x < width,
                            0 <= y < height,
                    ;
                    assert((y as int) * cell_width + (x as int) < (cell_width as int) * (cell_height
                        as int)) by (nonlinear_arith)
                        requires
                            0 <= x < cell_width,
                            0 <= y < cell_height,
                    ;
                    assert(4 * ((width as int) * (height as int)) == 4 * (width as int) * (height
                        as int)) by (nonlinear_arith);
                }
                let base: usize = 4 * ((y as usize) * (width as usize) + (x as usize));
                let b0 = img.pixels[base];
                let b1 = img.pixels[base + 1];
                let b2 = img.pixels[base + 2];
                let b3 = img.pixels[base + 3];
                out.push(b0);
                out.push(b1);
                out.push(b2);
                out.push(b3);
                proof {
                    assert(img.pixel(x as int, y as int) =~= seq![b0, b1, b2, b3]);
                    assert(pixel_at(out@, cell_width, x as int, y as int) =~= seq![b0, b1, b2, b3]);
                }
            } else {
                proof {
                    assert((y as int) * cell_width + (x as int) < (cell_width as int) * (cell_height
                        as int)) by (nonlinear_arith)
                        requires
                            0 <= x < cell_width,
                            0 <= y < cell_height,
                    ;
                }
                out.push(0);
                out.push(0);
                out.push(0);
                out.push(0);
                proof {
                    assert(pixel_at(out@, cell_width, x as int, y as int) =~= seq![
                        0u8,
                        0u8,
                        0u8,
                        0u8,
                    ]);
                }
            }
            proof {
                assert forall|xx: int, yy: int|
                    0 <= xx < cell_width && 0 <= yy < y implies (#[trigger] pixel_at(
                    out@,
                    cell_width,
                    xx,
                    yy,
                )) == padded_pixel(*img, xx, yy) by {
                    assert(0 <= yy * cell_width + xx && yy * cell_width + xx < y * cell_width
                        + x) by (nonlinear_arith)
                        requires
                            0 <= xx < cell_width,
                            0 <= yy < y,
                            0 <= x,
                    ;
                    assert(pixel_at(out@, cell_width, xx, yy) =~= pixel_at(
                        out0,
                        cell_width,
                        xx,
                        yy,
                    ));
                }
                assert forall|xx: int|
                    0 <= xx < x implies (#[trigger] pixel_at(out@, cell_width, xx, y as int))
                    == padded_pixel(*img, xx, y as int) by {
                    assert(pixel_at(out@, cell_width, xx, y as int) =~= pixel_at(
                        out0,
                        cell_width,
                        xx,
                        y as int,
                    ));
                }
            }
            x += 1;
        }
        proof {
            assert((y as int + 1) * (cell_width as int) == (y as int) * (cell_width as int)
                + cell_width) by (nonlinear_arith);
        }
        y += 1;
    }
    proof {
        assert(4 * ((cell_height as int) * (cell_width as int)) == 4 * cell_width
            * cell_height) by (nonlinear_arith);
    }
    Image { width: cell_width, height: cell_height, pixels: out }
}

} // verus!
