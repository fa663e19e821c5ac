//! Pixels of the overlay's frame: premultiplied colours in memory order blue, green, red, alpha.
use vstd::prelude::*;

verus! {

/// A colour: red, green, blue.
#[derive(Debug, Clone, Copy, PartialEq, Eq, Structural)]
pub struct Rgb {
    pub r: u8,
    pub g: u8,
    pub b: u8,
}

/// A premultiplied pixel in memory order.
#[derive(Debug, Clone, Copy, PartialEq, Eq, Structural)]
pub struct Pixel {
    pub b: u8,
    pub g: u8,
    pub r: u8,
    pub a: u8,
}

/// A channel scaled by an eighth-bit factor, rounded down.
pub open spec fn scaled(channel: u8, factor: u8) -> u8 {
    (channel as int * factor as int / 255) as u8
}

/// The premultiplied pixel of a colour at an opacity.
pub open spec fn premultiplied(rgb: Rgb, a: u8) -> Pixel {
    Pixel { b: scaled(rgb.b, a), g: scaled(rgb.g, a), r: scaled(rgb.r, a), a }
}

/// A pixel under partial coverage.
pub open spec fn covered(p: Pixel, coverage: u8) -> Pixel {
    Pixel {
        b: scaled(p.b, coverage),
        g: scaled(p.g, coverage),
        r: scaled(p.r, coverage),
        a: scaled(p.a, coverage),
    }
}

/// Whether no channel is above the opacity.
pub open spec fn is_premultiplied(p: Pixel) -> bool {
    p.b <= p.a && p.g <= p.a && p.r <= p.a
}

/// A channel of a pixel laid over another of the frame.
pub open spec fn over(src: u8, dst: u8, src_alpha: u8) -> u8 {
    ((src as int + dst as int * (255 - src_alpha) / 255) % 256) as u8
}

/// A pixel laid over another. One without opacity changes nothing.
pub open spec fn laid_over(src: Pixel, dst: Pixel) -> Pixel {
    if src.a == 0 {
        dst
    } else {
        Pixel {
            b: over(src.b, dst.b, src.a),
            g: over(src.g, dst.g, src.a),
            r: over(src.r, dst.r, src.a),
            a: over(src.a, dst.a, src.a),
        }
    }
}

proof fn lemma_scaled(channel: u8, factor: u8)
    ensures
        0 <= channel as int * factor as int / 255 <= channel,
        channel as int * factor as int / 255 <= factor,
{
    let x = channel as int;
    let y = factor as int;
    assert(0 <= x * y && x * y <= x * 255 && x * y <= 255 * y) by (nonlinear_arith)
        requires
            0 <= x <= 255,
            0 <= y <= 255,
    ;
}

/// A channel scaled by a factor.
pub fn scale_channel(channel: u8, factor: u8) -> (r: u8)
    ensures
        r == scaled(channel, factor),
        r <= channel,
        r <= factor,
{
    proof {
        lemma_scaled(channel, factor);
        assert(channel as int * factor as int <= 255 * 255) by (nonlinear_arith)
            requires
                channel <= 255,
                factor <= 255,
        ;
    }
    ((channel as u16 * factor as u16) / 255) as u8
}

/// The premultiplied pixel of a colour (red, green, blue) at an opacity, in memory order.
pub fn argb_pixel_premul(rgb: [u8; 3], a: u8) -> (r: [u8; 4])
    ensures
        r@ == seq![scaled(rgb@[2], a), scaled(rgb@[1], a), scaled(rgb@[0], a), a],
{
    let p = premultiply(Rgb { r: rgb[0], g: rgb[1], b: rgb[2] }, a);
    let r: [u8; 4] = [p.b, p.g, p.r, p.a];
    assert(r@ =~= seq![scaled(rgb@[2], a), scaled(rgb@[1], a), scaled(rgb@[0], a), a]);
    r
}

/// The premultiplied pixel of a colour at an opacity.
pub fn premultiply(rgb: Rgb, a: u8) -> (r: Pixel)
    ensures
        r == premultiplied(rgb, a),
        is_premultiplied(r),
{
    Pixel {
        b: scale_channel(rgb.b, a),
        g: scale_channel(rgb.g, a),
        r: scale_channel(rgb.r, a),
        a,
    }
}

fn over_channel(src: u8, dst: u8, src_alpha: u8) -> (r: u8)
    ensures
        r == over(src, dst, src_alpha),
{
    let inv: u16 = 255 - src_alpha as u16;
    proof {
        lemma_scaled(dst, (255 - src_alpha) as u8);
        assert(dst as int * inv as int <= 255 * 255) by (nonlinear_arith)
            requires
                dst <= 255,
                inv <= 255,
        ;
    }
    let sum: u16 = src as u16 + (dst as u16 * inv) / 255;
    (sum % 256) as u8
}

/// Laying a premultiplied pixel over a premultiplied pixel gives a premultiplied pixel, and no
/// channel runs over.
pub proof fn law_blending_keeps_premultiplied(src: Pixel, dst: Pixel)
    requires
        is_premultiplied(src),
        is_premultiplied(dst),
    ensures
        is_premultiplied(laid_over(src, dst)),
        src.a != 0 ==> laid_over(src, dst).a == src.a + dst.a as int * (255 - src.a) / 255,
{
    let inv = 255 - src.a;
    let (b, g, r, a) = (dst.b as int, dst.g as int, dst.r as int, dst.a as int);
    assert(b * inv <= a * inv && g * inv <= a * inv && r * inv <= a * inv && a * inv <= 255 * inv
        && 0 <= b * inv && 0 <= g * inv && 0 <= r * inv) by (nonlinear_arith)
        requires
            0 <= b <= a <= 255,
            0 <= g <= a,
            0 <= r <= a,
            0 <= inv <= 255,
    ;
}

/// Laying an opaque pixel over another gives that pixel.
pub proof fn law_opaque_pixel_hides_what_is_below(src: Pixel, dst: Pixel)
    requires
        src.a == 255,
    ensures
        laid_over(src, dst) == src,
{
    assert(dst.b as int * 0 == 0 && dst.g as int * 0 == 0 && dst.r as int * 0 == 0 && dst.a as int
        * 0 == 0);
}

// ---- the frame

/// A frame of pixels, row by row from the top.
#[derive(Debug)]
pub struct Frame {
    pub bytes: Vec<u8>,
    pub width: u32,
    pub height: u32,
}

/// Where a pixel's bytes begin.
pub open spec fn place(width: u32, x: int, y: int) -> int {
    (y * width + x) * 4
}

/// Four bytes as a pixel.
pub open spec fn pixel_at(bytes: Seq<u8>, at: int) -> Pixel {
    Pixel { b: bytes[at], g: bytes[at + 1], r: bytes[at + 2], a: bytes[at + 3] }
}

/// The bytes with another pixel at a place.
pub open spec fn with_pixel(bytes: Seq<u8>, at: int, p: Pixel) -> Seq<u8> {
    bytes.update(at, p.b).update(at + 1, p.g).update(at + 2, p.r).update(at + 3, p.a)
}

/// A byte of a frame at an opacity of so many parts in 255, rounded.
pub open spec fn dimmed(byte: u8, factor: u32) -> u8 {
    ((byte as int * factor + 127) / 255) as u8
}

proof fn lemma_place(width: u32, x: int, y: int)
    requires
        0 <= x < width,
        0 <= y,
    ensures
        0 <= y * width,
        0 <= place(width, x, y),
{
    assert(0 <= y * width) by (nonlinear_arith)
        requires
            0 <= y,
    ;
}

proof fn lemma_places_differ(width: u32, x: int, y: int, x2: int, y2: int)
    requires
        0 <= x < width,
        0 <= x2 < width,
        x != x2 || y != y2,
    ensures
        place(width, x, y) + 4 <= place(width, x2, y2) || place(width, x2, y2) + 4 <= place(
            width,
            x,
            y,
        ),
{
    let w = width as int;
    if y < y2 {
        assert(y * w + w <= y2 * w) by (nonlinear_arith)
            requires
                y < y2,
                w >= 0,
        ;
    } else if y2 < y {
        assert(y2 * w + w <= y * w) by (nonlinear_arith)
            requires
                y2 < y,
                w >= 0,
        ;
    }
}

impl Frame {
    /// Whether the bytes are those of all pixels, and few enough to count.
    pub open spec fn wf(self) -> bool {
        &&& self.bytes@.len() == self.width * self.height * 4
        &&& self.width <= i32::MAX
        &&& self.height <= i32::MAX
        &&& self.width * self.height * 4 <= i32::MAX
    }

    /// The pixel at a place.
    pub open spec fn pixel(self, x: int, y: int) -> Pixel {
        pixel_at(self.bytes@, place(self.width, x, y))
    }

    /// Whether there is a pixel at a place: the place is inside the frame, a frame that is not
    /// too large for signed coordinates, and the bytes go that far.
    pub open spec fn holds(self, x: int, y: int) -> bool {
        &&& 0 <= x < self.width
        &&& 0 <= y < self.height
        &&& self.width <= i32::MAX
        &&& self.height <= i32::MAX
        &&& place(self.width, x, y) + 4 <= self.bytes@.len()
    }

    /// Whether a byte belongs to a pixel.
    pub open spec fn in_a_pixel(self, at: int) -> bool {
        exists|x: int, y: int| #[trigger]
            self.holds(x, y) && place(self.width, x, y) <= at < place(self.width, x, y) + 4
    }

    /// A clear frame, unless it has too many pixels.
    pub fn new(width: u32, height: u32) -> (r: Option<Frame>)
        ensures
            match r {
                Some(f) => f.wf() && f.width == width && f.height == height && forall|i: int|
                    0 <= i < f.bytes@.len() ==> f.bytes@[i] == 0,
                None => width > i32::MAX || height > i32::MAX || width * height * 4 > i32::MAX,
            },
    {
        if width > 0x7fff_ffff || height > 0x7fff_ffff {
            return None;
        }
        proof {
            assert(width as int * height as int <= 0x7fff_ffff * 0x7fff_ffff) by (nonlinear_arith)
                requires
                    width <= 0x7fff_ffff,
                    height <= 0x7fff_ffff,
            ;
        }
        let pixels: u64 = width as u64 * height as u64;
        if pixels > 0x1fff_ffff {
            return None;
        }
        let total: usize = (pixels * 4) as usize;
        let mut bytes: Vec<u8> = Vec::new();
        while bytes.len() < total
            invariant
                bytes@.len() <= total,
                forall|i: int| 0 <= i < bytes@.len() ==> bytes@[i] == 0,
            decreases total - bytes@.len(),
        {
            bytes.push(0);
        }
        Some(Frame { bytes, width, height })
    }

    /// Clears the frame.
    pub fn clear(&mut self)
        ensures
            final(self).width == old(self).width,
            final(self).height == old(self).height,
            final(self).bytes@.len() == old(self).bytes@.len(),
            forall|i: int| 0 <= i < final(self).bytes@.len() ==> final(self).bytes@[i] == 0,
    {
        let mut i: usize = 0;
        while i < self.bytes.len()
            invariant
                i <= self.bytes@.len(),
                self.bytes@.len() == old(self).bytes@.len(),
                self.width == old(self).width,
                self.height == old(self).height,
                forall|j: int| 0 <= j < i ==> self.bytes@[j] == 0,
            decreases self.bytes@.len() - i,
        {
            self.bytes.set(i, 0);
            i = i + 1;
        }
    }

    /// Scales every channel to so many parts in 255; 255 and more leave the frame as it is.
    pub fn scale_alpha(&mut self, factor: u32)
        ensures
            final(self).width == old(self).width,
            final(self).height == old(self).height,
            final(self).bytes@.len() == old(self).bytes@.len(),
            forall|i: int|
                0 <= i < old(self).bytes@.len() ==> #[trigger] final(self).bytes@[i] == if factor
                    >= 255 {
                    old(self).bytes@[i]
                } else {
                    dimmed(old(self).bytes@[i], factor)
                },
    {
        if factor >= 255 {
            return;
        }
        let mut i: usize = 0;
        while i < self.bytes.len()
            invariant
                factor < 255,
                i <= self.bytes@.len(),
                self.bytes@.len() == old(self).bytes@.len(),
                self.width == old(self).width,
                self.height == old(self).height,
                forall|j: int|
                    0 <= j < i ==> #[trigger] self.bytes@[j] == dimmed(old(self).bytes@[j], factor),
                forall|j: int|
                    i <= j < self.bytes@.len() ==> #[trigger] self.bytes@[j] == old(self).bytes@[j],
            decreases self.bytes@.len() - i,
        {
            let byte: u8 = self.bytes[i];
            proof {
                assert(byte as int * factor as int <= 255 * 254) by (nonlinear_arith)
                    requires
                        byte <= 255,
                        factor <= 254,
                ;
            }
            self.bytes.set(i, ((byte as u32 * factor + 127) / 255) as u8);
            i = i + 1;
        }
    }

    /// Lays a pixel over the one at a place, if there is one.
    pub fn blend_premul(&mut self, x: i64, y: i64, color: Pixel)
        ensures
            final(self).width == old(self).width,
            final(self).height == old(self).height,
            final(self).bytes@ == if old(self).holds(x as int, y as int) {
                with_pixel(
                    old(self).bytes@,
                    place(old(self).width, x as int, y as int),
                    laid_over(color, old(self).pixel(x as int, y as int)),
                )
            } else {
                old(self).bytes@
            },
    {
        if x < 0 || y < 0 || x >= self.width as i64 || y >= self.height as i64 {
            return;
        }
        if self.width > 0x7fff_ffff || self.height > 0x7fff_ffff {
            return;
        }
        proof {
            lemma_place(self.width, x as int, y as int);
            assert(y as int * self.width as int <= 0x7fff_ffff * 0x7fff_ffff) by (nonlinear_arith)
                requires
                    0 <= y <= 0x7fff_ffff,
                    self.width <= 0x7fff_ffff,
            ;
        }
        let before: u64 = y as u64 * self.width as u64 + x as u64;
        if before >= (self.bytes.len() / 4) as u64 {
            return;
        }
        let ghost at = place(self.width, x as int, y as int);
        if color.a == 0 {
            assert(with_pixel(self.bytes@, at, pixel_at(self.bytes@, at)) =~= self.bytes@);
            return;
        }
        let idx: usize = before as usize * 4;
        let b: u8 = over_channel(color.b, self.bytes[idx], color.a);
        let g: u8 = over_channel(color.g, self.bytes[idx + 1], color.a);
        let r: u8 = over_channel(color.r, self.bytes[idx + 2], color.a);
        let a: u8 = over_channel(color.a, self.bytes[idx + 3], color.a);
        self.bytes.set(idx, b);
        self.bytes.set(idx + 1, g);
        self.bytes.set(idx + 2, r);
        self.bytes.set(idx + 3, a);
    }

    /// Lays a colour at an opacity over the frame, as far as each byte of a bitmap covers its
    /// pixel. The bitmap's first byte lies at the given place; what is outside is left out.
    pub fn blend_bitmap(
        &mut self,
        origin: (i32, i32),
        size: (usize, usize),
        coverage: &Vec<u8>,
        rgb: Rgb,
        a: u8,
    )
        requires
            size.0 * size.1 <= coverage@.len(),
        ensures
            final(self).width == old(self).width,
            final(self).height == old(self).height,
            final(self).bytes@.len() == old(self).bytes@.len(),
            forall|i: int|
                0 <= i < old(self).bytes@.len() && !old(self).in_a_pixel(i)
                    ==> #[trigger] final(self).bytes@[i] == old(self).bytes@[i],
            forall|x: int, y: int| #[trigger]
                final(self).holds(x, y) ==> final(self).pixel(x, y) == stamped(
                    *old(self),
                    origin,
                    size,
                    coverage@,
                    premultiplied(rgb, a),
                    x,
                    y,
                    size.1 as int,
                    0,
                ),
    {
        let color = premultiply(rgb, a);
        let width: usize = size.0;
        let height: usize = size.1;
        let ghost start = *self;
        let mut row: usize = 0;
        while row < height
            invariant
                row <= height,
                width == size.0,
                height == size.1,
                width * height <= coverage@.len(),
                color == premultiplied(rgb, a),
                start == *old(self),
                self.width == start.width,
                self.height == start.height,
                self.bytes@.len() == start.bytes@.len(),
                forall|i: int|
                    0 <= i < start.bytes@.len() && !start.in_a_pixel(i)
                        ==> #[trigger] self.bytes@[i] == start.bytes@[i],
                forall|x: int, y: int| #[trigger]
                    self.holds(x, y) ==> self.pixel(x, y) == stamped(
                        start,
                        origin,
                        size,
                        coverage@,
                        color,
                        x,
                        y,
                        row as int,
                        0,
                    ),
            decreases height - row,
        {
            let mut col: usize = 0;
            while col < width
                invariant
                    row < height,
                    col <= width,
                    width == size.0,
                    height == size.1,
                    width * height <= coverage@.len(),
                    color == premultiplied(rgb, a),
                    start == *old(self),
                    self.width == start.width,
                    self.height == start.height,
                    self.bytes@.len() == start.bytes@.len(),
                    forall|i: int|
                        0 <= i < start.bytes@.len() && !start.in_a_pixel(i)
                            ==> #[trigger] self.bytes@[i] == start.bytes@[i],
                    forall|x: int, y: int| #[trigger]
                        self.holds(x, y) ==> self.pixel(x, y) == stamped(
                            start,
                            origin,
                            size,
                            coverage@,
                            color,
                            x,
                            y,
                            row as int,
                            col as int,
                        ),
                decreases width - col,
            {
                let ghost before = *self;
                self.stamp(origin, row, col, width, height, coverage, color);
                proof {
                    assert forall|i: int|
                        0 <= i < start.bytes@.len()
                            && !start.in_a_pixel(i) implies #[trigger] self.bytes@[i]
                        == start.bytes@[i] by {
                        if before.in_a_pixel(i) {
                            let (x, y) = choose|x: int, y: int| #[trigger]
                                before.holds(x, y) && place(before.width, x, y) <= i < place(
                                    before.width,
                                    x,
                                    y,
                                ) + 4;
                            assert(start.holds(x, y));
                        }
                    }
                    assert forall|x: int, y: int| #[trigger]
                        self.holds(x, y) implies self.pixel(x, y) == stamped(
                        start,
                        origin,
                        size,
                        coverage@,
                        color,
                        x,
                        y,
                        row as int,
                        col + 1,
                    ) by {
                        assert(before.holds(x, y));
                        assert(before.pixel(x, y) == stamped(
                            start,
                            origin,
                            size,
                            coverage@,
                            color,
                            x,
                            y,
                            row as int,
                            col as int,
                        ));
                    }
                }
                col = col + 1;
            }
            proof {
                assert forall|x: int, y: int| #[trigger]
                    self.holds(x, y) implies self.pixel(x, y) == stamped(
                    start,
                    origin,
                    size,
                    coverage@,
                    color,
                    x,
                    y,
                    row + 1,
                    0,
                ) by {
                    assert(self.pixel(x, y) == stamped(
                        start,
                        origin,
                        size,
                        coverage@,
                        color,
                        x,
                        y,
                        row as int,
                        col as int,
                    ));
                }
            }
            row = row + 1;
        }
    }

    /// Lays one byte of a bitmap over its pixel.
    fn stamp(
        &mut self,
        origin: (i32, i32),
        row: usize,
        col: usize,
        width: usize,
        height: usize,
        coverage: &Vec<u8>,
        color: Pixel,
    )
        requires
            row < height,
            col < width,
            width * height <= coverage@.len(),
        ensures
            final(self).width == old(self).width,
            final(self).height == old(self).height,
            final(self).bytes@.len() == old(self).bytes@.len(),
            forall|i: int|
                0 <= i < old(self).bytes@.len() && !old(self).in_a_pixel(i)
                    ==> #[trigger] final(self).bytes@[i] == old(self).bytes@[i],
            forall|x: int, y: int| #[trigger]
                old(self).holds(x, y) ==> final(self).pixel(x, y) == if x == origin.0 + col && y
                    == origin.1 + row {
                    laid_over(
                        covered(color, coverage@[row * width + col]),
                        old(self).pixel(x, y),
                    )
                } else {
                    old(self).pixel(x, y)
                },
    {
        let total: usize = coverage.len();
        proof {
            let (r, c, w, h) = (row as int, col as int, width as int, height as int);
            assert(r * w + c < w * h && r * w >= 0) by (nonlinear_arith)
                requires
                    0 <= r < h,
                    0 <= c < w,
            ;
        }
        assert(row * width + col < total);
        let cov: u8 = coverage[row * width + col];
        let pixel = Pixel {
            b: scale_channel(color.b, cov),
            g: scale_channel(color.g, cov),
            r: scale_channel(color.r, cov),
            a: scale_channel(color.a, cov),
        };
        let ghost before = *self;
        let far = row > 0xffff_ffff || col > 0xffff_ffff;
        if far {
            assert forall|x: int, y: int| #[trigger] before.holds(x, y) implies !(x == origin.0
                + col && y == origin.1 + row) by {};
            return;
        }
        let x: i64 = origin.0 as i64 + col as i64;
        let y: i64 = origin.1 as i64 + row as i64;
        self.blend_premul(x, y, pixel);
        proof {
            assert forall|px: int, py: int| #[trigger] before.holds(px, py) implies self.pixel(
                px,
                py,
            ) == if px == x && py == y {
                laid_over(pixel, before.pixel(px, py))
            } else {
                before.pixel(px, py)
            } by {
                lemma_place(before.width, px, py);
                if before.holds(x as int, y as int) {
                    lemma_place(before.width, x as int, y as int);
                    if px != x || py != y {
                        lemma_places_differ(before.width, px, py, x as int, y as int);
                    }
                }
            }
        }
    }
}

/// The pixel at a place once a bitmap was laid over it down to a row and, there, to a column.
pub open spec fn stamped(
    start: Frame,
    origin: (i32, i32),
    size: (usize, usize),
    coverage: Seq<u8>,
    color: Pixel,
    x: int,
    y: int,
    rows: int,
    cols: int,
) -> Pixel {
    let col = x - origin.0;
    let row = y - origin.1;
    if 0 <= col < size.0 && (0 <= row < rows || row == rows && col < cols) {
        laid_over(covered(color, coverage[row * size.0 + col]), start.pixel(x, y))
    } else {
        start.pixel(x, y)
    }
}

/// A colour at full opacity is itself, at none it is clear, and in between no channel is brighter
/// than the colour or the opacity; its channels stay what they are.
pub proof fn law_premultiplied_colours(rgb: Rgb, a: u8)
    ensures
        premultiplied(rgb, 255) == (Pixel { b: rgb.b, g: rgb.g, r: rgb.r, a: 255 }),
        premultiplied(rgb, 0) == (Pixel { b: 0, g: 0, r: 0, a: 0 }),
        premultiplied(rgb, a).a == a,
        premultiplied(rgb, a).r <= rgb.r && premultiplied(rgb, a).g <= rgb.g && premultiplied(
            rgb,
            a,
        ).b <= rgb.b,
        255 * premultiplied(rgb, a).r <= rgb.r * a < 255 * premultiplied(rgb, a).r + 255,
        255 * premultiplied(rgb, a).g <= rgb.g * a < 255 * premultiplied(rgb, a).g + 255,
        255 * premultiplied(rgb, a).b <= rgb.b * a < 255 * premultiplied(rgb, a).b + 255,
{
    lemma_scaled(rgb.r, a);
    lemma_scaled(rgb.g, a);
    lemma_scaled(rgb.b, a);
    lemma_scaled_ends(rgb.r);
    lemma_scaled_ends(rgb.g);
    lemma_scaled_ends(rgb.b);
}

proof fn lemma_scaled_ends(channel: u8)
    ensures
        scaled(channel, 255) == channel,
        scaled(channel, 0) == 0,
{
    assert(channel as int * 255 / 255 == channel);
    assert(channel as int * 0 == 0) by (nonlinear_arith);
}

/// Full coverage keeps a pixel, none clears it.
pub proof fn law_coverage_dims(p: Pixel)
    ensures
        covered(p, 255) == p,
        covered(p, 0) == (Pixel { b: 0, g: 0, r: 0, a: 0 }),
{
    lemma_scaled_ends(p.b);
    lemma_scaled_ends(p.g);
    lemma_scaled_ends(p.r);
    lemma_scaled_ends(p.a);
}

/// What has no opacity changes nothing, and over a clear pixel lies just what was laid there.
pub proof fn law_laying_over(src: Pixel, dst: Pixel)
    ensures
        src.a == 0 ==> laid_over(src, dst) == dst,
        src.a > 0 ==> laid_over(src, Pixel { b: 0, g: 0, r: 0, a: 0 }) == src,
{
    assert(0int * (255 - src.a) == 0) by (nonlinear_arith);
}

/// Pixels lie row by row, four bytes each, with no gap; laying one changes no other.
pub proof fn law_pixels_lie_in_rows(width: u32, x: int, y: int, bytes: Seq<u8>, at: int, p: Pixel)
    requires
        0 <= at,
        at + 4 <= bytes.len(),
    ensures
        place(width, 0, 0) == 0,
        place(width, x + 1, y) == place(width, x, y) + 4,
        place(width, x, y + 1) == place(width, x, y) + 4 * width,
        pixel_at(with_pixel(bytes, at, p), at) == p,
        with_pixel(bytes, at, p).len() == bytes.len(),
        forall|i: int|
            0 <= i < bytes.len() && !(at <= i < at + 4) ==> #[trigger] with_pixel(bytes, at, p)[i]
                == bytes[i],
{
    assert((y + 1) * width == y * width + width) by (nonlinear_arith);
    assert(0 * width == 0) by (nonlinear_arith);
}

/// A byte at full opacity is itself, at none it is gone, and in between it is rounded to the
/// nearest.
pub proof fn law_dimming_rounds(byte: u8, factor: u32)
    requires
        factor <= 255,
    ensures
        dimmed(byte, 255) == byte,
        dimmed(byte, 0) == 0,
        2 * (byte * factor) - 255 <= 510 * dimmed(byte, factor) <= 2 * (byte * factor) + 255,
{
    assert(0 <= byte as int * factor as int <= 255 * 255) by (nonlinear_arith)
        requires
            byte <= 255,
            factor <= 255,
    ;
    assert(byte as int * 0 == 0) by (nonlinear_arith);
}

/// A bitmap is laid where it falls: each of its bytes over the pixel at its column and row from
/// the origin, and pixels outside it stay.
pub proof fn law_bitmap_lies_at_its_origin(
    start: Frame,
    origin: (i32, i32),
    size: (usize, usize),
    coverage: Seq<u8>,
    color: Pixel,
    col: int,
    row: int,
)
    ensures
        0 <= col < size.0 && 0 <= row < size.1 ==> stamped(
            start,
            origin,
            size,
            coverage,
            color,
            origin.0 + col,
            origin.1 + row,
            size.1 as int,
            0,
        ) == laid_over(
            covered(color, coverage[row * size.0 + col]),
            start.pixel(origin.0 + col, origin.1 + row),
        ),
        !(0 <= col < size.0 && 0 <= row < size.1) ==> stamped(
            start,
            origin,
            size,
            coverage,
            color,
            origin.0 + col,
            origin.1 + row,
            size.1 as int,
            0,
        ) == start.pixel(origin.0 + col, origin.1 + row),
{
}

} // verus!
