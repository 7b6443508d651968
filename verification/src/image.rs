//! The raster: how large it is, in what order its pixels are produced, and
//! how the finished picture reads as a plain-text PPM file.

use vstd::prelude::*;
use crate::colour::Pixel;
use crate::text::{count, count_in_decimal, count_of_concat, count_of_push, decimal, push_decimal};

verus! {

/// Rows of a 16:9 picture that is `image_width` pixels wide: nine sixteenths
/// of the width, rounded down.
pub open spec fn spec_image_height(image_width: nat) -> nat {
    image_width * 9 / 16
}

pub fn image_height(image_width: u32) -> (h: u32)
    ensures
        h == spec_image_height(image_width as nat),
{
    let wide: u64 = image_width as u64;
    (wide * 9 / 16) as u32
}

/// The three header lines: the magic number, the size, the largest channel
/// value.
pub open spec fn header(width: nat, height: nat) -> Seq<char> {
    seq!['P', '3', '\n'] + decimal(width) + seq![' '] + decimal(height) + seq![
        '\n',
        '2',
        '5',
        '5',
        '\n',
    ]
}

/// One line for each pixel, in the order given.
pub open spec fn body(pixels: Seq<Pixel>) -> Seq<char>
    decreases pixels.len(),
{
    if pixels.len() == 0 {
        Seq::empty()
    } else {
        body(pixels.drop_last()) + pixels.last().text() + seq!['\n']
    }
}

/// Where in the order of production the pixel of a column and a scanline
/// stands: scanlines are produced from `height - 1` down to 0, and each from
/// column 0 up.
pub open spec fn raster_index(width: nat, height: nat, column: nat, scanline: nat) -> nat {
    ((height - 1 - scanline) * width + column) as nat
}

/// The column of the `k`-th pixel produced.
pub open spec fn raster_column(width: nat, k: nat) -> nat {
    k % width
}

/// The scanline of the `k`-th pixel produced.
pub open spec fn raster_scanline(width: nat, height: nat, k: nat) -> nat {
    (height - 1 - k / width) as nat
}

/// Raster order is a one-to-one correspondence between the places
/// `0..width * height` in the order of production and the pixels of the
/// picture: each place names a pixel inside the picture, and that pixel's
/// index is the place.
pub proof fn raster_order_visits_each_pixel_once(width: nat, height: nat, k: nat)
    requires
        k < width * height,
    ensures
        raster_column(width, k) < width,
        raster_scanline(width, height, k) < height,
        raster_index(width, height, raster_column(width, k), raster_scanline(width, height, k))
            == k,
{
    assert(width > 0 && k / width < height && k == (k / width) * width + k % width && 0 <= k
        % width < width) by (nonlinear_arith)
        requires
            k < width * height,
    ;
}

/// Conversely, each pixel inside the picture has a place in the order of
/// production, and that place leads back to it.
pub proof fn each_pixel_has_its_place(width: nat, height: nat, column: nat, scanline: nat)
    requires
        column < width,
        scanline < height,
    ensures
        raster_index(width, height, column, scanline) < width * height,
        raster_column(width, raster_index(width, height, column, scanline)) == column,
        raster_scanline(width, height, raster_index(width, height, column, scanline))
            == scanline,
{
    let r = (height - 1 - scanline) as nat;
    let k = r * width + column;
    assert(k < width * height && k / width == r && k % width == column) by (nonlinear_arith)
        requires
            k == r * width + column,
            column < width,
            r < height,
    ;
}

/// The text of a pixel holds no line end.
pub proof fn pixel_text_is_one_line(p: Pixel)
    ensures
        count(p.text(), '\n') == 0,
{
    let r = decimal(p.r as nat);
    let g = decimal(p.g as nat);
    let b = decimal(p.b as nat);
    let sp = seq![' '];
    count_in_decimal(p.r as nat, '\n');
    count_in_decimal(p.g as nat, '\n');
    count_in_decimal(p.b as nat, '\n');
    assert(sp =~= Seq::<char>::empty().push(' '));
    count_of_push(Seq::<char>::empty(), ' ', '\n');
    count_of_concat(r, sp, '\n');
    count_of_concat(r + sp, g, '\n');
    count_of_concat(r + sp + g, sp, '\n');
    count_of_concat(r + sp + g + sp, b, '\n');
}

/// The text of a picture has three header lines and one line for each pixel.
pub proof fn text_has_a_line_for_each_pixel(width: nat, height: nat, pixels: Seq<Pixel>)
    ensures
        count(header(width, height) + body(pixels), '\n') == 3 + pixels.len(),
    decreases pixels.len(),
{
    let nl = '\n';
    if pixels.len() == 0 {
        let e = Seq::<char>::empty();
        let magic = seq!['P', '3', '\n'];
        let sp = seq![' '];
        let tail = seq!['\n', '2', '5', '5', '\n'];
        assert(magic =~= e.push('P').push('3').push('\n'));
        count_of_push(e, 'P', nl);
        count_of_push(e.push('P'), '3', nl);
        count_of_push(e.push('P').push('3'), '\n', nl);
        assert(sp =~= e.push(' '));
        count_of_push(e, ' ', nl);
        assert(tail =~= e.push('\n').push('2').push('5').push('5').push('\n'));
        count_of_push(e, '\n', nl);
        count_of_push(e.push('\n'), '2', nl);
        count_of_push(e.push('\n').push('2'), '5', nl);
        count_of_push(e.push('\n').push('2').push('5'), '5', nl);
        count_of_push(e.push('\n').push('2').push('5').push('5'), '\n', nl);
        count_in_decimal(width, nl);
        count_in_decimal(height, nl);
        count_of_concat(magic, decimal(width), nl);
        count_of_concat(magic + decimal(width), sp, nl);
        count_of_concat(magic + decimal(width) + sp, decimal(height), nl);
        count_of_concat(magic + decimal(width) + sp + decimal(height), tail, nl);
        assert(header(width, height) + body(pixels) =~= header(width, height));
    } else {
        let front = header(width, height) + body(pixels.drop_last());
        let line = pixels.last().text();
        text_has_a_line_for_each_pixel(width, height, pixels.drop_last());
        pixel_text_is_one_line(pixels.last());
        count_of_concat(front, line, nl);
        count_of_push(front + line, nl, nl);
        assert(header(width, height) + body(pixels) =~= (front + line).push(nl));
    }
}

/// A picture in the making. Pixels arrive one by one in raster order: the top
/// scanline first, each scanline from left to right. Scanlines are numbered
/// from the bottom, so the top one is `height - 1`. [`Image::cursor`] tells
/// which pixel is due, [`Image::push`] takes it, and [`Image::ppm`] is the
/// file.
pub struct Image {
    width: u32,
    height: u32,
    pixels: Vec<Pixel>,
}

impl Image {
    #[verifier::type_invariant]
    spec fn inv(self) -> bool {
        self.pixels@.len() <= self.width * self.height
    }

    pub closed spec fn spec_width(self) -> nat {
        self.width as nat
    }

    pub closed spec fn spec_height(self) -> nat {
        self.height as nat
    }

    /// The pixels received so far, first received first.
    pub closed spec fn pixels(self) -> Seq<Pixel> {
        self.pixels@
    }

    /// Every pixel has arrived.
    pub open spec fn complete(self) -> bool {
        self.pixels().len() == self.spec_width() * self.spec_height()
    }

    /// The picture as PPM text: the header, then the pixels received so far.
    pub open spec fn text(self) -> Seq<char> {
        header(self.spec_width(), self.spec_height()) + body(self.pixels())
    }

    /// An empty 16:9 picture of the given width.
    pub fn new(image_width: u32) -> (image: Image)
        ensures
            image.spec_width() == image_width,
            image.spec_height() == spec_image_height(image_width as nat),
            image.pixels() == Seq::<Pixel>::empty(),
    {
        Image { width: image_width, height: image_height(image_width), pixels: Vec::new() }
    }

    pub fn width(&self) -> (w: u32)
        ensures
            w == self.spec_width(),
    {
        self.width
    }

    pub fn height(&self) -> (h: u32)
        ensures
            h == self.spec_height(),
    {
        self.height
    }

    pub fn is_complete(&self) -> (r: bool)
        ensures
            r == self.complete(),
            self.pixels().len() <= self.spec_width() * self.spec_height(),
    {
        proof {
            use_type_invariant(self);
        }
        let w: u64 = self.width as u64;
        let h: u64 = self.height as u64;
        assert(w * h <= 0xFFFF_FFFF * 0xFFFF_FFFF) by (nonlinear_arith)
            requires
                w <= 0xFFFF_FFFF,
                h <= 0xFFFF_FFFF,
        ;
        self.pixels.len() as u64 == w * h
    }

    /// Column and scanline of the pixel that is due next, `None` once the
    /// picture is complete.
    pub fn cursor(&self) -> (next: Option<(u32, u32)>)
        ensures
            self.complete() <==> next is None,
            next matches Some((column, scanline)) ==> {
                &&& column == raster_column(self.spec_width(), self.pixels().len())
                &&& scanline == raster_scanline(
                    self.spec_width(),
                    self.spec_height(),
                    self.pixels().len(),
                )
                &&& column < self.spec_width()
                &&& scanline < self.spec_height()
            },
    {
        if self.is_complete() {
            return None;
        }
        let done: u64 = self.pixels.len() as u64;
        let w: u64 = self.width as u64;
        let h: u64 = self.height as u64;
        assert(w > 0 && h > 0) by (nonlinear_arith)
            requires
                done < w * h,
        ;
        assert(done / w < h) by (nonlinear_arith)
            requires
                done < w * h,
                w > 0,
        ;
        let column: u64 = done % w;
        let row: u64 = h - 1 - done / w;
        Some((column as u32, row as u32))
    }

    /// Takes the pixel that is due next. A complete picture takes no more:
    /// it stays as it is, and the answer is `false`.
    pub fn push(&mut self, pixel: Pixel) -> (taken: bool)
        ensures
            taken == !old(self).complete(),
            final(self).spec_width() == old(self).spec_width(),
            final(self).spec_height() == old(self).spec_height(),
            taken ==> final(self).pixels() == old(self).pixels().push(pixel),
            !taken ==> final(self).pixels() == old(self).pixels(),
    {
        if self.is_complete() {
            return false;
        }
        let mut pixels: Vec<Pixel> = Vec::new();
        core::mem::swap(&mut pixels, &mut self.pixels);
        pixels.push(pixel);
        core::mem::swap(&mut pixels, &mut self.pixels);
        true
    }

    /// The picture as PPM text: three header lines, then a line for each
    /// pixel received, which for a complete picture is `width * height` lines.
    pub fn ppm(&self) -> (out: String)
        ensures
            out@ == self.text(),
            count(out@, '\n') == 3 + self.pixels().len(),
            self.complete() ==> count(out@, '\n') == 3 + self.spec_width() * self.spec_height(),
    {
        proof {
            text_has_a_line_for_each_pixel(self.spec_width(), self.spec_height(), self.pixels());
            reveal_strlit("P3\n");
            reveal_strlit(" ");
            reveal_strlit("\n255\n");
        }
        let mut out = String::new();
        out.append("P3\n");
        push_decimal(&mut out, self.width as u64);
        out.append(" ");
        push_decimal(&mut out, self.height as u64);
        out.append("\n255\n");
        assert(out@ =~= header(self.spec_width(), self.spec_height()));
        let mut i: usize = 0;
        while i < self.pixels.len()
            invariant
                i <= self.pixels.len(),
                out@ == header(self.spec_width(), self.spec_height()) + body(
                    self.pixels@.take(i as int),
                ),
            decreases self.pixels.len() - i,
        {
            let ghost before = out@;
            self.pixels[i].push_text(&mut out);
            out.append("\n");
            proof {
                let upto = self.pixels@.take(i + 1);
                let line = self.pixels@[i as int].text() + seq!['\n'];
                reveal_strlit("\n");
                assert(upto.drop_last() =~= self.pixels@.take(i as int));
                assert(upto.last() == self.pixels@[i as int]);
                assert(body(upto) =~= body(self.pixels@.take(i as int)) + line);
                assert(out@ =~= before + line);
                assert(out@ =~= header(self.spec_width(), self.spec_height()) + body(upto));
            }
            i = i + 1;
        }
        assert(self.pixels@.take(i as int) =~= self.pixels@);
        out
    }
}

} // verus!
