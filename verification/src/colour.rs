//! Radiance as the tracer carries it, and a pixel as the image file shows it.
//!
//! A pixel is made of the sum of its samples in five steps: the sum is
//! divided by the number of samples, the square root of each channel is
//! taken (gamma 2), each channel is kept between 0 and 0.999
//! ([`Colour::clamp`]), multiplied by 256, and cut down to its whole part
//! ([`Pixel::quantise`]). The first, second and fourth step round and are the
//! caller's.

use vstd::prelude::*;
use crate::scalar::{rank_orders_as_value, Scalar, ONE_BITS};
use crate::text::{decimal, push_decimal};

verus! {

/// Bits of `0.999`: the largest value of a channel that is shown.
pub const SHOWN_MAX_BITS: u64 = 0x3FEF_F7CE_D916_872B;

/// Red, green and blue radiance, or the share of each that a surface keeps.
#[derive(Clone, Copy, Debug, PartialEq, Eq, Structural)]
pub struct Colour {
    pub r: Scalar,
    pub g: Scalar,
    pub b: Scalar,
}

impl Colour {
    pub fn new(r: Scalar, g: Scalar, b: Scalar) -> (c: Colour)
        ensures
            c == (Colour { r, g, b }),
    {
        Colour { r, g, b }
    }

    /// `(1, 1, 1)`: what a surface that loses nothing keeps.
    pub open spec fn spec_white() -> Colour {
        Colour {
            r: Scalar { bits: ONE_BITS },
            g: Scalar { bits: ONE_BITS },
            b: Scalar { bits: ONE_BITS },
        }
    }

    #[verifier::when_used_as_spec(spec_white)]
    pub fn white() -> (c: Colour)
        ensures
            c == Colour::spec_white(),
    {
        Colour { r: Scalar::one(), g: Scalar::one(), b: Scalar::one() }
    }

    /// Each channel kept between 0 and 0.999.
    pub open spec fn clamped(self) -> Colour {
        Colour {
            r: self.r.clamped(Scalar { bits: 0 }, Scalar { bits: SHOWN_MAX_BITS }),
            g: self.g.clamped(Scalar { bits: 0 }, Scalar { bits: SHOWN_MAX_BITS }),
            b: self.b.clamped(Scalar { bits: 0 }, Scalar { bits: SHOWN_MAX_BITS }),
        }
    }

    /// Keeps each channel between 0 and 0.999: what is below becomes 0, what
    /// is above becomes 0.999.
    pub fn clamp(self) -> (c: Colour)
        ensures
            c == self.clamped(),
    {
        let lo = Scalar::zero();
        let hi = Scalar::from_bits(SHOWN_MAX_BITS);
        proof {
            rank_orders_as_value(lo, hi);
        }
        Colour { r: self.r.clamp(lo, hi), g: self.g.clamp(lo, hi), b: self.b.clamp(lo, hi) }
    }
}

/// A channel that was kept between 0 and 0.999 is at least 0 and less than
/// 1, unless it is NaN: 256 times it is less than 256, and its whole part is
/// one of the 256 values of a pixel's channel.
pub proof fn shown_channel_is_below_one(x: Scalar)
    requires
        !x.nan(),
    ensures
        0 <= x.clamped(Scalar { bits: 0 }, Scalar { bits: SHOWN_MAX_BITS }).value() < (Scalar {
            bits: ONE_BITS,
        }).value(),
{
    rank_orders_as_value(Scalar { bits: 0 }, Scalar { bits: SHOWN_MAX_BITS });
    rank_orders_as_value(Scalar { bits: SHOWN_MAX_BITS }, Scalar { bits: ONE_BITS });
}

/// A colour after averaging, gamma correction and quantisation: three
/// channels between 0 and 255.
#[derive(Clone, Copy, Debug, PartialEq, Eq, Structural)]
pub struct Pixel {
    pub r: u8,
    pub g: u8,
    pub b: u8,
}

impl Pixel {
    pub fn new(r: u8, g: u8, b: u8) -> (p: Pixel)
        ensures
            p == (Pixel { r, g, b }),
    {
        Pixel { r, g, b }
    }

    /// The pixel of a colour whose channels were scaled to lie between 0 and
    /// 256: of each channel the whole part, and never less than 0 or more
    /// than 255.
    pub fn quantise(scaled: Colour) -> (p: Pixel)
        ensures
            p == (Pixel {
                r: scaled.r.whole_u8(),
                g: scaled.g.whole_u8(),
                b: scaled.b.whole_u8(),
            }),
    {
        Pixel { r: scaled.r.to_u8(), g: scaled.g.to_u8(), b: scaled.b.to_u8() }
    }

    /// The three channels in decimal, red first, one space between two.
    pub open spec fn text(self) -> Seq<char> {
        decimal(self.r as nat) + seq![' '] + decimal(self.g as nat) + seq![' '] + decimal(
            self.b as nat,
        )
    }

    /// Appends [`Pixel::text`] to `out`.
    pub fn push_text(&self, out: &mut String)
        ensures
            final(out)@ == old(out)@ + self.text(),
    {
        proof {
            reveal_strlit(" ");
        }
        push_decimal(out, self.r as u64);
        out.append(" ");
        push_decimal(out, self.g as u64);
        out.append(" ");
        push_decimal(out, self.b as u64);
        assert(out@ =~= old(out)@ + self.text());
    }

    /// The pixel as the image file writes it, without the line end.
    pub fn render(&self) -> (out: String)
        ensures
            out@ == self.text(),
    {
        let mut out = String::new();
        self.push_text(&mut out);
        out
    }
}

} // verus!
