//! Pixel formats: turning the GUI library's images into RGBA bytes.

use vstd::prelude::*;
use crate::texture::{image_fits, TextureDelta};

verus! {

/// A colour of four 8-bit channels in sRGB space with premultiplied alpha.
#[derive(Clone, Copy, Debug, PartialEq, Eq, Structural)]
pub struct Color32 {
    pub r: u8,
    pub g: u8,
    pub b: u8,
    pub a: u8,
}

/// The colour that the GUI library draws a font pixel of each given coverage
/// with, as `(r, g, b, a)`: white with that coverage as its alpha, in gamma
/// space.
pub uninterp spec fn srgba_pixels(coverage: Seq<u8>) -> Seq<(u8, u8, u8, u8)>;

/// The colours with the given channels `(r, g, b, a)`.
pub open spec fn colors_of(channels: Seq<(u8, u8, u8, u8)>) -> Seq<Color32> {
    channels.map_values(|p: (u8, u8, u8, u8)| Color32 { r: p.0, g: p.1, b: p.2, a: p.3 })
}

/// Calls `egui::Texture::srgba_pixels` on a font image with the given
/// coverage bytes and collects the colours it yields.
///
/// Believed of it: it yields one colour for each coverage byte, in order, and
/// the colours depend on the coverage bytes alone.
#[verifier::external_body]
fn font_colors(coverage: &Vec<u8>) -> (colors: Vec<Color32>)
    ensures
        colors@.len() == coverage@.len(),
        colors@ == colors_of(srgba_pixels(coverage@)),
{
    let image = egui::Texture {
        version: 0,
        width: coverage.len(),
        height: 1,
        pixels: coverage.clone(),
    };
    image.srgba_pixels().map(|c| Color32 { r: c.r(), g: c.g(), b: c.b(), a: c.a() }).collect()
}

/// The bytes of a row of colours: red, green, blue and alpha of the first
/// colour, then of the second, and so on.
pub open spec fn rgba_bytes(colors: Seq<Color32>) -> Seq<u8>
    decreases colors.len(),
{
    if colors.len() == 0 {
        Seq::empty()
    } else {
        rgba_bytes(colors.drop_last()) + seq![
            colors.last().r,
            colors.last().g,
            colors.last().b,
            colors.last().a,
        ]
    }
}

/// There are four bytes for each colour.
pub proof fn lemma_rgba_bytes_len(colors: Seq<Color32>)
    ensures
        rgba_bytes(colors).len() == 4 * colors.len(),
    decreases colors.len(),
{
    if colors.len() > 0 {
        lemma_rgba_bytes_len(colors.drop_last());
    }
}

/// The byte at position `4 * i + c` is channel `c` of colour `i`.
pub proof fn lemma_rgba_bytes_index(colors: Seq<Color32>, i: int)
    requires
        0 <= i < colors.len(),
    ensures
        rgba_bytes(colors).len() == 4 * colors.len(),
        rgba_bytes(colors)[4 * i] == colors[i].r,
        rgba_bytes(colors)[4 * i + 1] == colors[i].g,
        rgba_bytes(colors)[4 * i + 2] == colors[i].b,
        rgba_bytes(colors)[4 * i + 3] == colors[i].a,
    decreases colors.len(),
{
    lemma_rgba_bytes_len(colors);
    lemma_rgba_bytes_len(colors.drop_last());
    if i < colors.len() - 1 {
        lemma_rgba_bytes_index(colors.drop_last(), i);
    }
}

/// Writes out the channels of each colour, four bytes for each.
pub fn flatten_colors(colors: &Vec<Color32>) -> (bytes: Vec<u8>)
    ensures
        bytes@ == rgba_bytes(colors@),
        bytes@.len() == 4 * colors@.len(),
{
    let mut bytes: Vec<u8> = Vec::new();
    let mut i: usize = 0;
    while i < colors.len()
        invariant
            i <= colors.len(),
            bytes@ == rgba_bytes(colors@.take(i as int)),
        decreases colors.len() - i,
    {
        let c = colors[i];
        bytes.push(c.r);
        bytes.push(c.g);
        bytes.push(c.b);
        bytes.push(c.a);
        proof {
            let next = colors@.take(i + 1);
            assert(next.drop_last() =~= colors@.take(i as int));
            assert(next.last() == c);
            assert(bytes@ =~= rgba_bytes(colors@.take(i as int)) + seq![c.r, c.g, c.b, c.a]);
        }
        i = i + 1;
    }
    proof {
        assert(colors@.take(colors.len() as int) =~= colors@);
        lemma_rgba_bytes_len(colors@);
    }
    bytes
}

/// Builds the whole-image delta for a font image of `width` by `height`
/// pixels, given as one coverage byte for each pixel.
///
/// Each pixel becomes the four bytes of the colour that the GUI library
/// draws that coverage with. The result is `None` unless there is exactly one
/// coverage byte for each pixel and the image can be uploaded.
pub fn font_delta(version: u64, width: usize, height: usize, coverage: &Vec<u8>) -> (delta: Option<
    TextureDelta,
>)
    ensures
        delta is Some <==> image_fits(width as int, height as int, 4 * (coverage@.len() as int)),
        delta matches Some(d) ==> {
            &&& d.spec_version() == version
            &&& d.spec_pos() is None
            &&& d.spec_width() == width
            &&& d.spec_height() == height
            &&& d.spec_pixels() == rgba_bytes(colors_of(srgba_pixels(coverage@)))
        },
{
    let colors = font_colors(coverage);
    let bytes = flatten_colors(&colors);
    TextureDelta::full(version, width, height, bytes)
}

} // verus!
