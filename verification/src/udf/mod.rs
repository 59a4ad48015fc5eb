//! UDF production: the document model, its `content.xml` serialisation and the page
//! geometry that fits a picture on an A4 page without touching its pixels.
//!
//! Because the `.udf` file is written here, the editor's own resampling of inserted
//! pictures never runs: the bitmap goes in as it is, and fitting it to the page is done
//! only with the `width`/`height` attributes, in points.

pub mod model;
pub mod ozellikler;
pub mod serialize;
pub mod zip;

use vstd::prelude::*;
use crate::udf::model::{
    Alignment, Block, BlockView, Document, DocumentView, ImageRun, ImageView, PageFormat, Paragraph,
    ParagraphView, Run, RunView,
};
use crate::udf::serialize::{serialize, spec_serialize};
use crate::udf::zip::{paketle, zip_arsivi, PaketHatasi, CONTENT_ENTRY};
use vstd::utf8::encode_utf8;
use base64::Engine;

verus! {

/// Points per centimetre, in ten-thousandths (28.3465 pt/cm).
pub const PT_PER_CM_X10000: i64 = 283465;

/// One picture to put in the document; its bytes are embedded as they are.
#[derive(Debug)]
pub struct ImageSpec {
    /// The raw bytes of the picture (PNG or JPEG). They are never re-encoded here.
    pub bytes: Vec<u8>,
    pub px_w: u32,
    pub px_h: u32,
}

impl ImageSpec {
    /// A copy with the same bytes and the same size.
    pub fn kopyala(&self) -> (r: ImageSpec)
        ensures
            r.bytes@ == self.bytes@,
            r.px_w == self.px_w,
            r.px_h == self.px_h,
    {
        ImageSpec { bytes: self.bytes.clone(), px_w: self.px_w, px_h: self.px_h }
    }
}

/// How large a picture is shown on the page.
#[derive(Debug, Clone, Copy, PartialEq, Eq)]
pub enum Sizing {
    /// Fit to the page (the default): a larger picture is scaled down, a smaller one is
    /// never scaled up.
    FitPage,
    /// 100 %: one pixel is one point, as the editor counts them.
    Actual,
    /// A fixed width, in hundredths of a centimetre; the height follows the aspect ratio.
    WidthCm(i32),
}

#[derive(Debug, Clone, Copy)]
pub struct BuildOptions {
    /// Every picture on a page of its own (a `<page-break>` between pictures).
    pub separate_pages: bool,
    pub sizing: Sizing,
    pub page: PageFormat,
}

impl Default for BuildOptions {
    fn default() -> (r: Self)
        ensures
            r.separate_pages,
            r.sizing == Sizing::FitPage,
            r.page == PageFormat::a4(),
    {
        BuildOptions { separate_pages: true, sizing: Sizing::FitPage, page: PageFormat::default() }
    }
}

// ---------------------------------------------------------------------------
// Geometry
// ---------------------------------------------------------------------------

/// `pay / payda` rounded to the nearest integer, halves away from zero (`payda > 0`).
pub open spec fn yuvarla(pay: int, payda: int) -> int {
    if pay >= 0 {
        (2 * pay + payda) / (2 * payda)
    } else {
        -((2 * (-pay) + payda) / (2 * payda))
    }
}

/// The display size of a picture in points, as two exact ratios
/// `(width numerator, width denominator, height numerator, height denominator)`, the
/// denominators positive.
///
/// The editor counts one pixel as one point. A zero side counts as one pixel. `FitPage`
/// scales by `k = min(1, usable width / w, usable height / h)`, so that a picture that
/// already fits keeps its natural size and is never enlarged. `WidthCm(c)` sets the width
/// to `c / 100` cm (at least one point) and scales the height by the same factor.
pub open spec fn boyut_orani(px_w: u32, px_h: u32, sizing: Sizing, page: PageFormat) -> (
    int,
    int,
    int,
    int,
) {
    let w: int = if px_w == 0 { 1 } else { px_w as int };
    let h: int = if px_h == 0 { 1 } else { px_h as int };
    match sizing {
        Sizing::Actual => (w, 1, h, 1),
        Sizing::FitPage => {
            let uw = page.spec_usable_width();
            let uh = page.spec_usable_height();
            if 100 * w <= uw && 100 * h <= uh {
                (w, 1, h, 1)
            } else if uw * h <= uh * w {
                (uw, 100, uw * h, 100 * w)
            } else {
                (uh * w, 100 * h, uh, 100)
            }
        },
        Sizing::WidthCm(c) => {
            let cc = c * PT_PER_CM_X10000;
            if cc >= 1000000 {
                (cc, 1000000, cc * h, 1000000 * w)
            } else {
                (1, 1, h, w)
            }
        },
    }
}

/// The display size in `1 / birim` of a point (thousandths for `birim == 1000`, tenths for
/// `birim == 10`): each exact ratio rounded to the nearest unit, halves away from zero.
pub open spec fn spec_goruntuleme_boyutu(
    px_w: u32,
    px_h: u32,
    sizing: Sizing,
    page: PageFormat,
    birim: int,
) -> (int, int) {
    let (a, b, c, d) = boyut_orani(px_w, px_h, sizing, page);
    (yuvarla(a * birim, b), yuvarla(c * birim, d))
}

/// Whether the display size, in thousandths and in tenths of a point, fits the `i64` that
/// holds it.
pub open spec fn boyut_sigar(px_w: u32, px_h: u32, sizing: Sizing, page: PageFormat) -> bool {
    let (w, h) = spec_goruntuleme_boyutu(px_w, px_h, sizing, page, 1000);
    let (w1, h1) = spec_goruntuleme_boyutu(px_w, px_h, sizing, page, 10);
    &&& i64::MIN <= w <= i64::MAX
    &&& i64::MIN <= h <= i64::MAX
    &&& i64::MIN <= w1 <= i64::MAX
    &&& i64::MIN <= h1 <= i64::MAX
}

pub(crate) proof fn carpim_siniri(a: int, b: int, sa: int, sb: int)
    requires
        -sa <= a <= sa,
        0 <= b <= sb,
    ensures
        -(sa * sb) <= a * b <= sa * sb,
{
    assert(-(sa * sb) <= a * b <= sa * sb) by (nonlinear_arith)
        requires
            -sa <= a <= sa,
            0 <= b <= sb,
    ;
}

pub(crate) fn yuvarla_exec(pay: i128, payda: i128) -> (r: i128)
    requires
        payda > 0,
        payda < 0x1_0000_0000_0000_0000_0000_0000,
        -0x1_0000_0000_0000_0000_0000_0000 < pay < 0x1_0000_0000_0000_0000_0000_0000,
    ensures
        r == yuvarla(pay as int, payda as int),
        pay >= 0 ==> 0 <= r <= pay + 1,
        pay < 0 ==> pay - 1 <= r <= 0,
{
    proof {
        let p: int = if pay >= 0 { pay as int } else { -(pay as int) };
        let d = payda as int;
        assert(0 <= (2 * p + d) / (2 * d) <= p + 1) by (nonlinear_arith)
            requires
                p >= 0,
                d >= 1,
        ;
    }
    if pay >= 0 {
        (2 * pay + payda) / (2 * payda)
    } else {
        -((2 * (-pay) + payda) / (2 * payda))
    }
}

/// A bound on the parts of the display ratios: `2^86`.
pub open spec fn oran_siniri() -> int {
    0x40_0000_0000_0000_0000_0000
}

/// The exact display ratios (see [`boyut_orani`]), each part within `2^86` in magnitude.
fn boyut_orani_exec(px_w: u32, px_h: u32, sizing: Sizing, page: &PageFormat) -> (r: (
    i128,
    i128,
    i128,
    i128,
))
    ensures
        (r.0 as int, r.1 as int, r.2 as int, r.3 as int) == boyut_orani(px_w, px_h, sizing, *page),
        r.1 > 0,
        r.3 > 0,
        -oran_siniri() <= r.0 <= oran_siniri(),
        -oran_siniri() <= r.2 <= oran_siniri(),
        r.1 <= oran_siniri(),
        r.3 <= oran_siniri(),
{
    let w: i128 = if px_w == 0 { 1 } else { px_w as i128 };
    let h: i128 = if px_h == 0 { 1 } else { px_h as i128 };
    match sizing {
        Sizing::Actual => {
            assert(w <= 0x1_0000_0000 && h <= 0x1_0000_0000);
            (w, 1, h, 1)
        },
        Sizing::FitPage => {
            let uw = page.usable_width() as i128;
            let uh = page.usable_height() as i128;
            proof {
                carpim_siniri(uw as int, h as int, 0x4_0000_0000, 0x1_0000_0000);
                carpim_siniri(uh as int, w as int, 0x10_0000_0000, 0x1_0000_0000);
            }
            if 100 * w <= uw && 100 * h <= uh {
                (w, 1, h, 1)
            } else if uw * h <= uh * w {
                (uw, 100, uw * h, 100 * w)
            } else {
                (uh * w, 100 * h, uh, 100)
            }
        },
        Sizing::WidthCm(c) => {
            proof {
                carpim_siniri(c as int, PT_PER_CM_X10000 as int, 0x8000_0000, 0x10_0000);
            }
            let cc = c as i128 * PT_PER_CM_X10000 as i128;
            proof {
                carpim_siniri(cc as int, h as int, 0x8_0000_0000_0000, 0x1_0000_0000);
            }
            if cc >= 1000000 {
                (cc, 1000000, cc * h, 1000000 * w)
            } else {
                (1, 1, h, w)
            }
        },
    }
}

/// The display size in `1 / birim` of a point, as wide integers.
pub(crate) fn boyut_hesapla(px_w: u32, px_h: u32, sizing: Sizing, page: &PageFormat, birim: i128) -> (r: (
    i128,
    i128,
))
    requires
        birim == 10 || birim == 1000,
    ensures
        (r.0 as int, r.1 as int) == spec_goruntuleme_boyutu(px_w, px_h, sizing, *page, birim as int),
        -0x1_0000_0000_0000_0000_0000_0000 <= r.0 <= 0x1_0000_0000_0000_0000_0000_0000,
        -0x1_0000_0000_0000_0000_0000_0000 <= r.1 <= 0x1_0000_0000_0000_0000_0000_0000,
{
    let (a, b, c, d) = boyut_orani_exec(px_w, px_h, sizing, page);
    proof {
        carpim_siniri(a as int, birim as int, oran_siniri(), 1000);
        carpim_siniri(c as int, birim as int, oran_siniri(), 1000);
    }
    let gw = yuvarla_exec(a * birim, b);
    let gh = yuvarla_exec(c * birim, d);
    (gw, gh)
}

/// The display size in `1 / birim` of a point.
fn boyut_birimle(px_w: u32, px_h: u32, sizing: Sizing, page: &PageFormat, birim: i128) -> (r: (
    i64,
    i64,
))
    requires
        birim == 10 || birim == 1000,
        boyut_sigar(px_w, px_h, sizing, *page),
    ensures
        (r.0 as int, r.1 as int) == spec_goruntuleme_boyutu(px_w, px_h, sizing, *page, birim as int),
{
    let (gw, gh) = boyut_hesapla(px_w, px_h, sizing, page, birim);
    (gw as i64, gh as i64)
}

/// Whether a picture's display size fits the integers that hold it (see [`boyut_sigar`]).
/// It always does on a page whose margins leave room, such as the default A4 page.
pub fn boyut_sigar_mi(px_w: u32, px_h: u32, sizing: Sizing, page: &PageFormat) -> (r: bool)
    ensures
        r == boyut_sigar(px_w, px_h, sizing, *page),
{
    let (w, h) = boyut_hesapla(px_w, px_h, sizing, page, 1000);
    let (w1, h1) = boyut_hesapla(px_w, px_h, sizing, page, 10);
    let alt = i64::MIN as i128;
    let ust = i64::MAX as i128;
    alt <= w && w <= ust && alt <= h && h <= ust && alt <= w1 && w1 <= ust && alt <= h1 && h1
        <= ust
}

/// Whether every picture's display size fits the integers that hold it (see
/// [`hepsi_sigar`]).
pub fn hepsi_sigar_mi(images: &[ImageSpec], opts: &BuildOptions) -> (r: bool)
    ensures
        r == hepsi_sigar(images@, *opts),
{
    let mut i: usize = 0;
    while i < images.len()
        invariant
            i <= images@.len(),
            forall|j: int|
                0 <= j < i ==> boyut_sigar(
                    #[trigger] images@[j].px_w,
                    images@[j].px_h,
                    opts.sizing,
                    opts.page,
                ),
        decreases images@.len() - i,
    {
        if !boyut_sigar_mi(images[i].px_w, images[i].px_h, opts.sizing, &opts.page) {
            return false;
        }
        i = i + 1;
    }
    true
}

/// The display size of a picture in thousandths of a point (see [`boyut_orani`]):
/// `(524410, 349607)` for a 3000 × 2000 picture fitted to the default A4 page.
pub fn goruntuleme_boyutu(px_w: u32, px_h: u32, sizing: Sizing, page: &PageFormat) -> (r: (
    i64,
    i64,
))
    requires
        boyut_sigar(px_w, px_h, sizing, *page),
    ensures
        (r.0 as int, r.1 as int) == spec_goruntuleme_boyutu(px_w, px_h, sizing, *page, 1000),
{
    boyut_birimle(px_w, px_h, sizing, page, 1000)
}

// ---------------------------------------------------------------------------
// Base64
// ---------------------------------------------------------------------------

/// The character of the standard base64 alphabet for a six-bit value `n`: `A`-`Z`, `a`-`z`,
/// `0`-`9`, `+`, `/`.
pub open spec fn base64_harfi(n: int) -> char {
    if n < 26 {
        (65 + n) as char
    } else if n < 52 {
        (97 + n - 26) as char
    } else if n < 62 {
        (48 + n - 52) as char
    } else if n == 62 {
        '+'
    } else {
        '/'
    }
}

/// Standard base64 (RFC 4648, padded): each group of three bytes becomes four characters
/// of six bits each, most significant first; a last group of one or two bytes is filled
/// with zero bits and padded with `=` to four characters.
pub open spec fn base64_standart(b: Seq<u8>) -> Seq<char>
    decreases b.len(),
{
    if b.len() == 0 {
        Seq::empty()
    } else if b.len() == 1 {
        let x = b[0] as int;
        seq![base64_harfi(x / 4), base64_harfi((x % 4) * 16), '=', '=']
    } else if b.len() == 2 {
        let x = b[0] as int;
        let y = b[1] as int;
        seq![base64_harfi(x / 4), base64_harfi((x % 4) * 16 + y / 16), base64_harfi((y % 16) * 4), '=']
    } else {
        let x = b[0] as int;
        let y = b[1] as int;
        let z = b[2] as int;
        seq![
            base64_harfi(x / 4),
            base64_harfi((x % 4) * 16 + y / 16),
            base64_harfi((y % 16) * 4 + z / 64),
            base64_harfi(z % 64),
        ] + base64_standart(b.skip(3))
    }
}

/// A character of the standard base64 alphabet, or the padding `=`.
pub open spec fn base64_karakteri(c: char) -> bool {
    ('A' <= c <= 'Z') || ('a' <= c <= 'z') || ('0' <= c <= '9') || c == '+' || c == '/' || c
        == '='
}

/// Base64 text has four characters for every started group of three bytes, all from the
/// base64 alphabet: no line break, no prefix.
pub proof fn base64_bicimi(b: Seq<u8>)
    ensures
        base64_standart(b).len() == 4 * ((b.len() + 2) / 3),
        forall|i: int|
            0 <= i < base64_standart(b).len() ==> base64_karakteri(#[trigger] base64_standart(b)[i]),
    decreases b.len(),
{
    if b.len() >= 3 {
        base64_bicimi(b.skip(3));
    }
}

/// `base64::engine::general_purpose::STANDARD.encode`: padded standard base64 (see
/// [`base64_standart`]).
#[verifier::external_body]
pub(crate) fn base64_kodla(b: &[u8]) -> (r: String)
    ensures
        r@ == base64_standart(b@),
{
    base64::engine::general_purpose::STANDARD.encode(b)
}

// ---------------------------------------------------------------------------
// Building the document
// ---------------------------------------------------------------------------

/// The centred paragraph that holds one picture.
pub open spec fn resim_paragrafi(img: ImageSpec, opts: BuildOptions) -> BlockView {
    let (w, h) = spec_goruntuleme_boyutu(img.px_w, img.px_h, opts.sizing, opts.page, 10);
    BlockView::Paragraph(
        ParagraphView {
            alignment: Alignment::Center,
            left_indent: 0,
            right_indent: 0,
            runs: seq![RunView::Image(ImageView { data_b64: base64_standart(img.bytes@), width: w, height: h })],
        },
    )
}

/// The empty left-aligned paragraph (a blank line) that stands between two pictures on the
/// same page.
pub open spec fn bos_paragraf() -> BlockView {
    BlockView::Paragraph(
        ParagraphView { alignment: Alignment::Left, left_indent: 0, right_indent: 0, runs: Seq::empty() },
    )
}

/// What stands between two consecutive pictures: a page break when they go on separate
/// pages, otherwise a blank line.
pub open spec fn ara_blok(opts: BuildOptions) -> BlockView {
    if opts.separate_pages { BlockView::PageBreak } else { bos_paragraf() }
}

/// The body of a document of pictures: one paragraph per picture, in order, with a page
/// break between two pictures when they go on separate pages and a blank line between them
/// otherwise.
pub open spec fn belge_govdesi(images: Seq<ImageSpec>, opts: BuildOptions) -> Seq<BlockView>
    decreases images.len(),
{
    if images.len() == 0 {
        Seq::empty()
    } else {
        let ara = if images.len() > 1 {
            seq![ara_blok(opts)]
        } else {
            Seq::empty()
        };
        belge_govdesi(images.drop_last(), opts) + ara + seq![resim_paragrafi(images.last(), opts)]
    }
}

/// The document of pictures.
pub open spec fn spec_belge_kur(images: Seq<ImageSpec>, opts: BuildOptions) -> DocumentView {
    DocumentView { pages: opts.page, body: belge_govdesi(images, opts) }
}

/// Whether every picture's display size fits the integers that hold it.
pub open spec fn hepsi_sigar(images: Seq<ImageSpec>, opts: BuildOptions) -> bool {
    forall|i: int|
        0 <= i < images.len() ==> boyut_sigar(
            #[trigger] images[i].px_w,
            images[i].px_h,
            opts.sizing,
            opts.page,
        )
}

/// Builds the document model from pictures.
pub fn belge_kur(images: &[ImageSpec], opts: &BuildOptions) -> (doc: Document)
    requires
        hepsi_sigar(images@, *opts),
    ensures
        doc.view() == spec_belge_kur(images@, *opts),
{
    let mut body: Vec<Block> = Vec::new();
    let n = images.len();
    let mut i: usize = 0;
    assert(images@.take(0) =~= Seq::<ImageSpec>::empty());
    assert(body@.map_values(|b: Block| b.view()) =~= Seq::<BlockView>::empty());
    while i < n
        invariant
            n == images@.len(),
            i <= n,
            hepsi_sigar(images@, *opts),
            body@.map_values(|b: Block| b.view()) == belge_govdesi(images@.take(i as int), *opts),
        decreases n - i,
    {
        let ghost once = body@.map_values(|b: Block| b.view());
        let img = &images[i];
        assert(boyut_sigar(images@[i as int].px_w, images@[i as int].px_h, opts.sizing, opts.page));
        if i > 0 {
            if opts.separate_pages {
                body.push(Block::PageBreak);
            } else {
                let bos = Paragraph { alignment: Alignment::Left, left_indent: 0, right_indent: 0, runs: Vec::new() };
                assert(bos.view().runs =~= Seq::<RunView>::empty());
                body.push(Block::Paragraph(bos));
            }
        }
        let ghost ara = body@.map_values(|b: Block| b.view());
        let (w, h) = boyut_birimle(img.px_w, img.px_h, opts.sizing, &opts.page, 10);
        let veri = base64_kodla(img.bytes.as_slice());
        let run = Run::Image(ImageRun { data_b64: veri, width: w, height: h });
        let p = Paragraph { alignment: Alignment::Center, left_indent: 0, right_indent: 0, runs: vec![run] };
        proof {
            assert(p.view().runs =~= seq![RunView::Image(ImageView { data_b64: base64_standart(img.bytes@), width: w as int, height: h as int })]);
            assert(Block::Paragraph(p).view() == resim_paragrafi(images@[i as int], *opts));
        }
        body.push(Block::Paragraph(p));
        proof {
            let t = images@.take(i + 1);
            assert(t.drop_last() =~= images@.take(i as int));
            assert(t.last() == images@[i as int]);
            if i > 0 {
                assert(ara =~= once + seq![ara_blok(*opts)]);
            } else {
                assert(ara =~= once);
            }
            assert(body@.map_values(|b: Block| b.view()) =~= ara + seq![resim_paragrafi(images@[i as int], *opts)]);
            assert(body@.map_values(|b: Block| b.view()) =~= belge_govdesi(t, *opts));
        }
        i = i + 1;
    }
    assert(images@.take(n as int) =~= images@);
    let doc = Document { pages: opts.page, body };
    doc
}

/// Why a `.udf` file could not be produced.
#[derive(Debug)]
pub enum UdfHatasi {
    /// There is no picture to put in the document.
    ResimYok,
    /// The archive could not be written.
    Paket(PaketHatasi),
}

impl UdfHatasi {
    /// The message shown for this error.
    pub fn mesaj(&self) -> (r: String)
        ensures
            self is ResimYok ==> r@ == "Belgeye koyacak resim yok."@,
            self is Paket ==> r@ == "UDF arşivi yazılamadı."@,
    {
        match self {
            UdfHatasi::ResimYok => String::from_str("Belgeye koyacak resim yok."),
            UdfHatasi::Paket(_) => String::from_str("UDF arşivi yazılamadı."),
        }
    }
}

/// The bytes of the `.udf` file of a document of pictures: its `content.xml`, as UTF-8,
/// in a single-entry archive.
pub open spec fn udf_baytlari(images: Seq<ImageSpec>, opts: BuildOptions) -> Seq<u8> {
    zip_arsivi(seq![(CONTENT_ENTRY@, encode_utf8(spec_serialize(spec_belge_kur(images, opts))))])
}

/// Produces the bytes of a `.udf` file from pictures. Without pictures it refuses with
/// [`UdfHatasi::ResimYok`].
pub fn build_udf(images: &[ImageSpec], opts: &BuildOptions) -> (r: Result<Vec<u8>, UdfHatasi>)
    requires
        hepsi_sigar(images@, *opts),
    ensures
        images@.len() == 0 <==> r matches Err(UdfHatasi::ResimYok),
        r matches Ok(v) ==> v@ == udf_baytlari(images@, *opts),
        images@.len() > 0 && encode_utf8(spec_serialize(spec_belge_kur(images@, *opts))).len()
            <= 0x7FFF_FFFF ==> r is Ok,
{
    if images.len() == 0 {
        return Err(UdfHatasi::ResimYok);
    }
    let doc = belge_kur(images, opts);
    let xml = serialize(&doc);
    match paketle(xml.as_str()) {
        Ok(v) => Ok(v),
        Err(e) => Err(UdfHatasi::Paket(e)),
    }
}

} // verus!
