//! Properties of documents of pictures and of the page geometry.

use vstd::prelude::*;
use crate::image_io::{binde_tavan, cift_genislik, en_az_piksel, indirgeme_olcusu, nokta_basina_piksel, Kalite};
use crate::udf::model::{BlockView, PageFormat, RunView};
use crate::udf::serialize::{
    block_cdata, body_cdata, paragraph_cdata, runs_cdata, spec_cdata_guvenli, OBJECT_REPLACEMENT,
};
use crate::udf::{ara_blok, base64_harfi, base64_standart, belge_govdesi, bos_paragraf, resim_paragrafi, spec_goruntuleme_boyutu, yuvarla, BuildOptions, ImageSpec, Sizing};

verus! {

/// Where picture `i` stands in the body: every picture takes one block, and a page break
/// or a blank line stands before every picture but the first.
pub open spec fn konum(i: int) -> int {
    2 * i
}

/// The number of blocks of a document of `n` pictures.
pub open spec fn govde_uzunlugu(n: int) -> int {
    if n > 0 { 2 * n - 1 } else { 0 }
}

/// The number of page breaks in a body.
pub open spec fn sayfa_sonlari(bs: Seq<BlockView>) -> nat
    decreases bs.len(),
{
    if bs.len() == 0 {
        0
    } else {
        sayfa_sonlari(bs.drop_last()) + (if bs.last() is PageBreak { 1nat } else { 0nat })
    }
}

/// Pictures go into the document in the order given, each exactly once (the same picture
/// given twice goes in twice), each in a centred paragraph of its own whose picture data
/// is the base64 of its bytes, unchanged; between two consecutive pictures stands a page
/// break with separate pages and a blank line (an empty paragraph) without, and nothing
/// else is in the body.
pub proof fn resimler_sirayla_girer(images: Seq<ImageSpec>, opts: BuildOptions)
    ensures
        belge_govdesi(images, opts).len() == govde_uzunlugu(images.len() as int),
        forall|i: int|
            0 <= i < images.len() ==> belge_govdesi(images, opts)[konum(i)]
                == resim_paragrafi(#[trigger] images[i], opts),
        forall|i: int|
            0 <= i < images.len() - 1 ==> #[trigger] belge_govdesi(images, opts)[2 * i + 1]
                == ara_blok(opts),
    decreases images.len(),
{
    if images.len() > 0 {
        let onceki = images.drop_last();
        resimler_sirayla_girer(onceki, opts);
        let g = belge_govdesi(images, opts);
        let go = belge_govdesi(onceki, opts);
        assert forall|i: int| 0 <= i < images.len() implies g[konum(i)]
            == resim_paragrafi(#[trigger] images[i], opts) by {
            if i < images.len() - 1 {
                assert(onceki[i] == images[i]);
            }
        }
        assert forall|i: int| 0 <= i < images.len() - 1 implies #[trigger] g[2 * i + 1] == ara_blok(opts) by {
            if i < images.len() - 2 {
                assert(g[2 * i + 1] == go[2 * i + 1]);
            }
        }
    }
}

/// A document of `n` pictures holds `n - 1` page breaks with separate pages and none
/// without.
pub proof fn sayfa_sonu_sayisi(images: Seq<ImageSpec>, opts: BuildOptions)
    ensures
        sayfa_sonlari(belge_govdesi(images, opts)) == (if opts.separate_pages && images.len() > 0 {
            images.len() - 1
        } else {
            0
        }),
    decreases images.len(),
{
    if images.len() > 0 {
        let onceki = images.drop_last();
        sayfa_sonu_sayisi(onceki, opts);
        let g = belge_govdesi(images, opts);
        let go = belge_govdesi(onceki, opts);
        let ara = if images.len() > 1 {
            seq![ara_blok(opts)]
        } else {
            Seq::<BlockView>::empty()
        };
        let p = resim_paragrafi(images.last(), opts);
        assert(g.drop_last() =~= go + ara);
        assert(g.last() == p);
        assert(sayfa_sonlari(g) == sayfa_sonlari(go + ara));
        if images.len() > 1 && opts.separate_pages {
            assert((go + ara).drop_last() =~= go);
            assert((go + ara).last() is PageBreak);
        } else if images.len() > 1 {
            assert((go + ara).drop_last() =~= go);
            assert(!((go + ara).last() is PageBreak));
        } else {
            assert(go + ara =~= go);
        }
    }
}

/// The text of a body whose blocks each have a two-character text: block `k` starts at
/// code point `2k`.
proof fn iki_karakterli_bloklar(bs: Seq<BlockView>, k: int)
    requires
        forall|j: int| 0 <= j < bs.len() ==> (#[trigger] block_cdata(bs[j])).len() == 2,
        0 <= k <= bs.len(),
    ensures
        body_cdata(bs.take(k)).len() == 2 * k,
        k < bs.len() ==> body_cdata(bs)[2 * k] == block_cdata(bs[k])[0],
        body_cdata(bs).len() == 2 * bs.len(),
    decreases bs.len(),
{
    if bs.len() > 0 {
        let d = bs.drop_last();
        assert forall|j: int| 0 <= j < d.len() implies (#[trigger] block_cdata(d[j])).len() == 2 by {
            assert(d[j] == bs[j]);
        }
        assert(block_cdata(bs[bs.len() - 1]).len() == 2);
        if k < bs.len() {
            iki_karakterli_bloklar(d, k);
            assert(bs.take(k) =~= d.take(k));
            if k < d.len() {
                assert(d[k] == bs[k]);
                assert(body_cdata(bs)[2 * k] == body_cdata(d)[2 * k]);
            } else {
                iki_karakterli_bloklar(d, d.len() as int);
                assert(d.take(d.len() as int) =~= d);
            }
        } else {
            iki_karakterli_bloklar(d, d.len() as int);
            assert(d.take(d.len() as int) =~= d);
            assert(bs.take(k) =~= bs);
        }
    }
}

/// Picture `i` starts the document's text at code point `2 * konum(i)`, where the text holds
/// U+FFFC and then a line feed.
pub open spec fn resim_metinde(images: Seq<ImageSpec>, opts: BuildOptions, i: int) -> bool {
    let bs = belge_govdesi(images, opts);
    let k = konum(i);
    &&& body_cdata(bs.take(k)).len() == 2 * k
    &&& body_cdata(bs)[2 * k] == OBJECT_REPLACEMENT
    &&& body_cdata(bs)[2 * k + 1] == '\n'
}

/// In the text of a document of pictures every picture stands as U+FFFC followed by a line
/// feed, and picture `i` stands at code point `4i` (a page break or a blank line, two code
/// points each, stands before every picture but the first): that is the `startOffset` its
/// element is written with.
pub proof fn resim_konumlari(images: Seq<ImageSpec>, opts: BuildOptions)
    ensures
        body_cdata(belge_govdesi(images, opts)).len() == 2 * govde_uzunlugu(images.len() as int),
        forall|i: int| 0 <= i < images.len() ==> #[trigger] resim_metinde(images, opts, i),
{
    let bs = belge_govdesi(images, opts);
    resimler_sirayla_girer(images, opts);
    assert forall|j: int| 0 <= j < bs.len() implies (#[trigger] block_cdata(bs[j])).len() == 2 by {
        iki_karakter(images, opts, j);
    }
    iki_karakterli_bloklar(bs, 0);
    assert forall|i: int| 0 <= i < images.len() implies #[trigger] resim_metinde(images, opts, i) by {
        let k = konum(i);
        iki_karakterli_bloklar(bs, k);
        iki_karakterli_bloklar(bs, k + 1);
        let p = resim_paragrafi(images[i], opts);
        assert(bs[k] == p);
        let pv = p->Paragraph_0;
        assert(pv.runs.drop_last() =~= Seq::empty());
        assert(runs_cdata(pv.runs) =~= seq![OBJECT_REPLACEMENT]);
        assert(block_cdata(bs[k]) =~= seq![OBJECT_REPLACEMENT, '\n']);
        assert(bs.take(k + 1).drop_last() =~= bs.take(k));
        assert(body_cdata(bs.take(k + 1)) == body_cdata(bs.take(k)) + block_cdata(bs[k]));
        lemma_onek(bs, k + 1);
        assert(body_cdata(bs)[2 * k + 1] == body_cdata(bs.take(k + 1))[2 * k + 1]);
    }
}

/// The text of a prefix of a body is a prefix of the body's text.
proof fn lemma_onek(bs: Seq<BlockView>, k: int)
    requires
        0 <= k <= bs.len(),
    ensures
        body_cdata(bs.take(k)).len() <= body_cdata(bs).len(),
        forall|j: int| 0 <= j < body_cdata(bs.take(k)).len() ==> body_cdata(bs)[j] == #[trigger] body_cdata(bs.take(k))[j],
    decreases bs.len() - k,
{
    if k < bs.len() {
        lemma_onek(bs, k + 1);
        assert(bs.take(k + 1).drop_last() =~= bs.take(k));
        let a = body_cdata(bs.take(k));
        let b = body_cdata(bs.take(k + 1));
        assert(b == a + block_cdata(bs.take(k + 1).last()));
        assert forall|j: int| 0 <= j < a.len() implies body_cdata(bs)[j] == #[trigger] a[j] by {
            assert(b[j] == a[j]);
        }
    } else {
        assert(bs.take(k) =~= bs);
    }
}

/// Every block of a document of pictures has a two-character text.
proof fn iki_karakter(images: Seq<ImageSpec>, opts: BuildOptions, j: int)
    requires
        0 <= j < belge_govdesi(images, opts).len(),
    ensures
        block_cdata(belge_govdesi(images, opts)[j]).len() == 2,
    decreases images.len(),
{
    if images.len() > 0 {
        let onceki = images.drop_last();
        let go = belge_govdesi(onceki, opts);
        if j < go.len() {
            iki_karakter(onceki, opts, j);
        } else {
            let g = belge_govdesi(images, opts);
            let b = g[j];
            if j == g.len() - 1 {
                let pv = b->Paragraph_0;
                assert(b == resim_paragrafi(images.last(), opts));
                assert(pv.runs.drop_last() =~= Seq::empty());
                assert(runs_cdata(Seq::<RunView>::empty()) == Seq::<char>::empty());
                assert(runs_cdata(pv.runs) =~= seq![OBJECT_REPLACEMENT]);
            } else {
                assert(b == ara_blok(opts));
            }
        }
    }
}

// ---------------------------------------------------------------------------
// Geometry
// ---------------------------------------------------------------------------

/// A whole number is its own rounding.
proof fn yuvarla_tam(x: int)
    requires
        x >= 0,
    ensures
        yuvarla(x, 1) == x,
{
    assert((2 * x + 1) / (2 * 1int) == x) by (nonlinear_arith)
        requires
            x >= 0,
    ;
}

/// Rounding a larger non-negative ratio never gives a smaller result.
proof fn yuvarla_monoton(a1: int, b1: int, a2: int, b2: int)
    requires
        b1 > 0,
        b2 > 0,
        a1 >= 0,
        a1 * b2 <= a2 * b1,
    ensures
        yuvarla(a1, b1) <= yuvarla(a2, b2),
{
    let q1 = yuvarla(a1, b1);
    assert(a2 >= 0) by (nonlinear_arith)
        requires
            b1 > 0,
            b2 > 0,
            a1 >= 0,
            a1 * b2 <= a2 * b1,
    ;
    assert(q1 * (2 * b1) <= 2 * a1 + b1) by (nonlinear_arith)
        requires
            b1 > 0,
            a1 >= 0,
            q1 == (2 * a1 + b1) / (2 * b1),
    ;
    assert(q1 * (2 * b2) <= 2 * a2 + b2) by (nonlinear_arith)
        requires
            b1 > 0,
            b2 > 0,
            q1 * (2 * b1) <= 2 * a1 + b1,
            a1 * b2 <= a2 * b1,
    ;
    assert(q1 <= (2 * a2 + b2) / (2 * b2)) by (nonlinear_arith)
        requires
            b2 > 0,
            q1 * (2 * b2) <= 2 * a2 + b2,
    ;
}

/// Fitting to the page never enlarges a picture, keeps a picture that already fits at its
/// natural size (one pixel, one point), and never makes it wider or taller than the usable
/// area of the page; in any unit `1 / birim` of a point the display size is rounded to.
/// This holds whenever the page has a usable area at all.
pub proof fn sayfaya_sigdirma(px_w: u32, px_h: u32, page: PageFormat, birim: int)
    requires
        page.spec_usable_width() > 0,
        page.spec_usable_height() > 0,
        birim > 0,
    ensures
        ({
            let (w, h) = spec_goruntuleme_boyutu(px_w, px_h, Sizing::FitPage, page, birim);
            let pw: int = if px_w == 0 { 1 } else { px_w as int };
            let ph: int = if px_h == 0 { 1 } else { px_h as int };
            &&& 0 <= w <= birim * pw
            &&& 0 <= h <= birim * ph
            &&& w <= yuvarla(page.spec_usable_width() * birim, 100)
            &&& h <= yuvarla(page.spec_usable_height() * birim, 100)
            &&& (100 * pw <= page.spec_usable_width() && 100 * ph <= page.spec_usable_height())
                ==> w == birim * pw && h == birim * ph
        }),
{
    let pw: int = if px_w == 0 { 1 } else { px_w as int };
    let ph: int = if px_h == 0 { 1 } else { px_h as int };
    let uw = page.spec_usable_width();
    let uh = page.spec_usable_height();
    assert(pw * birim > 0 && ph * birim > 0 && uw * birim > 0 && uh * birim > 0) by (nonlinear_arith)
        requires
            birim > 0,
            pw > 0,
            ph > 0,
            uw > 0,
            uh > 0,
    ;
    yuvarla_tam(pw * birim);
    assert(pw * birim == birim * pw) by (nonlinear_arith);
    yuvarla_tam(ph * birim);
    assert(ph * birim == birim * ph) by (nonlinear_arith);
    yuvarla_monoton(0, 1, uw * birim, 100);
    yuvarla_monoton(0, 1, uh * birim, 100);
    if 100 * pw <= uw && 100 * ph <= uh {
        assert((pw * birim) * 100 <= (uw * birim) * 1 && (ph * birim) * 100 <= (uh * birim) * 1)
            by (nonlinear_arith)
            requires
                100 * pw <= uw,
                100 * ph <= uh,
                birim > 0,
        ;
        yuvarla_monoton(pw * birim, 1, uw * birim, 100);
        yuvarla_monoton(ph * birim, 1, uh * birim, 100);
    } else if uw * ph <= uh * pw {
        assert(uw < 100 * pw) by (nonlinear_arith)
            requires
                pw > 0,
                ph > 0,
                !(100 * pw <= uw && 100 * ph <= uh),
                uw * ph <= uh * pw,
        ;
        let c = uw * ph;
        assert((uw * birim) * 1 <= (pw * birim) * 100) by (nonlinear_arith)
            requires
                uw < 100 * pw,
                birim > 0,
        ;
        yuvarla_monoton(uw * birim, 100, pw * birim, 1);
        assert(0 <= c * birim) by (nonlinear_arith)
            requires
                c == uw * ph,
                uw > 0,
                ph > 0,
                birim > 0,
        ;
        yuvarla_monoton(0, 1, c * birim, 100 * pw);
        assert((c * birim) * 1 <= (ph * birim) * (100 * pw)) by (nonlinear_arith)
            requires
                c == uw * ph,
                uw < 100 * pw,
                ph > 0,
                birim > 0,
        ;
        yuvarla_monoton(c * birim, 100 * pw, ph * birim, 1);
        assert((c * birim) * 100 <= (uh * birim) * (100 * pw)) by (nonlinear_arith)
            requires
                c == uw * ph,
                uw * ph <= uh * pw,
                birim > 0,
        ;
        yuvarla_monoton(c * birim, 100 * pw, uh * birim, 100);
    } else {
        assert(uh < 100 * ph) by (nonlinear_arith)
            requires
                pw > 0,
                ph > 0,
                !(100 * pw <= uw && 100 * ph <= uh),
                !(uw * ph <= uh * pw),
        ;
        let c = uh * pw;
        assert((uh * birim) * 1 <= (ph * birim) * 100) by (nonlinear_arith)
            requires
                uh < 100 * ph,
                birim > 0,
        ;
        yuvarla_monoton(uh * birim, 100, ph * birim, 1);
        assert(0 <= c * birim) by (nonlinear_arith)
            requires
                c == uh * pw,
                uh > 0,
                pw > 0,
                birim > 0,
        ;
        yuvarla_monoton(0, 1, c * birim, 100 * ph);
        assert((c * birim) * 1 <= (pw * birim) * (100 * ph)) by (nonlinear_arith)
            requires
                c == uh * pw,
                uh < 100 * ph,
                pw > 0,
                birim > 0,
        ;
        yuvarla_monoton(c * birim, 100 * ph, pw * birim, 1);
        assert((c * birim) * 100 <= (uw * birim) * (100 * ph)) by (nonlinear_arith)
            requires
                c == uh * pw,
                !(uw * ph <= uh * pw),
                birim > 0,
        ;
        yuvarla_monoton(c * birim, 100 * ph, uw * birim, 100);
    }
}

/// At 100 % one pixel is one point, in any unit.
pub proof fn yuzde_yuz_bire_bir(px_w: u32, px_h: u32, page: PageFormat, birim: int)
    requires
        birim > 0,
    ensures
        spec_goruntuleme_boyutu(px_w, px_h, Sizing::Actual, page, birim) == (
            birim * (if px_w == 0 { 1 } else { px_w as int }),
            birim * (if px_h == 0 { 1 } else { px_h as int }),
        ),
{
    let pw: int = if px_w == 0 { 1 } else { px_w as int };
    let ph: int = if px_h == 0 { 1 } else { px_h as int };
    assert(pw * birim >= 0 && ph * birim >= 0) by (nonlinear_arith)
        requires
            birim > 0,
            pw > 0,
            ph > 0,
    ;
    yuvarla_tam(pw * birim);
    assert(pw * birim == birim * pw) by (nonlinear_arith);
    yuvarla_tam(ph * birim);
    assert(ph * birim == birim * ph) by (nonlinear_arith);
}


/// Whether `]]>`, which closes a CDATA section, stands in `s` at `i`.
pub open spec fn kapanis(s: Seq<char>, i: int) -> bool {
    0 <= i && i + 3 <= s.len() && s[i] == ']' && s[i + 1] == ']' && s[i + 2] == '>'
}

/// Whether `s` holds no `]]>`.
pub open spec fn kapanissiz(s: Seq<char>) -> bool {
    forall|i: int| !#[trigger] kapanis(s, i)
}

proof fn cdata_bas(t: Seq<char>)
    ensures
        t.len() > 0 ==> spec_cdata_guvenli(t).len() > 0 && spec_cdata_guvenli(t)[0] == t[0],
        t.len() >= 2 && !kapanis(t, 0) ==> spec_cdata_guvenli(t).len() >= 2
            && spec_cdata_guvenli(t)[1] == t[1],
        kapanis(t, 0) ==> spec_cdata_guvenli(t).len() >= 3 && spec_cdata_guvenli(t)[2] == '&',
    decreases t.len(),
{
    if t.len() >= 3 {
        cdata_bas(t.skip(1));
    }
    if t.len() == 2 {
        assert(spec_cdata_guvenli(t) == t);
    }
}

/// Text made safe for CDATA never closes the section: whatever the input, the result
/// holds no `]]>`.
pub proof fn cdata_guvenli_kapanis_birakmaz(s: Seq<char>)
    ensures
        kapanissiz(spec_cdata_guvenli(s)),
    decreases s.len(),
{
    let o = spec_cdata_guvenli(s);
    if s.len() < 3 {
        assert forall|i: int| !#[trigger] kapanis(o, i) by {
            if kapanis(o, i) {
                assert(o == s);
            }
        }
    } else if kapanis(s, 0) {
        let r = spec_cdata_guvenli(s.skip(3));
        cdata_guvenli_kapanis_birakmaz(s.skip(3));
        let bas = seq![']', ']', '&', 'g', 't', ';'];
        assert(o == bas + r);
        assert forall|i: int| !#[trigger] kapanis(o, i) by {
            if kapanis(o, i) {
                if i >= 6 {
                    assert(kapanis(r, i - 6));
                } else if i >= 4 {
                    assert(o[i + 1] == ']');
                    assert(false);
                } else {
                    assert(o[i + 2] != '>');
                }
            }
        }
    } else {
        let t = s.skip(1);
        let r = spec_cdata_guvenli(t);
        cdata_guvenli_kapanis_birakmaz(t);
        cdata_bas(t);
        assert(o == seq![s[0]] + r);
        assert forall|i: int| !#[trigger] kapanis(o, i) by {
            if kapanis(o, i) {
                if i >= 1 {
                    assert(kapanis(r, i - 1));
                } else {
                    assert(r[0] == ']' && r[1] == '>');
                    assert(t[0] == ']');
                    if kapanis(t, 0) {
                        assert(r[1] == ']');
                    } else {
                        assert(t[1] == '>');
                        assert(kapanis(s, 0));
                    }
                }
            }
        }
    }
}

/// Text that holds no `]]>` goes into CDATA unchanged.
pub proof fn cdata_guvenli_temiz_metne_dokunmaz(s: Seq<char>)
    requires
        kapanissiz(s),
    ensures
        spec_cdata_guvenli(s) == s,
    decreases s.len(),
{
    if s.len() >= 3 {
        assert(!kapanis(s, 0));
        let t = s.skip(1);
        assert forall|i: int| !#[trigger] kapanis(t, i) by {
            if kapanis(t, i) {
                assert(kapanis(s, i + 1));
            }
        }
        cdata_guvenli_temiz_metne_dokunmaz(t);
        assert(seq![s[0]] + t =~= s);
    }
}


proof fn tavan_alt_sinir(x: int)
    ensures
        1000 * binde_tavan(x) >= x,
{
    if x >= 0 {
        assert(1000 * ((x + 999) / 1000) >= x) by (nonlinear_arith)
            requires x >= 0;
    } else {
        assert(1000 * (-((-x) / 1000)) >= x) by (nonlinear_arith)
            requires x < 0;
    }
}

proof fn yuvarla_alt_sinir(p: int, q: int, b: int)
    requires
        q >= 1,
        p >= b * q,
        b >= 0,
    ensures
        yuvarla(p, q) >= b,
{
    assert((2 * p + q) / (2 * q) >= b) by (nonlinear_arith)
        requires q >= 1, p >= b * q, b >= 0;
}

proof fn yuvarla_ust_sinir(a: int, q: int, p: int)
    requires
        1 <= a < q,
        p >= 1,
    ensures
        yuvarla(p * a, q) <= p,
{
    assert((2 * (p * a) + q) / (2 * q) <= p) by (nonlinear_arith)
        requires 1 <= a < q, p >= 1;
}

proof fn cift_genislik_sinir(w: int, pw: int)
    requires
        1 <= w <= pw,
    ensures
        w <= cift_genislik(w, pw) <= pw,
{
}

proof fn cift_genislik_monoton(w1: int, w2: int, pw: int)
    requires
        w1 <= w2,
    ensures
        cift_genislik(w1, pw) <= cift_genislik(w2, pw),
{
}

/// A quality step keeps each side of a reduced picture at no fewer pixels than the step's
/// pixels per point of that side's place on the page, never enlarges a picture, and leaves
/// a picture that already fits the page untouched. This holds on any page with a usable
/// area.
pub proof fn kalite_yeri_korur(px_w: u32, px_h: u32, k: Kalite, page: PageFormat)
    requires
        px_w > 0,
        px_h > 0,
        page.spec_usable_width() > 0,
        page.spec_usable_height() > 0,
    ensures
        ({
            let (dw, dh) = spec_goruntuleme_boyutu(px_w, px_h, Sizing::FitPage, page, 1000);
            let c = nokta_basina_piksel(k);
            indirgeme_olcusu(px_w, px_h, k, page) matches Some((nw, nh)) ==> {
                &&& 1000 * nw >= dw * c
                &&& 1000 * nh >= dh * c
                &&& 1 <= nw <= px_w
                &&& 1 <= nh <= px_h
            }
        }),
        100 * px_w <= page.spec_usable_width() && 100 * px_h <= page.spec_usable_height()
            ==> indirgeme_olcusu(px_w, px_h, k, page) is None,
{
    sayfaya_sigdirma(px_w, px_h, page, 1000);
    let (dw, dh) = spec_goruntuleme_boyutu(px_w, px_h, Sizing::FitPage, page, 1000);
    let c = nokta_basina_piksel(k);
    let pw = px_w as int;
    let ph = px_h as int;
    if k != Kalite::Orijinal {
        assert(1 <= c <= 3);
        let a = en_az_piksel(dw, k);
        let b = en_az_piksel(dh, k);
        tavan_alt_sinir(dw * c);
        tavan_alt_sinir(dh * c);
        assert(1000 * a >= dw * c);
        assert(1000 * b >= dh * c);
        if !(a >= pw || b >= ph) {
            if a * ph >= b * pw {
                yuvarla_alt_sinir(ph * a, pw, b);
                yuvarla_ust_sinir(a, pw, ph);
                assert(ph * a == a * ph) by (nonlinear_arith);
                cift_genislik_sinir(a, pw);
            } else {
                yuvarla_alt_sinir(pw * b, ph, a);
                yuvarla_ust_sinir(b, ph, pw);
                assert(pw * b == b * pw) by (nonlinear_arith);
                let w = yuvarla(pw * b, ph);
                cift_genislik_sinir(if w < 1 { 1 } else { w }, pw);
            }
        }
        if 100 * px_w <= page.spec_usable_width() && 100 * px_h <= page.spec_usable_height() {
            yuvarla_tam(pw * 1000);
            assert(dw == 1000 * pw) by {
                assert(pw * 1000 == 1000 * pw);
            }
            assert(binde_tavan(1000 * pw * c) == pw * c) by (nonlinear_arith)
                requires pw >= 1, c >= 1;
            assert(1000 * pw * c == dw * c) by (nonlinear_arith)
                requires dw == 1000 * pw;
            assert(a == pw * c);
            assert(pw * c >= pw) by (nonlinear_arith)
                requires pw >= 1, c >= 1;
        }
    }
}


proof fn yuvarla_kat(a: int, q: int)
    requires
        q >= 1,
        a >= 0,
    ensures
        yuvarla(a * q, q) == a,
{
    assert(a * q >= 0) by (nonlinear_arith)
        requires q >= 1, a >= 0;
    assert((2 * (a * q) + q) / (2 * q) == a) by (nonlinear_arith)
        requires q >= 1, a >= 0;
}

proof fn carp_korur(x: int, y: int, q: int)
    requires
        x <= y,
        q >= 0,
    ensures
        x * q <= y * q,
{
    assert(x * q <= y * q) by (nonlinear_arith)
        requires x <= y, q >= 0;
}

proof fn en_az_piksel_artar(d: int, k1: Kalite, k2: Kalite)
    requires
        d >= 0,
        nokta_basina_piksel(k1) <= nokta_basina_piksel(k2),
    ensures
        en_az_piksel(d, k1) <= en_az_piksel(d, k2),
{
    let c1 = nokta_basina_piksel(k1);
    let c2 = nokta_basina_piksel(k2);
    assert(0 <= c1);
    assert(0 <= d * c1 <= d * c2) by (nonlinear_arith)
        requires d >= 0, 0 <= c1 <= c2;
    assert((d * c1 + 999) / 1000 <= (d * c2 + 999) / 1000) by (nonlinear_arith)
        requires 0 <= d * c1 <= d * c2;
}

/// One side of a reduced picture never has more pixels at a step with fewer pixels per
/// point: going down the steps (Optimal, Medium, Small) never makes a picture larger, and a
/// step that keeps a picture keeps it at least as large as any lower step makes it.
pub proof fn basamak_sirasi(px_w: u32, px_h: u32, k1: Kalite, k2: Kalite, page: PageFormat)
    requires
        px_w > 0,
        px_h > 0,
        page.spec_usable_width() > 0,
        page.spec_usable_height() > 0,
        k1 != Kalite::Orijinal,
        nokta_basina_piksel(k1) <= nokta_basina_piksel(k2),
    ensures
        indirgeme_olcusu(px_w, px_h, k1, page) matches Some((w1, h1)) ==> match indirgeme_olcusu(
            px_w,
            px_h,
            k2,
            page,
        ) {
            Some((w2, h2)) => w1 <= w2 && h1 <= h2,
            None => w1 <= px_w && h1 <= px_h,
        },
{
    kalite_yeri_korur(px_w, px_h, k1, page);
    sayfaya_sigdirma(px_w, px_h, page, 1000);
    let (dw, dh) = spec_goruntuleme_boyutu(px_w, px_h, Sizing::FitPage, page, 1000);
    let pw = px_w as int;
    let ph = px_h as int;
    let a1 = en_az_piksel(dw, k1);
    let b1 = en_az_piksel(dh, k1);
    let a2 = en_az_piksel(dw, k2);
    let b2 = en_az_piksel(dh, k2);
    en_az_piksel_artar(dw, k1, k2);
    en_az_piksel_artar(dh, k1, k2);
    if indirgeme_olcusu(px_w, px_h, k1, page) is Some && indirgeme_olcusu(px_w, px_h, k2, page) is Some {
        assert(k2 != Kalite::Orijinal);
        assert(1 <= a1 <= a2 < pw);
        assert(1 <= b1 <= b2 < ph);
        let ust1 = a1 * ph >= b1 * pw;
        let ust2 = a2 * ph >= b2 * pw;
        assert(a1 * ph <= a2 * ph && b1 * pw <= b2 * pw) by (nonlinear_arith)
            requires a1 <= a2, b1 <= b2, ph >= 1, pw >= 1;
        assert(pw * b1 <= pw * b2 && ph * a1 <= ph * a2) by (nonlinear_arith)
            requires a1 <= a2, b1 <= b2, ph >= 1, pw >= 1;
        // widths
        assert(b1 * pw == pw * b1 && b2 * pw == pw * b2 && a1 * ph == ph * a1 && a2 * ph == ph * a2)
            by (nonlinear_arith);
        if ust1 && !ust2 {
            yuvarla_kat(a1, ph);
            carp_korur(a1 * ph, pw * b2, ph);
            yuvarla_monoton(a1 * ph, ph, pw * b2, ph);
        } else if !ust1 && ust2 {
            yuvarla_kat(a2, ph);
            carp_korur(pw * b1, a2 * ph, ph);
            yuvarla_monoton(pw * b1, ph, a2 * ph, ph);
        } else if !ust1 && !ust2 {
            carp_korur(pw * b1, pw * b2, ph);
            yuvarla_monoton(pw * b1, ph, pw * b2, ph);
        }
        let g1 = yuvarla(pw * b1, ph);
        let g2 = yuvarla(pw * b2, ph);
        let ham1 = if ust1 { a1 } else if g1 < 1 { 1 } else { g1 };
        let ham2 = if ust2 { a2 } else if g2 < 1 { 1 } else { g2 };
        assert(ham1 <= ham2);
        cift_genislik_monoton(ham1, ham2, pw);
        // heights
        if ust1 && !ust2 {
            yuvarla_kat(b2, pw);
            carp_korur(ph * a1, b2 * pw, pw);
            yuvarla_monoton(ph * a1, pw, b2 * pw, pw);
        } else if !ust1 && ust2 {
            yuvarla_kat(b1, pw);
            carp_korur(b1 * pw, ph * a2, pw);
            yuvarla_monoton(b1 * pw, pw, ph * a2, pw);
        } else if ust1 && ust2 {
            carp_korur(ph * a1, ph * a2, pw);
            yuvarla_monoton(ph * a1, pw, ph * a2, pw);
        }
    }
}


/// The six-bit value of a character of the standard base64 alphabet.
pub open spec fn base64_degeri(c: char) -> int {
    if 'A' <= c <= 'Z' {
        c as int - 65
    } else if 'a' <= c <= 'z' {
        c as int - 97 + 26
    } else if '0' <= c <= '9' {
        c as int - 48 + 52
    } else if c == '+' {
        62
    } else {
        63
    }
}

/// Padded standard base64 text read back into bytes: each group of four characters gives
/// three bytes, one fewer for each `=` at its end.
pub open spec fn base64_coz(t: Seq<char>) -> Seq<u8>
    decreases t.len(),
{
    if t.len() < 4 {
        Seq::empty()
    } else {
        let a = base64_degeri(t[0]);
        let b = base64_degeri(t[1]);
        let c = base64_degeri(t[2]);
        let d = base64_degeri(t[3]);
        let x = (a * 4 + b / 16) as u8;
        let y = ((b % 16) * 16 + c / 4) as u8;
        let z = ((c % 4) * 64 + d) as u8;
        if t[2] == '=' {
            seq![x]
        } else if t[3] == '=' {
            seq![x, y]
        } else {
            seq![x, y, z] + base64_coz(t.skip(4))
        }
    }
}

proof fn base64_harfi_degeri(n: int)
    requires
        0 <= n < 64,
    ensures
        base64_degeri(base64_harfi(n)) == n,
        base64_harfi(n) != '=',
{
}

/// Base64 text read back gives the bytes it was made from: the picture data a document
/// holds (see [`resimler_sirayla_girer`]) is the picture's bytes, unchanged.
pub proof fn base64_geri_cozulur(b: Seq<u8>)
    ensures
        base64_coz(base64_standart(b)) == b,
    decreases b.len(),
{
    if b.len() == 0 {
        assert(base64_coz(base64_standart(b)) =~= b);
    } else {
        let x = b[0] as int;
        let y = if b.len() >= 2 { b[1] as int } else { 0 };
        let z = if b.len() >= 3 { b[2] as int } else { 0 };
        let a = x / 4;
        let bb = (x % 4) * 16 + y / 16;
        let c = (y % 16) * 4 + z / 64;
        let d = z % 64;
        base64_harfi_degeri(a);
        base64_harfi_degeri(bb);
        base64_harfi_degeri(c);
        base64_harfi_degeri(d);
        assert(a * 4 + bb / 16 == x) by (nonlinear_arith)
            requires 0 <= x < 256, 0 <= y < 256, a == x / 4, bb == (x % 4) * 16 + y / 16;
        assert((bb % 16) * 16 + c / 4 == y) by (nonlinear_arith)
            requires 0 <= x < 256, 0 <= y < 256, 0 <= z < 256, bb == (x % 4) * 16 + y / 16,
                c == (y % 16) * 4 + z / 64;
        assert((c % 4) * 64 + d == z) by (nonlinear_arith)
            requires 0 <= y < 256, 0 <= z < 256, c == (y % 16) * 4 + z / 64, d == z % 64;
        let t = base64_standart(b);
        if b.len() == 1 {
            assert(base64_coz(t) =~= b);
        } else if b.len() == 2 {
            assert(base64_coz(t) =~= b);
        } else {
            base64_geri_cozulur(b.skip(3));
            assert(t.skip(4) =~= base64_standart(b.skip(3)));
            assert(base64_coz(t) =~= b);
        }
    }
}

} // verus!
