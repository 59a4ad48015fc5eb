//! Document model to `content.xml`.
//!
//! The CDATA inside `<content>` is the plain text of the document; every element under
//! `<elements>` is tied to that text by `startOffset` and `length`, counted in code points.
//! A picture stands in the text as U+FFFC, an empty paragraph and a page break as U+200B,
//! and every paragraph ends with a line feed.

use vstd::prelude::*;
use crate::metin::{
    isaretli, isaretli_ekle, karakter_ekle, karakterler, karakterlerden, kisa_sayi,
    kisa_sayi_ekle, onda_bir, onda_bir_ekle, ondalik, sayi_ekle, yuzde_bir, yuzde_bir_ekle,
};
use crate::udf::model::{
    Alignment, Block, BlockView, Document, DocumentView, ImageRun, ImageView, PageFormat, Paragraph,
    ParagraphView, Run, RunView, StyleView, TextStyle, ARKA_PLAN_YOK, SIYAH,
};

verus! {

/// The XML attribute escape of one character.
pub open spec fn kacis_karakteri(c: char) -> Seq<char> {
    if c == '&' {
        "&amp;"@
    } else if c == '<' {
        "&lt;"@
    } else if c == '>' {
        "&gt;"@
    } else if c == '"' {
        "&quot;"@
    } else {
        seq![c]
    }
}

/// XML attribute escape: `&`, `<`, `>` and `"` become entity references, every other
/// character stays.
pub open spec fn spec_esc(s: Seq<char>) -> Seq<char>
    decreases s.len(),
{
    if s.len() == 0 {
        Seq::empty()
    } else {
        spec_esc(s.drop_last()) + kacis_karakteri(s.last())
    }
}

/// XML attribute escape (not applied to CDATA text).
pub fn esc(v: &str) -> (r: String)
    ensures
        r@ == spec_esc(v@),
{
    let mut r = String::new();
    for c in it: v.chars()
        invariant
            it.seq() == v@,
            r@ == spec_esc(it.seq().take(it.index() as int)),
    {
        let ghost once = r@;
        let ghost i = it.index();
        assert(v@.take(i + 1).drop_last() =~= v@.take(i as int));
        if c == '&' {
            r.append("&amp;");
        } else if c == '<' {
            r.append("&lt;");
        } else if c == '>' {
            r.append("&gt;");
        } else if c == '"' {
            r.append("&quot;");
        } else {
            karakter_ekle(&mut r, c);
            assert(r@ =~= once + seq![c]);
        }
    }
    assert(v@.take(v@.len() as int) =~= v@);
    r
}

/// Breaks every `]]>` (which would close a CDATA section early) into `]]&gt;`, scanning
/// left to right.
pub open spec fn spec_cdata_guvenli(s: Seq<char>) -> Seq<char>
    decreases s.len(),
{
    if s.len() < 3 {
        s
    } else if s[0] == ']' && s[1] == ']' && s[2] == '>' {
        seq![']', ']', '&', 'g', 't', ';'] + spec_cdata_guvenli(s.skip(3))
    } else {
        seq![s[0]] + spec_cdata_guvenli(s.skip(1))
    }
}

/// Makes text safe inside a CDATA section: every `]]>` becomes `]]&gt;`.
pub fn cdata_guvenli(text: &str) -> (r: String)
    ensures
        r@ == spec_cdata_guvenli(text@),
{
    let v = karakterler(text);
    let n = v.len();
    let mut out: Vec<char> = Vec::new();
    let mut i: usize = 0;
    assert(v@.skip(0) =~= v@);
    assert(out@ + spec_cdata_guvenli(v@) =~= spec_cdata_guvenli(v@));
    while i < n
        invariant
            v@ == text@,
            n == v@.len(),
            i <= n,
            out@ + spec_cdata_guvenli(v@.skip(i as int)) == spec_cdata_guvenli(v@),
        decreases n - i,
    {
        let ghost kalan = v@.skip(i as int);
        if n - i >= 3 && v[i] == ']' && v[i + 1] == ']' && v[i + 2] == '>' {
            assert(kalan.skip(3) =~= v@.skip(i + 3));
            out.push(']');
            out.push(']');
            out.push('&');
            out.push('g');
            out.push('t');
            out.push(';');
            i = i + 3;
        } else {
            proof {
                assert(kalan.skip(1) =~= v@.skip(i + 1));
                if kalan.len() < 3 {
                    assert(spec_cdata_guvenli(kalan) == kalan);
                    assert(spec_cdata_guvenli(kalan.skip(1)) == kalan.skip(1));
                    assert(kalan =~= seq![kalan[0]] + kalan.skip(1));
                }
            }
            out.push(v[i]);
            i = i + 1;
        }
        assert(out@ + spec_cdata_guvenli(v@.skip(i as int)) =~= spec_cdata_guvenli(v@));
    }
    assert(v@.skip(n as int) =~= Seq::<char>::empty());
    assert(out@ =~= spec_cdata_guvenli(v@));
    karakterlerden(&out)
}


/// Where a picture stands in the CDATA text: OBJECT REPLACEMENT CHARACTER.
pub const OBJECT_REPLACEMENT: char = '\u{FFFC}';

/// What an empty paragraph and a page break put in the CDATA text: ZERO WIDTH SPACE.
pub const ZERO_WIDTH_SPACE: char = '\u{200B}';

// ---------------------------------------------------------------------------
// The CDATA text
// ---------------------------------------------------------------------------

/// The text a run contributes: U+FFFC for a picture, its characters for text.
pub open spec fn run_cdata(r: RunView) -> Seq<char> {
    match r {
        RunView::Image(_) => seq![OBJECT_REPLACEMENT],
        RunView::Text(t, _) => t,
    }
}

/// The text of a sequence of runs, one after the other.
pub open spec fn runs_cdata(rs: Seq<RunView>) -> Seq<char>
    decreases rs.len(),
{
    if rs.len() == 0 {
        Seq::empty()
    } else {
        runs_cdata(rs.drop_last()) + run_cdata(rs.last())
    }
}

/// The text of a paragraph: its runs (U+200B when it has none) and a line feed.
pub open spec fn paragraph_cdata(p: ParagraphView) -> Seq<char> {
    if p.runs.len() == 0 {
        seq![ZERO_WIDTH_SPACE, '\n']
    } else {
        runs_cdata(p.runs).push('\n')
    }
}

/// The text of a block: a paragraph's text, or U+200B and a line feed for a page break.
pub open spec fn block_cdata(b: BlockView) -> Seq<char> {
    match b {
        BlockView::Paragraph(p) => paragraph_cdata(p),
        BlockView::PageBreak => seq![ZERO_WIDTH_SPACE, '\n'],
    }
}

/// The CDATA text of a body: the texts of its blocks, one after the other.
pub open spec fn body_cdata(bs: Seq<BlockView>) -> Seq<char>
    decreases bs.len(),
{
    if bs.len() == 0 {
        Seq::empty()
    } else {
        body_cdata(bs.drop_last()) + block_cdata(bs.last())
    }
}

// ---------------------------------------------------------------------------
// The element tree
// ---------------------------------------------------------------------------

/// The opening tag of a paragraph.
pub open spec fn paragraph_open(al: Alignment, left: int, right: int) -> Seq<char> {
    "<paragraph Alignment=\""@ + ondalik(al.spec_sayi() as nat) + "\" LeftIndent=\""@
        + onda_bir(left) + "\" RightIndent=\""@ + onda_bir(right) + "\">"@
}

/// The element of a paragraph without runs: two code points from `off`.
pub open spec fn empty_content(off: nat) -> Seq<char> {
    "<content startOffset=\""@ + ondalik(off)
        + "\" length=\"2\" family=\"Times New Roman\" size=\"10\" />"@
}

/// The character attributes of a text run; black foreground and no background are not
/// written.
pub open spec fn font_attrs(s: StyleView) -> Seq<char> {
    let a = " family=\""@ + spec_esc(s.font_family) + "\" size=\""@ + kisa_sayi(s.font_size)
        + "\""@;
    let a = if s.bold { a + " bold=\"true\""@ } else { a };
    let a = if s.italic { a + " italic=\"true\""@ } else { a };
    let a = if s.underline { a + " underline=\"true\""@ } else { a };
    let a = if s.color != SIYAH { a + " foreground=\""@ + isaretli(s.color) + "\""@ } else { a };
    if s.background_color != ARKA_PLAN_YOK {
        a + " background=\""@ + isaretli(s.background_color) + "\""@
    } else {
        a
    }
}

/// The element of a picture standing at `off`.
pub open spec fn image_tag(img: ImageView, off: nat) -> Seq<char> {
    "<image imageData=\""@ + img.data_b64 + "\" startOffset=\""@ + ondalik(off)
        + "\" length=\"1\" width=\""@ + onda_bir(img.width) + "\" height=\""@ + onda_bir(
        img.height,
    ) + "\" />"@
}

/// The element of a run standing at `off`. The last text run of a paragraph also covers
/// the paragraph's line feed; a picture never does.
pub open spec fn run_xml(r: RunView, off: nat, last: bool) -> Seq<char> {
    match r {
        RunView::Text(t, st) => "<content startOffset=\""@ + ondalik(off) + "\" length=\""@
            + ondalik(t.len() + (if last { 1nat } else { 0nat })) + "\""@ + font_attrs(st)
            + " />"@,
        RunView::Image(img) => image_tag(img, off),
    }
}

/// The elements of the first `k` runs of a paragraph whose text starts at `off`.
pub open spec fn runs_xml(rs: Seq<RunView>, off: nat, k: nat) -> Seq<char>
    decreases k,
{
    if k == 0 {
        Seq::empty()
    } else {
        runs_xml(rs, off, (k - 1) as nat) + run_xml(
            rs[k - 1],
            off + runs_cdata(rs.take(k - 1)).len(),
            k == rs.len(),
        )
    }
}

/// A paragraph's element, its text starting at `off`.
pub open spec fn paragraph_xml(p: ParagraphView, off: nat) -> Seq<char> {
    let open = paragraph_open(p.alignment, p.left_indent, p.right_indent);
    if p.runs.len() == 0 {
        open + empty_content(off) + "</paragraph>\n"@
    } else {
        open + runs_xml(p.runs, off, p.runs.len()) + "</paragraph>\n"@
    }
}

/// A page break's element: an empty left-aligned paragraph inside `<page-break>`.
pub open spec fn page_break_xml(off: nat) -> Seq<char> {
    "<page-break>"@ + paragraph_open(Alignment::Left, 0, 0) + empty_content(off)
        + "</paragraph></page-break>\n"@
}

/// A block's element, its text starting at `off`.
pub open spec fn block_xml(b: BlockView, off: nat) -> Seq<char> {
    match b {
        BlockView::Paragraph(p) => paragraph_xml(p, off),
        BlockView::PageBreak => page_break_xml(off),
    }
}

/// The elements of a body; each block's offset is the length of the text before it.
pub open spec fn body_xml(bs: Seq<BlockView>) -> Seq<char>
    decreases bs.len(),
{
    if bs.len() == 0 {
        Seq::empty()
    } else {
        body_xml(bs.drop_last()) + block_xml(bs.last(), body_cdata(bs.drop_last()).len())
    }
}

/// The `<properties>` element of a page setup.
pub open spec fn page_format_xml(pf: PageFormat) -> Seq<char> {
    "<properties><pageFormat mediaSizeName=\""@ + isaretli(pf.media_size_name as int)
        + "\" leftMargin=\""@ + yuzde_bir(pf.left_margin as int) + "\" rightMargin=\""@
        + yuzde_bir(pf.right_margin as int) + "\" topMargin=\""@ + yuzde_bir(
        pf.top_margin as int,
    ) + "\" bottomMargin=\""@ + yuzde_bir(pf.bottom_margin as int) + "\" paperOrientation=\""@
        + isaretli(pf.paper_orientation as int) + "\" headerFOffset=\""@ + onda_bir(
        pf.header_foffset as int,
    ) + "\" footerFOffset=\""@ + onda_bir(pf.footer_foffset as int) + "\" /></properties>"@
}

/// The fixed `<styles>` element.
pub open spec fn styles_xml() -> Seq<char> {
    "<styles>"@
        + "<style name=\"default\" description=\"Geçerli\" family=\"Dialog\" size=\"12\" bold=\"false\" italic=\"false\" foreground=\"-13421773\" FONT_ATTRIBUTE_KEY=\"javax.swing.plaf.FontUIResource[family=Dialog,name=Dialog,style=plain,size=12]\" />"@
        + "<style name=\"hvl-default\" family=\"Times New Roman\" size=\"12\" description=\"Gövde\" />"@
        + "</styles>\n"@
}

/// The whole `content.xml` of a document.
pub open spec fn spec_serialize(doc: DocumentView) -> Seq<char> {
    "<?xml version=\"1.0\" encoding=\"UTF-8\" ?>\n"@ + "<template format_id=\"1.8\">\n"@
        + "<content><![CDATA["@ + body_cdata(doc.body) + "]]></content>"@ + page_format_xml(
        doc.pages,
    ) + "\n"@ + "<elements resolver=\"hvl-default\">\n"@ + body_xml(doc.body)
        + "</elements>\n"@ + styles_xml() + "</template>"@
}

// ---------------------------------------------------------------------------
// Writers
// ---------------------------------------------------------------------------

fn paragraph_open_yaz(el: &mut String, al: Alignment, left: i64, right: i64)
    ensures
        final(el)@ == old(el)@ + paragraph_open(al, left as int, right as int),
{
    let ghost e0 = el@;
    el.append("<paragraph Alignment=\"");
    sayi_ekle(el, al.sayi());
    el.append("\" LeftIndent=\"");
    onda_bir_ekle(el, left);
    el.append("\" RightIndent=\"");
    onda_bir_ekle(el, right);
    el.append("\">");
    assert(el@ =~= e0 + paragraph_open(al, left as int, right as int));
}

fn empty_content_yaz(el: &mut String, off: usize)
    ensures
        final(el)@ == old(el)@ + empty_content(off as nat),
{
    let ghost e0 = el@;
    el.append("<content startOffset=\"");
    sayi_ekle(el, off as u64);
    el.append("\" length=\"2\" family=\"Times New Roman\" size=\"10\" />");
    assert(el@ =~= e0 + empty_content(off as nat));
}

proof fn birlesme(a: Seq<char>, b: Seq<char>, c: Seq<char>)
    ensures
        (a + b) + c == a + (b + c),
{
    assert((a + b) + c =~= a + (b + c));
}

/// Appends `lit` when `b` holds.
fn eger_ekle(el: &mut String, b: bool, lit: &str)
    ensures
        final(el)@ == (if b { old(el)@ + lit@ } else { old(el)@ }),
{
    if b {
        el.append(lit);
    }
}

/// Appends ` name="value"` for a colour unless it has its default value.
fn renk_ekle(el: &mut String, acilis: &str, v: i32, varsayilan: i32)
    ensures
        final(el)@ == (if v != varsayilan {
            old(el)@ + acilis@ + isaretli(v as int) + "\""@
        } else {
            old(el)@
        }),
{
    if v != varsayilan {
        el.append(acilis);
        isaretli_ekle(el, v as i64);
        el.append("\"");
    }
}

fn font_attrs_yaz(el: &mut String, s: &TextStyle)
    ensures
        final(el)@ == old(el)@ + font_attrs(s.view()),
{
    let ghost e0 = el@;
    let kacik = esc(s.font_family.as_str());
    let mut a = String::from_str(" family=\"");
    a.append(kacik.as_str());
    a.append("\" size=\"");
    kisa_sayi_ekle(&mut a, s.font_size);
    a.append("\"");
    eger_ekle(&mut a, s.bold, " bold=\"true\"");
    eger_ekle(&mut a, s.italic, " italic=\"true\"");
    eger_ekle(&mut a, s.underline, " underline=\"true\"");
    renk_ekle(&mut a, " foreground=\"", s.color, SIYAH);
    renk_ekle(&mut a, " background=\"", s.background_color, ARKA_PLAN_YOK);
    assert(a@ == font_attrs(s.view()));
    el.append(a.as_str());
}

fn image_tag_yaz(el: &mut String, img: &ImageRun, off: usize)
    ensures
        final(el)@ == old(el)@ + image_tag(img.view(), off as nat),
{
    let ghost e0 = el@;
    el.append("<image imageData=\"");
    el.append(img.data_b64.as_str());
    el.append("\" startOffset=\"");
    sayi_ekle(el, off as u64);
    el.append("\" length=\"1\" width=\"");
    onda_bir_ekle(el, img.width);
    el.append("\" height=\"");
    onda_bir_ekle(el, img.height);
    el.append("\" />");
    assert(el@ =~= e0 + image_tag(img.view(), off as nat));
}

/// Writes one run: its text (and the paragraph's line feed when it is the last run) onto
/// `cdata`, its element onto `el`.
fn run_yaz(r: &Run, last: bool, cdata: &mut Vec<char>, el: &mut String)
    ensures
        final(cdata)@ == old(cdata)@ + run_cdata(r.view()) + (if last {
            seq!['\n']
        } else {
            Seq::<char>::empty()
        }),
        final(el)@ == old(el)@ + run_xml(r.view(), old(cdata)@.len(), last),
{
    let ghost c0 = cdata@;
    let ghost e0 = el@;
    let off = cdata.len();
    match r {
        Run::Image(img) => {
            cdata.push(OBJECT_REPLACEMENT);
            if last {
                cdata.push('\n');
            }
            image_tag_yaz(el, img, off);
            assert(cdata@ =~= c0 + run_cdata(r.view()) + (if last {
                seq!['\n']
            } else {
                Seq::<char>::empty()
            }));
        },
        Run::Text(t) => {
            for c in it: t.text.chars()
                invariant
                    it.seq() == t.text@,
                    cdata@ == c0 + it.seq().take(it.index() as int),
            {
                cdata.push(c);
            }
            assert(t.text@.take(t.text@.len() as int) =~= t.text@);
            if last {
                cdata.push('\n');
            }
            assert(cdata@ =~= c0 + run_cdata(r.view()) + (if last {
                seq!['\n']
            } else {
                Seq::<char>::empty()
            }));
            let len = cdata.len() - off;
            let mut x = String::from_str("<content startOffset=\"");
            sayi_ekle(&mut x, off as u64);
            x.append("\" length=\"");
            sayi_ekle(&mut x, len as u64);
            x.append("\"");
            font_attrs_yaz(&mut x, &t.style);
            x.append(" />");
            assert(x@ == run_xml(r.view(), off as nat, last));
            el.append(x.as_str());
        },
    }
}

/// Writes one paragraph: its text onto `cdata`, its element onto `el`.
fn paragraph_yaz(p: &Paragraph, cdata: &mut Vec<char>, el: &mut String)
    ensures
        final(cdata)@ == old(cdata)@ + paragraph_cdata(p.view()),
        final(el)@ == old(el)@ + paragraph_xml(p.view(), old(cdata)@.len()),
{
    let ghost c0 = cdata@;
    let ghost e0 = el@;
    let ghost o = cdata@.len();
    let ghost rs = p.view().runs;
    paragraph_open_yaz(el, p.alignment, p.left_indent, p.right_indent);
    let ghost e1 = el@;
    let n = p.runs.len();
    if n == 0 {
        empty_content_yaz(el, cdata.len());
        cdata.push(ZERO_WIDTH_SPACE);
        cdata.push('\n');
        el.append("</paragraph>\n");
        assert(cdata@ =~= c0 + paragraph_cdata(p.view()));
        assert(el@ =~= e0 + paragraph_xml(p.view(), o));
    } else {
        let mut i: usize = 0;
        assert(rs.take(0) =~= Seq::<RunView>::empty());
        while i < n
            invariant
                rs == p.runs@.map_values(|r: Run| r.view()),
                n == p.runs@.len(),
                n == rs.len(),
                n > 0,
                i <= n,
                o == c0.len(),
                cdata@ == c0 + runs_cdata(rs.take(i as int)) + (if i == n {
                    seq!['\n']
                } else {
                    Seq::<char>::empty()
                }),
                el@ == e1 + runs_xml(rs, o, i as nat),
            decreases n - i,
        {
            let ghost ci = cdata@;
            let ghost ei = el@;
            assert(ci =~= c0 + runs_cdata(rs.take(i as int)));
            assert(rs.take(i + 1).drop_last() =~= rs.take(i as int));
            let off = cdata.len();
            let last = i + 1 == n;
            run_yaz(&p.runs[i], last, cdata, el);
            i = i + 1;
            proof {
                let x = run_xml(rs[i - 1], off as nat, last);
                assert(off == o + runs_cdata(rs.take(i - 1)).len());
                birlesme(e1, runs_xml(rs, o, (i - 1) as nat), x);
                assert(runs_cdata(rs.take(i as int)) == runs_cdata(rs.take(i - 1)) + run_cdata(
                    rs[i - 1],
                ));
                birlesme(c0, runs_cdata(rs.take(i - 1)), run_cdata(rs[i - 1]));
                if i == n {
                    assert(cdata@ =~= c0 + runs_cdata(rs.take(i as int)) + seq!['\n']);
                } else {
                    assert(cdata@ =~= c0 + runs_cdata(rs.take(i as int)));
                }
            }
        }
        el.append("</paragraph>\n");
        assert(rs.take(n as int) =~= rs);
        assert(cdata@ =~= c0 + paragraph_cdata(p.view()));
        assert(el@ =~= e0 + paragraph_xml(p.view(), o));
    }
}

/// Turns a document into the text of `content.xml`.
pub fn serialize(doc: &Document) -> (xml: String)
    ensures
        xml@ == spec_serialize(doc.view()),
{
    let ghost bs = doc.view().body;
    let mut cdata: Vec<char> = Vec::new();
    let mut elements = String::new();
    let n = doc.body.len();
    let mut i: usize = 0;
    assert(bs.take(0) =~= Seq::<BlockView>::empty());
    while i < n
        invariant
            bs == doc.body@.map_values(|b: Block| b.view()),
            n == doc.body@.len(),
            n == bs.len(),
            i <= n,
            cdata@ == body_cdata(bs.take(i as int)),
            elements@ == body_xml(bs.take(i as int)),
        decreases n - i,
    {
        let ghost c0 = cdata@;
        let ghost e0 = elements@;
        assert(bs.take(i + 1).drop_last() =~= bs.take(i as int));
        let off = cdata.len();
        match &doc.body[i] {
            Block::Paragraph(p) => {
                paragraph_yaz(p, &mut cdata, &mut elements);
            },
            Block::PageBreak => {
                elements.append("<page-break>");
                paragraph_open_yaz(&mut elements, Alignment::Left, 0, 0);
                empty_content_yaz(&mut elements, off);
                elements.append("</paragraph></page-break>\n");
                cdata.push(ZERO_WIDTH_SPACE);
                cdata.push('\n');
                assert(elements@ =~= e0 + page_break_xml(off as nat));
                assert(cdata@ =~= c0 + seq![ZERO_WIDTH_SPACE, '\n']);
            },
        }
        i = i + 1;
        assert(cdata@ =~= body_cdata(bs.take(i as int)));
        assert(elements@ =~= body_xml(bs.take(i as int)));
    }
    assert(bs.take(n as int) =~= bs);
    let mut xml = String::from_str("<?xml version=\"1.0\" encoding=\"UTF-8\" ?>\n");
    xml.append("<template format_id=\"1.8\">\n");
    xml.append("<content><![CDATA[");
    let metin = karakterlerden(&cdata);
    xml.append(metin.as_str());
    xml.append("]]></content>");
    page_format_yaz(&mut xml, &doc.pages);
    xml.append("\n");
    xml.append("<elements resolver=\"hvl-default\">\n");
    xml.append(elements.as_str());
    xml.append("</elements>\n");
    styles_yaz(&mut xml);
    xml.append("</template>");
    assert(xml@ =~= spec_serialize(doc.view()));
    xml
}

fn page_format_yaz(xml: &mut String, pf: &PageFormat)
    ensures
        final(xml)@ == old(xml)@ + page_format_xml(*pf),
{
    let ghost x0 = xml@;
    xml.append("<properties><pageFormat mediaSizeName=\"");
    isaretli_ekle(xml, pf.media_size_name as i64);
    xml.append("\" leftMargin=\"");
    yuzde_bir_ekle(xml, pf.left_margin as i64);
    xml.append("\" rightMargin=\"");
    yuzde_bir_ekle(xml, pf.right_margin as i64);
    xml.append("\" topMargin=\"");
    yuzde_bir_ekle(xml, pf.top_margin as i64);
    xml.append("\" bottomMargin=\"");
    yuzde_bir_ekle(xml, pf.bottom_margin as i64);
    xml.append("\" paperOrientation=\"");
    isaretli_ekle(xml, pf.paper_orientation as i64);
    xml.append("\" headerFOffset=\"");
    onda_bir_ekle(xml, pf.header_foffset as i64);
    xml.append("\" footerFOffset=\"");
    onda_bir_ekle(xml, pf.footer_foffset as i64);
    xml.append("\" /></properties>");
    assert(xml@ =~= x0 + page_format_xml(*pf));
}

fn styles_yaz(xml: &mut String)
    ensures
        final(xml)@ == old(xml)@ + styles_xml(),
{
    let ghost x0 = xml@;
    xml.append("<styles>");
    xml.append(
        "<style name=\"default\" description=\"Geçerli\" family=\"Dialog\" size=\"12\" bold=\"false\" italic=\"false\" foreground=\"-13421773\" FONT_ATTRIBUTE_KEY=\"javax.swing.plaf.FontUIResource[family=Dialog,name=Dialog,style=plain,size=12]\" />",
    );
    xml.append(
        "<style name=\"hvl-default\" family=\"Times New Roman\" size=\"12\" description=\"Gövde\" />",
    );
    xml.append("</styles>\n");
    assert(xml@ =~= x0 + styles_xml());
}

} // verus!
