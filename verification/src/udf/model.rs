//! The UDF document model.
//!
//! Every length is held as an integer in the unit of the precision with which
//! `content.xml` writes it: page margins in hundredths of a point, header and footer
//! offsets, indents and picture sizes in tenths of a point, font sizes in hundredths.

use vstd::prelude::*;

verus! {

/// Paragraph alignment (the numeric `Alignment` value of `content.xml`).
#[derive(Debug, Clone, Copy, PartialEq, Eq)]
pub enum Alignment {
    Left,
    Center,
    Right,
    Justify,
}

impl Alignment {
    /// The number that `content.xml` writes for this alignment.
    pub open spec fn spec_sayi(self) -> int {
        match self {
            Alignment::Left => 0,
            Alignment::Center => 1,
            Alignment::Right => 2,
            Alignment::Justify => 3,
        }
    }

    /// The number that `content.xml` writes for this alignment.
    pub fn sayi(&self) -> (n: u64)
        ensures
            n == self.spec_sayi(),
    {
        match self {
            Alignment::Left => 0,
            Alignment::Center => 1,
            Alignment::Right => 2,
            Alignment::Justify => 3,
        }
    }
}

/// The colour value (a signed ARGB integer) of opaque black, the default foreground.
pub const SIYAH: i32 = -16777216;

/// The background value that stands for "none".
pub const ARKA_PLAN_YOK: i32 = -1;

/// Character style of a text run.
#[derive(Debug, Clone, PartialEq)]
pub struct TextStyle {
    pub font_family: String,
    /// Font size in hundredths of a point (`1200` is 12 pt).
    pub font_size: i64,
    pub bold: bool,
    pub italic: bool,
    pub underline: bool,
    /// Signed ARGB colour; opaque black ([`SIYAH`]) is the default and is not written.
    pub color: i32,
    /// Signed ARGB background; [`ARKA_PLAN_YOK`] is the default and is not written.
    pub background_color: i32,
}

impl Default for TextStyle {
    fn default() -> (r: Self)
        ensures
            r.font_family@ == "Times New Roman"@,
            r.font_size == 1200,
            !r.bold,
            !r.italic,
            !r.underline,
            r.color == SIYAH,
            r.background_color == ARKA_PLAN_YOK,
    {
        TextStyle {
            font_family: String::from_str("Times New Roman"),
            font_size: 1200,
            bold: false,
            italic: false,
            underline: false,
            color: SIYAH,
            background_color: ARKA_PLAN_YOK,
        }
    }
}

/// A picture placed in a paragraph. Its bytes are embedded as they are.
#[derive(Debug, Clone, PartialEq)]
pub struct ImageRun {
    /// Base64 of the picture bytes, with no line breaks and no data-URI prefix.
    pub data_b64: String,
    /// Display width in tenths of a point (independent of the bitmap's resolution).
    pub width: i64,
    /// Display height in tenths of a point.
    pub height: i64,
}

impl TextStyle {
    pub open spec fn view(&self) -> StyleView {
        StyleView {
            font_family: self.font_family@,
            font_size: self.font_size as int,
            bold: self.bold,
            italic: self.italic,
            underline: self.underline,
            color: self.color as int,
            background_color: self.background_color as int,
        }
    }
}

impl ImageRun {
    pub open spec fn view(&self) -> ImageView {
        ImageView {
            data_b64: self.data_b64@,
            width: self.width as int,
            height: self.height as int,
        }
    }
}

#[derive(Debug, Clone, PartialEq)]
pub struct TextRun {
    pub text: String,
    pub style: TextStyle,
}

#[derive(Debug, Clone, PartialEq)]
pub enum Run {
    Image(ImageRun),
    Text(TextRun),
}

impl Run {
    pub open spec fn view(&self) -> RunView {
        match self {
            Run::Image(img) => RunView::Image(img.view()),
            Run::Text(t) => RunView::Text(t.text@, t.style.view()),
        }
    }
}

#[derive(Debug, Clone, PartialEq)]
pub struct Paragraph {
    pub alignment: Alignment,
    /// Left indent in tenths of a point.
    pub left_indent: i64,
    /// Right indent in tenths of a point.
    pub right_indent: i64,
    pub runs: Vec<Run>,
}

impl Default for Paragraph {
    fn default() -> (r: Self)
        ensures
            r.alignment == Alignment::Left,
            r.left_indent == 0,
            r.right_indent == 0,
            r.runs@.len() == 0,
    {
        Paragraph { alignment: Alignment::Left, left_indent: 0, right_indent: 0, runs: Vec::new() }
    }
}

impl Paragraph {
    pub open spec fn view(&self) -> ParagraphView {
        ParagraphView {
            alignment: self.alignment,
            left_indent: self.left_indent as int,
            right_indent: self.right_indent as int,
            runs: self.runs@.map_values(|r: Run| r.view()),
        }
    }
}

#[derive(Debug, Clone, PartialEq)]
pub enum Block {
    Paragraph(Paragraph),
    PageBreak,
}

impl Block {
    pub open spec fn view(&self) -> BlockView {
        match self {
            Block::Paragraph(p) => BlockView::Paragraph(p.view()),
            Block::PageBreak => BlockView::PageBreak,
        }
    }
}

/// A4 page width in hundredths of a point (595.28 pt).
pub const PAGE_WIDTH: i64 = 59528;

/// A4 page height in hundredths of a point (841.89 pt).
pub const PAGE_HEIGHT: i64 = 84189;

/// Page setup.
#[derive(Debug, Clone, Copy, PartialEq, Eq)]
pub struct PageFormat {
    pub media_size_name: i32,
    /// Margins in hundredths of a point.
    pub left_margin: i32,
    pub right_margin: i32,
    pub top_margin: i32,
    pub bottom_margin: i32,
    pub paper_orientation: i32,
    /// Header and footer offsets in tenths of a point.
    pub header_foffset: i32,
    pub footer_foffset: i32,
}

impl Default for PageFormat {
    /// A4 portrait with the editor's default margins.
    fn default() -> (r: Self)
        ensures
            r == PageFormat::a4(),
    {
        PageFormat {
            media_size_name: 1,
            left_margin: 4252,
            right_margin: 2835,
            top_margin: 1417,
            bottom_margin: 1417,
            paper_orientation: 1,
            header_foffset: 200,
            footer_foffset: 200,
        }
    }
}

impl PageFormat {
    /// A4 portrait with the editor's default margins (42.52 / 28.35 / 14.17 / 14.17 pt,
    /// header and footer offsets 20.0 pt).
    pub open spec fn a4() -> PageFormat {
        PageFormat {
            media_size_name: 1,
            left_margin: 4252,
            right_margin: 2835,
            top_margin: 1417,
            bottom_margin: 1417,
            paper_orientation: 1,
            header_foffset: 200,
            footer_foffset: 200,
        }
    }

    /// Width available to text and pictures, in hundredths of a point.
    pub open spec fn spec_usable_width(self) -> int {
        PAGE_WIDTH - self.left_margin - self.right_margin
    }

    /// Height available to text and pictures, in hundredths of a point.
    pub open spec fn spec_usable_height(self) -> int {
        PAGE_HEIGHT - self.top_margin - self.bottom_margin - 10 * self.header_foffset - 10
            * self.footer_foffset
    }

    /// Width available to text and pictures, in hundredths of a point (52441, that is
    /// 524.41 pt, with the defaults).
    pub fn usable_width(&self) -> (r: i64)
        ensures
            r == self.spec_usable_width(),
    {
        PAGE_WIDTH - self.left_margin as i64 - self.right_margin as i64
    }

    /// Height available to text and pictures, in hundredths of a point (77355, that is
    /// 773.55 pt, with the defaults).
    pub fn usable_height(&self) -> (r: i64)
        ensures
            r == self.spec_usable_height(),
    {
        PAGE_HEIGHT - self.top_margin as i64 - self.bottom_margin as i64 - 10
            * self.header_foffset as i64 - 10 * self.footer_foffset as i64
    }
}

#[derive(Debug, Clone, PartialEq)]
pub struct Document {
    pub pages: PageFormat,
    pub body: Vec<Block>,
}

impl Document {
    pub open spec fn view(&self) -> DocumentView {
        DocumentView { pages: self.pages, body: self.body@.map_values(|b: Block| b.view()) }
    }
}

impl Default for Document {
    fn default() -> (r: Self)
        ensures
            r.view() == (DocumentView { pages: PageFormat::a4(), body: Seq::empty() }),
    {
        let r = Document { pages: PageFormat::default(), body: Vec::new() };
        assert(r.view().body =~= Seq::<BlockView>::empty());
        r
    }
}

// ---------------------------------------------------------------------------
// The mathematical model of a document, over which its contracts are stated.
// ---------------------------------------------------------------------------

pub ghost struct StyleView {
    pub font_family: Seq<char>,
    pub font_size: int,
    pub bold: bool,
    pub italic: bool,
    pub underline: bool,
    pub color: int,
    pub background_color: int,
}

pub ghost struct ImageView {
    pub data_b64: Seq<char>,
    pub width: int,
    pub height: int,
}

pub ghost enum RunView {
    Image(ImageView),
    Text(Seq<char>, StyleView),
}

pub ghost struct ParagraphView {
    pub alignment: Alignment,
    pub left_indent: int,
    pub right_indent: int,
    pub runs: Seq<RunView>,
}

pub ghost enum BlockView {
    Paragraph(ParagraphView),
    PageBreak,
}

pub ghost struct DocumentView {
    pub pages: PageFormat,
    pub body: Seq<BlockView>,
}

} // verus!
