use base64::Engine;
use std::io::{Cursor, Read};
use udf_resimcisi::metin::{kisa_sayi_ekle, onda_bir_ekle, yuzde_bir_ekle};
use udf_resimcisi::udf::model::{
    Alignment, Block, Document, ImageRun, PageFormat, Paragraph, Run, TextRun, TextStyle,
};
use udf_resimcisi::udf::serialize::{cdata_guvenli, esc, serialize};
use udf_resimcisi::udf::zip::paketle;
use udf_resimcisi::udf::{
    belge_kur, boyut_sigar_mi, build_udf, goruntuleme_boyutu, hepsi_sigar_mi, BuildOptions,
    ImageSpec, Sizing, UdfHatasi,
};

fn spec(w: u32, h: u32) -> ImageSpec {
    ImageSpec { bytes: vec![1, 2, 3], px_w: w, px_h: h }
}

fn content_xml(bytes: &[u8]) -> String {
    let mut zip = zip::ZipArchive::new(Cursor::new(bytes.to_vec())).unwrap();
    let mut f = zip.by_index(0).unwrap();
    let mut s = String::new();
    f.read_to_string(&mut s).unwrap();
    s
}

/// The display size in points (the library gives thousandths of a point).
fn punto(px_w: u32, px_h: u32, sizing: Sizing) -> (f64, f64) {
    let (w, h) = goruntuleme_boyutu(px_w, px_h, sizing, &PageFormat::default());
    (w as f64 / 1000.0, h as f64 / 1000.0)
}

#[test]
fn sayfaya_sigdir_genislige_gore() {
    let (w, h) = punto(3000, 2000, Sizing::FitPage);
    assert!((w - 524.41).abs() < 0.01, "{w}");
    assert!((h - 349.61).abs() < 0.01, "{h}");
}

#[test]
fn sayfaya_sigdir_yukseklige_gore() {
    // Narrow and tall: the height is the limiting side.
    let (w, h) = punto(1000, 4000, Sizing::FitPage);
    assert!((h - 773.55).abs() < 0.01, "{h}");
    assert!((w - 193.39).abs() < 0.01, "{w}");
}

#[test]
fn kucuk_gorsel_buyutulmez() {
    let (w, h) = punto(200, 150, Sizing::FitPage);
    assert_eq!((w, h), (200.0, 150.0));
}

#[test]
fn yuzde_yuz_bire_bir_punto() {
    assert_eq!(punto(3000, 2000, Sizing::Actual), (3000.0, 2000.0));
}

#[test]
fn cm_genislik_orani_korur() {
    // 10 cm, held in hundredths of a centimetre.
    let (w, h) = punto(2000, 1000, Sizing::WidthCm(1000));
    assert!((w - 283.465).abs() < 0.001, "{w}");
    assert!((h - 141.73).abs() < 0.01, "{h}");
}

#[test]
fn goruntuleme_binde_bir_punto() {
    let pf = PageFormat::default();
    assert_eq!(goruntuleme_boyutu(3000, 2000, Sizing::FitPage, &pf), (524410, 349607));
    assert_eq!(goruntuleme_boyutu(0, 0, Sizing::Actual, &pf), (1000, 1000));
    assert_eq!(goruntuleme_boyutu(2000, 1000, Sizing::WidthCm(1000), &pf), (283465, 141733));
    assert!(boyut_sigar_mi(u32::MAX, u32::MAX, Sizing::FitPage, &pf));
}

#[test]
fn resim_baytlari_degistirilmeden_base64_olur() {
    let bytes = vec![0x89, b'P', b'N', b'G', 0x0D, 0x0A, 0x1A, 0x0A];
    let doc = belge_kur(
        &[ImageSpec { bytes: bytes.clone(), px_w: 100, px_h: 100 }],
        &BuildOptions::default(),
    );
    let Block::Paragraph(p) = &doc.body[0] else {
        panic!("paragraf bekleniyordu");
    };
    let Run::Image(img) = &p.runs[0] else {
        panic!("resim bekleniyordu");
    };
    assert_eq!(base64::engine::general_purpose::STANDARD.decode(&img.data_b64).unwrap(), bytes);
    assert!(!img.data_b64.contains('\n'), "base64'te satır sonu olmamalı");
    assert!(!img.data_b64.starts_with("data:"), "data-URI öneki olmamalı");
}

#[test]
fn ayri_sayfa_kapaliyken_page_break_yok() {
    let opts = BuildOptions { separate_pages: false, ..Default::default() };
    let udf = build_udf(&[spec(100, 100), spec(100, 100)], &opts).unwrap();
    let xml = content_xml(&udf);
    assert!(!xml.contains("<page-break>"), "{xml}");
    assert_eq!(xml.matches("<image ").count(), 2);
}

#[test]
fn ayri_sayfa_acikken_aralarda_page_break_var() {
    let opts = BuildOptions { separate_pages: true, ..Default::default() };
    let udf = build_udf(&[spec(100, 100), spec(100, 100), spec(100, 100)], &opts).unwrap();
    let xml = content_xml(&udf);
    assert_eq!(xml.matches("<page-break>").count(), 2, "n resim → n-1 sayfa sonu");
}

#[test]
fn resimsiz_belge_hata_verir() {
    assert!(build_udf(&[], &BuildOptions::default()).is_err());
    assert!(matches!(build_udf(&[], &BuildOptions::default()), Err(UdfHatasi::ResimYok)));
}

#[test]
fn belge_kur_ucuncu_resim_dorduncu_blokta() {
    let opts = BuildOptions::default();
    let images = [spec(100, 100), spec(3000, 2000), spec(1, 1)];
    assert!(hepsi_sigar_mi(&images, &opts));
    let doc = belge_kur(&images, &opts);
    assert_eq!(doc.body.len(), 5);
    assert!(matches!(doc.body[1], Block::PageBreak));
    let Block::Paragraph(p) = &doc.body[2] else {
        panic!("paragraf bekleniyordu");
    };
    assert_eq!(p.alignment, Alignment::Center);
    let Run::Image(img) = &p.runs[0] else {
        panic!("resim bekleniyordu");
    };
    assert_eq!((img.width, img.height), (5244, 3496));
}

#[test]
fn ayni_girdi_ayni_udf() {
    let opts = BuildOptions::default();
    let a = build_udf(&[spec(10, 20), spec(30, 40)], &opts).unwrap();
    let b = build_udf(&[spec(10, 20), spec(30, 40)], &opts).unwrap();
    assert_eq!(a, b);
}

#[test]
fn kullanilabilir_alan_a4_varsayilan() {
    let pf = PageFormat::default();
    let w = pf.usable_width() as f64 / 100.0;
    let h = pf.usable_height() as f64 / 100.0;
    assert!((w - 524.41).abs() < 0.005, "{}", w);
    assert!((h - 773.55).abs() < 0.005, "{}", h);
    assert_eq!((pf.usable_width(), pf.usable_height()), (52441, 77355));
}

/// A picture run; sizes in tenths of a point.
fn img(data: &str, w: i64, h: i64) -> Run {
    Run::Image(ImageRun { data_b64: data.to_string(), width: w, height: h })
}

fn para_with(runs: Vec<Run>) -> Block {
    Block::Paragraph(Paragraph { alignment: Alignment::Center, runs, ..Default::default() })
}

fn cdata_of(xml: &str) -> String {
    let s = xml.find("<![CDATA[").unwrap() + 9;
    let e = xml.find("]]></content>").unwrap();
    xml[s..e].to_string()
}

#[test]
fn tek_resim_cdata_ve_offset() {
    let doc = Document { pages: PageFormat::default(), body: vec![para_with(vec![img("AAA", 5244, 3496)])] };
    let xml = serialize(&doc);

    assert_eq!(cdata_of(&xml), "\u{FFFC}\n");
    assert!(xml.contains("startOffset=\"0\" length=\"1\""), "{xml}");
    assert!(xml.contains("width=\"524.4\" height=\"349.6\""), "{xml}");
    assert!(xml.contains("<paragraph Alignment=\"1\" LeftIndent=\"0.0\" RightIndent=\"0.0\">"));
}

#[test]
fn uc_resim_alt_alta_offsetler_ikiser_artar() {
    let doc = Document {
        pages: PageFormat::default(),
        body: vec![
            para_with(vec![img("A", 1000, 1000)]),
            para_with(vec![img("B", 1000, 1000)]),
            para_with(vec![img("C", 1000, 1000)]),
        ],
    };
    let xml = serialize(&doc);

    assert_eq!(cdata_of(&xml), "\u{FFFC}\n\u{FFFC}\n\u{FFFC}\n");
    let offsets: Vec<&str> = xml
        .match_indices("startOffset=\"")
        .map(|(i, _)| {
            let s = i + 13;
            let e = xml[s..].find('"').unwrap() + s;
            &xml[s..e]
        })
        .collect();
    assert_eq!(offsets, vec!["0", "2", "4"]);
}

#[test]
fn uc_resim_ayri_sayfa_page_break_offsetleri() {
    // Separate pages: every <page-break> adds U+200B and \n (two code points) to the
    // CDATA, so the pictures sit at 0 / 4 / 8.
    let doc = Document {
        pages: PageFormat::default(),
        body: vec![
            para_with(vec![img("A", 1000, 1000)]),
            Block::PageBreak,
            para_with(vec![img("B", 1000, 1000)]),
            Block::PageBreak,
            para_with(vec![img("C", 1000, 1000)]),
        ],
    };
    let xml = serialize(&doc);

    assert_eq!(cdata_of(&xml), "\u{FFFC}\n\u{200B}\n\u{FFFC}\n\u{200B}\n\u{FFFC}\n");
    assert_eq!(xml.matches("<page-break>").count(), 2);

    let img_offsets: Vec<&str> = xml
        .match_indices("<image ")
        .map(|(i, _)| {
            let s = xml[i..].find("startOffset=\"").unwrap() + i + 13;
            let e = xml[s..].find('"').unwrap() + s;
            &xml[s..e]
        })
        .collect();
    assert_eq!(img_offsets, vec!["0", "4", "8"]);

    // The empty paragraph inside a page break covers the two code points between.
    assert!(xml.contains("<page-break><paragraph Alignment=\"0\" LeftIndent=\"0.0\" RightIndent=\"0.0\"><content startOffset=\"2\" length=\"2\""), "{xml}");
    assert!(xml.contains("<content startOffset=\"6\" length=\"2\""), "{xml}");
}

#[test]
fn metin_ve_resim_karisik_son_metin_newline_kapsar() {
    let doc = Document {
        pages: PageFormat::default(),
        body: vec![Block::Paragraph(Paragraph {
            alignment: Alignment::Left,
            runs: vec![
                img("A", 100, 100),
                Run::Text(TextRun { text: "Merhaba".to_string(), style: TextStyle::default() }),
            ],
            ..Default::default()
        })],
    };
    let xml = serialize(&doc);

    assert_eq!(cdata_of(&xml), "\u{FFFC}Merhaba\n");
    // picture: offset 0, length 1 | text: offset 1, length 7 + 1 (the paragraph end)
    assert!(xml.contains("startOffset=\"0\" length=\"1\""), "{xml}");
    assert!(xml.contains("<content startOffset=\"1\" length=\"8\""), "{xml}");
}

fn f1(onda: i64) -> String {
    let mut s = String::new();
    onda_bir_ekle(&mut s, onda);
    s
}

fn f2(yuzde: i64) -> String {
    let mut s = String::new();
    yuzde_bir_ekle(&mut s, yuzde);
    s
}

fn num_str(yuzde: i64) -> String {
    let mut s = String::new();
    kisa_sayi_ekle(&mut s, yuzde);
    s
}

#[test]
fn ondalik_ayirici_her_zaman_nokta_ve_tek_hane() {
    // Values are held in tenths (f1) and hundredths (f2, num_str).
    assert_eq!(f1(5244), "524.4");
    assert_eq!(f1(0), "0.0");
    assert_eq!(f2(4252), "42.52");
    assert_eq!(f1(12340), "1234.0");
    assert_eq!(num_str(1200), "12");
    assert_eq!(num_str(825), "8.25");
}

#[test]
fn eksi_degerler_ve_kisa_sayi() {
    assert_eq!(f1(-5), "-0.5");
    assert_eq!(f2(-7), "-0.07");
    assert_eq!(num_str(1250), "12.5");
    assert_eq!(num_str(-1250), "-12.5");
    assert_eq!(num_str(0), "0");
}

#[test]
fn xml_kacisi() {
    assert_eq!(esc("a&b<c>d\"e"), "a&amp;b&lt;c&gt;d&quot;e");
    let doc = Document {
        pages: PageFormat::default(),
        body: vec![Block::Paragraph(Paragraph {
            runs: vec![Run::Text(TextRun {
                text: "x".to_string(),
                style: TextStyle { font_family: "Ari<al> & \"Co\"".to_string(), ..Default::default() },
            })],
            ..Default::default()
        })],
    };
    let xml = serialize(&doc);
    assert!(xml.contains("family=\"Ari&lt;al&gt; &amp; &quot;Co&quot;\""), "{xml}");
}

#[test]
fn cdata_kapanisi_kirilir() {
    assert_eq!(cdata_guvenli("a]]>b"), "a]]&gt;b");
}

#[test]
fn cdata_ardisik_kapanislar() {
    assert_eq!(cdata_guvenli("]]>]]>"), "]]&gt;]]&gt;");
    assert_eq!(cdata_guvenli("]]]>"), "]]]&gt;");
    assert_eq!(cdata_guvenli("]]"), "]]");
}

#[test]
fn bos_paragraf_iki_kod_noktasi() {
    let doc = Document { pages: PageFormat::default(), body: vec![Block::Paragraph(Paragraph::default())] };
    let xml = serialize(&doc);
    assert_eq!(cdata_of(&xml), "\u{200B}\n");
    assert!(xml.contains("<content startOffset=\"0\" length=\"2\" family=\"Times New Roman\" size=\"10\" />"), "{xml}");
}

#[test]
fn iskelet_sabit_kaliyor() {
    // Snapshot: for a known input, content.xml is fixed.
    let doc = Document { pages: PageFormat::default(), body: vec![para_with(vec![img("QUJD", 5244, 3496)])] };
    let beklenen = [
        "<?xml version=\"1.0\" encoding=\"UTF-8\" ?>\n",
        "<template format_id=\"1.8\">\n",
        "<content><![CDATA[\u{FFFC}\n]]></content>",
        "<properties><pageFormat mediaSizeName=\"1\" leftMargin=\"42.52\" rightMargin=\"28.35\" ",
        "topMargin=\"14.17\" bottomMargin=\"14.17\" paperOrientation=\"1\" headerFOffset=\"20.0\" ",
        "footerFOffset=\"20.0\" /></properties>\n",
        "<elements resolver=\"hvl-default\">\n",
        "<paragraph Alignment=\"1\" LeftIndent=\"0.0\" RightIndent=\"0.0\">",
        "<image imageData=\"QUJD\" startOffset=\"0\" length=\"1\" width=\"524.4\" height=\"349.6\" />",
        "</paragraph>\n",
        "</elements>\n",
        "<styles><style name=\"default\" description=\"Geçerli\" family=\"Dialog\" size=\"12\" ",
        "bold=\"false\" italic=\"false\" foreground=\"-13421773\" ",
        "FONT_ATTRIBUTE_KEY=\"javax.swing.plaf.FontUIResource[family=Dialog,name=Dialog,style=plain,size=12]\" />",
        "<style name=\"hvl-default\" family=\"Times New Roman\" size=\"12\" description=\"Gövde\" />",
        "</styles>\n",
        "</template>",
    ]
    .join("");
    assert_eq!(serialize(&doc), beklenen);
}

#[test]
fn stil_nitelikleri_yalniz_varsayilandan_farkliysa() {
    let doc = Document {
        pages: PageFormat::default(),
        body: vec![Block::Paragraph(Paragraph {
            runs: vec![Run::Text(TextRun {
                text: "k".to_string(),
                style: TextStyle {
                    bold: true,
                    underline: true,
                    font_size: 1050,
                    color: -65536,
                    ..Default::default()
                },
            })],
            ..Default::default()
        })],
    };
    let xml = serialize(&doc);
    assert!(xml.contains("size=\"10.5\""), "{xml}");
    assert!(xml.contains("bold=\"true\""), "{xml}");
    assert!(xml.contains("underline=\"true\""), "{xml}");
    assert!(xml.contains("foreground=\"-65536\""), "{xml}");
    assert!(!xml.contains("italic=\"true\""), "{xml}");
    assert!(!xml.contains("background="), "{xml}");
}

#[test]
fn tek_giris_ve_adi_content_xml() {
    let bytes = paketle("<merhaba/>").unwrap();
    let mut zip = zip::ZipArchive::new(Cursor::new(bytes)).unwrap();
    assert_eq!(zip.len(), 1, "arşivde tam olarak bir giriş olmalı");

    let mut f = zip.by_index(0).unwrap();
    assert_eq!(f.name(), "content.xml");
    let mut s = String::new();
    f.read_to_string(&mut s).unwrap();
    assert_eq!(s, "<merhaba/>");
}

#[test]
fn utf8_bom_yok() {
    let bytes = paketle("<a>ğüşİÖÇ</a>").unwrap();
    let mut zip = zip::ZipArchive::new(Cursor::new(bytes)).unwrap();
    let mut f = zip.by_index(0).unwrap();
    let mut raw = Vec::new();
    f.read_to_end(&mut raw).unwrap();
    assert_ne!(&raw[0..3], &[0xEF, 0xBB, 0xBF], "BOM yazılmamalı");
    assert_eq!(String::from_utf8(raw).unwrap(), "<a>ğüşİÖÇ</a>");
}

#[test]
fn paket_ayni_metinde_ayni_bayt() {
    assert_eq!(paketle("<x/>").unwrap(), paketle("<x/>").unwrap());
}

#[test]
fn ayni_sayfada_resimler_arasi_bos_satir() {
    let opts = BuildOptions { separate_pages: false, ..Default::default() };
    let doc = belge_kur(&[spec(100, 100), spec(100, 100)], &opts);
    assert_eq!(doc.body.len(), 3);
    let Block::Paragraph(bos) = &doc.body[1] else {
        panic!("boş paragraf bekleniyordu");
    };
    assert!(bos.runs.is_empty());
    let xml = serialize(&doc);
    assert_eq!(cdata_of(&xml), "\u{FFFC}\n\u{200B}\n\u{FFFC}\n");
    assert!(xml.contains("<content startOffset=\"2\" length=\"2\""), "{xml}");
    let img_offsets: Vec<&str> = xml
        .match_indices("<image ")
        .map(|(i, _)| {
            let s = xml[i..].find("startOffset=\"").unwrap() + i + 13;
            let e = xml[s..].find('"').unwrap() + s;
            &xml[s..e]
        })
        .collect();
    assert_eq!(img_offsets, vec!["0", "4"]);
    assert!(!xml.contains("<page-break>"));
}

#[test]
fn hata_mesaji() {
    assert_eq!(UdfHatasi::ResimYok.mesaj(), "Belgeye koyacak resim yok.");
}

#[test]
fn model_degerleri_karsilastirilir() {
    assert_eq!(Document::default(), Document::default());
    let p = Paragraph::default();
    assert_eq!(p.clone(), p);
    let a = Block::Paragraph(p.clone());
    assert_ne!(a, Block::PageBreak);
    assert_eq!(TextStyle::default(), TextStyle::default());
}

#[test]
fn base64_standart_alfabe() {
    // Every group of three bytes gives four characters; a short last group is padded.
    let d = belge_kur(&[ImageSpec { bytes: vec![0xFB, 0xFF], px_w: 1, px_h: 1 }], &BuildOptions::default());
    let veri = match &d.body[0] {
        Block::Paragraph(p) => match &p.runs[0] {
            Run::Image(i) => i.data_b64.clone(),
            _ => panic!("expected a picture"),
        },
        _ => panic!("expected a paragraph"),
    };
    assert_eq!(veri, "+/8=");
    assert_eq!(base64::engine::general_purpose::STANDARD.decode(&veri).unwrap(), vec![0xFB, 0xFF]);
}
