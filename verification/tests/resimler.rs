use image::{DynamicImage, GenericImageView, ImageFormat};
use std::io::Cursor;
use udf_resimcisi::image_io::{
    baytlardan, exif_uygula, gomulebilir, kucult, olcu, onizleme_uret, panodaki_resim, png_kodla,
    Bicim, HEDEF_UZUN_KENAR_300DPI, TANINMAYAN,
};
use udf_resimcisi::udf::ImageSpec;

/// A 4x3 red PNG, made on the spot.
fn ornek_png() -> Vec<u8> {
    let img = DynamicImage::ImageRgba8(image::RgbaImage::from_pixel(4, 3, image::Rgba([200, 30, 30, 255])));
    png_kodla(&img).unwrap()
}

#[test]
fn png_baytlari_aynen_korunur() {
    let png = ornek_png();
    let y = baytlardan(png.clone()).unwrap();
    assert!(y.orijinal_korundu);
    assert_eq!(y.spec.bytes, png, "PNG girdisi bit-bit korunmalı");
    assert_eq!((y.spec.px_w, y.spec.px_h), (4, 3));
    assert_eq!(y.bicim, "PNG");
}

#[test]
fn olcu_basliktan_okunur() {
    let png = ornek_png();
    assert_eq!(olcu(&png).unwrap(), (4, 3));
}

#[test]
fn resim_olmayan_bayt_reddedilir() {
    let hata = baytlardan(b"bu bir resim degil".to_vec()).unwrap_err();
    assert!(hata.to_string().contains("tanınan bir resim değil"), "{hata}");
}

#[test]
fn kucultme_uzun_kenari_hedefe_indirir() {
    let img = DynamicImage::ImageRgb8(image::RgbImage::from_pixel(3000, 2000, image::Rgb([10, 20, 30])));
    let spec = ImageSpec { bytes: png_kodla(&img).unwrap(), px_w: 3000, px_h: 2000 };
    let k = kucult(&spec, 2200).unwrap();
    assert_eq!(k.px_w, 2200);
    assert_eq!(k.px_h, 1467);
    assert!(k.bytes.len() < spec.bytes.len());
}

#[test]
fn zaten_kucukse_dokunulmaz() {
    let png = ornek_png();
    let spec = ImageSpec { bytes: png.clone(), px_w: 4, px_h: 3 };
    let k = kucult(&spec, 2200).unwrap();
    assert_eq!(k.bytes, png);
}

/// Puts an EXIF (APP1) segment carrying `Orientation` in front of a JPEG, as phone photos
/// do, in its smallest form.
fn exif_ekle(jpeg: &[u8], yon: u16) -> Vec<u8> {
    let mut tiff = Vec::new();
    tiff.extend_from_slice(b"II");
    tiff.extend_from_slice(&42u16.to_le_bytes());
    tiff.extend_from_slice(&8u32.to_le_bytes());
    tiff.extend_from_slice(&1u16.to_le_bytes());
    tiff.extend_from_slice(&0x0112u16.to_le_bytes());
    tiff.extend_from_slice(&3u16.to_le_bytes());
    tiff.extend_from_slice(&1u32.to_le_bytes());
    tiff.extend_from_slice(&(yon as u32).to_le_bytes());
    tiff.extend_from_slice(&0u32.to_le_bytes());

    let mut app1 = Vec::new();
    app1.extend_from_slice(b"Exif\0\0");
    app1.extend_from_slice(&tiff);

    let mut out = Vec::new();
    out.extend_from_slice(&[0xFF, 0xD8]);
    out.extend_from_slice(&[0xFF, 0xE1]);
    out.extend_from_slice(&((app1.len() + 2) as u16).to_be_bytes());
    out.extend_from_slice(&app1);
    out.extend_from_slice(&jpeg[2..]);
    out
}

fn ornek_jpeg(w: u32, h: u32) -> Vec<u8> {
    let img = DynamicImage::ImageRgb8(image::RgbImage::from_pixel(w, h, image::Rgb([9, 9, 9])));
    let mut buf = Vec::new();
    img.write_to(&mut Cursor::new(&mut buf), ImageFormat::Jpeg).unwrap();
    buf
}

#[test]
fn exif_dondurulmus_fotograf_duzeltilir() {
    let jpeg = exif_ekle(&ornek_jpeg(40, 20), 6);
    let y = baytlardan(jpeg).unwrap();

    assert!(y.dondurul, "EXIF yönü 6 için döndürme uygulanmalı");
    assert!(!y.orijinal_korundu, "döndürme yeniden kodlama gerektirir");
    assert_eq!(y.bicim, "PNG", "döndürülen resim kayıpsız PNG olarak gömülür");
    assert_eq!((y.spec.px_w, y.spec.px_h), (20, 40), "90° döndürmede en ve boy yer değiştirir");
}

#[test]
fn exif_yonu_1_ise_baytlara_dokunulmaz() {
    let jpeg = exif_ekle(&ornek_jpeg(40, 20), 1);
    let y = baytlardan(jpeg.clone()).unwrap();

    assert!(!y.dondurul);
    assert!(y.orijinal_korundu, "yön 1: yeniden kodlama yok");
    assert_eq!(y.spec.bytes, jpeg);
    assert_eq!((y.spec.px_w, y.spec.px_h), (40, 20));
}

#[test]
fn exif_yon_donusumleri() {
    let img = DynamicImage::ImageRgb8(image::RgbImage::from_pixel(4, 2, image::Rgb([1, 2, 3])));
    assert_eq!(exif_uygula(img.clone(), 6).width(), 2, "90° döndürme en-boyu takas eder");
    assert_eq!(exif_uygula(img.clone(), 1).width(), 4, "yön 1 = dokunma");
    assert_eq!(exif_uygula(img, 3).width(), 4, "180° en-boyu korur");
}

#[test]
fn jpeg_oldugu_gibi_gomulur() {
    let jpeg = ornek_jpeg(40, 20);
    let y = baytlardan(jpeg.clone()).unwrap();
    assert_eq!(y.bicim, "JPEG");
    assert!(y.orijinal_korundu);
    assert_eq!(y.spec.bytes, jpeg);
}

#[test]
fn bmp_png_ye_cevrilir() {
    let img = DynamicImage::ImageRgb8(image::RgbImage::from_pixel(5, 7, image::Rgb([1, 2, 3])));
    let mut bmp = Vec::new();
    img.write_to(&mut Cursor::new(&mut bmp), ImageFormat::Bmp).unwrap();
    let y = baytlardan(bmp).unwrap();
    assert_eq!(y.bicim, "PNG");
    assert!(!y.orijinal_korundu);
    assert!(!y.dondurul);
    assert_eq!((y.spec.px_w, y.spec.px_h), (5, 7));
    assert_eq!(&y.spec.bytes[0..4], &[0x89, b'P', b'N', b'G']);
}

#[test]
fn exif_yonu_8_ceyrek_geri() {
    let jpeg = exif_ekle(&ornek_jpeg(40, 20), 8);
    let y = baytlardan(jpeg).unwrap();
    assert!(y.dondurul);
    assert_eq!((y.spec.px_w, y.spec.px_h), (20, 40));
}

#[test]
fn bicimler_gomulebilirlik() {
    assert!(gomulebilir(Bicim::Png));
    assert!(gomulebilir(Bicim::Jpeg));
    assert!(!gomulebilir(Bicim::Diger));
    assert!(TANINMAYAN.contains("PNG, JPEG, WEBP, BMP, TIFF, GIF"));
}

#[test]
fn kucultme_dikey_resimde_yukseklige_gore() {
    let img = DynamicImage::ImageRgb8(image::RgbImage::from_pixel(30, 90, image::Rgb([7, 7, 7])));
    let spec = ImageSpec { bytes: png_kodla(&img).unwrap(), px_w: 30, px_h: 90 };
    let k = kucult(&spec, 45).unwrap();
    assert_eq!((k.px_w, k.px_h), (15, 45));
    assert_eq!(&k.bytes[0..2], &[0xFF, 0xD8], "küçültülen resim JPEG olur");
    assert_eq!(HEDEF_UZUN_KENAR_300DPI, 2200);
}

#[test]
fn panodaki_resim_png_olur() {
    let rgba = vec![255u8; 4 * 6 * 2];
    let y = panodaki_resim(6, 2, rgba).unwrap();
    assert_eq!((y.spec.px_w, y.spec.px_h), (6, 2));
    assert_eq!(y.bicim, "PNG");
    assert!(!y.orijinal_korundu);
    let geri = image::load_from_memory(&y.spec.bytes).unwrap();
    assert_eq!(geri.dimensions(), (6, 2));
}

#[test]
fn panoda_eksik_bayt_reddedilir() {
    let hata = panodaki_resim(6, 2, vec![0u8; 10]).unwrap_err();
    assert_eq!(hata, "Panodaki resim çözülemedi");
}

#[test]
fn onizleme_data_uri() {
    let spec = ImageSpec { bytes: ornek_png(), px_w: 4, px_h: 3 };
    let o = onizleme_uret(&spec);
    assert!(o.starts_with("data:image/png;base64,"));
    let bozuk = ImageSpec { bytes: vec![1, 2, 3], px_w: 1, px_h: 1 };
    assert_eq!(onizleme_uret(&bozuk), "");
}

#[test]
fn olcu_resim_olmayanda_hata() {
    assert!(olcu(b"merhaba").is_err());
}
