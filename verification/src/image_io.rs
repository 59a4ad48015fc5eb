//! Pictures from bytes: format recognition, EXIF orientation, and re-encoding only when it
//! cannot be avoided.
//!
//! The rule: **resolution is not touched.** Input bytes are re-encoded only when they must
//! be (an EXIF rotation, a format the editor does not show, an explicit request to shrink).

use vstd::prelude::*;
use crate::udf::model::PageFormat;
use crate::udf::{
    base64_kodla, base64_standart, boyut_hesapla, carpim_siniri, spec_goruntuleme_boyutu, yuvarla,
    yuvarla_exec, ImageSpec, Sizing,
};
use crate::metin::karakterler;

verus! {

/// A picture ready for the document, with what the list shows about it.
#[derive(Debug)]
pub struct YuklenenResim {
    pub spec: ImageSpec,
    /// Format of the embedded bytes ("PNG" or "JPEG").
    pub bicim: String,
    /// Whether the input bytes went in untouched.
    pub orijinal_korundu: bool,
    /// Whether the picture was turned because of its EXIF orientation.
    pub dondurul: bool,
}

/// Quality step of a picture: how many pixels per point go into the document. The picture
/// always takes the same place on the page; only its pixel density changes.
#[derive(Debug, Clone, Copy, PartialEq, Eq, Structural)]
pub enum Kalite {
    /// The input bytes, untouched.
    Orijinal,
    /// About three pixels per point (the default).
    Ideal,
    /// About two pixels per point.
    Orta,
    /// About one pixel per point, as the editor's own picture insertion gives.
    Kucuk,
}

// ---------------------------------------------------------------------------
// The image and exif crates
// ---------------------------------------------------------------------------

#[verifier::external_type_specification]
#[verifier::external_body]
pub struct ExDynamicImage(image::DynamicImage);

#[verifier::external_type_specification]
#[verifier::external_body]
pub struct ExImageError(image::ImageError);

/// The format of picture bytes, as far as this library tells formats apart.
#[derive(Debug, Clone, Copy, PartialEq, Eq, Structural)]
pub enum Bicim {
    Png,
    Jpeg,
    /// Another format the image crate recognises (WEBP, BMP, TIFF, GIF, ...).
    Diger,
}

/// The PNG signature.
pub open spec fn png_imzasi() -> Seq<u8> {
    seq![0x89u8, 0x50u8, 0x4eu8, 0x47u8, 0x0du8, 0x0au8, 0x1au8, 0x0au8]
}

/// The JPEG signature (start of image and the first marker byte).
pub open spec fn jpeg_imzasi() -> Seq<u8> {
    seq![0xffu8, 0xd8u8, 0xffu8]
}

/// Whether `b` begins with `p`.
pub open spec fn bayt_onek(b: Seq<u8>, p: Seq<u8>) -> bool {
    p.len() <= b.len() && b.take(p.len() as int) == p
}

/// What `image::guess_format` makes of these bytes.
pub uninterp spec fn bicim_tahmini(b: Seq<u8>) -> Option<Bicim>;

/// `image::guess_format`: the format told by the magic bytes at the start. Its table checks
/// the PNG signature first and the JPEG one second, so a PNG signature means PNG, a JPEG
/// signature means JPEG, and bytes with neither are neither.
#[verifier::external_body]
fn bicim_tahmin_et(b: &[u8]) -> (r: Option<Bicim>)
    ensures
        r == bicim_tahmini(b@),
        bayt_onek(b@, png_imzasi()) ==> r == Some(Bicim::Png),
        !bayt_onek(b@, png_imzasi()) && bayt_onek(b@, jpeg_imzasi()) ==> r == Some(Bicim::Jpeg),
        !bayt_onek(b@, png_imzasi()) && !bayt_onek(b@, jpeg_imzasi()) ==> r != Some(Bicim::Png)
            && r != Some(Bicim::Jpeg),
{
    match image::guess_format(b) {
        Ok(image::ImageFormat::Png) => Some(Bicim::Png),
        Ok(image::ImageFormat::Jpeg) => Some(Bicim::Jpeg),
        Ok(_) => Some(Bicim::Diger),
        Err(_) => None,
    }
}

/// The EXIF `Orientation` value that the exif crate reads from these bytes, if any.
pub uninterp spec fn exif_yon_degeri(b: Seq<u8>) -> Option<u32>;

/// `exif::Reader::read_from_container` on the bytes, then the `Orientation` field of the
/// primary image read with `Value::get_uint(0)`: the orientation the picture carries, or
/// nothing when there is no readable EXIF or no such field.
#[verifier::external_body]
fn exif_yonu_oku(b: &[u8]) -> (r: Option<u32>)
    ensures
        r == exif_yon_degeri(b@),
{
    let mut cur = std::io::Cursor::new(b);
    let exif = exif::Reader::new().read_from_container(&mut cur).ok()?;
    let f = exif.get_field(exif::Tag::Orientation, exif::In::PRIMARY)?;
    f.value.get_uint(0)
}

/// The pixel size that `ImageReader::into_dimensions` reads from the header of these bytes.
pub uninterp spec fn baslik_olcusu(b: Seq<u8>) -> Option<(u32, u32)>;

/// Which step of reading a header failed.
#[derive(Debug)]
pub enum OlcuHatasi {
    /// The format could not be guessed.
    Bicim(std::io::Error),
    /// The size could not be read.
    Olcu(image::ImageError),
}

/// `ImageReader::new(..).with_guessed_format()` then `into_dimensions()`: the pixel size
/// read from the header only, without decoding the picture.
#[verifier::external_body]
fn baslik_oku(b: &[u8]) -> (r: Result<(u32, u32), OlcuHatasi>)
    ensures
        r matches Ok(o) ==> baslik_olcusu(b@) == Some(o),
        r is Err ==> baslik_olcusu(b@) is None,
{
    let okuyucu = match image::ImageReader::new(std::io::Cursor::new(b)).with_guessed_format() {
        Ok(o) => o,
        Err(e) => return Err(OlcuHatasi::Bicim(e)),
    };
    okuyucu.into_dimensions().map_err(OlcuHatasi::Olcu)
}

/// The width of a picture in pixels (`DynamicImage::width`).
pub uninterp spec fn goruntu_genisligi(img: image::DynamicImage) -> u32;

/// The height of a picture in pixels (`DynamicImage::height`).
pub uninterp spec fn goruntu_yuksekligi(img: image::DynamicImage) -> u32;

/// The PNG file that `DynamicImage::write_to` writes for a picture, or nothing when the
/// PNG encoder refuses the picture.
pub uninterp spec fn png_kodlamasi(img: image::DynamicImage) -> Option<Seq<u8>>;

/// The JPEG file that the image crate's `JpegEncoder` writes at quality `q` for a picture
/// taken as 8-bit RGB.
pub uninterp spec fn jpeg_baytlari(img: image::DynamicImage, q: u8) -> Seq<u8>;

/// The picture that `image::load_from_memory` decodes from these bytes, if it decodes one.
pub uninterp spec fn cozulmus_goruntu(b: Seq<u8>) -> Option<image::DynamicImage>;

/// `image::load_from_memory`: the decoded picture.
#[verifier::external_body]
fn goruntu_coz(b: &[u8]) -> (r: Result<image::DynamicImage, image::ImageError>)
    ensures
        r matches Ok(i) ==> cozulmus_goruntu(b@) == Some(i),
        r is Err ==> cozulmus_goruntu(b@) is None,
{
    image::load_from_memory(b)
}

/// `DynamicImage::width`.
#[verifier::external_body]
fn genislik(img: &image::DynamicImage) -> (r: u32)
    ensures
        r == goruntu_genisligi(*img),
{
    img.width()
}

/// `DynamicImage::height`.
#[verifier::external_body]
fn yukseklik(img: &image::DynamicImage) -> (r: u32)
    ensures
        r == goruntu_yuksekligi(*img),
{
    img.height()
}

/// The picture that `DynamicImage::fliph` gives for `img`.
pub uninterp spec fn yatay_cevrilmis(img: image::DynamicImage) -> image::DynamicImage;

/// `DynamicImage::fliph`: mirrored left to right, same size.
#[verifier::external_body]
fn yatay_cevir(img: &image::DynamicImage) -> (r: image::DynamicImage)
    ensures
        r == yatay_cevrilmis(*img),
        goruntu_genisligi(r) == goruntu_genisligi(*img),
        goruntu_yuksekligi(r) == goruntu_yuksekligi(*img),
{
    img.fliph()
}

/// The picture that `DynamicImage::flipv` gives for `img`.
pub uninterp spec fn dikey_cevrilmis(img: image::DynamicImage) -> image::DynamicImage;

/// `DynamicImage::flipv`: mirrored top to bottom, same size.
#[verifier::external_body]
fn dikey_cevir(img: &image::DynamicImage) -> (r: image::DynamicImage)
    ensures
        r == dikey_cevrilmis(*img),
        goruntu_genisligi(r) == goruntu_genisligi(*img),
        goruntu_yuksekligi(r) == goruntu_yuksekligi(*img),
{
    img.flipv()
}

/// The picture that `DynamicImage::rotate90` gives for `img`.
pub uninterp spec fn ceyrek_donmus(img: image::DynamicImage) -> image::DynamicImage;

/// `DynamicImage::rotate90`: turned a quarter clockwise, width and height swapped.
#[verifier::external_body]
fn dondur90(img: &image::DynamicImage) -> (r: image::DynamicImage)
    ensures
        r == ceyrek_donmus(*img),
        goruntu_genisligi(r) == goruntu_yuksekligi(*img),
        goruntu_yuksekligi(r) == goruntu_genisligi(*img),
{
    img.rotate90()
}

/// The picture that `DynamicImage::rotate180` gives for `img`.
pub uninterp spec fn yarim_donmus(img: image::DynamicImage) -> image::DynamicImage;

/// `DynamicImage::rotate180`: turned half round, same size.
#[verifier::external_body]
fn dondur180(img: &image::DynamicImage) -> (r: image::DynamicImage)
    ensures
        r == yarim_donmus(*img),
        goruntu_genisligi(r) == goruntu_genisligi(*img),
        goruntu_yuksekligi(r) == goruntu_yuksekligi(*img),
{
    img.rotate180()
}

/// The picture that `DynamicImage::rotate270` gives for `img`.
pub uninterp spec fn ceyrek_geri_donmus(img: image::DynamicImage) -> image::DynamicImage;

/// `DynamicImage::rotate270`: turned a quarter anticlockwise, width and height swapped.
#[verifier::external_body]
fn dondur270(img: &image::DynamicImage) -> (r: image::DynamicImage)
    ensures
        r == ceyrek_geri_donmus(*img),
        goruntu_genisligi(r) == goruntu_yuksekligi(*img),
        goruntu_yuksekligi(r) == goruntu_genisligi(*img),
{
    img.rotate270()
}

/// `DynamicImage::write_to` with `ImageFormat::Png` into a new buffer.
#[verifier::external_body]
fn png_yaz(img: &image::DynamicImage) -> (r: Result<Vec<u8>, image::ImageError>)
    ensures
        r matches Ok(v) ==> png_kodlamasi(*img) == Some(v@),
        r is Err ==> png_kodlamasi(*img) is None,
{
    let mut buf = Vec::new();
    img.write_to(&mut std::io::Cursor::new(&mut buf), image::ImageFormat::Png).map(|_| buf)
}

/// The picture that `DynamicImage::resize_exact` with the Lanczos3 filter gives.
pub uninterp spec fn boyutlandirilmis(img: image::DynamicImage, w: u32, h: u32) -> image::DynamicImage;

/// `DynamicImage::resize_exact` with the Lanczos3 filter: exactly `w` by `h` pixels.
#[verifier::external_body]
fn yeniden_boyutla(img: &image::DynamicImage, w: u32, h: u32) -> (r: image::DynamicImage)
    ensures
        r == boyutlandirilmis(*img, w, h),
        goruntu_genisligi(r) == w,
        goruntu_yuksekligi(r) == h,
{
    img.resize_exact(w, h, image::imageops::FilterType::Lanczos3)
}

/// `JpegEncoder::new_with_quality(.., q).encode_image` on the picture as 8-bit RGB. The
/// encoder refuses only a side outside `1..=65535`; writing into memory does not fail.
#[verifier::external_body]
fn jpeg_yaz(img: &image::DynamicImage, q: u8) -> (r: Result<Vec<u8>, image::ImageError>)
    ensures
        r matches Ok(v) ==> v@ == jpeg_baytlari(*img, q),
        r is Ok <==> (1 <= goruntu_genisligi(*img) <= 65535 && 1 <= goruntu_yuksekligi(*img)
            <= 65535),
{
    let mut buf = Vec::new();
    let mut enc = image::codecs::jpeg::JpegEncoder::new_with_quality(&mut buf, q);
    enc.encode_image(&img.to_rgb8()).map(|_| buf)
}

/// The `w` by `h` picture that `RgbaImage::from_raw` makes over 8-bit RGBA bytes.
pub uninterp spec fn rgba_goruntusu(w: u32, h: u32, bytes: Seq<u8>) -> image::DynamicImage;

/// `RgbaImage::from_raw` made a `DynamicImage`: a `w` by `h` picture over 8-bit RGBA
/// bytes, when there are at least `4 * w * h` of them.
#[verifier::external_body]
fn rgba_goruntu(w: u32, h: u32, bytes: Vec<u8>) -> (r: Option<image::DynamicImage>)
    ensures
        r is Some <==> 4 * w * h <= bytes@.len(),
        r matches Some(img) ==> img == rgba_goruntusu(w, h, bytes@) && goruntu_genisligi(img) == w
            && goruntu_yuksekligi(img) == h,
{
    image::RgbaImage::from_raw(w, h, bytes).map(image::DynamicImage::ImageRgba8)
}

/// Whether `k` is sized as a preview of `img`: each side within `1..=280`, one side
/// exactly 280, and the aspect ratio kept up to the rounding of each side.
pub open spec fn kucuk_olcu_uyar(img: image::DynamicImage, k: image::DynamicImage) -> bool {
    let w = goruntu_genisligi(img) as int;
    let h = goruntu_yuksekligi(img) as int;
    let kw = goruntu_genisligi(k) as int;
    let kh = goruntu_yuksekligi(k) as int;
    &&& 1 <= kw <= 280
    &&& 1 <= kh <= 280
    &&& kw == 280 || kh == 280
    &&& -(w + h) <= kw * h - kh * w <= w + h
}

/// Whether the preview of a decoded picture with both sides positive is sized as
/// [`kucuk_olcu_uyar`] says.
pub open spec fn onizleme_olcusu_uyar(img: image::DynamicImage) -> bool {
    goruntu_genisligi(img) > 0 && goruntu_yuksekligi(img) > 0 ==> kucuk_olcu_uyar(
        img,
        kucuk_kopyasi(img),
    )
}

/// The picture that `DynamicImage::thumbnail(280, 280)` gives.
pub uninterp spec fn kucuk_kopyasi(img: image::DynamicImage) -> image::DynamicImage;

/// `DynamicImage::thumbnail(280, 280)`: a small copy for the list, scaled by
/// `min(280 / width, 280 / height)` with each side rounded and at least one pixel, so it
/// fits in 280 x 280, touches one of its sides, and keeps the aspect ratio up to that
/// rounding.
#[verifier::external_body]
fn kucuk_kopya(img: &image::DynamicImage) -> (r: image::DynamicImage)
    ensures
        r == kucuk_kopyasi(*img),
        goruntu_genisligi(*img) > 0 && goruntu_yuksekligi(*img) > 0 ==> kucuk_olcu_uyar(*img, r),
{
    img.thumbnail(280, 280)
}

// ---------------------------------------------------------------------------
// The logic
// ---------------------------------------------------------------------------

/// The message for bytes that are not a recognised picture.
pub const TANINMAYAN: &'static str = "Bu dosya tanınan bir resim değil (PNG, JPEG, WEBP, BMP, TIFF, GIF).";

/// Formats the editor shows without trouble: PNG and JPEG (JPEG was measured to be
/// accepted too).
pub fn gomulebilir(b: Bicim) -> (r: bool)
    ensures
        r <==> (b == Bicim::Png || b == Bicim::Jpeg),
{
    match b {
        Bicim::Png => true,
        Bicim::Jpeg => true,
        Bicim::Diger => false,
    }
}

/// Whether an EXIF orientation value swaps width and height (the quarter turns 5 to 8).
pub open spec fn yon_takas(yon: u16) -> bool {
    5 <= yon <= 8
}

/// The picture turned as an EXIF orientation says.
pub open spec fn yone_gore(img: image::DynamicImage, yon: u16) -> image::DynamicImage {
    if yon == 2 {
        yatay_cevrilmis(img)
    } else if yon == 3 {
        yarim_donmus(img)
    } else if yon == 4 {
        dikey_cevrilmis(img)
    } else if yon == 5 {
        yatay_cevrilmis(ceyrek_donmus(img))
    } else if yon == 6 {
        ceyrek_donmus(img)
    } else if yon == 7 {
        yatay_cevrilmis(ceyrek_geri_donmus(img))
    } else if yon == 8 {
        ceyrek_geri_donmus(img)
    } else {
        img
    }
}

/// What the EXIF orientation values mean (TIFF/EXIF `Orientation` tag): 1 the picture as
/// stored, 2 mirrored left to right, 3 turned half round, 4 mirrored top to bottom, 6 turned
/// a quarter clockwise, 8 a quarter anticlockwise; 5 and 7 are the quarter turns of 6 and 8
/// mirrored. Values outside 1 to 8 leave the picture as it is.
pub proof fn exif_yonleri(img: image::DynamicImage, yon: u16)
    ensures
        yone_gore(img, 6) == ceyrek_donmus(img),
        yone_gore(img, 8) == ceyrek_geri_donmus(img),
        yone_gore(img, 3) == yarim_donmus(img),
        yone_gore(img, 2) == yatay_cevrilmis(img),
        yone_gore(img, 4) == dikey_cevrilmis(img),
        yone_gore(img, 5) == yatay_cevrilmis(ceyrek_donmus(img)),
        yone_gore(img, 7) == yatay_cevrilmis(ceyrek_geri_donmus(img)),
        yon <= 1 || yon > 8 ==> yone_gore(img, yon) == img,
{
}

/// Applies an EXIF orientation to the pixels (so that phone photos do not show sideways or
/// upside down): 2 mirror, 3 half turn, 4 flip, 5 quarter turn and mirror, 6 quarter turn
/// clockwise, 7 quarter turn anticlockwise and mirror, 8 quarter turn anticlockwise; any
/// other value leaves the picture as it is.
pub fn exif_uygula(img: image::DynamicImage, yon: u16) -> (r: image::DynamicImage)
    ensures
        yon_takas(yon) ==> goruntu_genisligi(r) == goruntu_yuksekligi(img) && goruntu_yuksekligi(r)
            == goruntu_genisligi(img),
        !yon_takas(yon) ==> goruntu_genisligi(r) == goruntu_genisligi(img) && goruntu_yuksekligi(r)
            == goruntu_yuksekligi(img),
        r == yone_gore(img, yon),
        yon == 6 ==> r == ceyrek_donmus(img),
        yon == 8 ==> r == ceyrek_geri_donmus(img),
        yon == 3 ==> r == yarim_donmus(img),
        yon == 2 ==> r == yatay_cevrilmis(img),
        yon == 4 ==> r == dikey_cevrilmis(img),
        yon <= 1 || yon > 8 ==> r == img,
{
    if yon == 2 {
        yatay_cevir(&img)
    } else if yon == 3 {
        dondur180(&img)
    } else if yon == 4 {
        dikey_cevir(&img)
    } else if yon == 5 {
        yatay_cevir(&dondur90(&img))
    } else if yon == 6 {
        dondur90(&img)
    } else if yon == 7 {
        yatay_cevir(&dondur270(&img))
    } else if yon == 8 {
        dondur270(&img)
    } else {
        img
    }
}

/// Encodes a picture as PNG.
pub fn png_kodla(img: &image::DynamicImage) -> (r: Result<Vec<u8>, String>)
    ensures
        r matches Ok(v) ==> png_kodlamasi(*img) == Some(v@),
        r is Err ==> png_kodlamasi(*img) is None,
        r matches Err(m) ==> m@ == "PNG kodlanamadı"@,
{
    match png_yaz(img) {
        Ok(v) => Ok(v),
        Err(_) => Err(String::from_str("PNG kodlanamadı")),
    }
}

/// The picture that `DynamicImage::thumbnail_exact` gives at `w` by `h`.
pub uninterp spec fn olceklenmis(img: image::DynamicImage, w: u32, h: u32) -> image::DynamicImage;

/// `DynamicImage::thumbnail_exact`: the picture scaled to exactly `w` by `h` pixels, each
/// source pixel counted in one target pixel (an area average when scaling down).
#[verifier::external_body]
fn olcekle(img: &image::DynamicImage, w: u32, h: u32) -> (r: image::DynamicImage)
    ensures
        r == olceklenmis(*img, w, h),
        goruntu_genisligi(r) == w,
        goruntu_yuksekligi(r) == h,
{
    img.thumbnail_exact(w, h)
}

/// The 8-bit RGBA bytes of a picture, row by row (`to_rgba8().into_raw()`).
pub uninterp spec fn rgba_verisi(img: image::DynamicImage) -> Seq<u8>;

/// `DynamicImage::to_rgba8`, then its raw bytes.
#[verifier::external_body]
fn rgba_verisi_al(img: &image::DynamicImage) -> (r: Vec<u8>)
    ensures
        r@ == rgba_verisi(*img),
{
    img.to_rgba8().into_raw()
}

/// The pixel size read from the header only (a 12 MP photo is not decoded for it).
pub fn olcu(bytes: &[u8]) -> (r: Result<(u32, u32), String>)
    ensures
        r matches Ok(o) ==> baslik_olcusu(bytes@) == Some(o),
        r is Err ==> baslik_olcusu(bytes@) is None,
        r matches Err(m) ==> m@ == "Resim biçimi anlaşılamadı"@ || m@ == "Resim ölçüsü okunamadı"@,
{
    match baslik_oku(bytes) {
        Ok(o) => Ok(o),
        Err(OlcuHatasi::Bicim(_)) => Err(String::from_str("Resim biçimi anlaşılamadı")),
        Err(OlcuHatasi::Olcu(_)) => Err(String::from_str("Resim ölçüsü okunamadı")),
    }
}

/// The orientation a picture carries, as a 16-bit value, when it has one.
pub open spec fn yon(b: Seq<u8>) -> Option<u16> {
    match exif_yon_degeri(b) {
        Some(v) => Some(v as u16),
        None => None,
    }
}

/// The decoded picture turned as the orientation it carries says.
pub open spec fn duzeltilmis(b: Seq<u8>) -> image::DynamicImage {
    match yon(b) {
        Some(o) => yone_gore(cozulmus_goruntu(b).unwrap(), o),
        None => cozulmus_goruntu(b).unwrap(),
    }
}

/// Whether the picture must be turned: it carries an orientation other than 1.
pub open spec fn dondurme_gerekli(b: Seq<u8>) -> bool {
    yon(b) matches Some(o) && o != 1
}

/// Prepares raw bytes for the document (the common path of dropped files, chosen files and
/// the clipboard). PNG and JPEG that need no turning go in byte for byte, with their size
/// read from the header; anything else (an EXIF turn, a format the editor does not show)
/// is decoded, turned as its orientation says, and re-encoded as lossless PNG.
pub fn baytlardan(bytes: Vec<u8>) -> (r: Result<YuklenenResim, String>)
    ensures
        bicim_tahmini(bytes@) is None <==> (r matches Err(m) && m@ == TANINMAYAN@),
        bicim_tahmini(bytes@) matches Some(f) && gomulebilir_spec(f) && !dondurme_gerekli(bytes@)
            ==> {
            &&& (r is Ok <==> baslik_olcusu(bytes@) is Some)
            &&& r matches Ok(y) ==> {
                &&& y.spec.bytes@ == bytes@
                &&& baslik_olcusu(bytes@) == Some((y.spec.px_w, y.spec.px_h))
                &&& y.bicim@ == (if bicim_tahmini(bytes@) == Some(Bicim::Png) { "PNG"@ } else { "JPEG"@ })
                &&& y.orijinal_korundu
                &&& !y.dondurul
            }
        },
        bicim_tahmini(bytes@) matches Some(f) && !(gomulebilir_spec(f) && !dondurme_gerekli(bytes@))
            ==> {
            &&& cozulmus_goruntu(bytes@) is None ==> (r matches Err(m) && m@ == "Resim çözülemedi"@)
            &&& cozulmus_goruntu(bytes@) is Some && png_kodlamasi(duzeltilmis(bytes@)) is Some
                ==> r is Ok
            &&& r matches Err(m) ==> m@ == "Resim çözülemedi"@ || m@ == "PNG kodlanamadı"@
            &&& r matches Ok(y) ==> {
                &&& cozulmus_goruntu(bytes@) is Some
                &&& y.bicim@ == "PNG"@
                &&& !y.orijinal_korundu
                &&& y.dondurul == dondurme_gerekli(bytes@)
                &&& y.spec.bytes@ == png_kodlamasi(duzeltilmis(bytes@)).unwrap()
                &&& y.spec.px_w == goruntu_genisligi(duzeltilmis(bytes@))
                &&& y.spec.px_h == goruntu_yuksekligi(duzeltilmis(bytes@))
            }
        },
{
    proof {
        mesajlar_farkli();
    }
    let fmt = match bicim_tahmin_et(bytes.as_slice()) {
        Some(f) => f,
        None => {
            return Err(String::from_str(TANINMAYAN));
        },
    };
    let yon: Option<u16> = match exif_yonu_oku(bytes.as_slice()) {
        Some(v) => Some(#[verifier::truncate] (v as u16)),
        None => None,
    };
    let dondurme = match yon {
        Some(o) => o != 1,
        None => false,
    };
    if gomulebilir(fmt) && !dondurme {
        let (w, h) = match olcu(bytes.as_slice()) {
            Ok(o) => o,
            Err(e) => {
                return Err(e);
            },
        };
        let bicim = if fmt == Bicim::Png {
            String::from_str("PNG")
        } else {
            String::from_str("JPEG")
        };
        return Ok(
            YuklenenResim {
                spec: ImageSpec { bytes, px_w: w, px_h: h },
                bicim,
                orijinal_korundu: true,
                dondurul: false,
            },
        );
    }
    let mut img = match goruntu_coz(bytes.as_slice()) {
        Ok(i) => i,
        Err(_) => {
            return Err(String::from_str("Resim çözülemedi"));
        },
    };
    match yon {
        Some(o) => {
            img = exif_uygula(img, o);
        },
        None => {},
    }
    let w = genislik(&img);
    let h = yukseklik(&img);
    let png = match png_kodla(&img) {
        Ok(p) => p,
        Err(e) => {
            return Err(e);
        },
    };
    Ok(
        YuklenenResim {
            spec: ImageSpec { bytes: png, px_w: w, px_h: h },
            bicim: String::from_str("PNG"),
            orijinal_korundu: false,
            dondurul: dondurme,
        },
    )
}

/// The error messages of reading a picture differ from that of unrecognised bytes.
proof fn mesajlar_farkli()
    ensures
        TANINMAYAN@ != "Resim biçimi anlaşılamadı"@,
        TANINMAYAN@ != "Resim ölçüsü okunamadı"@,
        TANINMAYAN@ != "Resim çözülemedi"@,
        TANINMAYAN@ != "PNG kodlanamadı"@,
{
    reveal_strlit("Bu dosya tanınan bir resim değil (PNG, JPEG, WEBP, BMP, TIFF, GIF).");
    reveal_strlit("Resim biçimi anlaşılamadı");
    reveal_strlit("Resim ölçüsü okunamadı");
    reveal_strlit("Resim çözülemedi");
    reveal_strlit("PNG kodlanamadı");
    assert(TANINMAYAN@ == "Bu dosya tanınan bir resim değil (PNG, JPEG, WEBP, BMP, TIFF, GIF)."@);
}

/// The long side that gives about 300 DPI across an A4 page.
pub const HEDEF_UZUN_KENAR_300DPI: u32 = 2200;

/// The size a picture is shrunk to: scaled so that its long side becomes `hedef`, each
/// side rounded to the nearest pixel (halves up) and at least one pixel.
pub open spec fn kucuk_olcu(px_w: u32, px_h: u32, hedef: u32) -> (int, int) {
    let uzun: int = if px_w >= px_h { px_w as int } else { px_h as int };
    let nw = yuvarla(px_w * hedef, uzun);
    let nh = yuvarla(px_h * hedef, uzun);
    (if nw < 1 { 1 } else { nw }, if nh < 1 { 1 } else { nh })
}

proof fn kucuk_olcu_siniri(x: u32, uzun: u32, hedef: u32)
    requires
        x <= uzun,
        hedef < uzun,
    ensures
        0 <= yuvarla(x * hedef, uzun as int) <= hedef,
        x == uzun ==> yuvarla(x * hedef, uzun as int) == hedef,
{
    let a = x * hedef;
    assert(0 <= a <= uzun * hedef) by (nonlinear_arith)
        requires
            x <= uzun,
            0 <= hedef,
            0 <= x,
            a == x * hedef,
    ;
    assert((2 * a + uzun) / (2 * uzun) <= hedef) by (nonlinear_arith)
        requires
            0 <= a <= uzun * hedef,
            uzun > 0,
    ;
    assert(0 <= (2 * a + uzun) / (2 * uzun)) by (nonlinear_arith)
        requires
            0 <= a,
            uzun > 0,
    ;
    if x == uzun {
        assert((2 * (uzun * hedef) + uzun) / (2 * uzun) == hedef) by (nonlinear_arith)
            requires
                uzun > 0,
                hedef >= 0,
        ;
    }
}

/// Shrinks a picture so that its long side is `hedef_uzun_kenar` pixels, re-encoded as
/// JPEG (quality 88, which the editor accepts and which is much smaller once reduced). A
/// picture whose long side is already no longer is returned as it is.
pub fn kucult(spec: &ImageSpec, hedef_uzun_kenar: u32) -> (r: Result<ImageSpec, String>)
    ensures
        ({
            let uzun = if spec.px_w >= spec.px_h { spec.px_w } else { spec.px_h };
            &&& uzun <= hedef_uzun_kenar ==> (r matches Ok(v) && v.bytes@ == spec.bytes@ && v.px_w
                == spec.px_w && v.px_h == spec.px_h)
            &&& uzun > hedef_uzun_kenar ==> (r matches Ok(v) ==> {
                &&& (v.px_w as int, v.px_h as int) == kucuk_olcu(spec.px_w, spec.px_h, hedef_uzun_kenar)
                &&& (if v.px_w >= v.px_h { v.px_w } else { v.px_h }) == (if hedef_uzun_kenar >= 1 {
                    hedef_uzun_kenar
                } else {
                    1
                })
                &&& cozulmus_goruntu(spec.bytes@) is Some
                &&& v.bytes@ == jpeg_baytlari(
                    boyutlandirilmis(cozulmus_goruntu(spec.bytes@).unwrap(), v.px_w, v.px_h),
                    88,
                )
            })
            &&& uzun > hedef_uzun_kenar && cozulmus_goruntu(spec.bytes@) is None ==> (r matches Err(
                m,
            ) && m@ == "Küçültme için resim çözülemedi"@)
            &&& r matches Err(m) ==> m@ == "Küçültme için resim çözülemedi"@ || m@ == "JPEG kodlanamadı"@
            &&& uzun > hedef_uzun_kenar && cozulmus_goruntu(spec.bytes@) is Some && hedef_uzun_kenar
                <= 65535 ==> r is Ok
        }),
{
    let uzun = if spec.px_w >= spec.px_h { spec.px_w } else { spec.px_h };
    if uzun <= hedef_uzun_kenar {
        return Ok(spec.kopyala());
    }
    let img = match goruntu_coz(spec.bytes.as_slice()) {
        Ok(i) => i,
        Err(_) => {
            return Err(String::from_str("Küçültme için resim çözülemedi"));
        },
    };
    proof {
        kucuk_olcu_siniri(spec.px_w, uzun, hedef_uzun_kenar);
        kucuk_olcu_siniri(spec.px_h, uzun, hedef_uzun_kenar);
        carpim_siniri(spec.px_w as int, hedef_uzun_kenar as int, 0x1_0000_0000, 0x1_0000_0000);
        carpim_siniri(spec.px_h as int, hedef_uzun_kenar as int, 0x1_0000_0000, 0x1_0000_0000);
    }
    let nw0 = yuvarla_exec(spec.px_w as i128 * hedef_uzun_kenar as i128, uzun as i128);
    let nh0 = yuvarla_exec(spec.px_h as i128 * hedef_uzun_kenar as i128, uzun as i128);
    let nw: u32 = if nw0 < 1 { 1 } else { nw0 as u32 };
    let nh: u32 = if nh0 < 1 { 1 } else { nh0 as u32 };
    let kucuk = yeniden_boyutla(&img, nw, nh);
    let buf = match jpeg_yaz(&kucuk, 88) {
        Ok(b) => b,
        Err(_) => {
            return Err(String::from_str("JPEG kodlanamadı"));
        },
    };
    Ok(ImageSpec { bytes: buf, px_w: nw, px_h: nh })
}

/// A picture from the clipboard (`w` by `h`, 8-bit RGBA) made ready for the document as
/// PNG.
pub fn panodaki_resim(w: u32, h: u32, rgba: Vec<u8>) -> (r: Result<YuklenenResim, String>)
    ensures
        4 * w * h > rgba@.len() ==> (r matches Err(m) && m@ == "Panodaki resim çözülemedi"@),
        r matches Ok(y) ==> {
            &&& y.spec.px_w == w
            &&& y.spec.px_h == h
            &&& y.bicim@ == "PNG"@
            &&& !y.orijinal_korundu
            &&& !y.dondurul
            &&& y.spec.bytes@ == png_kodlamasi(rgba_goruntusu(w, h, rgba@)).unwrap()
        },
        4 * w * h <= rgba@.len() ==> (r is Ok || (r matches Err(m) && m@ == "PNG kodlanamadı"@)),
        4 * w * h <= rgba@.len() && png_kodlamasi(rgba_goruntusu(w, h, rgba@)) is Some ==> r is Ok,
{
    let img = match rgba_goruntu(w, h, rgba) {
        Some(i) => i,
        None => {
            return Err(String::from_str("Panodaki resim çözülemedi"));
        },
    };
    let png = match png_kodla(&img) {
        Ok(p) => p,
        Err(e) => {
            return Err(e);
        },
    };
    Ok(
        YuklenenResim {
            spec: ImageSpec { bytes: png, px_w: w, px_h: h },
            bicim: String::from_str("PNG"),
            orijinal_korundu: false,
            dondurul: false,
        },
    )
}

/// The preview of picture bytes: the data URI of the PNG of a small copy of the decoded
/// picture; nothing when the bytes do not decode or the small copy does not encode as PNG.
pub open spec fn onizleme_metni(b: Seq<u8>) -> Seq<char> {
    match cozulmus_goruntu(b) {
        None => Seq::empty(),
        Some(img) => match png_kodlamasi(kucuk_kopyasi(img)) {
            None => Seq::empty(),
            Some(p) => "data:image/png;base64,"@ + base64_standart(p),
        },
    }
}

/// A small PNG preview of a picture for the list, as a data URI; an empty string when the
/// picture cannot be decoded or the preview cannot be encoded. It never goes into the
/// document.
pub fn onizleme_uret(spec: &ImageSpec) -> (r: String)
    ensures
        r@ == onizleme_metni(spec.bytes@),
        cozulmus_goruntu(spec.bytes@) is Some ==> onizleme_olcusu_uyar(
            cozulmus_goruntu(spec.bytes@).unwrap(),
        ),
{
    let img = match goruntu_coz(spec.bytes.as_slice()) {
        Ok(i) => i,
        Err(_) => {
            return String::new();
        },
    };
    let k = kucuk_kopya(&img);
    let buf = match png_yaz(&k) {
        Ok(b) => b,
        Err(_) => {
            return String::new();
        },
    };
    let mut r = String::from_str("data:image/png;base64,");
    let b64 = base64_kodla(buf.as_slice());
    r.append(b64.as_str());
    r
}

/// The formats the editor shows without trouble.
pub open spec fn gomulebilir_spec(b: Bicim) -> bool {
    b == Bicim::Png || b == Bicim::Jpeg
}


// ---------------------------------------------------------------------------
// Quality steps
// ---------------------------------------------------------------------------

/// Pixels per point of a quality step: three, two and one (the editor's own insertion
/// gives one); the untouched input has none.
pub open spec fn nokta_basina_piksel(k: Kalite) -> int {
    match k {
        Kalite::Orijinal => 0,
        Kalite::Ideal => 3,
        Kalite::Orta => 2,
        Kalite::Kucuk => 1,
    }
}

/// `x / 1000` rounded up.
pub open spec fn binde_tavan(x: int) -> int {
    if x >= 0 { (x + 999) / 1000 } else { -((-x) / 1000) }
}

/// The least pixel count a side keeps at a step: its display size on the page (in
/// thousandths of a point) times the step's pixels per point, rounded up, at least one.
pub open spec fn en_az_piksel(d: int, k: Kalite) -> int {
    let t = binde_tavan(d * nokta_basina_piksel(k));
    if t < 1 { 1 } else { t }
}

/// A reduced width made even: an odd width `w` grows by one pixel, unless that would pass
/// the picture's own width `pw`.
pub open spec fn cift_genislik(w: int, pw: int) -> int {
    if w % 2 == 1 && w + 1 <= pw { w + 1 } else { w }
}

/// The size a picture is reduced to at a quality step, or nothing when it is kept as it is.
/// At [`Kalite::Orijinal`] it is kept. Otherwise each side must keep at least the step's
/// pixels per point of its display size on `page` (see [`en_az_piksel`]); the picture is
/// scaled by the larger of the two side ratios, so that both sides keep that many and the
/// aspect ratio stays, the other side rounded and at least one pixel; last, the width is
/// made even (see [`cift_genislik`]). A picture that already has no more pixels than that
/// on some side is kept: it is never enlarged.
pub open spec fn indirgeme_olcusu(px_w: u32, px_h: u32, k: Kalite, page: PageFormat) -> Option<(int, int)> {
    if k == Kalite::Orijinal {
        None
    } else {
        let (dw, dh) = spec_goruntuleme_boyutu(px_w, px_h, Sizing::FitPage, page, 1000);
        let pw: int = if px_w == 0 { 1 } else { px_w as int };
        let ph: int = if px_h == 0 { 1 } else { px_h as int };
        let a = en_az_piksel(dw, k);
        let b = en_az_piksel(dh, k);
        if a >= pw || b >= ph {
            None
        } else if a * ph >= b * pw {
            let h = yuvarla(ph * a, pw);
            Some((cift_genislik(a, pw), if h < 1 { 1 } else { h }))
        } else {
            let w = yuvarla(pw * b, ph);
            Some((cift_genislik(if w < 1 { 1 } else { w }, pw), b))
        }
    }
}

/// Whether some pixel of 8-bit RGBA data is not fully opaque.
pub open spec fn saydam(d: Seq<u8>) -> bool {
    exists|i: int| 0 <= i && 4 * i + 3 < d.len() && #[trigger] d[4 * i + 3] < 255
}

/// The bytes a reduced picture is stored as: PNG when some pixel is transparent; otherwise
/// the smaller of its PNG and its JPEG (quality 88), PNG on a tie, whichever encodes when
/// only one does; nothing when none does.
pub open spec fn indirgenmis_baytlar(img: image::DynamicImage) -> Option<Seq<u8>> {
    let p = png_kodlamasi(img);
    let jpeg_olur = 1 <= goruntu_genisligi(img) <= 65535 && 1 <= goruntu_yuksekligi(img) <= 65535;
    if saydam(rgba_verisi(img)) {
        p
    } else if !jpeg_olur {
        p
    } else {
        match p {
            None => Some(jpeg_baytlari(img, 88)),
            Some(pb) => if pb.len() <= jpeg_baytlari(img, 88).len() {
                Some(pb)
            } else {
                Some(jpeg_baytlari(img, 88))
            },
        }
    }
}

/// A picture at a quality step, as (bytes, width, height): the input itself when it is
/// kept (see [`indirgeme_olcusu`]); otherwise the decoded picture scaled to the reduced
/// size and stored as [`indirgenmis_baytlar`] says; nothing when it does not decode or
/// does not encode.
pub open spec fn indirgenmis(s: ImageSpec, k: Kalite, page: PageFormat) -> Option<(Seq<u8>, u32, u32)> {
    match indirgeme_olcusu(s.px_w, s.px_h, k, page) {
        None => Some((s.bytes@, s.px_w, s.px_h)),
        Some((nw, nh)) => match cozulmus_goruntu(s.bytes@) {
            None => None,
            Some(img) => match indirgenmis_baytlar(olceklenmis(img, nw as u32, nh as u32)) {
                None => None,
                Some(b) => Some((b, nw as u32, nh as u32)),
            },
        },
    }
}

/// `x / 1000` rounded up.
fn binde_tavan_exec(x: i128) -> (r: i128)
    requires
        -0x1_0000_0000_0000_0000_0000_0000_0000 < x < 0x1_0000_0000_0000_0000_0000_0000_0000,
    ensures
        r == binde_tavan(x as int),
{
    if x >= 0 { (x + 999) / 1000 } else { -((-x) / 1000) }
}

/// The least pixel count a side keeps at a step (see [`en_az_piksel`]).
fn en_az_piksel_exec(d: i128, k: Kalite) -> (r: i128)
    requires
        -0x1_0000_0000_0000_0000_0000_0000 <= d <= 0x1_0000_0000_0000_0000_0000_0000,
    ensures
        r == en_az_piksel(d as int, k),
{
    let c: i128 = match k {
        Kalite::Orijinal => 0,
        Kalite::Ideal => 3,
        Kalite::Orta => 2,
        Kalite::Kucuk => 1,
    };
    let t = binde_tavan_exec(d * c);
    if t < 1 { 1 } else { t }
}

/// The size a picture is reduced to at a quality step (see [`indirgeme_olcusu`]).
pub fn indirgeme_boyutu(px_w: u32, px_h: u32, k: Kalite, page: &PageFormat) -> (r: Option<(u32, u32)>)
    ensures
        match indirgeme_olcusu(px_w, px_h, k, *page) {
            None => r is None,
            Some((w, h)) => r matches Some((rw, rh)) && rw == w && rh == h,
        },
{
    if k == Kalite::Orijinal {
        return None;
    }
    let (dw, dh) = boyut_hesapla(px_w, px_h, Sizing::FitPage, page, 1000);
    let pw: i128 = if px_w == 0 { 1 } else { px_w as i128 };
    let ph: i128 = if px_h == 0 { 1 } else { px_h as i128 };
    let a = en_az_piksel_exec(dw, k);
    let b = en_az_piksel_exec(dh, k);
    if a >= pw || b >= ph {
        return None;
    }
    proof {
        assert(1 <= a * ph <= 0x1_0000_0000 * 0x1_0000_0000) by (nonlinear_arith)
            requires 1 <= a < pw, 1 <= ph <= 0x1_0000_0000, pw <= 0x1_0000_0000;
        assert(1 <= b * pw <= 0x1_0000_0000 * 0x1_0000_0000) by (nonlinear_arith)
            requires 1 <= b < ph, 1 <= pw <= 0x1_0000_0000, ph <= 0x1_0000_0000;
    }
    if a * ph >= b * pw {
        proof {
            assert(0 <= ph * a <= 0x1_0000_0000 * 0x1_0000_0000) by (nonlinear_arith)
                requires 1 <= a < pw, 1 <= ph <= 0x1_0000_0000, pw <= 0x1_0000_0000;
            assert(yuvarla(ph * a, pw as int) <= ph) by (nonlinear_arith)
                requires 1 <= a < pw, 1 <= ph, yuvarla(ph * a, pw as int) == (2 * (ph * a) + pw) / (2 * pw);
        }
        let h = yuvarla_exec(ph * a, pw);
        let h = if h < 1 { 1 } else { h };
        let w = if a % 2 == 1 && a + 1 <= pw { a + 1 } else { a };
        Some((w as u32, h as u32))
    } else {
        proof {
            assert(0 <= pw * b <= 0x1_0000_0000 * 0x1_0000_0000) by (nonlinear_arith)
                requires 1 <= b < ph, 1 <= pw <= 0x1_0000_0000, ph <= 0x1_0000_0000;
            assert(yuvarla(pw * b, ph as int) <= pw) by (nonlinear_arith)
                requires 1 <= b < ph, 1 <= pw, yuvarla(pw * b, ph as int) == (2 * (pw * b) + ph) / (2 * ph);
        }
        let w = yuvarla_exec(pw * b, ph);
        let w = if w < 1 { 1 } else { w };
        let w = if w % 2 == 1 && w + 1 <= pw { w + 1 } else { w };
        Some((w as u32, b as u32))
    }
}

/// Whether some pixel of 8-bit RGBA data is not fully opaque.
fn saydam_mi(d: &Vec<u8>) -> (r: bool)
    ensures
        r == saydam(d@),
{
    let m = d.len() / 4;
    let mut p: usize = 0;
    while p < m
        invariant
            m == d@.len() / 4,
            d@.len() <= usize::MAX,
            p <= m,
            forall|j: int| 0 <= j < p ==> #[trigger] d@[4 * j + 3] == 255,
        decreases m - p,
    {
        if d[4 * p + 3] < 255 {
            return true;
        }
        p = p + 1;
    }
    assert forall|j: int| 0 <= j && 4 * j + 3 < d@.len() implies #[trigger] d@[4 * j + 3] == 255 by {
        assert(j < m);
    }
    false
}

/// A picture at its quality step (see [`indirgenmis`]): the input untouched when it is
/// kept (always at [`Kalite::Orijinal`], and at every step for a picture that has no more
/// pixels than the step keeps); otherwise scaled down and stored as PNG or JPEG, whichever
/// is smaller (PNG when a pixel is transparent). It fails exactly when a reduced picture
/// does not decode or does not encode.
pub fn kaliteye_indir(spec: &ImageSpec, kalite: Kalite, page: &PageFormat) -> (r: Result<ImageSpec, String>)
    ensures
        r is Ok <==> indirgenmis(*spec, kalite, *page) is Some,
        r matches Ok(v) ==> indirgenmis(*spec, kalite, *page) == Some((v.bytes@, v.px_w, v.px_h)),
        indirgeme_olcusu(spec.px_w, spec.px_h, kalite, *page) is None ==> (r matches Ok(v)
            && v.bytes@ == spec.bytes@ && v.px_w == spec.px_w && v.px_h == spec.px_h),
        indirgeme_olcusu(spec.px_w, spec.px_h, kalite, *page) is Some ==> (r matches Ok(v) ==> exists|
            m: image::DynamicImage,
        |
            #![trigger indirgenmis_baytlar(m)]
            goruntu_genisligi(m) == v.px_w && goruntu_yuksekligi(m) == v.px_h && indirgenmis_baytlar(m)
                == Some(v.bytes@)),
{
    let (nw, nh) = match indirgeme_boyutu(spec.px_w, spec.px_h, kalite, page) {
        None => {
            return Ok(spec.kopyala());
        },
        Some(o) => o,
    };
    let img = match goruntu_coz(spec.bytes.as_slice()) {
        Ok(i) => i,
        Err(_) => {
            return Err(String::from_str("Küçültme için resim çözülemedi"));
        },
    };
    let kucuk = olcekle(&img, nw, nh);
    let rgba = rgba_verisi_al(&kucuk);
    let png = png_yaz(&kucuk);
    if saydam_mi(&rgba) {
        return match png {
            Ok(p) => Ok(ImageSpec { bytes: p, px_w: nw, px_h: nh }),
            Err(_) => Err(String::from_str("Resim kodlanamadı")),
        };
    }
    let jpeg = jpeg_yaz(&kucuk, 88);
    let bytes = match (png, jpeg) {
        (Ok(p), Ok(j)) => if p.len() <= j.len() { p } else { j },
        (Ok(p), Err(_)) => p,
        (Err(_), Ok(j)) => j,
        (Err(_), Err(_)) => {
            return Err(String::from_str("Resim kodlanamadı"));
        },
    };
    Ok(ImageSpec { bytes, px_w: nw, px_h: nh })
}

/// The place picture bytes take once pasted into the editor: their own size for a PNG,
/// otherwise the size of the decoded picture's PNG; nothing when they do not decode or do
/// not encode.
pub open spec fn yapistirma_olcusu(b: Seq<u8>) -> Option<int> {
    if bayt_onek(b, png_imzasi()) {
        Some(b.len() as int)
    } else {
        match cozulmus_goruntu(b) {
            None => None,
            Some(img) => match png_kodlamasi(img) {
                None => None,
                Some(p) => Some(p.len() as int),
            },
        }
    }
}

/// The place a picture takes once pasted into the editor, which re-encodes every picture
/// as PNG: a PNG's own size, otherwise the size of the decoded picture's PNG encoding.
pub fn yapistirma_boyutu(spec: &ImageSpec) -> (r: Result<usize, String>)
    ensures
        r is Ok <==> yapistirma_olcusu(spec.bytes@) is Some,
        r matches Ok(n) ==> yapistirma_olcusu(spec.bytes@) == Some(n as int),
{
    let b = spec.bytes.as_slice();
    if b.len() >= 8 && b[0] == 0x89 && b[1] == 0x50 && b[2] == 0x4e && b[3] == 0x47 && b[4] == 0x0d
        && b[5] == 0x0a && b[6] == 0x1a && b[7] == 0x0a {
        assert(spec.bytes@.take(8) =~= png_imzasi());
        return Ok(spec.bytes.len());
    }
    proof {
        if bayt_onek(spec.bytes@, png_imzasi()) {
            assert(spec.bytes@.take(8)[0] == png_imzasi()[0]);
            assert(spec.bytes@.take(8)[1] == png_imzasi()[1]);
            assert(spec.bytes@.take(8)[2] == png_imzasi()[2]);
            assert(spec.bytes@.take(8)[3] == png_imzasi()[3]);
            assert(spec.bytes@.take(8)[4] == png_imzasi()[4]);
            assert(spec.bytes@.take(8)[5] == png_imzasi()[5]);
            assert(spec.bytes@.take(8)[6] == png_imzasi()[6]);
            assert(spec.bytes@.take(8)[7] == png_imzasi()[7]);
        }
    }
    let img = match goruntu_coz(b) {
        Ok(i) => i,
        Err(_) => {
            return Err(String::from_str("Resim çözülemedi"));
        },
    };
    match png_yaz(&img) {
        Ok(p) => Ok(p.len()),
        Err(_) => Err(String::from_str("PNG kodlanamadı")),
    }
}

} // verus!
