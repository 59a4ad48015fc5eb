//! User settings. The library holds their shape and their defaults; reading and writing
//! the settings file (`%APPDATA%\UDF Resimcisi\ayarlar.json`) is done outside.

use vstd::prelude::*;

verus! {

/// Working mode.
#[derive(Debug, Clone, Copy, PartialEq, Eq, Structural)]
pub enum Kip {
    /// Copy to the clipboard (through the editor).
    PanoyaKopyala,
    /// Open the UDF.
    UdfyiAc,
}

/// Display size preference.
#[derive(Debug, Clone, Copy, PartialEq, Eq, Structural)]
pub enum BoyutTercihi {
    SayfayaSigdir,
    YuzdeYuz,
    /// A fixed width, in hundredths of a centimetre.
    GenislikCm(i32),
}

/// The user's settings.
#[derive(Debug)]
pub struct Ayarlar {
    pub kip: Kip,
    /// Whether Ctrl+A / Ctrl+C are sent automatically.
    pub otomasyon: bool,
    /// Every picture on a page of its own.
    pub ayri_sayfa: bool,
    pub boyut: BoyutTercihi,
    pub cikti_klasoru: String,
    /// Warn when the output is over 9 MB.
    pub uyari_9mb: bool,
    /// Minimise the window after the work is done.
    pub islem_sonrasi_kucult: bool,
}

impl Ayarlar {
    /// The default settings, writing documents to `cikti_klasoru`: clipboard mode with
    /// automation, separate pages, fitted to the page, the 9 MB warning on, the window not
    /// minimised afterwards.
    pub fn varsayilan(cikti_klasoru: String) -> (a: Ayarlar)
        ensures
            a.kip == Kip::PanoyaKopyala,
            a.otomasyon,
            a.ayri_sayfa,
            a.boyut == BoyutTercihi::SayfayaSigdir,
            a.cikti_klasoru == cikti_klasoru,
            a.uyari_9mb,
            !a.islem_sonrasi_kucult,
    {
        Ayarlar {
            kip: Kip::PanoyaKopyala,
            otomasyon: true,
            ayri_sayfa: true,
            boyut: BoyutTercihi::SayfayaSigdir,
            cikti_klasoru,
            uyari_9mb: true,
            islem_sonrasi_kucult: false,
        }
    }
}

} // verus!
