use udf_resimcisi::settings::{Ayarlar, BoyutTercihi, Kip};
use udf_resimcisi::metin::iceriyor;
use udf_resimcisi::ude::{
    arama_deseni, kopyalama_sonucu, pencere_adimi, pencere_eslesir, ude_exe_yolu, KopyalamaSonucu,
    PencereAdimi,
};

#[test]
fn varsayilanlar_spec_ile_uyusuyor() {
    // The folder is built as the application builds it: the user's Documents folder and
    // `UDF Resimcisi` under it.
    let klasor = std::path::PathBuf::from("ev").join("Documents").join("UDF Resimcisi");
    let klasor = klasor.to_string_lossy().to_string();
    let a = Ayarlar::varsayilan(klasor.clone());
    assert_eq!(a.cikti_klasoru, klasor, "the output folder is the one given");
    assert_eq!(a.kip, Kip::PanoyaKopyala);
    assert!(a.otomasyon);
    assert!(a.ayri_sayfa);
    assert_eq!(a.boyut, BoyutTercihi::SayfayaSigdir);
    assert!(a.uyari_9mb);
    assert!(!a.islem_sonrasi_kucult);
    assert!(a.cikti_klasoru.ends_with("UDF Resimcisi"));
}

#[test]
fn kayit_defterinden_ude_yolu_okunabiliyorsa_exe_ile_biter() {
    // The open command the editor registers for `.udf` files.
    let komut = "\"C:\\Uyap\\Uyap Kelime Islemci\\Uyap Doküman Editörü.exe\" \"getNewWPInstance\" \"EDITOR_TYPE_DOCUMENT\" \"%1\" \"%~s1\"";
    if let Some(p) = ude_exe_yolu(komut) {
        assert!(p.to_lowercase().ends_with(".exe"), "beklenmeyen komut ayrıştırması: {p}");
    }
}

#[test]
fn ude_komutu_ayristirilir() {
    let komut = "  \"C:\\Uyap\\Uyap Kelime Islemci\\Uyap Doküman Editörü.exe\" \"getNewWPInstance\" \"%1\"";
    assert_eq!(
        ude_exe_yolu(komut).as_deref(),
        Some("C:\\Uyap\\Uyap Kelime Islemci\\Uyap Doküman Editörü.exe")
    );
    assert_eq!(ude_exe_yolu("C:\\ude.exe %1").as_deref(), Some("C:\\ude.exe"));
    assert_eq!(ude_exe_yolu("   "), None);
    assert_eq!(ude_exe_yolu("\"yarım").as_deref(), Some("yarım"));
}

#[test]
fn kopyalama_karari() {
    assert_eq!(kopyalama_sonucu(false, 3, 4), KopyalamaSonucu::PencereYok);
    assert_eq!(kopyalama_sonucu(true, 3, 3), KopyalamaSonucu::PanoDegismedi);
    assert_eq!(kopyalama_sonucu(true, 3, 4), KopyalamaSonucu::Panoda);
}

#[test]
fn pencere_eslesme_kurallari() {
    let desen = arama_deseni("Belge-ABC.UDF");
    assert_eq!(desen, "belge-abc.udf");
    assert!(pencere_eslesir(true, "SunAwtFrame", "SunAwtFrame", "UDE - Belge-abc.udf (C:\\x)", &desen));
    assert!(!pencere_eslesir(false, "SunAwtFrame", "SunAwtFrame", "UDE - Belge-abc.udf", &desen));
    assert!(!pencere_eslesir(true, "JavaSplash", "SunAwtFrame", "UDE - Belge-abc.udf", &desen));
    assert!(pencere_eslesir(true, "JavaSplash", "", "UDE - BELGE-ABC.UDF", &desen));
    assert!(!pencere_eslesir(true, "SunAwtFrame", "", "başka.udf", &desen));
    assert!(!pencere_eslesir(true, "SunAwtFrame", "", "", &desen));
    assert!(pencere_eslesir(true, "JavaSplash", "JavaSplash", "", ""));
}

#[test]
fn pencere_bekleme_adimlari() {
    assert_eq!(pencere_adimi(true, 99, 10), PencereAdimi::Bulundu);
    assert_eq!(pencere_adimi(false, 10, 10), PencereAdimi::SureDoldu);
    assert_eq!(pencere_adimi(false, 9, 10), PencereAdimi::Yokla);
}

#[test]
fn metin_arama() {
    assert!(iceriyor("abcabd", "abd"));
    assert!(!iceriyor("abcab", "abd"));
    assert!(iceriyor("x", ""));
    assert!(!iceriyor("", "x"));
    assert!(iceriyor("çağrı şahin", "ğrı ş"));
}

#[test]
fn olmayan_pencere_bulunmaz() {
    let desen = arama_deseni("bu-baslikta-bir-pencere-yok-12345");
    let pencereler = [
        (true, "SunAwtFrame", "UYAP Doküman Editörü - belge.udf"),
        (true, "CabinetWClass", "Belgeler"),
        (false, "JavaSplash", ""),
    ];
    assert!(!pencereler.iter().any(|(g, s, b)| pencere_eslesir(*g, s, "", b, &desen)));
}

#[test]
fn kisa_beklemede_bulunamayan_pencere_none() {
    // Polled every 250 ms against a 400 ms limit, a window that never appears gives up.
    let bitis = 400;
    let mut simdi = 0;
    let sonuc = loop {
        match pencere_adimi(false, simdi, bitis) {
            PencereAdimi::Bulundu => break Some(simdi),
            PencereAdimi::SureDoldu => break None,
            PencereAdimi::Yokla => simdi += 250,
        }
    };
    assert!(sonuc.is_none());
    assert!(simdi < 3000);
}
