use udf_resimcisi::commands::{
    aday_dosya_adi, benzersiz_ad, govde_sec, pano_govdesi, guncelleme_karari, guncelleme_yanitla, secenekler, surum_daha_yeni,
    surum_parcala, temiz_dosya_adi, yukleme_kaydi, BelgeHatasi, KaliteTablosu, Kayit, Oturum,
    SurumSorgusu, SurumVarligi, SurumYaniti, KURULUM_DOSYASI, LISTE_BOS, RESIM_BULUNAMADI,
};
use udf_resimcisi::udf::build_udf;
use udf_resimcisi::image_io::{
    baytlardan, indirgeme_boyutu, kaliteye_indir, png_kodla, yapistirma_boyutu, Kalite,
    YuklenenResim,
};
use udf_resimcisi::udf::model::PageFormat;
use udf_resimcisi::udf::{ImageSpec, Sizing};

#[test]
fn dosya_adi_yasak_karakterleri_temizler() {
    assert_eq!(temiz_dosya_adi("a:b*c?d"), "a_b_c_d");
    assert_eq!(temiz_dosya_adi("normal ad"), "normal ad");
}

#[test]
fn surum_karsilastirma() {
    assert!(surum_parcala("v1.2.0") > surum_parcala("1.1.9"));
    assert!(surum_parcala("v1.1.0") == surum_parcala("1.1.0"));
    assert!(surum_parcala("v0.9.0") < surum_parcala("1.0.0"));
    assert_eq!(surum_parcala("bozuk"), (0, 0, 0));
}

/// A PNG that does not fit the page and is not a single colour.
fn buyuk_png() -> Vec<u8> {
    let img = image::DynamicImage::ImageRgb8(image::RgbImage::from_fn(2400, 1600, |x, y| {
        image::Rgb([(x % 256) as u8, (y % 256) as u8, ((x + y) % 256) as u8])
    }));
    png_kodla(&img).unwrap()
}

/// An entry of the list from those bytes.
fn kayit(png: &[u8], kalite: Kalite) -> Kayit {
    Kayit::yeni("a.png".to_string(), baytlardan(png.to_vec()).unwrap(), kalite)
}

#[test]
fn her_resim_kendi_kalitesiyle_hazirlanir() {
    let png = buyuk_png();
    let mut liste = Oturum {
        resimler: vec![
            kayit(&png, Kalite::Orijinal),
            kayit(&png, Kalite::Kucuk),
            kayit(&png, Kalite::Ideal),
        ],
    };
    let sayfa = PageFormat::default();
    let specler = liste.specleri_hazirla(&sayfa).unwrap();

    assert_eq!(specler[0].bytes, liste.resimler[0].resim.spec.bytes, "orijinal: baytlara dokunulmaz");
    assert!(specler[1].px_w < specler[2].px_w, "küçük, idealden az piksel taşır");
    assert!(specler[2].px_w < specler[0].px_w, "ideal, orijinalden az piksel taşır");

    // The common choice brings all to the same step, and the output becomes the same.
    liste.kaliteyi_hepsine_uygula(Kalite::Kucuk);
    let specler = liste.specleri_hazirla(&sayfa).unwrap();
    assert!(specler.iter().all(|s| s.bytes == specler[1].bytes));
}

fn kucuk_resim(ad: &str) -> Kayit {
    let img = image::DynamicImage::ImageRgb8(image::RgbImage::from_pixel(30, 20, image::Rgb([5, 6, 7])));
    let png = png_kodla(&img).unwrap();
    Kayit::yeni(ad.to_string(), baytlardan(png).unwrap(), Kalite::Ideal)
}

#[test]
fn aday_adlari_numaralanir() {
    assert_eq!(aday_dosya_adi("belge", 1), "belge.udf");
    assert_eq!(aday_dosya_adi("belge", 2), "belge (2).udf");
    assert_eq!(aday_dosya_adi("belge", 13), "belge (13).udf");
}

#[test]
fn govde_ilk_resmin_adindan() {
    assert_eq!(govde_sec("tarama.png"), "tarama");
    assert_eq!(govde_sec("arsiv.tar.gz"), "arsiv.tar");
    assert_eq!(govde_sec(".gizli"), ".gizli");
    assert_eq!(govde_sec(""), "resim");
    let g = govde_sec("pano-1.png");
    assert!(g.starts_with("resimler-"));
    let damga: Vec<char> = g["resimler-".len()..].chars().collect();
    assert_eq!(damga.len(), 13);
    assert_eq!(damga[8], '-');
    assert!(damga.iter().enumerate().all(|(i, c)| i == 8 || c.is_ascii_digit()));
}

#[test]
fn pano_govdesi_damgayi_ekler() {
    assert_eq!(pano_govdesi("20240521-0930"), "resimler-20240521-0930");
    assert_eq!(pano_govdesi(""), "resimler-");
}

#[test]
fn dosya_adi_bosluklari_kirpilir() {
    assert_eq!(temiz_dosya_adi("  <dava>  "), "_dava_");
    assert_eq!(temiz_dosya_adi("a|b\\c/d\"e"), "a_b_c_d_e");
}

#[test]
fn surum_alanlari() {
    assert_eq!(surum_parcala("v1.2.0"), (1, 2, 0));
    assert_eq!(surum_parcala("2"), (2, 0, 0));
    assert_eq!(surum_parcala("1.x.3"), (1, 0, 3));
    assert_eq!(surum_parcala("1.2.99999999999"), (1, 2, 0));
    assert!(surum_daha_yeni((1, 2, 0), (1, 1, 9)));
    assert!(!surum_daha_yeni((1, 1, 0), (1, 1, 0)));
    assert!(!surum_daha_yeni((0, 9, 0), (1, 0, 0)));
}

#[test]
fn guncelleme_yeni_surum_adresiyle() {
    let y = SurumYaniti {
        etiket: Some("v1.4.0".to_string()),
        varliklar: Some(vec![
            SurumVarligi { ad: Some("notlar.txt".to_string()), adres: Some("x".to_string()) },
            SurumVarligi {
                ad: Some(KURULUM_DOSYASI.to_string()),
                adres: Some("https://ornek/kurulum.exe".to_string()),
            },
        ]),
    };
    let r = guncelleme_karari("1.3.0", SurumSorgusu::Yanit(y));
    assert_eq!(r.durum, "yeni-surum-var");
    assert_eq!(r.mesaj, "Yeni sürüm var: v1.4.0");
    assert_eq!(r.bu_surum, "1.3.0");
    assert_eq!(r.yeni_surum, "v1.4.0");
    assert_eq!(r.indirme_adresi, "https://ornek/kurulum.exe");
}

#[test]
fn guncelleme_guncel_ve_ulasilamadi() {
    let y = SurumYaniti { etiket: Some("1.3.0".to_string()), varliklar: None };
    let r = guncelleme_karari("1.3.0", SurumSorgusu::Yanit(y));
    assert_eq!(r.durum, "guncel");
    assert_eq!(r.mesaj, "En son sürümü kullanıyorsunuz (1.3.0).");
    assert_eq!(r.indirme_adresi, "");

    let r = guncelleme_karari("1.3.0", SurumSorgusu::Ulasilamadi("zaman aşımı".to_string()));
    assert_eq!(r.durum, "ulasilamadi");
    assert_eq!(r.mesaj, "Sürüm bilgisi alınamadı; internet bağlantınızı denetleyin. (zaman aşımı)");

    let r = guncelleme_karari("1.3.0", SurumSorgusu::Okunamadi("bozuk".to_string()));
    assert_eq!(r.durum, "ulasilamadi");
    assert_eq!(r.mesaj, "Sürüm bilgisi okunamadı: bozuk");

    let y = SurumYaniti { etiket: None, varliklar: Some(vec![]) };
    let r = guncelleme_karari("1.3.0", SurumSorgusu::Yanit(y));
    assert_eq!(r.durum, "ulasilamadi");
    assert_eq!(r.mesaj, "Yayımlanmış bir sürüm bulunamadı.");
    assert_eq!(r.yeni_surum, "");
}

#[test]
fn kalite_tablosu_adim_adim() {
    let mut t: KaliteTablosu<u32> = KaliteTablosu::bos();
    assert!(t.al(Kalite::Orta).is_none());
    t.koy(Kalite::Orta, 7);
    t.koy(Kalite::Kucuk, 9);
    assert_eq!(t.al(Kalite::Orta), Some(&7));
    assert_eq!(t.al(Kalite::Kucuk), Some(&9));
    assert!(t.al(Kalite::Ideal).is_none());
}

#[test]
fn liste_islemleri() {
    let mut o = Oturum::yeni();
    let hatalar = o.yuklenenleri_ekle(vec![
        Ok(kucuk_resim("a.png")),
        Err("bozuk".to_string()),
        Ok(kucuk_resim("a.png")),
    ]);
    assert_eq!(hatalar, vec!["bozuk".to_string()]);
    assert_eq!(o.resimler.len(), 2, "aynı resim iki kez eklenebilir");

    let img = image::DynamicImage::ImageRgb8(image::RgbImage::from_pixel(3, 3, image::Rgb([1, 1, 1])));
    let y = YuklenenResim {
        spec: ImageSpec { bytes: png_kodla(&img).unwrap(), px_w: 3, px_h: 3 },
        bicim: "PNG".to_string(),
        orijinal_korundu: false,
        dondurul: false,
    };
    o.panodan_ekle(y, Kalite::Kucuk);
    assert_eq!(o.resimler[2].ad, "pano-3.png");

    assert_eq!(o.resim_kalitesi(5, Kalite::Orta), Err(RESIM_BULUNAMADI.to_string()));
    assert_eq!(o.resim_kalitesi(1, Kalite::Orta), Ok(()));
    assert_eq!(o.resimler[1].kalite, Kalite::Orta);
    assert_eq!(o.resimler[0].kalite, Kalite::Ideal);

    o.resmi_cikar(9);
    assert_eq!(o.resimler.len(), 3);
    o.resmi_cikar(0);
    assert_eq!(o.resimler.len(), 2);
    assert_eq!(o.resimler[0].kalite, Kalite::Orta);
    o.listeyi_temizle();
    assert!(o.resimler.is_empty());
    assert_eq!(LISTE_BOS, "Önce bir resim ekleyin.");
}

#[test]
fn bos_listeden_belge_olmaz() {
    let mut o = Oturum::yeni();
    assert!(matches!(o.belge_uret(true), Err(BelgeHatasi::ListeBos)));
}

#[test]
fn belge_uretilir_ve_pay_olculur() {
    let mut o = Oturum::yeni();
    o.yuklenenleri_ekle(vec![Ok(kucuk_resim("dava dosyası.png")), Ok(kucuk_resim("b.png"))]);
    let (bayt, ad, paylar) = o.belge_uret(false).unwrap();
    assert_eq!(ad, "dava dosyası");
    assert_eq!(paylar.len(), 2);
    assert_eq!(paylar[0], o.resimler[0].resim.spec.bytes.len() as u64);
    assert_eq!(&bayt[0..2], b"PK");
}

#[test]
fn indirme_bir_kez_yapilir() {
    let img = image::DynamicImage::ImageRgb8(image::RgbImage::from_pixel(600, 400, image::Rgb([3, 3, 3])));
    let y = baytlardan(png_kodla(&img).unwrap()).unwrap();
    let mut k = Kayit::yeni("a.png".to_string(), y, Kalite::Kucuk);
    let sayfa = PageFormat::default();
    let ilk = k.gomulecek(&sayfa).unwrap();
    assert_eq!((ilk.px_w, ilk.px_h), (526, 350));
    let saklanan = k.onbellek.al(Kalite::Kucuk).unwrap();
    assert_eq!(saklanan.bytes, ilk.bytes, "the reduced version is kept for its step");
    let ikinci = k.gomulecek(&sayfa).unwrap();
    assert_eq!(ilk.bytes, ikinci.bytes);

    let p = k.yapistirma_payi().unwrap();
    assert_eq!(p, yapistirma_boyutu(&ilk).unwrap());
    assert_eq!(k.yapistirma_onbellek.al(Kalite::Kucuk), Some(&p));
    assert_eq!(k.yapistirma_payi().unwrap(), p);
}

#[test]
fn pencere_secenekleri_a4() {
    let o = secenekler(true);
    assert!(o.separate_pages);
    assert_eq!(o.sizing, Sizing::FitPage);
    assert_eq!(o.page, PageFormat::default());
    assert!(!secenekler(false).separate_pages);
}

#[test]
fn guncelleme_json_yanitindan() {
    let govde = r#"{"tag_name":"v2.0.1","assets":[{"name":"UDF-Resimcisi-x64.msi","browser_download_url":"https://o/msi"},{"name":"UDF-Resimcisi-kurulum.exe","browser_download_url":"https://o/kurulum.exe"}]}"#;
    let r = guncelleme_yanitla("1.5.0", Ok(govde.to_string()));
    assert_eq!(r.durum, "yeni-surum-var");
    assert_eq!(r.yeni_surum, "v2.0.1");
    assert_eq!(r.indirme_adresi, "https://o/kurulum.exe");

    let r = guncelleme_yanitla("1.5.0", Ok("{\"tag_name\": 3}".to_string()));
    assert_eq!(r.durum, "ulasilamadi");
    assert_eq!(r.mesaj, "Yayımlanmış bir sürüm bulunamadı.");

    let r = guncelleme_yanitla("1.5.0", Ok("<html>404</html>".to_string()));
    assert_eq!(r.durum, "ulasilamadi");
    assert!(r.mesaj.starts_with("Sürüm bilgisi okunamadı: "), "{}", r.mesaj);

    let r = guncelleme_yanitla("1.5.0", Err("bağlantı yok".to_string()));
    assert_eq!(r.mesaj, "Sürüm bilgisi alınamadı; internet bağlantınızı denetleyin. (bağlantı yok)");
    assert_eq!(r.bu_surum, "1.5.0");
}

#[test]
fn yukleme_kaydi_hata_adla() {
    let img = image::DynamicImage::ImageRgb8(image::RgbImage::from_pixel(2, 2, image::Rgb([1, 1, 1])));
    let y = baytlardan(png_kodla(&img).unwrap()).unwrap();
    let k = yukleme_kaydi("a.png".to_string(), Ok(y), Kalite::Orta).unwrap();
    assert_eq!(k.ad, "a.png");
    assert_eq!(k.kalite, Kalite::Orta);
    let e = yukleme_kaydi("b.txt".to_string(), Err("tanınmadı".to_string()), Kalite::Orta).unwrap_err();
    assert_eq!(e, "b.txt: tanınmadı");
}

#[test]
fn boyut_satiri() {
    let mut bos = Oturum::yeni();
    let b = bos.belge_boyutu(true).unwrap();
    assert_eq!((b.dosya, b.yapistirma, b.resimler.len()), (0, 0, 0));

    let mut o = Oturum::yeni();
    o.yuklenenleri_ekle(vec![Ok(kucuk_resim("a.png")), Ok(kucuk_resim("b.png"))]);
    let b = o.belge_boyutu(true).unwrap();
    let specler: Vec<ImageSpec> = o.resimler.iter().map(|k| k.resim.spec.kopyala()).collect();
    let beklenen = build_udf(&specler, &secenekler(true)).unwrap();
    assert_eq!(b.dosya, beklenen.len() as u64);
    let tek = o.resimler[0].resim.spec.bytes.len();
    assert_eq!(b.resimler, vec![tek as u64, tek as u64]);
    assert_eq!(b.yapistirma, (2 * tek) as u64, "a PNG is pasted at its own size");

    // A picture kept as it is but whose bytes do not decode cannot be measured.
    let bozuk = YuklenenResim {
        spec: ImageSpec { bytes: vec![1, 2, 3], px_w: 30, px_h: 20 },
        bicim: "PNG".to_string(),
        orijinal_korundu: true,
        dondurul: false,
    };
    let mut o2 = Oturum::yeni();
    o2.yuklenenleri_ekle(vec![Ok(Kayit::yeni("x.png".to_string(), bozuk, Kalite::Ideal))]);
    assert!(matches!(o2.belge_boyutu(false), Err(BelgeHatasi::Olcum(_))));
}

#[test]
fn yapistirma_toplami_toplar() {
    let mut o = Oturum::yeni();
    o.yuklenenleri_ekle(vec![Ok(kucuk_resim("a.png")), Ok(kucuk_resim("b.png"))]);
    let t = o.yapistirma_toplami().unwrap();
    assert_eq!(t, 2 * o.resimler[0].resim.spec.bytes.len() as u64);
}

#[test]
fn liste_satirlari() {
    let mut o = Oturum::yeni();
    o.yuklenenleri_ekle(vec![Ok(kucuk_resim("a.png")), Ok(kayit(&genis_png(), Kalite::Kucuk))]);
    let s = o.satirlar();
    assert_eq!(s.len(), 2);
    assert_eq!((s[0].indeks, s[0].ad.as_str(), s[0].px_w, s[0].px_h), (0, "a.png", 30, 20));
    assert_eq!((s[0].genislik, s[0].yukseklik), (30000, 20000));
    assert_eq!((s[1].genislik, s[1].yukseklik), (524410, 349607));
    assert_eq!(s[1].kalite, Kalite::Kucuk);
    assert_eq!(s[0].bicim, "PNG");
    assert!(s[0].onizleme.starts_with("data:image/png;base64,"));
}

/// A single-colour 600 x 400 PNG, wider than the page.
fn genis_png() -> Vec<u8> {
    let img = image::DynamicImage::ImageRgb8(image::RgbImage::from_pixel(600, 400, image::Rgb([3, 3, 3])));
    png_kodla(&img).unwrap()
}

#[test]
fn kalite_boyutlari() {
    let pf = PageFormat::default();
    // 3000 x 2000 fitted to the page is 524.41 x 349.61 pt.
    assert_eq!(indirgeme_boyutu(3000, 2000, Kalite::Ideal, &pf), Some((1574, 1049)));
    assert_eq!(indirgeme_boyutu(3000, 2000, Kalite::Orta, &pf), Some((1050, 700)));
    assert_eq!(indirgeme_boyutu(3000, 2000, Kalite::Kucuk, &pf), Some((526, 350)));
    assert_eq!(indirgeme_boyutu(3000, 2000, Kalite::Orijinal, &pf), None);
    assert_eq!(indirgeme_boyutu(200, 150, Kalite::Kucuk, &pf), None, "a picture that fits is kept");
    assert_eq!(indirgeme_boyutu(1000, 4000, Kalite::Kucuk, &pf), Some((194, 776)));
}

#[test]
fn kaliteye_indirme_buyutmez() {
    let img = image::DynamicImage::ImageRgb8(image::RgbImage::from_pixel(1200, 800, image::Rgb([40, 50, 60])));
    let png = png_kodla(&img).unwrap();
    let s = ImageSpec { bytes: png.clone(), px_w: 1200, px_h: 800 };
    let ideal = kaliteye_indir(&s, Kalite::Ideal, &PageFormat::default()).unwrap();
    assert_eq!(ideal.bytes, png, "a picture with fewer pixels than the step keeps is not touched");
    let kucuk = kaliteye_indir(&s, Kalite::Kucuk, &PageFormat::default()).unwrap();
    assert_eq!((kucuk.px_w, kucuk.px_h), (526, 350));
    assert_eq!(&kucuk.bytes[0..4], &[0x89, b'P', b'N', b'G'], "a flat picture is smaller as PNG");
    let orijinal = kaliteye_indir(&s, Kalite::Orijinal, &PageFormat::default()).unwrap();
    assert_eq!(orijinal.bytes, png);
}

#[test]
fn kaliteye_indirme_jpeg_ve_saydamlik() {
    let gurultu = image::DynamicImage::ImageRgb8(image::RgbImage::from_fn(1200, 800, |x, y| {
        image::Rgb([((x * 7 + y * 13) % 256) as u8, ((x * x + y) % 251) as u8, ((x ^ y) % 256) as u8])
    }));
    let s = ImageSpec { bytes: png_kodla(&gurultu).unwrap(), px_w: 1200, px_h: 800 };
    let k = kaliteye_indir(&s, Kalite::Kucuk, &PageFormat::default()).unwrap();
    assert_eq!(&k.bytes[0..2], &[0xFF, 0xD8], "a detailed picture is smaller as JPEG");

    let saydam = image::DynamicImage::ImageRgba8(image::RgbaImage::from_fn(1200, 800, |x, y| {
        image::Rgba([((x * 7 + y * 13) % 256) as u8, ((x * x + y) % 251) as u8, ((x ^ y) % 256) as u8, 128])
    }));
    let t = ImageSpec { bytes: png_kodla(&saydam).unwrap(), px_w: 1200, px_h: 800 };
    let k = kaliteye_indir(&t, Kalite::Kucuk, &PageFormat::default()).unwrap();
    assert_eq!(&k.bytes[0..4], &[0x89, b'P', b'N', b'G'], "a transparent picture stays PNG");
}

#[test]
fn yapistirma_boyutu_png_olarak() {
    let img = image::DynamicImage::ImageRgb8(image::RgbImage::from_pixel(8, 8, image::Rgb([1, 2, 3])));
    let png = png_kodla(&img).unwrap();
    let s = ImageSpec { bytes: png.clone(), px_w: 8, px_h: 8 };
    assert_eq!(yapistirma_boyutu(&s), Ok(png.len()));
    let mut jpeg = Vec::new();
    img.write_to(&mut std::io::Cursor::new(&mut jpeg), image::ImageFormat::Jpeg).unwrap();
    let j = ImageSpec { bytes: jpeg, px_w: 8, px_h: 8 };
    let n = yapistirma_boyutu(&j).unwrap();
    let geri = image::load_from_memory(&j.bytes).unwrap();
    assert_eq!(n, png_kodla(&geri).unwrap().len());
    assert!(yapistirma_boyutu(&ImageSpec { bytes: vec![0, 1], px_w: 1, px_h: 1 }).is_err());
}

#[test]
fn benzersiz_ad_ilk_bos_numara() {
    let yok: Vec<String> = vec![];
    assert_eq!(benzersiz_ad("belge", &yok, "101112"), "belge.udf");
    let var = vec!["belge.udf".to_string(), "belge (2).udf".to_string(), "diger.udf".to_string()];
    assert_eq!(benzersiz_ad("belge", &var, "101112"), "belge (3).udf");
    let dolu: Vec<String> = (1..1000).map(|n| aday_dosya_adi("b", n)).collect();
    assert_eq!(benzersiz_ad("b", &dolu, "101112"), "b-101112.udf");
}
