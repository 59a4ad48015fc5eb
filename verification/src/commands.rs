//! What the window asks for: the list of loaded pictures, naming the document, building it
//! from the list, and deciding what an update check found. The window itself, the files
//! and the network are outside; they hand plain values in and take plain values back.

use vstd::prelude::*;
use crate::image_io::{
    indirgenmis, kaliteye_indir, onizleme_metni, onizleme_uret, yapistirma_boyutu,
    yapistirma_olcusu, Kalite, YuklenenResim,
};
use crate::udf::{goruntuleme_boyutu, spec_goruntuleme_boyutu};
use crate::udf::model::PageFormat;
use crate::udf::ozellikler::sayfaya_sigdirma;
use crate::udf::serialize::spec_serialize;
use vstd::utf8::encode_utf8;
use crate::udf::{
    spec_belge_kur,
    belge_govdesi, boyut_sigar, build_udf, hepsi_sigar, resim_paragrafi, udf_baytlari,
    BuildOptions, ImageSpec, Sizing, UdfHatasi,
};
use crate::metin::{
    bastan_kirp, bosluk, karakter_ekle, karakterler, karakterlerden, kirp, kirp_karakterler, onek,
    onek_mi, ondalik, rakam, sayi_ekle, sondan_kirp,
};

verus! {

// ---------------------------------------------------------------------------
// File names
// ---------------------------------------------------------------------------

/// A character Windows does not allow in a file name.
pub open spec fn yasak_karakter(c: char) -> bool {
    c == '\\' || c == '/' || c == ':' || c == '*' || c == '?' || c == '"' || c == '<' || c == '>'
        || c == '|'
}

/// `s` with every forbidden character replaced by `_`.
pub open spec fn yasaklari_degistir(s: Seq<char>) -> Seq<char> {
    Seq::new(s.len(), |i: int| if yasak_karakter(s[i]) { '_' } else { s[i] })
}

/// A file name made safe: forbidden characters become `_`, leading and trailing blanks go.
pub open spec fn spec_temiz_dosya_adi(s: Seq<char>) -> Seq<char> {
    kirp(yasaklari_degistir(s))
}

/// Makes a file name safe: every character Windows forbids in a file name becomes `_`,
/// then leading and trailing blanks are removed.
pub fn temiz_dosya_adi(s: &str) -> (r: String)
    ensures
        r@ == spec_temiz_dosya_adi(s@),
{
    let v = karakterler(s);
    let mut d: Vec<char> = Vec::new();
    let mut i: usize = 0;
    while i < v.len()
        invariant
            v@ == s@,
            i <= v@.len(),
            d@ == yasaklari_degistir(v@).take(i as int),
        decreases v@.len() - i,
    {
        let c = v[i];
        if c == '\\' || c == '/' || c == ':' || c == '*' || c == '?' || c == '"' || c == '<' || c
            == '>' || c == '|' {
            d.push('_');
        } else {
            d.push(c);
        }
        i = i + 1;
        assert(d@ =~= yasaklari_degistir(v@).take(i as int));
    }
    assert(yasaklari_degistir(v@).take(v@.len() as int) =~= yasaklari_degistir(v@));
    let k = kirp_karakterler(&d);
    karakterlerden(&k)
}

/// The `n`-th candidate file name for a document named `govde`: `govde.udf` first, then
/// `govde (2).udf`, `govde (3).udf` and so on.
pub open spec fn aday_adi(govde: Seq<char>, n: nat) -> Seq<char> {
    if n <= 1 {
        govde + ".udf"@
    } else {
        govde + " ("@ + ondalik(n) + ").udf"@
    }
}

/// The `n`-th candidate file name for a document named `govde` (see [`aday_adi`]).
pub fn aday_dosya_adi(govde: &str, n: u32) -> (r: String)
    ensures
        r@ == aday_adi(govde@, n as nat),
{
    let mut r = String::from_str(govde);
    if n <= 1 {
        r.append(".udf");
    } else {
        r.append(" (");
        sayi_ekle(&mut r, n as u64);
        r.append(").udf");
    }
    r
}

/// The names already in a folder, as character sequences.
pub open spec fn ad_kumesi(mevcut: Seq<String>) -> Seq<Seq<char>> {
    mevcut.map_values(|x: String| x@)
}

/// The first number `n` from `n` up to 999 whose candidate name is not taken, if any.
pub open spec fn ilk_bos(govde: Seq<char>, mevcut: Seq<Seq<char>>, n: nat) -> Option<nat>
    decreases 1000 - n,
{
    if n >= 1000 {
        None
    } else if !mevcut.contains(aday_adi(govde, n)) {
        Some(n)
    } else {
        ilk_bos(govde, mevcut, n + 1)
    }
}

/// A file name for a document that no existing name takes: the first of `govde.udf`,
/// `govde (2).udf`, ... `govde (999).udf` that is free, and when all are taken
/// `govde-saat.udf`.
pub open spec fn spec_benzersiz_ad(govde: Seq<char>, mevcut: Seq<Seq<char>>, saat: Seq<char>) -> Seq<char> {
    match ilk_bos(govde, mevcut, 1) {
        Some(n) => aday_adi(govde, n),
        None => govde + "-"@ + saat + ".udf"@,
    }
}

/// Whether `x` is among the names `v`.
fn ad_var(v: &Vec<String>, x: &String) -> (r: bool)
    ensures
        r == ad_kumesi(v@).contains(x@),
{
    let mut i: usize = 0;
    while i < v.len()
        invariant
            i <= v@.len(),
            forall|j: int| 0 <= j < i ==> (#[trigger] v@[j])@ != x@,
        decreases v@.len() - i,
    {
        if v[i] == *x {
            assert(ad_kumesi(v@)[i as int] == x@);
            return true;
        }
        i = i + 1;
    }
    assert forall|j: int| 0 <= j < ad_kumesi(v@).len() implies ad_kumesi(v@)[j] != x@ by {
        assert(v@[j]@ != x@);
    }
    false
}

/// A file name for a document in a folder that already holds the names `mevcut` (see
/// [`spec_benzersiz_ad`]); `saat` is the time stamp used when every numbered name is taken.
pub fn benzersiz_ad(govde: &str, mevcut: &Vec<String>, saat: &str) -> (r: String)
    ensures
        r@ == spec_benzersiz_ad(govde@, ad_kumesi(mevcut@), saat@),
{
    let ghost m = ad_kumesi(mevcut@);
    let mut n: u32 = 1;
    while n < 1000
        invariant
            1 <= n <= 1000,
            m == ad_kumesi(mevcut@),
            ilk_bos(govde@, m, 1) == ilk_bos(govde@, m, n as nat),
        decreases 1000 - n,
    {
        let aday = aday_dosya_adi(govde, n);
        if !ad_var(mevcut, &aday) {
            return aday;
        }
        n = n + 1;
    }
    let mut r = String::from_str(govde);
    r.append("-");
    r.append(saat);
    r.append(".udf");
    r
}

/// Whether a name is a bare file name: not empty, not `.` or `..`, and without a path
/// separator or drive colon.
pub open spec fn yalin_ad(s: Seq<char>) -> bool {
    &&& s.len() > 0
    &&& s != seq!['.']
    &&& s != seq!['.', '.']
    &&& forall|i: int| 0 <= i < s.len() ==> #[trigger] s[i] != '/' && s[i] != '\\' && s[i] != ':'
}

/// The stem of a bare file name: the part before its last `.`, or the whole name when it
/// has no `.` after its first character.
pub open spec fn kok(s: Seq<char>) -> Seq<char> {
    if exists|i: int| 0 < i < s.len() && s[i] == '.' {
        let i = choose|i: int|
            0 < i < s.len() && s[i] == '.' && forall|j: int| i < j < s.len() ==> s[j] != '.';
        s.take(i)
    } else {
        s
    }
}

/// `Path::file_stem`, made a `String`. For a bare file name this is its stem (the part
/// before the last `.`, or the whole name when the only `.` is its first character or there
/// is none). What it gives for names with separators, which are platform-dependent, is not
/// stated.
#[verifier::external_body]
fn dosya_koku(ad: &str) -> (r: Option<String>)
    ensures
        yalin_ad(ad@) ==> r is Some && r->Some_0@ == kok(ad@),
{
    std::path::Path::new(ad).file_stem().map(|s| s.to_string_lossy().to_string())
}

/// Whether every character of `s` is an ASCII digit.
pub open spec fn rakamlar(s: Seq<char>) -> bool {
    forall|i: int| 0 <= i < s.len() ==> '0' <= #[trigger] s[i] <= '9'
}

/// Whether `t` has the shape of a local date and time written as `%Y%m%d-%H%M`: the year,
/// two digits each of month and day, `-`, two digits each of hour and minute. The year is
/// four digits (years 0 to 9999), or else a sign and at least four digits.
pub open spec fn tarih_damgasi(t: Seq<char>) -> bool {
    let n = t.len() as int;
    &&& n >= 13
    &&& rakamlar(t.subrange(n - 9, n - 5))
    &&& t[n - 5] == '-'
    &&& rakamlar(t.subrange(n - 4, n))
    &&& (n == 13 && rakamlar(t.take(4)) || (t[0] == '+' || t[0] == '-') && n >= 14 && rakamlar(
        t.subrange(1, n - 9),
    ))
}

/// `chrono::Local::now().format(bicim)`, as a `String`: the local date and time. What it
/// gives depends on the clock; of every outcome, each field is a zero-padded number, so
/// that with `%Y%m%d-%H%M` it has the shape [`tarih_damgasi`] says.
#[verifier::external_body]
pub(crate) fn yerel_zaman(bicim: &str) -> (r: String)
    requires
        bicim@ == "%Y%m%d-%H%M"@,
    ensures
        tarih_damgasi(r@),
{
    chrono::Local::now().format(bicim).to_string()
}

/// The stem of the name of a document made from clipboard pictures: `resimler-` and the
/// given time stamp.
pub fn pano_govdesi(damga: &str) -> (r: String)
    ensures
        r@ == "resimler-"@ + damga@,
{
    let mut r = String::from_str("resimler-");
    r.append(damga);
    r
}

/// The stem of the document's file name from the first picture's name: a picture from the
/// clipboard has no name of its own, so it is `resimler-` and the local date and time
/// (see [`pano_govdesi`], [`tarih_damgasi`]); otherwise the stem of the first picture's
/// file name (`tarama.png` gives `tarama`), or `resim` when the name is empty.
pub fn govde_sec(ad: &str) -> (r: String)
    ensures
        ad@.len() == 0 ==> r@ == "resim"@,
        onek(ad@, "pano-"@) ==> onek(r@, "resimler-"@) && tarih_damgasi(
            r@.skip("resimler-"@.len() as int),
        ),
        !onek(ad@, "pano-"@) && yalin_ad(ad@) ==> r@ == kok(ad@),
{
    let v = karakterler(ad);
    if v.len() == 0 {
        proof {
            reveal_strlit("pano-");
        }
        return String::from_str("resim");
    }
    if onek_mi(&v, "pano-") {
        let damga = yerel_zaman("%Y%m%d-%H%M");
        let r = pano_govdesi(damga.as_str());
        assert(r@.take("resimler-"@.len() as int) =~= "resimler-"@);
        assert(r@.skip("resimler-"@.len() as int) =~= damga@);
        r
    } else {
        match dosya_koku(ad) {
            Some(k) => k,
            None => String::from_str("resim"),
        }
    }
}

// ---------------------------------------------------------------------------
// Versions
// ---------------------------------------------------------------------------

/// `s` without its leading `v`s (`str::trim_start_matches('v')`).
pub open spec fn v_sil(s: Seq<char>) -> Seq<char>
    decreases s.len(),
{
    if s.len() > 0 && s[0] == 'v' {
        v_sil(s.drop_first())
    } else {
        s
    }
}

/// The fields of `s` between the dots (`str::split('.')`): there is always at least one,
/// and `n` dots give `n + 1` fields.
pub open spec fn alanlar(s: Seq<char>) -> Seq<Seq<char>>
    decreases s.len(),
{
    if s.len() == 0 {
        seq![Seq::empty()]
    } else {
        let a = alanlar(s.drop_last());
        if s.last() == '.' {
            a.push(Seq::empty())
        } else {
            a.update(a.len() - 1, a.last().push(s.last()))
        }
    }
}

/// The value of an ASCII decimal digit.
pub open spec fn rakam_degeri(c: char) -> nat {
    ((c as u32) - ('0' as u32)) as nat
}

/// Whether `c` is an ASCII decimal digit.
pub open spec fn rakam_mi(c: char) -> bool {
    '0' <= c <= '9'
}

/// The number written by a string of decimal digits.
pub open spec fn deger(d: Seq<char>) -> nat
    decreases d.len(),
{
    if d.len() == 0 {
        0
    } else {
        deger(d.drop_last()) * 10 + rakam_degeri(d.last())
    }
}

/// `p` without one leading `+`.
pub open spec fn isaretsiz(p: Seq<char>) -> Seq<char> {
    if p.len() > 0 && p[0] == '+' { p.drop_first() } else { p }
}

/// Whether every character of `d` is a decimal digit.
pub open spec fn hepsi_rakam(d: Seq<char>) -> bool {
    forall|i: int| 0 <= i < d.len() ==> rakam_mi(#[trigger] d[i])
}

/// `str::parse::<u32>`: an optional `+` then at least one decimal digit, the value fitting
/// in `u32`; anything else is an error (`None`).
pub open spec fn u32_oku(p: Seq<char>) -> Option<u32> {
    let d = isaretsiz(p);
    if d.len() == 0 || !hepsi_rakam(d) {
        None
    } else if deger(d) > u32::MAX {
        None
    } else {
        Some(deger(d) as u32)
    }
}

/// The `i`-th field of a version as a number, `0` when the field is missing or not a
/// number.
pub open spec fn surum_alani(s: Seq<char>, i: int) -> u32 {
    let a = alanlar(v_sil(s));
    if i < a.len() {
        match u32_oku(a[i]) {
            Some(x) => x,
            None => 0,
        }
    } else {
        0
    }
}

/// A version string as (major, minor, patch): leading `v`s dropped, fields split at dots,
/// each read as a number, a missing or unreadable field counting as `0`.
pub open spec fn spec_surum_parcala(s: Seq<char>) -> (u32, u32, u32) {
    (surum_alani(s, 0), surum_alani(s, 1), surum_alani(s, 2))
}

proof fn deger_artar(d: Seq<char>, c: char)
    requires
        rakam_mi(c),
    ensures
        deger(d.push(c)) == deger(d) * 10 + rakam_degeri(c),
        deger(d.push(c)) >= deger(d),
{
    assert(d.push(c).drop_last() =~= d);
}

/// Reads a field as `str::parse::<u32>` does.
fn u32_oku_exec(p: &Vec<char>) -> (r: Option<u32>)
    ensures
        r == u32_oku(p@),
{
    let mut i: usize = 0;
    if p.len() > 0 && p[0] == '+' {
        i = 1;
    }
    let bas = i;
    let ghost d = isaretsiz(p@);
    assert(d =~= p@.skip(bas as int));
    if bas == p.len() {
        return None;
    }
    let mut deg: u64 = 0;
    let mut tasti = false;
    while i < p.len()
        invariant
            bas <= i <= p@.len(),
            d == p@.skip(bas as int),
            d == isaretsiz(p@),
            forall|j: int| 0 <= j < i - bas ==> rakam_mi(#[trigger] d[j]),
            tasti ==> deger(d.take(i - bas)) > u32::MAX,
            !tasti ==> deg == deger(d.take(i - bas)) && deg <= u32::MAX,
        decreases p@.len() - i,
    {
        let c = p[i];
        if !('0' <= c && c <= '9') {
            assert(d[i - bas] == c);
            assert(!rakam_mi(d[i - bas]));
            assert(d.len() > 0);
            assert(!hepsi_rakam(d));
            return None;
        }
        proof {
            assert(d.take(i - bas + 1) =~= d.take(i - bas).push(c));
            deger_artar(d.take(i - bas), c);
        }
        if !tasti {
            let yeni = deg * 10 + (c as u64 - '0' as u64);
            if yeni > u32::MAX as u64 {
                tasti = true;
            } else {
                deg = yeni;
            }
        }
        i = i + 1;
    }
    assert(d.take(d.len() as int) =~= d);
    if tasti {
        None
    } else {
        Some(deg as u32)
    }
}

/// Splits the characters `v` at dots (`str::split('.')`).
fn alanlara_bol(v: &Vec<char>) -> (r: Vec<Vec<char>>)
    ensures
        r@.len() == alanlar(v@).len(),
        forall|i: int| 0 <= i < r@.len() ==> (#[trigger] r@[i])@ == alanlar(v@)[i],
{
    let mut r: Vec<Vec<char>> = Vec::new();
    r.push(Vec::new());
    let mut i: usize = 0;
    assert(v@.take(0) =~= Seq::<char>::empty());
    while i < v.len()
        invariant
            i <= v@.len(),
            r@.len() == alanlar(v@.take(i as int)).len(),
            r@.len() > 0,
            forall|j: int|
                0 <= j < r@.len() ==> (#[trigger] r@[j])@ == alanlar(v@.take(i as int))[j],
        decreases v@.len() - i,
    {
        let c = v[i];
        let ghost a = alanlar(v@.take(i as int));
        let ghost r0 = r@;
        assert(v@.take(i + 1).drop_last() =~= v@.take(i as int));
        assert(v@.take(i + 1).last() == c);
        if c == '.' {
            let bos: Vec<char> = Vec::new();
            r.push(bos);
        } else {
            let son = r.len() - 1;
            let mut alan = r.remove(son);
            assert(alan@ == a.last());
            alan.push(c);
            r.push(alan);
            assert(r@ =~= r0.update(son as int, alan));
        }
        i = i + 1;
        assert forall|j: int|
            0 <= j < r@.len() implies (#[trigger] r@[j])@ == alanlar(v@.take(i as int))[j] by {
            if j < r0.len() - 1 {
                assert(r@[j] == r0[j]);
            }
        }
    }
    assert(v@.take(v@.len() as int) =~= v@);
    r
}

/// Drops the leading `v`s.
fn v_sil_exec(v: &Vec<char>) -> (r: Vec<char>)
    ensures
        r@ == v_sil(v@),
{
    let mut i: usize = 0;
    assert(v@.skip(0) =~= v@);
    while i < v.len() && v[i] == 'v'
        invariant
            i <= v@.len(),
            v_sil(v@) == v_sil(v@.skip(i as int)),
        decreases v@.len() - i,
    {
        assert(v@.skip(i as int).drop_first() =~= v@.skip(i + 1));
        i = i + 1;
    }
    let mut r: Vec<char> = Vec::new();
    let mut k: usize = i;
    while k < v.len()
        invariant
            i <= k <= v@.len(),
            r@ == v@.subrange(i as int, k as int),
        decreases v@.len() - k,
    {
        r.push(v[k]);
        k = k + 1;
        assert(r@ =~= v@.subrange(i as int, k as int));
    }
    assert(r@ =~= v@.skip(i as int));
    r
}

/// Parses a version string into (major, minor, patch) for comparison: leading `v`s are
/// dropped, the fields between dots are read as numbers, and a missing or unreadable field
/// counts as `0` (`"v1.2.0"` is `(1, 2, 0)`, `"bozuk"` is `(0, 0, 0)`).
pub fn surum_parcala(s: &str) -> (r: (u32, u32, u32))
    ensures
        r == spec_surum_parcala(s@),
{
    let v = karakterler(s);
    let t = v_sil_exec(&v);
    let a = alanlara_bol(&t);
    let x = if a.len() > 0 { match u32_oku_exec(&a[0]) { Some(x) => x, None => 0 } } else { 0 };
    let y = if a.len() > 1 { match u32_oku_exec(&a[1]) { Some(x) => x, None => 0 } } else { 0 };
    let z = if a.len() > 2 { match u32_oku_exec(&a[2]) { Some(x) => x, None => 0 } } else { 0 };
    (x, y, z)
}

/// Lexicographic order of versions: `a` comes after `b`.
pub open spec fn surum_sonra(a: (u32, u32, u32), b: (u32, u32, u32)) -> bool {
    a.0 > b.0 || (a.0 == b.0 && (a.1 > b.1 || (a.1 == b.1 && a.2 > b.2)))
}

/// Whether version `a` comes after version `b` (compared field by field).
pub fn surum_daha_yeni(a: (u32, u32, u32), b: (u32, u32, u32)) -> (r: bool)
    ensures
        r == surum_sonra(a, b),
{
    a.0 > b.0 || (a.0 == b.0 && (a.1 > b.1 || (a.1 == b.1 && a.2 > b.2)))
}

// ---------------------------------------------------------------------------
// The list of loaded pictures
// ---------------------------------------------------------------------------

/// Whether two pictures have the same bytes and the same size.
pub open spec fn ayni(a: ImageSpec, b: ImageSpec) -> bool {
    a.bytes@ == b.bytes@ && a.px_w == b.px_w && a.px_h == b.px_h
}

/// One value per quality step.
#[derive(Debug)]
pub struct KaliteTablosu<T> {
    orijinal: Option<T>,
    ideal: Option<T>,
    orta: Option<T>,
    kucuk: Option<T>,
}

impl<T> KaliteTablosu<T> {
    /// The value held for step `k`.
    pub closed spec fn spec_al(&self, k: Kalite) -> Option<T> {
        match k {
            Kalite::Orijinal => self.orijinal,
            Kalite::Ideal => self.ideal,
            Kalite::Orta => self.orta,
            Kalite::Kucuk => self.kucuk,
        }
    }

    /// A table that holds nothing.
    pub fn bos() -> (t: Self)
        ensures
            forall|k: Kalite| t.spec_al(k) is None,
    {
        KaliteTablosu { orijinal: None, ideal: None, orta: None, kucuk: None }
    }

    /// The value held for step `k`.
    pub fn al(&self, k: Kalite) -> (r: Option<&T>)
        ensures
            r matches Some(x) ==> self.spec_al(k) == Some(*x),
            r is None ==> self.spec_al(k) is None,
    {
        match k {
            Kalite::Orijinal => self.orijinal.as_ref(),
            Kalite::Ideal => self.ideal.as_ref(),
            Kalite::Orta => self.orta.as_ref(),
            Kalite::Kucuk => self.kucuk.as_ref(),
        }
    }

    /// Holds `v` for step `k`; the other steps keep their values.
    pub fn koy(&mut self, k: Kalite, v: T)
        ensures
            final(self).spec_al(k) == Some(v),
            forall|j: Kalite| j != k ==> final(self).spec_al(j) == old(self).spec_al(j),
    {
        match k {
            Kalite::Orijinal => self.orijinal = Some(v),
            Kalite::Ideal => self.ideal = Some(v),
            Kalite::Orta => self.orta = Some(v),
            Kalite::Kucuk => self.kucuk = Some(v),
        }
    }
}

/// A loaded picture in the list.
#[derive(Debug)]
pub struct Kayit {
    pub ad: String,
    pub resim: YuklenenResim,
    /// This picture's quality step. Each picture can have its own; the common choice sets
    /// them all at once.
    pub kalite: Kalite,
    /// The reduced version, made once per quality step (the size line is recomputed at
    /// every change, so the same picture is not scaled again and again).
    pub onbellek: KaliteTablosu<ImageSpec>,
    /// Per quality step, the place the picture takes once pasted into the editor (bytes).
    pub yapistirma_onbellek: KaliteTablosu<usize>,
}

impl Kayit {
    /// The reduced version held for step `k`.
    pub open spec fn onbellekte(&self, k: Kalite) -> Option<ImageSpec> {
        self.onbellek.spec_al(k)
    }

    /// The pasted size held for step `k`.
    pub open spec fn yapistirmada(&self, k: Kalite) -> Option<usize> {
        self.yapistirma_onbellek.spec_al(k)
    }

    /// The version to embed that is ready without new work: the input itself at
    /// [`Kalite::Orijinal`], otherwise the reduced version already made for its step.
    pub open spec fn hazir(&self) -> Option<ImageSpec> {
        if self.kalite == Kalite::Orijinal {
            Some(self.resim.spec)
        } else {
            self.onbellekte(self.kalite)
        }
    }

    /// Whether `b` is `a` with possibly more reduced versions and pasted sizes held, none
    /// that `a` held being changed.
    pub open spec fn ilerledi(a: Kayit, b: Kayit) -> bool {
        &&& b.ad == a.ad
        &&& b.resim == a.resim
        &&& b.kalite == a.kalite
        &&& forall|k: Kalite| #[trigger] a.onbellekte(k) is Some ==> b.onbellekte(k) == a.onbellekte(k)
        &&& forall|k: Kalite| #[trigger] a.yapistirmada(k) is Some ==> b.yapistirmada(k) == a.yapistirmada(k)
    }

    /// A new entry holding no reduced version yet.
    pub fn yeni(ad: String, resim: YuklenenResim, kalite: Kalite) -> (k: Kayit)
        ensures
            k.ad == ad,
            k.resim == resim,
            k.kalite == kalite,
            forall|q: Kalite| k.onbellekte(q) is None && k.yapistirmada(q) is None,
            forall|p: PageFormat| k.tutarli(p),
    {
        Kayit {
            ad,
            resim,
            kalite,
            onbellek: KaliteTablosu::bos(),
            yapistirma_onbellek: KaliteTablosu::bos(),
        }
    }

    /// Whether every reduced version held was made for `page` at its step: it is what
    /// [`indirgenmis`] gives there. A new entry holds none, and every method keeps this.
    pub open spec fn tutarli(&self, page: PageFormat) -> bool {
        forall|k: Kalite|
            #[trigger] self.onbellekte(k) matches Some(v) ==> indirgenmis(self.resim.spec, k, page)
                == Some(gorunum(v))
    }

    /// The version of this picture that goes into the document at its own quality step (see
    /// [`kaliteye_indir`]): at [`Kalite::Orijinal`] the input, untouched; otherwise the
    /// reduced version, made once per step and then taken from the cache.
    pub fn gomulecek(&mut self, sayfa: &PageFormat) -> (r: Result<ImageSpec, String>)
        ensures
            Kayit::ilerledi(*old(self), *final(self)),
            final(self).yapistirma_onbellek == old(self).yapistirma_onbellek,
            old(self).hazir() matches Some(h) ==> r matches Ok(v) && ayni(v, h) && *final(self)
                == *old(self),
            r matches Ok(v) ==> final(self).hazir() matches Some(h) && ayni(h, v),
            r is Err ==> *final(self) == *old(self),
            old(self).tutarli(*sayfa) ==> {
                &&& final(self).tutarli(*sayfa)
                &&& r is Ok <==> indirgenmis(old(self).resim.spec, old(self).kalite, *sayfa) is Some
                &&& r matches Ok(v) ==> indirgenmis(old(self).resim.spec, old(self).kalite, *sayfa)
                    == Some(gorunum(v))
            },
    {
        if self.kalite == Kalite::Orijinal {
            return Ok(self.resim.spec.kopyala());
        }
        match self.onbellek.al(self.kalite) {
            Some(hazir) => {
                return Ok(hazir.kopyala());
            },
            None => {},
        }
        let sonuc = kaliteye_indir(&self.resim.spec, self.kalite, sayfa);
        match sonuc {
            Ok(v) => {
                let kopya = v.kopyala();
                let ghost once = *self;
                self.onbellek.koy(self.kalite, kopya);
                proof {
                    if once.tutarli(*sayfa) {
                        assert forall|k: Kalite| #[trigger] self.onbellekte(k) is Some
                            implies indirgenmis(self.resim.spec, k, *sayfa) == Some(
                            gorunum(self.onbellekte(k).unwrap()),
                        ) by {
                            if k != self.kalite {
                                assert(once.onbellekte(k) == self.onbellekte(k));
                            }
                        }
                    }
                }
                Ok(v)
            },
            Err(e) => Err(e),
        }
    }

    /// The place this picture takes once pasted into the editor, at its own quality step
    /// (see [`yapistirma_boyutu`]): measured once per step (on the embedded version, that
    /// is the input at [`Kalite::Orijinal`] or the reduced version when one has been made)
    /// and then taken from the cache.
    pub fn yapistirma_payi(&mut self) -> (r: Result<usize, String>)
        ensures
            Kayit::ilerledi(*old(self), *final(self)),
            final(self).onbellek == old(self).onbellek,
            old(self).yapistirmada(old(self).kalite) matches Some(b) ==> r == Ok::<usize, String>(b)
                && *final(self) == *old(self),
            old(self).yapistirmada(old(self).kalite) is None ==> {
                &&& r is Ok <==> yapistirma_olcusu(olculecek(*old(self)).bytes@) is Some
                &&& r matches Ok(b) ==> yapistirma_olcusu(olculecek(*old(self)).bytes@) == Some(b as int)
            },
            r matches Ok(b) ==> final(self).yapistirmada(final(self).kalite) == Some(b),
            r is Err ==> *final(self) == *old(self),
    {
        match self.yapistirma_onbellek.al(self.kalite) {
            Some(b) => {
                return Ok(*b);
            },
            None => {},
        }
        let sonuc = if self.kalite == Kalite::Orijinal {
            yapistirma_boyutu(&self.resim.spec)
        } else {
            match self.onbellek.al(self.kalite) {
                Some(s) => yapistirma_boyutu(s),
                None => yapistirma_boyutu(&self.resim.spec),
            }
        };
        match sonuc {
            Ok(b) => {
                self.yapistirma_onbellek.koy(self.kalite, b);
                Ok(b)
            },
            Err(e) => Err(e),
        }
    }
}

/// The bytes and the pixel size of a picture.
pub open spec fn gorunum(s: ImageSpec) -> (Seq<u8>, u32, u32) {
    (s.bytes@, s.px_w, s.px_h)
}

/// The version a pasted size is measured on: the input at [`Kalite::Orijinal`], otherwise
/// the reduced version when one has been made, else the input.
pub open spec fn olculecek(k: Kayit) -> ImageSpec {
    if k.kalite == Kalite::Orijinal {
        k.resim.spec
    } else {
        match k.onbellekte(k.kalite) {
            Some(s) => s,
            None => k.resim.spec,
        }
    }
}

/// The entries that loaded, in order.
pub open spec fn yuklenenler(sonuclar: Seq<Result<Kayit, String>>) -> Seq<Kayit>
    decreases sonuclar.len(),
{
    if sonuclar.len() == 0 {
        Seq::empty()
    } else {
        let onceki = yuklenenler(sonuclar.drop_last());
        match sonuclar.last() {
            Ok(k) => onceki.push(k),
            Err(_) => onceki,
        }
    }
}

/// The errors of the entries that did not load, in order.
pub open spec fn yukleme_hatalari(sonuclar: Seq<Result<Kayit, String>>) -> Seq<String>
    decreases sonuclar.len(),
{
    if sonuclar.len() == 0 {
        Seq::empty()
    } else {
        let onceki = yukleme_hatalari(sonuclar.drop_last());
        match sonuclar.last() {
            Ok(_) => onceki,
            Err(e) => onceki.push(e),
        }
    }
}

/// The name a picture from the clipboard gets: `pano-n.png`, `n` being its place in the
/// list counted from one.
pub open spec fn pano_adi(n: nat) -> Seq<char> {
    "pano-"@ + ondalik(n) + ".png"@
}

/// An entry of the list from a file's name and what reading the file gave: the entry at
/// quality step `kalite`, or the error with the name in front of it (`ad: hata`).
pub fn yukleme_kaydi(ad: String, sonuc: Result<YuklenenResim, String>, kalite: Kalite) -> (r:
    Result<Kayit, String>)
    ensures
        sonuc matches Ok(y) ==> r matches Ok(k) && k.ad == ad && k.resim == y && k.kalite
            == kalite && forall|q: Kalite| k.onbellekte(q) is None && k.yapistirmada(q) is None,
        sonuc matches Err(e) ==> r matches Err(m) && m@ == ad@ + ": "@ + e@,
{
    match sonuc {
        Ok(y) => Ok(Kayit::yeni(ad, y, kalite)),
        Err(e) => {
            let mut m = ad;
            m.append(": ");
            m.append(e.as_str());
            Err(m)
        },
    }
}

/// The pasted sizes of the entries at their own quality steps, added up (each must be held).
pub open spec fn yapistirma_toplami_spec(ks: Seq<Kayit>) -> int
    decreases ks.len(),
{
    if ks.len() == 0 {
        0
    } else {
        yapistirma_toplami_spec(ks.drop_last()) + ks.last().yapistirmada(ks.last().kalite).unwrap()
    }
}

/// `x`, or `u64::MAX` when it is larger.
pub open spec fn u64_sinirli(x: int) -> int {
    if x > u64::MAX { u64::MAX as int } else { x }
}

proof fn ilerledi_gecisli(a: Kayit, b: Kayit, c: Kayit)
    requires
        Kayit::ilerledi(a, b),
        Kayit::ilerledi(b, c),
    ensures
        Kayit::ilerledi(a, c),
{
    assert forall|k: Kalite| #[trigger] a.onbellekte(k) is Some implies c.onbellekte(k) == a.onbellekte(k) by {
        assert(b.onbellekte(k) == a.onbellekte(k));
    }
    assert forall|k: Kalite| #[trigger] a.yapistirmada(k) is Some implies c.yapistirmada(k) == a.yapistirmada(k) by {
        assert(b.yapistirmada(k) == a.yapistirmada(k));
    }
}

proof fn hazir_korunur(a: Kayit, b: Kayit)
    requires
        Kayit::ilerledi(a, b),
        a.hazir() is Some,
    ensures
        b.hazir() == a.hazir(),
{
    if a.kalite != Kalite::Orijinal {
        assert(a.onbellekte(a.kalite) is Some);
    }
}

/// The message when an entry asked for is not in the list.
pub const RESIM_BULUNAMADI: &'static str = "Resim bulunamadı.";

/// The message when a document is asked for an empty list.
pub const LISTE_BOS: &'static str = "Önce bir resim ekleyin.";

/// The build options of the window: every picture at full resolution, fitted to an A4
/// page, on separate pages or not as asked.
pub open spec fn spec_secenekler(ayri_sayfa: bool) -> BuildOptions {
    BuildOptions { separate_pages: ayri_sayfa, sizing: Sizing::FitPage, page: PageFormat::a4() }
}

/// The build options of the window (see [`spec_secenekler`]).
pub fn secenekler(ayri_sayfa: bool) -> (o: BuildOptions)
    ensures
        o == spec_secenekler(ayri_sayfa),
{
    BuildOptions { separate_pages: ayri_sayfa, sizing: Sizing::FitPage, page: PageFormat::default() }
}

/// On an A4 page every picture fits at every pixel size.
proof fn a4_her_resme_yeter(images: Seq<ImageSpec>, ayri_sayfa: bool)
    ensures
        hepsi_sigar(images, spec_secenekler(ayri_sayfa)),
{
    let o = spec_secenekler(ayri_sayfa);
    assert forall|i: int| 0 <= i < images.len() implies boyut_sigar(
        #[trigger] images[i].px_w,
        images[i].px_h,
        o.sizing,
        o.page,
    ) by {
        sayfaya_sigdirma(images[i].px_w, images[i].px_h, o.page, 10);
        sayfaya_sigdirma(images[i].px_w, images[i].px_h, o.page, 1000);
    }
}

/// Why a document could not be built from the list.
#[derive(Debug)]
pub enum BelgeHatasi {
    /// The list is empty ([`LISTE_BOS`]).
    ListeBos,
    /// A picture could not be prepared at its quality step.
    Hazirlama(String),
    /// The file could not be produced.
    Udf(UdfHatasi),
    /// A picture's pasted size could not be measured.
    Olcum(String),
}

/// The versions ready for the document, in list order.
pub open spec fn hazir_surumler(ks: Seq<Kayit>) -> Seq<ImageSpec> {
    Seq::new(ks.len(), |i: int| ks[i].hazir().unwrap())
}

/// Whether `a` and `b` are pictures with the same bytes and sizes, one by one.
pub open spec fn hepsi_ayni(a: Seq<ImageSpec>, b: Seq<ImageSpec>) -> bool {
    a.len() == b.len() && forall|i: int| 0 <= i < a.len() ==> ayni(#[trigger] a[i], b[i])
}

/// Pictures with the same bytes and sizes give the same document.
proof fn ayni_resimler_ayni_belge(a: Seq<ImageSpec>, b: Seq<ImageSpec>, o: BuildOptions)
    requires
        hepsi_ayni(a, b),
    ensures
        belge_govdesi(a, o) == belge_govdesi(b, o),
        udf_baytlari(a, o) == udf_baytlari(b, o),
    decreases a.len(),
{
    if a.len() > 0 {
        assert(ayni(a[a.len() - 1], b[b.len() - 1]));
        assert(hepsi_ayni(a.drop_last(), b.drop_last())) by {
            assert forall|i: int| 0 <= i < a.drop_last().len() implies ayni(
                #[trigger] a.drop_last()[i],
                b.drop_last()[i],
            ) by {
                assert(ayni(a[i], b[i]));
            }
        }
        ayni_resimler_ayni_belge(a.drop_last(), b.drop_last(), o);
        assert(resim_paragrafi(a.last(), o) == resim_paragrafi(b.last(), o));
    }
}

/// The list of loaded pictures, in the order they were added. The same file may be added
/// more than once; nothing is removed as a duplicate.
#[derive(Debug)]
pub struct Oturum {
    pub resimler: Vec<Kayit>,
}

impl Default for Oturum {
    /// An empty list.
    fn default() -> (o: Self)
        ensures
            o.resimler@.len() == 0,
    {
        Oturum { resimler: Vec::new() }
    }
}

impl Oturum {
    /// An empty list.
    pub fn yeni() -> (o: Oturum)
        ensures
            o.resimler@.len() == 0,
    {
        Oturum { resimler: Vec::new() }
    }

    /// Adds the pictures that loaded, in order, and gives back the errors of those that did
    /// not, in order.
    pub fn yuklenenleri_ekle(&mut self, sonuclar: Vec<Result<Kayit, String>>) -> (hatalar: Vec<
        String,
    >)
        ensures
            final(self).resimler@ == old(self).resimler@ + yuklenenler(sonuclar@),
            hatalar@ == yukleme_hatalari(sonuclar@),
    {
        let ghost s = sonuclar@;
        let ghost bas = self.resimler@;
        let mut hatalar: Vec<String> = Vec::new();
        let mut kalan = sonuclar;
        let ghost mut m: int = 0;
        assert(s.take(0) =~= Seq::<Result<Kayit, String>>::empty());
        assert(bas + yuklenenler(Seq::empty()) =~= bas);
        assert(s.skip(0) =~= s);
        while kalan.len() > 0
            invariant
                0 <= m <= s.len(),
                kalan@ == s.skip(m),
                self.resimler@ == bas + yuklenenler(s.take(m)),
                hatalar@ == yukleme_hatalari(s.take(m)),
            decreases kalan@.len(),
        {
            let sonuc = kalan.remove(0);
            assert(sonuc == s[m]);
            assert(s.take(m + 1).drop_last() =~= s.take(m));
            assert(s.take(m + 1).last() == sonuc);
            match sonuc {
                Ok(k) => {
                    self.resimler.push(k);
                },
                Err(e) => {
                    hatalar.push(e);
                },
            }
            proof {
                m = m + 1;
                assert(kalan@ =~= s.skip(m));
                assert(self.resimler@ =~= bas + yuklenenler(s.take(m)));
            }
        }
        assert(s.take(m) =~= s);
        hatalar
    }

    /// Adds a picture taken from the clipboard, named `pano-n.png` after its place in the
    /// list.
    pub fn panodan_ekle(&mut self, r: YuklenenResim, kalite: Kalite)
        requires
            old(self).resimler@.len() < u64::MAX,
        ensures
            final(self).resimler@.len() == old(self).resimler@.len() + 1,
            final(self).resimler@.drop_last() == old(self).resimler@,
            final(self).resimler@.last().ad@ == pano_adi(old(self).resimler@.len() + 1),
            final(self).resimler@.last().resim == r,
            final(self).resimler@.last().kalite == kalite,
            forall|q: Kalite| final(self).resimler@.last().onbellekte(q) is None,
    {
        let n = self.resimler.len() as u64 + 1;
        let mut ad = String::from_str("pano-");
        sayi_ekle(&mut ad, n);
        ad.append(".png");
        let k = Kayit::yeni(ad, r, kalite);
        self.resimler.push(k);
        assert(self.resimler@.drop_last() =~= old(self).resimler@);
    }

    /// Sets the quality step of one picture; the others keep theirs. A place outside the
    /// list is refused with [`RESIM_BULUNAMADI`].
    pub fn resim_kalitesi(&mut self, indeks: usize, kalite: Kalite) -> (r: Result<(), String>)
        ensures
            indeks < old(self).resimler@.len() <==> r is Ok,
            r matches Err(m) ==> m@ == RESIM_BULUNAMADI@ && *final(self) == *old(self),
            r is Ok ==> final(self).resimler@ == old(self).resimler@.update(
                indeks as int,
                Kayit { kalite, ..old(self).resimler@[indeks as int] },
            ),
    {
        if indeks >= self.resimler.len() {
            return Err(String::from_str(RESIM_BULUNAMADI));
        }
        let mut k = self.resimler.remove(indeks);
        k.kalite = kalite;
        self.resimler.insert(indeks, k);
        assert(self.resimler@ =~= old(self).resimler@.update(
            indeks as int,
            Kayit { kalite, ..old(self).resimler@[indeks as int] },
        ));
        Ok(())
    }

    /// Sets every picture to the same quality step (what the common choice does); nothing
    /// else changes.
    pub fn kaliteyi_hepsine_uygula(&mut self, kalite: Kalite)
        ensures
            final(self).resimler@.len() == old(self).resimler@.len(),
            forall|i: int|
                0 <= i < old(self).resimler@.len() ==> #[trigger] final(self).resimler@[i] == (Kayit {
                    kalite,
                    ..old(self).resimler@[i]
                }),
    {
        let n = self.resimler.len();
        let mut i: usize = 0;
        while i < n
            invariant
                n == old(self).resimler@.len(),
                n == self.resimler@.len(),
                i <= n,
                forall|j: int|
                    0 <= j < i ==> #[trigger] self.resimler@[j] == (Kayit {
                        kalite,
                        ..old(self).resimler@[j]
                    }),
                forall|j: int| i <= j < n ==> #[trigger] self.resimler@[j] == old(self).resimler@[j],
            decreases n - i,
        {
            let mut k = self.resimler.remove(i);
            k.kalite = kalite;
            self.resimler.insert(i, k);
            i = i + 1;
        }
    }

    /// Removes the picture at `indeks`; a place outside the list changes nothing.
    pub fn resmi_cikar(&mut self, indeks: usize)
        ensures
            indeks < old(self).resimler@.len() ==> final(self).resimler@ == old(
                self,
            ).resimler@.remove(indeks as int),
            indeks >= old(self).resimler@.len() ==> final(self).resimler@ == old(self).resimler@,
    {
        if indeks < self.resimler.len() {
            self.resimler.remove(indeks);
        }
    }

    /// Empties the list.
    pub fn listeyi_temizle(&mut self)
        ensures
            final(self).resimler@.len() == 0,
    {
        self.resimler.clear();
    }

    /// Whether every entry's reduced versions were made for `page` (see [`Kayit::tutarli`]).
    pub open spec fn tutarli(&self, page: PageFormat) -> bool {
        forall|i: int| 0 <= i < self.resimler@.len() ==> (#[trigger] self.resimler@[i]).tutarli(page)
    }

    /// Whether every entry can be made ready at its own step on `page`.
    pub open spec fn hazirlanabilir(&self, page: PageFormat) -> bool {
        forall|i: int|
            0 <= i < self.resimler@.len() ==> indirgenmis(
                (#[trigger] self.resimler@[i]).resim.spec,
                self.resimler@[i].kalite,
                page,
            ) is Some
    }

    /// Prepares every picture at its own quality step, in list order (see
    /// [`Kayit::gomulecek`]); stops at the first that fails.
    pub fn specleri_hazirla(&mut self, sayfa: &PageFormat) -> (r: Result<Vec<ImageSpec>, String>)
        ensures
            final(self).resimler@.len() == old(self).resimler@.len(),
            forall|i: int|
                0 <= i < old(self).resimler@.len() ==> (#[trigger] final(self).resimler@[i]).yapistirma_onbellek
                    == old(self).resimler@[i].yapistirma_onbellek,
            forall|i: int|
                0 <= i < old(self).resimler@.len() ==> Kayit::ilerledi(
                    #[trigger] old(self).resimler@[i],
                    final(self).resimler@[i],
                ),
            r matches Ok(v) ==> {
                &&& forall|i: int|
                    0 <= i < final(self).resimler@.len() ==> (#[trigger] final(self).resimler@[i]).hazir() is Some
                &&& hepsi_ayni(v@, hazir_surumler(final(self).resimler@))
            },
            r is Err ==> exists|i: int|
                0 <= i < old(self).resimler@.len() && (#[trigger] old(self).resimler@[i]).hazir()
                    is None,
            (forall|i: int|
                0 <= i < old(self).resimler@.len() ==> (#[trigger] old(self).resimler@[i]).hazir()
                    is Some) ==> r is Ok,
            old(self).tutarli(*sayfa) ==> {
                &&& final(self).tutarli(*sayfa)
                &&& r is Ok <==> old(self).hazirlanabilir(*sayfa)
                &&& r matches Ok(v) ==> forall|i: int|
                    0 <= i < v@.len() ==> indirgenmis(
                        (#[trigger] old(self).resimler@[i]).resim.spec,
                        old(self).resimler@[i].kalite,
                        *sayfa,
                    ) == Some(gorunum(v@[i]))
            },
    {
        let n = self.resimler.len();
        let mut v: Vec<ImageSpec> = Vec::new();
        let mut i: usize = 0;
        while i < n
            invariant
                n == old(self).resimler@.len(),
                n == self.resimler@.len(),
                i <= n,
                v@.len() == i,
                forall|j: int|
                    0 <= j < i ==> Kayit::ilerledi(#[trigger] old(self).resimler@[j], self.resimler@[j]),
                forall|j: int|
                    0 <= j < i ==> (#[trigger] self.resimler@[j]).yapistirma_onbellek
                        == old(self).resimler@[j].yapistirma_onbellek,
                forall|j: int| i <= j < n ==> #[trigger] self.resimler@[j] == old(self).resimler@[j],
                forall|j: int|
                    0 <= j < i ==> ((#[trigger] self.resimler@[j]).hazir() matches Some(h) && ayni(
                        v@[j],
                        h,
                    )),
                old(self).tutarli(*sayfa) ==> forall|j: int|
                    0 <= j < i ==> (#[trigger] self.resimler@[j]).tutarli(*sayfa),
                old(self).tutarli(*sayfa) ==> forall|j: int|
                    0 <= j < i ==> indirgenmis(
                        (#[trigger] old(self).resimler@[j]).resim.spec,
                        old(self).resimler@[j].kalite,
                        *sayfa,
                    ) == Some(gorunum(v@[j])),
            decreases n - i,
        {
            let ghost once = self.resimler@;
            let mut k = self.resimler.remove(i);
            assert(k == old(self).resimler@[i as int]);
            proof {
                if old(self).tutarli(*sayfa) {
                    assert(old(self).resimler@[i as int].tutarli(*sayfa));
                }
            }
            let sonuc = k.gomulecek(sayfa);
            self.resimler.insert(i, k);
            assert(self.resimler@ =~= once.update(i as int, k));
            match sonuc {
                Ok(s) => {
                    v.push(s);
                },
                Err(e) => {
                    proof {
                        assert forall|j: int| 0 <= j < n implies Kayit::ilerledi(
                            #[trigger] old(self).resimler@[j],
                            self.resimler@[j],
                        ) by {
                            if j > i {
                                assert(self.resimler@[j] == old(self).resimler@[j]);
                            }
                        }
                        assert forall|j: int| 0 <= j < n implies (#[trigger] self.resimler@[j]).yapistirma_onbellek
                            == old(self).resimler@[j].yapistirma_onbellek by {
                            if j > i {
                                assert(self.resimler@[j] == old(self).resimler@[j]);
                            }
                        }
                        let o = old(self).resimler@[i as int];
                        assert(o.hazir() is None);
                        if old(self).tutarli(*sayfa) {
                            assert forall|j: int| 0 <= j < n implies (#[trigger] self.resimler@[j]).tutarli(*sayfa) by {
                                if j >= i {
                                    assert(self.resimler@[j] == old(self).resimler@[j]);
                                    assert(old(self).resimler@[j].tutarli(*sayfa));
                                }
                            }
                            assert(!old(self).hazirlanabilir(*sayfa)) by {
                                assert(indirgenmis(o.resim.spec, o.kalite, *sayfa) is None);
                            }
                        }
                    }
                    return Err(e);
                },
            }
            i = i + 1;
        }
        proof {
            if old(self).tutarli(*sayfa) {
                assert forall|j: int| 0 <= j < n implies indirgenmis(
                    (#[trigger] old(self).resimler@[j]).resim.spec,
                    old(self).resimler@[j].kalite,
                    *sayfa,
                ) is Some by {
                    assert(indirgenmis(old(self).resimler@[j].resim.spec, old(self).resimler@[j].kalite, *sayfa)
                        == Some(gorunum(v@[j])));
                }
            }
        }
        Ok(v)
    }

    /// Builds the document from the list: the `.udf` bytes, the stem of its file name, and
    /// each picture's share of it (the bytes embedded for it), in list order. Every picture
    /// goes in at its own quality step (see [`kaliteye_indir`]), fitted to an A4 page.
    pub fn belge_uret(&mut self, ayri_sayfa: bool) -> (r: Result<(Vec<u8>, String, Vec<u64>), BelgeHatasi>)
        ensures
            old(self).resimler@.len() == 0 <==> r matches Err(BelgeHatasi::ListeBos),
            final(self).resimler@.len() == old(self).resimler@.len(),
            forall|i: int|
                0 <= i < old(self).resimler@.len() ==> (#[trigger] final(self).resimler@[i]).yapistirma_onbellek
                    == old(self).resimler@[i].yapistirma_onbellek,
            forall|i: int|
                0 <= i < old(self).resimler@.len() ==> Kayit::ilerledi(
                    #[trigger] old(self).resimler@[i],
                    final(self).resimler@[i],
                ),
            r matches Ok((b, g, p)) ==> {
                let ks = final(self).resimler@;
                let ad = old(self).resimler@[0].ad@;
                &&& forall|i: int| 0 <= i < ks.len() ==> (#[trigger] ks[i]).hazir() is Some
                &&& b@ == udf_baytlari(hazir_surumler(ks), spec_secenekler(ayri_sayfa))
                &&& p@.len() == ks.len()
                &&& forall|i: int|
                    0 <= i < ks.len() ==> #[trigger] p@[i] == hazir_surumler(ks)[i].bytes@.len()
                &&& !onek(ad, "pano-"@) && yalin_ad(ad) ==> g@ == spec_temiz_dosya_adi(kok(ad))
            },
            old(self).tutarli(PageFormat::a4()) ==> {
                let ks = final(self).resimler@;
                &&& final(self).tutarli(PageFormat::a4())
                &&& (r matches Err(BelgeHatasi::Hazirlama(_))) <==> (old(self).resimler@.len() > 0
                    && !old(self).hazirlanabilir(PageFormat::a4()))
                &&& r is Ok ==> forall|i: int|
                    0 <= i < ks.len() ==> indirgenmis(
                        (#[trigger] old(self).resimler@[i]).resim.spec,
                        old(self).resimler@[i].kalite,
                        PageFormat::a4(),
                    ) == Some(gorunum(hazir_surumler(ks)[i]))
                &&& r matches Err(BelgeHatasi::Udf(_)) ==> encode_utf8(
                    spec_serialize(spec_belge_kur(hazir_surumler(ks), spec_secenekler(ayri_sayfa))),
                ).len() > 0x7FFF_FFFF
            },
            !(r matches Err(BelgeHatasi::Olcum(_))),
    {
        if self.resimler.len() == 0 {
            return Err(BelgeHatasi::ListeBos);
        }
        let govde = govde_sec(self.resimler[0].ad.as_str());
        let sayfa = PageFormat::default();
        let specler = match self.specleri_hazirla(&sayfa) {
            Ok(v) => v,
            Err(e) => {
                return Err(BelgeHatasi::Hazirlama(e));
            },
        };
        let ghost ks = self.resimler@;
        let mut paylar: Vec<u64> = Vec::new();
        let mut i: usize = 0;
        while i < specler.len()
            invariant
                i <= specler@.len(),
                paylar@.len() == i,
                forall|j: int| 0 <= j < i ==> #[trigger] paylar@[j] == specler@[j].bytes@.len(),
            decreases specler@.len() - i,
        {
            paylar.push(specler[i].bytes.len() as u64);
            i = i + 1;
        }
        let opts = secenekler(ayri_sayfa);
        proof {
            a4_her_resme_yeter(specler@, ayri_sayfa);
            ayni_resimler_ayni_belge(specler@, hazir_surumler(ks), opts);
            assert(spec_belge_kur(specler@, opts) == spec_belge_kur(hazir_surumler(ks), opts));
            if old(self).tutarli(PageFormat::a4()) {
                assert forall|j: int| 0 <= j < ks.len() implies indirgenmis(
                    (#[trigger] old(self).resimler@[j]).resim.spec,
                    old(self).resimler@[j].kalite,
                    PageFormat::a4(),
                ) == Some(gorunum(hazir_surumler(ks)[j])) by {
                    assert(ayni(specler@[j], hazir_surumler(ks)[j]));
                    assert(indirgenmis(old(self).resimler@[j].resim.spec, old(self).resimler@[j].kalite, PageFormat::a4())
                        == Some(gorunum(specler@[j])));
                }
            }
        }
        let bytes = match build_udf(specler.as_slice(), &opts) {
            Ok(b) => b,
            Err(e) => {
                return Err(BelgeHatasi::Udf(e));
            },
        };
        proof {
            assert forall|j: int| 0 <= j < ks.len() implies #[trigger] paylar@[j] == hazir_surumler(ks)[j].bytes@.len() by {
                assert(ayni(specler@[j], hazir_surumler(ks)[j]));
            }
        }
        let ad = temiz_dosya_adi(govde.as_str());
        Ok((bytes, ad, paylar))
    }

    /// The pasted size of every picture at its own quality step, in list order (see
    /// [`Kayit::yapistirma_payi`]), added up, the total capped at `u64::MAX`; stops at the
    /// first that fails.
    pub fn yapistirma_toplami(&mut self) -> (r: Result<u64, String>)
        ensures
            final(self).resimler@.len() == old(self).resimler@.len(),
            forall|i: int|
                0 <= i < old(self).resimler@.len() ==> Kayit::ilerledi(
                    #[trigger] old(self).resimler@[i],
                    final(self).resimler@[i],
                ),
            forall|i: int|
                0 <= i < old(self).resimler@.len() ==> (#[trigger] final(self).resimler@[i]).onbellek
                    == old(self).resimler@[i].onbellek,
            forall|i: int|
                0 <= i < old(self).resimler@.len() && (#[trigger] old(self).resimler@[i]).yapistirmada(
                    old(self).resimler@[i].kalite,
                ) is None && final(self).resimler@[i].yapistirmada(final(self).resimler@[i].kalite)
                    is Some ==> yapistirma_olcusu(olculecek(old(self).resimler@[i]).bytes@) == Some(
                    final(self).resimler@[i].yapistirmada(final(self).resimler@[i].kalite).unwrap() as int,
                ),
            r matches Ok(t) ==> {
                &&& forall|i: int|
                    0 <= i < final(self).resimler@.len() ==> (#[trigger] final(self).resimler@[i]).yapistirmada(
                        final(self).resimler@[i].kalite,
                    ) is Some
                &&& t == u64_sinirli(yapistirma_toplami_spec(final(self).resimler@))
            },
            r is Err <==> exists|i: int|
                0 <= i < old(self).resimler@.len() && (#[trigger] old(self).resimler@[i]).yapistirmada(
                    old(self).resimler@[i].kalite,
                ) is None && yapistirma_olcusu(olculecek(old(self).resimler@[i]).bytes@) is None,
    {
        let n = self.resimler.len();
        let mut toplam: u64 = 0;
        let mut i: usize = 0;
        assert(self.resimler@.take(0) =~= Seq::<Kayit>::empty());
        while i < n
            invariant
                n == old(self).resimler@.len(),
                n == self.resimler@.len(),
                i <= n,
                forall|j: int|
                    0 <= j < i ==> Kayit::ilerledi(#[trigger] old(self).resimler@[j], self.resimler@[j]),
                forall|j: int| i <= j < n ==> #[trigger] self.resimler@[j] == old(self).resimler@[j],
                forall|j: int|
                    0 <= j < i ==> (#[trigger] self.resimler@[j]).onbellek == old(self).resimler@[j].onbellek,
                forall|j: int|
                    0 <= j < i ==> (#[trigger] self.resimler@[j]).yapistirmada(self.resimler@[j].kalite)
                        is Some,
                forall|j: int|
                    0 <= j < i && (#[trigger] old(self).resimler@[j]).yapistirmada(
                        old(self).resimler@[j].kalite,
                    ) is None ==> yapistirma_olcusu(olculecek(old(self).resimler@[j]).bytes@) == Some(
                        self.resimler@[j].yapistirmada(self.resimler@[j].kalite).unwrap() as int,
                    ),
                toplam == u64_sinirli(yapistirma_toplami_spec(self.resimler@.take(i as int))),
            decreases n - i,
        {
            let ghost once = self.resimler@;
            let mut k = self.resimler.remove(i);
            let sonuc = k.yapistirma_payi();
            self.resimler.insert(i, k);
            assert(self.resimler@ =~= once.update(i as int, k));
            match sonuc {
                Ok(b) => {
                    proof {
                        let t = self.resimler@.take(i + 1);
                        assert(t.drop_last() =~= once.take(i as int));
                        assert(once.take(i as int) =~= self.resimler@.take(i as int));
                        assert(t.last() == k);
                    }
                    toplam = toplam.saturating_add(b as u64);
                },
                Err(e) => {
                    proof {
                        let o = old(self).resimler@[i as int];
                        assert(o.yapistirmada(o.kalite) is None);
                        assert(yapistirma_olcusu(olculecek(o).bytes@) is None);
                        assert forall|j: int| 0 <= j < n implies Kayit::ilerledi(
                            #[trigger] old(self).resimler@[j],
                            self.resimler@[j],
                        ) by {
                            if j > i {
                                assert(self.resimler@[j] == old(self).resimler@[j]);
                            }
                        }
                        assert forall|j: int| 0 <= j < n implies (#[trigger] self.resimler@[j]).onbellek
                            == old(self).resimler@[j].onbellek by {
                            if j >= i {
                                assert(self.resimler@[j] == old(self).resimler@[j]);
                            }
                        }
                        assert forall|j: int|
                            0 <= j < n && (#[trigger] old(self).resimler@[j]).yapistirmada(
                                old(self).resimler@[j].kalite,
                            ) is None && self.resimler@[j].yapistirmada(self.resimler@[j].kalite)
                                is Some implies yapistirma_olcusu(olculecek(old(self).resimler@[j]).bytes@)
                            == Some(self.resimler@[j].yapistirmada(self.resimler@[j].kalite).unwrap() as int) by {
                            if j >= i {
                                assert(self.resimler@[j] == old(self).resimler@[j]);
                            }
                        }
                    }
                    return Err(e);
                },
            }
            i = i + 1;
        }
        assert(self.resimler@.take(n as int) =~= self.resimler@);
        proof {
            assert forall|j: int|
                0 <= j < n && (#[trigger] old(self).resimler@[j]).yapistirmada(old(self).resimler@[j].kalite)
                    is None implies yapistirma_olcusu(olculecek(old(self).resimler@[j]).bytes@) is Some by {
            }
        }
        Ok(toplam)
    }

    /// The size line: the bytes of the `.udf` file that would be written (the document is
    /// really built and measured), the place the pictures take once pasted (see
    /// [`Oturum::yapistirma_toplami`]) and each picture's share of the file. An empty list
    /// gives zeros without any work.
    pub fn belge_boyutu(&mut self, ayri_sayfa: bool) -> (r: Result<BoyutBilgisi, BelgeHatasi>)
        ensures
            old(self).resimler@.len() == 0 ==> (r matches Ok(b) && b.dosya == 0 && b.yapistirma
                == 0 && b.resimler@.len() == 0 && *final(self) == *old(self)),
            !(r matches Err(BelgeHatasi::ListeBos)),
            final(self).resimler@.len() == old(self).resimler@.len(),
            forall|i: int|
                0 <= i < old(self).resimler@.len() ==> Kayit::ilerledi(
                    #[trigger] old(self).resimler@[i],
                    final(self).resimler@[i],
                ),
            old(self).resimler@.len() > 0 ==> (r matches Ok(b) ==> {
                let ks = final(self).resimler@;
                &&& forall|i: int| 0 <= i < ks.len() ==> (#[trigger] ks[i]).hazir() is Some
                &&& forall|i: int|
                    0 <= i < ks.len() ==> (#[trigger] ks[i]).yapistirmada(ks[i].kalite) is Some
                &&& b.dosya == udf_baytlari(hazir_surumler(ks), spec_secenekler(ayri_sayfa)).len()
                &&& b.resimler@.len() == ks.len()
                &&& forall|i: int|
                    0 <= i < ks.len() ==> #[trigger] b.resimler@[i] == hazir_surumler(ks)[i].bytes@.len()
                &&& b.yapistirma == u64_sinirli(yapistirma_toplami_spec(ks))
            }),
            old(self).tutarli(PageFormat::a4()) ==> {
                let ks = final(self).resimler@;
                &&& final(self).tutarli(PageFormat::a4())
                &&& (r matches Err(BelgeHatasi::Hazirlama(_))) <==> (old(self).resimler@.len() > 0
                    && !old(self).hazirlanabilir(PageFormat::a4()))
                &&& r matches Err(BelgeHatasi::Udf(_)) ==> encode_utf8(
                    spec_serialize(spec_belge_kur(hazir_surumler(ks), spec_secenekler(ayri_sayfa))),
                ).len() > 0x7FFF_FFFF
                &&& r matches Err(BelgeHatasi::Olcum(_)) ==> exists|i: int|
                    0 <= i < ks.len() && (#[trigger] old(self).resimler@[i]).yapistirmada(
                        old(self).resimler@[i].kalite,
                    ) is None && yapistirma_olcusu(hazir_surumler(ks)[i].bytes@) is None
                &&& (r is Ok && old(self).resimler@.len() > 0) ==> forall|i: int|
                    0 <= i < ks.len() ==> {
                        &&& indirgenmis(
                            (#[trigger] old(self).resimler@[i]).resim.spec,
                            old(self).resimler@[i].kalite,
                            PageFormat::a4(),
                        ) == Some(gorunum(hazir_surumler(ks)[i]))
                        &&& old(self).resimler@[i].yapistirmada(old(self).resimler@[i].kalite) is None
                            ==> yapistirma_olcusu(hazir_surumler(ks)[i].bytes@) == Some(
                            ks[i].yapistirmada(ks[i].kalite).unwrap() as int,
                        )
                    }
            },
    {
        if self.resimler.len() == 0 {
            return Ok(BoyutBilgisi { dosya: 0, yapistirma: 0, resimler: Vec::new() });
        }
        let (bytes, _govde, resimler) = match self.belge_uret(ayri_sayfa) {
            Ok(v) => v,
            Err(e) => {
                return Err(e);
            },
        };
        let ghost ks1 = self.resimler@;
        proof {
            assert forall|i: int| 0 <= i < ks1.len() implies olculecek(#[trigger] ks1[i]) == hazir_surumler(ks1)[i] by {
                assert(ks1[i].hazir() is Some);
            }
        }
        let yapistirma = match self.yapistirma_toplami() {
            Ok(t) => t,
            Err(e) => {
                proof {
                    let ks = self.resimler@;
                    assert forall|i: int| 0 <= i < old(self).resimler@.len() implies Kayit::ilerledi(
                        #[trigger] old(self).resimler@[i],
                        self.resimler@[i],
                    ) by {
                        ilerledi_gecisli(old(self).resimler@[i], ks1[i], self.resimler@[i]);
                    }
                    assert forall|i: int| 0 <= i < ks.len() implies (#[trigger] ks[i]).hazir() == ks1[i].hazir() by {
                        assert(ks1[i].hazir() is Some);
                        hazir_korunur(ks1[i], ks[i]);
                    }
                    assert(hazir_surumler(ks) =~= hazir_surumler(ks1));
                    if old(self).tutarli(PageFormat::a4()) {
                        assert forall|i: int| 0 <= i < ks.len() implies (#[trigger] ks[i]).tutarli(PageFormat::a4()) by {
                            assert(ks1[i].tutarli(PageFormat::a4()));
                            assert(ks[i].onbellek == ks1[i].onbellek);
                            assert forall|k: Kalite| #[trigger] ks[i].onbellekte(k) == ks1[i].onbellekte(k) by {}
                        }
                        let j = choose|j: int| 0 <= j < ks1.len() && (#[trigger] ks1[j]).yapistirmada(ks1[j].kalite) is None
                            && yapistirma_olcusu(olculecek(ks1[j]).bytes@) is None;
                        assert(old(self).resimler@[j].yapistirmada(old(self).resimler@[j].kalite) is None);
                    }
                }
                return Err(BelgeHatasi::Olcum(e));
            },
        };
        proof {
            let ks = self.resimler@;
            assert forall|i: int| 0 <= i < old(self).resimler@.len() implies Kayit::ilerledi(
                #[trigger] old(self).resimler@[i],
                self.resimler@[i],
            ) by {
                ilerledi_gecisli(old(self).resimler@[i], ks1[i], self.resimler@[i]);
            }
            assert forall|i: int| 0 <= i < ks.len() implies (#[trigger] ks[i]).hazir() == ks1[i].hazir() by {
                assert(ks1[i].hazir() is Some);
                hazir_korunur(ks1[i], ks[i]);
            }
            assert(hazir_surumler(ks) =~= hazir_surumler(ks1));
            if old(self).tutarli(PageFormat::a4()) {
                assert forall|i: int| 0 <= i < ks.len() implies (#[trigger] ks[i]).tutarli(PageFormat::a4()) by {
                    assert(ks1[i].tutarli(PageFormat::a4()));
                    assert(ks[i].onbellek == ks1[i].onbellek);
                    assert forall|k: Kalite| #[trigger] ks[i].onbellekte(k) == ks1[i].onbellekte(k) by {}
                }
                assert forall|i: int| 0 <= i < ks.len() && old(self).resimler@[i].yapistirmada(
                    old(self).resimler@[i].kalite,
                ) is None implies yapistirma_olcusu(hazir_surumler(ks)[i].bytes@) == Some(
                    (#[trigger] ks[i]).yapistirmada(ks[i].kalite).unwrap() as int,
                ) by {
                    assert(ks1[i].yapistirmada(ks1[i].kalite) is None);
                }
            }
        }
        Ok(BoyutBilgisi { dosya: bytes.len() as u64, yapistirma, resimler })
    }

    /// The rows the list shows, in list order: each picture's place, name, pixel size,
    /// format, whether its bytes went in untouched and whether it was turned, its byte
    /// count, its display size on an A4 page (thousandths of a point), its quality step and
    /// a small preview.
    pub fn satirlar(&self) -> (r: Vec<ResimSatiri>)
        ensures
            r@.len() == self.resimler@.len(),
            forall|i: int|
                0 <= i < r@.len() ==> {
                    let k = #[trigger] self.resimler@[i];
                    let s = r@[i];
                    let (w, h) = spec_goruntuleme_boyutu(
                        k.resim.spec.px_w,
                        k.resim.spec.px_h,
                        Sizing::FitPage,
                        PageFormat::a4(),
                        1000,
                    );
                    &&& s.indeks == i
                    &&& s.ad@ == k.ad@
                    &&& s.px_w == k.resim.spec.px_w
                    &&& s.px_h == k.resim.spec.px_h
                    &&& s.bicim@ == k.resim.bicim@
                    &&& s.orijinal_korundu == k.resim.orijinal_korundu
                    &&& s.dondurul == k.resim.dondurul
                    &&& s.bayt == k.resim.spec.bytes@.len()
                    &&& s.genislik == w
                    &&& s.yukseklik == h
                    &&& s.kalite == k.kalite
                    &&& s.onizleme@ == onizleme_metni(k.resim.spec.bytes@)
                },
    {
        let sayfa = PageFormat::default();
        let mut r: Vec<ResimSatiri> = Vec::new();
        let mut i: usize = 0;
        while i < self.resimler.len()
            invariant
                i <= self.resimler@.len(),
                r@.len() == i,
                sayfa == PageFormat::a4(),
                forall|j: int|
                    0 <= j < i ==> {
                        let k = #[trigger] self.resimler@[j];
                        let s = r@[j];
                        let (w, h) = spec_goruntuleme_boyutu(
                            k.resim.spec.px_w,
                            k.resim.spec.px_h,
                            Sizing::FitPage,
                            PageFormat::a4(),
                            1000,
                        );
                        &&& s.indeks == j
                        &&& s.ad@ == k.ad@
                        &&& s.px_w == k.resim.spec.px_w
                        &&& s.px_h == k.resim.spec.px_h
                        &&& s.bicim@ == k.resim.bicim@
                        &&& s.orijinal_korundu == k.resim.orijinal_korundu
                        &&& s.dondurul == k.resim.dondurul
                        &&& s.bayt == k.resim.spec.bytes@.len()
                        &&& s.genislik == w
                        &&& s.yukseklik == h
                        &&& s.kalite == k.kalite
                        &&& s.onizleme@ == onizleme_metni(k.resim.spec.bytes@)
                    },
            decreases self.resimler@.len() - i,
        {
            let k = &self.resimler[i];
            proof {
                sayfaya_sigdirma(k.resim.spec.px_w, k.resim.spec.px_h, PageFormat::a4(), 10);
                sayfaya_sigdirma(k.resim.spec.px_w, k.resim.spec.px_h, PageFormat::a4(), 1000);
            }
            let (w, h) = goruntuleme_boyutu(k.resim.spec.px_w, k.resim.spec.px_h, Sizing::FitPage, &sayfa);
            let satir = ResimSatiri {
                indeks: i,
                ad: k.ad.clone(),
                px_w: k.resim.spec.px_w,
                px_h: k.resim.spec.px_h,
                bicim: k.resim.bicim.clone(),
                orijinal_korundu: k.resim.orijinal_korundu,
                dondurul: k.resim.dondurul,
                bayt: k.resim.spec.bytes.len(),
                genislik: w,
                yukseklik: h,
                kalite: k.kalite,
                onizleme: onizleme_uret(&k.resim.spec),
            };
            r.push(satir);
            i = i + 1;
        }
        r
    }
}

// ---------------------------------------------------------------------------
// Sizes and results handed to the window
// ---------------------------------------------------------------------------

/// The two numbers of the size line and each picture's share of the document.
#[derive(Debug)]
pub struct BoyutBilgisi {
    /// The `.udf` file that would be written (built and measured, not estimated).
    pub dosya: u64,
    /// The place the pictures take once the document is opened in the editor and pasted into
    /// a petition (approximate: the editor re-encodes every picture as PNG).
    pub yapistirma: u64,
    /// In list order, the bytes embedded for each picture at its own quality step.
    pub resimler: Vec<u64>,
}

/// What the list shows of one picture.
#[derive(Debug)]
pub struct ResimSatiri {
    pub indeks: usize,
    pub ad: String,
    pub px_w: u32,
    pub px_h: u32,
    pub bicim: String,
    pub orijinal_korundu: bool,
    pub dondurul: bool,
    pub bayt: usize,
    /// Display width on an A4 page, in thousandths of a point.
    pub genislik: i64,
    /// Display height on an A4 page, in thousandths of a point.
    pub yukseklik: i64,
    pub kalite: Kalite,
    /// A small preview (a data URI), for the list only; it never goes into the document.
    pub onizleme: String,
}

/// Where a document was written and how large it is.
#[derive(Debug)]
pub struct UretimSonucu {
    pub yol: String,
    pub boyut_bayt: u64,
}

// ---------------------------------------------------------------------------
// Update check
// ---------------------------------------------------------------------------

/// The fixed name of the installer among the release's files.
pub const KURULUM_DOSYASI: &'static str = "UDF-Resimcisi-kurulum.exe";

/// A file of a release: its `name` and `browser_download_url`, each when it is a string.
#[derive(Debug)]
pub struct SurumVarligi {
    pub ad: Option<String>,
    pub adres: Option<String>,
}

impl SurumVarligi {
    pub open spec fn view(&self) -> (Option<Seq<char>>, Option<Seq<char>>) {
        (secenek_metin(self.ad), secenek_metin(self.adres))
    }
}

/// What the release information says: its `tag_name` when it is a string, and its
/// `assets` when they are an array.
#[derive(Debug)]
pub struct SurumYaniti {
    pub etiket: Option<String>,
    pub varliklar: Option<Vec<SurumVarligi>>,
}

/// The release information as plain values: the tag, and each file's name and address.
pub type SurumBilgisi = (Option<Seq<char>>, Option<Seq<(Option<Seq<char>>, Option<Seq<char>>)>>);

impl SurumYaniti {
    pub open spec fn view(&self) -> SurumBilgisi {
        (
            secenek_metin(self.etiket),
            match self.varliklar {
                Some(vs) => Some(vs@.map_values(|v: SurumVarligi| v.view())),
                None => None,
            },
        )
    }
}

/// The characters of an optional string.
pub open spec fn secenek_metin(s: Option<String>) -> Option<Seq<char>> {
    match s {
        Some(x) => Some(x@),
        None => None,
    }
}

/// How the query for the latest release ended.
#[derive(Debug)]
pub enum SurumSorgusu {
    /// No answer (the network error, as text).
    Ulasilamadi(String),
    /// An answer that is not JSON (the parse error, as text).
    Okunamadi(String),
    /// The release information.
    Yanit(SurumYaniti),
}

/// What the update check reports.
#[derive(Debug)]
pub struct GuncellemeSonucu {
    /// "guncel" | "yeni-surum-var" | "ulasilamadi"
    pub durum: String,
    pub mesaj: String,
    pub bu_surum: String,
    pub yeni_surum: String,
    /// The installer's download address (only when a newer version is there).
    pub indirme_adresi: String,
}

impl GuncellemeSonucu {
    /// The five texts of the report, in field order.
    pub open spec fn view(&self) -> (Seq<char>, Seq<char>, Seq<char>, Seq<char>, Seq<char>) {
        (self.durum@, self.mesaj@, self.bu_surum@, self.yeni_surum@, self.indirme_adresi@)
    }
}

/// The download address of the first file named as the installer, or nothing.
pub open spec fn ilk_kurulum_adresi(vs: Seq<(Option<Seq<char>>, Option<Seq<char>>)>) -> Seq<char>
    decreases vs.len(),
{
    if vs.len() == 0 {
        Seq::empty()
    } else if vs[0].0 == Some(KURULUM_DOSYASI@) {
        match vs[0].1 {
            Some(u) => u,
            None => Seq::empty(),
        }
    } else {
        ilk_kurulum_adresi(vs.drop_first())
    }
}

/// An optional text, or nothing.
pub open spec fn ya_da_bos(s: Option<Seq<char>>) -> Seq<char> {
    match s {
        Some(x) => x,
        None => Seq::empty(),
    }
}

/// The report when no answer came (`e` is the network error).
pub open spec fn ulasilamadi_karari(bu: Seq<char>, e: Seq<char>) -> (
    Seq<char>,
    Seq<char>,
    Seq<char>,
    Seq<char>,
    Seq<char>,
) {
    (
        "ulasilamadi"@,
        "Sürüm bilgisi alınamadı; internet bağlantınızı denetleyin. ("@ + e + ")"@,
        bu,
        Seq::empty(),
        Seq::empty(),
    )
}

/// The report when the answer is not JSON (`e` is the parse error).
pub open spec fn okunamadi_karari(bu: Seq<char>, e: Seq<char>) -> (
    Seq<char>,
    Seq<char>,
    Seq<char>,
    Seq<char>,
    Seq<char>,
) {
    ("ulasilamadi"@, "Sürüm bilgisi okunamadı: "@ + e, bu, Seq::empty(), Seq::empty())
}

/// The report on release information: no released tag, "ulasilamadi"; a tag after this
/// version (compared as major.minor.patch numbers), "yeni-surum-var" with the installer's
/// address; otherwise "guncel".
pub open spec fn yanit_karari(bu: Seq<char>, y: SurumBilgisi) -> (
    Seq<char>,
    Seq<char>,
    Seq<char>,
    Seq<char>,
    Seq<char>,
) {
    let etiket = ya_da_bos(y.0);
    let adres = match y.1 {
        Some(vs) => ilk_kurulum_adresi(vs),
        None => Seq::empty(),
    };
    if etiket.len() == 0 {
        ("ulasilamadi"@, "Yayımlanmış bir sürüm bulunamadı."@, bu, Seq::empty(), Seq::empty())
    } else if surum_sonra(spec_surum_parcala(etiket), spec_surum_parcala(bu)) {
        ("yeni-surum-var"@, "Yeni sürüm var: "@ + etiket, bu, etiket, adres)
    } else {
        ("guncel"@, "En son sürümü kullanıyorsunuz ("@ + bu + ")."@, bu, etiket, Seq::empty())
    }
}

/// The update decision as (status, message, this version, latest version, download
/// address), from this version and how the query ended.
pub open spec fn spec_guncelleme_karari(bu: Seq<char>, sorgu: SurumSorgusu) -> (
    Seq<char>,
    Seq<char>,
    Seq<char>,
    Seq<char>,
    Seq<char>,
) {
    match sorgu {
        SurumSorgusu::Ulasilamadi(e) => ulasilamadi_karari(bu, e@),
        SurumSorgusu::Okunamadi(e) => okunamadi_karari(bu, e@),
        SurumSorgusu::Yanit(y) => yanit_karari(bu, y.view()),
    }
}

/// The download address of the first file named as the installer, or an empty string.
fn kurulum_adresi(vs: &Vec<SurumVarligi>) -> (r: String)
    ensures
        r@ == ilk_kurulum_adresi(vs@.map_values(|v: SurumVarligi| v.view())),
{
    let ghost g = vs@.map_values(|v: SurumVarligi| v.view());
    let aranan = String::from_str(KURULUM_DOSYASI);
    let mut i: usize = 0;
    assert(g.skip(0) =~= g);
    while i < vs.len()
        invariant
            i <= vs@.len(),
            g == vs@.map_values(|v: SurumVarligi| v.view()),
            aranan@ == KURULUM_DOSYASI@,
            ilk_kurulum_adresi(g) == ilk_kurulum_adresi(g.skip(i as int)),
        decreases vs@.len() - i,
    {
        let ghost kalan = g.skip(i as int);
        assert(kalan[0] == vs@[i as int].view());
        let esit = match &vs[i].ad {
            Some(a) => *a == aranan,
            None => false,
        };
        if esit {
            return match &vs[i].adres {
                Some(u) => u.clone(),
                None => String::new(),
            };
        }
        assert(kalan.drop_first() =~= g.skip(i + 1));
        i = i + 1;
    }
    assert(g.skip(i as int) =~= Seq::<(Option<Seq<char>>, Option<Seq<char>>)>::empty());
    String::new()
}

/// Decides what the update check reports, from this version and how the query ended.
pub fn guncelleme_karari(bu: &str, sorgu: SurumSorgusu) -> (r: GuncellemeSonucu)
    ensures
        r.view() == spec_guncelleme_karari(bu@, sorgu),
{
    match sorgu {
        SurumSorgusu::Ulasilamadi(e) => {
            let mut mesaj = String::from_str("Sürüm bilgisi alınamadı; internet bağlantınızı denetleyin. (");
            mesaj.append(e.as_str());
            mesaj.append(")");
            GuncellemeSonucu {
                durum: String::from_str("ulasilamadi"),
                mesaj,
                bu_surum: String::from_str(bu),
                yeni_surum: String::new(),
                indirme_adresi: String::new(),
            }
        },
        SurumSorgusu::Okunamadi(e) => {
            let mut mesaj = String::from_str("Sürüm bilgisi okunamadı: ");
            mesaj.append(e.as_str());
            GuncellemeSonucu {
                durum: String::from_str("ulasilamadi"),
                mesaj,
                bu_surum: String::from_str(bu),
                yeni_surum: String::new(),
                indirme_adresi: String::new(),
            }
        },
        SurumSorgusu::Yanit(y) => {
            let etiket = match &y.etiket {
                Some(t) => t.clone(),
                None => String::new(),
            };
            let adres = match &y.varliklar {
                Some(vs) => kurulum_adresi(vs),
                None => String::new(),
            };
            if etiket.unicode_len() == 0 {
                return GuncellemeSonucu {
                    durum: String::from_str("ulasilamadi"),
                    mesaj: String::from_str("Yayımlanmış bir sürüm bulunamadı."),
                    bu_surum: String::from_str(bu),
                    yeni_surum: String::new(),
                    indirme_adresi: String::new(),
                };
            }
            let yeni = surum_parcala(etiket.as_str());
            let simdiki = surum_parcala(bu);
            if surum_daha_yeni(yeni, simdiki) {
                let mut mesaj = String::from_str("Yeni sürüm var: ");
                mesaj.append(etiket.as_str());
                GuncellemeSonucu {
                    durum: String::from_str("yeni-surum-var"),
                    mesaj,
                    bu_surum: String::from_str(bu),
                    yeni_surum: etiket,
                    indirme_adresi: adres,
                }
            } else {
                let mut mesaj = String::from_str("En son sürümü kullanıyorsunuz (");
                mesaj.append(bu);
                mesaj.append(").");
                GuncellemeSonucu {
                    durum: String::from_str("guncel"),
                    mesaj,
                    bu_surum: String::from_str(bu),
                    yeni_surum: etiket,
                    indirme_adresi: String::new(),
                }
            }
        },
    }
}

/// What `serde_json` reads from a release answer: when it is not JSON, the text of the
/// parse error; otherwise its `tag_name` when that is a string, and its `assets` when they
/// are an array, each with its `name` and `browser_download_url` when those are strings.
pub uninterp spec fn surum_json_okumasi(govde: Seq<char>) -> Result<SurumBilgisi, Seq<char>>;

/// `serde_json::from_str::<serde_json::Value>` on the answer, then the fields read with
/// `Value::as_str` and `Value::as_array`; the parse error is given as its text.
#[verifier::external_body]
fn surum_jsonu_oku(govde: &str) -> (r: Result<SurumYaniti, String>)
    ensures
        r matches Ok(y) ==> surum_json_okumasi(govde@) matches Ok(v) && v == y.view(),
        r matches Err(e) ==> surum_json_okumasi(govde@) matches Err(m) && m == e@,
{
    let v: serde_json::Value = serde_json::from_str(govde).map_err(|e| e.to_string())?;
    let metin = |x: &serde_json::Value| x.as_str().map(|s| s.to_string());
    let varliklar = v["assets"].as_array().map(|a| {
        a.iter().map(|x| SurumVarligi { ad: metin(&x["name"]), adres: metin(&x["browser_download_url"]) }).collect()
    });
    Ok(SurumYaniti { etiket: metin(&v["tag_name"]), varliklar })
}

/// The update check from what the query for the latest release gave: the answer's text,
/// or the network error as text. An answer is read as JSON (see
/// [`surum_json_okumasi`]) and decided on with [`guncelleme_karari`].
pub fn guncelleme_yanitla(bu: &str, yanit: Result<String, String>) -> (r: GuncellemeSonucu)
    ensures
        yanit matches Err(e) ==> r.view() == ulasilamadi_karari(bu@, e@),
        yanit matches Ok(g) ==> match surum_json_okumasi(g@) {
            Ok(y) => r.view() == yanit_karari(bu@, y),
            Err(e) => r.view() == okunamadi_karari(bu@, e),
        },
{
    let sorgu = match yanit {
        Err(e) => SurumSorgusu::Ulasilamadi(e),
        Ok(g) => match surum_jsonu_oku(g.as_str()) {
            Ok(y) => SurumSorgusu::Yanit(y),
            Err(e) => SurumSorgusu::Okunamadi(e),
        },
    };
    guncelleme_karari(bu, sorgu)
}


// ---------------------------------------------------------------------------
// Properties of names and versions
// ---------------------------------------------------------------------------

proof fn bastan_kirp_sonek(s: Seq<char>) -> (k: int)
    ensures
        0 <= k <= s.len(),
        bastan_kirp(s) == s.skip(k),
    decreases s.len(),
{
    if s.len() > 0 && bosluk(s[0]) {
        let k = bastan_kirp_sonek(s.drop_first());
        assert(s.drop_first().skip(k) =~= s.skip(k + 1));
        k + 1
    } else {
        assert(s.skip(0) =~= s);
        0
    }
}

proof fn sondan_kirp_onek(s: Seq<char>) -> (m: int)
    ensures
        0 <= m <= s.len(),
        sondan_kirp(s) == s.take(m),
    decreases s.len(),
{
    if s.len() > 0 && bosluk(s.last()) {
        let m = sondan_kirp_onek(s.drop_last());
        assert(s.drop_last().take(m) =~= s.take(m));
        m
    } else {
        assert(s.take(s.len() as int) =~= s);
        s.len() as int
    }
}

proof fn kirp_uclari(s: Seq<char>)
    ensures
        kirp(s).len() > 0 ==> !bosluk(kirp(s)[0]) && !bosluk(kirp(s).last()),
    decreases s.len(),
{
    let b = bastan_kirp(s);
    let k = bastan_kirp_sonek(s);
    bastan_kirp_bosluksuz(s);
    let m = sondan_kirp_onek(b);
    sondan_kirp_bosluksuz(b);
}

proof fn bastan_kirp_bosluksuz(s: Seq<char>)
    ensures
        bastan_kirp(s).len() > 0 ==> !bosluk(bastan_kirp(s)[0]),
    decreases s.len(),
{
    if s.len() > 0 && bosluk(s[0]) {
        bastan_kirp_bosluksuz(s.drop_first());
    }
}

proof fn sondan_kirp_bosluksuz(s: Seq<char>)
    ensures
        sondan_kirp(s).len() > 0 ==> !bosluk(sondan_kirp(s).last()),
        sondan_kirp(s).len() > 0 && s.len() > 0 && !bosluk(s[0]) ==> !bosluk(sondan_kirp(s)[0]),
    decreases s.len(),
{
    if s.len() > 0 && bosluk(s.last()) {
        sondan_kirp_bosluksuz(s.drop_last());
        if s.drop_last().len() > 0 {
            assert(s.drop_last()[0] == s[0]);
        }
    }
}

/// A file name made safe holds no character that Windows forbids in a file name, and
/// neither begins nor ends with a blank.
pub proof fn temiz_ad_guvenli(s: Seq<char>)
    ensures
        forall|i: int|
            0 <= i < spec_temiz_dosya_adi(s).len() ==> !yasak_karakter(
                #[trigger] spec_temiz_dosya_adi(s)[i],
            ),
        spec_temiz_dosya_adi(s).len() > 0 ==> !bosluk(spec_temiz_dosya_adi(s)[0]) && !bosluk(
            spec_temiz_dosya_adi(s).last(),
        ),
{
    let d = yasaklari_degistir(s);
    let k = bastan_kirp_sonek(d);
    let b = bastan_kirp(d);
    let m = sondan_kirp_onek(b);
    let r = spec_temiz_dosya_adi(s);
    assert(r == d.skip(k).take(m));
    assert forall|i: int| 0 <= i < r.len() implies !yasak_karakter(#[trigger] r[i]) by {
        assert(r[i] == d[k + i]);
    }
    kirp_uclari(d);
}

proof fn ondalik_bos_degil(n: nat)
    ensures
        ondalik(n).len() >= 1,
    decreases n,
{
    if n >= 10 {
        ondalik_bos_degil(n / 10);
    }
}

proof fn rakam_birebir(a: nat, b: nat)
    requires
        a < 10,
        b < 10,
        rakam(a) == rakam(b),
    ensures
        a == b,
{
}

/// Different numbers are written differently.
proof fn ondalik_birebir(n: nat, m: nat)
    requires
        ondalik(n) == ondalik(m),
    ensures
        n == m,
    decreases n,
{
    if n < 10 && m < 10 {
        assert(ondalik(n)[0] == rakam(n));
        assert(ondalik(m)[0] == rakam(m));
        rakam_birebir(n, m);
    } else if n < 10 {
        ondalik_bos_degil(m / 10);
        assert(ondalik(m).len() >= 2);
    } else if m < 10 {
        ondalik_bos_degil(n / 10);
        assert(ondalik(n).len() >= 2);
    } else {
        assert(ondalik(n).last() == rakam(n % 10));
        assert(ondalik(m).last() == rakam(m % 10));
        rakam_birebir(n % 10, m % 10);
        assert(ondalik(n).drop_last() == ondalik(n / 10));
        assert(ondalik(m).drop_last() == ondalik(m / 10));
        ondalik_birebir(n / 10, m / 10);
    }
}

/// The candidate names for a document are all different, so trying them in turn always
/// finds one not taken among any number of existing files.
pub proof fn aday_adlari_farkli(govde: Seq<char>, n: nat, m: nat)
    requires
        n >= 1,
        m >= 1,
        n != m,
    ensures
        aday_adi(govde, n) != aday_adi(govde, m),
{
    ondalik_bos_degil(n);
    ondalik_bos_degil(m);
    reveal_strlit(".udf");
    reveal_strlit(" (");
    reveal_strlit(").udf");
    if n > 1 && m > 1 {
        if aday_adi(govde, n) == aday_adi(govde, m) {
            let a = aday_adi(govde, n);
            let b = aday_adi(govde, m);
            assert(" ("@.len() == 2);
            assert(").udf"@.len() == 5);
            assert(a.len() == govde.len() + 2 + ondalik(n).len() + 5);
            assert(b.len() == govde.len() + 2 + ondalik(m).len() + 5);
            assert(ondalik(n).len() == ondalik(m).len());
            let bas = govde.len() + 2;
            assert(a.subrange(bas as int, (bas + ondalik(n).len()) as int) =~= ondalik(n));
            assert(b.subrange(bas as int, (bas + ondalik(m).len()) as int) =~= ondalik(m));
            ondalik_birebir(n, m);
        }
    } else {
        assert(aday_adi(govde, n).len() != aday_adi(govde, m).len());
    }
}

/// Versions are ordered field by field: a larger major version is newer; with equal major
/// versions a larger minor version is newer; with equal major and minor versions a larger
/// patch is newer. Of two different versions exactly one is the newer, and no version is
/// newer than itself.
pub proof fn surum_sirasi(a: (u32, u32, u32), b: (u32, u32, u32))
    ensures
        a.0 > b.0 ==> surum_sonra(a, b),
        a.0 == b.0 && a.1 > b.1 ==> surum_sonra(a, b),
        a.0 == b.0 && a.1 == b.1 && a.2 > b.2 ==> surum_sonra(a, b),
        a.0 < b.0 ==> !surum_sonra(a, b),
        surum_sonra(a, b) ==> !surum_sonra(b, a),
        a == b || surum_sonra(a, b) || surum_sonra(b, a),
        !surum_sonra(a, a),
{
}

proof fn bosluk_yasak_degil(c: char)
    ensures
        bosluk(c) ==> !yasak_karakter(c),
        !bosluk('_'),
{
}

proof fn degistir_bastan_kirp(s: Seq<char>)
    ensures
        bastan_kirp(yasaklari_degistir(s)) == yasaklari_degistir(bastan_kirp(s)),
    decreases s.len(),
{
    let d = yasaklari_degistir(s);
    bosluk_yasak_degil('_');
    if s.len() > 0 {
        bosluk_yasak_degil(s[0]);
        assert(d.drop_first() =~= yasaklari_degistir(s.drop_first()));
        if bosluk(s[0]) {
            degistir_bastan_kirp(s.drop_first());
        }
    } else {
        assert(d =~= yasaklari_degistir(s));
    }
}

proof fn degistir_sondan_kirp(s: Seq<char>)
    ensures
        sondan_kirp(yasaklari_degistir(s)) == yasaklari_degistir(sondan_kirp(s)),
    decreases s.len(),
{
    let d = yasaklari_degistir(s);
    bosluk_yasak_degil('_');
    if s.len() > 0 {
        bosluk_yasak_degil(s.last());
        assert(d.drop_last() =~= yasaklari_degistir(s.drop_last()));
        if bosluk(s.last()) {
            degistir_sondan_kirp(s.drop_last());
        }
    }
}

/// Making a file name safe changes nothing but the forbidden characters: the result is the
/// trimmed name, character for character, with each forbidden character (and only those)
/// turned into `_`; a name without forbidden characters is only trimmed.
pub proof fn temiz_ad_yalniz_yasaklari_degistirir(s: Seq<char>)
    ensures
        spec_temiz_dosya_adi(s).len() == kirp(s).len(),
        forall|i: int|
            0 <= i < kirp(s).len() ==> #[trigger] spec_temiz_dosya_adi(s)[i] == (if yasak_karakter(
                kirp(s)[i],
            ) {
                '_'
            } else {
                kirp(s)[i]
            }),
        (forall|i: int| 0 <= i < s.len() ==> !yasak_karakter(#[trigger] s[i]))
            ==> spec_temiz_dosya_adi(s) == kirp(s),
{
    degistir_bastan_kirp(s);
    degistir_sondan_kirp(bastan_kirp(s));
    assert(spec_temiz_dosya_adi(s) == yasaklari_degistir(kirp(s)));
    if forall|i: int| 0 <= i < s.len() ==> !yasak_karakter(#[trigger] s[i]) {
        assert(yasaklari_degistir(s) =~= s);
    }
}

/// Leading `v`s do not change a version: `"v1.1.0"` and `"1.1.0"` are the same version.
pub proof fn surum_v_oneki_onemsiz(s: Seq<char>)
    ensures
        spec_surum_parcala(seq!['v'] + s) == spec_surum_parcala(s),
{
    assert((seq!['v'] + s).drop_first() =~= s);
}

} // verus!
