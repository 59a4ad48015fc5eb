//! What the library decides for the UYAP document editor (UDE): where its program is, read
//! from the `.udf` open command, and what a copy attempt achieved. Opening documents,
//! windows and the clipboard are Windows work done outside.

use vstd::prelude::*;
use crate::metin::{
    bosluk, bosluk_mu, icerir, iceriyor, karakterler, karakterlerden, kirp, kirp_karakterler,
};

verus! {

/// `s` up to (not including) its first character for which `durdur` holds, or all of `s`.
pub open spec fn ilk_parca(s: Seq<char>, durdur: spec_fn(char) -> bool) -> Seq<char>
    decreases s.len(),
{
    if s.len() == 0 || durdur(s[0]) {
        Seq::empty()
    } else {
        seq![s[0]] + ilk_parca(s.drop_first(), durdur)
    }
}

/// The program of an open command: the command without surrounding blanks; if it starts
/// with a quote, what stands up to the next quote, otherwise its first blank-separated
/// word; nothing for an empty command.
pub open spec fn spec_ude_exe_yolu(komut: Seq<char>) -> Option<Seq<char>> {
    let s = kirp(komut);
    if s.len() > 0 && s[0] == '"' {
        Some(ilk_parca(s.drop_first(), |c: char| c == '"'))
    } else if s.len() == 0 {
        None
    } else {
        Some(ilk_parca(s, |c: char| bosluk(c)))
    }
}

/// Takes the characters of `v` from `bas` up to the first quote (or to the end when `tirnak`
/// is false, up to the first blank).
fn parca_al(v: &Vec<char>, bas: usize, tirnak: bool) -> (r: Vec<char>)
    requires
        bas <= v@.len(),
    ensures
        tirnak ==> r@ == ilk_parca(v@.skip(bas as int), |c: char| c == '"'),
        !tirnak ==> r@ == ilk_parca(v@.skip(bas as int), |c: char| bosluk(c)),
{
    let ghost durdur = if tirnak { |c: char| c == '"' } else { |c: char| bosluk(c) };
    let mut r: Vec<char> = Vec::new();
    let mut i: usize = bas;
    assert(r@ + ilk_parca(v@.skip(bas as int), durdur) =~= ilk_parca(v@.skip(bas as int), durdur));
    while i < v.len()
        invariant
            bas <= i <= v@.len(),
            durdur == (if tirnak { |c: char| c == '"' } else { |c: char| bosluk(c) }),
            r@ + ilk_parca(v@.skip(i as int), durdur) == ilk_parca(v@.skip(bas as int), durdur),
        decreases v@.len() - i,
    {
        let c = v[i];
        let dur = if tirnak { c == '"' } else { bosluk_mu(c) };
        let ghost kalan = v@.skip(i as int);
        assert(kalan[0] == c);
        if dur {
            assert(ilk_parca(kalan, durdur) == Seq::<char>::empty());
            assert(r@ =~= ilk_parca(v@.skip(bas as int), durdur));
            return r;
        }
        assert(kalan.drop_first() =~= v@.skip(i + 1));
        r.push(c);
        i = i + 1;
        assert(r@ + ilk_parca(v@.skip(i as int), durdur) =~= ilk_parca(v@.skip(bas as int), durdur));
    }
    assert(v@.skip(i as int) =~= Seq::<char>::empty());
    assert(r@ =~= ilk_parca(v@.skip(bas as int), durdur));
    r
}

/// The editor's program path from the `.udf` open command found in the registry, which
/// reads like `"C:\...\Uyap Doküman Editörü.exe" "getNewWPInstance" ...`: the quoted first
/// part, or the first word when it is not quoted.
pub fn ude_exe_yolu(komut: &str) -> (r: Option<String>)
    ensures
        r matches Some(x) ==> spec_ude_exe_yolu(komut@) == Some(x@),
        r is None ==> spec_ude_exe_yolu(komut@) is None,
{
    let v = karakterler(komut);
    let s = kirp_karakterler(&v);
    if s.len() > 0 && s[0] == '"' {
        let p = parca_al(&s, 1, true);
        assert(s@.skip(1) =~= s@.drop_first());
        Some(karakterlerden(&p))
    } else if s.len() == 0 {
        None
    } else {
        let p = parca_al(&s, 0, false);
        assert(s@.skip(0) =~= s@);
        Some(karakterlerden(&p))
    }
}

/// What an attempt to copy a document through the editor achieved.
#[derive(Debug, Clone, Copy, PartialEq, Eq, Structural)]
pub enum KopyalamaSonucu {
    /// The clipboard sequence number changed: the picture really is on the clipboard.
    Panoda,
    /// The window was found but the clipboard did not change.
    PanoDegismedi,
    /// No editor window appeared in time.
    PencereYok,
}

/// The verdict of a copy attempt: without a window, [`KopyalamaSonucu::PencereYok`]; with
/// one, "copied" only if the clipboard sequence number changed between before and after.
pub fn kopyalama_sonucu(pencere_bulundu: bool, once: u32, sonra: u32) -> (r: KopyalamaSonucu)
    ensures
        !pencere_bulundu ==> r == KopyalamaSonucu::PencereYok,
        pencere_bulundu && once == sonra ==> r == KopyalamaSonucu::PanoDegismedi,
        pencere_bulundu && once != sonra ==> r == KopyalamaSonucu::Panoda,
{
    if !pencere_bulundu {
        KopyalamaSonucu::PencereYok
    } else if once == sonra {
        KopyalamaSonucu::PanoDegismedi
    } else {
        KopyalamaSonucu::Panoda
    }
}


/// The text that `str::to_lowercase` gives (Unicode lower case).
pub uninterp spec fn kucuk_harfli(s: Seq<char>) -> Seq<char>;

/// `str::to_lowercase`.
#[verifier::external_body]
fn kucuk_harfe(s: &str) -> (r: String)
    ensures
        r@ == kucuk_harfli(s@),
{
    s.to_lowercase()
}

/// What a window's title is searched for: the pattern in lower case, so that the search
/// ignores case.
pub fn arama_deseni(desen: &str) -> (r: String)
    ensures
        r@ == kucuk_harfli(desen@),
{
    kucuk_harfe(desen)
}

/// Whether a window is the one searched for: it is visible, of the class asked for (any
/// class when none is asked for), and its title in lower case contains the pattern (any
/// title when the pattern is empty).
pub open spec fn spec_pencere_eslesir(
    gorunur: bool,
    sinif: Seq<char>,
    aranan_sinif: Seq<char>,
    baslik: Seq<char>,
    desen: Seq<char>,
) -> bool {
    &&& gorunur
    &&& aranan_sinif.len() == 0 || sinif == aranan_sinif
    &&& desen.len() == 0 || icerir(kucuk_harfli(baslik), desen)
}

/// Whether a window is the one searched for (see [`spec_pencere_eslesir`]); `desen` is a
/// pattern made with [`arama_deseni`].
pub fn pencere_eslesir(gorunur: bool, sinif: &str, aranan_sinif: &str, baslik: &str, desen: &str)
    -> (r: bool)
    ensures
        r == spec_pencere_eslesir(gorunur, sinif@, aranan_sinif@, baslik@, desen@),
{
    if !gorunur {
        return false;
    }
    if aranan_sinif.unicode_len() != 0 {
        let a = String::from_str(sinif);
        let b = String::from_str(aranan_sinif);
        if !(a == b) {
            return false;
        }
    }
    if desen.unicode_len() == 0 {
        return true;
    }
    let k = kucuk_harfe(baslik);
    iceriyor(k.as_str(), desen)
}

/// What to do next while waiting for a window.
#[derive(Debug, Clone, Copy, PartialEq, Eq, Structural)]
pub enum PencereAdimi {
    /// The window is there.
    Bulundu,
    /// The time is up without it.
    SureDoldu,
    /// Look again after a pause.
    Yokla,
}

/// The step of a wait for a window, polled until a deadline: found means done; otherwise
/// give up once the clock (`simdi`) has reached the deadline (`bitis`), else poll again.
pub fn pencere_adimi(bulundu: bool, simdi: u64, bitis: u64) -> (r: PencereAdimi)
    ensures
        bulundu ==> r == PencereAdimi::Bulundu,
        !bulundu && simdi >= bitis ==> r == PencereAdimi::SureDoldu,
        !bulundu && simdi < bitis ==> r == PencereAdimi::Yokla,
{
    if bulundu {
        PencereAdimi::Bulundu
    } else if simdi >= bitis {
        PencereAdimi::SureDoldu
    } else {
        PencereAdimi::Yokla
    }
}

} // verus!
