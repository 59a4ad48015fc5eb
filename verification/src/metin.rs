//! Text building blocks: decimal and fixed-point number formatting, XML escaping and
//! character-level helpers shared by the serialiser and the file-name rules.

use vstd::prelude::*;

verus! {

/// The ASCII digit for `d` (`0 <= d < 10`).
pub open spec fn rakam(d: nat) -> char {
    if d == 0 { '0' }
    else if d == 1 { '1' }
    else if d == 2 { '2' }
    else if d == 3 { '3' }
    else if d == 4 { '4' }
    else if d == 5 { '5' }
    else if d == 6 { '6' }
    else if d == 7 { '7' }
    else if d == 8 { '8' }
    else { '9' }
}

/// Decimal notation of a natural number, without leading zeros ("0" for zero).
pub open spec fn ondalik(n: nat) -> Seq<char>
    decreases n,
{
    if n < 10 {
        seq![rakam(n)]
    } else {
        ondalik(n / 10).push(rakam(n % 10))
    }
}

/// Decimal notation of an integer: a minus sign before the magnitude of a negative number.
pub open spec fn isaretli(v: int) -> Seq<char> {
    if v < 0 { seq!['-'] + ondalik((-v) as nat) } else { ondalik(v as nat) }
}

/// A value held in tenths, written with exactly one decimal digit (`5244` is "524.4",
/// `-5` is "-0.5").
pub open spec fn onda_bir(v: int) -> Seq<char> {
    let m: nat = if v < 0 { (-v) as nat } else { v as nat };
    (if v < 0 { seq!['-'] } else { Seq::empty() }) + ondalik(m / 10) + seq!['.', rakam(m % 10)]
}

/// A value held in hundredths, written with exactly two decimal digits (`4252` is "42.52").
pub open spec fn yuzde_bir(v: int) -> Seq<char> {
    let m: nat = if v < 0 { (-v) as nat } else { v as nat };
    (if v < 0 { seq!['-'] } else { Seq::empty() }) + ondalik(m / 100) + seq![
        '.',
        rakam((m / 10) % 10),
        rakam(m % 10),
    ]
}

/// A value held in hundredths, written without a fractional part when it is whole and
/// otherwise with no trailing zero (`1200` is "12", `825` is "8.25", `1250` is "12.5").
pub open spec fn kisa_sayi(v: int) -> Seq<char> {
    let m: nat = if v < 0 { (-v) as nat } else { v as nat };
    let isaret = if v < 0 && m != 0 { seq!['-'] } else { Seq::<char>::empty() };
    if m % 100 == 0 {
        isaret + ondalik(m / 100)
    } else if m % 10 == 0 {
        isaret + ondalik(m / 100) + seq!['.', rakam((m / 10) % 10)]
    } else {
        isaret + ondalik(m / 100) + seq!['.', rakam((m / 10) % 10), rakam(m % 10)]
    }
}

/// Appends one character to a string (`String::push`).
#[verifier::external_body]
pub(crate) fn karakter_ekle(s: &mut String, c: char)
    ensures
        final(s)@ == old(s)@.push(c),
{
    s.push(c);
}

/// The string whose characters are `v` (`String::from_iter`).
#[verifier::external_body]
pub(crate) fn karakterlerden(v: &Vec<char>) -> (s: String)
    ensures
        s@ == v@,
{
    String::from_iter(v.iter())
}

/// The characters of a string slice, in order.
pub fn karakterler(s: &str) -> (v: Vec<char>)
    ensures
        v@ == s@,
{
    let mut v: Vec<char> = Vec::new();
    for c in it: s.chars()
        invariant
            v@ == it.seq().take(it.index() as int),
            it.seq() == s@,
    {
        v.push(c);
    }
    assert(v@ =~= s@);
    v
}

/// The digit character for `d < 10`.
pub fn rakam_karakteri(d: u64) -> (c: char)
    requires
        d < 10,
    ensures
        c == rakam(d as nat),
{
    if d == 0 { '0' }
    else if d == 1 { '1' }
    else if d == 2 { '2' }
    else if d == 3 { '3' }
    else if d == 4 { '4' }
    else if d == 5 { '5' }
    else if d == 6 { '6' }
    else if d == 7 { '7' }
    else if d == 8 { '8' }
    else { '9' }
}

/// Appends the decimal notation of `n`.
pub fn sayi_ekle(s: &mut String, n: u64)
    ensures
        final(s)@ == old(s)@ + ondalik(n as nat),
    decreases n,
{
    if n < 10 {
        karakter_ekle(s, rakam_karakteri(n));
    } else {
        sayi_ekle(s, n / 10);
        karakter_ekle(s, rakam_karakteri(n % 10));
    }
}


/// Magnitude of a signed integer as an unsigned one.
pub fn mutlak(v: i64) -> (m: u64)
    ensures
        m == (if v < 0 { -(v as int) } else { v as int }),
{
    if v < 0 {
        (-(v + 1)) as u64 + 1
    } else {
        v as u64
    }
}

/// Appends the decimal notation of an integer, with a minus sign if it is negative.
pub fn isaretli_ekle(s: &mut String, v: i64)
    ensures
        final(s)@ == old(s)@ + isaretli(v as int),
{
    let m = mutlak(v);
    if v < 0 {
        karakter_ekle(s, '-');
        let ghost orta = s@;
        sayi_ekle(s, m);
        assert(s@ =~= old(s)@ + isaretli(v as int));
    } else {
        sayi_ekle(s, m);
    }
}

/// Appends a value held in tenths with one decimal digit.
pub fn onda_bir_ekle(s: &mut String, v: i64)
    ensures
        final(s)@ == old(s)@ + onda_bir(v as int),
{
    let m = mutlak(v);
    if v < 0 {
        karakter_ekle(s, '-');
    }
    sayi_ekle(s, m / 10);
    karakter_ekle(s, '.');
    karakter_ekle(s, rakam_karakteri(m % 10));
    assert(s@ =~= old(s)@ + onda_bir(v as int));
}

/// Appends a value held in hundredths with two decimal digits.
pub fn yuzde_bir_ekle(s: &mut String, v: i64)
    ensures
        final(s)@ == old(s)@ + yuzde_bir(v as int),
{
    let m = mutlak(v);
    if v < 0 {
        karakter_ekle(s, '-');
    }
    sayi_ekle(s, m / 100);
    karakter_ekle(s, '.');
    karakter_ekle(s, rakam_karakteri((m / 10) % 10));
    karakter_ekle(s, rakam_karakteri(m % 10));
    assert(s@ =~= old(s)@ + yuzde_bir(v as int));
}

/// Appends a value held in hundredths in its shortest form (no fractional part when whole,
/// no trailing zero otherwise).
pub fn kisa_sayi_ekle(s: &mut String, v: i64)
    ensures
        final(s)@ == old(s)@ + kisa_sayi(v as int),
{
    let m = mutlak(v);
    if v < 0 && m != 0 {
        karakter_ekle(s, '-');
    }
    sayi_ekle(s, m / 100);
    if m % 100 != 0 {
        karakter_ekle(s, '.');
        karakter_ekle(s, rakam_karakteri((m / 10) % 10));
        if m % 10 != 0 {
            karakter_ekle(s, rakam_karakteri(m % 10));
        }
    }
    assert(s@ =~= old(s)@ + kisa_sayi(v as int));
}

/// Unicode `White_Space` (what `char::is_whitespace` and `str::trim` take for blank).
pub open spec fn bosluk(c: char) -> bool {
    ('\u{9}' <= c <= '\u{d}') || c == ' ' || c == '\u{85}' || c == '\u{a0}' || c == '\u{1680}'
        || ('\u{2000}' <= c <= '\u{200a}') || c == '\u{2028}' || c == '\u{2029}' || c
        == '\u{202f}' || c == '\u{205f}' || c == '\u{3000}'
}

/// Whether `c` is Unicode `White_Space`.
pub fn bosluk_mu(c: char) -> (r: bool)
    ensures
        r == bosluk(c),
{
    ('\u{9}' <= c && c <= '\u{d}') || c == ' ' || c == '\u{85}' || c == '\u{a0}' || c == '\u{1680}'
        || ('\u{2000}' <= c && c <= '\u{200a}') || c == '\u{2028}' || c == '\u{2029}' || c
        == '\u{202f}' || c == '\u{205f}' || c == '\u{3000}'
}

/// `s` without its leading blanks.
pub open spec fn bastan_kirp(s: Seq<char>) -> Seq<char>
    decreases s.len(),
{
    if s.len() > 0 && bosluk(s[0]) {
        bastan_kirp(s.drop_first())
    } else {
        s
    }
}

/// `s` without its trailing blanks.
pub open spec fn sondan_kirp(s: Seq<char>) -> Seq<char>
    decreases s.len(),
{
    if s.len() > 0 && bosluk(s.last()) {
        sondan_kirp(s.drop_last())
    } else {
        s
    }
}

/// `str::trim`: `s` without its leading and trailing blanks.
pub open spec fn kirp(s: Seq<char>) -> Seq<char> {
    sondan_kirp(bastan_kirp(s))
}

proof fn bastan_kirp_parca(s: Seq<char>, i: int)
    requires
        0 <= i <= s.len(),
        forall|j: int| 0 <= j < i ==> bosluk(#[trigger] s[j]),
    ensures
        bastan_kirp(s) == bastan_kirp(s.skip(i)),
    decreases i,
{
    if i > 0 {
        bastan_kirp_parca(s.drop_first(), i - 1);
        assert(s.drop_first().skip(i - 1) =~= s.skip(i));
    } else {
        assert(s.skip(0) =~= s);
    }
}

proof fn sondan_kirp_parca(s: Seq<char>, j: int)
    requires
        0 <= j <= s.len(),
        forall|k: int| j <= k < s.len() ==> bosluk(#[trigger] s[k]),
    ensures
        sondan_kirp(s) == sondan_kirp(s.take(j)),
    decreases s.len() - j,
{
    if j < s.len() {
        sondan_kirp_parca(s.drop_last(), j);
        assert(s.drop_last().take(j) =~= s.take(j));
    } else {
        assert(s.take(j) =~= s);
    }
}

/// The characters of `v` without leading and trailing blanks.
pub fn kirp_karakterler(v: &Vec<char>) -> (r: Vec<char>)
    ensures
        r@ == kirp(v@),
{
    let n = v.len();
    let mut i: usize = 0;
    while i < n && bosluk_mu(v[i])
        invariant
            n == v@.len(),
            i <= n,
            forall|j: int| 0 <= j < i ==> bosluk(#[trigger] v@[j]),
        decreases n - i,
    {
        i = i + 1;
    }
    proof {
        bastan_kirp_parca(v@, i as int);
    }
    let mut j: usize = n;
    while j > i && bosluk_mu(v[j - 1])
        invariant
            n == v@.len(),
            i <= j <= n,
            forall|k: int| j <= k < n ==> bosluk(#[trigger] v@[k]),
        decreases j,
    {
        j = j - 1;
    }
    let mut r: Vec<char> = Vec::new();
    let mut k: usize = i;
    while k < j
        invariant
            i <= k <= j <= n,
            n == v@.len(),
            r@ == v@.subrange(i as int, k as int),
        decreases j - k,
    {
        r.push(v[k]);
        k = k + 1;
        assert(r@ =~= v@.subrange(i as int, k as int));
    }
    proof {
        let t = v@.skip(i as int);
        if i < n {
            assert(!bosluk(v@[i as int]));
            assert(bastan_kirp(t) == t);
        } else {
            assert(t =~= Seq::<char>::empty());
        }
        sondan_kirp_parca(t, j - i);
        assert(t.take(j - i) =~= r@);
        if j > i {
            assert(!bosluk(r@.last()));
        }
        assert(sondan_kirp(r@) == r@);
    }
    r
}

/// Whether `s` begins with `p`.
pub open spec fn onek(s: Seq<char>, p: Seq<char>) -> bool {
    p.len() <= s.len() && s.take(p.len() as int) == p
}

/// Whether the characters `v` begin with the characters of `p`.
pub fn onek_mi(v: &Vec<char>, p: &str) -> (r: bool)
    ensures
        r == onek(v@, p@),
{
    let pv = karakterler(p);
    if pv.len() > v.len() {
        return false;
    }
    let mut i: usize = 0;
    while i < pv.len()
        invariant
            pv@ == p@,
            pv@.len() <= v@.len(),
            i <= pv@.len(),
            v@.take(i as int) == pv@.take(i as int),
        decreases pv@.len() - i,
    {
        if v[i] != pv[i] {
            assert(v@.take(pv@.len() as int)[i as int] != pv@[i as int]);
            return false;
        }
        i = i + 1;
        assert(v@.take(i as int) =~= pv@.take(i as int));
    }
    assert(pv@.take(pv@.len() as int) =~= pv@);
    true
}


/// Whether `p` occurs in `s` at position `i`.
pub open spec fn yerinde(s: Seq<char>, p: Seq<char>, i: int) -> bool {
    0 <= i && i + p.len() <= s.len() && s.subrange(i, i + p.len()) == p
}

/// Whether `p` occurs somewhere in `s` (`str::contains`); the empty text occurs in every
/// text.
pub open spec fn icerir(s: Seq<char>, p: Seq<char>) -> bool {
    exists|i: int| yerinde(s, p, i)
}

/// Whether the text `s` contains the text `p`.
pub fn iceriyor(s: &str, p: &str) -> (r: bool)
    ensures
        r == icerir(s@, p@),
{
    let sv = karakterler(s);
    let pv = karakterler(p);
    if pv.len() > sv.len() {
        assert forall|i: int| !yerinde(s@, p@, i) by {}
        return false;
    }
    if pv.len() == 0 {
        assert(s@.subrange(0, 0) =~= p@);
        assert(yerinde(s@, p@, 0));
        return true;
    }
    let son = sv.len() - pv.len();
    let mut i: usize = 0;
    while i <= son
        invariant
            sv@ == s@,
            pv@ == p@,
            pv@.len() > 0,
            sv@.len() <= usize::MAX,
            son == sv@.len() - pv@.len(),
            i <= son + 1,
            forall|j: int| 0 <= j < i ==> !yerinde(s@, p@, j),
        decreases son + 1 - i,
    {
        let mut k: usize = 0;
        let mut esit = true;
        assert(sv@.subrange(i as int, i as int) =~= pv@.take(0));
        while k < pv.len()
            invariant
                sv@ == s@,
                pv@ == p@,
                i <= son,
                son == sv@.len() - pv@.len(),
                pv@.len() <= sv@.len(),
                pv@.len() > 0,
                sv@.len() <= usize::MAX,
                i + pv@.len() <= sv@.len(),
                k <= pv@.len(),
                esit == (sv@.subrange(i as int, i + k) == pv@.take(k as int)),
            decreases pv@.len() - k,
        {
            if sv[i + k] != pv[k] {
                assert(sv@.subrange(i as int, i + k + 1)[k as int] != pv@.take(k + 1)[k as int]);
                esit = false;
                k = pv.len();
            } else {
                if esit {
                    assert(sv@.subrange(i as int, i + k + 1) =~= pv@.take(k + 1));
                } else {
                    assert(sv@.subrange(i as int, i + k + 1).take(k as int) =~= sv@.subrange(i as int, i + k));
                    assert(pv@.take(k + 1).take(k as int) =~= pv@.take(k as int));
                }
                k = k + 1;
            }
        }
        assert(pv@.take(pv@.len() as int) =~= pv@);
        if esit {
            assert(yerinde(s@, p@, i as int));
            return true;
        }
        i = i + 1;
    }
    assert forall|j: int| !yerinde(s@, p@, j) by {
        if 0 <= j && j + p@.len() <= s@.len() {
            assert(j < i);
        }
    }
    false
}

} // verus!
