//! `content.xml` to `.udf`: a ZIP archive with a single entry.

use std::io::Write;

use vstd::prelude::*;
use vstd::string::StringSliceAdditionalSpecFns;
use vstd::utf8::encode_utf8;

verus! {

/// The name of the single entry of a UDF archive; the editor reads no other name.
pub const CONTENT_ENTRY: &'static str = "content.xml";

/// A ZIP writer over an in-memory buffer. Verus cannot declare `zip::ZipWriter` itself (its
/// bounds are std I/O traits that Verus does not know), so it is held here, opaque.
#[verifier::external_body]
pub struct ZipYazici {
    w: ::zip::ZipWriter<std::io::Cursor<Vec<u8>>>,
}

#[verifier::external_type_specification]
#[verifier::external_body]
pub struct ExZipError(::zip::result::ZipError);

#[verifier::external_type_specification]
#[verifier::external_body]
pub struct ExIoError(std::io::Error);

/// The entries (name and data, in the order they were started) that a ZIP writer holds.
pub uninterp spec fn zip_girisleri(w: ZipYazici) -> Seq<(Seq<char>, Seq<u8>)>;

/// The archive bytes that `ZipWriter::finish` writes for these entries, each entry having
/// been started with deflate compression and otherwise default options.
pub uninterp spec fn zip_arsivi(girisler: Seq<(Seq<char>, Seq<u8>)>) -> Seq<u8>;

/// `ZipWriter::new` over an empty in-memory buffer: a writer that holds no entry yet.
#[verifier::external_body]
fn yeni_yazici() -> (w: ZipYazici)
    ensures
        zip_girisleri(w) == Seq::<(Seq<char>, Seq<u8>)>::empty(),
{
    ZipYazici { w: ::zip::ZipWriter::new(std::io::Cursor::new(Vec::new())) }
}

/// `ZipWriter::start_file` with deflate compression: on success the writer holds one more
/// entry, named `ad` and still empty, and later writes go to it. On a writer that holds no
/// entry it succeeds: over an in-memory buffer its only failure is a name already taken.
/// (A name of more than 65535 bytes would panic, so the name is kept short.)
#[verifier::external_body]
fn giris_baslat(w: &mut ZipYazici, ad: &str) -> (r: Result<(), ::zip::result::ZipError>)
    requires
        ad@.len() <= 16383,
    ensures
        r is Ok ==> zip_girisleri(*final(w)) == zip_girisleri(*old(w)).push((ad@, Seq::empty())),
        zip_girisleri(*old(w)).len() == 0 ==> r is Ok,
{
    let opts = ::zip::write::SimpleFileOptions::default()
        .compression_method(::zip::CompressionMethod::Deflated);
    w.w.start_file(ad, opts)
}

/// `Write::write_all` on a ZIP writer: on success `veri` has been appended to the data of
/// the entry started last (so some entry had been started). Into the only entry, just
/// started, it succeeds for up to `0xFFFF_FFFF` bytes (the limit of an entry without the
/// large-file option); over an in-memory buffer nothing else fails.
#[verifier::external_body]
fn yaz(w: &mut ZipYazici, veri: &[u8]) -> (r: Result<(), std::io::Error>)
    ensures
        zip_girisleri(*old(w)).len() == 1 && zip_girisleri(*old(w))[0].1.len() == 0 && veri@.len()
            <= 0xFFFF_FFFF ==> r is Ok,
        r is Ok ==> {
            let once = zip_girisleri(*old(w));
            &&& once.len() > 0
            &&& zip_girisleri(*final(w)) == once.update(
                once.len() - 1,
                (once.last().0, once.last().1 + veri@),
            )
        },
{
    w.w.write_all(veri)
}

/// `ZipWriter::finish`, then the buffer taken out of its cursor: on success, the archive of
/// the entries the writer holds. With one entry of at most `0x7FFF_FFFF` bytes (its
/// compressed size then stays within the entry's 32-bit fields) it succeeds; over an
/// in-memory buffer nothing else fails.
#[verifier::external_body]
fn bitir(w: ZipYazici) -> (r: Result<Vec<u8>, ::zip::result::ZipError>)
    ensures
        r matches Ok(v) ==> v@ == zip_arsivi(zip_girisleri(w)),
        zip_girisleri(w).len() == 1 && zip_girisleri(w)[0].1.len() <= 0x7FFF_FFFF ==> r is Ok,
{
    match w.w.finish() {
        Ok(c) => Ok(c.into_inner()),
        Err(e) => Err(e),
    }
}

/// Why an archive could not be written.
#[derive(Debug)]
pub enum PaketHatasi {
    Zip(::zip::result::ZipError),
    Yazma(std::io::Error),
}

/// Wraps the text of `content.xml` into a single-entry ZIP archive, that is into the bytes
/// of a `.udf` file. The text is written as UTF-8 without a byte-order mark.
pub fn paketle(content_xml: &str) -> (r: Result<Vec<u8>, PaketHatasi>)
    ensures
        r matches Ok(v) ==> v@ == zip_arsivi(
            seq![(CONTENT_ENTRY@, encode_utf8(content_xml@))],
        ),
        encode_utf8(content_xml@).len() <= 0x7FFF_FFFF ==> r is Ok,
{
    proof {
        reveal_strlit("content.xml");
    }
    let mut zw = yeni_yazici();
    match giris_baslat(&mut zw, CONTENT_ENTRY) {
        Ok(()) => {},
        Err(e) => {
            return Err(PaketHatasi::Zip(e));
        },
    }
    let baytlar = content_xml.as_bytes();
    match yaz(&mut zw, baytlar) {
        Ok(()) => {},
        Err(e) => {
            return Err(PaketHatasi::Yazma(e));
        },
    }
    proof {
        let g = zip_girisleri(zw);
        assert(g =~= seq![(CONTENT_ENTRY@, encode_utf8(content_xml@))]);
    }
    match bitir(zw) {
        Ok(v) => Ok(v),
        Err(e) => Err(PaketHatasi::Zip(e)),
    }
}

} // verus!
