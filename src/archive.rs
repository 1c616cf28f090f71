//! Reading ZIP archives through the `zip` crate.
use vstd::prelude::*;

verus! {

/// What opening an archive and counting its entries gives: the count, or the
/// error's text.
pub uninterp spec fn zip_count_of(data: Seq<u8>) -> Result<usize, Seq<char>>;

/// What reading the name of entry `i` gives: the name, or the error's text.
pub uninterp spec fn zip_name_of(data: Seq<u8>, i: usize) -> Result<Seq<char>, Seq<char>>;

/// What reading the content of entry `i` gives: the bytes, or the error's text.
pub uninterp spec fn zip_bytes_of(data: Seq<u8>, i: usize) -> Result<Seq<u8>, Seq<char>>;

/// Relies on `zip::ZipArchive::new` and `ZipArchive::len`: opens the archive and
/// counts its entries; an archive that cannot be opened gives the error's text.
/// The outcome depends on the archive's bytes alone.
#[verifier::external_body]
pub(crate) fn zip_entry_count(data: &[u8]) -> (r: Result<usize, String>)
    ensures
        match r {
            Ok(n) => zip_count_of(data@) == Ok::<usize, Seq<char>>(n),
            Err(m) => zip_count_of(data@) == Err::<usize, Seq<char>>(m@),
        },
{
    zip::ZipArchive::new(std::io::Cursor::new(data)).map(|a| a.len()).map_err(
        |e| format!("open error: {e}"),
    )
}

/// Relies on `zip::ZipArchive::by_index` and `ZipFile::name`: the name of entry `i`.
/// The outcome depends on the archive's bytes and the index alone.
#[verifier::external_body]
pub(crate) fn zip_entry_name(data: &[u8], i: usize) -> (r: Result<String, String>)
    ensures
        match r {
            Ok(n) => zip_name_of(data@, i) == Ok::<Seq<char>, Seq<char>>(n@),
            Err(m) => zip_name_of(data@, i) == Err::<Seq<char>, Seq<char>>(m@),
        },
{
    let mut a = zip::ZipArchive::new(std::io::Cursor::new(data)).map_err(
        |e| format!("open error: {e}"),
    )?;
    let f = a.by_index(i).map_err(|e| format!("entry error: {e}"))?;
    f.name().map(|n| n.into_owned()).map_err(|e| format!("entry error: {e}"))
}

/// Relies on `zip::ZipArchive::by_index` and `std::io::Read::read_to_end`: the
/// decompressed content of entry `i`. The outcome depends on the archive's bytes
/// and the index alone.
#[verifier::external_body]
pub(crate) fn zip_entry_bytes(data: &[u8], i: usize) -> (r: Result<Vec<u8>, String>)
    ensures
        match r {
            Ok(c) => zip_bytes_of(data@, i) == Ok::<Seq<u8>, Seq<char>>(c@),
            Err(m) => zip_bytes_of(data@, i) == Err::<Seq<u8>, Seq<char>>(m@),
        },
{
    let mut a = zip::ZipArchive::new(std::io::Cursor::new(data)).map_err(
        |e| format!("open error: {e}"),
    )?;
    let mut f = a.by_index(i).map_err(|e| format!("entry error: {e}"))?;
    let mut buf = Vec::new();
    std::io::Read::read_to_end(&mut f, &mut buf).map_err(|e| format!("read error: {e}"))?;
    Ok(buf)
}

} // verus!
