//! The decoders. Decoding itself is done by other crates; this module holds
//! the calls, and says of each what the rest of the library relies on.
//! Nothing in this file is proved: every contract here is taken on trust.

use std::io::Cursor;
use std::io::Read;
use vstd::prelude::*;
use zip::result::ZipError;
use zip::ZipArchive;

verus! {

/// `std::io::Error`, as the decoders report a failure. Carried, never
/// looked into.
#[verifier::external_type_specification]
#[verifier::external_body]
pub struct ExIoError(std::io::Error);

/// `std::io::Cursor`, which lets a byte slice be read and sought in.
#[verifier::external_type_specification]
#[verifier::external_body]
#[verifier::reject_recursive_types(T)]
pub struct ExCursor<T>(Cursor<T>);

/// `zip::result::ZipError`. Carried, never looked into.
#[verifier::external_type_specification]
#[verifier::external_body]
pub struct ExZipError(ZipError);

/// `zip::ZipArchive`: an archive whose directory has been read.
#[verifier::external_type_specification]
#[verifier::external_body]
#[verifier::reject_recursive_types(R)]
pub struct ExZipArchive<R>(ZipArchive<R>);

/// What `bzip2::read::MultiBzDecoder` yields when it is read to its end
/// over `data`: the decoded bytes of all the streams in it, or `None` where
/// it reports an error.
pub uninterp spec fn bzip2_payload(data: Seq<u8>) -> Option<Seq<u8>>;

/// What `flate2::read::GzDecoder` yields when it is read to its end over
/// `data`: the decoded bytes, or `None` where it reports an error.
pub uninterp spec fn gzip_payload(data: Seq<u8>) -> Option<Seq<u8>>;

/// What `lzma_rust2::LzmaReader`, made by `new_mem_limit` with the memory
/// limit `memory_limit` (in KiB) and no preset dictionary, yields when it is
/// read to its end over `data`: the decoded bytes, or `None` where the
/// reader cannot be made or reports an error.
pub uninterp spec fn lzma_payload(data: Seq<u8>, memory_limit: u32) -> Option<Seq<u8>>;

/// The size of the dictionary, in bytes, that the header of a legacy LZMA
/// stream declares: the four bytes behind the first, the lowest first.
pub open spec fn lzma_dictionary_size(data: Seq<u8>) -> int {
    data[1] + data[2] * 0x100 + data[3] * 0x1_0000 + data[4] * 0x100_0000
}

/// What `lzma_rust2::XzReader` yields when it is read to its end over
/// `data`: the decoded bytes, or `None` where it reports an error.
/// `concatenated` says whether further streams may follow the first.
pub uninterp spec fn xz_payload(data: Seq<u8>, concatenated: bool) -> Option<Seq<u8>>;

/// What `zip::ZipArchive::new` makes of `data`: the entries of the archive
/// (see [`zip_entries`]), or `None` where it reports an error.
pub uninterp spec fn zip_listing(data: Seq<u8>) -> Option<Seq<Option<Seq<u8>>>>;

/// The entries of an open archive in the order of its directory, each as
/// the bytes that reading it to its end yields, or `None` where opening or
/// reading the entry fails.
pub uninterp spec fn zip_entries(archive: ZipArchive<Cursor<&[u8]>>) -> Seq<Option<Seq<u8>>>;

/// Decodes `data` with `bzip2::read::MultiBzDecoder::new`, reading the
/// decoder to its end.
///
/// Trusted: the outcome depends on `data` alone.
#[verifier::external_body]
pub(crate) fn bzip2_decode(data: &[u8]) -> (decoded: Result<Vec<u8>, std::io::Error>)
    ensures
        match decoded {
            Ok(bytes) => bzip2_payload(data@) == Some(bytes@),
            Err(_) => bzip2_payload(data@) is None,
        },
{
    let mut bytes = Vec::new();
    bzip2::read::MultiBzDecoder::new(data).read_to_end(&mut bytes)?;
    Ok(bytes)
}

/// Decodes `data` with `flate2::read::GzDecoder::new`, reading the decoder
/// to its end.
///
/// Trusted: the outcome depends on `data` alone.
#[verifier::external_body]
pub(crate) fn gzip_decode(data: &[u8]) -> (decoded: Result<Vec<u8>, std::io::Error>)
    ensures
        match decoded {
            Ok(bytes) => gzip_payload(data@) == Some(bytes@),
            Err(_) => gzip_payload(data@) is None,
        },
{
    let mut bytes = Vec::new();
    flate2::read::GzDecoder::new(data).read_to_end(&mut bytes)?;
    Ok(bytes)
}

/// Decodes `data` with `lzma_rust2::LzmaReader::new_mem_limit`, handing it
/// `memory_limit` (in KiB) and no preset dictionary, and reading the decoder
/// to its end.
///
/// Trusted: the outcome depends on `data` and `memory_limit` alone. The
/// reader is not made where the header asks for more memory than
/// `memory_limit`; the need it counts is more than the declared dictionary,
/// so a dictionary of `memory_limit` KiB or more is always refused.
#[verifier::external_body]
pub(crate) fn lzma_decode(data: &[u8], memory_limit: u32) -> (decoded: Result<
    Vec<u8>,
    std::io::Error,
>)
    ensures
        match decoded {
            Ok(bytes) => lzma_payload(data@, memory_limit) == Some(bytes@),
            Err(_) => lzma_payload(data@, memory_limit) is None,
        },
        data@.len() >= 5 && lzma_dictionary_size(data@) / 1024 >= memory_limit ==> decoded is Err,
{
    let mut bytes = Vec::new();
    lzma_rust2::LzmaReader::new_mem_limit(data, memory_limit, None)?.read_to_end(&mut bytes)?;
    Ok(bytes)
}

/// Decodes `data` with `lzma_rust2::XzReader::new`, handing it
/// `concatenated`, and reading the decoder to its end. The reader checks
/// each block against the check that the stream carries.
///
/// Trusted: the outcome depends on `data` and `concatenated` alone.
#[verifier::external_body]
pub(crate) fn xz_decode(data: &[u8], concatenated: bool) -> (decoded: Result<
    Vec<u8>,
    std::io::Error,
>)
    ensures
        match decoded {
            Ok(bytes) => xz_payload(data@, concatenated) == Some(bytes@),
            Err(_) => xz_payload(data@, concatenated) is None,
        },
{
    let mut bytes = Vec::new();
    lzma_rust2::XzReader::new(data, concatenated).read_to_end(&mut bytes)?;
    Ok(bytes)
}

/// Reads the directory of the archive in `data` with
/// `zip::ZipArchive::new`.
///
/// Trusted: the outcome depends on `data` alone.
#[verifier::external_body]
pub(crate) fn zip_open(data: &[u8]) -> (opened: Result<ZipArchive<Cursor<&[u8]>>, ZipError>)
    ensures
        match opened {
            Ok(archive) => zip_listing(data@) == Some(zip_entries(archive)),
            Err(_) => zip_listing(data@) is None,
        },
{
    ZipArchive::new(Cursor::new(data))
}

/// The number of entries, by `zip::ZipArchive::len`.
///
/// Trusted: it is the number of entries that can be asked for by index.
#[verifier::external_body]
pub(crate) fn zip_len(archive: &ZipArchive<Cursor<&[u8]>>) -> (count: usize)
    ensures
        count == zip_entries(*archive).len(),
{
    archive.len()
}

/// Opens the entry at `index` with `zip::ZipArchive::by_index` and reads
/// it to its end.
///
/// Trusted: reading leaves the archive's entries as they were, and the
/// outcome is that of the entry at `index`; an index past the last entry
/// is an error.
#[verifier::external_body]
pub(crate) fn zip_read(archive: &mut ZipArchive<Cursor<&[u8]>>, index: usize) -> (read: Result<
    Vec<u8>,
    ZipError,
>)
    ensures
        zip_entries(*final(archive)) == zip_entries(*old(archive)),
        match read {
            Ok(bytes) => index < zip_entries(*old(archive)).len() && zip_entries(
                *old(archive),
            )[index as int] == Some(bytes@),
            Err(_) => index < zip_entries(*old(archive)).len() ==> zip_entries(
                *old(archive),
            )[index as int] is None,
        },
{
    let mut entry = archive.by_index(index)?;
    let mut bytes = Vec::new();
    entry.read_to_end(&mut bytes)?;
    Ok(bytes)
}

} // verus!
