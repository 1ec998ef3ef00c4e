//! The decompression engine: one operation for each compressed format.
//!
//! Each operation takes the bytes of the source file and hands back the
//! decompressed image together with the path at which it is to be stored.
//! Reading the source and writing the image are the caller's part; nothing
//! is handed back, and so nothing is written, unless all of the source has
//! been decoded.

use vstd::prelude::*;
use crate::codec::{
    bzip2_decode, bzip2_payload, gzip_decode, gzip_payload, lzma_decode, lzma_dictionary_size,
    lzma_payload, xz_decode, xz_payload, zip_len, zip_listing, zip_open, zip_read,
};
use crate::error::{DecodeFailure, Error, ErrorView};
use crate::format::Codec;
use crate::path::{
    directory_prefix, law_bare_extension_has_no_stem, output_name, output_name_of, plain_name, DOT,
};

verus! {

/// The ceiling on the memory that decoding a legacy LZMA stream may ask
/// for, in KiB, where the caller has no reason to set another: 64 KiB. The
/// need is the stream's dictionary and the tables that go with it; a stream
/// whose header asks for more than the ceiling is refused before anything
/// is allocated.
pub const LZMA_MEMORY_LIMIT: u32 = 64;

/// An XZ file may hold several streams in a row; all of them are decoded.
pub const XZ_CONCATENATED: bool = true;

/// A decompressed image that is still to be written.
#[derive(Clone, Debug, PartialEq, Eq)]
pub struct Decompressed {
    /// Where to store it: the stem of the source file, inside the working
    /// directory.
    pub path: Vec<u8>,
    /// All of its bytes.
    pub data: Vec<u8>,
}

/// A [`Decompressed`] as a mathematical value.
pub struct DecompressedView {
    pub path: Seq<u8>,
    pub data: Seq<u8>,
}

impl View for Decompressed {
    type V = DecompressedView;

    open spec fn view(&self) -> DecompressedView {
        DecompressedView { path: self.path@, data: self.data@ }
    }
}

/// The answer of a decompression operation as a mathematical value.
pub open spec fn answer(result: Result<Decompressed, Error>) -> Result<DecompressedView, ErrorView> {
    match result {
        Ok(image) => Ok(image@),
        Err(error) => Err(error@),
    }
}

/// What a stream decoder's outcome means: the bytes, or a refused stream.
pub open spec fn stream_outcome(payload: Option<Seq<u8>>) -> Result<Seq<u8>, DecodeFailure> {
    match payload {
        Some(bytes) => Ok(bytes),
        None => Err(DecodeFailure::Stream),
    }
}

/// What an archive's listing means: the bytes of its first entry. An
/// archive that cannot be listed, that has no entry, or whose first entry
/// cannot be read, gives none. Entries behind the first are not looked at.
pub open spec fn archive_outcome(listing: Option<Seq<Option<Seq<u8>>>>) -> Result<
    Seq<u8>,
    DecodeFailure,
> {
    match listing {
        None => Err(DecodeFailure::Archive),
        Some(entries) => if entries.len() == 0 {
            Err(DecodeFailure::EmptyArchive)
        } else {
            match entries[0] {
                Some(bytes) => Ok(bytes),
                None => Err(DecodeFailure::Entry),
            }
        },
    }
}

/// The header of the legacy LZMA stream `contents` declares a dictionary
/// that alone takes as much as the ceiling of `memory_limit` KiB, or more.
pub open spec fn over_lzma_ceiling(contents: Seq<u8>, memory_limit: u32) -> bool {
    contents.len() >= 5 && lzma_dictionary_size(contents) / 1024 >= memory_limit
}

/// The error of a legacy LZMA stream that is refused.
pub open spec fn lzma_refused() -> Result<DecompressedView, ErrorView> {
    Err(ErrorView::Decode { codec: Codec::Lzma, failure: DecodeFailure::Stream })
}

/// What decoding `contents` as `codec` gives. `lzma_memory_limit` is the
/// ceiling, in KiB, on the memory that a legacy LZMA stream may ask for; the
/// other formats take no note of it.
pub open spec fn decoded(codec: Codec, contents: Seq<u8>, lzma_memory_limit: u32) -> Result<
    Seq<u8>,
    DecodeFailure,
> {
    match codec {
        Codec::Bzip2 => stream_outcome(bzip2_payload(contents)),
        Codec::Gzip => stream_outcome(gzip_payload(contents)),
        Codec::Lzma => stream_outcome(lzma_payload(contents, lzma_memory_limit)),
        Codec::Xz => stream_outcome(xz_payload(contents, XZ_CONCATENATED)),
        Codec::Zip => archive_outcome(zip_listing(contents)),
    }
}

/// What becomes of a decoder's outcome: a failure to decode is the error of
/// the operation; decoded bytes are paired with the place that the output
/// namer gives them, and a source path without a file name is an error.
pub open spec fn placed(
    codec: Codec,
    file_path: Seq<u8>,
    work_dir: Seq<u8>,
    outcome: Result<Seq<u8>, DecodeFailure>,
) -> Result<DecompressedView, ErrorView> {
    match outcome {
        Err(failure) => Err(ErrorView::Decode { codec, failure }),
        Ok(data) => match output_name_of(file_path, work_dir) {
            Some(path) => Ok(DecompressedView { path, data }),
            None => Err(ErrorView::Path { path: file_path }),
        },
    }
}

/// What decompressing the file at `file_path`, which holds `contents`,
/// gives when the working directory is `work_dir`.
pub open spec fn decompressed(
    codec: Codec,
    file_path: Seq<u8>,
    work_dir: Seq<u8>,
    contents: Seq<u8>,
    lzma_memory_limit: u32,
) -> Result<DecompressedView, ErrorView> {
    placed(codec, file_path, work_dir, decoded(codec, contents, lzma_memory_limit))
}

/// A copy of `bytes`.
pub fn copy_of(bytes: &[u8]) -> (copy: Vec<u8>)
    ensures
        copy@ == bytes@,
{
    vstd::slice::slice_to_vec(bytes)
}

/// Gives the outcome of a decoder its place: pairs decoded bytes with the
/// path at which they are to be stored, and turns a failure into the error
/// of the operation.
pub fn place(
    codec: Codec,
    file_path: &[u8],
    work_dir: &[u8],
    outcome: Result<Vec<u8>, DecodeFailure>,
) -> (result: Result<Decompressed, Error>)
    ensures
        answer(result) == placed(
            codec,
            file_path@,
            work_dir@,
            match outcome {
                Ok(data) => Ok(data@),
                Err(failure) => Err(failure),
            },
        ),
{
    match outcome {
        Err(failure) => Err(Error::Decode { codec, failure }),
        Ok(data) => match output_name(file_path, work_dir) {
            Some(path) => Ok(Decompressed { path, data }),
            None => Err(Error::Path { path: copy_of(file_path) }),
        },
    }
}

/// What a stream decoder said, without the decoder's own error.
fn stream_result(decoded: Result<Vec<u8>, std::io::Error>) -> (outcome: Result<
    Vec<u8>,
    DecodeFailure,
>)
    ensures
        match decoded {
            Ok(bytes) => outcome == Ok::<Vec<u8>, DecodeFailure>(bytes),
            Err(_) => outcome == Err::<Vec<u8>, DecodeFailure>(DecodeFailure::Stream),
        },
{
    match decoded {
        Ok(bytes) => Ok(bytes),
        Err(_) => Err(DecodeFailure::Stream),
    }
}

/// Decompresses a bzip2 file, whose `contents` may be several streams in a
/// row.
pub fn decompress_bz2_file(file_path: &[u8], work_dir: &[u8], contents: &[u8]) -> (result: Result<
    Decompressed,
    Error,
>)
    ensures
        answer(result) == placed(
            Codec::Bzip2,
            file_path@,
            work_dir@,
            stream_outcome(bzip2_payload(contents@)),
        ),
{
    place(Codec::Bzip2, file_path, work_dir, stream_result(bzip2_decode(contents)))
}

/// Decompresses a gzip file.
pub fn decompress_gz_file(file_path: &[u8], work_dir: &[u8], contents: &[u8]) -> (result: Result<
    Decompressed,
    Error,
>)
    ensures
        answer(result) == placed(
            Codec::Gzip,
            file_path@,
            work_dir@,
            stream_outcome(gzip_payload(contents@)),
        ),
{
    place(Codec::Gzip, file_path, work_dir, stream_result(gzip_decode(contents)))
}

/// Decompresses an XZ file. A block whose check does not match is an
/// error, never data.
pub fn decompress_xz_file(file_path: &[u8], work_dir: &[u8], contents: &[u8]) -> (result: Result<
    Decompressed,
    Error,
>)
    ensures
        answer(result) == placed(
            Codec::Xz,
            file_path@,
            work_dir@,
            stream_outcome(xz_payload(contents@, XZ_CONCATENATED)),
        ),
{
    place(Codec::Xz, file_path, work_dir, stream_result(xz_decode(contents, XZ_CONCATENATED)))
}

/// Decompresses a file in the legacy LZMA container. The decoder is given
/// `memory_limit`, in KiB, as the ceiling on what the stream may ask for
/// (see [`LZMA_MEMORY_LIMIT`]), and refuses a stream that asks for more:
/// a stream whose declared dictionary alone reaches the ceiling is a decode
/// error, whatever else it holds.
pub fn decompress_lzma_file(
    file_path: &[u8],
    work_dir: &[u8],
    contents: &[u8],
    memory_limit: u32,
) -> (result: Result<Decompressed, Error>)
    ensures
        answer(result) == placed(
            Codec::Lzma,
            file_path@,
            work_dir@,
            stream_outcome(lzma_payload(contents@, memory_limit)),
        ),
        over_lzma_ceiling(contents@, memory_limit) ==> answer(result) == lzma_refused(),
{
    place(Codec::Lzma, file_path, work_dir, stream_result(lzma_decode(contents, memory_limit)))
}

/// Decompresses the first entry of a zip archive, whatever its name and
/// whatever follows it. An archive without entries is refused.
pub fn decompress_zip_file(file_path: &[u8], work_dir: &[u8], contents: &[u8]) -> (result: Result<
    Decompressed,
    Error,
>)
    ensures
        answer(result) == placed(
            Codec::Zip,
            file_path@,
            work_dir@,
            archive_outcome(zip_listing(contents@)),
        ),
{
    let outcome = match zip_open(contents) {
        Err(_) => Err(DecodeFailure::Archive),
        Ok(archive) => {
            let mut archive = archive;
            if zip_len(&archive) == 0 {
                Err(DecodeFailure::EmptyArchive)
            } else {
                match zip_read(&mut archive, 0) {
                    Ok(bytes) => Ok(bytes),
                    Err(_) => Err(DecodeFailure::Entry),
                }
            }
        },
    };
    place(Codec::Zip, file_path, work_dir, outcome)
}

/// Decompresses a file of the format `codec`. `lzma_memory_limit` is the
/// ceiling, in KiB, for a legacy LZMA stream.
pub fn decompress(
    codec: Codec,
    file_path: &[u8],
    work_dir: &[u8],
    contents: &[u8],
    lzma_memory_limit: u32,
) -> (result: Result<Decompressed, Error>)
    ensures
        answer(result) == decompressed(
            codec,
            file_path@,
            work_dir@,
            contents@,
            lzma_memory_limit,
        ),
        codec is Lzma && over_lzma_ceiling(contents@, lzma_memory_limit) ==> answer(result)
            == lzma_refused(),
{
    match codec {
        Codec::Bzip2 => decompress_bz2_file(file_path, work_dir, contents),
        Codec::Gzip => decompress_gz_file(file_path, work_dir, contents),
        Codec::Lzma => decompress_lzma_file(file_path, work_dir, contents, lzma_memory_limit),
        Codec::Xz => decompress_xz_file(file_path, work_dir, contents),
        Codec::Zip => decompress_zip_file(file_path, work_dir, contents),
    }
}

/// A source whose name is nothing but an extension cannot be placed:
/// whatever was decoded from it, the answer is a path error, and there is
/// nothing to write.
pub proof fn law_bare_extension_is_a_path_error(
    codec: Codec,
    prefix: Seq<u8>,
    name: Seq<u8>,
    work_dir: Seq<u8>,
    data: Seq<u8>,
)
    requires
        directory_prefix(prefix),
        plain_name(name),
        name[0] == DOT,
        forall|i: int| 0 < i < name.len() ==> name[i] != DOT,
    ensures
        placed(codec, prefix + name, work_dir, Ok(data)) == Err::<DecompressedView, ErrorView>(
            ErrorView::Path { path: prefix + name },
        ),
{
    law_bare_extension_has_no_stem(prefix, name, work_dir);
}

} // verus!
