//! The format selector: from a file's extension to the way it is handled.

use vstd::prelude::*;
use crate::error::{Error, ErrorView};
use crate::path::{extension, extension_of};

verus! {

/// How a source file is handled. Exactly one tag belongs to each file.
#[derive(Clone, Copy, Debug, PartialEq, Eq, Structural)]
pub enum FormatTag {
    /// A bzip2 stream, possibly several in a row: `bz2`, `bzip2`.
    Bzip2,
    /// A gzip stream: `gz`.
    Gzip,
    /// A stream in the legacy LZMA container: `lzma`.
    Lzma,
    /// An XZ stream: `xz`.
    Xz,
    /// A zip archive, of which the first entry is the image: `zip`.
    Zip,
    /// A raw disk image, used as it is: `img`.
    RawImage,
    /// A raw ISO image, used as it is: `iso`.
    RawIso,
    /// Anything else. No run goes on with this tag.
    Unsupported,
}

/// The compressed formats: those for which there is a decoder.
#[derive(Clone, Copy, Debug, PartialEq, Eq, Structural)]
pub enum Codec {
    Bzip2,
    Gzip,
    Lzma,
    Xz,
    Zip,
}

/// `bz2`
pub const BZ2: [u8; 3] = [0x62, 0x7a, 0x32];

/// `bzip2`
pub const BZIP2: [u8; 5] = [0x62, 0x7a, 0x69, 0x70, 0x32];

/// `gz`
pub const GZ: [u8; 2] = [0x67, 0x7a];

/// `lzma`
pub const LZMA: [u8; 4] = [0x6c, 0x7a, 0x6d, 0x61];

/// `xz`
pub const XZ: [u8; 2] = [0x78, 0x7a];

/// `zip`
pub const ZIP: [u8; 3] = [0x7a, 0x69, 0x70];

/// `img`
pub const IMG: [u8; 3] = [0x69, 0x6d, 0x67];

/// `iso`
pub const ISO: [u8; 3] = [0x69, 0x73, 0x6f];

impl FormatTag {
    /// The file has to be decompressed before it can be converted.
    pub open spec fn compressed(self) -> bool {
        self is Bzip2 || self is Gzip || self is Lzma || self is Xz || self is Zip
    }

    /// The file is an image already and is converted as it is.
    pub open spec fn raw(self) -> bool {
        self is RawImage || self is RawIso
    }

    /// The decoder that the file needs; none for a raw image, and none for
    /// a file that cannot be handled.
    pub open spec fn codec_of(self) -> Option<Codec> {
        match self {
            FormatTag::Bzip2 => Some(Codec::Bzip2),
            FormatTag::Gzip => Some(Codec::Gzip),
            FormatTag::Lzma => Some(Codec::Lzma),
            FormatTag::Xz => Some(Codec::Xz),
            FormatTag::Zip => Some(Codec::Zip),
            _ => None,
        }
    }

    /// The decoder that the file needs, if it needs one.
    pub fn codec(&self) -> (codec: Option<Codec>)
        ensures
            codec == self.codec_of(),
            codec is Some <==> self.compressed(),
    {
        match self {
            FormatTag::Bzip2 => Some(Codec::Bzip2),
            FormatTag::Gzip => Some(Codec::Gzip),
            FormatTag::Lzma => Some(Codec::Lzma),
            FormatTag::Xz => Some(Codec::Xz),
            FormatTag::Zip => Some(Codec::Zip),
            _ => None,
        }
    }

    /// The file has to be decompressed before it can be converted.
    pub fn is_compressed(&self) -> (yes: bool)
        ensures
            yes == self.compressed(),
    {
        match self {
            FormatTag::Bzip2 | FormatTag::Gzip | FormatTag::Lzma | FormatTag::Xz | FormatTag::Zip => true,
            _ => false,
        }
    }

    /// The file is an image already and is converted as it is.
    pub fn is_raw(&self) -> (yes: bool)
        ensures
            yes == self.raw(),
    {
        match self {
            FormatTag::RawImage | FormatTag::RawIso => true,
            _ => false,
        }
    }
}

/// An ASCII capital letter as its small letter; any other byte unchanged.
pub open spec fn lower(byte: u8) -> u8 {
    if 0x41 <= byte <= 0x5a {
        (byte + 0x20) as u8
    } else {
        byte
    }
}

/// `text` with each ASCII capital letter replaced by its small letter.
pub open spec fn lowercase(text: Seq<u8>) -> Seq<u8> {
    Seq::new(text.len(), |i: int| lower(text[i]))
}

/// The tag that belongs to an extension written in small letters.
pub open spec fn tag_named(name: Seq<u8>) -> FormatTag {
    if name =~= BZ2@ || name =~= BZIP2@ {
        FormatTag::Bzip2
    } else if name =~= GZ@ {
        FormatTag::Gzip
    } else if name =~= LZMA@ {
        FormatTag::Lzma
    } else if name =~= XZ@ {
        FormatTag::Xz
    } else if name =~= ZIP@ {
        FormatTag::Zip
    } else if name =~= IMG@ {
        FormatTag::RawImage
    } else if name =~= ISO@ {
        FormatTag::RawIso
    } else {
        FormatTag::Unsupported
    }
}

/// The tag that belongs to an extension, whatever the case of its letters;
/// `Unsupported` where there is no extension.
pub open spec fn tag_of(extension: Option<Seq<u8>>) -> FormatTag {
    match extension {
        Some(text) => tag_named(lowercase(text)),
        None => FormatTag::Unsupported,
    }
}

/// The tag that belongs to the file at `path`.
pub open spec fn format_of(path: Seq<u8>) -> FormatTag {
    tag_of(extension_of(path))
}

/// What the selector answers for `path`: the file's tag, or the error that
/// names the extension it could not place.
pub open spec fn selected(path: Seq<u8>) -> Result<FormatTag, ErrorView> {
    if format_of(path) is Unsupported {
        Err(
            ErrorView::UnsupportedFormat {
                extension: match extension_of(path) {
                    Some(text) => Some(lowercase(text)),
                    None => None,
                },
            },
        )
    } else {
        Ok(format_of(path))
    }
}

/// `text` with each ASCII capital letter replaced by its small letter.
pub fn to_lowercase(text: &[u8]) -> (small: Vec<u8>)
    ensures
        small@ == lowercase(text@),
{
    let mut small: Vec<u8> = Vec::new();
    let mut i: usize = 0;
    while i < text.len()
        invariant
            i <= text@.len(),
            small@ =~= lowercase(text@.subrange(0, i as int)),
        decreases text@.len() - i,
    {
        let byte: u8 = text[i];
        if 0x41 <= byte && byte <= 0x5a {
            small.push(byte + 0x20);
        } else {
            small.push(byte);
        }
        i = i + 1;
    }
    assert(text@.subrange(0, i as int) =~= text@);
    small
}

/// Whether two byte strings are the same.
pub fn same_bytes(left: &[u8], right: &[u8]) -> (same: bool)
    ensures
        same == (left@ =~= right@),
{
    if left.len() != right.len() {
        return false;
    }
    let mut i: usize = 0;
    while i < left.len()
        invariant
            i <= left@.len(),
            left@.len() == right@.len(),
            forall|k: int| 0 <= k < i ==> left@[k] == right@[k],
        decreases left@.len() - i,
    {
        if left[i] != right[i] {
            return false;
        }
        i = i + 1;
    }
    true
}

/// The tag that belongs to an extension, whatever the case of its letters.
pub fn classify(extension: Option<&[u8]>) -> (tag: FormatTag)
    ensures
        tag == tag_of(
            match extension {
                Some(text) => Some(text@),
                None => None,
            },
        ),
{
    match extension {
        None => FormatTag::Unsupported,
        Some(text) => {
            let small = to_lowercase(text);
            let name = small.as_slice();
            if same_bytes(name, BZ2.as_slice()) || same_bytes(name, BZIP2.as_slice()) {
                FormatTag::Bzip2
            } else if same_bytes(name, GZ.as_slice()) {
                FormatTag::Gzip
            } else if same_bytes(name, LZMA.as_slice()) {
                FormatTag::Lzma
            } else if same_bytes(name, XZ.as_slice()) {
                FormatTag::Xz
            } else if same_bytes(name, ZIP.as_slice()) {
                FormatTag::Zip
            } else if same_bytes(name, IMG.as_slice()) {
                FormatTag::RawImage
            } else if same_bytes(name, ISO.as_slice()) {
                FormatTag::RawIso
            } else {
                FormatTag::Unsupported
            }
        },
    }
}

/// The format selector: the tag of the file at `path`, by the extension
/// of its file name.
///
/// A path without an extension, or with one that is not in the table, is
/// refused; the error names the extension in small letters, or its absence.
pub fn select_format(path: &[u8]) -> (choice: Result<FormatTag, Error>)
    ensures
        match choice {
            Ok(tag) => selected(path@) == Ok::<FormatTag, ErrorView>(tag),
            Err(error) => selected(path@) == Err::<FormatTag, ErrorView>(error@),
        },
{
    let found = extension(path);
    match classify(found) {
        FormatTag::Unsupported => {
            let named = match found {
                Some(text) => Some(to_lowercase(text)),
                None => None,
            };
            Err(Error::UnsupportedFormat { extension: named })
        },
        tag => Ok(tag),
    }
}

/// The case of an extension's letters does not matter: two extensions that
/// differ in nothing else have the same tag.
pub proof fn law_letter_case_is_ignored(first: Seq<u8>, second: Seq<u8>)
    requires
        lowercase(first) =~= lowercase(second),
    ensures
        tag_of(Some(first)) == tag_of(Some(second)),
{
}

/// The table of extensions: an extension has a tag other than `Unsupported`
/// exactly where it is, in small letters, one of the eight known names, and
/// then it has the tag of that name.
pub proof fn law_extension_table(extension: Seq<u8>)
    ensures
        tag_of(Some(extension)) is Bzip2 <==> (lowercase(extension) =~= BZ2@ || lowercase(extension)
            =~= BZIP2@),
        tag_of(Some(extension)) is Gzip <==> lowercase(extension) =~= GZ@,
        tag_of(Some(extension)) is Lzma <==> lowercase(extension) =~= LZMA@,
        tag_of(Some(extension)) is Xz <==> lowercase(extension) =~= XZ@,
        tag_of(Some(extension)) is Zip <==> lowercase(extension) =~= ZIP@,
        tag_of(Some(extension)) is RawImage <==> lowercase(extension) =~= IMG@,
        tag_of(Some(extension)) is RawIso <==> lowercase(extension) =~= ISO@,
        tag_of(None) is Unsupported,
{
    let name = lowercase(extension);
    assert(BZ2@.len() == 3 && BZIP2@.len() == 5 && GZ@.len() == 2 && LZMA@.len() == 4);
    assert(XZ@.len() == 2 && ZIP@.len() == 3 && IMG@.len() == 3 && ISO@.len() == 3);
    assert(BZ2@[0] == 0x62 && ZIP@[0] == 0x7a && IMG@[0] == 0x69 && ISO@[0] == 0x69);
    assert(IMG@[1] == 0x6d && ISO@[1] == 0x73);
    assert(GZ@[0] == 0x67 && XZ@[0] == 0x78);
}

/// The selector answers with a tag exactly where the file's extension is in
/// the table, and the tag is never `Unsupported`; any other extension is
/// refused by name, and a path without one as such.
pub proof fn law_selection(path: Seq<u8>)
    ensures
        selected(path) is Ok <==> !(format_of(path) is Unsupported),
        selected(path) matches Ok(tag) ==> tag == format_of(path) && (tag.compressed() || tag.raw()),
        extension_of(path) is None ==> selected(path) == Err::<FormatTag, ErrorView>(
            ErrorView::UnsupportedFormat { extension: None },
        ),
        selected(path) matches Err(error) ==> error == (ErrorView::UnsupportedFormat {
            extension: match extension_of(path) {
                Some(text) => Some(lowercase(text)),
                None => None,
            },
        }),
{
}

/// Lowering letters twice is lowering them once, so the names of the table,
/// which are in small letters, stand for themselves.
pub proof fn law_lowercase_is_idempotent(text: Seq<u8>)
    ensures
        lowercase(lowercase(text)) =~= lowercase(text),
        lowercase(text).len() == text.len(),
{
}

} // verus!
