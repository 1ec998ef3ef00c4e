use img2kvm::error::Error;
use img2kvm::format::{classify, same_bytes, select_format, to_lowercase, Codec, FormatTag};

/// Every way of writing `name` in small and capital letters.
fn spellings(name: &str) -> Vec<Vec<u8>> {
    let letters = name.as_bytes();
    let mut all = Vec::new();
    for mask in 0..(1u32 << letters.len()) {
        let mut spelling = Vec::new();
        for (i, letter) in letters.iter().enumerate() {
            if mask & (1 << i) != 0 {
                spelling.push(letter.to_ascii_uppercase());
            } else {
                spelling.push(*letter);
            }
        }
        all.push(spelling);
    }
    all
}

fn path_with(extension: &[u8]) -> Vec<u8> {
    let mut path = b"/srv/images/disk.".to_vec();
    path.extend_from_slice(extension);
    path
}

fn check_table_entry(name: &str, tag: FormatTag) {
    for spelling in spellings(name) {
        assert_eq!(classify(Some(&spelling)), tag);
        assert_eq!(select_format(&path_with(&spelling)), Ok(tag));
    }
}

#[test]
fn bz2_in_any_case_is_bzip2() {
    check_table_entry("bz2", FormatTag::Bzip2);
}

#[test]
fn bzip2_in_any_case_is_bzip2() {
    check_table_entry("bzip2", FormatTag::Bzip2);
}

#[test]
fn gz_in_any_case_is_gzip() {
    check_table_entry("gz", FormatTag::Gzip);
}

#[test]
fn lzma_in_any_case_is_lzma() {
    check_table_entry("lzma", FormatTag::Lzma);
}

#[test]
fn xz_in_any_case_is_xz() {
    check_table_entry("xz", FormatTag::Xz);
}

#[test]
fn zip_in_any_case_is_zip() {
    check_table_entry("zip", FormatTag::Zip);
}

#[test]
fn img_in_any_case_is_raw_image() {
    check_table_entry("img", FormatTag::RawImage);
}

#[test]
fn iso_in_any_case_is_raw_iso() {
    check_table_entry("iso", FormatTag::RawIso);
}

#[test]
fn other_extensions_are_unsupported() {
    let others: [&[u8]; 12] = [
        b"7z", b"tar", b"gzz", b"g", b"", b"qcow2", b"bz", b"bzip", b"lz", b"zi", b" gz", b"gz ",
    ];
    for extension in others {
        assert_eq!(classify(Some(extension)), FormatTag::Unsupported);
        assert_eq!(
            select_format(&path_with(extension)),
            Err(Error::UnsupportedFormat { extension: Some(extension.to_vec()) })
        );
    }
}

#[test]
fn unsupported_extension_is_named_in_small_letters() {
    assert_eq!(
        select_format(b"/srv/images/Disk.TAR"),
        Err(Error::UnsupportedFormat { extension: Some(b"tar".to_vec()) })
    );
    assert_eq!(
        select_format(b"/srv/images/disk.Vmdk"),
        Err(Error::UnsupportedFormat { extension: Some(b"vmdk".to_vec()) })
    );
}

#[test]
fn letters_outside_ascii_are_not_lowered() {
    let extension = "G\u{212a}Z".as_bytes();
    assert_eq!(classify(Some(extension)), FormatTag::Unsupported);
    assert_eq!(to_lowercase("\u{c4}B".as_bytes()), "\u{c4}b".as_bytes().to_vec());
}

#[test]
fn missing_extension_is_unsupported() {
    assert_eq!(classify(None), FormatTag::Unsupported);
    let paths: [&[u8]; 8] =
        [b"/srv/images/disk", b"disk", b"/srv/images/.gz", b".zip", b"/", b"", b"/srv/..", b"."];
    for path in paths {
        assert_eq!(select_format(path), Err(Error::UnsupportedFormat { extension: None }));
    }
}

#[test]
fn only_the_final_extension_counts() {
    assert_eq!(select_format(b"/srv/disk.img.gz"), Ok(FormatTag::Gzip));
    assert_eq!(select_format(b"/srv/disk.gz.img"), Ok(FormatTag::RawImage));
    assert_eq!(select_format(b"/srv/disk.tar.xz"), Ok(FormatTag::Xz));
    assert_eq!(select_format(b"/srv.zip/disk.iso"), Ok(FormatTag::RawIso));
    assert_eq!(
        select_format(b"/srv.zip/disk"),
        Err(Error::UnsupportedFormat { extension: None })
    );
}

#[test]
fn trailing_dot_is_an_empty_extension() {
    assert_eq!(
        select_format(b"/srv/disk."),
        Err(Error::UnsupportedFormat { extension: Some(Vec::new()) })
    );
}

#[test]
fn compressed_tags_have_a_codec() {
    assert_eq!(FormatTag::Bzip2.codec(), Some(Codec::Bzip2));
    assert_eq!(FormatTag::Gzip.codec(), Some(Codec::Gzip));
    assert_eq!(FormatTag::Lzma.codec(), Some(Codec::Lzma));
    assert_eq!(FormatTag::Xz.codec(), Some(Codec::Xz));
    assert_eq!(FormatTag::Zip.codec(), Some(Codec::Zip));
    assert_eq!(FormatTag::RawImage.codec(), None);
    assert_eq!(FormatTag::RawIso.codec(), None);
    assert_eq!(FormatTag::Unsupported.codec(), None);
}

#[test]
fn tags_are_compressed_raw_or_unsupported() {
    let tags = [
        FormatTag::Bzip2,
        FormatTag::Gzip,
        FormatTag::Lzma,
        FormatTag::Xz,
        FormatTag::Zip,
        FormatTag::RawImage,
        FormatTag::RawIso,
        FormatTag::Unsupported,
    ];
    for tag in tags {
        assert_eq!(tag.is_compressed(), tag.codec().is_some());
        assert!(!(tag.is_compressed() && tag.is_raw()));
        assert_eq!(tag == FormatTag::Unsupported, !tag.is_compressed() && !tag.is_raw());
    }
    assert!(FormatTag::RawImage.is_raw());
    assert!(FormatTag::RawIso.is_raw());
}

#[test]
fn to_lowercase_lowers_ascii_capitals_only() {
    assert_eq!(to_lowercase(b"AZaz09@[`{"), b"azaz09@[`{".to_vec());
    assert_eq!(to_lowercase(b""), Vec::<u8>::new());
    let all: Vec<u8> = (0..=255).collect();
    let lowered = to_lowercase(&all);
    for byte in 0..=255u8 {
        assert_eq!(lowered[byte as usize], byte.to_ascii_lowercase());
    }
}

#[test]
fn same_bytes_compares_contents() {
    assert!(same_bytes(b"", b""));
    assert!(same_bytes(b"gz", b"gz"));
    assert!(!same_bytes(b"gz", b"gZ"));
    assert!(!same_bytes(b"gz", b"gzz"));
    assert!(!same_bytes(b"gzz", b"gz"));
    assert!(!same_bytes(b"xz", b"gz"));
}
