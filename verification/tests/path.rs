use img2kvm::path::{
    disk_name, extension, file_name, file_name_range, file_stem, join, output_name, DISK_NAME,
    DOT, SEPARATOR,
};
use std::path::Path;

const PATHS: [&str; 48] = [
    "",
    "/",
    "//",
    ".",
    "..",
    "./",
    "../",
    "/.",
    "/..",
    "./.",
    ".//.",
    "a",
    "a/",
    "a//",
    "a/.",
    "a/./",
    "a/..",
    "a/../b",
    "/a/b/c",
    "/a/b/c/",
    "foo.tar.gz",
    "/srv/foo.tar.gz",
    "/srv/foo.tar.gz/",
    "/srv/foo.tar.gz/.",
    "disk.img",
    "/var/lib/disk.img.gz",
    "archive.zip",
    ".bashrc",
    "/home/user/.bashrc",
    ".gz",
    "..gz",
    "...",
    "a.",
    "a..",
    ".a.",
    "a.b.",
    "/srv.d/disk",
    "/srv.d/disk.xz",
    "./a.lzma",
    "a/.b/c.bz2",
    "a b.c d",
    "/x/.hidden.iso",
    "x.",
    "/x/y.z/",
    "/x/y.z//./",
    "....",
    "a/....",
    ".a",
];

fn bytes_of(text: Option<&str>) -> Option<Vec<u8>> {
    text.map(|t| t.as_bytes().to_vec())
}

/// std's stem, but for a name that is nothing but an extension: std takes
/// such a name for its own stem, and here it has none.
fn expected_stem(path: &str) -> Option<&str> {
    let stem = Path::new(path).file_stem().map(|n| n.to_str().unwrap())?;
    if stem.starts_with('.') && !stem[1..].contains('.') && Path::new(path).extension().is_none() {
        None
    } else {
        Some(stem)
    }
}

#[test]
fn file_name_agrees_with_std() {
    for path in PATHS {
        let expected = Path::new(path).file_name().map(|n| n.to_str().unwrap());
        assert_eq!(file_name(path.as_bytes()).map(|n| n.to_vec()), bytes_of(expected), "{:?}", path);
    }
}

#[test]
fn extension_agrees_with_std() {
    for path in PATHS {
        let expected = Path::new(path).extension().map(|n| n.to_str().unwrap());
        assert_eq!(extension(path.as_bytes()).map(|n| n.to_vec()), bytes_of(expected), "{:?}", path);
    }
}

#[test]
fn file_stem_agrees_with_std_but_for_bare_extensions() {
    for path in PATHS {
        let expected = expected_stem(path);
        assert_eq!(file_stem(path.as_bytes()).map(|n| n.to_vec()), bytes_of(expected), "{:?}", path);
    }
}

#[test]
fn file_stem_is_std_stem_where_the_name_does_not_start_with_its_only_dot() {
    let mut compared = 0;
    for path in PATHS {
        let name = Path::new(path).file_name().map(|n| n.to_str().unwrap());
        let bare = match name {
            Some(name) => name.starts_with('.') && !name[1..].contains('.'),
            None => false,
        };
        if !bare {
            let expected = Path::new(path).file_stem().map(|n| n.to_str().unwrap());
            assert_eq!(file_stem(path.as_bytes()).map(|n| n.to_vec()), bytes_of(expected));
            compared += 1;
        }
    }
    assert_eq!(compared, PATHS.len() - 4);
}

#[test]
fn join_agrees_with_std() {
    let bases = ["", "/", "/work", "/work/", "work", "a/b", "a/b//"];
    let names = ["disk", "foo.tar", ".hidden", "img2kvm_temp.qcow2", ".."];
    for base in bases {
        for name in names {
            let expected = Path::new(base).join(name);
            assert_eq!(
                join(base.as_bytes(), name.as_bytes()),
                expected.to_str().unwrap().as_bytes().to_vec(),
                "{:?} {:?}",
                base,
                name
            );
        }
    }
}

#[test]
fn output_name_is_the_stem_joined_to_the_working_directory() {
    for path in PATHS {
        let expected = expected_stem(path).map(|stem| Path::new("/work/dir").join(stem));
        let expected = expected.map(|p| p.to_str().unwrap().as_bytes().to_vec());
        assert_eq!(output_name(path.as_bytes(), b"/work/dir"), expected, "{:?}", path);
    }
}

#[test]
fn file_name_range_holds_the_name() {
    assert_eq!(file_name_range(b"/srv/foo.tar.gz"), Some((5, 15)));
    assert_eq!(file_name_range(b"/srv/foo.tar.gz//"), Some((5, 15)));
    assert_eq!(file_name_range(b"foo"), Some((0, 3)));
    assert_eq!(file_name_range(b"a/./"), Some((0, 1)));
    assert_eq!(file_name_range(b"/"), None);
    assert_eq!(file_name_range(b""), None);
    assert_eq!(file_name_range(b"a/.."), None);
}

#[test]
fn stem_of_foo_tar_gz_is_foo_tar() {
    assert_eq!(file_stem(b"foo.tar.gz").map(|s| s.to_vec()), Some(b"foo.tar".to_vec()));
    assert_eq!(output_name(b"foo.tar.gz", b"/work"), Some(b"/work/foo.tar".to_vec()));
    assert_eq!(output_name(b"/data/in/foo.tar.gz", b"/work"), Some(b"/work/foo.tar".to_vec()));
}

#[test]
fn stem_of_foo_img_gz_is_foo_img() {
    assert_eq!(file_stem(b"/x/foo.img.gz").map(|s| s.to_vec()), Some(b"foo.img".to_vec()));
}

#[test]
fn output_name_is_the_same_for_the_same_inputs() {
    for path in PATHS {
        let first = output_name(path.as_bytes(), b"/work");
        let second = output_name(path.as_bytes(), b"/work");
        assert_eq!(first, second);
    }
}

#[test]
fn output_name_depends_on_the_working_directory_only_by_prefix() {
    assert_eq!(output_name(b"/a/disk.gz", b"/w1"), Some(b"/w1/disk".to_vec()));
    assert_eq!(output_name(b"/a/disk.gz", b"/w2/"), Some(b"/w2/disk".to_vec()));
    assert_eq!(output_name(b"/a/disk.gz", b""), Some(b"disk".to_vec()));
    assert_eq!(output_name(b"/a/disk.gz", b"/"), Some(b"/disk".to_vec()));
}

#[test]
fn output_lies_in_the_working_directory_not_beside_the_source() {
    assert_eq!(output_name(b"/far/away/disk.img.xz", b"/here"), Some(b"/here/disk.img".to_vec()));
}

#[test]
fn paths_without_a_stem_have_no_output_name() {
    let paths: [&[u8]; 11] = [
        b"",
        b"/",
        b"//",
        b".",
        b"..",
        b"/srv/..",
        b"./",
        b".gz",
        b"/data/.gz",
        b"/data/.gz/",
        b"/home/user/.bashrc",
    ];
    for path in paths {
        assert_eq!(output_name(path, b"/work"), None);
        assert_eq!(file_stem(path), None);
    }
}

#[test]
fn bare_extension_has_no_stem() {
    assert_eq!(file_stem(b"/srv/.gz"), None);
    assert_eq!(extension(b"/srv/.gz"), None);
    assert_eq!(file_name(b"/srv/.gz").map(|s| s.to_vec()), Some(b".gz".to_vec()));
    assert_eq!(output_name(b"/data/.gz", b"/work"), None);
}

#[test]
fn leading_dot_with_another_dot_has_a_stem() {
    assert_eq!(file_stem(b"/srv/.disk.gz").map(|s| s.to_vec()), Some(b".disk".to_vec()));
    assert_eq!(file_stem(b"/srv/..gz").map(|s| s.to_vec()), Some(b".".to_vec()));
    assert_eq!(output_name(b"/srv/.disk.gz", b"/work"), Some(b"/work/.disk".to_vec()));
}

#[test]
fn disk_name_is_fixed() {
    assert_eq!(DISK_NAME.to_vec(), b"img2kvm_temp.qcow2".to_vec());
    assert_eq!(disk_name(b"/work"), b"/work/img2kvm_temp.qcow2".to_vec());
    assert_eq!(disk_name(b"/work/"), b"/work/img2kvm_temp.qcow2".to_vec());
    assert_eq!(disk_name(b""), b"img2kvm_temp.qcow2".to_vec());
}

#[test]
fn separator_and_dot_are_the_usual_bytes() {
    assert_eq!(SEPARATOR, b'/');
    assert_eq!(DOT, b'.');
}

#[test]
fn paths_need_not_be_text() {
    let path: [u8; 9] = [b'/', 0xff, 0xfe, b'/', 0x80, b'.', b'i', b'.', b'x'];
    assert_eq!(file_name(&path).map(|n| n.to_vec()), Some(vec![0x80, b'.', b'i', b'.', b'x']));
    assert_eq!(file_stem(&path).map(|n| n.to_vec()), Some(vec![0x80, b'.', b'i']));
    assert_eq!(extension(&path).map(|n| n.to_vec()), Some(vec![b'x']));
}
