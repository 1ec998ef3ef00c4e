//! Paths as byte strings: the final component of a path, its stem and its
//! extension, and the name under which a decompressed image is stored.
//!
//! A file name divides at its last dot into stem and extension. A name
//! that starts with its only dot is all extension for the stem, and so has
//! none; for the extension it is a name without one.
//!
//! A path is a sequence of bytes in which `/` separates components, as on
//! every system this tool runs on. Nothing here touches the file system.

use vstd::prelude::*;

verus! {

/// The byte that separates the components of a path: `/`.
pub const SEPARATOR: u8 = 0x2f;

/// The byte that separates a file's stem from its extension: `.`.
pub const DOT: u8 = 0x2e;

/// The name of the converted disk inside the working directory:
/// `img2kvm_temp.qcow2`.
pub const DISK_NAME: [u8; 18] = [
    0x69, 0x6d, 0x67, 0x32, 0x6b, 0x76, 0x6d, 0x5f, 0x74, 0x65, 0x6d, 0x70, 0x2e, 0x71, 0x63, 0x6f,
    0x77, 0x32,
];

/// Where the last component of `path` starts, trailing text included: the
/// index just behind the last separator, 0 where there is none.
pub open spec fn segment_start(path: Seq<u8>) -> int
    decreases path.len(),
{
    if path.len() == 0 {
        0
    } else if path.last() == SEPARATOR {
        path.len() as int
    } else {
        segment_start(path.drop_last())
    }
}

/// The final component of `path`, if it names something.
///
/// Separators at the end are passed over, and so is a component `.` that
/// does not stand at the very start. There is no name where nothing is left
/// (the empty path, the root), where the path is `.`, and where it ends in
/// the component `..`.
pub open spec fn file_name_of(path: Seq<u8>) -> Option<Seq<u8>>
    decreases path.len(),
{
    if path.len() == 0 {
        None
    } else if path.last() == SEPARATOR {
        file_name_of(path.drop_last())
    } else {
        let segment = path.subrange(segment_start(path), path.len() as int);
        if segment =~= seq![DOT] {
            if path.len() == 1 {
                None
            } else {
                file_name_of(path.drop_last())
            }
        } else if segment =~= seq![DOT, DOT] {
            None
        } else {
            Some(segment)
        }
    }
}

/// The index of the last dot in `name`, if it holds one.
pub open spec fn last_dot(name: Seq<u8>) -> Option<int>
    decreases name.len(),
{
    if name.len() == 0 {
        None
    } else if name.last() == DOT {
        Some(name.len() - 1)
    } else {
        last_dot(name.drop_last())
    }
}

/// The index at which `name` divides into stem and extension: that of its
/// last dot, unless the dot is the first byte of the name or there is none.
pub open spec fn division(name: Seq<u8>) -> Option<int> {
    match last_dot(name) {
        Some(at) => if at > 0 {
            Some(at)
        } else {
            None
        },
        None => None,
    }
}

/// The extension of `path`: what follows the last dot of its file name.
/// A name without a dot has none, nor has one whose only dot comes first.
pub open spec fn extension_of(path: Seq<u8>) -> Option<Seq<u8>> {
    match file_name_of(path) {
        Some(name) => match division(name) {
            Some(at) => Some(name.subrange(at + 1, name.len() as int)),
            None => None,
        },
        None => None,
    }
}

/// The stem of `path`: its file name without the last dot and what follows
/// it; the whole name where the name holds no dot. A name that is nothing
/// but an extension, its only dot being its first byte, has no stem.
pub open spec fn stem_of(path: Seq<u8>) -> Option<Seq<u8>> {
    match file_name_of(path) {
        Some(name) => match last_dot(name) {
            Some(at) => if at > 0 {
                Some(name.subrange(0, at))
            } else {
                None
            },
            None => Some(name),
        },
        None => None,
    }
}

/// `name` placed inside the directory `base`: a separator comes between
/// them unless `base` is empty or already ends in one.
pub open spec fn joined(base: Seq<u8>, name: Seq<u8>) -> Seq<u8> {
    if base.len() > 0 && base.last() != SEPARATOR {
        base + seq![SEPARATOR] + name
    } else {
        base + name
    }
}

/// Where the decompressed form of `path` is stored: its stem, inside
/// `work_dir`. A path without a stem has no such place.
pub open spec fn output_name_of(path: Seq<u8>, work_dir: Seq<u8>) -> Option<Seq<u8>> {
    match stem_of(path) {
        Some(stem) => Some(joined(work_dir, stem)),
        None => None,
    }
}

/// Where the converted disk is stored: `img2kvm_temp.qcow2` inside
/// `work_dir`.
pub open spec fn disk_name_of(work_dir: Seq<u8>) -> Seq<u8> {
    joined(work_dir, DISK_NAME@)
}

/// A component never holds a separator, so cutting a path behind one of its
/// last component's bytes does not move where that component starts.
proof fn lemma_segment_start_step(path: Seq<u8>, end: int, at: int)
    requires
        0 <= at <= end <= path.len(),
        forall|i: int| at <= i < end ==> path[i] != SEPARATOR,
    ensures
        segment_start(path.subrange(0, end)) == segment_start(path.subrange(0, at)),
    decreases end - at,
{
    if at < end {
        let whole = path.subrange(0, end);
        assert(whole.last() == path[end - 1]);
        assert(whole.drop_last() =~= path.subrange(0, end - 1));
        lemma_segment_start_step(path, end - 1, at);
    }
}

/// The last component starts inside the path, just behind a separator or
/// at the very start, and holds no separator.
pub proof fn law_segment_start(path: Seq<u8>)
    ensures
        0 <= segment_start(path) <= path.len(),
        segment_start(path) > 0 ==> path[segment_start(path) - 1] == SEPARATOR,
        forall|i: int| segment_start(path) <= i < path.len() ==> path[i] != SEPARATOR,
    decreases path.len(),
{
    if path.len() > 0 && path.last() != SEPARATOR {
        let front = path.drop_last();
        law_segment_start(front);
        assert forall|i: int| segment_start(path) <= i < path.len() implies path[i]
            != SEPARATOR by {
            if i < front.len() {
                assert(path[i] == front[i]);
            }
        }
        if segment_start(path) > 0 {
            assert(path[segment_start(path) - 1] == front[segment_start(front) - 1]);
        }
    }
}

/// No dot follows the last dot, and no dot at all occurs where there is none.
pub proof fn law_last_dot(name: Seq<u8>)
    ensures
        match last_dot(name) {
            Some(at) => 0 <= at < name.len() && name[at] == DOT && forall|i: int|
                at < i < name.len() ==> name[i] != DOT,
            None => forall|i: int| 0 <= i < name.len() ==> name[i] != DOT,
        },
    decreases name.len(),
{
    if name.len() > 0 && name.last() != DOT {
        let front = name.drop_last();
        law_last_dot(front);
        assert forall|i: int| 0 <= i < front.len() implies name[i] == front[i] by {}
    }
}

/// Cutting a name behind bytes that are no dots does not move its last dot.
proof fn lemma_last_dot_step(name: Seq<u8>, end: int)
    requires
        0 <= end <= name.len(),
        forall|i: int| end <= i < name.len() ==> name[i] != DOT,
    ensures
        last_dot(name) == last_dot(name.subrange(0, end)),
    decreases name.len() - end,
{
    if end < name.len() {
        assert(name.drop_last().subrange(0, end) =~= name.subrange(0, end));
        lemma_last_dot_step(name.drop_last(), end);
    } else {
        assert(name.subrange(0, end) =~= name);
    }
}

/// The final component of `path` as the range of bytes that holds it.
pub fn file_name_range(path: &[u8]) -> (range: Option<(usize, usize)>)
    ensures
        match range {
            Some((start, end)) => start < end <= path@.len() && file_name_of(path@) == Some(
                path@.subrange(start as int, end as int),
            ),
            None => file_name_of(path@) is None,
        },
{
    let mut end: usize = path.len();
    assert(path@.subrange(0, end as int) =~= path@);
    loop
        invariant
            end <= path@.len(),
            file_name_of(path@) == file_name_of(path@.subrange(0, end as int)),
        decreases end,
    {
        let ghost head = path@.subrange(0, end as int);
        if end == 0 {
            return None;
        }
        if path[end - 1] == SEPARATOR {
            assert(head.drop_last() =~= path@.subrange(0, end - 1));
            end = end - 1;
            continue ;
        }
        let mut start: usize = end - 1;
        while start > 0 && path[start - 1] != SEPARATOR
            invariant
                start < end <= path@.len(),
                forall|i: int| start <= i < end ==> path@[i] != SEPARATOR,
            decreases start,
        {
            start = start - 1;
        }
        proof {
            lemma_segment_start_step(path@, end as int, start as int);
            let front = path@.subrange(0, start as int);
            if start > 0 {
                assert(front.last() == SEPARATOR);
            }
            assert(segment_start(front) == start);
            assert(head.subrange(start as int, end as int) =~= path@.subrange(
                start as int,
                end as int,
            ));
            assert(head.subrange(0, start as int) =~= front);
        }
        let length: usize = end - start;
        if length == 1 && path[start] == DOT {
            assert(path@.subrange(start as int, end as int) =~= seq![DOT]);
            if start == 0 {
                return None;
            }
            assert(head.drop_last() =~= path@.subrange(0, start as int));
            end = start;
            continue ;
        }
        if length == 2 && path[start] == DOT && path[start + 1] == DOT {
            assert(path@.subrange(start as int, end as int) =~= seq![DOT, DOT]);
            return None;
        }
        proof {
            let segment = path@.subrange(start as int, end as int);
            if segment =~= seq![DOT] {
                assert(segment.len() == 1 && segment[0] == DOT);
            }
            if segment =~= seq![DOT, DOT] {
                assert(segment.len() == 2 && segment[0] == DOT && segment[1] == DOT);
            }
        }
        return Some((start, end));
    }
}

/// The place of the last dot of the file name in `path[start..end]`, as an
/// index into `path`.
fn last_dot_in(path: &[u8], start: usize, end: usize) -> (at: Option<usize>)
    requires
        start <= end <= path@.len(),
    ensures
        match at {
            Some(dot) => start <= dot < end && last_dot(
                path@.subrange(start as int, end as int),
            ) == Some(dot - start),
            None => last_dot(path@.subrange(start as int, end as int)) is None,
        },
{
    let ghost name = path@.subrange(start as int, end as int);
    let mut at: usize = end;
    while at > start && path[at - 1] != DOT
        invariant
            start <= at <= end <= path@.len(),
            name == path@.subrange(start as int, end as int),
            forall|i: int| at <= i < end ==> path@[i] != DOT,
        decreases at,
    {
        at = at - 1;
    }
    proof {
        lemma_last_dot_step(name, at - start);
        let front = name.subrange(0, at - start);
        if at > start {
            assert(front.last() == DOT);
            assert(last_dot(front) == Some(at - start - 1));
        } else {
            assert(front.len() == 0);
        }
    }
    if at > start {
        Some(at - 1)
    } else {
        None
    }
}

/// The final component of `path`, if it names something.
pub fn file_name(path: &[u8]) -> (name: Option<&[u8]>)
    ensures
        match name {
            Some(bytes) => file_name_of(path@) == Some(bytes@),
            None => file_name_of(path@) is None,
        },
{
    match file_name_range(path) {
        Some((start, end)) => Some(vstd::slice::slice_subrange(path, start, end)),
        None => None,
    }
}

/// The extension of `path`: what follows the last dot of its file name.
pub fn extension(path: &[u8]) -> (ext: Option<&[u8]>)
    ensures
        match ext {
            Some(bytes) => extension_of(path@) == Some(bytes@),
            None => extension_of(path@) is None,
        },
{
    match file_name_range(path) {
        Some((start, end)) => match last_dot_in(path, start, end) {
            Some(dot) => if dot > start {
                let ext = vstd::slice::slice_subrange(path, dot + 1, end);
                assert(ext@ =~= path@.subrange(start as int, end as int).subrange(
                    dot - start + 1,
                    end - start,
                ));
                Some(ext)
            } else {
                None
            },
            None => None,
        },
        None => None,
    }
}

/// The stem of `path`: its file name without its extension. `None` where
/// the path has no file name, and where the name is nothing but an
/// extension.
pub fn file_stem(path: &[u8]) -> (stem: Option<&[u8]>)
    ensures
        match stem {
            Some(bytes) => stem_of(path@) == Some(bytes@),
            None => stem_of(path@) is None,
        },
{
    match file_name_range(path) {
        Some((start, end)) => match last_dot_in(path, start, end) {
            Some(dot) => if dot > start {
                let stem = vstd::slice::slice_subrange(path, start, dot);
                assert(stem@ =~= path@.subrange(start as int, end as int).subrange(
                    0,
                    dot - start,
                ));
                Some(stem)
            } else {
                None
            },
            None => Some(vstd::slice::slice_subrange(path, start, end)),
        },
        None => None,
    }
}

/// `name` placed inside the directory `base`.
pub fn join(base: &[u8], name: &[u8]) -> (path: Vec<u8>)
    ensures
        path@ == joined(base@, name@),
{
    let mut path: Vec<u8> = Vec::new();
    path.extend_from_slice(base);
    if base.len() > 0 && base[base.len() - 1] != SEPARATOR {
        path.push(SEPARATOR);
    }
    path.extend_from_slice(name);
    path
}

/// Where the decompressed form of `file_path` is stored: its stem, inside
/// `work_dir`. `None` where `file_path` has no stem.
pub fn output_name(file_path: &[u8], work_dir: &[u8]) -> (name: Option<Vec<u8>>)
    ensures
        match name {
            Some(bytes) => output_name_of(file_path@, work_dir@) == Some(bytes@),
            None => output_name_of(file_path@, work_dir@) is None,
        },
{
    match file_stem(file_path) {
        Some(stem) => Some(join(work_dir, stem)),
        None => None,
    }
}

/// Where the converted disk is stored inside `work_dir`.
pub fn disk_name(work_dir: &[u8]) -> (name: Vec<u8>)
    ensures
        name@ == disk_name_of(work_dir@),
{
    join(work_dir, DISK_NAME.as_slice())
}

/// `name` can be the name of a file: it is not empty, holds no separator,
/// and is neither `.` nor `..`.
pub open spec fn plain_name(name: Seq<u8>) -> bool {
    &&& name.len() > 0
    &&& forall|i: int| 0 <= i < name.len() ==> name[i] != SEPARATOR
    &&& !(name =~= seq![DOT])
    &&& !(name =~= seq![DOT, DOT])
}

/// `prefix` can stand before a file name: it is empty, or ends in a
/// separator.
pub open spec fn directory_prefix(prefix: Seq<u8>) -> bool {
    prefix.len() == 0 || prefix.last() == SEPARATOR
}

/// The file name of a path that ends in a plain name is that name,
/// whatever directories stand before it.
pub proof fn law_file_name_of_named_path(prefix: Seq<u8>, name: Seq<u8>)
    requires
        directory_prefix(prefix),
        plain_name(name),
    ensures
        file_name_of(prefix + name) == Some(name),
{
    let path = prefix + name;
    let cut = prefix.len() as int;
    assert(path.last() == name.last());
    assert forall|i: int| cut <= i < path.len() implies path[i] != SEPARATOR by {
        assert(path[i] == name[i - cut]);
    }
    lemma_segment_start_step(path, path.len() as int, cut);
    assert(path.subrange(0, path.len() as int) =~= path);
    assert(path.subrange(0, cut) =~= prefix);
    assert(segment_start(path) == cut);
    assert(path.subrange(cut, path.len() as int) =~= name);
}

/// Separators at the end of a path do not change its file name.
pub proof fn law_trailing_separator(path: Seq<u8>)
    ensures
        file_name_of(path + seq![SEPARATOR]) == file_name_of(path),
{
    let longer = path + seq![SEPARATOR];
    assert(longer.last() == SEPARATOR);
    assert(longer.drop_last() =~= path);
}

/// A file name that is a stem, a dot and an extension divides at that dot:
/// the extension is what follows the last dot, and the stem is all that
/// stands before it, other dots included.
pub proof fn law_stem_and_extension(prefix: Seq<u8>, stem: Seq<u8>, extension: Seq<u8>)
    requires
        directory_prefix(prefix),
        plain_name(stem + seq![DOT] + extension),
        stem.len() > 0,
        forall|i: int| 0 <= i < extension.len() ==> extension[i] != DOT,
    ensures
        extension_of(prefix + (stem + seq![DOT] + extension)) == Some(extension),
        stem_of(prefix + (stem + seq![DOT] + extension)) == Some(stem),
{
    let name = stem + seq![DOT] + extension;
    let dot = stem.len() as int;
    law_file_name_of_named_path(prefix, name);
    assert forall|i: int| dot + 1 <= i < name.len() implies name[i] != DOT by {
        assert(name[i] == extension[i - dot - 1]);
    }
    lemma_last_dot_step(name, dot + 1);
    assert(name.subrange(0, dot + 1).last() == DOT);
    assert(last_dot(name) == Some(dot));
    assert(name.subrange(dot + 1, name.len() as int) =~= extension);
    assert(name.subrange(0, dot) =~= stem);
}

/// A file name without a dot has no extension, and is its own stem.
pub proof fn law_name_without_extension(prefix: Seq<u8>, name: Seq<u8>)
    requires
        directory_prefix(prefix),
        plain_name(name),
        forall|i: int| 0 <= i < name.len() ==> name[i] != DOT,
    ensures
        extension_of(prefix + name) is None,
        stem_of(prefix + name) == Some(name),
{
    law_file_name_of_named_path(prefix, name);
    law_last_dot(name);
}

/// A file name that is nothing but an extension, a dot followed by bytes
/// that are no dots, has neither an extension nor a stem, and so no place
/// for a decompressed form.
pub proof fn law_bare_extension_has_no_stem(prefix: Seq<u8>, name: Seq<u8>, work_dir: Seq<u8>)
    requires
        directory_prefix(prefix),
        plain_name(name),
        name[0] == DOT,
        forall|i: int| 0 < i < name.len() ==> name[i] != DOT,
    ensures
        extension_of(prefix + name) is None,
        stem_of(prefix + name) is None,
        output_name_of(prefix + name, work_dir) is None,
{
    law_file_name_of_named_path(prefix, name);
    law_last_dot(name);
}

/// A path has a place for its decompressed form exactly where it has a file
/// name that is more than an extension. A path that has an extension has
/// one.
pub proof fn law_extension_implies_output_name(path: Seq<u8>, work_dir: Seq<u8>)
    ensures
        extension_of(path) is Some ==> output_name_of(path, work_dir) is Some,
        output_name_of(path, work_dir) is Some <==> (file_name_of(path) matches Some(name)
            && last_dot(name) != Some(0int)),
{
    if let Some(name) = file_name_of(path) {
        law_last_dot(name);
    }
}

/// The output name is a function of the source path and the working
/// directory, and of nothing else: equal inputs give equal names.
pub proof fn law_output_name_is_determined(
    path: Seq<u8>,
    work_dir: Seq<u8>,
    other_path: Seq<u8>,
    other_work_dir: Seq<u8>,
)
    requires
        path == other_path,
        work_dir == other_work_dir,
    ensures
        output_name_of(path, work_dir) == output_name_of(other_path, other_work_dir),
{
}

/// The decompressed form of `stem.extension` is stored as `stem` in the
/// working directory, wherever the source lies.
pub proof fn law_output_name_of_named_path(
    prefix: Seq<u8>,
    stem: Seq<u8>,
    extension: Seq<u8>,
    work_dir: Seq<u8>,
)
    requires
        directory_prefix(prefix),
        plain_name(stem + seq![DOT] + extension),
        stem.len() > 0,
        forall|i: int| 0 <= i < extension.len() ==> extension[i] != DOT,
    ensures
        output_name_of(prefix + (stem + seq![DOT] + extension), work_dir) == Some(
            joined(work_dir, stem),
        ),
{
    law_stem_and_extension(prefix, stem, extension);
}

} // verus!
