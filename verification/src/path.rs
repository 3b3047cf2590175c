//! File names of paths: the final component, its extension and its stem, and
//! the name an archive unpacks to once its archive suffix is removed.
use vstd::prelude::*;

use crate::text::{
    ascii_lower, ends_with, is_ascii_seq, last_index_of, lemma_ascii_lower_char, lemma_last_index_of,
    rfind_char, str_ends_with,
};
use crate::tree::path_parts;

verus! {

/// What `Path::file_name` gives for the path written `path`.
pub uninterp spec fn spec_file_name(path: Seq<char>) -> Option<Seq<char>>;

/// A path of one plain component on every platform: not empty, no
/// separator (`/`, or a backslash on Windows), no `:` (which starts a Windows
/// prefix), not `.` or `..`.
pub open spec fn is_plain_name(path: Seq<char>) -> bool {
    &&& path.len() > 0
    &&& forall|i: int| 0 <= i < path.len() ==> path[i] != '/' && path[i] != '\\' && path[i] != ':'
    &&& path != seq!['.']
    &&& path != seq!['.', '.']
}

/// A path whose only separator on every platform is `/` and that starts no
/// Windows prefix: no backslash, no `:`, and no leading `//`.
pub open spec fn slash_path(path: Seq<char>) -> bool {
    &&& forall|i: int| 0 <= i < path.len() ==> path[i] != '\\' && path[i] != ':'
    &&& !(path.len() >= 2 && path[0] == '/' && path[1] == '/')
}

/// The components of a `/`-separated path as `Path::components` documents
/// them, less the empty ones (repeated and trailing separators) and the `.`
/// ones (the current directory).
pub open spec fn named_parts(path: Seq<char>) -> Seq<Seq<char>> {
    path_parts(path).filter(|c: Seq<char>| c.len() > 0 && c != seq!['.'])
}

/// The file name of a `/`-separated path as `Path::file_name` documents it:
/// its final component, unless there is none or it is `..`.
pub open spec fn last_named_part(path: Seq<char>) -> Option<Seq<char>> {
    let c = named_parts(path);
    if c.len() == 0 || c.last() == seq!['.', '.'] {
        None
    } else {
        Some(c.last())
    }
}

/// A plain name is its own final component.
pub proof fn lemma_plain_name_is_its_part(path: Seq<char>)
    requires
        is_plain_name(path),
    ensures
        last_named_part(path) == Some(path),
{
    crate::text::lemma_first_index_of(path, '/', path.len() as int);
    assert(path_parts(path) == seq![path]);
    reveal_with_fuel(Seq::filter, 2);
    assert(seq![path].drop_last() =~= Seq::<Seq<char>>::empty());
    assert(named_parts(path) =~= seq![path]);
}

/// The file name of the path written `path` as `file_name` gives it: the
/// final component of a `/`-separated path, the named result for other
/// paths.
pub open spec fn file_name_of(path: Seq<char>) -> Option<Seq<char>> {
    if slash_path(path) {
        last_named_part(path)
    } else {
        spec_file_name(path)
    }
}

/// Calls `std::path::Path::file_name` on the path written `path` and takes the
/// name as text. The contract names the result and states what the
/// documentation shows: for a path of a single plain component the name is
/// the whole path; for a path separated by `/` alone, with no Windows prefix,
/// it is the final component once repeated and trailing separators and `.`
/// components are normalized away, and nothing where there is none or it is
/// `..`. How paths with backslashes or prefixes are split is left unsaid.
#[verifier::external_body]
pub fn file_name(path: &str) -> (r: Option<String>)
    ensures
        r.is_some() ==> spec_file_name(path@) == Some(r.unwrap()@),
        r.is_none() ==> spec_file_name(path@).is_none(),
        is_plain_name(path@) ==> r.is_some() && r.unwrap()@ == path@,
        slash_path(path@) ==> r.is_some() == last_named_part(path@).is_some(),
        slash_path(path@) && r.is_some() ==> r.unwrap()@ == last_named_part(path@).unwrap(),
{
    std::path::Path::new(path).file_name().map(|n| n.to_string_lossy().into_owned())
}

/// Where a file name splits into stem and extension: the position of its last
/// `.`, unless there is none or it is the leading character.
pub open spec fn dot_split(name: Seq<char>) -> Option<int> {
    match last_index_of(name, '.') {
        Some(i) => if i == 0 {
            None
        } else {
            Some(i)
        },
        None => None,
    }
}

/// The extension of a file name, as `Path::extension` documents it.
pub open spec fn name_extension(name: Seq<char>) -> Option<Seq<char>> {
    match dot_split(name) {
        Some(i) => Some(name.subrange(i + 1, name.len() as int)),
        None => None,
    }
}

/// The stem of a file name, as `Path::file_stem` documents it.
pub open spec fn name_stem(name: Seq<char>) -> Seq<char> {
    match dot_split(name) {
        Some(i) => name.subrange(0, i),
        None => name,
    }
}

/// ASCII lower-casing keeps the last `.` where it is.
proof fn lemma_ascii_lower_last_dot(s: Seq<char>)
    ensures
        last_index_of(ascii_lower(s), '.') == last_index_of(s, '.'),
    decreases s.len(),
{
    if s.len() > 0 {
        assert(ascii_lower(s).drop_last() =~= ascii_lower(s.drop_last()));
        assert(ascii_lower(s).last() == crate::text::ascii_lower_char(s.last()));
        lemma_ascii_lower_char(s.last());
        lemma_ascii_lower_last_dot(s.drop_last());
    }
}

/// The extension of a name lower-cased the ASCII way is its extension
/// lower-cased the same way; the extension of an ASCII name is ASCII.
pub proof fn lemma_ascii_lower_extension(n: Seq<char>)
    ensures
        name_extension(ascii_lower(n)) == match name_extension(n) {
            Some(e) => Some(ascii_lower(e)),
            None => None,
        },
        is_ascii_seq(n) ==> (name_extension(n) matches Some(e) ==> is_ascii_seq(e)),
{
    lemma_ascii_lower_last_dot(n);
    lemma_last_index_of(n, '.');
    match dot_split(n) {
        Some(i) => {
            assert(ascii_lower(n).subrange(i + 1, n.len() as int) =~= ascii_lower(
                n.subrange(i + 1, n.len() as int),
            ));
        },
        None => {},
    }
}

fn dot_position(name: &str) -> (r: Option<usize>)
    ensures
        r matches Some(i) ==> dot_split(name@) == Some(i as int),
        r is None ==> dot_split(name@) is None,
{
    match rfind_char(name, '.') {
        Some(i) => if i == 0 {
            None
        } else {
            Some(i)
        },
        None => None,
    }
}

/// The extension of the file name `name`.
pub fn extension_of_name(name: &str) -> (r: Option<String>)
    ensures
        r matches Some(e) ==> name_extension(name@) == Some(e@),
        r is None ==> name_extension(name@) is None,
{
    proof {
        lemma_last_index_of(name@, '.');
    }
    match dot_position(name) {
        Some(i) => {
            let n = name.unicode_len();
            Some(name.substring_char(i + 1, n).to_owned())
        },
        None => None,
    }
}

/// The stem of the file name `name`.
pub fn stem_of_name(name: &str) -> (r: String)
    ensures
        r@ == name_stem(name@),
{
    proof {
        lemma_last_index_of(name@, '.');
    }
    match dot_position(name) {
        Some(i) => name.substring_char(0, i).to_owned(),
        None => name.to_owned(),
    }
}

/// The stem of the final component of `path`, if it has one.
pub fn file_stem(path: &str) -> (r: Option<String>)
    ensures
        r matches Some(s) ==> file_name_of(path@) matches Some(n) && s@ == name_stem(n),
        r is None ==> file_name_of(path@) is None,
{
    match file_name(path) {
        Some(n) => Some(stem_of_name(n.as_str())),
        None => None,
    }
}

/// The suffixes removed from an archive's name, in the order they are tried.
pub open spec fn archive_suffixes() -> Seq<Seq<char>> {
    seq![
        ".tar.gz"@,
        ".tar.xz"@,
        ".tar.zst"@,
        ".tar.bz2"@,
        ".tar.lzma"@,
        ".tgz"@,
        ".txz"@,
        ".tbz2"@,
        ".tbz"@,
        ".gz"@,
        ".zst"@,
        ".xz"@,
        ".bz2"@,
        ".lzma"@,
    ]
}

/// `name` without the first suffix of `suffixes` that it ends with; unchanged
/// when it ends with none of them.
pub open spec fn strip_first_suffix(name: Seq<char>, suffixes: Seq<Seq<char>>) -> Seq<char>
    decreases suffixes.len(),
{
    if suffixes.len() == 0 {
        name
    } else if ends_with(name, suffixes[0]) {
        name.subrange(0, name.len() - suffixes[0].len())
    } else {
        strip_first_suffix(name, suffixes.drop_first())
    }
}

/// The name that the archive at `path` unpacks to: its file name (empty when it
/// has none) without its archive suffix.
pub open spec fn spec_strip_archive_extension(path: Seq<char>) -> Seq<char> {
    let name = match file_name_of(path) {
        Some(n) => n,
        None => Seq::empty(),
    };
    strip_first_suffix(name, archive_suffixes())
}

/// `name` without its archive suffix.
pub fn strip_archive_suffix(name: &str) -> (r: String)
    ensures
        r@ == strip_first_suffix(name@, archive_suffixes()),
{
    let suffixes: Vec<&str> = vec![
        ".tar.gz",
        ".tar.xz",
        ".tar.zst",
        ".tar.bz2",
        ".tar.lzma",
        ".tgz",
        ".txz",
        ".tbz2",
        ".tbz",
        ".gz",
        ".zst",
        ".xz",
        ".bz2",
        ".lzma",
    ];
    let ghost all = archive_suffixes();
    assert(suffixes@.map_values(|s: &str| s@) =~= all);
    assert(all.skip(0) =~= all);
    let mut i: usize = 0;
    while i < suffixes.len()
        invariant
            i <= suffixes@.len(),
            all == archive_suffixes(),
            suffixes@.len() == all.len(),
            forall|j: int| 0 <= j < all.len() ==> #[trigger] suffixes@[j]@ == all[j],
            strip_first_suffix(name@, all) == strip_first_suffix(name@, all.skip(i as int)),
        decreases suffixes.len() - i,
    {
        let suffix = suffixes[i];
        assert(all.skip(i as int)[0] == all[i as int]);
        if str_ends_with(name, suffix) {
            let n = name.unicode_len();
            let m = suffix.unicode_len();
            assert(all.skip(i as int).len() > 0);
            assert(strip_first_suffix(name@, all.skip(i as int)) == name@.subrange(
                0,
                name@.len() - all[i as int].len(),
            ));
            let r = name.substring_char(0, n - m).to_owned();
            return r;
        }
        assert(all.skip(i as int).drop_first() =~= all.skip(i + 1));
        i = i + 1;
    }
    name.to_owned()
}

/// The name that the archive at `path` unpacks to.
pub fn strip_archive_extension(path: &str) -> (r: String)
    ensures
        r@ == spec_strip_archive_extension(path@),
{
    let name = file_name(path);
    match name {
        Some(n) => {
            assert(file_name_of(path@) == Some(n@));
            strip_archive_suffix(n.as_str())
        },
        None => {
            let empty = "";
            proof {
                reveal_strlit("");
            }
            assert(empty@ =~= Seq::<char>::empty());
            strip_archive_suffix(empty)
        },
    }
}

/// `name` joined onto the path `base` as a path buffer joins: an absolute
/// `name` replaces `base`, else a separator is put between them unless `base`
/// is empty or already ends in one.
pub open spec fn spec_path_join(base: Seq<char>, name: Seq<char>) -> Seq<char> {
    if name.len() > 0 && name[0] == '/' {
        name
    } else if base.len() == 0 || base.last() == '/' {
        base + name
    } else {
        base + seq!['/'] + name
    }
}

/// `name` joined onto the path `base`.
pub fn path_join(base: &str, name: &str) -> (r: String)
    ensures
        r@ == spec_path_join(base@, name@),
{
    if name.unicode_len() > 0 && name.get_char(0) == '/' {
        return String::from_str(name);
    }
    let n = base.unicode_len();
    let mut r = String::from_str(base);
    if n > 0 && base.get_char(n - 1) != '/' {
        r.append("/");
        proof {
            reveal_strlit("/");
        }
    }
    r.append(name);
    r
}

/// The name a source file or directory is stored under in a new archive: the
/// final component of its path, or nothing where the path has none.
pub open spec fn spec_source_name(source: Seq<char>) -> Seq<char> {
    match file_name_of(source) {
        Some(n) => n,
        None => Seq::empty(),
    }
}

/// The name a source is stored under in a new archive.
pub fn source_name(source: &str) -> (r: String)
    ensures
        r@ == spec_source_name(source@),
{
    match file_name(source) {
        Some(n) => n,
        None => String::new(),
    }
}

/// The name an entry found at `rel` below a source directory is stored under:
/// the source's name joined with the relative path.
pub fn source_entry_name(source: &str, rel: &str) -> (r: String)
    ensures
        r@ == spec_path_join(spec_source_name(source@), rel@),
{
    let base = source_name(source);
    path_join(base.as_str(), rel)
}

} // verus!
