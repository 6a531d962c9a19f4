//! The listing of a directory walk: which entries count as images.

use vstd::prelude::*;
use vstd::string::StrSliceExecFns;

verus! {

/// One entry of a recursive directory walk, as the host saw it.
#[derive(Debug, Clone, PartialEq, Eq)]
pub struct WalkEntry {
    /// The entry's full path.
    pub path: String,
    /// The last component of the path.
    pub file_name: String,
    /// Whether the entry is a regular file.
    pub is_file: bool,
}

/// The index of the last `'.'` of `name`, or -1 where it has none.
pub open spec fn last_dot(name: Seq<char>) -> int
    decreases name.len(),
{
    if name.len() == 0 {
        -1
    } else if name.last() == '.' {
        name.len() - 1
    } else {
        last_dot(name.drop_last())
    }
}

/// The extension of a file name: what follows its last dot. A name without a
/// dot has none, and neither has one whose only dot is its first character.
pub open spec fn extension_of(name: Seq<char>) -> Option<Seq<char>> {
    let dot = last_dot(name);
    if dot <= 0 {
        None
    } else {
        Some(name.subrange(dot + 1, name.len() as int))
    }
}

/// The extensions that mark an image. Letter case counts.
pub open spec fn is_image_extension(ext: Seq<char>) -> bool {
    ext == seq!['j', 'p', 'g'] || ext == seq!['j', 'p', 'e', 'g'] || ext == seq!['p', 'n', 'g']
}

/// Whether a file of this name is an image.
pub open spec fn is_image_name(name: Seq<char>) -> bool {
    match extension_of(name) {
        Some(ext) => is_image_extension(ext),
        None => false,
    }
}

/// Whether an entry of a walk appears in the listing.
pub open spec fn is_listed(entry: WalkEntry) -> bool {
    entry.is_file && is_image_name(entry.file_name@)
}

/// The listing of a walk: the paths of its image files, in walk order.
pub open spec fn listing(entries: Seq<WalkEntry>) -> Seq<Seq<char>> {
    entries.filter_map(
        |e: WalkEntry|
            if is_listed(e) {
                Some(e.path@)
            } else {
                None
            },
    )
}

/// A sequence of paths as a sequence of character sequences.
pub open spec fn path_views(paths: Seq<String>) -> Seq<Seq<char>> {
    paths.map_values(|p: String| p@)
}

/// The last dot of a name is a dot, and no dot follows it.
pub proof fn last_dot_is_last(name: Seq<char>)
    ensures
        -1 <= last_dot(name) < name.len(),
        last_dot(name) >= 0 ==> name[last_dot(name)] == '.',
        forall|j: int| last_dot(name) < j < name.len() ==> name[j] != '.',
    decreases name.len(),
{
    if name.len() > 0 && name.last() != '.' {
        last_dot_is_last(name.drop_last());
        assert forall|j: int| last_dot(name) < j < name.len() implies name[j] != '.' by {
            if j < name.len() - 1 {
                assert(name.drop_last()[j] == name[j]);
            }
        }
    }
}

/// A path is in the listing exactly if the walk holds an image file with
/// that path, at whatever depth the walk met it.
pub proof fn listing_is_exact(entries: Seq<WalkEntry>, path: Seq<char>)
    ensures
        listing(entries).contains(path) <==> exists|i: int|
            0 <= i < entries.len() && is_listed(#[trigger] entries[i]) && entries[i].path@ == path,
    decreases entries.len(),
{
    if entries.len() > 0 {
        let rest = entries.drop_last();
        let last = entries.last();
        listing_is_exact(rest, path);
        if listing(entries).contains(path) {
            let k = choose|k: int| 0 <= k < listing(entries).len() && listing(entries)[k] == path;
            if is_listed(last) && k == listing(rest).len() {
                assert(entries[entries.len() - 1].path@ == path);
            } else {
                assert(listing(rest)[k] == path);
                assert(listing(rest).contains(path));
                let i = choose|i: int|
                    0 <= i < rest.len() && is_listed(#[trigger] rest[i]) && rest[i].path@ == path;
                assert(entries[i] == rest[i]);
            }
        }
        if exists|i: int|
            0 <= i < entries.len() && is_listed(#[trigger] entries[i]) && entries[i].path@ == path {
            let i = choose|i: int|
                0 <= i < entries.len() && is_listed(#[trigger] entries[i]) && entries[i].path@
                    == path;
            if i == entries.len() - 1 {
                assert(listing(entries)[listing(rest).len() as int] == path);
            } else {
                assert(rest[i] == entries[i]);
                assert(listing(rest).contains(path));
                let k = choose|k: int| 0 <= k < listing(rest).len() && listing(rest)[k] == path;
                assert(listing(entries)[k] == path);
            }
        }
    }
}

/// Whether a file of this name is an image: its extension is `jpg`, `jpeg`
/// or `png`, in exactly this spelling.
pub fn has_image_extension(name: &str) -> (image: bool)
    ensures
        image == is_image_name(name@),
{
    let n: usize = name.unicode_len();
    let mut i: usize = n;
    proof {
        assert(name@.take(n as int) =~= name@);
    }
    while i > 0
        invariant
            i <= n,
            n == name@.len(),
            last_dot(name@) == last_dot(name@.take(i as int)),
        decreases i,
    {
        if name.get_char(i - 1) == '.' {
            proof {
                assert(name@.take(i as int).last() == '.');
                assert(last_dot(name@) == i - 1);
            }
            if i == 1 {
                return false;
            }
            let ghost ext = name@.subrange(i as int, n as int);
            let ghost jpg = seq!['j', 'p', 'g'];
            let ghost jpeg = seq!['j', 'p', 'e', 'g'];
            let ghost png = seq!['p', 'n', 'g'];
            proof {
                assert(jpg.len() == 3 && jpg[0] == 'j' && jpg[1] == 'p' && jpg[2] == 'g');
                assert(png.len() == 3 && png[0] == 'p' && png[1] == 'n' && png[2] == 'g');
                assert(jpeg.len() == 4 && jpeg[0] == 'j' && jpeg[1] == 'p' && jpeg[2] == 'e'
                    && jpeg[3] == 'g');
            }
            if n - i == 3 {
                let a = name.get_char(i);
                let b = name.get_char(i + 1);
                let c = name.get_char(i + 2);
                proof {
                    assert(ext.len() == 3 && ext[0] == a && ext[1] == b && ext[2] == c);
                    if a == 'j' && b == 'p' && c == 'g' {
                        assert(ext =~= jpg);
                    }
                    if a == 'p' && b == 'n' && c == 'g' {
                        assert(ext =~= png);
                    }
                }
                return (a == 'j' && b == 'p' && c == 'g') || (a == 'p' && b == 'n' && c == 'g');
            }
            if n - i == 4 {
                let a = name.get_char(i);
                let b = name.get_char(i + 1);
                let c = name.get_char(i + 2);
                let d = name.get_char(i + 3);
                proof {
                    assert(ext.len() == 4 && ext[0] == a && ext[1] == b && ext[2] == c && ext[3]
                        == d);
                    if a == 'j' && b == 'p' && c == 'e' && d == 'g' {
                        assert(ext =~= jpeg);
                    }
                }
                return a == 'j' && b == 'p' && c == 'e' && d == 'g';
            }
            return false;
        }
        proof {
            assert(name@.take(i as int).drop_last() =~= name@.take(i - 1));
        }
        i = i - 1;
    }
    proof {
        assert(name@.take(0).len() == 0);
    }
    false
}

/// Lists the image files of a directory walk: the path of every regular file
/// whose name has an image extension, in the order of the walk. Everything
/// else is passed over.
pub fn scan(entries: &Vec<WalkEntry>) -> (paths: Vec<String>)
    ensures
        path_views(paths@) == listing(entries@),
{
    let mut paths: Vec<String> = Vec::new();
    let mut i: usize = 0;
    while i < entries.len()
        invariant
            i <= entries.len(),
            path_views(paths@) == listing(entries@.take(i as int)),
        decreases entries.len() - i,
    {
        let entry = &entries[i];
        let ghost before = paths@;
        proof {
            entries@.lemma_filter_map_take_succ(
                |e: WalkEntry|
                    if is_listed(e) {
                        Some(e.path@)
                    } else {
                        None
                    },
                i as int,
            );
        }
        if entry.is_file && has_image_extension(entry.file_name.as_str()) {
            paths.push(entry.path.clone());
            proof {
                assert(path_views(paths@) =~= path_views(before) + seq![entry.path@]);
            }
        }
        i = i + 1;
    }
    proof {
        assert(entries@.take(entries.len() as int) =~= entries@);
        assert(path_views(Seq::<String>::empty()) =~= Seq::<Seq<char>>::empty());
    }
    paths
}

} // verus!
