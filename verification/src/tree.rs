use vstd::prelude::*;
use vstd::string::{StrSliceExecFns, StringExecFns};
use crate::errors::UpsertError;
use crate::paths::{path_ok, resolve_path, seg_views, segments_of};

verus! {

/// The path separator.
pub open spec fn sep() -> Seq<char> {
    seq!['/']
}

/// The suffix of a content artifact's file name.
pub open spec fn content_ext() -> Seq<char> {
    seq!['.', 'm', 'd']
}

/// The suffix of a metadata record's file name.
pub open spec fn meta_ext() -> Seq<char> {
    seq!['.', 'm', 'e', 't', 'a', '.', 'j', 's', 'o', 'n']
}

/// The directory a list of segments names under a root.
pub open spec fn joined(root: Seq<char>, segs: Seq<Seq<char>>) -> Seq<char>
    decreases segs.len(),
{
    if segs.len() == 0 {
        root
    } else {
        joined(root, segs.drop_last()) + sep() + segs.last()
    }
}

/// The content artifact of an entry: named with the leaf, in the entry's
/// directory.
pub open spec fn content_file(dir: Seq<char>, leaf: Seq<char>) -> Seq<char> {
    dir + sep() + leaf + content_ext()
}

/// The metadata record of an entry: named with the leaf, in the entry's
/// directory.
pub open spec fn meta_file(dir: Seq<char>, leaf: Seq<char>) -> Seq<char> {
    dir + sep() + leaf + meta_ext()
}

/// A documentation tree, identified by the textual path of its root
/// directory.  Creating the directory itself is the caller's concern.
pub struct Vkdoc {
    pub root: String,
}

impl View for Vkdoc {
    type V = Seq<char>;

    open spec fn view(&self) -> Seq<char> {
        self.root@
    }
}

/// Where one entry lives: its segments, its directory, its content and
/// metadata files, and the metadata file of each strict ancestor (nearest
/// the root first).
pub struct Locator {
    pub segments: Vec<String>,
    pub entry_dir: String,
    pub content_path: String,
    pub meta_path: String,
    pub ancestor_meta_paths: Vec<String>,
}

impl Locator {
    /// Whether this locator is the one that a root and an entry path
    /// determine.
    pub open spec fn wf(self, root: Seq<char>, path: Seq<char>) -> bool {
        let segs = segments_of(path);
        &&& seg_views(self.segments@) == segs
        &&& segs.len() > 0
        &&& self.entry_dir@ == joined(root, segs)
        &&& self.content_path@ == content_file(joined(root, segs), segs.last())
        &&& self.meta_path@ == meta_file(joined(root, segs), segs.last())
        &&& self.ancestor_meta_paths@.len() == segs.len() - 1
        &&& forall|i: int|
            0 <= i < segs.len() - 1 ==> #[trigger] self.ancestor_meta_paths@[i]@ == meta_file(
                joined(root, segs.take(i + 1)),
                segs[i],
            )
    }
}

/// The file that holds an entry's metadata record, in the given directory,
/// named with the given leaf.
fn meta_file_name(dir: &String, leaf: &String) -> (r: String)
    ensures
        r@ == meta_file(dir@, leaf@),
{
    let mut r = dir.clone();
    r.append("/");
    r.append(leaf.as_str());
    r.append(".meta.json");
    proof {
        reveal_strlit("/");
        reveal_strlit(".meta.json");
        assert(("/")@ =~= sep());
        assert((".meta.json")@ =~= meta_ext());
    }
    r
}

/// The file that holds an entry's content, in the given directory, named
/// with the given leaf.
fn content_file_name(dir: &String, leaf: &String) -> (r: String)
    ensures
        r@ == content_file(dir@, leaf@),
{
    let mut r = dir.clone();
    r.append("/");
    r.append(leaf.as_str());
    r.append(".md");
    proof {
        reveal_strlit("/");
        reveal_strlit(".md");
        assert(("/")@ =~= sep());
        assert((".md")@ =~= content_ext());
    }
    r
}

impl Vkdoc {
    /// A tree rooted at the given directory path.
    pub fn new(root: String) -> (v: Vkdoc)
        ensures
            v@ == root@,
    {
        Vkdoc { root }
    }

    /// Map a caller-supplied entry path to the physical locations it names
    /// under this tree's root.  Fails exactly where the path is absolute,
    /// has no final segment, or has a dot-form segment.
    pub fn locate(&self, path: &str) -> (r: Result<Locator, UpsertError>)
        ensures
            path_ok(path@) ==> (r matches Ok(loc) && loc.wf(self@, path@)),
            !path_ok(path@) ==> (r matches Err(e) && e is InvalidPath),
    {
        let segments = match resolve_path(path) {
            Ok(segments) => segments,
            Err(e) => {
                return Err(e);
            },
        };
        let ghost segs = segments_of(path@);
        let n = segments.len();
        let mut dir = self.root.clone();
        let mut ancestor_meta_paths: Vec<String> = Vec::new();
        let mut i: usize = 0;
        while i < n
            invariant
                n == segments@.len(),
                i <= n,
                n >= 1,
                seg_views(segments@) == segs,
                dir@ == joined(self.root@, segs.take(i as int)),
                ancestor_meta_paths@.len() == (if i < n {
                    i as int
                } else {
                    n - 1 as int
                }),
                forall|j: int|
                    0 <= j < ancestor_meta_paths@.len()
                        ==> #[trigger] ancestor_meta_paths@[j]@ == meta_file(
                        joined(self.root@, segs.take(j + 1)),
                        segs[j],
                    ),
            decreases n - i,
        {
            proof {
                assert(segs.take(i as int + 1).drop_last() =~= segs.take(i as int));
                assert(segs.take(i as int + 1).last() == segments@[i as int]@);
            }
            dir.append("/");
            dir.append(segments[i].as_str());
            proof {
                reveal_strlit("/");
                assert(("/")@ =~= sep());
                assert(dir@ == joined(self.root@, segs.take(i as int + 1)));
            }
            if i + 1 < n {
                let ancestor = meta_file_name(&dir, &segments[i]);
                ancestor_meta_paths.push(ancestor);
            }
            i += 1;
        }
        proof {
            assert(segs.take(n as int) =~= segs);
        }
        let leaf = &segments[n - 1];
        let content_path = content_file_name(&dir, leaf);
        let meta_path = meta_file_name(&dir, leaf);
        proof {
            assert(segs.last() == segments@[n - 1 as int]@);
        }
        Ok(
            Locator {
                segments,
                entry_dir: dir,
                content_path,
                meta_path,
                ancestor_meta_paths,
            },
        )
    }
}

} // verus!
