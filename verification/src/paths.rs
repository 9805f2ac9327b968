use vstd::prelude::*;
use vstd::string::{StrSliceExecFns, StringExecFns};
use crate::errors::UpsertError;

verus! {

/// One step of the segment split: a separator closes the pending segment
/// (an empty pending one is dropped), any other character extends it.
pub open spec fn split_step(
    done: Seq<Seq<char>>,
    cur: Seq<char>,
    c: char,
) -> (Seq<Seq<char>>, Seq<char>) {
    if c == '/' {
        if cur.len() == 0 {
            (done, cur)
        } else {
            (done.push(cur), Seq::empty())
        }
    } else {
        (done, cur.push(c))
    }
}

/// The split state after reading a whole text: the closed segments and the
/// pending one.
pub open spec fn split_state(s: Seq<char>) -> (Seq<Seq<char>>, Seq<char>)
    decreases s.len(),
{
    if s.len() == 0 {
        (Seq::empty(), Seq::empty())
    } else {
        let st = split_state(s.drop_last());
        split_step(st.0, st.1, s.last())
    }
}

/// The nonempty separator-delimited segments of a path.
pub open spec fn segments_of(s: Seq<char>) -> Seq<Seq<char>> {
    let st = split_state(s);
    if st.1.len() == 0 {
        st.0
    } else {
        st.0.push(st.1)
    }
}

/// The views of a vector of segment strings.
pub open spec fn seg_views(segs: Seq<String>) -> Seq<Seq<char>> {
    segs.map_values(|s: String| s@)
}

/// Whether a segment is one of the dot forms that name the directory itself
/// or its parent; neither can label an entry.
pub open spec fn dot_form(seg: Seq<char>) -> bool {
    seg == seq!['.'] || seg == seq!['.', '.']
}

/// Whether a path does not name an absolute location.
pub open spec fn relative(s: Seq<char>) -> bool {
    !(s.len() > 0 && s[0] == '/')
}

/// Whether a path can name an entry: it is relative, it has a final
/// segment, and no segment is a dot form.
pub open spec fn path_ok(s: Seq<char>) -> bool {
    &&& relative(s)
    &&& segments_of(s).len() > 0
    &&& forall|i: int|
        0 <= i < segments_of(s).len() ==> !dot_form(#[trigger] segments_of(s)[i])
}

/// Split a path into its nonempty segments.
fn split_segments(path: &str) -> (segs: Vec<String>)
    ensures
        seg_views(segs@) == segments_of(path@),
{
    let n = path.unicode_len();
    let mut done: Vec<String> = Vec::new();
    let mut start: usize = 0;
    let mut i: usize = 0;
    while i < n
        invariant
            n == path@.len(),
            start <= i <= n,
            seg_views(done@) == split_state(path@.take(i as int)).0,
            path@.subrange(start as int, i as int) == split_state(path@.take(i as int)).1,
        decreases n - i,
    {
        proof {
            assert(path@.take(i as int + 1).drop_last() =~= path@.take(i as int));
            assert(path@.take(i as int + 1).last() == path@[i as int]);
        }
        let c = path.get_char(i);
        if c == '/' {
            if start < i {
                let seg = path.substring_char(start, i).to_owned();
                let ghost old_done = done@;
                done.push(seg);
                proof {
                    assert(seg_views(done@) =~= seg_views(old_done).push(seg@));
                }
            }
            start = i + 1;
            proof {
                assert(path@.subrange(start as int, i as int + 1) =~= Seq::<char>::empty());
            }
        } else {
            proof {
                assert(path@.subrange(start as int, i as int + 1) =~= path@.subrange(
                    start as int,
                    i as int,
                ).push(path@[i as int]));
            }
        }
        i += 1;
    }
    proof {
        assert(path@.take(n as int) =~= path@);
    }
    if start < n {
        let seg = path.substring_char(start, n).to_owned();
        let ghost old_done = done@;
        done.push(seg);
        proof {
            assert(seg_views(done@) =~= seg_views(old_done).push(seg@));
        }
    }
    done
}

/// Whether a segment is a dot form.
fn is_dot_form(seg: &str) -> (r: bool)
    ensures
        r == dot_form(seg@),
{
    let n = seg.unicode_len();
    if n == 1 {
        let r = seg.get_char(0) == '.';
        proof {
            if r {
                assert(seg@ =~= seq!['.']);
            }
        }
        r
    } else if n == 2 {
        let r = seg.get_char(0) == '.' && seg.get_char(1) == '.';
        proof {
            if r {
                assert(seg@ =~= seq!['.', '.']);
            }
        }
        r
    } else {
        false
    }
}

/// Map a caller-supplied path to its segments: the final one is the entry's
/// leaf name, the ones before it name its strict ancestors.  Fails exactly
/// where the path is absolute, has no segment, or has a dot-form segment.
pub fn resolve_path(path: &str) -> (r: Result<Vec<String>, UpsertError>)
    ensures
        path_ok(path@) ==> (r matches Ok(segs) && seg_views(segs@) == segments_of(path@)),
        !path_ok(path@) ==> (r matches Err(e) && e is InvalidPath),
{
    if path.unicode_len() > 0 {
        if path.get_char(0) == '/' {
            return Err(UpsertError::InvalidPath);
        }
    }
    let segs = split_segments(path);
    if segs.len() == 0 {
        return Err(UpsertError::InvalidPath);
    }
    let mut i: usize = 0;
    while i < segs.len()
        invariant
            seg_views(segs@) == segments_of(path@),
            i <= segs@.len(),
            forall|j: int| 0 <= j < i ==> !dot_form(#[trigger] segs@[j]@),
        decreases segs@.len() - i,
    {
        if is_dot_form(segs[i].as_str()) {
            proof {
                assert(segments_of(path@)[i as int] == segs@[i as int]@);
            }
            return Err(UpsertError::InvalidPath);
        }
        i += 1;
    }
    proof {
        assert forall|k: int| 0 <= k < segments_of(path@).len() implies !dot_form(
            #[trigger] segments_of(path@)[k],
        ) by {
            assert(segments_of(path@)[k] == segs@[k]@);
        }
        assert(path_ok(path@));
    }
    Ok(segs)
}

} // verus!
