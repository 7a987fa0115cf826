use vstd::prelude::*;
use crate::text::chars_of;

verus! {

/// A filesystem path held as its components, the first being the base it
/// starts from (for instance the user's home directory).
#[derive(Debug)]
pub struct FsPath {
    parts: Vec<String>,
}

/// The components of `s`, split at `/`, with empty ones left out; the
/// second half is the unfinished last component.
pub open spec fn split_state(s: Seq<char>) -> (Seq<Seq<char>>, Seq<char>)
    decreases s.len(),
{
    if s.len() == 0 {
        (Seq::empty(), Seq::empty())
    } else {
        let prev = split_state(s.drop_last());
        if s.last() == '/' {
            if prev.1.len() > 0 {
                (prev.0.push(prev.1), Seq::empty())
            } else {
                (prev.0, Seq::empty())
            }
        } else {
            (prev.0, prev.1.push(s.last()))
        }
    }
}

/// The non-empty components of a relative path written with `/`.
pub open spec fn rel_parts(s: Seq<char>) -> Seq<Seq<char>> {
    let st = split_state(s);
    if st.1.len() > 0 {
        st.0.push(st.1)
    } else {
        st.0
    }
}

impl FsPath {
    pub closed spec fn view(&self) -> Seq<Seq<char>> {
        self.parts@.map_values(|p: String| p@)
    }

    /// The path made of `root` alone.
    pub fn from_root(root: &str) -> (r: FsPath)
        ensures
            r@ == seq![root@],
    {
        let mut parts: Vec<String> = Vec::new();
        parts.push(root.to_owned());
        let r = FsPath { parts };
        assert(r@ =~= seq![root@]);
        r
    }

    /// Appends one component.
    pub fn push(&mut self, part: &str)
        ensures
            final(self)@ == old(self)@.push(part@),
    {
        self.parts.push(part.to_owned());
        assert(self@ =~= old(self)@.push(part@));
    }

    /// A copy of this path with one component appended.
    pub fn join(&self, part: &str) -> (r: FsPath)
        ensures
            r@ == self@.push(part@),
    {
        let mut r = self.duplicate();
        r.push(part);
        r
    }

    /// A copy of this path.
    pub fn duplicate(&self) -> (r: FsPath)
        ensures
            r@ == self@,
    {
        let mut parts: Vec<String> = Vec::new();
        let mut i: usize = 0;
        while i < self.parts.len()
            invariant
                i <= self.parts@.len(),
                parts@.len() == i,
                forall|k: int| 0 <= k < i ==> parts@[k]@ == self.parts@[k]@,
            decreases self.parts@.len() - i,
        {
            parts.push(self.parts[i].clone());
            i = i + 1;
        }
        let r = FsPath { parts };
        assert(r@ =~= self@);
        r
    }

    /// The number of components.
    pub fn len(&self) -> (r: usize)
        ensures
            r == self@.len(),
    {
        self.parts.len()
    }

    /// The component at position `i`.
    pub fn part(&self, i: usize) -> (r: &str)
        requires
            i < self@.len(),
        ensures
            r@ == self@[i as int],
    {
        self.parts[i].as_str()
    }
}

/// The parts of `subdir` appended to `path` in order; empty parts (from
/// repeated, leading or trailing `/`) are skipped.
pub fn append_relative_path(path: FsPath, subdir: &str) -> (r: FsPath)
    ensures
        r@ == path@ + rel_parts(subdir@),
{
    let parts = relative_parts(subdir);
    let mut r = path;
    let ghost base = r@;
    let mut i: usize = 0;
    while i < parts.len()
        invariant
            i <= parts@.len(),
            parts@.map_values(|p: String| p@) == rel_parts(subdir@),
            r@ == base + rel_parts(subdir@).take(i as int),
        decreases parts@.len() - i,
    {
        r.push(parts[i].as_str());
        assert(rel_parts(subdir@).take(i + 1) =~= rel_parts(subdir@).take(i as int).push(
            parts@[i as int]@,
        ));
        i = i + 1;
    }
    assert(rel_parts(subdir@).take(i as int) =~= rel_parts(subdir@));
    r
}

/// The directories that must exist for `subdir` to exist under `path`,
/// each parent before its children: one for every non-empty part of
/// `subdir`.
pub fn ensure_subdir_exists(path: FsPath, subdir: &str) -> (r: Vec<FsPath>)
    ensures
        r@.len() == rel_parts(subdir@).len(),
        forall|k: int|
            0 <= k < r@.len() ==> #[trigger] r@[k]@ == path@ + rel_parts(subdir@).take(k + 1),
{
    let parts = relative_parts(subdir);
    let mut cur = path;
    let ghost base = cur@;
    let mut dirs: Vec<FsPath> = Vec::new();
    let mut i: usize = 0;
    while i < parts.len()
        invariant
            i <= parts@.len(),
            parts@.map_values(|p: String| p@) == rel_parts(subdir@),
            cur@ == base + rel_parts(subdir@).take(i as int),
            dirs@.len() == i,
            forall|k: int|
                0 <= k < i ==> #[trigger] dirs@[k]@ == base + rel_parts(subdir@).take(k + 1),
        decreases parts@.len() - i,
    {
        cur.push(parts[i].as_str());
        assert(rel_parts(subdir@).take(i + 1) =~= rel_parts(subdir@).take(i as int).push(
            parts@[i as int]@,
        ));
        dirs.push(cur.duplicate());
        i = i + 1;
    }
    dirs
}

/// The non-empty `/`-separated parts of `s`, in order.
pub fn relative_parts(s: &str) -> (r: Vec<String>)
    ensures
        r@.map_values(|p: String| p@) == rel_parts(s@),
{
    let cs = chars_of(s);
    let mut done: Vec<String> = Vec::new();
    let mut start: usize = 0;
    let mut i: usize = 0;
    while i < cs.len()
        invariant
            cs@ == s@,
            start <= i <= cs@.len(),
            done@.map_values(|p: String| p@) == split_state(s@.take(i as int)).0,
            s@.subrange(start as int, i as int) == split_state(s@.take(i as int)).1,
        decreases cs@.len() - i,
    {
        assert(s@.take(i + 1).drop_last() =~= s@.take(i as int));
        if cs[i] == '/' {
            if start < i {
                let part = s.substring_char(start, i);
                done.push(part.to_owned());
                assert(done@.map_values(|p: String| p@) =~= split_state(s@.take(i as int)).0.push(
                    split_state(s@.take(i as int)).1,
                ));
            }
            start = i + 1;
            assert(s@.subrange(start as int, i + 1) =~= Seq::<char>::empty());
        } else {
            assert(s@.subrange(start as int, i + 1) =~= s@.subrange(start as int, i as int).push(
                cs@[i as int],
            ));
        }
        i = i + 1;
    }
    assert(s@.take(i as int) =~= s@);
    if start < i {
        let part = s.substring_char(start, i);
        done.push(part.to_owned());
        assert(done@.map_values(|p: String| p@) =~= rel_parts(s@));
    }
    done
}

} // verus!
