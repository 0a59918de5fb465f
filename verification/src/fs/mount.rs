//! Mount points: path normalisation and the table that maps paths to file systems.
use vstd::prelude::*;
use crate::fs::{FileSystem, FsError};
use crate::text::{str_eq, starts_with};

verus! {

/// The components of `p` between `/` separators, empty ones dropped, scanning
/// from position `i` with the current component starting at `start`.
pub open spec fn split_from(p: Seq<char>, i: int, start: int, acc: Seq<Seq<char>>) -> Seq<Seq<char>>
    decreases p.len() - i,
{
    if i >= p.len() {
        if start < p.len() {
            acc.push(p.subrange(start, p.len() as int))
        } else {
            acc
        }
    } else if p[i] == '/' {
        split_from(p, i + 1, i + 1, if start < i { acc.push(p.subrange(start, i)) } else { acc })
    } else {
        split_from(p, i + 1, start, acc)
    }
}

/// The non-empty `/`-separated components of a path.
pub open spec fn path_components(p: Seq<char>) -> Seq<Seq<char>> {
    split_from(p, 0, 0, Seq::empty())
}

/// `.` stays in place, `..` removes the last component (none at the root), any
/// other component is appended.
pub open spec fn apply_component(stack: Seq<Seq<char>>, c: Seq<char>) -> Seq<Seq<char>> {
    if c == "."@ {
        stack
    } else if c == ".."@ {
        if stack.len() > 0 { stack.drop_last() } else { stack }
    } else {
        stack.push(c)
    }
}

pub open spec fn resolve_components(cs: Seq<Seq<char>>) -> Seq<Seq<char>>
    decreases cs.len(),
{
    if cs.len() == 0 {
        Seq::empty()
    } else {
        apply_component(resolve_components(cs.drop_last()), cs.last())
    }
}

/// `/c0/c1/...` for components `c0, c1, ...`.
pub open spec fn join_components(cs: Seq<Seq<char>>) -> Seq<char>
    decreases cs.len(),
{
    if cs.len() == 0 {
        Seq::empty()
    } else {
        join_components(cs.drop_last()) + "/"@ + cs.last()
    }
}

/// The absolute, normalised form of a path; `/` for the root.
pub open spec fn normalize_spec(p: Seq<char>) -> Seq<char> {
    let st = resolve_components(path_components(p));
    if st.len() == 0 {
        "/"@
    } else {
        join_components(st)
    }
}

pub open spec fn views(v: Seq<&str>) -> Seq<Seq<char>> {
    v.map_values(|s: &str| s@)
}

/// Normalises a path: empty components and `.` are dropped and `..` removes
/// the component before it.
pub fn normalize_path(path: &str) -> (r: String)
    ensures
        r@ == normalize_spec(path@),
{
    let ghost p = path@;
    let n = path.unicode_len();
    let mut comps: Vec<&str> = Vec::new();
    let mut start: usize = 0;
    let mut i: usize = 0;
    assert(views(comps@) =~= Seq::<Seq<char>>::empty());
    while i < n
        invariant
            p == path@,
            n == p.len(),
            start <= i <= n,
            split_from(p, i as int, start as int, views(comps@)) == path_components(p),
        decreases n - i,
    {
        if path.get_char(i) == '/' {
            if start < i {
                let c = path.substring_char(start, i);
                proof {
                    assert(views(comps@.push(c)) =~= views(comps@).push(p.subrange(start as int, i as int)));
                }
                comps.push(c);
            }
            start = i + 1;
        }
        i = i + 1;
    }
    if start < n {
        let c = path.substring_char(start, n);
        proof {
            assert(views(comps@.push(c)) =~= views(comps@).push(p.subrange(start as int, n as int)));
        }
        comps.push(c);
    }
    let ghost cs = views(comps@);
    assert(cs == path_components(p));
    let mut stack: Vec<&str> = Vec::new();
    let mut j: usize = 0;
    assert(views(stack@) =~= resolve_components(cs.take(0)));
    while j < comps.len()
        invariant
            j <= comps@.len(),
            cs == views(comps@),
            views(stack@) == resolve_components(cs.take(j as int)),
        decreases comps.len() - j,
    {
        let c = comps[j];
        assert(cs.take(j as int + 1).drop_last() =~= cs.take(j as int));
        assert(cs.take(j as int + 1).last() == c@);
        if str_eq(c, ".") {
        } else if str_eq(c, "..") {
            if stack.len() > 0 {
                let _ = stack.pop();
                assert(views(stack@) =~= resolve_components(cs.take(j as int)).drop_last());
            }
        } else {
            stack.push(c);
            assert(views(stack@) =~= resolve_components(cs.take(j as int)).push(c@));
        }
        j = j + 1;
    }
    assert(cs.take(comps@.len() as int) =~= cs);
    let ghost st = views(stack@);
    if stack.len() == 0 {
        return String::from_str("/");
    }
    let mut out = String::new();
    let mut k: usize = 0;
    while k < stack.len()
        invariant
            k <= stack@.len(),
            st == views(stack@),
            out@ == join_components(st.take(k as int)),
        decreases stack.len() - k,
    {
        assert(st.take(k as int + 1).drop_last() =~= st.take(k as int));
        out.append("/");
        out.append(stack[k]);
        k = k + 1;
    }
    assert(st.take(stack@.len() as int) =~= st);
    out
}

/// A file system mounted at a path.
pub struct MountPoint<F> {
    pub path: String,
    pub fs: F,
    pub readonly: bool,
}

impl<F> MountPoint<F> {
    pub fn new(path: &str, fs: F, readonly: bool) -> (r: MountPoint<F>)
        ensures
            r.path@ == path@,
            r.fs == fs,
            r.readonly == readonly,
    {
        MountPoint { path: String::from_str(path), fs, readonly }
    }
}

/// The mount table: mount points in the order they were mounted, no two with
/// the same path.
pub struct MountTable<F> {
    mounts: Vec<MountPoint<F>>,
}

/// Paths of the mount points.
pub open spec fn mount_paths<F>(ms: Seq<MountPoint<F>>) -> Seq<Seq<char>> {
    ms.map_values(|m: MountPoint<F>| m.path@)
}

/// Index of the mount point with path `p`, if any.
pub open spec fn has_mount<F>(ms: Seq<MountPoint<F>>, p: Seq<char>) -> bool {
    exists|i: int| 0 <= i < ms.len() && ms[i].path@ == p
}

/// Display line of a mount point.
pub open spec fn mount_line<F: FileSystem>(m: MountPoint<F>) -> Seq<char> {
    m.path@ + " -> "@ + m.fs.spec_name() + " (readonly: "@ + (if m.readonly { "true"@ } else { "false"@ }) + ")"@
}

/// Whether mount point `m` covers path `p`: its path is `p` itself, or a
/// prefix of `p` that ends a component (`p` goes on with `/`, or the mount
/// path ends with `/`, as the root does).  `/mnt` covers `/mnt` and
/// `/mnt/a`, not `/mntdata`.
pub open spec fn covers<F>(m: MountPoint<F>, p: Seq<char>) -> bool {
    let n = m.path@.len() as int;
    &&& n <= p.len()
    &&& p.subrange(0, n) == m.path@
    &&& (n == p.len() || p[n] == '/' || (n > 0 && m.path@[n - 1] == '/'))
}

impl<F: FileSystem> MountTable<F> {
    pub closed spec fn view(&self) -> Seq<MountPoint<F>> {
        self.mounts@
    }

    /// No two mount points share a path, and every path is in normal form.
    /// A table built by `new`, `mount` and `unmount` keeps this; only a path
    /// changed through `get_mut` can break it.
    pub closed spec fn wf(&self) -> bool {
        &&& forall|i: int, j: int|
            0 <= i < self.mounts@.len() && 0 <= j < self.mounts@.len() && i != j
                ==> self.mounts@[i].path@ != self.mounts@[j].path@
        &&& forall|i: int| 0 <= i < self.mounts@.len() ==> normalize_spec(#[trigger] self.mounts@[i].path@) == self.mounts@[i].path@
    }

    /// Every mount point's path is in normal form.
    pub open spec fn paths_normal(&self) -> bool {
        forall|i: int| 0 <= i < self@.len() ==> normalize_spec(#[trigger] self@[i].path@) == self@[i].path@
    }

    pub fn new() -> (r: MountTable<F>)
        ensures
            r@ == Seq::<MountPoint<F>>::empty(),
            r.wf(),
    {
        MountTable { mounts: Vec::new() }
    }

    /// A well-formed table has its paths in normal form.
    pub proof fn lemma_wf_paths_normal(&self)
        requires
            self.wf(),
        ensures
            self.paths_normal(),
    {
    }

    fn position(&self, path: &String) -> (r: Option<usize>)
        ensures
            r matches Some(i) ==> i < self@.len() && self@[i as int].path@ == path@
                && forall|j: int| 0 <= j < i ==> self@[j].path@ != path@,
            r is None <==> !has_mount(self@, path@),
    {
        let mut i: usize = 0;
        while i < self.mounts.len()
            invariant
                i <= self@.len(),
                forall|j: int| 0 <= j < i ==> self@[j].path@ != path@,
            decreases self.mounts.len() - i,
        {
            if self.mounts[i].path == *path {
                return Some(i);
            }
            i = i + 1;
        }
        None
    }

    /// Mounts `fs` at the normalised `path`; fails with `AlreadyExists` when
    /// that path is already a mount point.
    pub fn mount(&mut self, path: &str, fs: F, readonly: bool) -> (r: Result<(), FsError>)
        ensures
            old(self).wf() ==> final(self).wf(),
            has_mount(old(self)@, normalize_spec(path@)) ==> r == Err::<(), FsError>(FsError::AlreadyExists)
                && final(self)@ == old(self)@,
            !has_mount(old(self)@, normalize_spec(path@)) ==> r is Ok
                && final(self)@ == old(self)@.push(MountPoint { path: final(self)@.last().path, fs, readonly })
                && final(self)@.last().path@ == normalize_spec(path@),
    {
        let ghost path_arg_view = path@;
        let path = normalize_path(path);
        if let Some(_) = self.position(&path) {
            return Err(FsError::AlreadyExists);
        }
        let mp = MountPoint::new(path.as_str(), fs, readonly);
        proof { lemma_normalize_idempotent(path_arg_view); }
        self.mounts.push(mp);
        Ok(())
    }

    /// Mounts read-write.
    pub fn mount_rw(&mut self, path: &str, fs: F) -> (r: Result<(), FsError>)
        ensures
            old(self).wf() ==> final(self).wf(),
            has_mount(old(self)@, normalize_spec(path@)) ==> r == Err::<(), FsError>(FsError::AlreadyExists)
                && final(self)@ == old(self)@,
            !has_mount(old(self)@, normalize_spec(path@)) ==> r is Ok
                && final(self)@ == old(self)@.push(MountPoint { path: final(self)@.last().path, fs, readonly: false })
                && final(self)@.last().path@ == normalize_spec(path@),
    {
        self.mount(path, fs, false)
    }

    /// Mounts read-only.
    pub fn mount_ro(&mut self, path: &str, fs: F) -> (r: Result<(), FsError>)
        ensures
            old(self).wf() ==> final(self).wf(),
            has_mount(old(self)@, normalize_spec(path@)) ==> r == Err::<(), FsError>(FsError::AlreadyExists)
                && final(self)@ == old(self)@,
            !has_mount(old(self)@, normalize_spec(path@)) ==> r is Ok
                && final(self)@ == old(self)@.push(MountPoint { path: final(self)@.last().path, fs, readonly: true })
                && final(self)@.last().path@ == normalize_spec(path@),
    {
        self.mount(path, fs, true)
    }

    /// Removes the mount point at the normalised `path`; `NotFound` when there is none.
    pub fn unmount(&mut self, path: &str) -> (r: Result<(), FsError>)
        ensures
            old(self).wf() ==> final(self).wf(),
            !has_mount(old(self)@, normalize_spec(path@)) ==> r == Err::<(), FsError>(FsError::NotFound)
                && final(self)@ == old(self)@,
            has_mount(old(self)@, normalize_spec(path@)) ==> r is Ok && exists|i: int|
                0 <= i < old(self)@.len() && old(self)@[i].path@ == normalize_spec(path@)
                && (forall|j: int| 0 <= j < i ==> old(self)@[j].path@ != normalize_spec(path@))
                && final(self)@ == old(self)@.remove(i),
            old(self).wf() ==> !has_mount(final(self)@, normalize_spec(path@)),
    {
        let path = normalize_path(path);
        match self.position(&path) {
            Some(pos) => {
                let ghost before = self@;
                let ghost was_wf = self.wf();
                let _ = self.mounts.remove(pos);
                proof { if was_wf {
                assert forall|i: int, j: int|
                    0 <= i < self.mounts@.len() && 0 <= j < self.mounts@.len() && i != j
                    implies self.mounts@[i].path@ != self.mounts@[j].path@ by {
                    let oi = if i < pos { i } else { i + 1 };
                    let oj = if j < pos { j } else { j + 1 };
                    assert(self.mounts@[i] == before[oi]);
                    assert(self.mounts@[j] == before[oj]);
                }
                assert forall|i: int| 0 <= i < self.mounts@.len() implies self.mounts@[i].path@ != path@ by {
                    let oi = if i < pos { i } else { i + 1 };
                    assert(self.mounts@[i] == before[oi]);
                }
                assert forall|i: int| 0 <= i < self.mounts@.len() implies normalize_spec(#[trigger] self.mounts@[i].path@) == self.mounts@[i].path@ by {
                    let oi = if i < pos { i } else { i + 1 };
                    assert(self.mounts@[i] == before[oi]);
                }
                } }
                Ok(())
            },
            None => Err(FsError::NotFound),
        }
    }

    /// The mount point serving `path` and the path relative to it: among the
    /// mount points that cover the normalised path (`covers`), the one with
    /// the longest path (the earliest among equals).
    pub fn find_fs(&self, path: &str) -> (r: Option<(usize, String)>)
        ensures
            r is None <==> forall|i: int| 0 <= i < self@.len() ==> !(covers(self@[i], normalize_spec(path@))
                && self@[i].path@.len() > 0),
            r matches Some(res) ==> {
                let p = normalize_spec(path@);
                let m = self@[res.0 as int];
                &&& res.0 < self@.len()
                &&& covers(m, p)
                &&& m.path@.len() > 0
                &&& res.1@ == p.subrange(m.path@.len() as int, p.len() as int)
                &&& forall|i: int| 0 <= i < self@.len() && covers(self@[i], p) ==> self@[i].path@.len() <= m.path@.len()
                &&& forall|i: int| 0 <= i < res.0 && covers(self@[i], p) ==> self@[i].path@.len() < m.path@.len()
            },
    {
        let path = normalize_path(path);
        let ghost p = path@;
        let plen = path.as_str().unicode_len();
        let mut best: Option<(usize, String)> = None;
        let mut best_len: usize = 0;
        let mut idx: usize = 0;
        while idx < self.mounts.len()
            invariant
                idx <= self@.len(),
                p == path@,
                plen == p.len(),
                best is None ==> best_len == 0,
                forall|i: int| 0 <= i < idx && covers(self@[i], p) ==> self@[i].path@.len() <= best_len,
                best is None ==> forall|i: int| 0 <= i < idx ==> !(covers(self@[i], p) && self@[i].path@.len() > 0),
                best matches Some(res) ==> {
                    let m = self@[res.0 as int];
                    &&& res.0 < idx
                    &&& covers(m, p)
                    &&& m.path@.len() == best_len
                    &&& best_len > 0
                    &&& res.1@ == p.subrange(m.path@.len() as int, p.len() as int)
                    &&& forall|i: int| 0 <= i < res.0 && covers(self@[i], p) ==> self@[i].path@.len() < best_len
                },
            decreases self.mounts.len() - idx,
        {
            let mp = &self.mounts[idx];
            if starts_with(path.as_str(), mp.path.as_str()) {
                let mlen = mp.path.as_str().unicode_len();
                let boundary = mlen == plen || path.as_str().get_char(mlen) == '/'
                    || (mlen > 0 && mp.path.as_str().get_char(mlen - 1) == '/');
                if boundary && mlen > best_len {
                    let rel = path.as_str().substring_char(mlen, plen);
                    best = Some((idx, String::from_str(rel)));
                    best_len = mlen;
                }
            }
            idx = idx + 1;
        }
        best
    }

    /// The mount point at index `idx`.
    pub fn get(&self, idx: usize) -> (r: &MountPoint<F>)
        requires
            idx < self@.len(),
        ensures
            *r == self@[idx as int],
    {
        &self.mounts[idx]
    }

    /// The mount point at index `idx`, for modification; its path is kept.
    pub fn get_mut(&mut self, idx: usize) -> (r: &mut MountPoint<F>)
        requires
            idx < old(self)@.len(),
        ensures
            *r == old(self)@[idx as int],
            final(self)@ == old(self)@.update(idx as int, *final(r)),
    {
        &mut self.mounts[idx]
    }

    /// One display line per mount point: `path -> fs-name (readonly: flag)`.
    pub fn list(&self) -> (r: Vec<String>)
        ensures
            r@.len() == self@.len(),
            forall|i: int| 0 <= i < self@.len() ==> #[trigger] r@[i]@ == mount_line(self@[i]),
    {
        let mut out: Vec<String> = Vec::new();
        let mut i: usize = 0;
        while i < self.mounts.len()
            invariant
                i <= self@.len(),
                out@.len() == i,
                forall|k: int| 0 <= k < i ==> #[trigger] out@[k]@ == mount_line(self@[k]),
            decreases self.mounts.len() - i,
        {
            let m = &self.mounts[i];
            let mut line = m.path.clone();
            line.append(" -> ");
            line.append(m.fs.name());
            line.append(" (readonly: ");
            line.append(if m.readonly { "true" } else { "false" });
            line.append(")");
            out.push(line);
            i = i + 1;
        }
        out
    }

    /// Whether the normalised `path` is a mount point.
    pub fn is_mounted(&self, path: &str) -> (r: bool)
        ensures
            r == has_mount(self@, normalize_spec(path@)),
    {
        let path = normalize_path(path);
        self.position(&path).is_some()
    }

    /// Number of mount points.
    pub fn count(&self) -> (r: usize)
        ensures
            r == self@.len(),
    {
        self.mounts.len()
    }
}

/// A path component as normalisation leaves it: not empty, free of `/`, and
/// neither `.` nor `..`.
pub open spec fn plain_component(c: Seq<char>) -> bool {
    &&& c.len() > 0
    &&& forall|k: int| 0 <= k < c.len() ==> c[k] != '/'
    &&& c != "."@
    &&& c != ".."@
}

/// Not empty and free of `/`.
pub open spec fn slash_free(c: Seq<char>) -> bool {
    c.len() > 0 && forall|k: int| 0 <= k < c.len() ==> c[k] != '/'
}

proof fn lemma_split_skip(p: Seq<char>, i: int, j: int, start: int, acc: Seq<Seq<char>>)
    requires
        0 <= i <= j <= p.len(),
        forall|k: int| i <= k < j ==> p[k] != '/',
    ensures
        split_from(p, i, start, acc) == split_from(p, j, start, acc),
    decreases j - i,
{
    if i < j {
        lemma_split_skip(p, i + 1, j, start, acc);
    }
}

/// Appending `/c` for a `/`-free, non-empty `c` appends `c` to the components.
proof fn lemma_split_extend(p: Seq<char>, c: Seq<char>, i: int, start: int, acc: Seq<Seq<char>>)
    requires
        slash_free(c),
        0 <= start <= i <= p.len(),
    ensures
        split_from(p + "/"@ + c, i, start, acc) == split_from(p, i, start, acc).push(c),
    decreases p.len() - i,
{
    reveal_strlit("/");
    let q = p + "/"@ + c;
    assert(q.len() == p.len() + 1 + c.len());
    if i == p.len() {
        assert(q[i] == '/');
        let acc2 = if start < i { acc.push(q.subrange(start, i)) } else { acc };
        assert(start < i ==> q.subrange(start, i) =~= p.subrange(start, i));
        assert forall|k: int| i + 1 <= k < q.len() implies q[k] != '/' by {
            assert(q[k] == c[k - i - 1]);
        }
        lemma_split_skip(q, i + 1, q.len() as int, i + 1, acc2);
        assert(q.subrange(i + 1, q.len() as int) =~= c);
    } else {
        assert(q[i] == p[i]);
        if p[i] == '/' {
            assert(start < i ==> q.subrange(start, i) =~= p.subrange(start, i));
            lemma_split_extend(p, c, i + 1, i + 1, if start < i { acc.push(p.subrange(start, i)) } else { acc });
        } else {
            lemma_split_extend(p, c, i + 1, start, acc);
        }
    }
}

/// Every component found by the scan is non-empty and free of `/`.
proof fn lemma_split_slash_free(p: Seq<char>, i: int, start: int, acc: Seq<Seq<char>>)
    requires
        0 <= start <= i <= p.len(),
        forall|k: int| start <= k < i ==> p[k] != '/',
        forall|k: int| 0 <= k < acc.len() ==> slash_free(#[trigger] acc[k]),
    ensures
        forall|k: int| 0 <= k < split_from(p, i, start, acc).len() ==> slash_free(#[trigger] split_from(p, i, start, acc)[k]),
    decreases p.len() - i,
{
    if i >= p.len() {
        if start < p.len() {
            let c = p.subrange(start, p.len() as int);
            assert(slash_free(c));
            assert(split_from(p, i, start, acc) == acc.push(c));
            assert forall|k: int| 0 <= k < acc.push(c).len() implies slash_free(#[trigger] acc.push(c)[k]) by {
                if k < acc.len() { assert(acc.push(c)[k] == acc[k]); }
            }
        } else {
            assert(split_from(p, i, start, acc) == acc);
        }
    } else if p[i] == '/' {
        let acc2 = if start < i { acc.push(p.subrange(start, i)) } else { acc };
        if start < i {
            let c = p.subrange(start, i);
            assert(slash_free(c));
            assert forall|k: int| 0 <= k < acc2.len() implies slash_free(#[trigger] acc2[k]) by {
                if k < acc.len() { assert(acc2[k] == acc[k]); }
            }
        }
        lemma_split_slash_free(p, i + 1, i + 1, acc2);
        assert(split_from(p, i, start, acc) == split_from(p, i + 1, i + 1, acc2));
    } else {
        lemma_split_slash_free(p, i + 1, start, acc);
        assert(split_from(p, i, start, acc) == split_from(p, i + 1, start, acc));
    }
}

proof fn lemma_resolve_plain(cs: Seq<Seq<char>>)
    requires
        forall|k: int| 0 <= k < cs.len() ==> slash_free(#[trigger] cs[k]),
    ensures
        forall|k: int| 0 <= k < resolve_components(cs).len() ==> plain_component(#[trigger] resolve_components(cs)[k]),
    decreases cs.len(),
{
    if cs.len() > 0 {
        let rest = cs.drop_last();
        assert forall|k: int| 0 <= k < rest.len() implies slash_free(#[trigger] rest[k]) by {
            assert(rest[k] == cs[k]);
        }
        lemma_resolve_plain(rest);
        let st = resolve_components(rest);
        let c = cs.last();
        assert(slash_free(cs[cs.len() - 1]));
        if c == "."@ {
        } else if c == ".."@ {
            if st.len() > 0 {
                assert forall|k: int| 0 <= k < st.drop_last().len() implies plain_component(#[trigger] st.drop_last()[k]) by {
                    assert(st.drop_last()[k] == st[k]);
                }
            }
        } else {
            assert forall|k: int| 0 <= k < st.push(c).len() implies plain_component(#[trigger] st.push(c)[k]) by {
                if k < st.len() { assert(st.push(c)[k] == st[k]); }
            }
        }
    }
}

proof fn lemma_resolve_fixed(st: Seq<Seq<char>>)
    requires
        forall|k: int| 0 <= k < st.len() ==> plain_component(#[trigger] st[k]),
    ensures
        resolve_components(st) == st,
    decreases st.len(),
{
    if st.len() > 0 {
        let rest = st.drop_last();
        assert forall|k: int| 0 <= k < rest.len() implies plain_component(#[trigger] rest[k]) by {
            assert(rest[k] == st[k]);
        }
        lemma_resolve_fixed(rest);
        assert(plain_component(st[st.len() - 1]));
        assert(rest.push(st.last()) =~= st);
    }
}

proof fn lemma_components_of_join(st: Seq<Seq<char>>)
    requires
        forall|k: int| 0 <= k < st.len() ==> slash_free(#[trigger] st[k]),
    ensures
        path_components(join_components(st)) == st,
    decreases st.len(),
{
    if st.len() == 0 {
        assert(join_components(st) =~= Seq::<char>::empty());
        assert(path_components(Seq::<char>::empty()) =~= Seq::<Seq<char>>::empty());
    } else {
        let rest = st.drop_last();
        assert forall|k: int| 0 <= k < rest.len() implies slash_free(#[trigger] rest[k]) by {
            assert(rest[k] == st[k]);
        }
        lemma_components_of_join(rest);
        assert(slash_free(st[st.len() - 1]));
        lemma_split_extend(join_components(rest), st.last(), 0, 0, Seq::empty());
        assert(rest.push(st.last()) =~= st);
    }
}

/// Normalising a normalised path changes nothing.
pub proof fn lemma_normalize_idempotent(p: Seq<char>)
    ensures
        normalize_spec(normalize_spec(p)) == normalize_spec(p),
{
    reveal_strlit("/");
    let cs = path_components(p);
    lemma_split_slash_free(p, 0, 0, Seq::empty());
    lemma_resolve_plain(cs);
    let st = resolve_components(cs);
    if st.len() == 0 {
        let root = "/"@;
        assert(path_components(root) =~= Seq::<Seq<char>>::empty()) by {
            assert(root.len() == 1 && root[0] == '/');
            assert(split_from(root, 1, 1, Seq::empty()) =~= Seq::<Seq<char>>::empty());
            assert(split_from(root, 0, 0, Seq::empty()) == split_from(root, 1, 1, Seq::empty()));
        }
    } else {
        assert forall|k: int| 0 <= k < st.len() implies slash_free(#[trigger] st[k]) by {
            assert(plain_component(st[k]));
        }
        lemma_components_of_join(st);
        lemma_resolve_fixed(st);
    }
}

/// `p` begins with `/`, does not end with `/` and has no two `/` in a row.
pub open spec fn clean_absolute(p: Seq<char>) -> bool {
    &&& p.len() > 0
    &&& p[0] == '/'
    &&& p.last() != '/'
    &&& forall|k: int| 0 <= k < p.len() - 1 && #[trigger] p[k] == '/' ==> p[k + 1] != '/'
}

proof fn lemma_join_clean(st: Seq<Seq<char>>)
    requires
        st.len() > 0,
        forall|k: int| 0 <= k < st.len() ==> slash_free(#[trigger] st[k]),
    ensures
        clean_absolute(join_components(st)),
    decreases st.len(),
{
    reveal_strlit("/");
    let rest = st.drop_last();
    let c = st.last();
    assert(slash_free(st[st.len() - 1]));
    let j = join_components(rest);
    let n = join_components(st);
    assert(n == j + "/"@ + c);
    assert(n.len() == j.len() + 1 + c.len());
    assert(n[j.len() as int] == '/');
    assert forall|k: int| 0 <= k < c.len() implies n[j.len() + 1 + k] == c[k] by {}
    assert(n.last() == c.last());
    if rest.len() > 0 {
        assert forall|k: int| 0 <= k < rest.len() implies slash_free(#[trigger] rest[k]) by {
            assert(rest[k] == st[k]);
        }
        lemma_join_clean(rest);
        assert forall|k: int| 0 <= k < j.len() implies n[k] == j[k] by {}
        assert(n[0] == '/');
        assert forall|k: int| 0 <= k < n.len() - 1 && #[trigger] n[k] == '/' implies n[k + 1] != '/' by {
            if k < j.len() - 1 {
                assert(n[k] == j[k] && n[k + 1] == j[k + 1]);
            } else if k == j.len() - 1 {
                assert(n[k] == j.last());
            } else if k == j.len() {
                assert(n[k + 1] == c[0]);
            } else {
                assert(n[k] == c[k - j.len() - 1]);
            }
        }
    } else {
        assert(j =~= Seq::<char>::empty());
        assert(n[0] == '/');
        assert forall|k: int| 0 <= k < n.len() - 1 && #[trigger] n[k] == '/' implies n[k + 1] != '/' by {
            if k == 0 {
                assert(n[1] == c[0]);
            } else {
                assert(n[k] == c[k - 1]);
            }
        }
    }
}

/// What normalisation gives: `/` itself, or a path that begins with `/`,
/// does not end with `/`, has no `//`, and whose components are all plain
/// (none empty, `.` or `..`).  The empty path normalises to `/`.
pub proof fn lemma_normalize_shape(p: Seq<char>)
    ensures
        normalize_spec(p) == "/"@ || clean_absolute(normalize_spec(p)),
        forall|k: int| 0 <= k < path_components(normalize_spec(p)).len()
            ==> plain_component(#[trigger] path_components(normalize_spec(p))[k]),
        normalize_spec(Seq::<char>::empty()) == "/"@,
{
    reveal_strlit("/");
    let cs = path_components(p);
    lemma_split_slash_free(p, 0, 0, Seq::empty());
    lemma_resolve_plain(cs);
    let st = resolve_components(cs);
    if st.len() == 0 {
        let root = "/"@;
        assert(path_components(root) =~= Seq::<Seq<char>>::empty()) by {
            assert(root.len() == 1 && root[0] == '/');
            assert(split_from(root, 1, 1, Seq::empty()) =~= Seq::<Seq<char>>::empty());
            assert(split_from(root, 0, 0, Seq::empty()) == split_from(root, 1, 1, Seq::empty()));
        }
    } else {
        assert forall|k: int| 0 <= k < st.len() implies slash_free(#[trigger] st[k]) by {
            assert(plain_component(st[k]));
        }
        lemma_components_of_join(st);
        lemma_join_clean(st);
    }
    let e = Seq::<char>::empty();
    assert(path_components(e) =~= Seq::<Seq<char>>::empty());
    assert(resolve_components(path_components(e)) =~= Seq::<Seq<char>>::empty());
}

/// Sum of the changes in the number of mount points.
pub open spec fn total_change(d: Seq<int>) -> int
    decreases d.len(),
{
    if d.len() == 0 { 0 } else { total_change(d.drop_last()) + d.last() }
}

/// Over any sequence of calls on a fresh table, each changing the number of
/// mount points by `d[j]` (+1 for a mount that returned `Ok`, -1 for an
/// unmount that returned `Ok`, 0 for a refused call, as their contracts
/// state) and each keeping the paths distinct, the table ends with the
/// paths distinct and as many mount points as the sum of the changes.
/// `ts[j]` is the table after `j` calls.
pub proof fn lemma_count_over_calls<F: FileSystem>(ts: Seq<MountTable<F>>, d: Seq<int>)
    requires
        ts.len() == d.len() + 1,
        ts[0]@.len() == 0,
        ts[0].wf(),
        forall|j: int| 0 <= j < d.len() ==> (#[trigger] ts[j + 1]).wf() || !ts[j].wf(),
        forall|j: int| 0 <= j < d.len() ==> #[trigger] ts[j + 1]@.len() == ts[j]@.len() + d[j],
    ensures
        ts.last().wf(),
        ts.last()@.len() == total_change(d),
    decreases d.len(),
{
    if d.len() > 0 {
        let n = d.len() - 1;
        let ts2 = ts.take(n + 1);
        let d2 = d.take(n);
        assert forall|j: int| 0 <= j < d2.len() implies (#[trigger] ts2[j + 1]).wf() || !ts2[j].wf() by {
            assert(ts2[j + 1] == ts[j + 1] && ts2[j] == ts[j]);
            assert(ts[j + 1].wf() || !ts[j].wf());
        }
        assert forall|j: int| 0 <= j < d2.len() implies #[trigger] ts2[j + 1]@.len() == ts2[j]@.len() + d2[j] by {
            assert(ts2[j + 1] == ts[j + 1] && ts2[j] == ts[j]);
            assert(ts[j + 1]@.len() == ts[j]@.len() + d[j]);
        }
        lemma_count_over_calls(ts2, d2);
        assert(ts2.last() == ts[n]);
        assert(d.drop_last() =~= d2);
        assert(ts[n + 1].wf() || !ts[n].wf());
        assert(ts[n + 1]@.len() == ts[n]@.len() + d[n]);
    }
}

impl<F: FileSystem> Default for MountTable<F> {
    fn default() -> (t: Self)
        ensures
            t@ == Seq::<MountPoint<F>>::empty(),
            t.wf(),
    {
        Self::new()
    }
}

/// After a successful mount the normalised path is a mount point.
pub proof fn lemma_mount_then_mounted<F>(before: Seq<MountPoint<F>>, m: MountPoint<F>)
    ensures
        has_mount(before.push(m), m.path@),
{
    assert(before.push(m)[before.len() as int] == m);
}

/// Unmounting the path just mounted gives back the table as it was before
/// the mount (paths being unique, the mount point removed is the new one).
pub proof fn lemma_mount_unmount_restores<F>(before: Seq<MountPoint<F>>, m: MountPoint<F>, i: int)
    requires
        !has_mount(before, m.path@),
        0 <= i < before.len() + 1,
        before.push(m)[i].path@ == m.path@,
    ensures
        before.push(m).remove(i) == before,
{
    if i < before.len() {
        assert(before[i].path@ == m.path@);
    }
    assert(before.push(m).remove(i) =~= before);
}

} // verus!
