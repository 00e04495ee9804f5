//! Resources held during extraction: open file handles per workspace, the
//! age rule for temporary files, cleanup statistics and managed buffers.
use vstd::prelude::*;
use crate::errors::AppError;
use crate::pathname::{path_join, path_join_of};
use crate::text::str_eq;

verus! {

/// Temporary files live this long by default: one day, in nanoseconds.
pub const DEFAULT_TEMP_TTL_NANOS: u128 = 86_400_000_000_000;

/// A file handle being tracked.
pub struct FileHandle {
    pub path: String,
    pub workspace_id: String,
}

/// Keeps track of open file handles and of the temporary-file lifetime.
pub struct ResourceManager {
    temp_base_dir: String,
    temp_ttl_nanos: u128,
    active_handles: Vec<FileHandle>,
}

/// The handles as (path, workspace) pairs.
pub open spec fn handles_view(v: Seq<FileHandle>) -> Seq<(Seq<char>, Seq<char>)> {
    v.map_values(|h: FileHandle| (h.path@, h.workspace_id@))
}

/// The handles of other workspaces, in order.
pub open spec fn without_workspace(
    hs: Seq<(Seq<char>, Seq<char>)>,
    ws: Seq<char>,
) -> Seq<(Seq<char>, Seq<char>)> {
    hs.filter(not_of_workspace(ws))
}

pub open spec fn not_of_workspace(ws: Seq<char>) -> spec_fn((Seq<char>, Seq<char>)) -> bool {
    |h: (Seq<char>, Seq<char>)| h.1 != ws
}

pub open spec fn not_on_path(path: Seq<char>) -> spec_fn((Seq<char>, Seq<char>)) -> bool {
    |h: (Seq<char>, Seq<char>)| h.0 != path
}

proof fn lemma_filter_push<A>(s: Seq<A>, x: A, p: spec_fn(A) -> bool)
    ensures
        s.push(x).filter(p) == if p(x) { s.filter(p).push(x) } else { s.filter(p) },
{
    reveal(Seq::filter);
    assert(s.push(x).drop_last() =~= s);
}

/// The handles on other paths, in order.
pub open spec fn without_path(
    hs: Seq<(Seq<char>, Seq<char>)>,
    path: Seq<char>,
) -> Seq<(Seq<char>, Seq<char>)> {
    hs.filter(not_on_path(path))
}

impl ResourceManager {
    /// The tracked handles, oldest first.
    pub closed spec fn handles(&self) -> Seq<(Seq<char>, Seq<char>)> {
        handles_view(self.active_handles@)
    }

    pub closed spec fn ttl(&self) -> u128 {
        self.temp_ttl_nanos
    }

    pub closed spec fn base_dir(&self) -> Seq<char> {
        self.temp_base_dir@
    }

    /// A manager for temporary files under `temp_base_dir` that live
    /// `temp_ttl_nanos` (one day when not given).
    pub fn new(temp_base_dir: String, temp_ttl_nanos: Option<u128>) -> (m: Self)
        ensures
            m.handles() == Seq::<(Seq<char>, Seq<char>)>::empty(),
            m.ttl() == match temp_ttl_nanos {
                Some(t) => t,
                None => DEFAULT_TEMP_TTL_NANOS,
            },
            m.base_dir() == temp_base_dir@,
    {
        let ttl = match temp_ttl_nanos {
            Some(t) => t,
            None => DEFAULT_TEMP_TTL_NANOS,
        };
        let m = ResourceManager { temp_base_dir, temp_ttl_nanos: ttl, active_handles: Vec::new() };
        assert(m.handles() =~= Seq::<(Seq<char>, Seq<char>)>::empty());
        m
    }

    pub fn temp_ttl(&self) -> (t: u128)
        ensures
            t == self.ttl(),
    {
        self.temp_ttl_nanos
    }

    pub fn temp_base_dir(&self) -> (d: &str)
        ensures
            d@ == self.base_dir(),
    {
        self.temp_base_dir.as_str()
    }

    /// The temporary directory of a workspace: `<base>/<workspace>/temp`.
    pub fn get_workspace_temp_dir(&self, workspace_id: &str) -> (d: String)
        ensures
            d@ == path_join_of(path_join_of(self.base_dir(), workspace_id@), "temp"@),
    {
        let ws = path_join(self.temp_base_dir.as_str(), workspace_id);
        path_join(ws.as_str(), "temp")
    }

    /// Where a cleanup of temporary files starts: the workspace's temporary
    /// directory, or the whole base directory when no workspace is named.
    pub fn temp_cleanup_root(&self, workspace_id: Option<&str>) -> (d: String)
        ensures
            d@ == match workspace_id {
                Some(ws) => path_join_of(path_join_of(self.base_dir(), ws@), "temp"@),
                None => self.base_dir(),
            },
    {
        match workspace_id {
            Some(ws) => self.get_workspace_temp_dir(ws),
            None => copy_string(&self.temp_base_dir),
        }
    }

    pub fn active_handle_count(&self) -> (n: usize)
        ensures
            n == self.handles().len(),
    {
        self.active_handles.len()
    }

    /// Starts tracking a handle on `path` for `workspace_id`.
    pub fn register_file_handle(&mut self, path: String, workspace_id: String)
        ensures
            final(self).handles() == old(self).handles().push((path@, workspace_id@)),
            final(self).ttl() == old(self).ttl(),
            final(self).base_dir() == old(self).base_dir(),
    {
        self.active_handles.push(FileHandle { path, workspace_id });
        assert(handles_view(self.active_handles@) =~= handles_view(old(self).active_handles@).push(
            (path@, workspace_id@),
        ));
    }

    /// Stops tracking every handle on `path`.
    pub fn unregister_file_handle(&mut self, path: &str)
        ensures
            final(self).handles() == without_path(old(self).handles(), path@),
            final(self).ttl() == old(self).ttl(),
            final(self).base_dir() == old(self).base_dir(),
    {
        self.retain_handles(path, false);
    }

    /// Stops tracking every handle of a workspace and says how many there were.
    pub fn release_workspace_handles(&mut self, workspace_id: &str) -> (r: Result<usize, AppError>)
        ensures
            final(self).handles() == without_workspace(old(self).handles(), workspace_id@),
            r matches Ok(n) && n == old(self).handles().len() - final(self).handles().len(),
            final(self).ttl() == old(self).ttl(),
            final(self).base_dir() == old(self).base_dir(),
    {
        let initial_count = self.active_handles.len();
        self.retain_handles(workspace_id, true);
        proof {
            old(self).handles().lemma_filter_len(not_of_workspace(workspace_id@));
        }
        Ok(initial_count - self.active_handles.len())
    }

    /// Keeps the handles whose workspace (or path) differs from `key`.
    fn retain_handles(&mut self, key: &str, by_workspace: bool)
        ensures
            final(self).handles() == old(self).handles().filter(
                if by_workspace {
                    not_of_workspace(key@)
                } else {
                    not_on_path(key@)
                },
            ),
            final(self).ttl() == old(self).ttl(),
            final(self).base_dir() == old(self).base_dir(),
    {
        let ghost p = if by_workspace {
            not_of_workspace(key@)
        } else {
            not_on_path(key@)
        };
        let mut kept: Vec<FileHandle> = Vec::new();
        let mut i: usize = 0;
        while i < self.active_handles.len()
            invariant
                i <= self.active_handles.len(),
                p == (if by_workspace {
                    not_of_workspace(key@)
                } else {
                    not_on_path(key@)
                }),
                handles_view(kept@) == handles_view(self.active_handles@.take(i as int)).filter(p),
            decreases self.active_handles.len() - i,
        {
            let h = &self.active_handles[i];
            let ghost hv = handles_view(self.active_handles@.take(i as int));
            let ghost e = (h.path@, h.workspace_id@);
            assert(handles_view(self.active_handles@.take((i + 1) as int)) =~= hv.push(e));
            proof {
                lemma_filter_push(hv, e, p);
            }
            let same = if by_workspace {
                str_eq(h.workspace_id.as_str(), key)
            } else {
                str_eq(h.path.as_str(), key)
            };
            if !same {
                kept.push(FileHandle { path: copy_string(&h.path), workspace_id: copy_string(&h.workspace_id) });
                assert(handles_view(kept@) =~= hv.filter(p).push(e));
            }
            i = i + 1;
        }
        assert(self.active_handles@.take(self.active_handles.len() as int) =~= self.active_handles@);
        self.active_handles = kept;
    }

    /// Whether a temporary file of the given age (in nanoseconds; `None`
    /// when it cannot be told) has outlived the TTL and is to be removed.
    pub fn is_expired(&self, age_nanos: Option<u128>) -> (r: bool)
        ensures
            r == (age_nanos matches Some(a) && a > self.ttl()),
    {
        match age_nanos {
            Some(a) => a > self.temp_ttl_nanos,
            None => false,
        }
    }
}

/// Releasing a workspace's handles leaves none of them, keeps every other
/// handle in order, and a second release finds nothing.
pub proof fn law_release_is_complete(hs: Seq<(Seq<char>, Seq<char>)>, ws: Seq<char>)
    ensures
        forall|i: int|
            0 <= i < without_workspace(hs, ws).len() ==> (#[trigger] without_workspace(hs, ws)[i]).1
                != ws,
        without_workspace(without_workspace(hs, ws), ws) == without_workspace(hs, ws),
        forall|h: (Seq<char>, Seq<char>)|
            hs.contains(h) && h.1 != ws ==> #[trigger] without_workspace(hs, ws).contains(h),
    decreases hs.len(),
{
    broadcast use vstd::seq_lib::group_filter_ensures;
    lemma_filter_idempotent(hs, not_of_workspace(ws));
}

proof fn lemma_filter_idempotent<A>(s: Seq<A>, p: spec_fn(A) -> bool)
    ensures
        s.filter(p).filter(p) == s.filter(p),
    decreases s.len(),
{
    reveal(Seq::filter);
    if s.len() > 0 {
        lemma_filter_idempotent(s.drop_last(), p);
        if p(s.last()) {
            lemma_filter_push(s.drop_last().filter(p), s.last(), p);
        }
    }
}

/// A copy of a string.
fn copy_string(s: &String) -> (r: String)
    ensures
        r@ == s@,
{
    s.as_str().to_string()
}

/// What a workspace cleanup removed.
#[derive(Clone, Copy, Debug)]
pub struct CleanupStats {
    pub handles_released: usize,
    pub mappings_removed: usize,
    pub temp_files_removed: usize,
    pub cleanup_duration_ms: u64,
}

impl Default for CleanupStats {
    fn default() -> (c: Self)
        ensures
            c.handles_released == 0,
            c.mappings_removed == 0,
            c.temp_files_removed == 0,
            c.cleanup_duration_ms == 0,
    {
        CleanupStats { handles_released: 0, mappings_removed: 0, temp_files_removed: 0, cleanup_duration_ms: 0 }
    }
}

/// A zero-filled byte buffer with a name.
pub struct ManagedBuffer {
    buffer: Vec<u8>,
    name: String,
}

impl ManagedBuffer {
    /// The bytes of the buffer.
    pub closed spec fn bytes(&self) -> Seq<u8> {
        self.buffer@
    }

    pub closed spec fn label(&self) -> Seq<char> {
        self.name@
    }

    /// A buffer of `size` zero bytes.
    pub fn new(size: usize, name: String) -> (b: Self)
        ensures
            b.bytes() == Seq::new(size as nat, |i: int| 0u8),
            b.label() == name@,
    {
        let mut buffer: Vec<u8> = Vec::with_capacity(size);
        let mut i: usize = 0;
        while i < size
            invariant
                i <= size,
                buffer@ == Seq::new(i as nat, |j: int| 0u8),
            decreases size - i,
        {
            buffer.push(0u8);
            i = i + 1;
            assert(buffer@ =~= Seq::new(i as nat, |j: int| 0u8));
        }
        ManagedBuffer { buffer, name }
    }

    pub fn as_mut_slice(&mut self) -> (s: &mut [u8])
        ensures
            s@ == old(self).bytes(),
            final(self).bytes() == final(s)@,
            final(self).label() == old(self).label(),
    {
        self.buffer.as_mut_slice()
    }

    pub fn as_slice(&self) -> (s: &[u8])
        ensures
            s@ == self.bytes(),
    {
        self.buffer.as_slice()
    }

    pub fn len(&self) -> (n: usize)
        ensures
            n == self.bytes().len(),
    {
        self.buffer.len()
    }

    pub fn is_empty(&self) -> (r: bool)
        ensures
            r == (self.bytes().len() == 0),
    {
        self.buffer.len() == 0
    }
}

} // verus!
