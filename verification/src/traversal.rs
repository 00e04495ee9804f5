//! Directory traversal: its configuration, its statistics, and the decision
//! taken for each item that the directory walk yields.
use vstd::prelude::*;

verus! {

/// Counters kept while a directory is walked.
pub struct TraversalStats {
    processed_count: usize,
    error_count: usize,
    symlink_count: usize,
    depth_skipped_count: usize,
    bytes_processed: u64,
}

/// The counters of a walk at one moment.
#[derive(Clone, Copy, Debug, PartialEq, Eq, Structural)]
pub struct TraversalStatsSnapshot {
    pub processed_count: usize,
    pub error_count: usize,
    pub symlink_count: usize,
    pub depth_skipped_count: usize,
    pub bytes_processed: u64,
}

impl View for TraversalStats {
    type V = TraversalStatsSnapshot;

    closed spec fn view(&self) -> TraversalStatsSnapshot {
        TraversalStatsSnapshot {
            processed_count: self.processed_count,
            error_count: self.error_count,
            symlink_count: self.symlink_count,
            depth_skipped_count: self.depth_skipped_count,
            bytes_processed: self.bytes_processed,
        }
    }
}

/// All counters at zero.
pub open spec fn zero_snapshot() -> TraversalStatsSnapshot {
    TraversalStatsSnapshot {
        processed_count: 0,
        error_count: 0,
        symlink_count: 0,
        depth_skipped_count: 0,
        bytes_processed: 0,
    }
}

impl Default for TraversalStats {
    fn default() -> (s: Self)
        ensures
            s@ == zero_snapshot(),
    {
        TraversalStats::new()
    }
}

impl TraversalStats {
    pub fn new() -> (s: Self)
        ensures
            s@ == zero_snapshot(),
    {
        TraversalStats {
            processed_count: 0,
            error_count: 0,
            symlink_count: 0,
            depth_skipped_count: 0,
            bytes_processed: 0,
        }
    }

    /// One more entry was taken; `size` is its length when its metadata
    /// could be read.
    pub fn record_processed(&mut self, size: Option<u64>)
        requires
            old(self)@.processed_count < usize::MAX,
            size matches Some(n) ==> old(self)@.bytes_processed + n <= u64::MAX,
        ensures
            final(self)@ == (TraversalStatsSnapshot {
                processed_count: (old(self)@.processed_count + 1) as usize,
                bytes_processed: match size {
                    Some(n) => (old(self)@.bytes_processed + n) as u64,
                    None => old(self)@.bytes_processed,
                },
                ..old(self)@
            }),
    {
        self.processed_count = self.processed_count + 1;
        if let Some(n) = size {
            self.bytes_processed = self.bytes_processed + n;
        }
    }

    /// One more entry could not be read.
    pub fn record_error(&mut self)
        requires
            old(self)@.error_count < usize::MAX,
        ensures
            final(self)@ == (TraversalStatsSnapshot {
                error_count: (old(self)@.error_count + 1) as usize,
                ..old(self)@
            }),
    {
        self.error_count = self.error_count + 1;
    }

    /// One more symbolic link was skipped.
    pub fn record_symlink(&mut self)
        requires
            old(self)@.symlink_count < usize::MAX,
        ensures
            final(self)@ == (TraversalStatsSnapshot {
                symlink_count: (old(self)@.symlink_count + 1) as usize,
                ..old(self)@
            }),
    {
        self.symlink_count = self.symlink_count + 1;
    }

    /// One more entry lay beyond the depth limit.
    pub fn record_depth_skipped(&mut self)
        requires
            old(self)@.depth_skipped_count < usize::MAX,
        ensures
            final(self)@ == (TraversalStatsSnapshot {
                depth_skipped_count: (old(self)@.depth_skipped_count + 1) as usize,
                ..old(self)@
            }),
    {
        self.depth_skipped_count = self.depth_skipped_count + 1;
    }

    pub fn snapshot(&self) -> (s: TraversalStatsSnapshot)
        ensures
            s == self@,
    {
        TraversalStatsSnapshot {
            processed_count: self.processed_count,
            error_count: self.error_count,
            symlink_count: self.symlink_count,
            depth_skipped_count: self.depth_skipped_count,
            bytes_processed: self.bytes_processed,
        }
    }
}

/// How a directory is walked.
#[derive(Clone, Debug)]
pub struct TraversalConfig {
    /// The directory the walk starts from.
    pub root: String,
    pub min_depth: usize,
    pub max_depth: usize,
    pub follow_symlinks: bool,
    pub files_only: bool,
    pub dirs_only: bool,
}

impl Default for TraversalConfig {
    /// No root, children of the root and below, any depth, links not followed.
    fn default() -> (c: Self)
        ensures
            c.root@ == Seq::<char>::empty(),
            c.min_depth == 1,
            c.max_depth == usize::MAX,
            !c.follow_symlinks,
            !c.files_only,
            !c.dirs_only,
    {
        TraversalConfig {
            root: String::new(),
            min_depth: 1,
            max_depth: usize::MAX,
            follow_symlinks: false,
            files_only: false,
            dirs_only: false,
        }
    }
}

impl TraversalConfig {
    /// The default configuration with the given root.
    pub fn new(root: String) -> (c: Self)
        ensures
            c.root == root,
            c.min_depth == 1,
            c.max_depth == usize::MAX,
            !c.follow_symlinks,
            !c.files_only,
            !c.dirs_only,
    {
        let d = TraversalConfig::default();
        TraversalConfig { root, ..d }
    }

    pub fn with_max_depth(self, depth: usize) -> (c: Self)
        ensures
            c == (TraversalConfig { max_depth: depth, ..self }),
    {
        let mut c = self;
        c.max_depth = depth;
        c
    }

    pub fn with_follow_symlinks(self, follow: bool) -> (c: Self)
        ensures
            c == (TraversalConfig { follow_symlinks: follow, ..self }),
    {
        let mut c = self;
        c.follow_symlinks = follow;
        c
    }
}

/// Why a walk cannot start, or failed.
pub enum TraversalError {
    PermissionDenied { path: String },
    PathNotFound { path: String },
    NotADirectory { path: String },
    SymlinkResolutionFailed { path: String, message: String },
    WalkDirError { message: String },
    MaxDepthExceeded { max_depth: usize, path: String },
    StackOverflow { current: usize, max: usize },
}

/// Checks the root of a walk from what the file system says of it: it must
/// exist and be a directory.
pub fn check_root(root: &str, exists: bool, is_dir: bool) -> (r: Result<(), TraversalError>)
    ensures
        !exists ==> (r matches Err(TraversalError::PathNotFound { path }) && path@ == root@),
        exists && !is_dir ==> (r matches Err(TraversalError::NotADirectory { path }) && path@
            == root@),
        exists && is_dir ==> r is Ok,
{
    if !exists {
        return Err(TraversalError::PathNotFound { path: root.to_string() });
    }
    if !is_dir {
        return Err(TraversalError::NotADirectory { path: root.to_string() });
    }
    Ok(())
}

/// What the directory walk yielded next.
pub enum WalkItem {
    /// An entry; whether its path is a symbolic link, and its length when
    /// its metadata could be read.
    Entry { is_symlink: bool, size: Option<u64> },
    /// The walk could not read an entry.
    Failed,
    /// The walk is over.
    Done,
}

/// What the walker does with an item.
#[derive(PartialEq, Eq, Structural, Clone, Copy, Debug)]
pub enum WalkStep {
    /// Hand the entry to the caller.
    Yield,
    /// Skip it and ask the walk for the next item.
    Skip,
    /// The walk is over.
    Finish,
}

/// The step taken for an item of the walk.
pub open spec fn walk_step_spec(follow_symlinks: bool, item: WalkItem) -> WalkStep {
    match item {
        WalkItem::Entry { is_symlink, .. } => if !follow_symlinks && is_symlink {
            WalkStep::Skip
        } else {
            WalkStep::Yield
        },
        WalkItem::Failed => WalkStep::Skip,
        WalkItem::Done => WalkStep::Finish,
    }
}

/// The counters after an item of the walk was handled.
pub open spec fn stats_after_item(
    before: TraversalStatsSnapshot,
    follow_symlinks: bool,
    item: WalkItem,
) -> TraversalStatsSnapshot {
    match item {
        WalkItem::Entry { is_symlink, size } => if !follow_symlinks && is_symlink {
            TraversalStatsSnapshot { symlink_count: (before.symlink_count + 1) as usize, ..before }
        } else {
            TraversalStatsSnapshot {
                processed_count: (before.processed_count + 1) as usize,
                bytes_processed: match size {
                    Some(n) => (before.bytes_processed + n) as u64,
                    None => before.bytes_processed,
                },
                ..before
            }
        },
        WalkItem::Failed => TraversalStatsSnapshot {
            error_count: (before.error_count + 1) as usize,
            ..before
        },
        WalkItem::Done => before,
    }
}

impl TraversalStats {
    /// Handles one item of the walk: a symbolic link that is not followed is
    /// counted and skipped, an entry is counted and handed out, a failure is
    /// counted and skipped.
    pub fn on_walk_item(&mut self, follow_symlinks: bool, item: WalkItem) -> (step: WalkStep)
        requires
            old(self)@.processed_count < usize::MAX,
            old(self)@.error_count < usize::MAX,
            old(self)@.symlink_count < usize::MAX,
            item matches WalkItem::Entry { size: Some(n), .. } ==> old(self)@.bytes_processed + n
                <= u64::MAX,
        ensures
            step == walk_step_spec(follow_symlinks, item),
            final(self)@ == stats_after_item(old(self)@, follow_symlinks, item),
    {
        match item {
            WalkItem::Entry { is_symlink, size } => {
                if !follow_symlinks && is_symlink {
                    self.record_symlink();
                    WalkStep::Skip
                } else {
                    self.record_processed(size);
                    WalkStep::Yield
                }
            },
            WalkItem::Failed => {
                self.record_error();
                WalkStep::Skip
            },
            WalkItem::Done => WalkStep::Finish,
        }
    }
}

/// Each step of a walk moves exactly one counter, and only the entries that
/// are handed out move the processed count.
pub proof fn law_each_walk_item_counted_once(
    before: TraversalStatsSnapshot,
    after: TraversalStatsSnapshot,
    follow_symlinks: bool,
    item: WalkItem,
    step: WalkStep,
)
    requires
        step == walk_step_spec(follow_symlinks, item),
        after == stats_after_item(before, follow_symlinks, item),
        before.processed_count < usize::MAX,
        before.error_count < usize::MAX,
        before.symlink_count < usize::MAX,
    ensures
        (step == WalkStep::Yield) <==> after.processed_count == before.processed_count + 1,
        step == WalkStep::Finish ==> after == before,
        after.processed_count + after.error_count + after.symlink_count == before.processed_count
            + before.error_count + before.symlink_count + if step == WalkStep::Finish {
            0int
        } else {
            1int
        },
        after.depth_skipped_count == before.depth_skipped_count,
{
}

/// The counters after the items of a walk were handled in turn.
pub open spec fn stats_after_items(
    before: TraversalStatsSnapshot,
    follow_symlinks: bool,
    items: Seq<WalkItem>,
) -> TraversalStatsSnapshot
    decreases items.len(),
{
    if items.len() == 0 {
        before
    } else {
        stats_after_item(
            stats_after_items(before, follow_symlinks, items.drop_last()),
            follow_symlinks,
            items.last(),
        )
    }
}

/// How many of the items are symbolic links that are not followed.
pub open spec fn unfollowed_links(follow_symlinks: bool, items: Seq<WalkItem>) -> nat
    decreases items.len(),
{
    if items.len() == 0 {
        0
    } else {
        unfollowed_links(follow_symlinks, items.drop_last()) + match items.last() {
            WalkItem::Entry { is_symlink, .. } => if !follow_symlinks && is_symlink {
                1nat
            } else {
                0nat
            },
            _ => 0nat,
        }
    }
}

/// How many of the items are entries the walk could not read.
pub open spec fn failed_items(items: Seq<WalkItem>) -> nat
    decreases items.len(),
{
    if items.len() == 0 {
        0
    } else {
        failed_items(items.drop_last()) + match items.last() {
            WalkItem::Failed => 1nat,
            _ => 0nat,
        }
    }
}

proof fn lemma_skipped_run(before: TraversalStatsSnapshot, follow_symlinks: bool, items: Seq<WalkItem>)
    requires
        forall|i: int| 0 <= i < items.len() ==> walk_step_spec(follow_symlinks, #[trigger] items[i])
            == WalkStep::Skip,
        before.symlink_count + items.len() <= usize::MAX,
        before.error_count + items.len() <= usize::MAX,
    ensures
        stats_after_items(before, follow_symlinks, items) == (TraversalStatsSnapshot {
            symlink_count: (before.symlink_count + unfollowed_links(follow_symlinks, items)) as usize,
            error_count: (before.error_count + failed_items(items)) as usize,
            ..before
        }),
        unfollowed_links(follow_symlinks, items) + failed_items(items) == items.len(),
    decreases items.len(),
{
    if items.len() > 0 {
        let init = items.drop_last();
        assert forall|i: int| 0 <= i < init.len() implies walk_step_spec(
            follow_symlinks,
            #[trigger] init[i],
        ) == WalkStep::Skip by {
            assert(init[i] == items[i]);
        }
        lemma_skipped_run(before, follow_symlinks, init);
        assert(walk_step_spec(follow_symlinks, items[items.len() - 1]) == WalkStep::Skip);
    }
}

/// A call that hands out the next entry counts what it passed over: after
/// a run of items that are skipped (links not followed, unreadable
/// entries) and the item that ends the call, the symbolic-link and error
/// counts have grown by the links and failures skipped, the processed count
/// by one exactly when the last item is handed out, and nothing else moved
/// but the bytes of that entry.
pub proof fn law_skipped_items_are_counted(
    before: TraversalStatsSnapshot,
    follow_symlinks: bool,
    skipped: Seq<WalkItem>,
    last: WalkItem,
)
    requires
        forall|i: int| 0 <= i < skipped.len() ==> walk_step_spec(follow_symlinks, #[trigger] skipped[i])
            == WalkStep::Skip,
        walk_step_spec(follow_symlinks, last) != WalkStep::Skip,
        before.symlink_count + skipped.len() <= usize::MAX,
        before.error_count + skipped.len() <= usize::MAX,
        before.processed_count < usize::MAX,
    ensures
        ({
            let after = stats_after_items(before, follow_symlinks, skipped.push(last));
            &&& after.symlink_count == before.symlink_count + unfollowed_links(follow_symlinks, skipped)
            &&& after.error_count == before.error_count + failed_items(skipped)
            &&& unfollowed_links(follow_symlinks, skipped) + failed_items(skipped) == skipped.len()
            &&& after.processed_count == before.processed_count + if walk_step_spec(
                follow_symlinks,
                last,
            ) == WalkStep::Yield {
                1int
            } else {
                0int
            }
            &&& after.depth_skipped_count == before.depth_skipped_count
            &&& walk_step_spec(follow_symlinks, last) == WalkStep::Finish ==> after.bytes_processed
                == before.bytes_processed
        }),
{
    lemma_skipped_run(before, follow_symlinks, skipped);
    assert(skipped.push(last).drop_last() =~= skipped);
}

} // verus!
