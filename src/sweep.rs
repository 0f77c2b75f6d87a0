use vstd::prelude::*;

verus! {

/// The instant before which a cache file counts as expired: `max_age_secs`
/// before `now_secs`, or the epoch when the age reaches back further.
pub open spec fn cutoff_spec(now_secs: u64, max_age_secs: u64) -> u64 {
    if max_age_secs <= now_secs {
        (now_secs - max_age_secs) as u64
    } else {
        0
    }
}

/// Seconds since the epoch before which a cache file is old enough to delete.
pub fn expiry_cutoff(now_secs: u64, max_age_secs: u64) -> (r: u64)
    ensures
        r == cutoff_spec(now_secs, max_age_secs),
{
    now_secs.saturating_sub(max_age_secs)
}

/// Whether a file whose status last changed at `ctime_secs` is older than
/// `cutoff`. A time before the epoch is read as its two's-complement bits.
pub open spec fn expired_spec(ctime_secs: i64, cutoff: u64) -> bool {
    if ctime_secs >= 0 {
        ctime_secs < cutoff
    } else {
        ctime_secs + 0x1_0000_0000_0000_0000int < cutoff
    }
}

/// Whether a cache file whose status last changed at `ctime_secs` is to be
/// deleted.
pub fn should_delete(ctime_secs: i64, cutoff: u64) -> (r: bool)
    ensures
        r == expired_spec(ctime_secs, cutoff),
{
    if ctime_secs >= 0 {
        (ctime_secs as u64) < cutoff
    } else {
        let bits: u64 = u64::MAX - ((-(ctime_secs + 1)) as u64);
        bits < cutoff
    }
}

/// The kind of one entry met while walking the cache.
#[derive(Clone, Copy, Debug, PartialEq, Eq, Structural)]
pub enum EntryKind {
    Dir,
    File,
    Other,
}

/// What to do with one entry.
#[derive(Clone, Copy, Debug, PartialEq, Eq, Structural)]
pub enum EntryAction {
    /// Walk into the directory later.
    Descend,
    /// Remove the file.
    Delete,
    /// Leave the file.
    Keep,
    /// Leave the entry, neither directory nor file, uncounted.
    Skip,
}

/// The action that an entry calls for.
pub open spec fn entry_action(kind: EntryKind, ctime_secs: i64, cutoff: u64) -> EntryAction {
    match kind {
        EntryKind::Dir => EntryAction::Descend,
        EntryKind::File => if expired_spec(ctime_secs, cutoff) {
            EntryAction::Delete
        } else {
            EntryAction::Keep
        },
        EntryKind::Other => EntryAction::Skip,
    }
}

/// `n + 1`, or `n` where that does not fit.
pub open spec fn bump(n: u64, by: bool) -> u64 {
    if by && n < u64::MAX {
        (n + 1) as u64
    } else {
        n
    }
}

/// Counts of one sweep of the cache.
pub struct SweepTally {
    dirs: u64,
    files: u64,
    deleted: u64,
}

impl SweepTally {
    pub closed spec fn dirs_spec(&self) -> u64 {
        self.dirs
    }

    pub closed spec fn files_spec(&self) -> u64 {
        self.files
    }

    pub closed spec fn deleted_spec(&self) -> u64 {
        self.deleted
    }

    pub fn new() -> (r: SweepTally)
        ensures
            r.dirs_spec() == 0,
            r.files_spec() == 0,
            r.deleted_spec() == 0,
    {
        SweepTally { dirs: 0, files: 0, deleted: 0 }
    }

    /// Directories met below the cache root.
    pub fn dirs(&self) -> (r: u64)
        ensures
            r == self.dirs_spec(),
    {
        self.dirs
    }

    /// Files met.
    pub fn files(&self) -> (r: u64)
        ensures
            r == self.files_spec(),
    {
        self.files
    }

    /// Files to delete.
    pub fn deleted(&self) -> (r: u64)
        ensures
            r == self.deleted_spec(),
    {
        self.deleted
    }

    /// Decides on one entry of the walk and counts it.
    pub fn visit(&mut self, kind: EntryKind, ctime_secs: i64, cutoff: u64) -> (r: EntryAction)
        ensures
            r == entry_action(kind, ctime_secs, cutoff),
            final(self).dirs_spec() == bump(old(self).dirs_spec(), kind == EntryKind::Dir),
            final(self).files_spec() == bump(old(self).files_spec(), kind == EntryKind::File),
            final(self).deleted_spec() == bump(old(self).deleted_spec(), r == EntryAction::Delete),
    {
        match kind {
            EntryKind::Dir => {
                self.dirs = self.dirs.saturating_add(1);
                EntryAction::Descend
            },
            EntryKind::File => {
                self.files = self.files.saturating_add(1);
                if should_delete(ctime_secs, cutoff) {
                    self.deleted = self.deleted.saturating_add(1);
                    EntryAction::Delete
                } else {
                    EntryAction::Keep
                }
            },
            EntryKind::Other => EntryAction::Skip,
        }
    }
}

} // verus!
