use crate::clock::{stampable, utc_compact_of, WallTime};
use crate::declutter::{
    archive_decision_at, archive_dir_spec, archive_path, archived_as_named, archived_name,
    delete_file, due, move_to_archive, reaped,
    ArchiveMove, DirConfig, MoveView, Removal, ARCHIVE_DIR_NAME,
};
use crate::paths::{join_spec, plain_name};
use crate::scan::{list_dir_with_meta, scan_spec, DirEntryWithAge, EntryView, RawEntry};
use crate::DeclutterError;
use vstd::prelude::*;

verus! {

/// Where a declutter run stands: which filesystem operation it waits for.
#[derive(Clone, Copy, Debug, PartialEq, Eq, Structural)]
pub enum Phase {
    /// The archive folder is being created.
    AwaitArchive,
    /// The target directory is being listed.
    AwaitTargetListing,
    /// An entry is being moved into the archive.
    AwaitMove,
    /// The archive folder is being listed.
    AwaitArchiveListing,
    /// An archived entry is being removed.
    AwaitRemoval,
    /// The run is over.
    Finished,
}

/// What the caller reports of the operation the run asked for.
#[derive(Clone, Debug)]
pub enum Event {
    /// The operation succeeded.
    Done,
    /// The operation failed.
    Failed,
    /// The directory was listed; `dir_is_dir` is false where the path is not an
    /// existing directory, and `listing` is then empty.
    Listed { dir_is_dir: bool, listing: Vec<RawEntry> },
}

/// The operation the caller performs next.
#[derive(Debug)]
pub enum Action {
    /// Create the archive folder at this path, with missing parents.
    CreateArchive(String),
    /// List the immediate children of this directory.
    List(String),
    /// Rename the entry into the archive.
    Move(ArchiveMove),
    /// Remove the archived entry.
    Remove(Removal),
    /// The run ends with this result.
    Finish(Result<(), DeclutterError>),
    /// The run ends because the operation just performed failed.
    Abort,
}

/// One declutter run over one configured directory. It creates the archive
/// folder, scans the directory without the archive, moves each entry at the
/// archive threshold into the archive, then scans the archive and removes
/// each entry at the deletion threshold. Every failure ends the run.
pub struct DeclutterRun {
    pub cfg: DirConfig,
    pub phase: Phase,
    /// The entries of the pass in progress.
    pub entries: Vec<DirEntryWithAge>,
    /// How many of `entries` have been decided.
    pub next: usize,
}

impl DeclutterRun {
    /// The decided entries are among the entries of the pass.
    pub open spec fn wf(&self) -> bool {
        self.next <= self.entries@.len()
    }

    /// None of the entries from `lo` up to `hi` has reached the archive
    /// threshold.
    pub open spec fn none_archive_due(&self, lo: int, hi: int) -> bool {
        forall|i: int| lo <= i < hi ==> !(#[trigger] archive_due(self.cfg, self.entries@[i]@))
    }

    /// None of the entries from `lo` up to `hi` has reached the deletion
    /// threshold.
    pub open spec fn none_reaped(&self, lo: int, hi: int) -> bool {
        forall|i: int| lo <= i < hi ==> !(#[trigger] reaped(self.cfg, self.entries@[i]@))
    }

    /// The last entry decided.
    pub open spec fn last_decided(&self) -> EntryView {
        self.entries@[self.next - 1]@
    }

    /// The content of the entries of the pass in progress.
    pub open spec fn entries_view(&self) -> Seq<EntryView> {
        self.entries@.map_values(|e: DirEntryWithAge| e@)
    }

    /// `post` is the run after it decided the archival of its entries from
    /// `from` on: those it passed over are below the archive threshold, and the
    /// action is the move of the last one it decided or the error that entry
    /// gave, both as decided at the instant of the move, or, once all are
    /// decided, the listing of the archive.
    pub open spec fn archive_progress(post: DeclutterRun, a: Action, from: int) -> bool {
        &&& post.wf()
        &&& from <= post.next
        &&& match a {
            Action::Move(m) => {
                &&& post.phase == Phase::AwaitMove
                &&& from < post.next
                &&& post.none_archive_due(from, post.next - 1)
                &&& exists|now: WallTime|
                    #![trigger now.wf()]
                    {
                        &&& now.wf()
                        &&& archive_decision_at(post.cfg, post.last_decided(), now)
                            == Ok::<Option<MoveView>, DeclutterError>(Some(m@))
                        &&& stampable(now.secs) ==> archived_as_named(
                            post.cfg,
                            post.last_decided(),
                            utc_compact_of(now.secs),
                            Ok(Some(m@)),
                        )
                    }
            },
            Action::Finish(Err(e)) => {
                &&& post.phase == Phase::Finished
                &&& from < post.next
                &&& post.none_archive_due(from, post.next - 1)
                &&& archive_due(post.cfg, post.last_decided())
                &&& exists|now: WallTime|
                    #![trigger now.wf()]
                    now.wf() && archive_decision_at(post.cfg, post.last_decided(), now)
                        == Err::<Option<MoveView>, DeclutterError>(e)
            },
            Action::List(d) => {
                &&& post.phase == Phase::AwaitArchiveListing
                &&& post.next == post.entries@.len()
                &&& post.none_archive_due(from, post.next as int)
                &&& d@ == archive_dir_spec(post.cfg)
            },
            _ => false,
        }
    }

    /// `post` is the run after it decided the removal of its archive entries
    /// from `from` on: those it passed over are below the deletion threshold,
    /// and the action is the removal of the last one it decided or, once all
    /// are decided, the successful end of the run.
    pub open spec fn reap_progress(post: DeclutterRun, a: Action, from: int) -> bool {
        &&& post.wf()
        &&& from <= post.next
        &&& match a {
            Action::Remove(r) => {
                let e = post.entries@[post.next - 1];
                &&& post.phase == Phase::AwaitRemoval
                &&& from < post.next
                &&& post.none_reaped(from, post.next - 1)
                &&& reaped(post.cfg, e@)
                &&& match r {
                    Removal::Directory(p) => e.is_dir && p@ == e.path@,
                    Removal::File(p) => !e.is_dir && p@ == e.path@,
                }
            },
            Action::Finish(Ok(())) => {
                &&& post.phase == Phase::Finished
                &&& post.next == post.entries@.len()
                &&& post.none_reaped(from, post.next as int)
            },
            _ => false,
        }
    }
}

/// The entry has reached the archive threshold of the configuration.
pub open spec fn archive_due(cfg: DirConfig, e: EntryView) -> bool {
    due(e.age as int, cfg.time_to_archive_hours as int)
}

impl DeclutterRun {
    /// Starts a run over the configured directory: its first operation is the
    /// creation of the archive folder.
    pub fn start(cfg: DirConfig) -> (r: (DeclutterRun, Action))
        ensures
            r.0.cfg == cfg,
            r.0.phase == Phase::AwaitArchive,
            r.0.wf(),
            r.1 matches Action::CreateArchive(p) && p@ == archive_dir_spec(cfg),
    {
        let p = archive_path(&cfg);
        let run = DeclutterRun { cfg, phase: Phase::AwaitArchive, entries: Vec::new(), next: 0 };
        (run, Action::CreateArchive(p))
    }

    /// Decides the archival of the remaining entries up to the first one that
    /// is moved or fails.
    fn advance_archive(&mut self) -> (a: Action)
        requires
            old(self).wf(),
        ensures
            final(self).cfg == old(self).cfg,
            final(self).entries == old(self).entries,
            Self::archive_progress(*final(self), a, old(self).next as int),
    {
        while self.next < self.entries.len()
            invariant
                self.wf(),
                self.cfg == old(self).cfg,
                self.entries == old(self).entries,
                old(self).next <= self.next,
                self.none_archive_due(old(self).next as int, self.next as int),
            decreases self.entries@.len() - self.next,
        {
            let i = self.next;
            self.next = i + 1;
            let r = move_to_archive(&self.cfg, &self.entries[i]);
            match r {
                Ok(None) => {},
                Ok(Some(m)) => {
                    self.phase = Phase::AwaitMove;
                    return Action::Move(m);
                },
                Err(e) => {
                    self.phase = Phase::Finished;
                    return Action::Finish(Err(e));
                },
            }
        }
        self.phase = Phase::AwaitArchiveListing;
        Action::List(archive_path(&self.cfg))
    }

    /// Decides the removal of the remaining archive entries up to the first
    /// one that is removed.
    fn advance_reap(&mut self) -> (a: Action)
        requires
            old(self).wf(),
        ensures
            final(self).cfg == old(self).cfg,
            final(self).entries == old(self).entries,
            Self::reap_progress(*final(self), a, old(self).next as int),
    {
        while self.next < self.entries.len()
            invariant
                self.wf(),
                self.cfg == old(self).cfg,
                self.entries == old(self).entries,
                old(self).next <= self.next,
                self.none_reaped(old(self).next as int, self.next as int),
            decreases self.entries@.len() - self.next,
        {
            let i = self.next;
            self.next = i + 1;
            if let Some(r) = delete_file(&self.cfg, &self.entries[i]) {
                self.phase = Phase::AwaitRemoval;
                return Action::Remove(r);
            }
        }
        self.phase = Phase::Finished;
        Action::Finish(Ok(()))
    }

    /// Takes the caller's report of the operation last asked for and returns
    /// the next one. A failed operation, or a report that does not answer the
    /// operation asked for, ends the run with `Abort`; a listed path that is
    /// not a directory ends it with `DirectoryNotFound`.
    pub fn step(&mut self, event: Event) -> (a: Action)
        requires
            old(self).wf(),
            old(self).phase != Phase::Finished,
        ensures
            final(self).wf(),
            final(self).cfg == old(self).cfg,
            a is Abort ==> final(self).phase == Phase::Finished,
            a is Finish ==> final(self).phase == Phase::Finished,
            old(self).phase == Phase::AwaitArchive ==> if event is Done {
                &&& a matches Action::List(d) && d@ == old(self).cfg.path@
                &&& final(self).phase == Phase::AwaitTargetListing
            } else {
                a is Abort
            },
            old(self).phase == Phase::AwaitTargetListing ==> match event {
                Event::Listed { dir_is_dir, listing } => if !dir_is_dir {
                    a == Action::Finish(Err(DeclutterError::DirectoryNotFound))
                } else {
                    &&& exists|now: WallTime|
                        #![trigger now.wf()]
                        now.wf() && final(self).entries_view() == scan_spec(
                        old(self).cfg.path@,
                        listing@,
                        Some(ARCHIVE_DIR_NAME@),
                        now,
                    )
                    &&& Self::archive_progress(*final(self), a, 0)
                },
                _ => a is Abort,
            },
            old(self).phase == Phase::AwaitMove ==> if event is Done {
                &&& final(self).entries == old(self).entries
                &&& Self::archive_progress(*final(self), a, old(self).next as int)
            } else {
                a is Abort
            },
            old(self).phase == Phase::AwaitArchiveListing ==> match event {
                Event::Listed { dir_is_dir, listing } => if !dir_is_dir {
                    a == Action::Finish(Err(DeclutterError::DirectoryNotFound))
                } else {
                    &&& exists|now: WallTime|
                        #![trigger now.wf()]
                        now.wf() && final(self).entries_view() == scan_spec(
                        archive_dir_spec(old(self).cfg),
                        listing@,
                        None,
                        now,
                    )
                    &&& Self::reap_progress(*final(self), a, 0)
                },
                _ => a is Abort,
            },
            old(self).phase == Phase::AwaitRemoval ==> if event is Done {
                &&& final(self).entries == old(self).entries
                &&& Self::reap_progress(*final(self), a, old(self).next as int)
            } else {
                a is Abort
            },
    {
        match (self.phase, event) {
            (Phase::AwaitArchive, Event::Done) => {
                self.phase = Phase::AwaitTargetListing;
                Action::List(self.cfg.path.clone())
            },
            (Phase::AwaitTargetListing, Event::Listed { dir_is_dir, listing }) => {
                let dir = self.cfg.path.as_str();
                match list_dir_with_meta(dir, dir_is_dir, &listing, Some(ARCHIVE_DIR_NAME)) {
                    Err(e) => {
                        self.phase = Phase::Finished;
                        Action::Finish(Err(e))
                    },
                    Ok(v) => {
                        self.entries = v;
                        self.next = 0;
                        self.advance_archive()
                    },
                }
            },
            (Phase::AwaitMove, Event::Done) => self.advance_archive(),
            (Phase::AwaitArchiveListing, Event::Listed { dir_is_dir, listing }) => {
                let dir = archive_path(&self.cfg);
                match list_dir_with_meta(dir.as_str(), dir_is_dir, &listing, None) {
                    Err(e) => {
                        self.phase = Phase::Finished;
                        Action::Finish(Err(e))
                    },
                    Ok(v) => {
                        self.entries = v;
                        self.next = 0;
                        self.advance_reap()
                    },
                }
            },
            (Phase::AwaitRemoval, Event::Done) => self.advance_reap(),
            _ => {
                self.phase = Phase::Finished;
                Action::Abort
            },
        }
    }
}

/// A pass over entries none of which has reached the archive threshold moves
/// nothing: it goes straight on to the listing of the archive.
pub proof fn lemma_no_move_below_archive_threshold(post: DeclutterRun, a: Action)
    requires
        DeclutterRun::archive_progress(post, a, 0),
        post.none_archive_due(0, post.entries@.len() as int),
    ensures
        a is List,
{
    if let Action::Move(m) = a {
        assert(!archive_due(post.cfg, post.last_decided()));
    }
}

/// A pass over archive entries none of which has reached the deletion
/// threshold removes nothing: the run ends successfully.
pub proof fn lemma_no_removal_below_deletion_threshold(post: DeclutterRun, a: Action)
    requires
        DeclutterRun::reap_progress(post, a, 0),
        post.none_reaped(0, post.entries@.len() as int),
    ensures
        a matches Action::Finish(r) && r is Ok,
{
    if let Action::Remove(r) = a {
        assert(!reaped(post.cfg, post.last_decided()));
    }
}

/// A move that a run decides for an entry whose path is the run's directory
/// joined with a plain name takes it into the archive under that name, a
/// dot, a timestamp and the backup suffix.
pub proof fn lemma_run_moves_under_own_name(
    post: DeclutterRun,
    a: Action,
    from: int,
    name: Seq<char>,
)
    requires
        DeclutterRun::archive_progress(post, a, from),
        a is Move,
        plain_name(name),
        post.last_decided().path == join_spec(post.cfg.path@, name),
    ensures
        a matches Action::Move(m) && m.from@ == post.last_decided().path && exists|stamp: Seq<char>|
            m.to@ == join_spec(archive_dir_spec(post.cfg), #[trigger] archived_name(name, stamp)),
{
    if let Action::Move(m) = a {
        let now = choose|now: WallTime|
            #![trigger now.wf()]
            {
                &&& now.wf()
                &&& archive_decision_at(post.cfg, post.last_decided(), now)
                    == Ok::<Option<MoveView>, DeclutterError>(Some(m@))
                &&& stampable(now.secs) ==> archived_as_named(
                    post.cfg,
                    post.last_decided(),
                    utc_compact_of(now.secs),
                    Ok(Some(m@)),
                )
            };
        assert(join_spec(post.cfg.path@, name) == post.last_decided().path);
        let stamp = utc_compact_of(now.secs);
        assert(m.to@ == join_spec(archive_dir_spec(post.cfg), archived_name(name, stamp)));
    }
}

} // verus!
