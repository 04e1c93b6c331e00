use crate::clock::{clock_now, format_utc_compact, stampable, utc_compact_of, WallTime};
use crate::paths::{
    file_name_of, join_path, join_spec, lemma_join_injective, path_file_name, plain_name,
};
use crate::scan::{
    lemma_excluded_child_never_scanned, scan_spec, DirEntryWithAge, EntryView, RawEntry,
};
use crate::DeclutterError;
use vstd::prelude::*;
use vstd::string::StringExecFns;

verus! {

/// Name of the hidden archive folder kept inside every decluttered directory.
pub const ARCHIVE_DIR_NAME: &'static str = ".duansheli-archive";

/// Suffix that closes the name of every archived entry.
pub const BACKUP_SUFFIX: &'static str = ".bak";

/// Seconds in one hour.
pub const SECONDS_PER_HOUR: u64 = 3600;

/// One directory to declutter, with its two age thresholds in hours: entries
/// at least `time_to_archive_hours` old move into the archive, archived
/// entries at least `time_to_delete_from_archive_hours` old are removed.
#[derive(Clone, Debug)]
pub struct DirConfig {
    pub path: String,
    pub time_to_archive_hours: u64,
    pub time_to_delete_from_archive_hours: u64,
}

/// An age of `age` seconds has reached a threshold of `hours` hours.
pub open spec fn due(age: int, hours: int) -> bool {
    age >= hours * SECONDS_PER_HOUR as int
}

/// Whether an age of `age` seconds has reached a threshold of `hours` hours.
/// An age exactly at the threshold has reached it.
pub fn is_due(age: u64, hours: u64) -> (r: bool)
    ensures
        r == due(age as int, hours as int),
{
    let h: u128 = hours as u128;
    assert(h * 3600 <= u64::MAX as u128 * 3600) by (nonlinear_arith)
        requires
            h <= u64::MAX,
    ;
    (age as u128) >= h * (SECONDS_PER_HOUR as u128)
}

/// The path of the archive folder of the configured directory.
pub open spec fn archive_dir_spec(cfg: DirConfig) -> Seq<char> {
    join_spec(cfg.path@, ARCHIVE_DIR_NAME@)
}

/// The path of the archive folder of the configured directory.
pub fn archive_path(cfg: &DirConfig) -> (r: String)
    ensures
        r@ == archive_dir_spec(*cfg),
{
    join_path(cfg.path.as_str(), ARCHIVE_DIR_NAME)
}

/// The name under which an entry called `name` is archived at the timestamp
/// `stamp`: `<name>.<stamp>.bak`.
pub open spec fn archived_name(name: Seq<char>, stamp: Seq<char>) -> Seq<char> {
    name + seq!['.'] + stamp + BACKUP_SUFFIX@
}

/// The name under which an entry called `name` is archived at the timestamp
/// `stamp`.
pub fn archive_file_name(name: &str, stamp: &str) -> (r: String)
    ensures
        r@ == archived_name(name@, stamp@),
{
    let mut r = String::from_str(name);
    r.append(".");
    r.append(stamp);
    r.append(BACKUP_SUFFIX);
    proof {
        reveal_strlit(".");
        assert(r@ =~= archived_name(name@, stamp@));
    }
    r
}

/// A move of the entry at `from` to the archive path `to`.
#[derive(Clone, Debug)]
pub struct ArchiveMove {
    pub from: String,
    pub to: String,
}

/// The mathematical content of an [`ArchiveMove`].
pub ghost struct MoveView {
    pub from: Seq<char>,
    pub to: Seq<char>,
}

impl View for ArchiveMove {
    type V = MoveView;

    open spec fn view(&self) -> MoveView {
        MoveView { from: self.from@, to: self.to@ }
    }
}

/// The archival decision for one scanned entry, with the timestamp `stamp`:
/// nothing below the threshold; at or above it, a move into the archive under
/// the entry's name with the timestamp and the suffix, or an error where the
/// path has no file name.
pub open spec fn archive_target(cfg: DirConfig, e: EntryView, stamp: Seq<char>) -> Result<
    Option<MoveView>,
    DeclutterError,
> {
    if !due(e.age as int, cfg.time_to_archive_hours as int) {
        Ok(None)
    } else {
        match file_name_of(e.path) {
            None => Err(DeclutterError::InvalidFileName),
            Some(n) => Ok(
                Some(
                    MoveView {
                        from: e.path,
                        to: join_spec(archive_dir_spec(cfg), archived_name(n, stamp)),
                    },
                ),
            ),
        }
    }
}

/// The content of an archival decision.
pub open spec fn move_result_view(r: Result<Option<ArchiveMove>, DeclutterError>) -> Result<
    Option<MoveView>,
    DeclutterError,
> {
    match r {
        Ok(Some(m)) => Ok(Some(m@)),
        Ok(None) => Ok(None),
        Err(e) => Err(e),
    }
}

/// Where the entry's path is a directory joined with a plain name and the
/// entry is due, the decision `r` is the move of the entry into the archive
/// under that name with the timestamp `stamp` and the suffix.
pub open spec fn archived_as_named(
    cfg: DirConfig,
    e: EntryView,
    stamp: Seq<char>,
    r: Result<Option<MoveView>, DeclutterError>,
) -> bool {
    forall|dir: Seq<char>, name: Seq<char>|
        plain_name(name) && e.path == #[trigger] join_spec(dir, name) && due(
            e.age as int,
            cfg.time_to_archive_hours as int,
        ) ==> r == Ok::<Option<MoveView>, DeclutterError>(
            Some(
                MoveView {
                    from: e.path,
                    to: join_spec(archive_dir_spec(cfg), archived_name(name, stamp)),
                },
            ),
        )
}

/// Decides what the archival pass does with one scanned entry, given the
/// timestamp `stamp` of the moment of the move (see [`archive_target`]).
pub fn archive_move_at(cfg: &DirConfig, entry: &DirEntryWithAge, stamp: &str) -> (r: Result<
    Option<ArchiveMove>,
    DeclutterError,
>)
    ensures
        move_result_view(r) == archive_target(*cfg, entry@, stamp@),
        archived_as_named(*cfg, entry@, stamp@, move_result_view(r)),
{
    if !is_due(entry.seconds_since_modification, cfg.time_to_archive_hours) {
        return Ok(None);
    }
    match path_file_name(entry.path.as_str()) {
        None => Err(DeclutterError::InvalidFileName),
        Some(n) => {
            let dir = archive_path(cfg);
            let name = archive_file_name(n.as_str(), stamp);
            let to = join_path(dir.as_str(), name.as_str());
            Ok(Some(ArchiveMove { from: entry.path.clone(), to }))
        },
    }
}

/// The archival decision for one scanned entry when the move happens at the
/// instant `now`: as [`archive_target`] with the timestamp of `now`, except
/// that a due entry with a file name cannot be moved at an instant that has no
/// timestamp.
pub open spec fn archive_decision_at(cfg: DirConfig, e: EntryView, now: WallTime) -> Result<
    Option<MoveView>,
    DeclutterError,
> {
    if due(e.age as int, cfg.time_to_archive_hours as int) && file_name_of(e.path) is Some
        && !stampable(now.secs) {
        Err(DeclutterError::TimestampUnavailable)
    } else {
        archive_target(cfg, e, utc_compact_of(now.secs))
    }
}

/// Decides what the archival pass does with one scanned entry when the move
/// happens at the instant `now` (see [`archive_decision_at`]).
pub fn archive_move_at_time(cfg: &DirConfig, entry: &DirEntryWithAge, now: WallTime) -> (r: Result<
    Option<ArchiveMove>,
    DeclutterError,
>)
    ensures
        move_result_view(r) == archive_decision_at(*cfg, entry@, now),
        stampable(now.secs) ==> archived_as_named(
            *cfg,
            entry@,
            utc_compact_of(now.secs),
            move_result_view(r),
        ),
{
    if !is_due(entry.seconds_since_modification, cfg.time_to_archive_hours) {
        return Ok(None);
    }
    if path_file_name(entry.path.as_str()).is_none() {
        return Err(DeclutterError::InvalidFileName);
    }
    match format_utc_compact(now.secs) {
        None => Err(DeclutterError::TimestampUnavailable),
        Some(stamp) => archive_move_at(cfg, entry, stamp.as_str()),
    }
}

/// Decides what the archival pass does with one scanned entry, reading the
/// system clock for the timestamp when the entry is due. An entry below the
/// threshold stays where it is; a due entry without a file name is an error;
/// any other due entry is moved under `<name>.<YYYYMMDDTHHMMSSZ>.bak` into
/// the archive, with the timestamp of the instant the clock gave, unless that
/// instant lies outside the years that can be rendered.
pub fn move_to_archive(cfg: &DirConfig, entry: &DirEntryWithAge) -> (r: Result<
    Option<ArchiveMove>,
    DeclutterError,
>)
    ensures
        !due(entry.seconds_since_modification as int, cfg.time_to_archive_hours as int) ==> r
            == Ok::<Option<ArchiveMove>, DeclutterError>(None),
        due(entry.seconds_since_modification as int, cfg.time_to_archive_hours as int)
            && file_name_of(entry.path@) is None ==> r == Err::<
            Option<ArchiveMove>,
            DeclutterError,
        >(DeclutterError::InvalidFileName),
        exists|now: WallTime|
            #![trigger now.wf()]
            {
                &&& now.wf()
                &&& move_result_view(r) == archive_decision_at(*cfg, entry@, now)
                &&& stampable(now.secs) ==> archived_as_named(
                    *cfg,
                    entry@,
                    utc_compact_of(now.secs),
                    move_result_view(r),
                )
            },
{
    if !is_due(entry.seconds_since_modification, cfg.time_to_archive_hours) {
        let r = Ok(None);
        let ghost epoch = WallTime { secs: 0, nanos: 0 };
        assert(epoch.wf() && move_result_view(r) == archive_decision_at(*cfg, entry@, epoch));
        return r;
    }
    let now = clock_now();
    archive_move_at_time(cfg, entry, now)
}

/// A removal of an archived entry: a file is deleted, a directory is removed
/// as an empty container only.
#[derive(Clone, Debug)]
pub enum Removal {
    File(String),
    Directory(String),
}

/// The reaping decision for one entry of the archive: whether it is removed.
pub open spec fn reaped(cfg: DirConfig, e: EntryView) -> bool {
    due(e.age as int, cfg.time_to_delete_from_archive_hours as int)
}

/// Decides what the reaping pass does with one scanned archive entry. An
/// entry below the deletion threshold stays; one at or above it is removed,
/// as a directory where it is one and as a file otherwise.
pub fn delete_file(cfg: &DirConfig, entry: &DirEntryWithAge) -> (r: Option<Removal>)
    ensures
        r is None <==> !reaped(*cfg, entry@),
        r matches Some(Removal::Directory(p)) ==> entry.is_dir && p@ == entry.path@,
        r matches Some(Removal::File(p)) ==> !entry.is_dir && p@ == entry.path@,
{
    if !is_due(entry.seconds_since_modification, cfg.time_to_delete_from_archive_hours) {
        None
    } else if entry.is_dir {
        Some(Removal::Directory(entry.path.clone()))
    } else {
        Some(Removal::File(entry.path.clone()))
    }
}

/// An entry that has reached the archive threshold but not the deletion
/// threshold is moved into the archive under a name that starts with its own
/// name and a dot and ends in the backup suffix, and the reaping pass, which
/// sees the same age there, keeps it.
pub proof fn lemma_archived_entry_is_kept(cfg: DirConfig, e: EntryView, stamp: Seq<char>)
    requires
        due(e.age as int, cfg.time_to_archive_hours as int),
        !due(e.age as int, cfg.time_to_delete_from_archive_hours as int),
        file_name_of(e.path) is Some,
    ensures
        ({
            let n = file_name_of(e.path)->0;
            let a = archived_name(n, stamp);
            &&& archive_target(cfg, e, stamp) matches Ok(Some(m))
            &&& m.from == e.path
            &&& m.to == join_spec(archive_dir_spec(cfg), a)
            &&& a.subrange(0, n.len() as int + 1) == n.push('.')
            &&& a.subrange(a.len() - BACKUP_SUFFIX@.len(), a.len() as int) == BACKUP_SUFFIX@
            &&& !reaped(cfg, EntryView { path: m.to, age: e.age, is_dir: e.is_dir })
        }),
{
    let n = file_name_of(e.path)->0;
    let a = archived_name(n, stamp);
    assert(a.subrange(0, n.len() as int + 1) =~= n.push('.'));
    assert(a.subrange(a.len() - BACKUP_SUFFIX@.len(), a.len() as int) =~= BACKUP_SUFFIX@);
}

/// Once a directory holds no entry at the archive threshold and its archive
/// no entry at the deletion threshold, a further run decides no move and no
/// removal, whatever timestamp it would use.
pub proof fn lemma_decluttered_directory_is_stable(
    cfg: DirConfig,
    entries: Seq<EntryView>,
    archived: Seq<EntryView>,
)
    requires
        forall|i: int|
            0 <= i < entries.len() ==> !due(
                #[trigger] entries[i].age as int,
                cfg.time_to_archive_hours as int,
            ),
        forall|i: int|
            0 <= i < archived.len() ==> !due(
                #[trigger] archived[i].age as int,
                cfg.time_to_delete_from_archive_hours as int,
            ),
    ensures
        forall|i: int, stamp: Seq<char>|
            0 <= i < entries.len() ==> #[trigger] archive_target(cfg, entries[i], stamp) == Ok::<
                Option<MoveView>,
                DeclutterError,
            >(None),
        forall|i: int| 0 <= i < archived.len() ==> !#[trigger] reaped(cfg, archived[i]),
{
}

/// The archive folder is never a candidate of the scan of its own directory:
/// that scan excludes the archive's name, and no reported entry sits at the
/// archive's path.
pub proof fn lemma_archive_never_scanned(cfg: DirConfig, listing: Seq<RawEntry>, now: WallTime)
    ensures
        forall|j: int|
            0 <= j < scan_spec(cfg.path@, listing, Some(ARCHIVE_DIR_NAME@), now).len()
                ==> #[trigger] scan_spec(cfg.path@, listing, Some(ARCHIVE_DIR_NAME@), now)[j].path
                != archive_dir_spec(cfg),
{
    lemma_excluded_child_never_scanned(cfg.path@, listing, ARCHIVE_DIR_NAME@, now);
}

/// An entry whose age is exactly a threshold is treated as having reached it:
/// at the archive threshold it is not left in place, at the deletion
/// threshold it is removed.
pub proof fn lemma_threshold_is_inclusive(cfg: DirConfig, e: EntryView, stamp: Seq<char>)
    ensures
        e.age == cfg.time_to_archive_hours * SECONDS_PER_HOUR ==> archive_target(cfg, e, stamp)
            != Ok::<Option<MoveView>, DeclutterError>(None),
        e.age == cfg.time_to_delete_from_archive_hours * SECONDS_PER_HOUR ==> reaped(cfg, e),
{
}

/// Two entries of one name archived under different timestamps get different
/// destinations; under the same timestamp they get the same one, so the
/// second move finds its destination taken.
pub proof fn lemma_destination_follows_stamp(
    cfg: DirConfig,
    name: Seq<char>,
    stamp1: Seq<char>,
    stamp2: Seq<char>,
)
    ensures
        join_spec(archive_dir_spec(cfg), archived_name(name, stamp1)) == join_spec(
            archive_dir_spec(cfg),
            archived_name(name, stamp2),
        ) <==> stamp1 == stamp2,
{
    let a1 = archived_name(name, stamp1);
    let a2 = archived_name(name, stamp2);
    lemma_join_injective(archive_dir_spec(cfg), a1, a2);
    if a1 == a2 {
        let k = name.len() as int + 1;
        assert(stamp1 =~= a1.subrange(k, a1.len() - BACKUP_SUFFIX@.len()));
        assert(stamp2 =~= a2.subrange(k, a2.len() - BACKUP_SUFFIX@.len()));
    }
}

} // verus!
